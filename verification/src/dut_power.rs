//! The fail-safe power control loop of the device under test.
//!
//! Once per period the loop takes one synchronized voltage and current
//! reading, checks it against fixed limits, and either forces the outputs
//! into the electrically safe configuration or applies the pending request.
//! [`DutPwrThread`] holds the state of that loop; the caller owns the clock,
//! the sensors and the output lines, and calls [`DutPwrThread::cycle`] once
//! per period.

use crate::ieee754::{greater_than, gt, less_than, lt, scaled_value};
use vstd::arithmetic::power2::{lemma2_to64, lemma_pow2_adds, pow2};
use vstd::prelude::*;

verus! {

/// The oldest reading the loop acts on, in nanoseconds.
pub const MAX_AGE: u64 = 300_000_000;

/// The period of the control loop, in milliseconds.
pub const THREAD_INTERVAL: u64 = 100;

/// The period at which the reported state is handed on, in milliseconds.
pub const TASK_INTERVAL: u64 = 200;

/// The largest current the output may carry: 5 A, as a bit pattern.
pub const MAX_CURRENT: u32 = 0x40a0_0000;

/// The largest voltage at the output: 48 V, as a bit pattern.
pub const MAX_VOLTAGE: u32 = 0x4240_0000;

/// The smallest voltage at the output: -1 V, as a bit pattern.
pub const MIN_VOLTAGE: u32 = 0xbf80_0000;

/// What an outside actor asks of the power output.
#[derive(Clone, Copy, PartialEq, Eq, Debug, Structural)]
pub enum OutputRequest {
    Idle,
    On,
    Off,
    OffDischarge,
}

/// What the control loop reports about the power output.
#[derive(Clone, Copy, PartialEq, Eq, Debug, Structural)]
pub enum OutputState {
    On,
    Off,
    OffDischarge,
    InvertedPolarity,
    OverCurrent,
    OverVoltage,
    RealtimeViolation,
}

impl OutputRequest {
    /// The byte that stands for this request where requests are exchanged as
    /// numbers.
    pub open spec fn code(self) -> u8 {
        match self {
            OutputRequest::Idle => 0,
            OutputRequest::On => 1,
            OutputRequest::Off => 2,
            OutputRequest::OffDischarge => 3,
        }
    }

    /// The request that a byte stands for, if any.
    pub open spec fn decode(val: u8) -> Option<Self> {
        if val == 0 {
            Some(OutputRequest::Idle)
        } else if val == 1 {
            Some(OutputRequest::On)
        } else if val == 2 {
            Some(OutputRequest::Off)
        } else if val == 3 {
            Some(OutputRequest::OffDischarge)
        } else {
            None
        }
    }

    /// The byte that stands for this request.
    pub fn to_u8(self) -> (val: u8)
        ensures
            val == self.code(),
            Self::decode(val) == Some(self),
    {
        match self {
            OutputRequest::Idle => 0,
            OutputRequest::On => 1,
            OutputRequest::Off => 2,
            OutputRequest::OffDischarge => 3,
        }
    }

    /// The request that `val` stands for; `None` for a byte that stands for
    /// none.
    pub fn try_from_u8(val: u8) -> (req: Option<Self>)
        ensures
            req == Self::decode(val),
            req matches Some(r) ==> r.code() == val,
    {
        if val == 0 {
            Some(OutputRequest::Idle)
        } else if val == 1 {
            Some(OutputRequest::On)
        } else if val == 2 {
            Some(OutputRequest::Off)
        } else if val == 3 {
            Some(OutputRequest::OffDischarge)
        } else {
            None
        }
    }
}

impl OutputState {
    /// The byte that stands for this state where states are exchanged as
    /// numbers.
    pub open spec fn code(self) -> u8 {
        match self {
            OutputState::On => 0,
            OutputState::Off => 1,
            OutputState::OffDischarge => 2,
            OutputState::InvertedPolarity => 3,
            OutputState::OverCurrent => 4,
            OutputState::OverVoltage => 5,
            OutputState::RealtimeViolation => 6,
        }
    }

    /// The state that a byte stands for, if any.
    pub open spec fn decode(val: u8) -> Option<Self> {
        if val == 0 {
            Some(OutputState::On)
        } else if val == 1 {
            Some(OutputState::Off)
        } else if val == 2 {
            Some(OutputState::OffDischarge)
        } else if val == 3 {
            Some(OutputState::InvertedPolarity)
        } else if val == 4 {
            Some(OutputState::OverCurrent)
        } else if val == 5 {
            Some(OutputState::OverVoltage)
        } else if val == 6 {
            Some(OutputState::RealtimeViolation)
        } else {
            None
        }
    }

    /// Whether this state reports a fault rather than an applied request.
    pub open spec fn is_fault(self) -> bool {
        self == OutputState::InvertedPolarity || self == OutputState::OverCurrent || self
            == OutputState::OverVoltage || self == OutputState::RealtimeViolation
    }

    /// The byte that stands for this state.
    pub fn to_u8(self) -> (val: u8)
        ensures
            val == self.code(),
            Self::decode(val) == Some(self),
    {
        match self {
            OutputState::On => 0,
            OutputState::Off => 1,
            OutputState::OffDischarge => 2,
            OutputState::InvertedPolarity => 3,
            OutputState::OverCurrent => 4,
            OutputState::OverVoltage => 5,
            OutputState::RealtimeViolation => 6,
        }
    }

    /// The state that `val` stands for; `None` for a byte that stands for
    /// none.
    pub fn try_from_u8(val: u8) -> (state: Option<Self>)
        ensures
            state == Self::decode(val),
            state matches Some(s) ==> s.code() == val,
    {
        if val == 0 {
            Some(OutputState::On)
        } else if val == 1 {
            Some(OutputState::Off)
        } else if val == 2 {
            Some(OutputState::OffDischarge)
        } else if val == 3 {
            Some(OutputState::InvertedPolarity)
        } else if val == 4 {
            Some(OutputState::OverCurrent)
        } else if val == 5 {
            Some(OutputState::OverVoltage)
        } else if val == 6 {
            Some(OutputState::RealtimeViolation)
        } else {
            None
        }
    }
}

/// The switch in the power path to the device under test.
#[derive(Clone, Copy, PartialEq, Eq, Debug, Structural)]
pub enum PowerPath {
    /// No current can flow to the device.
    Open,
    /// The device is powered.
    Closed,
}

/// The load that drains the output capacitance.
#[derive(Clone, Copy, PartialEq, Eq, Debug, Structural)]
pub enum Discharge {
    /// The load is connected.
    Engaged,
    /// The load is disconnected.
    Released,
}

/// One configuration of the two actuators.
#[derive(Clone, Copy, PartialEq, Eq, Debug, Structural)]
pub struct Actuators {
    pub power_path: PowerPath,
    pub discharge: Discharge,
}

impl Actuators {
    /// The electrically safe configuration: power path open, discharge
    /// engaged.
    pub open spec fn safe() -> Self {
        Actuators { power_path: PowerPath::Open, discharge: Discharge::Engaged }
    }

    /// The configuration that a request asks for; `None` where it asks for
    /// nothing.
    pub open spec fn requested(req: OutputRequest) -> Option<Self> {
        match req {
            OutputRequest::Idle => None,
            OutputRequest::On => Some(
                Actuators { power_path: PowerPath::Closed, discharge: Discharge::Released },
            ),
            OutputRequest::Off => Some(
                Actuators { power_path: PowerPath::Open, discharge: Discharge::Released },
            ),
            OutputRequest::OffDischarge => Some(
                Actuators { power_path: PowerPath::Open, discharge: Discharge::Engaged },
            ),
        }
    }

    /// The level of the power line: low closes the power path.
    pub open spec fn pwr_level(self) -> u8 {
        match self.power_path {
            PowerPath::Closed => 0,
            PowerPath::Open => 1,
        }
    }

    /// The level of the discharge line: low engages the discharge.
    pub open spec fn discharge_level(self) -> u8 {
        match self.discharge {
            Discharge::Engaged => 0,
            Discharge::Released => 1,
        }
    }

    /// The electrically safe configuration.
    pub fn fail_safe() -> (cfg: Self)
        ensures
            cfg == Self::safe(),
    {
        Actuators { power_path: PowerPath::Open, discharge: Discharge::Engaged }
    }

    /// The configuration that `req` asks for.
    pub fn for_request(req: OutputRequest) -> (cfg: Option<Self>)
        ensures
            cfg == Self::requested(req),
    {
        match req {
            OutputRequest::Idle => None,
            OutputRequest::On => Some(
                Actuators { power_path: PowerPath::Closed, discharge: Discharge::Released },
            ),
            OutputRequest::Off => Some(
                Actuators { power_path: PowerPath::Open, discharge: Discharge::Released },
            ),
            OutputRequest::OffDischarge => Some(
                Actuators { power_path: PowerPath::Open, discharge: Discharge::Engaged },
            ),
        }
    }

    /// The level to drive the power line to.
    pub fn pwr_line(&self) -> (level: u8)
        ensures
            level == self.pwr_level(),
    {
        match self.power_path {
            PowerPath::Closed => 0,
            PowerPath::Open => 1,
        }
    }

    /// The level to drive the discharge line to.
    pub fn discharge_line(&self) -> (level: u8)
        ensures
            level == self.discharge_level(),
    {
        match self.discharge {
            Discharge::Engaged => 0,
            Discharge::Released => 1,
        }
    }
}

/// One synchronized reading of output voltage and current.
#[derive(Clone, Copy, PartialEq, Eq, Debug, Structural)]
pub struct Feedback {
    /// When the reading was taken, in nanoseconds on the caller's clock.
    pub timestamp: u64,
    /// The voltage in volts, as a single-precision bit pattern.
    pub voltage: u32,
    /// The current in amperes, as a single-precision bit pattern.
    pub current: u32,
}

/// The state that a request leads to once applied; `None` for `Idle`.
pub open spec fn state_for(req: OutputRequest) -> Option<OutputState> {
    match req {
        OutputRequest::Idle => None,
        OutputRequest::On => Some(OutputState::On),
        OutputRequest::Off => Some(OutputState::Off),
        OutputRequest::OffDischarge => Some(OutputState::OffDischarge),
    }
}

/// The state that `req` leads to once applied.
pub fn applied(req: OutputRequest) -> (state: Option<OutputState>)
    ensures
        state == state_for(req),
{
    match req {
        OutputRequest::Idle => None,
        OutputRequest::On => Some(OutputState::On),
        OutputRequest::Off => Some(OutputState::Off),
        OutputRequest::OffDischarge => Some(OutputState::OffDischarge),
    }
}

/// How old a reading taken at `timestamp` is at `now`; a reading from the
/// future has age 0.
pub open spec fn age(now: u64, timestamp: u64) -> nat {
    if now >= timestamp {
        (now - timestamp) as nat
    } else {
        0
    }
}

/// Whether there is no reading, or only one that is older than [`MAX_AGE`].
pub open spec fn stale(feedback: Option<Feedback>, now: u64) -> bool {
    match feedback {
        None => true,
        Some(f) => age(now, f.timestamp) > MAX_AGE,
    }
}

/// The fault that a cycle with this reading ends in, if any. The checks come
/// in a fixed order: a missing or stale reading, then too high a voltage,
/// then too low a voltage, then too high a current. The first that holds
/// decides.
pub open spec fn fault(feedback: Option<Feedback>, now: u64) -> Option<OutputState> {
    match feedback {
        None => Some(OutputState::RealtimeViolation),
        Some(f) => if age(now, f.timestamp) > MAX_AGE {
            Some(OutputState::RealtimeViolation)
        } else if gt(f.voltage, MAX_VOLTAGE) {
            Some(OutputState::OverVoltage)
        } else if lt(f.voltage, MIN_VOLTAGE) {
            Some(OutputState::InvertedPolarity)
        } else if gt(f.current, MAX_CURRENT) {
            Some(OutputState::OverCurrent)
        } else {
            None
        },
    }
}

/// The fault that a cycle with this reading ends in, if any.
pub fn check(feedback: Option<Feedback>, now: u64) -> (res: Option<OutputState>)
    ensures
        res == fault(feedback, now),
{
    match feedback {
        None => Some(OutputState::RealtimeViolation),
        Some(f) => {
            let old_age: u64 = if now >= f.timestamp {
                now - f.timestamp
            } else {
                0
            };
            if old_age > MAX_AGE {
                Some(OutputState::RealtimeViolation)
            } else if greater_than(f.voltage, MAX_VOLTAGE) {
                Some(OutputState::OverVoltage)
            } else if less_than(f.voltage, MIN_VOLTAGE) {
                Some(OutputState::InvertedPolarity)
            } else if greater_than(f.current, MAX_CURRENT) {
                Some(OutputState::OverCurrent)
            } else {
                None
            }
        },
    }
}

/// The state of the control loop.
#[derive(Clone, Copy, Debug)]
pub struct DutPwrThread {
    request: OutputRequest,
    state: OutputState,
    actuators: Actuators,
    tick: u32,
}

/// The control loop as a value: what is pending, what is reported, what the
/// actuators were last driven to, and the liveness counter.
pub struct DutPwrView {
    pub request: OutputRequest,
    pub state: OutputState,
    pub actuators: Actuators,
    pub tick: u32,
}

impl DutPwrView {
    /// A loop that has not run yet: nothing pending, output off, actuators
    /// safe, counter 0.
    pub open spec fn initial() -> Self {
        DutPwrView {
            request: OutputRequest::Idle,
            state: OutputState::Off,
            actuators: Actuators::safe(),
            tick: 0,
        }
    }

    /// The loop after a request was handed in: the newest request replaces
    /// whatever was pending.
    pub open spec fn with_request(self, req: OutputRequest) -> Self {
        DutPwrView { request: req, ..self }
    }

    /// The counter after one more live cycle. It wraps to 0 after `u32::MAX`.
    pub open spec fn next_tick(self) -> u32 {
        if self.tick == u32::MAX {
            0
        } else {
            (self.tick + 1) as u32
        }
    }

    /// The loop after a cycle that ended in the fault `reason`: the actuators
    /// are safe and the pending request stays pending. The counter advances
    /// unless the reading itself was missing or stale.
    pub open spec fn after_fault(self, reason: OutputState) -> Self {
        DutPwrView {
            request: self.request,
            state: reason,
            actuators: Actuators::safe(),
            tick: if reason == OutputState::RealtimeViolation {
                self.tick
            } else {
                self.next_tick()
            },
        }
    }

    /// The loop after a cycle without fault: the pending request is taken
    /// and, unless it is `Idle`, applied.
    pub open spec fn after_clear(self) -> Self {
        DutPwrView {
            request: OutputRequest::Idle,
            state: match state_for(self.request) {
                Some(s) => s,
                None => self.state,
            },
            actuators: match Actuators::requested(self.request) {
                Some(a) => a,
                None => self.actuators,
            },
            tick: self.next_tick(),
        }
    }

    /// The loop after one cycle with the given reading.
    pub open spec fn after_cycle(self, feedback: Option<Feedback>, now: u64) -> Self {
        match fault(feedback, now) {
            Some(reason) => self.after_fault(reason),
            None => self.after_clear(),
        }
    }

    /// The loop after its owner let go of it: actuators safe, output reported
    /// off.
    pub open spec fn after_shutdown(self) -> Self {
        DutPwrView { state: OutputState::Off, actuators: Actuators::safe(), ..self }
    }
}

impl View for DutPwrThread {
    type V = DutPwrView;

    closed spec fn view(&self) -> DutPwrView {
        DutPwrView {
            request: self.request,
            state: self.state,
            actuators: self.actuators,
            tick: self.tick,
        }
    }
}

impl DutPwrThread {
    /// A control loop that has not run yet.
    pub fn new() -> (this: Self)
        ensures
            this@ == DutPwrView::initial(),
    {
        DutPwrThread {
            request: OutputRequest::Idle,
            state: OutputState::Off,
            actuators: Actuators::fail_safe(),
            tick: 0,
        }
    }

    /// Hands in a request. It replaces a request that is still pending, and
    /// is applied by the next cycle that ends without fault.
    pub fn request(&mut self, req: OutputRequest)
        ensures
            final(self)@ == old(self)@.with_request(req),
    {
        self.request = req;
    }

    /// The request that is pending.
    pub fn pending(&self) -> (req: OutputRequest)
        ensures
            req == self@.request,
    {
        self.request
    }

    /// The state that the loop reports.
    pub fn state(&self) -> (state: OutputState)
        ensures
            state == self@.state,
    {
        self.state
    }

    /// The configuration that the actuators are to be in.
    pub fn actuators(&self) -> (cfg: Actuators)
        ensures
            cfg == self@.actuators,
    {
        self.actuators
    }

    /// The liveness counter: the number of cycles that acted on a fresh
    /// reading, modulo two to the power 32.
    pub fn tick(&self) -> (tick: u32)
        ensures
            tick == self@.tick,
    {
        self.tick
    }

    /// Brings the outputs into the safe configuration and reports `reason`.
    fn fail(&mut self, reason: OutputState)
        ensures
            final(self)@ == (DutPwrView {
                state: reason,
                actuators: Actuators::safe(),
                ..old(self)@
            }),
    {
        self.actuators = Actuators::fail_safe();
        self.state = reason;
    }

    /// Runs one cycle on the reading `feedback`, taken by the caller's clock
    /// at or before `now`, and returns the state that the cycle reports. The
    /// caller then drives the lines to [`DutPwrThread::actuators`].
    pub fn cycle(&mut self, feedback: Option<Feedback>, now: u64) -> (state: OutputState)
        ensures
            final(self)@ == old(self)@.after_cycle(feedback, now),
            state == final(self)@.state,
    {
        match check(feedback, now) {
            Some(reason) => {
                if reason != OutputState::RealtimeViolation {
                    self.tick = self.tick.wrapping_add(1);
                }
                self.fail(reason);
            },
            None => {
                self.tick = self.tick.wrapping_add(1);
                match (Actuators::for_request(self.request), applied(self.request)) {
                    (Some(cfg), Some(state)) => {
                        self.actuators = cfg;
                        self.state = state;
                    },
                    _ => {},
                }
                self.request = OutputRequest::Idle;
            },
        }
        self.state
    }

    /// Ends the loop: forces the safe configuration one last time, whatever
    /// was applied before, and reports the output off.
    pub fn shutdown(&mut self)
        ensures
            final(self)@ == old(self)@.after_shutdown(),
    {
        self.fail(OutputState::Off);
    }
}

/// A run of cycles: each entry is the reading and the time of one cycle.
pub type Run = Seq<(Option<Feedback>, u64)>;

/// The number of cycles of a run that acted on a fresh reading.
pub open spec fn live_cycles(run: Run) -> nat
    decreases run.len(),
{
    if run.len() == 0 {
        0
    } else {
        live_cycles(run.drop_last()) + if stale(run.last().0, run.last().1) {
            0nat
        } else {
            1nat
        }
    }
}

impl DutPwrView {
    /// The loop after all cycles of a run, first to last.
    pub open spec fn after_run(self, run: Run) -> Self
        decreases run.len(),
    {
        if run.len() == 0 {
            self
        } else {
            self.after_run(run.drop_last()).after_cycle(run.last().0, run.last().1)
        }
    }
}

/// Fault priority. A reading whose voltage and current are both above their
/// limits never ends a cycle in `OverCurrent`: a fresh one ends it in
/// `OverVoltage`, a stale one in `RealtimeViolation`. Either way the
/// actuators are safe and the pending request stays pending.
pub proof fn lemma_over_voltage_outranks_over_current(s: DutPwrView, f: Feedback, now: u64)
    requires
        gt(f.voltage, MAX_VOLTAGE),
        gt(f.current, MAX_CURRENT),
    ensures
        s.after_cycle(Some(f), now).state != OutputState::OverCurrent,
        !stale(Some(f), now) ==> s.after_cycle(Some(f), now).state == OutputState::OverVoltage,
        stale(Some(f), now) ==> s.after_cycle(Some(f), now).state
            == OutputState::RealtimeViolation,
        s.after_cycle(Some(f), now).actuators == Actuators::safe(),
        s.after_cycle(Some(f), now).request == s.request,
{
}

/// A fault decides the cycle. Whatever is pending, a cycle whose reading
/// shows a fault reports that fault, leaves the actuators safe and leaves the
/// request pending; a cycle reports a fault only if its reading shows it.
pub proof fn lemma_fault_decides_cycle(s: DutPwrView, feedback: Option<Feedback>, now: u64)
    ensures
        fault(feedback, now) matches Some(reason) ==> {
            &&& reason.is_fault()
            &&& s.after_cycle(feedback, now).state == reason
            &&& s.after_cycle(feedback, now).actuators == Actuators::safe()
            &&& s.after_cycle(feedback, now).request == s.request
        },
        fault(feedback, now) is None && s.after_cycle(feedback, now).state.is_fault() ==> {
            &&& s.request == OutputRequest::Idle
            &&& s.after_cycle(feedback, now) == (DutPwrView {
                tick: s.next_tick(),
                ..s
            })
        },
{
}

/// The power path is closed only by a cycle without fault. After a cycle the
/// power path is closed only if the reading showed no fault and either `On`
/// was pending, or nothing was pending and the path was closed before.
pub proof fn lemma_power_only_from_clear_cycle(
    s: DutPwrView,
    feedback: Option<Feedback>,
    now: u64,
)
    ensures
        s.after_cycle(feedback, now).actuators.power_path == PowerPath::Closed <==> {
            &&& fault(feedback, now) is None
            &&& (s.request == OutputRequest::On || (s.request == OutputRequest::Idle
                && s.actuators.power_path == PowerPath::Closed))
        },
{
}

/// Each request is applied once. Of two requests handed in before a cycle
/// without fault, that cycle applies the later one only and leaves nothing
/// pending; the next cycle without fault changes neither the state nor the
/// actuators.
pub proof fn lemma_latest_request_applied_once(
    s: DutPwrView,
    first: OutputRequest,
    second: OutputRequest,
    feedback: Option<Feedback>,
    now: u64,
    next_feedback: Option<Feedback>,
    next_now: u64,
)
    requires
        fault(feedback, now) is None,
        fault(next_feedback, next_now) is None,
    ensures
        ({
            let applied = s.with_request(first).with_request(second).after_cycle(feedback, now);
            let later = applied.after_cycle(next_feedback, next_now);
            &&& applied == s.with_request(second).after_cycle(feedback, now)
            &&& applied.request == OutputRequest::Idle
            &&& state_for(second) matches Some(st) ==> applied.state == st
            &&& Actuators::requested(second) matches Some(cfg) ==> applied.actuators == cfg
            &&& second == OutputRequest::Idle ==> applied.state == s.state && applied.actuators
                == s.actuators
            &&& later.state == applied.state
            &&& later.actuators == applied.actuators
            &&& later.request == OutputRequest::Idle
        }),
{
}

/// The liveness counter moves by one in every cycle that acts on a fresh
/// reading, whether the cycle ends in a fault or not, and stays where it is
/// in a cycle whose reading is missing or stale.
pub proof fn lemma_tick_follows_fresh_readings(
    s: DutPwrView,
    feedback: Option<Feedback>,
    now: u64,
)
    ensures
        stale(feedback, now) <==> s.after_cycle(feedback, now).state
            == OutputState::RealtimeViolation && fault(feedback, now) is Some,
        stale(feedback, now) ==> s.after_cycle(feedback, now).tick == s.tick,
        !stale(feedback, now) ==> s.after_cycle(feedback, now).tick == s.next_tick(),
        s.next_tick() == (s.tick + 1) % 0x1_0000_0000,
        s.next_tick() != s.tick,
{
}

/// Over a run of cycles the liveness counter advances by the number of
/// cycles that acted on a fresh reading, modulo two to the power 32.
pub proof fn lemma_tick_counts_live_cycles(s: DutPwrView, run: Run)
    ensures
        s.after_run(run).tick == (s.tick + live_cycles(run)) % 0x1_0000_0000,
    decreases run.len(),
{
    if run.len() > 0 {
        let before = s.after_run(run.drop_last());
        lemma_tick_counts_live_cycles(s, run.drop_last());
        lemma_tick_follows_fresh_readings(before, run.last().0, run.last().1);
    }
}

/// Safe teardown. Whatever state the loop is in when its owner lets go of
/// it, also `On` with the power path closed, the last configuration of the
/// actuators is the safe one: power path open, discharge engaged.
pub proof fn lemma_shutdown_is_safe(s: DutPwrView)
    ensures
        s.after_shutdown().actuators.power_path == PowerPath::Open,
        s.after_shutdown().actuators.discharge == Discharge::Engaged,
        s.after_shutdown().state == OutputState::Off,
        s.after_shutdown().tick == s.tick,
{
}

impl DutPwrView {
    /// Whether the reported state tells the truth about the actuators: the
    /// power path is closed exactly if the state is `On`, the discharge is
    /// released then, and after a fault or a request to discharge the
    /// actuators are in the safe configuration.
    pub open spec fn coherent(self) -> bool {
        match self.state {
            OutputState::On => Actuators::requested(OutputRequest::On) == Some(self.actuators),
            OutputState::Off => self.actuators.power_path == PowerPath::Open,
            _ => self.actuators == Actuators::safe(),
        }
    }
}

/// What is reported is what the actuators are in. A new loop is coherent,
/// and handing in a request, running a cycle and shutting down keep it so:
/// whoever sees a state reported can rely on the actuators being there.
pub proof fn lemma_reported_state_is_reached(
    s: DutPwrView,
    req: OutputRequest,
    feedback: Option<Feedback>,
    now: u64,
)
    ensures
        DutPwrView::initial().coherent(),
        s.coherent() ==> s.with_request(req).coherent(),
        s.coherent() ==> s.after_cycle(feedback, now).coherent(),
        s.after_shutdown().coherent(),
{
}

/// The limits are the numbers they are documented as: the bit patterns of
/// 48, of -1 and of 5, each scaled by two to the power 149 as all values
/// are.
pub proof fn lemma_limits()
    ensures
        scaled_value(MAX_VOLTAGE) == 48 * pow2(149),
        scaled_value(MIN_VOLTAGE) == -(pow2(149) as int),
        scaled_value(MAX_CURRENT) == 5 * pow2(149),
{
    lemma2_to64();
    // 48 is 1.5 times two to the power 5.
    lemma_pow2_adds(131, 18);
    assert((0x80_0000 + 0x40_0000) * pow2(131) == 48 * (pow2(131) * 0x4_0000)) by (nonlinear_arith);
    // 1 is two to the power 0.
    lemma_pow2_adds(126, 23);
    assert(0x80_0000 * pow2(126) == pow2(126) * 0x80_0000) by (nonlinear_arith);
    // 5 is 1.25 times two to the power 2.
    lemma_pow2_adds(128, 21);
    assert((0x80_0000 + 0x20_0000) * pow2(128) == 5 * (pow2(128) * 0x20_0000)) by (nonlinear_arith);
}

} // verus!
