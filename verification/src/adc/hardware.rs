//! The shared sampling state of one sensor bus, and the channels that read
//! from it.
//!
//! A sampling source owns one [`IioThread`]: a timestamp and one slot per
//! channel. It publishes by storing all slots and then the timestamp. Any
//! number of [`CalibratedChannel`]s read it without locks: a reader loads the
//! timestamp, the slots it wants, and the timestamp again, and keeps the
//! values only if both timestamps are the same valid one.

use crate::adc::calibration::Calibration;
use crate::adc::channels::{
    channels_pwr, channels_stm32, find_channel, first_named, pwr_table, stm32_table, unnamed,
    ChannelDesc,
};
use crate::adc::sampling::{average, mean, raw_from_int, TIMESTAMP_ERROR};
use std::sync::atomic::{AtomicU16, AtomicU64, Ordering};
use std::sync::Arc;
use vstd::prelude::*;

verus! {

/// Why a channel could not be had or read.
#[derive(Clone, Copy, PartialEq, Eq, Debug, Structural)]
pub enum AdcError {
    /// The bus has no channel of the name asked for.
    UnknownChannel,
    /// The entry of the configuration store is too short to hold a
    /// calibration.
    BadCalibration,
    /// The source marked its state invalid: the sensor is broken, and no
    /// further read can succeed.
    SensorBroken,
    /// The channels of one read belong to different sampling states.
    MixedSources,
}

/// One raw sample with what is needed to interpret it.
#[derive(Clone, Copy, PartialEq, Eq, Debug, Structural)]
pub struct Measurement {
    /// When the sample was published, in nanoseconds since the source's
    /// reference time.
    pub ts: u64,
    /// The sample as the converter delivered it.
    pub raw: u16,
    /// The channel's calibration: the sample stands for
    /// `raw * scale - offset`.
    pub calibration: Calibration,
}

/// What two loads of the timestamp, one before and one after the loads of
/// the slots, say about those slots.
#[derive(Clone, Copy, PartialEq, Eq, Debug, Structural)]
pub enum Verdict {
    /// Both loads gave the same valid timestamp: the slots belong to it.
    Consistent,
    /// The timestamp changed in between: the source published meanwhile.
    Torn,
    /// One of the loads gave the invalid timestamp.
    Broken,
}

/// The verdict on a read that saw `ts_before` and `ts_after`.
pub open spec fn verdict(ts_before: u64, ts_after: u64) -> Verdict {
    if ts_before == TIMESTAMP_ERROR || ts_after == TIMESTAMP_ERROR {
        Verdict::Broken
    } else if ts_before == ts_after {
        Verdict::Consistent
    } else {
        Verdict::Torn
    }
}

/// The measurements of a consistent read at `ts`: one per raw value, each
/// with its channel's calibration.
pub open spec fn measurements(ts: u64, raw: Seq<u16>, calibrations: Seq<Calibration>) -> Seq<
    Measurement,
> {
    Seq::new(
        raw.len(),
        |i: int| Measurement { ts, raw: raw[i], calibration: calibrations[i] },
    )
}

/// What a read returns that saw `ts_before`, then the raw values `raw`, then
/// `ts_after`: the measurements if it was consistent, nothing if it was torn
/// and is to be tried again, and an error if the sensor is broken.
pub open spec fn outcome(
    ts_before: u64,
    raw: Seq<u16>,
    calibrations: Seq<Calibration>,
    ts_after: u64,
) -> Result<Option<Seq<Measurement>>, AdcError> {
    match verdict(ts_before, ts_after) {
        Verdict::Broken => Err(AdcError::SensorBroken),
        Verdict::Torn => Ok(None),
        Verdict::Consistent => Ok(Some(measurements(ts_before, raw, calibrations))),
    }
}

/// Whether `res` is what [`outcome`] gives, a vector standing for its
/// sequence.
pub open spec fn is_outcome(
    res: Result<Option<Vec<Measurement>>, AdcError>,
    ts_before: u64,
    raw: Seq<u16>,
    calibrations: Seq<Calibration>,
    ts_after: u64,
) -> bool {
    match outcome(ts_before, raw, calibrations, ts_after) {
        Err(e) => res == Err::<Option<Vec<Measurement>>, AdcError>(e),
        Ok(None) => res == Ok::<Option<Vec<Measurement>>, AdcError>(None),
        Ok(Some(ms)) => res matches Ok(Some(v)) && v@ == ms,
    }
}

/// The verdict on a read that saw `ts_before` and `ts_after`.
pub fn judge(ts_before: u64, ts_after: u64) -> (v: Verdict)
    ensures
        v == verdict(ts_before, ts_after),
{
    if ts_before == TIMESTAMP_ERROR || ts_after == TIMESTAMP_ERROR {
        Verdict::Broken
    } else if ts_before == ts_after {
        Verdict::Consistent
    } else {
        Verdict::Torn
    }
}

/// What a read returns that saw `ts_before`, then the raw values `raw` of
/// channels with the given calibrations, then `ts_after`.
pub fn resolve(ts_before: u64, raw: &Vec<u16>, calibrations: &Vec<Calibration>, ts_after: u64) -> (res:
    Result<Option<Vec<Measurement>>, AdcError>)
    requires
        raw.len() == calibrations.len(),
    ensures
        is_outcome(res, ts_before, raw@, calibrations@, ts_after),
{
    match judge(ts_before, ts_after) {
        Verdict::Broken => Err(AdcError::SensorBroken),
        Verdict::Torn => Ok(None),
        Verdict::Consistent => {
            let mut values: Vec<Measurement> = Vec::new();
            let mut i: usize = 0;
            while i < raw.len()
                invariant
                    i <= raw.len(),
                    raw.len() == calibrations.len(),
                    values@ == measurements(ts_before, raw@, calibrations@).take(i as int),
                decreases raw.len() - i,
            {
                values.push(Measurement { ts: ts_before, raw: raw[i], calibration: calibrations[i] });
                i += 1;
            }
            assert(values@ == measurements(ts_before, raw@, calibrations@));
            Ok(Some(values))
        },
    }
}

/// The shared sampling state of one sensor bus.
pub struct IioThread {
    timestamp: AtomicU64,
    values: Vec<AtomicU16>,
    channel_descs: Vec<ChannelDesc>,
}

impl IioThread {
    #[verifier::type_invariant]
    spec fn one_slot_per_channel(self) -> bool {
        self.values.len() == self.channel_descs.len()
    }

    /// The channels of the bus, in slot order.
    pub closed spec fn channels(&self) -> Seq<ChannelDesc> {
        self.channel_descs@
    }

    /// A state for the given channels that holds nothing valid yet.
    fn with_channels(channel_descs: Vec<ChannelDesc>) -> (this: Self)
        ensures
            this.channels() == channel_descs@,
    {
        let mut values: Vec<AtomicU16> = Vec::new();
        let mut i: usize = 0;
        while i < channel_descs.len()
            invariant
                i <= channel_descs.len(),
                values.len() == i,
            decreases channel_descs.len() - i,
        {
            values.push(AtomicU16::new(0));
            i += 1;
        }
        IioThread { timestamp: AtomicU64::new(TIMESTAMP_ERROR), values, channel_descs }
    }

    /// The state of the processor's own converter, before its source has
    /// published anything: the timestamp is invalid.
    pub fn new_stm32() -> (this: Arc<Self>)
        ensures
            this.channels() == stm32_table(),
    {
        Arc::new(Self::with_channels(channels_stm32()))
    }

    /// The state of the converter on the power board, before its source has
    /// published anything: the timestamp is invalid.
    pub fn new_powerboard() -> (this: Arc<Self>)
        ensures
            this.channels() == pwr_table(),
    {
        Arc::new(Self::with_channels(channels_pwr()))
    }

    /// The number of channels of the bus.
    pub fn len(&self) -> (n: usize)
        ensures
            n == self.channels().len(),
    {
        self.channel_descs.len()
    }

    fn load_timestamp(&self) -> u64 {
        self.timestamp.load(Ordering::Acquire)
    }

    fn store_timestamp(&self, timestamp: u64) {
        self.timestamp.store(timestamp, Ordering::Release)
    }

    fn invalidate_timestamp(&self) {
        self.timestamp.store(TIMESTAMP_ERROR, Ordering::Relaxed)
    }

    fn load_value(&self, index: usize) -> u16
        requires
            index < self.channels().len(),
    {
        proof {
            use_type_invariant(self);
        }
        self.values[index].load(Ordering::Relaxed)
    }

    fn store_value(&self, index: usize, raw: u16)
        requires
            index < self.channels().len(),
    {
        proof {
            use_type_invariant(self);
        }
        self.values[index].store(raw, Ordering::Relaxed)
    }

    /// Publishes one sample per channel: stores the values into their slots,
    /// first to last, and then the timestamp. A reader that sees the new
    /// timestamp sees the new values. Where `values` and the channels differ
    /// in number, the surplus of either is left alone.
    ///
    /// The stores are those of one `Cycle` of the module `protocol`, which
    /// says what readers can see while they are made. The slots cannot be
    /// spoken of in a contract, since other threads load them meanwhile.
    pub fn publish(&self, values: &[u16], timestamp: u64)
        requires
            timestamp != TIMESTAMP_ERROR,
    {
        let n: usize = if values.len() < self.len() {
            values.len()
        } else {
            self.len()
        };
        let mut i: usize = 0;
        while i < n
            invariant
                i <= n,
                n <= values.len(),
                n <= self.channels().len(),
            decreases n - i,
        {
            self.store_value(i, values[i]);
            i += 1;
        }
        self.store_timestamp(timestamp);
    }

    /// Marks the state invalid after a failed acquisition. Every later read
    /// fails until the source publishes again.
    pub fn invalidate(&self) {
        self.invalidate_timestamp();
    }
}

/// The calibrations of the channels of one read, in the order of the read.
pub open spec fn calibrations_of(channels: Seq<&CalibratedChannel>) -> Seq<Calibration> {
    Seq::new(channels.len(), |i: int| channels[i].calibration())
}

/// Whether `res` is the outcome of some read of channels with the given
/// calibrations: whatever the timestamps and raw values were that the read
/// saw, `res` is what [`outcome`] makes of them.
pub open spec fn is_read(
    res: Result<Option<Vec<Measurement>>, AdcError>,
    calibrations: Seq<Calibration>,
) -> bool {
    exists|ts_before: u64, raw: Seq<u16>, ts_after: u64|
        raw.len() == calibrations.len() && #[trigger] is_outcome(
            res,
            ts_before,
            raw,
            calibrations,
            ts_after,
        )
}

/// Whether `res` is the outcome of some read of one channel with the given
/// calibration.
pub open spec fn is_single_read(
    res: Result<Option<Measurement>, AdcError>,
    calibration: Calibration,
) -> bool {
    match res {
        Ok(Some(m)) => m.ts != TIMESTAMP_ERROR && m.calibration == calibration,
        Ok(None) => true,
        Err(e) => e == AdcError::SensorBroken,
    }
}

/// One channel of a sensor bus: where to find its samples and how to
/// interpret them.
pub struct CalibratedChannel {
    iio_thread: Arc<IioThread>,
    index: usize,
    calibration: Calibration,
}

/// `Arc::ptr_eq` of the standard library: whether two handles point to the
/// same sampling state. Nothing is claimed of the answer: it depends on
/// where the states lie in memory, not on what they hold.
#[verifier::external_body]
fn same_state(a: &Arc<IioThread>, b: &Arc<IioThread>) -> (same: bool) {
    Arc::ptr_eq(a, b)
}

/// `Arc::clone` of the standard library: another handle to the same
/// sampling state. The contract claims that the new handle points to what the
/// old one points to.
#[verifier::external_body]
fn share_state(state: &Arc<IioThread>) -> (shared: Arc<IioThread>)
    ensures
        shared == state,
{
    Arc::clone(state)
}

impl Clone for CalibratedChannel {
    /// Another handle to the same channel of the same sampling state.
    fn clone(&self) -> (this: Self)
        ensures
            this.index() == self.index(),
            this.calibration() == self.calibration(),
            this.bus() == self.bus(),
    {
        proof {
            use_type_invariant(self);
        }
        CalibratedChannel {
            iio_thread: share_state(&self.iio_thread),
            index: self.index,
            calibration: self.calibration,
        }
    }
}

impl CalibratedChannel {
    #[verifier::type_invariant]
    spec fn slot_exists(self) -> bool {
        self.index < self.iio_thread.channels().len()
    }

    /// The position of the channel's slot.
    pub closed spec fn index(&self) -> int {
        self.index as int
    }

    /// The channel's calibration.
    pub closed spec fn calibration(&self) -> Calibration {
        self.calibration
    }

    /// The channels of the bus that this channel belongs to.
    pub closed spec fn bus(&self) -> Seq<ChannelDesc> {
        self.iio_thread.channels()
    }

    /// The channel at slot `index` of `iio_thread`.
    fn from_name(iio_thread: Arc<IioThread>, index: usize, calibration: Calibration) -> (this:
        Self)
        requires
            index < iio_thread.channels().len(),
        ensures
            this.index() == index,
            this.calibration() == calibration,
            this.bus() == iio_thread.channels(),
    {
        CalibratedChannel { iio_thread, index, calibration }
    }

    /// Reads several channels of one bus as they were published together.
    ///
    /// Loads the timestamp, then the slot of each channel in the order given,
    /// then the timestamp again. The result is what [`outcome`] makes of
    /// these loads: the measurements, all with the one timestamp, if both
    /// loads of the timestamp gave the same valid value; `None` if the source
    /// published meanwhile, and the read is to be tried again; an error if
    /// the sensor is broken. A channel that does not belong to this channel's
    /// sampling state ends the read with an error before its slot is loaded.
    ///
    /// What the loads give depends on what the source stores meanwhile; the
    /// module `protocol` says what they can give.
    pub fn try_get_multiple(&self, channels: &[&CalibratedChannel]) -> (res: Result<
        Option<Vec<Measurement>>,
        AdcError,
    >)
        ensures
            res == Err::<Option<Vec<Measurement>>, AdcError>(AdcError::MixedSources) || is_read(
                res,
                calibrations_of(channels@),
            ),
            channels@.len() == 0 ==> res != Err::<Option<Vec<Measurement>>, AdcError>(
                AdcError::MixedSources,
            ),
    {
        let ts_before = self.iio_thread.load_timestamp();
        let mut raw: Vec<u16> = Vec::new();
        let mut calibrations: Vec<Calibration> = Vec::new();
        let mut i: usize = 0;
        while i < channels.len()
            invariant
                i <= channels.len(),
                raw.len() == i,
                calibrations@ == calibrations_of(channels@).take(i as int),
            decreases channels.len() - i,
        {
            let ch = channels[i];
            match source_check(same_state(&self.iio_thread, &ch.iio_thread)) {
                Err(mixed) => {
                    return Err(mixed);
                },
                Ok(()) => {},
            }
            proof {
                use_type_invariant(ch);
            }
            raw.push(ch.iio_thread.load_value(ch.index));
            calibrations.push(ch.calibration);
            i += 1;
        }
        let ts_after = self.iio_thread.load_timestamp();
        assert(calibrations@ == calibrations_of(channels@));
        let res = resolve(ts_before, &raw, &calibrations, ts_after);
        assert(is_outcome(res, ts_before, raw@, calibrations_of(channels@), ts_after));
        res
    }

    /// Reads this channel: the timestamp, its slot, and the timestamp again.
    /// `None` if the source published meanwhile, which is rare.
    pub fn try_get(&self) -> (res: Result<Option<Measurement>, AdcError>)
        ensures
            is_single_read(res, self.calibration()),
    {
        proof {
            use_type_invariant(self);
        }
        let ts_before = self.iio_thread.load_timestamp();
        let raw = self.iio_thread.load_value(self.index);
        let ts_after = self.iio_thread.load_timestamp();
        // What the three loads gave is all that decides the result.
        let res = settle(ts_before, raw, self.calibration, ts_after);
        assert(is_single_read(res, self.calibration())) by {
            let ms = measurements(ts_before, seq![raw], seq![self.calibration()]);
            assert(verdict(ts_before, ts_after) == Verdict::Consistent ==> ms[0].ts == ts_before);
        }
        res
    }

    /// Reads this channel, trying again while the source publishes
    /// meanwhile, but at most `attempts` times. `None` if every attempt was
    /// torn.
    pub fn get(&self, attempts: usize) -> (res: Result<Option<Measurement>, AdcError>)
        ensures
            is_single_read(res, self.calibration()),
            attempts == 0 ==> res == Ok::<Option<Measurement>, AdcError>(None),
    {
        let mut left: usize = attempts;
        while left > 0
            invariant
                left <= attempts,
            decreases left,
        {
            left -= 1;
            match after_attempt(self.try_get(), left) {
                Some(res) => {
                    return res;
                },
                None => {},
            }
        }
        Ok(None)
    }
}

impl IioThread {
    /// Where the configuration store holds the calibration of the channel
    /// that is asked for as `ch_name`; `None` if the bus has no such channel.
    pub fn calibration_key(&self, ch_name: &str) -> (key: Option<&'static str>)
        ensures
            match key {
                Some(k) => exists|i: int|
                    first_named(self.channels(), ch_name@, i) && k == self.channels()[i].calibration,
                None => unnamed(self.channels(), ch_name@),
            },
    {
        match find_channel(&self.channel_descs, ch_name) {
            Some(i) => {
                assert(first_named(self.channels(), ch_name@, i as int));
                Some(self.channel_descs[i].calibration)
            },
            None => None,
        }
    }

    /// The channel of the bus `thread` that is asked for as `ch_name`, with
    /// the calibration that the entry `calibration` of the configuration
    /// store decodes to.
    pub fn get_channel(thread: Arc<Self>, ch_name: &str, calibration: &[u8]) -> (res: Result<
        CalibratedChannel,
        AdcError,
    >)
        ensures
            match res {
                Ok(ch) => {
                    &&& first_named(thread.channels(), ch_name@, ch.index())
                    &&& Calibration::decode(calibration@) == Some(ch.calibration())
                    &&& ch.bus() == thread.channels()
                },
                Err(e) => if unnamed(thread.channels(), ch_name@) {
                    e == AdcError::UnknownChannel
                } else {
                    e == AdcError::BadCalibration && Calibration::decode(calibration@) is None
                },
            },
    {
        match find_channel(&thread.channel_descs, ch_name) {
            None => Err(AdcError::UnknownChannel),
            Some(index) => match Calibration::from_bytes(calibration) {
                None => Err(AdcError::BadCalibration),
                Some(cal) => {
                    proof {
                        use_type_invariant(&*thread);
                    }
                    Ok(CalibratedChannel::from_name(thread, index, cal))
                },
            },
        }
    }
}

/// What a sampling source tells the one who started it. It tells it once: at
/// its first sample, or when it fails before it has one.
#[derive(Clone, Copy, PartialEq, Eq, Debug, Structural)]
pub enum Notice {
    /// The first sample is published: the state can be handed out.
    Ready,
    /// The source failed before its first sample: starting it has failed.
    Failed,
}

/// The notice that is due after an event of the source, given whether one
/// was given before.
pub open spec fn notice_due(told: bool, event: Notice) -> Option<Notice> {
    if told {
        None
    } else {
        Some(event)
    }
}

/// The means of the buffers of all channels, in slot order.
pub open spec fn means(buffers: Seq<Vec<u16>>) -> Seq<u16> {
    Seq::new(buffers.len(), |i: int| mean(buffers[i]@) as u16)
}

/// The worker of a sampling source: what it remembers between two
/// acquisitions.
#[derive(Debug)]
pub struct Worker {
    told: bool,
}

impl View for Worker {
    type V = bool;

    /// Whether the one who started the source was told how it went.
    closed spec fn view(&self) -> bool {
        self.told
    }
}

impl Worker {
    /// A worker that has told nothing yet.
    pub fn new() -> (this: Self)
        ensures
            !this@,
    {
        Worker { told: false }
    }

    /// The notice to give after `event`, if any.
    fn tell(&mut self, event: Notice) -> (notice: Option<Notice>)
        ensures
            notice == notice_due(old(self)@, event),
            final(self)@,
    {
        if self.told {
            None
        } else {
            self.told = true;
            Some(event)
        }
    }

    /// A triggered acquisition gave one full buffer per channel: publishes
    /// the mean of each buffer with the timestamp `timestamp`, and returns
    /// `Ready` if this is the first sample.
    pub fn buffered(&mut self, thread: &IioThread, buffers: &Vec<Vec<u16>>, timestamp: u64) -> (notice:
        Option<Notice>)
        requires
            timestamp != TIMESTAMP_ERROR,
        ensures
            notice == notice_due(old(self)@, Notice::Ready),
            final(self)@,
    {
        let values = buffer_means(buffers);
        thread.publish(values.as_slice(), timestamp);
        self.tell(Notice::Ready)
    }

    /// A polled acquisition read the voltage register and then the current
    /// register: publishes the low 16 bits of both, voltage first, with the
    /// timestamp `timestamp`, and returns `Ready` if this is the first
    /// sample.
    pub fn polled(&mut self, thread: &IioThread, voltage: i64, current: i64, timestamp: u64) -> (notice:
        Option<Notice>)
        requires
            timestamp != TIMESTAMP_ERROR,
        ensures
            notice == notice_due(old(self)@, Notice::Ready),
            final(self)@,
    {
        let mut values: Vec<u16> = Vec::new();
        values.push(raw_from_int(voltage));
        values.push(raw_from_int(current));
        thread.publish(values.as_slice(), timestamp);
        self.tell(Notice::Ready)
    }

    /// An acquisition failed: marks the state invalid, and returns `Failed`
    /// if the source has no sample yet. The source must stop now; it is
    /// never tried again.
    pub fn failed(&mut self, thread: &IioThread) -> (notice: Option<Notice>)
        ensures
            notice == notice_due(old(self)@, Notice::Failed),
            final(self)@,
    {
        thread.invalidate();
        self.tell(Notice::Failed)
    }
}

/// What a read of one channel returns that saw `ts_before`, then the raw
/// value `raw`, then `ts_after`: what [`outcome`] gives for that one channel,
/// with the one measurement in place of the sequence.
pub open spec fn single_outcome(
    ts_before: u64,
    raw: u16,
    calibration: Calibration,
    ts_after: u64,
) -> Result<Option<Measurement>, AdcError> {
    match outcome(ts_before, seq![raw], seq![calibration], ts_after) {
        Err(e) => Err(e),
        Ok(None) => Ok(None),
        Ok(Some(ms)) => Ok(Some(ms[0])),
    }
}

/// What a read of one channel returns that saw `ts_before`, then the raw
/// value `raw` of a channel with the given calibration, then `ts_after`.
pub fn settle(ts_before: u64, raw: u16, calibration: Calibration, ts_after: u64) -> (res: Result<
    Option<Measurement>,
    AdcError,
>)
    ensures
        res == single_outcome(ts_before, raw, calibration, ts_after),
{
    match judge(ts_before, ts_after) {
        Verdict::Broken => Err(AdcError::SensorBroken),
        Verdict::Torn => Ok(None),
        Verdict::Consistent => Ok(Some(Measurement { ts: ts_before, raw, calibration })),
    }
}

/// What the comparison of two sampling states says of a read: the read goes
/// on if they are the same, and ends with an error if they are not.
pub open spec fn checked_source(same: bool) -> Result<(), AdcError> {
    if same {
        Ok(())
    } else {
        Err(AdcError::MixedSources)
    }
}

/// Whether a read goes on, given whether the channel at hand belongs to the
/// sampling state that the read began with.
pub fn source_check(same: bool) -> (res: Result<(), AdcError>)
    ensures
        res == checked_source(same),
{
    if same {
        Ok(())
    } else {
        Err(AdcError::MixedSources)
    }
}

/// What a repeated read does after one attempt that gave `attempt` and left
/// `left` further attempts: it ends with the attempt's result if that is a
/// measurement or an error, ends with nothing if the attempt was torn and
/// none is left, and tries again otherwise (`None`).
pub open spec fn attempt_ends(attempt: Result<Option<Measurement>, AdcError>, left: usize) -> Option<
    Result<Option<Measurement>, AdcError>,
> {
    match attempt {
        Ok(None) => if left == 0 {
            Some(Ok(None))
        } else {
            None
        },
        settled => Some(settled),
    }
}

/// What a repeated read does after one attempt that gave `attempt` and left
/// `left` further attempts.
pub fn after_attempt(attempt: Result<Option<Measurement>, AdcError>, left: usize) -> (next: Option<
    Result<Option<Measurement>, AdcError>,
>)
    ensures
        next == attempt_ends(attempt, left),
{
    match attempt {
        Ok(None) => if left == 0 {
            Some(Ok(None))
        } else {
            None
        },
        settled => Some(settled),
    }
}

/// The mean of the buffer of each channel, in slot order.
pub fn buffer_means(buffers: &Vec<Vec<u16>>) -> (values: Vec<u16>)
    ensures
        values@ == means(buffers@),
{
    let mut values: Vec<u16> = Vec::new();
    let mut i: usize = 0;
    while i < buffers.len()
        invariant
            i <= buffers.len(),
            values@ == means(buffers@).take(i as int),
        decreases buffers.len() - i,
    {
        values.push(average(buffers[i].as_slice()));
        i += 1;
    }
    assert(values@ == means(buffers@));
    values
}

} // verus!
