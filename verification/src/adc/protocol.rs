//! What readers can see of a sampling state while its source publishes.
//!
//! The source publishes by storing each slot and then the timestamp; a
//! reader loads the timestamp, some slots, and the timestamp again. Every
//! load and every store is one step, and the steps of reader and source
//! interleave freely. This module describes the sampling state after every
//! store, what a reader gets whose loads fall between given stores, and
//! proves when such a read returns values that were published together.

use crate::adc::calibration::Calibration;
use crate::adc::hardware::{measurements, outcome, verdict, AdcError, Measurement, Verdict};
use crate::adc::sampling::TIMESTAMP_ERROR;
use vstd::prelude::*;

verus! {

/// The sampling state as a value: the timestamp and the slots.
pub struct Shared {
    pub timestamp: u64,
    pub slots: Seq<u16>,
}

/// One store of the source.
pub enum Store {
    /// The raw value `raw` goes to the slot at `index`.
    Value { index: int, raw: u16 },
    /// The timestamp becomes `timestamp`.
    Timestamp { timestamp: u64 },
}

/// One publication: a value for each slot, and the timestamp they get.
pub struct Cycle {
    pub values: Seq<u16>,
    pub timestamp: u64,
}

/// A point in the course of the source: `cycles` publications are complete,
/// and of the next one the first `stores` values are stored.
pub struct Moment {
    pub cycles: nat,
    pub stores: nat,
}

/// A read: when the timestamp was loaded first, when each slot was loaded,
/// and when the timestamp was loaded again.
pub struct Read {
    pub before: Moment,
    pub loads: Seq<Moment>,
    pub after: Moment,
}

impl Shared {
    /// A state of `n` slots in which nothing was published yet.
    pub open spec fn initial(n: nat) -> Shared {
        Shared { timestamp: TIMESTAMP_ERROR, slots: Seq::new(n, |i: int| 0u16) }
    }

    /// The state after one store. A value for a slot that does not exist
    /// changes nothing.
    pub open spec fn apply(self, store: Store) -> Shared {
        match store {
            Store::Value { index, raw } => if 0 <= index < self.slots.len() {
                Shared { slots: self.slots.update(index, raw), ..self }
            } else {
                self
            },
            Store::Timestamp { timestamp } => Shared { timestamp, ..self },
        }
    }

    /// The state after a run of stores, first to last.
    pub open spec fn run(self, stores: Seq<Store>) -> Shared
        decreases stores.len(),
    {
        if stores.len() == 0 {
            self
        } else {
            self.run(stores.drop_last()).apply(stores.last())
        }
    }
}

impl Cycle {
    /// The stores of the publication, in order: the values, first slot to
    /// last, and then the timestamp.
    pub open spec fn stores(self) -> Seq<Store> {
        Seq::new(
            self.values.len() + 1,
            |k: int|
                if k < self.values.len() {
                    Store::Value { index: k, raw: self.values[k] }
                } else {
                    Store::Timestamp { timestamp: self.timestamp }
                },
        )
    }
}

impl Moment {
    /// Whether this moment is not later than `other`.
    pub open spec fn le(self, other: Moment) -> bool {
        self.cycles < other.cycles || (self.cycles == other.cycles && self.stores <= other.stores)
    }

    /// Whether the source is between two publications: no value of the next
    /// one is stored yet.
    pub open spec fn quiet(self) -> bool {
        self.stores == 0
    }
}

/// Whether `cycles` is a course that a source of `n` channels can take: each
/// publication has a value for each slot and a valid timestamp, and a later
/// publication has a later timestamp.
pub open spec fn course(cycles: Seq<Cycle>, n: nat) -> bool {
    &&& forall|c: int|
        0 <= c < cycles.len() ==> (#[trigger] cycles[c]).values.len() == n && cycles[c].timestamp
            != TIMESTAMP_ERROR
    &&& forall|a: int, b: int|
        0 <= a < b < cycles.len() ==> (#[trigger] cycles[a]).timestamp < (
        #[trigger] cycles[b]).timestamp
}

/// Whether `m` is a moment of the course: within a publication that the
/// course has.
pub open spec fn during(cycles: Seq<Cycle>, n: nat, m: Moment) -> bool {
    &&& m.cycles <= cycles.len()
    &&& m.stores <= n
    &&& m.stores > 0 ==> m.cycles < cycles.len()
}

/// All stores of the first `done` publications.
pub open spec fn published(cycles: Seq<Cycle>, done: nat) -> Seq<Store>
    decreases done,
{
    if done == 0 {
        Seq::empty()
    } else {
        published(cycles, (done - 1) as nat) + cycles[done - 1].stores()
    }
}

/// All stores that the source has made at the moment `m`.
pub open spec fn stores_until(cycles: Seq<Cycle>, m: Moment) -> Seq<Store> {
    published(cycles, m.cycles) + cycles[m.cycles as int].stores().take(m.stores as int)
}

/// The sampling state at the moment `m`.
pub open spec fn state_at(cycles: Seq<Cycle>, n: nat, m: Moment) -> Shared {
    Shared::initial(n).run(stores_until(cycles, m))
}

/// The timestamp that `done` complete publications leave: that of the last
/// one, or the invalid one if there was none.
pub open spec fn timestamp_after(cycles: Seq<Cycle>, done: nat) -> u64 {
    if done == 0 {
        TIMESTAMP_ERROR
    } else {
        cycles[done - 1].timestamp
    }
}

/// The value that `done` complete publications leave in the slot `index`:
/// that of the last one, or 0 if there was none.
pub open spec fn value_after(cycles: Seq<Cycle>, done: nat, index: int) -> u16 {
    if done == 0 {
        0
    } else {
        cycles[done - 1].values[index]
    }
}

/// Whether the loads of a read come in the order of a read: the first load
/// of the timestamp, then the slots, then the second load of the timestamp.
pub open spec fn in_order(read: Read) -> bool {
    &&& read.before.le(read.after)
    &&& forall|j: int|
        0 <= j < read.loads.len() ==> read.before.le(#[trigger] read.loads[j])
            && read.loads[j].le(read.after)
}

/// Whether all loads of a read fall into the course.
pub open spec fn within(cycles: Seq<Cycle>, n: nat, read: Read) -> bool {
    &&& during(cycles, n, read.before)
    &&& during(cycles, n, read.after)
    &&& forall|j: int| 0 <= j < read.loads.len() ==> during(cycles, n, #[trigger] read.loads[j])
}

/// The raw values that a read of the slots `indices` loads.
pub open spec fn loaded(cycles: Seq<Cycle>, n: nat, read: Read, indices: Seq<int>) -> Seq<u16> {
    Seq::new(indices.len(), |j: int| state_at(cycles, n, read.loads[j]).slots[indices[j]])
}

/// The values that the publication number `generation` gave to the slots
/// `indices`; publication 0 stands for the state before the first.
pub open spec fn generation_values(cycles: Seq<Cycle>, generation: nat, indices: Seq<int>) -> Seq<
    u16,
> {
    Seq::new(indices.len(), |j: int| value_after(cycles, generation, indices[j]))
}

/// What a read returns: the outcome of its three kinds of loads.
pub open spec fn read_outcome(
    cycles: Seq<Cycle>,
    n: nat,
    read: Read,
    indices: Seq<int>,
    calibrations: Seq<Calibration>,
) -> Result<Option<Seq<Measurement>>, AdcError> {
    outcome(
        state_at(cycles, n, read.before).timestamp,
        loaded(cycles, n, read, indices),
        calibrations,
        state_at(cycles, n, read.after).timestamp,
    )
}

/// Running two runs of stores one after the other is running them as one.
pub proof fn lemma_run_concat(s: Shared, a: Seq<Store>, b: Seq<Store>)
    ensures
        s.run(a + b) == s.run(a).run(b),
    decreases b.len(),
{
    if b.len() == 0 {
        assert(a + b == a);
    } else {
        assert((a + b).drop_last() == a + b.drop_last());
        lemma_run_concat(s, a, b.drop_last());
    }
}

/// A publication that is under way has replaced the first slots and left the
/// rest, and the timestamp, as they were.
pub proof fn lemma_partial_publication(s: Shared, cycle: Cycle, p: nat)
    requires
        cycle.values.len() == s.slots.len(),
        p <= cycle.values.len(),
    ensures
        s.run(cycle.stores().take(p as int)) == (Shared {
            timestamp: s.timestamp,
            slots: Seq::new(
                s.slots.len(),
                |i: int|
                    if i < p {
                        cycle.values[i]
                    } else {
                        s.slots[i]
                    },
            ),
        }),
    decreases p,
{
    let stores = cycle.stores().take(p as int);
    let slots = Seq::new(
        s.slots.len(),
        |i: int|
            if i < p {
                cycle.values[i]
            } else {
                s.slots[i]
            },
    );
    if p == 0 {
        assert(s.run(stores) == s);
    } else {
        lemma_partial_publication(s, cycle, (p - 1) as nat);
        assert(stores.drop_last() == cycle.stores().take(p - 1));
        assert(stores.last() == Store::Value { index: p - 1, raw: cycle.values[p - 1] });
    }
    assert(s.run(stores).timestamp == s.timestamp);
    assert(s.run(stores).slots =~= slots);
}

/// A complete publication leaves its values and its timestamp, whatever the
/// state was before.
pub proof fn lemma_publication(s: Shared, cycle: Cycle)
    requires
        cycle.values.len() == s.slots.len(),
    ensures
        s.run(cycle.stores()) == (Shared { timestamp: cycle.timestamp, slots: cycle.values }),
{
    let n = cycle.values.len();
    lemma_partial_publication(s, cycle, n);
    assert(cycle.stores().drop_last() == cycle.stores().take(n as int));
    assert(cycle.stores().last() == Store::Timestamp { timestamp: cycle.timestamp });
    assert(s.run(cycle.stores()).slots == cycle.values);
}

/// After `done` complete publications the state holds the last one.
pub proof fn lemma_after_publications(cycles: Seq<Cycle>, n: nat, done: nat)
    requires
        course(cycles, n),
        done <= cycles.len(),
    ensures
        Shared::initial(n).run(published(cycles, done)) == (Shared {
            timestamp: timestamp_after(cycles, done),
            slots: Seq::new(n, |i: int| value_after(cycles, done, i)),
        }),
    decreases done,
{
    let state = Shared::initial(n).run(published(cycles, done));
    if done == 0 {
        assert(state.slots == Seq::new(n, |i: int| value_after(cycles, done, i)));
    } else {
        let earlier = (done - 1) as nat;
        lemma_after_publications(cycles, n, earlier);
        lemma_run_concat(Shared::initial(n), published(cycles, earlier), cycles[done - 1].stores());
        lemma_publication(Shared::initial(n).run(published(cycles, earlier)), cycles[done - 1]);
        assert(state.slots == Seq::new(n, |i: int| value_after(cycles, done, i)));
    }
}

/// The state at any moment of a course: the timestamp is that of the last
/// complete publication; a slot that the publication under way has stored
/// already holds its value, and every other slot that of the last complete
/// publication.
pub proof fn lemma_state_at(cycles: Seq<Cycle>, n: nat, m: Moment)
    requires
        course(cycles, n),
        during(cycles, n, m),
    ensures
        state_at(cycles, n, m) == (Shared {
            timestamp: timestamp_after(cycles, m.cycles),
            slots: Seq::new(
                n,
                |i: int|
                    if i < m.stores {
                        cycles[m.cycles as int].values[i]
                    } else {
                        value_after(cycles, m.cycles, i)
                    },
            ),
        }),
{
    let settled = Shared::initial(n).run(published(cycles, m.cycles));
    let partial = cycles[m.cycles as int].stores().take(m.stores as int);
    lemma_after_publications(cycles, n, m.cycles);
    lemma_run_concat(Shared::initial(n), published(cycles, m.cycles), partial);
    if m.stores == 0 {
        assert(settled.run(partial) == settled);
    } else {
        lemma_partial_publication(settled, cycles[m.cycles as int], m.stores);
    }
    assert(state_at(cycles, n, m).slots == Seq::new(
        n,
        |i: int|
            if i < m.stores {
                cycles[m.cycles as int].values[i]
            } else {
                value_after(cycles, m.cycles, i)
            },
    ));
}

/// When a read is consistent. A read sees the same valid timestamp twice
/// exactly if no publication was completed between its two loads of the
/// timestamp, and at least one before them. All its loads then fall between
/// the same two publications, and each loaded value is that of the last
/// complete publication, unless the publication under way had stored the
/// slot already.
pub proof fn lemma_consistent_read(cycles: Seq<Cycle>, n: nat, read: Read, indices: Seq<int>)
    requires
        course(cycles, n),
        within(cycles, n, read),
        in_order(read),
        read.loads.len() == indices.len(),
        forall|j: int| 0 <= j < indices.len() ==> 0 <= #[trigger] indices[j] < n,
    ensures
        verdict(
            state_at(cycles, n, read.before).timestamp,
            state_at(cycles, n, read.after).timestamp,
        ) == Verdict::Consistent <==> read.before.cycles == read.after.cycles && read.before.cycles
            >= 1,
        read.before.cycles == read.after.cycles ==> {
            &&& state_at(cycles, n, read.before).timestamp == timestamp_after(
                cycles,
                read.before.cycles,
            )
            &&& forall|j: int|
                0 <= j < indices.len() ==> (#[trigger] read.loads[j]).cycles == read.before.cycles
            &&& forall|j: int|
                0 <= j < indices.len() ==> #[trigger] loaded(cycles, n, read, indices)[j] == if indices[j]
                    < read.loads[j].stores {
                    cycles[read.before.cycles as int].values[indices[j]]
                } else {
                    value_after(cycles, read.before.cycles, indices[j])
                }
        },
{
    lemma_state_at(cycles, n, read.before);
    lemma_state_at(cycles, n, read.after);
    if read.before.cycles < read.after.cycles && read.before.cycles >= 1 {
        assert(cycles[read.before.cycles - 1].timestamp < cycles[read.after.cycles
            - 1].timestamp);
    }
    if read.after.cycles >= 1 {
        assert(cycles[read.after.cycles - 1].timestamp != TIMESTAMP_ERROR);
    }
    if read.before.cycles >= 1 {
        assert(cycles[read.before.cycles - 1].timestamp != TIMESTAMP_ERROR);
    }
    if read.before.cycles == read.after.cycles {
        assert forall|j: int| 0 <= j < indices.len() implies (#[trigger] read.loads[j]).cycles
            == read.before.cycles && loaded(cycles, n, read, indices)[j] == if indices[j]
            < read.loads[j].stores {
            cycles[read.before.cycles as int].values[indices[j]]
        } else {
            value_after(cycles, read.before.cycles, indices[j])
        } by {
            lemma_state_at(cycles, n, read.loads[j]);
        }
    }
}

/// Whether a read loaded no slot that the publication under way had stored
/// already.
pub open spec fn ahead_of_source(read: Read, indices: Seq<int>) -> bool {
    forall|j: int| 0 <= j < indices.len() ==> (#[trigger] read.loads[j]).stores <= indices[j]
}

/// Whether a read loaded only slots that the publication under way had
/// stored already.
pub open spec fn behind_source(read: Read, indices: Seq<int>) -> bool {
    forall|j: int| 0 <= j < indices.len() ==> indices[j] < (#[trigger] read.loads[j]).stores
}

/// Torn-read freedom, where it holds. A read that saw the same valid
/// timestamp twice returns the values of exactly one publication, if the
/// publication under way had stored either none of the slots when the read
/// loaded them, or all of them. In the first case, which covers every read
/// made while the source is between two publications, the values are those
/// of the publication whose timestamp the read reports; in the second case
/// they are those of the next one. The lemma returns the number of the
/// publication.
pub proof fn lemma_read_of_one_generation(
    cycles: Seq<Cycle>,
    n: nat,
    read: Read,
    indices: Seq<int>,
    calibrations: Seq<Calibration>,
) -> (generation: nat)
    requires
        course(cycles, n),
        within(cycles, n, read),
        in_order(read),
        read.loads.len() == indices.len(),
        forall|j: int| 0 <= j < indices.len() ==> 0 <= #[trigger] indices[j] < n,
        read_outcome(cycles, n, read, indices, calibrations) matches Ok(Some(_)),
        ahead_of_source(read, indices) || behind_source(read, indices),
    ensures
        read.before.cycles >= 1,
        generation == if ahead_of_source(read, indices) {
            read.before.cycles
        } else {
            read.before.cycles + 1
        },
        read_outcome(cycles, n, read, indices, calibrations) == Ok::<
            Option<Seq<Measurement>>,
            AdcError,
        >(
            Some(
                measurements(
                    cycles[read.before.cycles - 1].timestamp,
                    generation_values(cycles, generation, indices),
                    calibrations,
                ),
            ),
        ),
{
    lemma_consistent_read(cycles, n, read, indices);
    let generation = if ahead_of_source(read, indices) {
        read.before.cycles
    } else {
        read.before.cycles + 1
    };
    let raw = loaded(cycles, n, read, indices);
    assert forall|j: int| 0 <= j < indices.len() implies raw[j] == generation_values(
        cycles,
        generation,
        indices,
    )[j] by {
        assert(read.loads[j].cycles == read.before.cycles);
        assert(loaded(cycles, n, read, indices)[j] == value_after(cycles, generation, indices[j]));
    }
    assert(raw == generation_values(cycles, generation, indices));
    generation
}

/// A read can be torn. There is a course of two publications and a read of
/// two slots that sees the same valid timestamp twice and yet returns the
/// first slot as the second publication stored it and the second slot as the
/// first publication left it: the read loaded the first slot after the
/// second publication had stored it, and finished before that publication
/// stored its timestamp.
pub proof fn lemma_torn_read_exists() -> (witness: (Seq<Cycle>, Read))
    ensures
        course(witness.0, 2),
        within(witness.0, 2, witness.1),
        in_order(witness.1),
        read_outcome(witness.0, 2, witness.1, seq![0, 1], seq![
            Calibration { scale: 0, offset: 0 },
            Calibration { scale: 0, offset: 0 },
        ]) matches Ok(Some(ms)) && ms.len() == 2 && ms[0].ts == 1 && ms[0].raw == 20 && ms[1].raw
            == 11,
        witness.0[0] == (Cycle { values: seq![10u16, 11u16], timestamp: 1 }),
        witness.0[1] == (Cycle { values: seq![20u16, 21u16], timestamp: 2 }),
{
    let cycles = seq![
        Cycle { values: seq![10u16, 11u16], timestamp: 1 },
        Cycle { values: seq![20u16, 21u16], timestamp: 2 },
    ];
    let quiet = Moment { cycles: 1, stores: 0 };
    let under_way = Moment { cycles: 1, stores: 1 };
    let read = Read { before: quiet, loads: seq![under_way, under_way], after: under_way };
    let indices = seq![0int, 1int];
    lemma_consistent_read(cycles, 2, read, indices);
    let raw = loaded(cycles, 2, read, indices);
    assert(raw[0] == 20);
    assert(raw[1] == 11);
    (cycles, read)
}

/// Before the first publication no read returns a value: every read whose
/// first load of the timestamp comes before the first publication is
/// complete ends in the error of a broken sensor.
pub proof fn lemma_no_value_before_first_publication(
    cycles: Seq<Cycle>,
    n: nat,
    read: Read,
    indices: Seq<int>,
    calibrations: Seq<Calibration>,
)
    requires
        course(cycles, n),
        within(cycles, n, read),
        read.before.cycles == 0,
    ensures
        read_outcome(cycles, n, read, indices, calibrations) == Err::<
            Option<Seq<Measurement>>,
            AdcError,
        >(AdcError::SensorBroken),
{
    lemma_state_at(cycles, n, read.before);
}

/// Once a publication is complete, a read made while the source is between
/// two publications returns at its first attempt, with the values and the
/// timestamp of the last publication.
pub proof fn lemma_quiet_read_returns(
    cycles: Seq<Cycle>,
    n: nat,
    m: Moment,
    indices: Seq<int>,
    calibrations: Seq<Calibration>,
)
    requires
        course(cycles, n),
        during(cycles, n, m),
        m.quiet(),
        m.cycles >= 1,
        forall|j: int| 0 <= j < indices.len() ==> 0 <= #[trigger] indices[j] < n,
    ensures
        read_outcome(
            cycles,
            n,
            Read { before: m, loads: Seq::new(indices.len(), |j: int| m), after: m },
            indices,
            calibrations,
        ) == Ok::<Option<Seq<Measurement>>, AdcError>(
            Some(
                measurements(
                    cycles[m.cycles - 1].timestamp,
                    generation_values(cycles, m.cycles, indices),
                    calibrations,
                ),
            ),
        ),
{
    let read = Read { before: m, loads: Seq::new(indices.len(), |j: int| m), after: m };
    lemma_consistent_read(cycles, n, read, indices);
    let generation = lemma_read_of_one_generation(cycles, n, read, indices, calibrations);
    assert(generation == m.cycles);
}

} // verus!
