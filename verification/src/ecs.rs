//! The frame scheduler: an ordered list of execution stages built at
//! configuration time and executed against the shared store once per frame.
//!
//! Every system declares its read and write sets over store resources, and the
//! [`System`] trait holds each implementation to that declaration through two
//! proof obligations. The build-time analysis ([`ExecutionSchedule::may_run_concurrently`])
//! permits concurrent execution exactly for access-disjoint, non-thread-affined
//! systems; [`lemma_disjoint_systems_commute`] and [`lemma_stage_swap_adjacent`]
//! prove that permission sound, and systems it does not permit are serialized
//! deterministically in declaration order. A barrier closes a stage, and
//! [`lemma_stages_compose`] shows it is a full join point.

use vstd::prelude::*;

use crate::store::Store;

verus! {

/// The resource a store holds under a key, if any: the value the access
/// contracts are stated over.
pub open spec fn resource_at(store: Map<u64, u64>, key: u64) -> Option<u64> {
    if store.dom().contains(key) {
        Some(store[key])
    } else {
        None
    }
}

/// A unit of per-frame logic with a declared access set over store resources.
///
/// The two proof obligations hold every implementation to its declaration:
/// a run leaves everything outside the write set untouched, and what it
/// writes depends only on the resources it declared. The scheduler's
/// concurrency analysis is sound exactly because of these obligations.
pub trait System: Sized {
    /// The keys the system may read.
    spec fn reads(&self) -> Set<u64>;

    /// The keys the system may write (and, holding them exclusively, read).
    spec fn writes(&self) -> Set<u64>;

    /// What one run of the system does to the store.
    spec fn apply(&self, store: Map<u64, u64>) -> Map<u64, u64>;

    /// Obligation: resources outside the declared write set are untouched.
    proof fn apply_respects_writes(&self, store: Map<u64, u64>)
        ensures
            forall|key: u64|
                !self.writes().contains(key) ==> #[trigger] resource_at(self.apply(store), key)
                    == resource_at(store, key),
    ;

    /// Obligation: what is written depends only on the declared access set.
    proof fn apply_depends_on_reads(&self, store1: Map<u64, u64>, store2: Map<u64, u64>)
        requires
            forall|key: u64|
                self.reads().contains(key) || self.writes().contains(key)
                    ==> #[trigger] resource_at(store1, key) == resource_at(store2, key),
        ensures
            forall|key: u64|
                self.writes().contains(key) ==> #[trigger] resource_at(self.apply(store1), key)
                    == resource_at(self.apply(store2), key),
    ;

    /// Runs the system against the store.
    fn run(&self, store: &mut Store)
        ensures
            final(store)@ == self.apply(old(store)@),
    ;

    /// The declared read set, as a list holding the same keys as `reads`.
    fn read_ids(&self) -> (keys: Vec<u64>)
        ensures
            forall|key: u64| #[trigger] keys@.contains(key) <==> self.reads().contains(key),
    ;

    /// The declared write set, as a list holding the same keys as `writes`.
    fn write_ids(&self) -> (keys: Vec<u64>)
        ensures
            forall|key: u64| #[trigger] keys@.contains(key) <==> self.writes().contains(key),
    ;
}

/// One scheduled entry: a system plus the registration-time flag that pins it
/// to the driving thread.
pub struct ScheduledSystem<Y: System> {
    pub system: Y,
    pub thread_affined: bool,
}

/// The store after every system of a stage has run, in declaration order.
pub open spec fn apply_stage<Y: System>(
    stage: Seq<ScheduledSystem<Y>>,
    store: Map<u64, u64>,
) -> Map<u64, u64>
    decreases stage.len(),
{
    if stage.len() == 0 {
        store
    } else {
        apply_stage(stage.drop_first(), stage.first().system.apply(store))
    }
}

/// The store after every stage has run, in declared order; a stage starts
/// only on the store every earlier stage has fully produced.
pub open spec fn apply_stages<Y: System>(
    stages: Seq<Seq<ScheduledSystem<Y>>>,
    store: Map<u64, u64>,
) -> Map<u64, u64>
    decreases stages.len(),
{
    if stages.len() == 0 {
        store
    } else {
        apply_stages(stages.drop_first(), apply_stage(stages.first(), store))
    }
}

/// Whether two systems' declared access sets let them run concurrently: no
/// write overlaps the other's write, and no write overlaps the other's read.
pub open spec fn access_disjoint<A: System, B: System>(a: &A, b: &B) -> bool {
    a.writes().disjoint(b.writes()) && a.writes().disjoint(b.reads()) && b.writes().disjoint(
        a.reads(),
    )
}

/// Whether two scheduled systems may run concurrently: neither is pinned to
/// the driving thread and their access sets do not conflict.
pub open spec fn may_run_concurrently_spec<Y: System>(
    a: ScheduledSystem<Y>,
    b: ScheduledSystem<Y>,
) -> bool {
    !a.thread_affined && !b.thread_affined && access_disjoint(&a.system, &b.system)
}

fn ids_contain(keys: &Vec<u64>, key: u64) -> (found: bool)
    ensures
        found == keys@.contains(key),
{
    let mut i: usize = 0;
    while i < keys.len()
        invariant
            i <= keys@.len(),
            forall|t: int| 0 <= t < i ==> keys@[t] != key,
        decreases keys@.len() - i,
    {
        if keys[i] == key {
            return true;
        }
        i = i + 1;
    }
    false
}

fn ids_disjoint(a: &Vec<u64>, b: &Vec<u64>) -> (disjoint: bool)
    ensures
        disjoint == (forall|key: u64| !(a@.contains(key) && #[trigger] b@.contains(key))),
{
    let mut i: usize = 0;
    while i < a.len()
        invariant
            i <= a@.len(),
            forall|t: int| 0 <= t < i ==> !b@.contains(#[trigger] a@[t]),
        decreases a@.len() - i,
    {
        if ids_contain(b, a[i]) {
            proof {
                assert(a@.contains(a@[i as int]));
            }
            return false;
        }
        i = i + 1;
    }
    proof {
        assert forall|key: u64| a@.contains(key) implies !b@.contains(key) by {
            let t = choose|t: int| 0 <= t < a@.len() && a@[t] == key;
            assert(!b@.contains(a@[t]));
        }
    }
    true
}

proof fn lemma_ids_disjoint_equiv(
    a_seq: Seq<u64>,
    b_seq: Seq<u64>,
    a_set: Set<u64>,
    b_set: Set<u64>,
)
    requires
        forall|key: u64| #[trigger] a_seq.contains(key) <==> a_set.contains(key),
        forall|key: u64| #[trigger] b_seq.contains(key) <==> b_set.contains(key),
    ensures
        (forall|key: u64| !(a_seq.contains(key) && #[trigger] b_seq.contains(key)))
            <==> a_set.disjoint(b_set),
{
    if forall|key: u64| !(a_seq.contains(key) && #[trigger] b_seq.contains(key)) {
        assert forall|key: u64| a_set.contains(key) implies !b_set.contains(key) by {
            assert(a_seq.contains(key));
            assert(!(a_seq.contains(key) && b_seq.contains(key)));
        }
    }
    if a_set.disjoint(b_set) {
        assert forall|key: u64| !(a_seq.contains(key) && #[trigger] b_seq.contains(key)) by {
            if a_seq.contains(key) {
                assert(a_set.contains(key));
                assert(!b_set.contains(key));
            }
        }
    }
}

/// A frozen schedule: an ordered list of stages, each an ordered list of
/// scheduled systems, executed once per frame.
pub struct ExecutionSchedule<Y: System> {
    stages: Vec<Vec<ScheduledSystem<Y>>>,
}

/// Builds an [`ExecutionSchedule`] incrementally: systems are appended to the
/// open stage and a barrier closes it. Value semantics: every operation
/// returns the updated builder.
pub struct ExecutionScheduleBuilder<Y: System> {
    stages: Vec<Vec<ScheduledSystem<Y>>>,
    current: Vec<ScheduledSystem<Y>>,
}

impl<Y: System> ExecutionScheduleBuilder<Y> {
    /// The stages already closed by a barrier.
    pub closed spec fn closed_stages(&self) -> Seq<Seq<ScheduledSystem<Y>>> {
        Seq::new(self.stages@.len(), |i: int| self.stages@[i]@)
    }

    /// The stage still open for registration.
    pub closed spec fn open_stage(&self) -> Seq<ScheduledSystem<Y>> {
        self.current@
    }

    /// An empty builder: no closed stages, an empty open stage.
    pub fn new() -> (builder: ExecutionScheduleBuilder<Y>)
        ensures
            builder.closed_stages() == Seq::<Seq<ScheduledSystem<Y>>>::empty(),
            builder.open_stage() == Seq::<ScheduledSystem<Y>>::empty(),
    {
        let builder = ExecutionScheduleBuilder { stages: Vec::new(), current: Vec::new() };
        proof {
            assert(builder.closed_stages() =~= Seq::<Seq<ScheduledSystem<Y>>>::empty());
        }
        builder
    }

    /// Appends a parallel-eligible system to the open stage.
    pub fn with_system(self, system: Y) -> (builder: ExecutionScheduleBuilder<Y>)
        ensures
            builder.closed_stages() == self.closed_stages(),
            builder.open_stage() == self.open_stage().push(
                (ScheduledSystem { system, thread_affined: false }),
            ),
    {
        let ghost orig = self;
        let mut builder = self;
        builder.current.push(ScheduledSystem { system, thread_affined: false });
        proof {
            assert(builder.closed_stages() =~= orig.closed_stages());
        }
        builder
    }

    /// Appends a thread-affined system: it runs on the driving thread and
    /// never concurrently with any other system.
    pub fn with_thread_local(self, system: Y) -> (builder: ExecutionScheduleBuilder<Y>)
        ensures
            builder.closed_stages() == self.closed_stages(),
            builder.open_stage() == self.open_stage().push(
                (ScheduledSystem { system, thread_affined: true }),
            ),
    {
        let ghost orig = self;
        let mut builder = self;
        builder.current.push(ScheduledSystem { system, thread_affined: true });
        proof {
            assert(builder.closed_stages() =~= orig.closed_stages());
        }
        builder
    }

    /// Closes the open stage: every system registered before the barrier
    /// completes before any system registered after it starts.
    pub fn barrier(self) -> (builder: ExecutionScheduleBuilder<Y>)
        ensures
            builder.closed_stages() == self.closed_stages().push(self.open_stage()),
            builder.open_stage() == Seq::<ScheduledSystem<Y>>::empty(),
    {
        let ghost orig = self;
        let ExecutionScheduleBuilder { mut stages, current } = self;
        stages.push(current);
        let builder = ExecutionScheduleBuilder { stages, current: Vec::new() };
        proof {
            assert(builder.closed_stages() =~= orig.closed_stages().push(orig.open_stage()));
        }
        builder
    }

    /// Freezes the stage list, the still-open stage included, into an
    /// executable schedule; no further systems can be added.
    pub fn build(self) -> (schedule: ExecutionSchedule<Y>)
        ensures
            schedule.stages() == self.closed_stages().push(self.open_stage()),
    {
        let ghost orig = self;
        let ExecutionScheduleBuilder { mut stages, current } = self;
        stages.push(current);
        let schedule = ExecutionSchedule { stages };
        proof {
            assert(schedule.stages() =~= orig.closed_stages().push(orig.open_stage()));
        }
        schedule
    }
}

impl<Y: System> ExecutionSchedule<Y> {
    /// The stages of the schedule, in execution order.
    pub closed spec fn stages(&self) -> Seq<Seq<ScheduledSystem<Y>>> {
        Seq::new(self.stages@.len(), |i: int| self.stages@[i]@)
    }

    /// How many stages the schedule holds.
    pub fn stage_count(&self) -> (n: usize)
        ensures
            n == self.stages().len(),
    {
        self.stages.len()
    }

    /// How many systems stage `stage` holds.
    pub fn systems_in_stage(&self, stage: usize) -> (n: usize)
        requires
            stage < self.stages().len(),
        ensures
            n == self.stages()[stage as int].len(),
    {
        self.stages[stage].len()
    }

    /// The build-time concurrency analysis: whether the systems at `first`
    /// and `second` of stage `stage` may run concurrently — neither is
    /// thread-affined and their declared access sets do not conflict.
    /// Systems not permitted to run concurrently are serialized in
    /// declaration order, deterministically.
    pub fn may_run_concurrently(&self, stage: usize, first: usize, second: usize) -> (permitted:
        bool)
        requires
            stage < self.stages().len(),
            first < self.stages()[stage as int].len(),
            second < self.stages()[stage as int].len(),
        ensures
            permitted == may_run_concurrently_spec(
                self.stages()[stage as int][first as int],
                self.stages()[stage as int][second as int],
            ),
    {
        let a = &self.stages[stage][first];
        let b = &self.stages[stage][second];
        if a.thread_affined || b.thread_affined {
            return false;
        }
        let a_reads = a.system.read_ids();
        let a_writes = a.system.write_ids();
        let b_reads = b.system.read_ids();
        let b_writes = b.system.write_ids();
        let writes_ok = ids_disjoint(&a_writes, &b_writes);
        let write_read_ok = ids_disjoint(&a_writes, &b_reads);
        let read_write_ok = ids_disjoint(&b_writes, &a_reads);
        proof {
            lemma_ids_disjoint_equiv(
                a_writes@,
                b_writes@,
                a.system.writes(),
                b.system.writes(),
            );
            lemma_ids_disjoint_equiv(a_writes@, b_reads@, a.system.writes(), b.system.reads());
            lemma_ids_disjoint_equiv(b_writes@, a_reads@, b.system.writes(), a.system.reads());
        }
        writes_ok && write_read_ok && read_write_ok
    }

    /// Runs every stage in declared order against the store; within a stage,
    /// systems run in the deterministic serialization fixed at build time
    /// (declaration order), and a stage completes before the next begins.
    pub fn execute(&self, store: &mut Store)
        ensures
            final(store)@ == apply_stages(self.stages(), old(store)@),
    {
        let ghost all = self.stages();
        proof {
            assert(all.skip(0) =~= all);
        }
        let mut i: usize = 0;
        while i < self.stages.len()
            invariant
                i <= self.stages@.len(),
                all == self.stages(),
                apply_stages(all.skip(i as int), store@) == apply_stages(all, old(store)@),
            decreases self.stages@.len() - i,
        {
            let stage = &self.stages[i];
            let ghost stage_view = stage@;
            let ghost stage_start = store@;
            proof {
                assert(stage_view.skip(0) =~= stage_view);
            }
            let mut j: usize = 0;
            while j < stage.len()
                invariant
                    j <= stage_view.len(),
                    stage_view == stage@,
                    apply_stage(stage_view.skip(j as int), store@) == apply_stage(
                        stage_view,
                        stage_start,
                    ),
                decreases stage_view.len() - j,
            {
                proof {
                    assert(stage_view.skip(j as int).first() == stage_view[j as int]);
                    assert(stage_view.skip(j as int).drop_first() =~= stage_view.skip(
                        j as int + 1,
                    ));
                }
                stage[j].system.run(store);
                j = j + 1;
            }
            proof {
                assert(stage_view.skip(stage_view.len() as int) =~= Seq::<
                    ScheduledSystem<Y>,
                >::empty());
                assert(store@ == apply_stage(stage_view, stage_start));
                assert(all.skip(i as int).first() == all[i as int]);
                assert(all[i as int] == stage_view);
                assert(all.skip(i as int).drop_first() =~= all.skip(i as int + 1));
            }
            i = i + 1;
        }
        proof {
            assert(all.skip(all.len() as int) =~= Seq::<Seq<ScheduledSystem<Y>>>::empty());
        }
    }
}

proof fn lemma_pointwise_map_eq(m1: Map<u64, u64>, m2: Map<u64, u64>)
    requires
        forall|key: u64| #[trigger] resource_at(m1, key) == resource_at(m2, key),
    ensures
        m1 == m2,
{
    assert forall|key: u64| #[trigger] m1.dom().contains(key) == #[trigger] m2.dom().contains(
        key,
    ) by {
        assert(resource_at(m1, key) == resource_at(m2, key));
    }
    assert(m1.dom() =~= m2.dom());
    assert forall|key: u64| m1.dom().contains(key) implies #[trigger] m1[key] == #[trigger] m2[key] by {
        assert(resource_at(m1, key) == resource_at(m2, key));
    }
    assert(m1 =~= m2);
}

/// Systems with disjoint declared access sets commute: running them in either
/// order leaves the same store, so executing them concurrently cannot change
/// the frame's outcome — the permission the build-time analysis grants is
/// sound.
pub proof fn lemma_disjoint_systems_commute<A: System, B: System>(
    a: &A,
    b: &B,
    store: Map<u64, u64>,
)
    requires
        access_disjoint(a, b),
    ensures
        b.apply(a.apply(store)) == a.apply(b.apply(store)),
{
    a.apply_respects_writes(store);
    b.apply_respects_writes(store);
    a.apply_respects_writes(b.apply(store));
    b.apply_respects_writes(a.apply(store));
    assert forall|key: u64|
        a.reads().contains(key) || a.writes().contains(key) implies #[trigger] resource_at(
        store,
        key,
    ) == resource_at(b.apply(store), key) by {
        assert(!b.writes().contains(key));
        assert(resource_at(b.apply(store), key) == resource_at(store, key));
    }
    a.apply_depends_on_reads(store, b.apply(store));
    assert forall|key: u64|
        b.reads().contains(key) || b.writes().contains(key) implies #[trigger] resource_at(
        store,
        key,
    ) == resource_at(a.apply(store), key) by {
        assert(!a.writes().contains(key));
        assert(resource_at(a.apply(store), key) == resource_at(store, key));
    }
    b.apply_depends_on_reads(store, a.apply(store));
    assert forall|key: u64| #[trigger] resource_at(b.apply(a.apply(store)), key) == resource_at(
        a.apply(b.apply(store)),
        key,
    ) by {
        if a.writes().contains(key) {
            assert(!b.writes().contains(key));
            assert(resource_at(b.apply(a.apply(store)), key) == resource_at(
                a.apply(store),
                key,
            ));
            assert(resource_at(a.apply(b.apply(store)), key) == resource_at(
                a.apply(store),
                key,
            ));
        } else if b.writes().contains(key) {
            assert(!a.writes().contains(key));
            assert(resource_at(a.apply(b.apply(store)), key) == resource_at(
                b.apply(store),
                key,
            ));
            assert(resource_at(b.apply(a.apply(store)), key) == resource_at(
                b.apply(store),
                key,
            ));
        } else {
            assert(resource_at(b.apply(a.apply(store)), key) == resource_at(
                a.apply(store),
                key,
            ));
            assert(resource_at(a.apply(store), key) == resource_at(store, key));
            assert(resource_at(a.apply(b.apply(store)), key) == resource_at(
                b.apply(store),
                key,
            ));
            assert(resource_at(b.apply(store), key) == resource_at(store, key));
        }
    }
    lemma_pointwise_map_eq(b.apply(a.apply(store)), a.apply(b.apply(store)));
}

/// Swapping two adjacent systems of a stage that the analysis permits to run
/// concurrently leaves the stage's effect unchanged: declaration-order
/// serialization loses nothing against any permitted interleaving.
pub proof fn lemma_stage_swap_adjacent<Y: System>(
    stage: Seq<ScheduledSystem<Y>>,
    i: int,
    store: Map<u64, u64>,
)
    requires
        0 <= i < stage.len() - 1,
        access_disjoint(&stage[i].system, &stage[i + 1].system),
    ensures
        apply_stage(stage.update(i, stage[i + 1]).update(i + 1, stage[i]), store) == apply_stage(
            stage,
            store,
        ),
    decreases i,
{
    let swapped = stage.update(i, stage[i + 1]).update(i + 1, stage[i]);
    if i == 0 {
        lemma_disjoint_systems_commute(&stage[0].system, &stage[1].system, store);
        assert(stage.first() == stage[0]);
        assert(stage.drop_first().first() == stage[1]);
        assert(stage.drop_first().drop_first() =~= stage.skip(2));
        assert(swapped.first() == stage[1]);
        assert(swapped.drop_first().first() == stage[0]);
        assert(swapped.drop_first().drop_first() =~= stage.skip(2));
        assert(apply_stage(stage, store) == apply_stage(
            stage.drop_first(),
            stage[0].system.apply(store),
        ));
        assert(apply_stage(stage.drop_first(), stage[0].system.apply(store)) == apply_stage(
            stage.skip(2),
            stage[1].system.apply(stage[0].system.apply(store)),
        ));
        assert(apply_stage(swapped, store) == apply_stage(
            swapped.drop_first(),
            stage[1].system.apply(store),
        ));
        assert(apply_stage(swapped.drop_first(), stage[1].system.apply(store)) == apply_stage(
            stage.skip(2),
            stage[0].system.apply(stage[1].system.apply(store)),
        ));
    } else {
        let tail = stage.drop_first();
        let store1 = stage.first().system.apply(store);
        assert(swapped.first() == stage.first());
        assert(tail[i - 1] == stage[i]);
        assert(tail[i] == stage[i + 1]);
        assert(swapped.drop_first() =~= tail.update(i - 1, tail[i]).update(i, tail[i - 1]));
        lemma_stage_swap_adjacent(tail, i - 1, store1);
        assert(apply_stage(stage, store) == apply_stage(tail, store1));
        assert(apply_stage(swapped, store) == apply_stage(swapped.drop_first(), store1));
        assert(apply_stage(swapped.drop_first(), store1) == apply_stage(
            tail.update(i - 1, tail[i]).update(i, tail[i - 1]),
            store1,
        ));
    }
}

/// A barrier is a full join point: the stages after it run on exactly the
/// store produced by completing every stage before it.
pub proof fn lemma_stages_compose<Y: System>(
    before: Seq<Seq<ScheduledSystem<Y>>>,
    after: Seq<Seq<ScheduledSystem<Y>>>,
    store: Map<u64, u64>,
)
    ensures
        apply_stages(before + after, store) == apply_stages(after, apply_stages(before, store)),
    decreases before.len(),
{
    if before.len() == 0 {
        assert(before + after =~= after);
    } else {
        assert((before + after).first() == before.first());
        assert((before + after).drop_first() =~= before.drop_first() + after);
        lemma_stages_compose(before.drop_first(), after, apply_stage(before.first(), store));
    }
}

} // verus!
