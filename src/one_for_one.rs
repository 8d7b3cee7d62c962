use vstd::prelude::*;

use crate::limiter::{after_attempt, RestartLimiter};

verus! {

/// Slack added to the longest start timeout of the children, so that the
/// slowest child's own timer fires before the group's.
pub const START_SLACK_MS: u64 = 10;

/// `a + b`, or `u64::MAX` where the sum does not fit.
pub open spec fn sat_add(a: u64, b: u64) -> u64 {
    if a + b > u64::MAX {
        u64::MAX
    } else {
        (a + b) as u64
    }
}

fn saturating_add(a: u64, b: u64) -> (r: u64)
    ensures
        r == sat_add(a, b),
{
    if a <= u64::MAX - b {
        a + b
    } else {
        u64::MAX
    }
}

/// A recipe for a supervised unit: how long it may take to start.
pub trait Specification {
    spec fn spec_start_timeout(&self) -> u64;

    /// The longest time, in milliseconds, that starting may take.
    fn start_timeout(&self) -> (r: u64)
        ensures
            r == self.spec_start_timeout(),
    ;
}

/// The state of one child of a group, without its payload.
#[derive(PartialEq, Eq, Structural, Clone, Copy, Debug)]
pub enum SlotKind {
    Pending,
    Starting,
    Running,
    Failed,
    Done,
}

/// One child of a group. A pending child holds its specification, a failed
/// one a description of its fault; the start operation and the running
/// handle are held by whoever drives the group, under the same index.
pub enum ChildSlot<S> {
    Pending(S),
    Starting,
    Running,
    Failed(String),
    Done,
}

impl<S> ChildSlot<S> {
    pub open spec fn kind(&self) -> SlotKind {
        match self {
            ChildSlot::Pending(_) => SlotKind::Pending,
            ChildSlot::Starting => SlotKind::Starting,
            ChildSlot::Running => SlotKind::Running,
            ChildSlot::Failed(_) => SlotKind::Failed,
            ChildSlot::Done => SlotKind::Done,
        }
    }

    pub fn slot_kind(&self) -> (r: SlotKind)
        ensures
            r == self.kind(),
    {
        match self {
            ChildSlot::Pending(_) => SlotKind::Pending,
            ChildSlot::Starting => SlotKind::Starting,
            ChildSlot::Running => SlotKind::Running,
            ChildSlot::Failed(_) => SlotKind::Failed,
            ChildSlot::Done => SlotKind::Done,
        }
    }
}

/// The states of a sequence of slots.
pub open spec fn kinds<S>(slots: Seq<ChildSlot<S>>) -> Seq<SlotKind> {
    slots.map_values(|c: ChildSlot<S>| c.kind())
}

/// Whether some slot is in state `k`.
pub open spec fn has_kind(ks: Seq<SlotKind>, k: SlotKind) -> bool {
    exists|i: int| 0 <= i < ks.len() && ks[i] == k
}

/// Every slot has either started or has nothing left to do.
pub open spec fn all_up(ks: Seq<SlotKind>) -> bool {
    forall|i: int| 0 <= i < ks.len() ==> ks[i] == SlotKind::Running || ks[i] == SlotKind::Done
}

/// The verdict after draining: the group runs only where the restart budget
/// held and no child is failed or still starting.
pub open spec fn drained_ok(ks: Seq<SlotKind>, budget_spent: bool) -> bool {
    !budget_spent && !has_kind(ks, SlotKind::Starting) && !has_kind(ks, SlotKind::Failed)
}

/// How one start operation of a child ended.
pub enum StartOutcome<S> {
    /// The child runs.
    Started,
    /// The child had nothing left to do.
    Completed,
    /// The child may be started again from the specification handed back.
    Failed(S),
    /// The child cannot be started again.
    Irrecoverable(String),
}

/// How a running child exited.
pub enum ExitOutcome<S> {
    /// The child asks to be started again from this specification.
    Restart(S),
    /// The child finished for good.
    Finished,
    /// The child failed and cannot be restarted.
    Fatal(String),
}

pub open spec fn slot_after_start<S>(o: StartOutcome<S>) -> ChildSlot<S> {
    match o {
        StartOutcome::Started => ChildSlot::Running,
        StartOutcome::Completed => ChildSlot::Done,
        StartOutcome::Failed(s) => ChildSlot::Pending(s),
        StartOutcome::Irrecoverable(e) => ChildSlot::Failed(e),
    }
}

/// Whether the outcome uses up a unit of the restart budget.
pub open spec fn start_costs<S>(o: StartOutcome<S>) -> bool {
    o is Failed || o is Irrecoverable
}

pub open spec fn slot_after_exit<S>(o: ExitOutcome<S>) -> ChildSlot<S> {
    match o {
        ExitOutcome::Restart(s) => ChildSlot::Pending(s),
        ExitOutcome::Finished => ChildSlot::Done,
        ExitOutcome::Fatal(e) => ChildSlot::Failed(e),
    }
}

fn slot_from_start<S>(o: StartOutcome<S>) -> (r: ChildSlot<S>)
    ensures
        r == slot_after_start(o),
{
    match o {
        StartOutcome::Started => ChildSlot::Running,
        StartOutcome::Completed => ChildSlot::Done,
        StartOutcome::Failed(s) => ChildSlot::Pending(s),
        StartOutcome::Irrecoverable(e) => ChildSlot::Failed(e),
    }
}

fn slot_from_exit<S>(o: ExitOutcome<S>) -> (r: ChildSlot<S>)
    ensures
        r == slot_after_exit(o),
{
    match o {
        ExitOutcome::Restart(s) => ChildSlot::Pending(s),
        ExitOutcome::Finished => ChildSlot::Done,
        ExitOutcome::Fatal(e) => ChildSlot::Failed(e),
    }
}

/// The longest start timeout among `specs`, or 0 where there are none.
pub open spec fn longest_timeout<S: Specification>(specs: Seq<S>) -> u64
    decreases specs.len(),
{
    if specs.len() == 0 {
        0
    } else {
        let m = longest_timeout(specs.drop_last());
        let t = specs.last().spec_start_timeout();
        if t > m {
            t
        } else {
            m
        }
    }
}

/// The time a group gives its children to start, and then to drain.
pub open spec fn fan_out_time<S: Specification>(specs: Seq<S>) -> u64 {
    sat_add(longest_timeout(specs), START_SLACK_MS)
}

/// A one-for-one group that has not started: its children's specifications,
/// in order, and the restart budget that they share.
pub struct OneForOneSpec<S> {
    specs: Vec<S>,
    limiter: RestartLimiter,
}

impl<S: Specification> OneForOneSpec<S> {
    pub closed spec fn spec_specs(&self) -> Seq<S> {
        self.specs@
    }

    pub closed spec fn spec_limiter(&self) -> RestartLimiter {
        self.limiter
    }

    /// An empty group whose children may restart `limit` times within
    /// `within` milliseconds.
    pub fn new(limit: usize, within: u64) -> (r: Self)
        ensures
            r.spec_specs() == Seq::<S>::empty(),
            r.spec_limiter().spec_limit() == limit,
            r.spec_limiter().spec_within() == within,
            r.spec_limiter().spec_attempts() == Seq::<u64>::empty(),
    {
        OneForOneSpec { specs: Vec::new(), limiter: RestartLimiter::new(limit, within) }
    }

    /// The group with `spec` appended as its last child.
    pub fn with_spec(self, spec: S) -> (r: Self)
        ensures
            r.spec_specs() == self.spec_specs().push(spec),
            r.spec_limiter() == self.spec_limiter(),
    {
        let mut this = self;
        this.add_spec(spec);
        this
    }

    /// Appends `spec` as the last child.
    pub fn add_spec(&mut self, spec: S)
        ensures
            final(self).spec_specs() == old(self).spec_specs().push(spec),
            final(self).spec_limiter() == old(self).spec_limiter(),
    {
        self.specs.push(spec);
    }

    /// Takes the last child out, if there is one.
    pub fn pop_spec(&mut self) -> (r: Option<S>)
        ensures
            final(self).spec_limiter() == old(self).spec_limiter(),
            old(self).spec_specs().len() == 0 ==> r is None && final(self).spec_specs()
                == old(self).spec_specs(),
            old(self).spec_specs().len() > 0 ==> r == Some(old(self).spec_specs().last())
                && final(self).spec_specs() == old(self).spec_specs().drop_last(),
    {
        self.specs.pop()
    }

    /// How long the children are given to start: the longest of their start
    /// timeouts, plus a small slack.
    pub fn fan_out_time(&self) -> (r: u64)
        ensures
            r == fan_out_time(self.spec_specs()),
    {
        let mut longest: u64 = 0;
        let mut i: usize = 0;
        while i < self.specs.len()
            invariant
                i <= self.specs@.len(),
                longest == longest_timeout(self.specs@.take(i as int)),
            decreases self.specs@.len() - i,
        {
            let t = self.specs[i].start_timeout();
            assert(self.specs@.take(i + 1).drop_last() == self.specs@.take(i as int));
            if t > longest {
                longest = t;
            }
            i = i + 1;
        }
        assert(self.specs@.take(self.specs@.len() as int) == self.specs@);
        saturating_add(longest, START_SLACK_MS)
    }

    /// Starts every child at once, at instant `now`. The specifications are
    /// handed back in order, for the caller to start each one under its
    /// index; every slot of the group is then starting, under one deadline.
    pub fn start(self, now: u64) -> (r: (OneForOneStartFut<S>, Vec<S>))
        ensures
            r.1@ == self.spec_specs(),
            r.0.spec_slots().len() == self.spec_specs().len(),
            forall|i: int| 0 <= i < r.0.spec_slots().len() ==> #[trigger] r.0.spec_slots()[i] is Starting,
            kinds(r.0.spec_slots()) == Seq::new(
                self.spec_specs().len(),
                |i: int| SlotKind::Starting,
            ),
            r.0.spec_limiter() == self.spec_limiter(),
            r.0.spec_shutdown_time() == fan_out_time(self.spec_specs()),
            r.0.spec_deadline() == sat_add(now, fan_out_time(self.spec_specs())),
            !r.0.spec_draining(),
            !r.0.spec_budget_spent(),
    {
        let time = self.fan_out_time();
        let mut slots: Vec<ChildSlot<S>> = Vec::new();
        let mut i: usize = 0;
        while i < self.specs.len()
            invariant
                i <= self.specs@.len(),
                slots@.len() == i,
                forall|j: int| 0 <= j < i ==> slots@[j] is Starting,
            decreases self.specs@.len() - i,
        {
            slots.push(ChildSlot::Starting);
            i = i + 1;
        }
        assert(kinds(slots@) =~= Seq::new(self.specs@.len(), |j: int| SlotKind::Starting));
        let fut = OneForOneStartFut {
            slots,
            limiter: self.limiter,
            deadline: saturating_add(now, time),
            shutdown_time: time,
            draining: false,
            budget_spent: false,
        };
        (fut, self.specs)
    }
}

impl<S: Specification> Specification for OneForOneSpec<S> {
    open spec fn spec_start_timeout(&self) -> u64 {
        u64::MAX
    }

    /// A group sets no bound of its own: its children's timeouts apply.
    fn start_timeout(&self) -> (r: u64) {
        u64::MAX
    }
}

/// A group whose children are starting. Until the deadline it waits for all
/// of them; after the deadline, or once the restart budget is spent, it
/// drains: it waits, under a fresh deadline, for the children still starting.
pub struct OneForOneStartFut<S> {
    slots: Vec<ChildSlot<S>>,
    limiter: RestartLimiter,
    deadline: u64,
    shutdown_time: u64,
    draining: bool,
    budget_spent: bool,
}

impl<S> OneForOneStartFut<S> {
    pub closed spec fn spec_slots(&self) -> Seq<ChildSlot<S>> {
        self.slots@
    }

    pub closed spec fn spec_limiter(&self) -> RestartLimiter {
        self.limiter
    }

    pub closed spec fn spec_deadline(&self) -> u64 {
        self.deadline
    }

    pub closed spec fn spec_shutdown_time(&self) -> u64 {
        self.shutdown_time
    }

    pub closed spec fn spec_draining(&self) -> bool {
        self.draining
    }

    /// Whether a failure found the restart budget spent.
    pub closed spec fn spec_budget_spent(&self) -> bool {
        self.budget_spent
    }
}


/// The indices of the slots in state `k`, in increasing order.
pub open spec fn indices_of(ks: Seq<SlotKind>, k: SlotKind) -> Seq<usize>
    decreases ks.len(),
{
    if ks.len() == 0 {
        Seq::<usize>::empty()
    } else {
        let r = indices_of(ks.drop_last(), k);
        if ks.last() == k {
            r.push((ks.len() - 1) as usize)
        } else {
            r
        }
    }
}

fn kinds_of<S>(slots: &Vec<ChildSlot<S>>) -> (r: Vec<SlotKind>)
    ensures
        r@ == kinds(slots@),
{
    let mut r: Vec<SlotKind> = Vec::new();
    let mut i: usize = 0;
    while i < slots.len()
        invariant
            i <= slots@.len(),
            r@ == kinds(slots@).take(i as int),
        decreases slots@.len() - i,
    {
        r.push(slots[i].slot_kind());
        assert(kinds(slots@).take(i + 1) =~= kinds(slots@).take(i as int).push(slots@[i as int].kind()));
        i = i + 1;
    }
    assert(kinds(slots@).take(slots@.len() as int) =~= kinds(slots@));
    r
}

fn has_kind_in<S>(slots: &Vec<ChildSlot<S>>, k: SlotKind) -> (r: bool)
    ensures
        r == has_kind(kinds(slots@), k),
{
    let mut i: usize = 0;
    while i < slots.len()
        invariant
            i <= slots@.len(),
            forall|j: int| 0 <= j < i ==> slots@[j].kind() != k,
        decreases slots@.len() - i,
    {
        if slots[i].slot_kind() == k {
            assert(kinds(slots@)[i as int] == k);
            return true;
        }
        i = i + 1;
    }
    assert forall|j: int| 0 <= j < kinds(slots@).len() implies kinds(slots@)[j] != k by {
        assert(kinds(slots@)[j] == slots@[j].kind());
    }
    false
}

fn all_up_in<S>(slots: &Vec<ChildSlot<S>>) -> (r: bool)
    ensures
        r == all_up(kinds(slots@)),
{
    let mut i: usize = 0;
    while i < slots.len()
        invariant
            i <= slots@.len(),
            forall|j: int|
                0 <= j < i ==> slots@[j].kind() == SlotKind::Running || slots@[j].kind()
                    == SlotKind::Done,
        decreases slots@.len() - i,
    {
        let k = slots[i].slot_kind();
        if k != SlotKind::Running && k != SlotKind::Done {
            assert(kinds(slots@)[i as int] == k);
            return false;
        }
        i = i + 1;
    }
    assert forall|j: int| 0 <= j < kinds(slots@).len() implies kinds(slots@)[j]
        == SlotKind::Running || kinds(slots@)[j] == SlotKind::Done by {
        assert(kinds(slots@)[j] == slots@[j].kind());
    }
    true
}

fn indices_in<S>(slots: &Vec<ChildSlot<S>>, k: SlotKind) -> (r: Vec<usize>)
    ensures
        r@ == indices_of(kinds(slots@), k),
{
    let ghost ks = kinds(slots@);
    let mut r: Vec<usize> = Vec::new();
    let mut i: usize = 0;
    while i < slots.len()
        invariant
            i <= slots@.len(),
            ks == kinds(slots@),
            r@ == indices_of(ks.take(i as int), k),
        decreases slots@.len() - i,
    {
        assert(ks.take(i + 1).drop_last() =~= ks.take(i as int));
        assert(ks.take(i + 1).last() == slots@[i as int].kind());
        if slots[i].slot_kind() == k {
            r.push(i);
        }
        i = i + 1;
    }
    assert(ks.take(slots@.len() as int) =~= ks);
    r
}

/// `r` names each slot of `ks` in state `k` exactly once, in increasing
/// order, and no other slot.
pub open spec fn names_exactly(r: Seq<usize>, ks: Seq<SlotKind>, k: SlotKind) -> bool {
    &&& forall|a: int, b: int| 0 <= a < b < r.len() ==> r[a] < r[b]
    &&& forall|a: int| 0 <= a < r.len() ==> r[a] < ks.len() && ks[r[a] as int] == k
    &&& forall|j: int| 0 <= j < ks.len() && ks[j] == k ==> exists|a: int| 0 <= a < r.len() && r[a] == j
}

/// The slots named by `indices_of(ks, k)` are exactly those in state `k`,
/// each named once, in increasing order. So `halt` and `abort` pass their
/// request once to each running child and to no other.
pub proof fn lemma_indices_of(ks: Seq<SlotKind>, k: SlotKind)
    requires
        ks.len() <= usize::MAX,
    ensures
        forall|a: int, b: int|
            0 <= a < b < indices_of(ks, k).len() ==> indices_of(ks, k)[a] < indices_of(ks, k)[b],
        forall|a: int|
            0 <= a < indices_of(ks, k).len() ==> indices_of(ks, k)[a] < ks.len() && ks[indices_of(
                ks,
                k,
            )[a] as int] == k,
        forall|j: int|
            0 <= j < ks.len() && ks[j] == k ==> exists|a: int|
                0 <= a < indices_of(ks, k).len() && indices_of(ks, k)[a] == j,
    decreases ks.len(),
{
    if ks.len() > 0 {
        let p = ks.drop_last();
        lemma_indices_of(p, k);
        let r = indices_of(ks, k);
        let q = indices_of(p, k);
        assert forall|j: int| 0 <= j < ks.len() && ks[j] == k implies exists|a: int|
            0 <= a < r.len() && r[a] == j by {
            if j < ks.len() - 1 {
                assert(p[j] == k);
                let a = choose|a: int| 0 <= a < q.len() && q[a] == j;
                assert(r[a] == j);
            } else {
                assert(r[r.len() - 1] == j);
            }
        }
    }
}

/// A group that drains with a child failed or still starting fails as a
/// whole, whatever state its other children are in.
pub proof fn lemma_failed_child_fails_group(ks: Seq<SlotKind>, budget_spent: bool)
    requires
        has_kind(ks, SlotKind::Failed) || has_kind(ks, SlotKind::Starting),
    ensures
        !drained_ok(ks, budget_spent),
{
}

/// A group whose restart budget a failure found spent fails as a whole
/// once it has drained, even where every other child started.
pub proof fn lemma_spent_budget_fails_group(ks: Seq<SlotKind>)
    ensures
        !drained_ok(ks, true),
{
}

/// A group that has not begun to drain starts only once no child is still
/// starting: every child has reached its own outcome first.
pub proof fn lemma_start_waits_for_every_child(ks: Seq<SlotKind>)
    requires
        all_up(ks),
    ensures
        !has_kind(ks, SlotKind::Starting),
        !has_kind(ks, SlotKind::Pending),
        !has_kind(ks, SlotKind::Failed),
{
}

/// A group with no children starts at its first look, whatever the time.
pub proof fn lemma_empty_group_is_up(ks: Seq<SlotKind>)
    requires
        ks.len() == 0,
    ensures
        all_up(ks),
{
}

/// Where a starting group stands after a look at its children and its clock.
pub enum StartProgress<S> {
    /// Still waiting for children.
    Waiting(OneForOneStartFut<S>),
    /// The group runs.
    Started(OneForOneSupervisee<S>),
    /// The group failed for good; its state is kept for diagnosis.
    Irrecoverable(GroupFault<S>),
}

/// The whole state of a group that failed for good.
pub struct GroupFault<S> {
    /// The slots, in order.
    pub slots: Vec<ChildSlot<S>>,
    /// The restart budget, with the attempts on record.
    pub limiter: RestartLimiter,
}

impl<S> OneForOneStartFut<S> {
    /// The states of the slots, in order.
    pub fn slot_kinds(&self) -> (r: Vec<SlotKind>)
        ensures
            r@ == kinds(self.spec_slots()),
    {
        kinds_of(&self.slots)
    }

    pub fn is_draining(&self) -> (r: bool)
        ensures
            r == self.spec_draining(),
    {
        self.draining
    }

    pub fn is_budget_spent(&self) -> (r: bool)
        ensures
            r == self.spec_budget_spent(),
    {
        self.budget_spent
    }

    pub fn deadline(&self) -> (r: u64)
        ensures
            r == self.spec_deadline(),
    {
        self.deadline
    }

    /// Records how the start operation of child `i` ended, at instant `now`.
    /// Before draining, a failure of either kind uses a unit of the restart
    /// budget; once the budget is spent the group drains, with a fresh
    /// deadline.
    pub fn on_start_outcome(&mut self, i: usize, outcome: StartOutcome<S>, now: u64)
        requires
            i < old(self).spec_slots().len(),
            old(self).spec_slots()[i as int] is Starting,
        ensures
            final(self).spec_slots() == old(self).spec_slots().update(
                i as int,
                slot_after_start(outcome),
            ),
            final(self).spec_shutdown_time() == old(self).spec_shutdown_time(),
            old(self).spec_draining() || !start_costs(outcome) ==> final(self).spec_limiter()
                == old(self).spec_limiter() && final(self).spec_draining()
                == old(self).spec_draining() && final(self).spec_deadline()
                == old(self).spec_deadline() && final(self).spec_budget_spent()
                == old(self).spec_budget_spent(),
            !old(self).spec_draining() && start_costs(outcome) ==> {
                let lim = old(self).spec_limiter();
                let after = after_attempt(lim.spec_attempts(), now, lim.spec_within());
                &&& final(self).spec_limiter().spec_attempts() == after
                &&& final(self).spec_limiter().spec_limit() == lim.spec_limit()
                &&& final(self).spec_limiter().spec_within() == lim.spec_within()
                &&& final(self).spec_draining() == (after.len() > lim.spec_limit())
                &&& final(self).spec_budget_spent() == (old(self).spec_budget_spent() || after.len()
                    > lim.spec_limit())
                &&& final(self).spec_deadline() == if after.len() > lim.spec_limit() {
                    sat_add(now, old(self).spec_shutdown_time())
                } else {
                    old(self).spec_deadline()
                }
            },
    {
        let costs = match &outcome {
            StartOutcome::Failed(_) => true,
            StartOutcome::Irrecoverable(_) => true,
            _ => false,
        };
        self.slots.set(i, slot_from_start(outcome));
        if !self.draining && costs {
            if !self.limiter.within_limit(now) {
                self.draining = true;
                self.budget_spent = true;
                self.deadline = saturating_add(now, self.shutdown_time);
            }
        }
    }

    /// Records how running child `i` exited while the group drains.
    pub fn on_exit(&mut self, i: usize, outcome: ExitOutcome<S>)
        requires
            old(self).spec_draining(),
            i < old(self).spec_slots().len(),
            old(self).spec_slots()[i as int] is Running,
        ensures
            final(self).spec_slots() == old(self).spec_slots().update(
                i as int,
                slot_after_exit(outcome),
            ),
            final(self).spec_limiter() == old(self).spec_limiter(),
            final(self).spec_draining(),
            final(self).spec_budget_spent() == old(self).spec_budget_spent(),
            final(self).spec_deadline() == old(self).spec_deadline(),
            final(self).spec_shutdown_time() == old(self).spec_shutdown_time(),
    {
        self.slots.set(i, slot_from_exit(outcome));
    }

    /// Decides, at instant `now`, whether the group is done starting.
    /// Before draining it starts once every child runs or is done, and drains
    /// once the deadline has passed. While draining it ends once no child is
    /// starting or the deadline has passed: it then fails as a whole where a
    /// failure found the restart budget spent, or a child failed or is still
    /// starting, and runs otherwise.
    pub fn advance(self, now: u64) -> (r: StartProgress<S>)
        ensures
            ({
                let ks = kinds(self.spec_slots());
                let up = if self.spec_draining() {
                    !has_kind(ks, SlotKind::Starting) || now >= self.spec_deadline()
                } else {
                    all_up(ks)
                };
                let ok = if self.spec_draining() {
                    drained_ok(ks, self.spec_budget_spent())
                } else {
                    true
                };
                &&& up && ok ==> (r matches StartProgress::Started(v) && v.spec_slots()
                    == self.spec_slots() && v.spec_limiter() == self.spec_limiter()
                    && !v.spec_halted() && !v.spec_aborted())
                &&& up && !ok ==> (r matches StartProgress::Irrecoverable(fault)
                    && fault.slots@ == self.spec_slots() && fault.limiter
                    == self.spec_limiter())
                &&& !up && (self.spec_draining() || now < self.spec_deadline())
                    ==> (r matches StartProgress::Waiting(f) && f == self)
                &&& !up && !self.spec_draining() && now >= self.spec_deadline()
                    ==> (r matches StartProgress::Waiting(f) && f.spec_slots() == self.spec_slots()
                    && f.spec_limiter() == self.spec_limiter() && f.spec_draining()
                    && f.spec_budget_spent() == self.spec_budget_spent()
                    && f.spec_deadline() == sat_add(now, self.spec_shutdown_time())
                    && f.spec_shutdown_time() == self.spec_shutdown_time())
            }),
    {
        if !self.draining {
            if all_up_in(&self.slots) {
                StartProgress::Started(OneForOneSupervisee::from_parts(self.slots, self.limiter))
            } else if now >= self.deadline {
                let deadline = saturating_add(now, self.shutdown_time);
                StartProgress::Waiting(OneForOneStartFut { deadline, draining: true, ..self })
            } else {
                StartProgress::Waiting(self)
            }
        } else {
            let starting = has_kind_in(&self.slots, SlotKind::Starting);
            if !starting || now >= self.deadline {
                let failed = has_kind_in(&self.slots, SlotKind::Failed);
                if !self.budget_spent && !starting && !failed {
                    StartProgress::Started(
                        OneForOneSupervisee::from_parts(self.slots, self.limiter),
                    )
                } else {
                    StartProgress::Irrecoverable(
                        GroupFault { slots: self.slots, limiter: self.limiter },
                    )
                }
            } else {
                StartProgress::Waiting(self)
            }
        }
    }
}

/// A running one-for-one group.
pub struct OneForOneSupervisee<S> {
    slots: Vec<ChildSlot<S>>,
    limiter: RestartLimiter,
    halted: bool,
    aborted: bool,
}

impl<S> OneForOneSupervisee<S> {
    pub closed spec fn spec_slots(&self) -> Seq<ChildSlot<S>> {
        self.slots@
    }

    pub closed spec fn spec_limiter(&self) -> RestartLimiter {
        self.limiter
    }

    pub closed spec fn spec_halted(&self) -> bool {
        self.halted
    }

    pub closed spec fn spec_aborted(&self) -> bool {
        self.aborted
    }

    fn from_parts(slots: Vec<ChildSlot<S>>, limiter: RestartLimiter) -> (r: Self)
        ensures
            r.spec_slots() == slots@,
            r.spec_limiter() == limiter,
            !r.spec_halted(),
            !r.spec_aborted(),
    {
        OneForOneSupervisee { slots, limiter, halted: false, aborted: false }
    }

    /// The states of the slots, in order.
    pub fn slot_kinds(&self) -> (r: Vec<SlotKind>)
        ensures
            r@ == kinds(self.spec_slots()),
    {
        kinds_of(&self.slots)
    }

    /// A group sets no bound of its own on shutting down.
    pub fn shutdown_time(&self) -> (r: u64)
        ensures
            r == u64::MAX,
    {
        u64::MAX
    }

    /// Asks the group to stop gracefully. The result lists the running
    /// children to which the caller passes the request, in order: each of
    /// them on the first call, none on later ones.
    pub fn halt(&mut self) -> (r: Vec<usize>)
        ensures
            final(self).spec_slots() == old(self).spec_slots(),
            final(self).spec_limiter() == old(self).spec_limiter(),
            final(self).spec_halted(),
            final(self).spec_aborted() == old(self).spec_aborted(),
            r@ == if old(self).spec_halted() {
                Seq::<usize>::empty()
            } else {
                indices_of(kinds(old(self).spec_slots()), SlotKind::Running)
            },
            !old(self).spec_halted() ==> names_exactly(
                r@,
                kinds(old(self).spec_slots()),
                SlotKind::Running,
            ),
    {
        let _len: usize = self.slots.len();
        proof {
            lemma_indices_of(kinds(self.slots@), SlotKind::Running);
        }
        if self.halted {
            Vec::new()
        } else {
            self.halted = true;
            indices_in(&self.slots, SlotKind::Running)
        }
    }

    /// Asks the group to stop at once. The result lists the running children
    /// to which the caller passes the request, in order: each of them on the
    /// first call, none on later ones.
    pub fn abort(&mut self) -> (r: Vec<usize>)
        ensures
            final(self).spec_slots() == old(self).spec_slots(),
            final(self).spec_limiter() == old(self).spec_limiter(),
            final(self).spec_aborted(),
            final(self).spec_halted() == old(self).spec_halted(),
            r@ == if old(self).spec_aborted() {
                Seq::<usize>::empty()
            } else {
                indices_of(kinds(old(self).spec_slots()), SlotKind::Running)
            },
            !old(self).spec_aborted() ==> names_exactly(
                r@,
                kinds(old(self).spec_slots()),
                SlotKind::Running,
            ),
    {
        let _len: usize = self.slots.len();
        proof {
            lemma_indices_of(kinds(self.slots@), SlotKind::Running);
        }
        if self.aborted {
            Vec::new()
        } else {
            self.aborted = true;
            indices_in(&self.slots, SlotKind::Running)
        }
    }

    /// Records how running child `i` exited, at instant `now`. A restart
    /// request or a fatal exit uses a unit of the restart budget; the result
    /// says whether the budget still holds, and is true for a child that
    /// finished.
    pub fn on_exit(&mut self, i: usize, outcome: ExitOutcome<S>, now: u64) -> (r: bool)
        requires
            i < old(self).spec_slots().len(),
            old(self).spec_slots()[i as int] is Running,
        ensures
            final(self).spec_slots() == old(self).spec_slots().update(
                i as int,
                slot_after_exit(outcome),
            ),
            final(self).spec_halted() == old(self).spec_halted(),
            final(self).spec_aborted() == old(self).spec_aborted(),
            outcome is Finished ==> r && final(self).spec_limiter() == old(self).spec_limiter(),
            !(outcome is Finished) ==> {
                let lim = old(self).spec_limiter();
                let after = after_attempt(lim.spec_attempts(), now, lim.spec_within());
                &&& final(self).spec_limiter().spec_attempts() == after
                &&& final(self).spec_limiter().spec_limit() == lim.spec_limit()
                &&& final(self).spec_limiter().spec_within() == lim.spec_within()
                &&& r == (after.len() <= lim.spec_limit())
            },
    {
        let finished = match &outcome {
            ExitOutcome::Finished => true,
            _ => false,
        };
        self.slots.set(i, slot_from_exit(outcome));
        if finished {
            true
        } else {
            self.limiter.within_limit(now)
        }
    }
}

} // verus!
