//! The two phases of a frame, and where they stand in the host's order.
//!
//! Window events are answered in the surface phase, which follows the host's
//! pre-update phase directly; the buffer is presented in the render phase,
//! directly before the host's final phase. A resize made in the surface phase
//! is therefore in effect when the same frame is rendered.
use vstd::prelude::*;

verus! {

/// Surface/buffer mutation schedule. Runs after `PreUpdate` on the main schedule.
#[derive(Hash, Debug, Eq, PartialEq, Clone, Copy)]
pub struct SurfaceSchedule;

/// Rendering schedule. Runs before `Last` on the main schedule.
#[derive(Hash, Debug, Eq, PartialEq, Clone, Copy)]
pub struct RenderSchedule;

/// One phase of the host's frame.
#[derive(Clone, Copy, Debug, Hash, PartialEq, Eq, Structural)]
pub enum Phase {
    /// The host's pre-update phase.
    PreUpdate,
    /// The host's final phase.
    Last,
    /// Any other phase of the host, under the number the host knows it by.
    Host(u32),
    /// The phase of `SurfaceSchedule`.
    Surface,
    /// The phase of `RenderSchedule`.
    Render,
}

/// How the operations of one phase are run.
#[derive(Clone, Copy, Debug, PartialEq, Eq, Structural)]
pub enum ExecutorKind {
    /// One operation after the other, in the order of registration.
    SingleThreaded,
    /// Operations that do not conflict may run at the same time.
    MultiThreaded,
}

/// Why the two phases could not be put into an order.
#[derive(Clone, Copy, Debug, PartialEq, Eq, Structural)]
pub enum ScheduleError {
    /// The phase is already in the order.
    Duplicate(Phase),
    /// The order lacks the phase next to which another was to stand.
    Missing(Phase),
    /// The host's final phase does not come after its pre-update phase.
    Misordered,
}

impl SurfaceSchedule {
    /// The phase that this label names.
    pub fn phase(&self) -> (phase: Phase)
        ensures
            phase == Phase::Surface,
    {
        Phase::Surface
    }

    /// Resizes must not race each other: the phase runs on one thread.
    pub fn executor_kind(&self) -> (kind: ExecutorKind)
        ensures
            kind == ExecutorKind::SingleThreaded,
    {
        ExecutorKind::SingleThreaded
    }
}

impl RenderSchedule {
    /// The phase that this label names.
    pub fn phase(&self) -> (phase: Phase)
        ensures
            phase == Phase::Render,
    {
        Phase::Render
    }

    /// The buffer belongs to one thread: the phase runs on it alone.
    pub fn executor_kind(&self) -> (kind: ExecutorKind)
        ensures
            kind == ExecutorKind::SingleThreaded,
    {
        ExecutorKind::SingleThreaded
    }
}

/// The phases of one frame in the order in which the host runs them. No phase
/// stands in it twice.
pub struct MainOrder {
    labels: Vec<Phase>,
}

impl View for MainOrder {
    type V = Seq<Phase>;

    /// The phases, first to last.
    closed spec fn view(&self) -> Seq<Phase> {
        self.labels@
    }
}

/// Inserting a phase that a duplicate-free order lacks leaves it duplicate-free.
proof fn lemma_insert_fresh(labels: Seq<Phase>, at: int, phase: Phase)
    requires
        labels.no_duplicates(),
        !labels.contains(phase),
        0 <= at <= labels.len(),
    ensures
        labels.insert(at, phase).no_duplicates(),
        labels.insert(at, phase).len() == labels.len() + 1,
        labels.insert(at, phase)[at] == phase,
        forall|i: int| 0 <= i < at ==> labels.insert(at, phase)[i] == labels[i],
        forall|i: int| at <= i < labels.len() ==> labels.insert(at, phase)[i + 1] == labels[i],
{
    let after = labels.insert(at, phase);
    assert forall|i: int, j: int| 0 <= i < after.len() && 0 <= j < after.len() && i != j implies after[i]
        != after[j] by {
        let oi = if i < at { i } else { i - 1 };
        let oj = if j < at { j } else { j - 1 };
        if i == at {
            assert(after[j] == labels[oj]);
            assert(labels.contains(labels[oj]));
        } else if j == at {
            assert(after[i] == labels[oi]);
            assert(labels.contains(labels[oi]));
        } else {
            assert(after[i] == labels[oi]);
            assert(after[j] == labels[oj]);
        }
    }
}

impl MainOrder {
    /// No phase stands in the order twice.
    pub closed spec fn wf(&self) -> bool {
        self.labels@.no_duplicates()
    }

    /// The order `labels`, unless a phase stands in it twice.
    pub fn new(labels: Vec<Phase>) -> (outcome: Option<MainOrder>)
        ensures
            outcome is Some <==> labels@.no_duplicates(),
            outcome matches Some(order) ==> order.wf() && order@ == labels@,
    {
        let mut i: usize = 0;
        while i < labels.len()
            invariant
                i <= labels.len(),
                forall|a: int, b: int| 0 <= a < b < i ==> labels@[a] != labels@[b],
            decreases labels.len() - i,
        {
            let mut j: usize = 0;
            while j < i
                invariant
                    j <= i < labels.len(),
                    forall|a: int| 0 <= a < j ==> labels@[a] != labels@[i as int],
                decreases i - j,
            {
                if labels[j] == labels[i] {
                    return None;
                }
                j += 1;
            }
            i += 1;
        }
        assert(labels@.no_duplicates()) by {
            assert forall|a: int, b: int|
                0 <= a < labels@.len() && 0 <= b < labels@.len() && a != b implies labels@[a]
                != labels@[b] by {
                if a < b {
                } else {
                    assert(labels@[b] != labels@[a]);
                }
            }
        }
        Some(MainOrder { labels })
    }

    /// The phases, first to last.
    pub fn labels(&self) -> (labels: &Vec<Phase>)
        ensures
            labels@ == self@,
    {
        &self.labels
    }

    /// Where `phase` stands in the order, counted from zero.
    pub fn position(&self, phase: Phase) -> (place: Option<usize>)
        ensures
            place is Some <==> self@.contains(phase),
            place matches Some(i) ==> i < self@.len() && self@[i as int] == phase && forall|
                a: int,
            | 0 <= a < i ==> self@[a] != phase,
    {
        let mut i: usize = 0;
        while i < self.labels.len()
            invariant
                i <= self.labels.len(),
                forall|a: int| 0 <= a < i ==> self.labels@[a] != phase,
            decreases self.labels.len() - i,
        {
            if self.labels[i] == phase {
                return Some(i);
            }
            i += 1;
        }
        None
    }

    /// Puts `phase` directly after `after`.
    ///
    /// It is refused, and the order stays as it is, where `phase` already
    /// stands in the order (`Duplicate`) or, failing that, where `after` does
    /// not (`Missing`).
    pub fn insert_after(&mut self, after: Phase, phase: Phase) -> (outcome: Result<
        (),
        ScheduleError,
    >)
        requires
            old(self).wf(),
        ensures
            final(self).wf(),
            old(self)@.contains(phase) ==> outcome == Err::<(), ScheduleError>(
                ScheduleError::Duplicate(phase),
            ) && final(self)@ == old(self)@,
            !old(self)@.contains(phase) && !old(self)@.contains(after) ==> outcome == Err::<
                (),
                ScheduleError,
            >(ScheduleError::Missing(after)) && final(self)@ == old(self)@,
            !old(self)@.contains(phase) && old(self)@.contains(after) ==> outcome is Ok
                && final(self)@ == old(self)@.insert(old(self)@.index_of(after) + 1, phase),
    {
        if self.position(phase).is_some() {
            return Err(ScheduleError::Duplicate(phase));
        }
        match self.position(after) {
            None => Err(ScheduleError::Missing(after)),
            Some(i) => {
                assert(i < self.labels.len());
                proof {
                    assert(self@.index_of(after) == i);
                    lemma_insert_fresh(self@, i + 1, phase);
                }
                self.labels.insert(i + 1, phase);
                Ok(())
            },
        }
    }

    /// Puts `phase` directly before `before`.
    ///
    /// It is refused, and the order stays as it is, where `phase` already
    /// stands in the order (`Duplicate`) or, failing that, where `before` does
    /// not (`Missing`).
    pub fn insert_before(&mut self, before: Phase, phase: Phase) -> (outcome: Result<
        (),
        ScheduleError,
    >)
        requires
            old(self).wf(),
        ensures
            final(self).wf(),
            old(self)@.contains(phase) ==> outcome == Err::<(), ScheduleError>(
                ScheduleError::Duplicate(phase),
            ) && final(self)@ == old(self)@,
            !old(self)@.contains(phase) && !old(self)@.contains(before) ==> outcome == Err::<
                (),
                ScheduleError,
            >(ScheduleError::Missing(before)) && final(self)@ == old(self)@,
            !old(self)@.contains(phase) && old(self)@.contains(before) ==> outcome is Ok
                && final(self)@ == old(self)@.insert(old(self)@.index_of(before), phase),
    {
        if self.position(phase).is_some() {
            return Err(ScheduleError::Duplicate(phase));
        }
        match self.position(before) {
            None => Err(ScheduleError::Missing(before)),
            Some(i) => {
                proof {
                    assert(self@.index_of(before) == i);
                    lemma_insert_fresh(self@, i as int, phase);
                }
                self.labels.insert(i, phase);
                Ok(())
            },
        }
    }
}

/// Why the surface and render phases cannot be put into `labels`; `None`
/// where they can. The first reason that applies is the one given.
pub open spec fn refusal(labels: Seq<Phase>) -> Option<ScheduleError> {
    if labels.contains(Phase::Surface) {
        Some(ScheduleError::Duplicate(Phase::Surface))
    } else if labels.contains(Phase::Render) {
        Some(ScheduleError::Duplicate(Phase::Render))
    } else if !labels.contains(Phase::PreUpdate) {
        Some(ScheduleError::Missing(Phase::PreUpdate))
    } else if !labels.contains(Phase::Last) {
        Some(ScheduleError::Missing(Phase::Last))
    } else if labels.index_of(Phase::Last) < labels.index_of(Phase::PreUpdate) {
        Some(ScheduleError::Misordered)
    } else {
        None
    }
}

/// The host's order `labels` with the surface phase directly after the
/// pre-update phase and the render phase directly before the final phase.
pub open spec fn registered(labels: Seq<Phase>) -> Seq<Phase> {
    labels.insert(labels.index_of(Phase::PreUpdate) + 1, Phase::Surface).insert(
        labels.index_of(Phase::Last) + 1,
        Phase::Render,
    )
}

/// Registers the surface and render phases with the host.
pub struct SchedulePlugin;

impl SchedulePlugin {
    /// Puts the surface phase directly after the host's pre-update phase and
    /// the render phase directly before its final phase.
    ///
    /// It is refused, and the order stays as it is, where one of the two
    /// phases already stands in the order, where the order lacks the
    /// pre-update or the final phase, or where the final phase comes before
    /// the pre-update phase: `refusal` names the error.
    pub fn build(&self, order: &mut MainOrder) -> (outcome: Result<(), ScheduleError>)
        requires
            old(order).wf(),
        ensures
            final(order).wf(),
            refusal(old(order)@) matches Some(error) ==> outcome == Err::<(), ScheduleError>(error)
                && final(order)@ == old(order)@,
            refusal(old(order)@) is None ==> outcome is Ok && final(order)@ == registered(
                old(order)@,
            ),
    {
        if order.position(Phase::Surface).is_some() {
            return Err(ScheduleError::Duplicate(Phase::Surface));
        }
        if order.position(Phase::Render).is_some() {
            return Err(ScheduleError::Duplicate(Phase::Render));
        }
        let pre_update = match order.position(Phase::PreUpdate) {
            Some(i) => i,
            None => {
                return Err(ScheduleError::Missing(Phase::PreUpdate));
            },
        };
        let last = match order.position(Phase::Last) {
            Some(i) => i,
            None => {
                return Err(ScheduleError::Missing(Phase::Last));
            },
        };
        assert(order@.index_of(Phase::PreUpdate) == pre_update);
        assert(order@.index_of(Phase::Last) == last);
        if last < pre_update {
            return Err(ScheduleError::Misordered);
        }
        match order.insert_after(Phase::PreUpdate, Phase::Surface) {
            Ok(()) => {},
            Err(error) => {
                return Err(error);
            },
        }
        proof {
            lemma_insert_fresh(old(order)@, pre_update + 1, Phase::Surface);
            assert(order@[last + 1] == Phase::Last);
            assert(order@.contains(Phase::Last));
            assert(order@.index_of(Phase::Last) == last + 1);
            assert(!order@.contains(Phase::Render)) by {
                if order@.contains(Phase::Render) {
                    let i = order@.index_of(Phase::Render);
                    if i < pre_update + 1 {
                        assert(old(order)@[i] == Phase::Render);
                    } else {
                        assert(old(order)@[i - 1] == Phase::Render);
                    }
                }
            }
        }
        order.insert_before(Phase::Last, Phase::Render)
    }
}

/// What registration guarantees of the frame: the surface phase follows the
/// pre-update phase directly, the render phase precedes the final phase
/// directly, the surface phase comes before the render phase, each of the two
/// stands in the order exactly once, and the host's own phases keep the order
/// they had.
pub proof fn lemma_registered_order(labels: Seq<Phase>)
    requires
        labels.no_duplicates(),
        refusal(labels) is None,
    ensures
        registered(labels).no_duplicates(),
        registered(labels).len() == labels.len() + 2,
        registered(labels).contains(Phase::Surface),
        registered(labels).contains(Phase::Render),
        registered(labels).contains(Phase::PreUpdate),
        registered(labels).contains(Phase::Last),
        registered(labels).index_of(Phase::Surface) == registered(labels).index_of(
            Phase::PreUpdate,
        ) + 1,
        registered(labels).index_of(Phase::Render) + 1 == registered(labels).index_of(Phase::Last),
        registered(labels).index_of(Phase::Surface) < registered(labels).index_of(Phase::Render),
        forall|a: Phase, b: Phase|
            labels.contains(a) && labels.contains(b) && labels.index_of(a) < labels.index_of(b)
                ==> registered(labels).contains(a) && registered(labels).contains(b)
                && registered(labels).index_of(a) < registered(labels).index_of(b),
{
    let p = labels.index_of(Phase::PreUpdate);
    let l = labels.index_of(Phase::Last);
    let mid = labels.insert(p + 1, Phase::Surface);
    let out = registered(labels);
    assert(p != l);
    lemma_insert_fresh(labels, p + 1, Phase::Surface);
    assert(!mid.contains(Phase::Render)) by {
        if mid.contains(Phase::Render) {
            let i = mid.index_of(Phase::Render);
            if i < p + 1 {
                assert(labels[i] == Phase::Render);
            } else {
                assert(labels[i - 1] == Phase::Render);
            }
        }
    }
    lemma_insert_fresh(mid, l + 1, Phase::Render);
    assert(out[p] == Phase::PreUpdate);
    assert(out[p + 1] == Phase::Surface);
    assert(out[l + 1] == Phase::Render);
    assert(out[l + 2] == Phase::Last) by {
        assert(mid[l + 1] == Phase::Last);
    }
    assert(out.index_of(Phase::PreUpdate) == p);
    assert(out.index_of(Phase::Surface) == p + 1);
    assert(out.index_of(Phase::Render) == l + 1);
    assert(out.index_of(Phase::Last) == l + 2);
    assert forall|a: Phase, b: Phase|
        labels.contains(a) && labels.contains(b) && labels.index_of(a) < labels.index_of(
            b,
        ) implies out.contains(a) && out.contains(b) && out.index_of(a) < out.index_of(b) by {
        let ia = labels.index_of(a);
        let ib = labels.index_of(b);
        let ma = if ia < p + 1 { ia } else { ia + 1 };
        let mb = if ib < p + 1 { ib } else { ib + 1 };
        assert(mid[ma] == a);
        assert(mid[mb] == b);
        let oa = if ma < l + 1 { ma } else { ma + 1 };
        let ob = if mb < l + 1 { mb } else { mb + 1 };
        assert(out[oa] == a);
        assert(out[ob] == b);
        assert(out.index_of(a) == oa);
        assert(out.index_of(b) == ob);
    }
}

/// One thing that happens in a frame.
#[derive(Clone, Copy, Debug, PartialEq, Eq, Structural)]
pub enum Step {
    /// The host runs one of its own phases.
    Host(Phase),
    /// The operation that was registered with the surface phase as number
    /// `0`, `1`, ... runs.
    Surface(usize),
    /// The operation that was registered with the render phase as number
    /// `0`, `1`, ... runs.
    Render(usize),
}

/// What one phase contributes to a frame: a phase of the host is run by the
/// host; the surface and the render phase run each of their operations once,
/// in the order of registration.
pub open spec fn phase_steps(phase: Phase, surface_ops: usize, render_ops: usize) -> Seq<Step> {
    match phase {
        Phase::Surface => Seq::new(surface_ops as nat, |k: int| Step::Surface(k as usize)),
        Phase::Render => Seq::new(render_ops as nat, |k: int| Step::Render(k as usize)),
        _ => seq![Step::Host(phase)],
    }
}

/// The steps of one frame over `labels`: the steps of each phase, phase after
/// phase.
pub open spec fn frame_steps(labels: Seq<Phase>, surface_ops: usize, render_ops: usize) -> Seq<
    Step,
>
    decreases labels.len(),
{
    if labels.len() == 0 {
        Seq::empty()
    } else {
        frame_steps(labels.drop_last(), surface_ops, render_ops) + phase_steps(
            labels.last(),
            surface_ops,
            render_ops,
        )
    }
}

impl MainOrder {
    /// The steps of one frame, first to last, with `surface_ops` operations
    /// registered with the surface phase and `render_ops` with the render
    /// phase.
    pub fn frame(&self, surface_ops: usize, render_ops: usize) -> (steps: Vec<Step>)
        ensures
            steps@ == frame_steps(self@, surface_ops, render_ops),
    {
        let mut steps: Vec<Step> = Vec::new();
        let mut i: usize = 0;
        assert(self.labels@.take(0) =~= Seq::<Phase>::empty());
        while i < self.labels.len()
            invariant
                i <= self.labels.len(),
                steps@ == frame_steps(self.labels@.take(i as int), surface_ops, render_ops),
            decreases self.labels.len() - i,
        {
            let phase = self.labels[i];
            let ghost before = steps@;
            assert(self.labels@.take(i + 1).drop_last() =~= self.labels@.take(i as int));
            assert(self.labels@.take(i + 1).last() == phase);
            match phase {
                Phase::Surface => {
                    let mut k: usize = 0;
                    while k < surface_ops
                        invariant
                            k <= surface_ops,
                            steps@ == before + Seq::new(k as nat, |n: int| Step::Surface(n as usize)),
                        decreases surface_ops - k,
                    {
                        steps.push(Step::Surface(k));
                        k += 1;
                        assert(steps@ =~= before + Seq::new(
                            k as nat,
                            |n: int| Step::Surface(n as usize),
                        ));
                    }
                },
                Phase::Render => {
                    let mut k: usize = 0;
                    while k < render_ops
                        invariant
                            k <= render_ops,
                            steps@ == before + Seq::new(k as nat, |n: int| Step::Render(n as usize)),
                        decreases render_ops - k,
                    {
                        steps.push(Step::Render(k));
                        k += 1;
                        assert(steps@ =~= before + Seq::new(
                            k as nat,
                            |n: int| Step::Render(n as usize),
                        ));
                    }
                },
                _ => {
                    steps.push(Step::Host(phase));
                    assert(steps@ =~= before + seq![Step::Host(phase)]);
                },
            }
            i += 1;
        }
        assert(self.labels@.take(i as int) =~= self.labels@);
        steps
    }
}

/// What holds of the steps of a frame over an order without duplicates.
spec fn frame_shape(labels: Seq<Phase>, surface_ops: usize, render_ops: usize) -> bool {
    let steps = frame_steps(labels, surface_ops, render_ops);
    &&& steps.no_duplicates()
    &&& forall|i: int|
        0 <= i < steps.len() && #[trigger] steps[i] is Host ==> labels.contains(steps[i]->Host_0)
            && steps[i]->Host_0 != Phase::Surface && steps[i]->Host_0 != Phase::Render
    &&& forall|i: int|
        0 <= i < steps.len() && #[trigger] steps[i] is Surface ==> labels.contains(Phase::Surface)
            && steps[i]->Surface_0 < surface_ops
    &&& forall|i: int|
        0 <= i < steps.len() && #[trigger] steps[i] is Render ==> labels.contains(Phase::Render)
            && steps[i]->Render_0 < render_ops
    &&& labels.contains(Phase::Surface) ==> forall|k: usize|
        k < surface_ops ==> #[trigger] steps.contains(Step::Surface(k))
    &&& labels.contains(Phase::Render) ==> forall|k: usize|
        k < render_ops ==> #[trigger] steps.contains(Step::Render(k))
    &&& forall|i: int, j: int|
        0 <= i < j < steps.len() && #[trigger] steps[i] is Surface && #[trigger] steps[j] is Surface
            ==> steps[i]->Surface_0 < steps[j]->Surface_0
    &&& forall|i: int, j: int|
        0 <= i < j < steps.len() && #[trigger] steps[i] is Render && #[trigger] steps[j] is Render
            ==> steps[i]->Render_0 < steps[j]->Render_0
    &&& labels.contains(Phase::Surface) && labels.contains(Phase::Render) && labels.index_of(
        Phase::Surface,
    ) < labels.index_of(Phase::Render) ==> forall|i: int, j: int|
        0 <= i < steps.len() && 0 <= j < steps.len() && #[trigger] steps[i] is Surface
            && #[trigger] steps[j] is Render ==> i < j
}

proof fn lemma_frame_shape(labels: Seq<Phase>, surface_ops: usize, render_ops: usize)
    requires
        labels.no_duplicates(),
    ensures
        frame_shape(labels, surface_ops, render_ops),
    decreases labels.len(),
{
    let steps = frame_steps(labels, surface_ops, render_ops);
    if labels.len() == 0 {
        assert(steps.len() == 0);
        assert(!labels.contains(Phase::Surface));
        assert(!labels.contains(Phase::Render));
    } else {
        let pre = labels.drop_last();
        let last = labels.last();
        let head = frame_steps(pre, surface_ops, render_ops);
        let tail = phase_steps(last, surface_ops, render_ops);
        let n = labels.len() - 1;
        assert(steps == head + tail);
        assert(pre.no_duplicates());
        lemma_frame_shape(pre, surface_ops, render_ops);
        assert(!pre.contains(last)) by {
            if pre.contains(last) {
                let i = pre.index_of(last);
                assert(labels[i] == labels[n]);
            }
        }
        assert forall|x: Phase| pre.contains(x) implies labels.contains(x) && labels.index_of(x)
            == pre.index_of(x) by {
            let i = pre.index_of(x);
            assert(labels[i] == x);
        }
        assert(labels.contains(last)) by {
            assert(labels[n] == last);
        }
        assert(labels.index_of(last) == n);
        assert forall|x: Phase| labels.contains(x) && x != last implies pre.contains(x) by {
            let i = labels.index_of(x);
            assert(pre[i] == x);
        }
        // Every step of the last phase belongs to that phase alone.
        assert forall|j: int| 0 <= j < tail.len() implies match last {
            Phase::Surface => tail[j] == Step::Surface(j as usize) && j < surface_ops,
            Phase::Render => tail[j] == Step::Render(j as usize) && j < render_ops,
            _ => tail[j] == Step::Host(last),
        } by {}
        assert forall|i: int| 0 <= i < steps.len() implies steps[i] == (if i < head.len() {
            head[i]
        } else {
            tail[i - head.len()]
        }) by {}
        assert(steps.no_duplicates()) by {
            assert forall|i: int, j: int|
                0 <= i < steps.len() && 0 <= j < steps.len() && i != j implies steps[i]
                != steps[j] by {
                if i < head.len() && j < head.len() {
                } else if i >= head.len() && j >= head.len() {
                } else {
                    let a = if i < head.len() { i } else { j };
                    let b = if i < head.len() { j } else { i };
                    assert(steps[a] == head[a]);
                    assert(steps[b] == tail[b - head.len()]);
                    if head[a] is Host {
                    } else if head[a] is Surface {
                    } else {
                    }
                }
            }
        }
        assert forall|i: int| 0 <= i < steps.len() && #[trigger] steps[i] is Host implies labels.contains(
            steps[i]->Host_0,
        ) && steps[i]->Host_0 != Phase::Surface && steps[i]->Host_0 != Phase::Render by {
            if i < head.len() {
                assert(head[i] is Host);
            }
        }
        assert forall|i: int|
            0 <= i < steps.len() && #[trigger] steps[i] is Surface implies labels.contains(
            Phase::Surface,
        ) && steps[i]->Surface_0 < surface_ops by {
            if i < head.len() {
                assert(head[i] is Surface);
            }
        }
        assert forall|i: int| 0 <= i < steps.len() && #[trigger] steps[i] is Render implies labels.contains(
            Phase::Render,
        ) && steps[i]->Render_0 < render_ops by {
            if i < head.len() {
                assert(head[i] is Render);
            }
        }
        if labels.contains(Phase::Surface) {
            assert forall|k: usize| k < surface_ops implies #[trigger] steps.contains(
                Step::Surface(k),
            ) by {
                if last == Phase::Surface {
                    assert(steps[head.len() + k] == Step::Surface(k));
                } else {
                    assert(head.contains(Step::Surface(k)));
                    let i = head.index_of(Step::Surface(k));
                    assert(steps[i] == Step::Surface(k));
                }
            }
        }
        if labels.contains(Phase::Render) {
            assert forall|k: usize| k < render_ops implies #[trigger] steps.contains(
                Step::Render(k),
            ) by {
                if last == Phase::Render {
                    assert(steps[head.len() + k] == Step::Render(k));
                } else {
                    assert(head.contains(Step::Render(k)));
                    let i = head.index_of(Step::Render(k));
                    assert(steps[i] == Step::Render(k));
                }
            }
        }
        assert forall|i: int, j: int|
            0 <= i < j < steps.len() && #[trigger] steps[i] is Surface
                && #[trigger] steps[j] is Surface implies steps[i]->Surface_0
            < steps[j]->Surface_0 by {
            if j < head.len() {
                assert(head[i] is Surface && head[j] is Surface);
            } else if i < head.len() {
                assert(head[i] is Surface);
            } else {
            }
        }
        assert forall|i: int, j: int|
            0 <= i < j < steps.len() && #[trigger] steps[i] is Render
                && #[trigger] steps[j] is Render implies steps[i]->Render_0
            < steps[j]->Render_0 by {
            if j < head.len() {
                assert(head[i] is Render && head[j] is Render);
            } else if i < head.len() {
                assert(head[i] is Render);
            } else {
            }
        }
        if labels.contains(Phase::Surface) && labels.contains(Phase::Render) && labels.index_of(
            Phase::Surface,
        ) < labels.index_of(Phase::Render) {
            assert(last != Phase::Surface);
            assert forall|i: int, j: int|
                0 <= i < steps.len() && 0 <= j < steps.len() && #[trigger] steps[i] is Surface
                    && #[trigger] steps[j] is Render implies i < j by {
                if i >= head.len() {
                    assert(tail[i - head.len()] is Surface);
                } else if j >= head.len() {
                } else {
                    assert(head[i] is Surface);
                    assert(head[j] is Render);
                    assert(pre.contains(Phase::Surface));
                    assert(pre.contains(Phase::Render));
                }
            }
        }
    }
}

/// The order of a frame in which the surface phase stands before the render
/// phase: every operation of the surface phase runs before every operation
/// of the render phase; each registered operation runs exactly once and no
/// other does; and within a phase the operations run in the order of their
/// registration.
pub proof fn lemma_frame_order(labels: Seq<Phase>, surface_ops: usize, render_ops: usize)
    requires
        labels.no_duplicates(),
        labels.contains(Phase::Surface),
        labels.contains(Phase::Render),
        labels.index_of(Phase::Surface) < labels.index_of(Phase::Render),
    ensures
        ({
            let steps = frame_steps(labels, surface_ops, render_ops);
            &&& forall|i: int, j: int|
                0 <= i < steps.len() && 0 <= j < steps.len() && #[trigger] steps[i] is Surface
                    && #[trigger] steps[j] is Render ==> i < j
            &&& steps.no_duplicates()
            &&& forall|k: usize| k < surface_ops ==> #[trigger] steps.contains(Step::Surface(k))
            &&& forall|k: usize| k < render_ops ==> #[trigger] steps.contains(Step::Render(k))
            &&& forall|i: int|
                0 <= i < steps.len() && #[trigger] steps[i] is Surface ==> steps[i]->Surface_0
                    < surface_ops
            &&& forall|i: int|
                0 <= i < steps.len() && #[trigger] steps[i] is Render ==> steps[i]->Render_0
                    < render_ops
            &&& forall|i: int, j: int|
                0 <= i < j < steps.len() && #[trigger] steps[i] is Surface
                    && #[trigger] steps[j] is Surface ==> steps[i]->Surface_0
                    < steps[j]->Surface_0
            &&& forall|i: int, j: int|
                0 <= i < j < steps.len() && #[trigger] steps[i] is Render
                    && #[trigger] steps[j] is Render ==> steps[i]->Render_0 < steps[j]->Render_0
        }),
{
    lemma_frame_shape(labels, surface_ops, render_ops);
}

/// The frame after registration: in every frame over an order that `build`
/// has accepted, all of `lemma_frame_order` holds. A resize made by an
/// operation of the surface phase has therefore happened when any operation
/// of the render phase of the same frame runs.
pub proof fn lemma_registered_frame(labels: Seq<Phase>, surface_ops: usize, render_ops: usize)
    requires
        labels.no_duplicates(),
        refusal(labels) is None,
    ensures
        ({
            let steps = frame_steps(registered(labels), surface_ops, render_ops);
            &&& forall|i: int, j: int|
                0 <= i < steps.len() && 0 <= j < steps.len() && #[trigger] steps[i] is Surface
                    && #[trigger] steps[j] is Render ==> i < j
            &&& steps.no_duplicates()
            &&& forall|k: usize| k < surface_ops ==> #[trigger] steps.contains(Step::Surface(k))
            &&& forall|k: usize| k < render_ops ==> #[trigger] steps.contains(Step::Render(k))
        }),
{
    lemma_registered_order(labels);
    lemma_frame_order(registered(labels), surface_ops, render_ops);
}

} // verus!
