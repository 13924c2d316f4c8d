use vstd::prelude::*;

verus! {

/// Largest number of sphere-tracing steps a single march may take.
pub const MAX_RAY_STEPS: u32 = 1000;

/// The march goes on while both budgets last.
pub open spec fn budget_left(steps: u32, length_reached: bool) -> bool {
    steps < MAX_RAY_STEPS && !length_reached
}

/// Whether another step is due.
pub fn march_continues(steps: u32, length_reached: bool) -> (r: bool)
    ensures
        r == budget_left(steps, length_reached),
{
    steps < MAX_RAY_STEPS && !length_reached
}

/// The bookkeeping of one sphere-tracing march.
///
/// The driver samples the field, advances along the ray by that distance
/// (floored at a minimum step), and hands each step's verdict on the
/// arc-length budget to `record_step`, for as long as `is_running` says a
/// step is due. Nothing but the two budgets ends the march: a sample on or
/// inside the surface does not stop it.
pub struct MarchState {
    steps: u32,
    length_reached: bool,
    /// What each recorded step said of the arc-length budget, in order.
    reports: Ghost<Seq<bool>>,
}

impl MarchState {
    pub closed spec fn steps_spec(&self) -> u32 {
        self.steps
    }

    pub closed spec fn length_reached_spec(&self) -> bool {
        self.length_reached
    }

    /// What each recorded step said of the arc-length budget, in order.
    pub closed spec fn reports_spec(&self) -> Seq<bool> {
        self.reports@
    }

    /// Every step recorded so far was due: all but the last reported budget
    /// left, and the step budget was never exceeded.
    pub open spec fn wf(&self) -> bool {
        &&& self.steps_spec() <= MAX_RAY_STEPS
        &&& self.reports_spec().len() == self.steps_spec()
        &&& self.steps_spec() == 0 ==> !self.length_reached_spec()
        &&& self.steps_spec() >= 1 ==> self.length_reached_spec() == self.reports_spec().last()
        &&& forall|i: int| 0 <= i < self.steps_spec() - 1 ==> !self.reports_spec()[i]
    }

    pub open spec fn running_spec(&self) -> bool {
        budget_left(self.steps_spec(), self.length_reached_spec())
    }

    /// A march that has taken no step.
    pub fn new() -> (r: MarchState)
        ensures
            r.wf(),
            r.steps_spec() == 0,
            !r.length_reached_spec(),
            r.reports_spec() == Seq::<bool>::empty(),
    {
        MarchState { steps: 0, length_reached: false, reports: Ghost(Seq::empty()) }
    }

    /// Steps taken so far.
    pub fn steps(&self) -> (r: u32)
        ensures
            r == self.steps_spec(),
    {
        self.steps
    }

    /// Whether the last step reached the arc-length budget.
    pub fn length_reached(&self) -> (r: bool)
        ensures
            r == self.length_reached_spec(),
    {
        self.length_reached
    }

    /// Whether another step is due: both budgets still last.
    pub fn is_running(&self) -> (r: bool)
        ensures
            r == self.running_spec(),
    {
        march_continues(self.steps, self.length_reached)
    }

    /// Records one step, with whether the arc length has now reached its
    /// budget. Only a due step may be recorded.
    pub fn record_step(&mut self, length_reached: bool)
        requires
            old(self).wf(),
            old(self).running_spec(),
        ensures
            final(self).wf(),
            final(self).steps_spec() == old(self).steps_spec() + 1,
            final(self).length_reached_spec() == length_reached,
            final(self).reports_spec() == old(self).reports_spec().push(length_reached),
    {
        self.steps = self.steps + 1;
        self.length_reached = length_reached;
        proof {
            self.reports@ = self.reports@.push(length_reached);
        }
    }
}

/// A march ends only on a spent budget, never earlier: once no step is due,
/// at least one step was taken, either the whole step budget was used or the
/// last step reached the arc-length budget, and every earlier step had
/// reported budget left.
pub proof fn lemma_stops_only_on_budget(s: MarchState)
    requires
        s.wf(),
        !s.running_spec(),
    ensures
        1 <= s.steps_spec() <= MAX_RAY_STEPS,
        s.steps_spec() == MAX_RAY_STEPS || s.reports_spec().last(),
        forall|i: int| 0 <= i < s.steps_spec() - 1 ==> !s.reports_spec()[i],
{
}

} // verus!
