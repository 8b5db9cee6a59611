//! The order in which a user runs its tasks: first the tasks for its
//! start, once; then its main tasks, again and again until it is told to
//! stop; at last the tasks for its stop, once.

use crate::goose::GooseUser;
use crate::planner::{buckets, StepClass};
use vstd::prelude::*;

verus! {

/// Where a user stands in its run.
#[derive(Clone, Copy, Debug, PartialEq, Eq, Structural)]
pub enum UserPhase {
    /// Running the tasks for its start.
    OnStart,
    /// Running its main tasks.
    Main,
    /// Running the tasks for its stop.
    OnStop,
    /// At its end.
    Done,
}

/// The place of a user in its plans: the plan it is in, and the bucket
/// and the position in the bucket of the task that it runs next.
#[derive(Clone, Copy, Debug, PartialEq, Eq, Structural)]
pub struct UserCursor {
    /// The plan the user is in.
    pub phase: UserPhase,
    /// The bucket of the task that it runs next.
    pub bucket: usize,
    /// The position of that task in its bucket.
    pub position: usize,
}

/// A task that a user is to run.
#[derive(Clone, Copy, Debug, PartialEq, Eq, Structural)]
pub struct UserStep {
    /// The plan that the task is run from.
    pub class: StepClass,
    /// The index of the task in its task set.
    pub task_index: usize,
}

/// The three plans of a user.
pub struct UserPlans {
    /// The tasks for the start of the user.
    pub on_start: Seq<Seq<usize>>,
    /// The main tasks of the user.
    pub main: Seq<Seq<usize>>,
    /// The tasks for the stop of the user.
    pub on_stop: Seq<Seq<usize>>,
}

/// The plans that a user holds.
pub open spec fn plans_of(user: GooseUser) -> UserPlans {
    UserPlans {
        on_start: buckets(user.weighted_on_start_tasks),
        main: buckets(user.weighted_tasks),
        on_stop: buckets(user.weighted_on_stop_tasks),
    }
}

/// The place of the first task at or after a place in a plan: buckets
/// are gone through in their order, and each bucket from its first task to
/// its last. None where the plan has no more tasks.
pub open spec fn next_in(plan: Seq<Seq<usize>>, bucket: int, position: int) -> Option<(int, int)>
    decreases plan.len() - bucket,
{
    if bucket < 0 || bucket >= plan.len() {
        None
    } else if 0 <= position < plan[bucket].len() {
        Some((bucket, position))
    } else {
        next_in(plan, bucket + 1, 0)
    }
}

/// A user at the start of a plan.
pub open spec fn at_start_of(phase: UserPhase) -> UserCursor {
    UserCursor { phase, bucket: 0, position: 0 }
}

/// The next task from the tasks for the stop of a user, where one is
/// left; else the user is at its end.
pub open spec fn step_on_stop(cursor: UserCursor, plans: UserPlans) -> (
    UserCursor,
    Option<UserStep>,
) {
    match next_in(plans.on_stop, cursor.bucket as int, cursor.position as int) {
        Some((bucket, position)) => (
            UserCursor {
                phase: UserPhase::OnStop,
                bucket: bucket as usize,
                position: (position + 1) as usize,
            },
            Some(
                UserStep { class: StepClass::OnStop, task_index: plans.on_stop[bucket][position] },
            ),
        ),
        None => (at_start_of(UserPhase::Done), None),
    }
}

/// The next main task of a user: the next of the plan, which starts again
/// from its first task when the last was run. A user that is told to
/// stop, or that has no main task, goes on to the tasks for its stop.
pub open spec fn step_main(cursor: UserCursor, plans: UserPlans, exit: bool) -> (
    UserCursor,
    Option<UserStep>,
) {
    if exit {
        step_on_stop(at_start_of(UserPhase::OnStop), plans)
    } else {
        let found = match next_in(plans.main, cursor.bucket as int, cursor.position as int) {
            Some(place) => Some(place),
            None => next_in(plans.main, 0, 0),
        };
        match found {
            Some((bucket, position)) => (
                UserCursor {
                    phase: UserPhase::Main,
                    bucket: bucket as usize,
                    position: (position + 1) as usize,
                },
                Some(UserStep { class: StepClass::Main, task_index: plans.main[bucket][position] }),
            ),
            None => step_on_stop(at_start_of(UserPhase::OnStop), plans),
        }
    }
}

/// The next task of a user, and where the user stands after it. `exit`
/// says whether the user was told to stop; it is looked at before each
/// main task, and not while the tasks for the start are run.
pub open spec fn spec_next_step(cursor: UserCursor, plans: UserPlans, exit: bool) -> (
    UserCursor,
    Option<UserStep>,
) {
    match cursor.phase {
        UserPhase::OnStart => match next_in(
            plans.on_start,
            cursor.bucket as int,
            cursor.position as int,
        ) {
            Some((bucket, position)) => (
                UserCursor {
                    phase: UserPhase::OnStart,
                    bucket: bucket as usize,
                    position: (position + 1) as usize,
                },
                Some(
                    UserStep {
                        class: StepClass::OnStart,
                        task_index: plans.on_start[bucket][position],
                    },
                ),
            ),
            None => step_main(at_start_of(UserPhase::Main), plans, exit),
        },
        UserPhase::Main => step_main(cursor, plans, exit),
        UserPhase::OnStop => step_on_stop(cursor, plans),
        UserPhase::Done => (cursor, None),
    }
}

/// The place of a plan in the run of a user.
pub open spec fn class_rank(class: StepClass) -> int {
    match class {
        StepClass::OnStart => 0,
        StepClass::Main => 1,
        StepClass::OnStop => 2,
    }
}

/// The place of a phase in the run of a user.
pub open spec fn phase_rank(phase: UserPhase) -> int {
    match phase {
        UserPhase::OnStart => 0,
        UserPhase::Main => 1,
        UserPhase::OnStop => 2,
        UserPhase::Done => 3,
    }
}

/// The tasks that a user runs from a place on, one for each entry of
/// `exits`, which says before each task whether the user was told to stop
/// by then; the run ends where the user has no more task.
pub open spec fn trace(cursor: UserCursor, plans: UserPlans, exits: Seq<bool>) -> Seq<UserStep>
    decreases exits.len(),
{
    if exits.len() == 0 {
        Seq::empty()
    } else {
        let (next, step) = spec_next_step(cursor, plans, exits[0]);
        match step {
            Some(s) => seq![s] + trace(next, plans, exits.drop_first()),
            None => Seq::empty(),
        }
    }
}

/// A user never goes back: after a task it stands in the plan that the
/// task was run from, which is the plan it stood in or a later one.
pub proof fn lemma_step_forward(cursor: UserCursor, plans: UserPlans, exit: bool)
    ensures
        phase_rank(spec_next_step(cursor, plans, exit).0.phase) >= phase_rank(cursor.phase),
        spec_next_step(cursor, plans, exit).1 matches Some(step) ==> class_rank(step.class)
            == phase_rank(spec_next_step(cursor, plans, exit).0.phase),
{
}

/// Every task of a run is run from the plan that the user stands in, or
/// from a later one.
pub proof fn lemma_trace_from_phase(cursor: UserCursor, plans: UserPlans, exits: Seq<bool>, i: int)
    requires
        0 <= i < trace(cursor, plans, exits).len(),
    ensures
        class_rank(trace(cursor, plans, exits)[i].class) >= phase_rank(cursor.phase),
    decreases exits.len(),
{
    let (next, step) = spec_next_step(cursor, plans, exits[0]);
    lemma_step_forward(cursor, plans, exits[0]);
    if i > 0 {
        lemma_trace_from_phase(next, plans, exits.drop_first(), i - 1);
    }
}

/// The order of the tasks of a user: in every run, a task for the start
/// comes before every main task and every task for the stop, and a main
/// task comes before every task for the stop. So every task for the start
/// is run before the first main task, and every task for the stop after
/// the last.
pub proof fn lemma_hooks_in_order(
    cursor: UserCursor,
    plans: UserPlans,
    exits: Seq<bool>,
    i: int,
    j: int,
)
    requires
        0 <= i < j < trace(cursor, plans, exits).len(),
    ensures
        class_rank(trace(cursor, plans, exits)[i].class) <= class_rank(
            trace(cursor, plans, exits)[j].class,
        ),
    decreases exits.len(),
{
    let (next, step) = spec_next_step(cursor, plans, exits[0]);
    lemma_step_forward(cursor, plans, exits[0]);
    if i == 0 {
        lemma_trace_from_phase(next, plans, exits.drop_first(), j - 1);
    } else {
        lemma_hooks_in_order(next, plans, exits.drop_first(), i - 1, j - 1);
    }
}

/// The place of the first task at or after a place in a plan.
pub fn next_place(plan: &Vec<Vec<usize>>, bucket: usize, position: usize) -> (r: Option<
    (usize, usize),
>)
    ensures
        match r {
            Some((b, p)) => next_in(buckets(*plan), bucket as int, position as int) == Some(
                (b as int, p as int),
            ) && b < plan@.len() && p < plan@[b as int]@.len() && p < usize::MAX,
            None => next_in(buckets(*plan), bucket as int, position as int) is None,
        },
{
    if bucket >= plan.len() {
        return None;
    }
    if position < plan[bucket].len() {
        return Some((bucket, position));
    }
    let mut b: usize = bucket + 1;
    while b < plan.len()
        invariant
            bucket < b <= plan.len(),
            next_in(buckets(*plan), bucket as int, position as int) == next_in(
                buckets(*plan),
                b as int,
                0,
            ),
        decreases plan.len() - b,
    {
        if plan[b].len() > 0 {
            return Some((b, 0));
        }
        b = b + 1;
    }
    None
}

impl UserCursor {
    /// A user before its first task.
    pub fn new() -> (r: UserCursor)
        ensures
            r == at_start_of(UserPhase::OnStart),
    {
        UserCursor { phase: UserPhase::OnStart, bucket: 0, position: 0 }
    }

    /// The next task from the tasks for the stop of the user.
    fn on_stop_step(&mut self, user: &GooseUser) -> (r: Option<UserStep>)
        ensures
            (*final(self), r) == step_on_stop(*old(self), plans_of(*user)),
    {
        match next_place(&user.weighted_on_stop_tasks, self.bucket, self.position) {
            Some((bucket, position)) => {
                let task_index = user.weighted_on_stop_tasks[bucket][position];
                self.phase = UserPhase::OnStop;
                self.bucket = bucket;
                self.position = position + 1;
                Some(UserStep { class: StepClass::OnStop, task_index })
            },
            None => {
                self.phase = UserPhase::Done;
                self.bucket = 0;
                self.position = 0;
                None
            },
        }
    }

    /// The next main task of the user.
    fn main_step(&mut self, user: &GooseUser, exit: bool) -> (r: Option<UserStep>)
        ensures
            (*final(self), r) == step_main(*old(self), plans_of(*user), exit),
    {
        if !exit {
            let found = match next_place(&user.weighted_tasks, self.bucket, self.position) {
                Some(place) => Some(place),
                None => next_place(&user.weighted_tasks, 0, 0),
            };
            match found {
                Some((bucket, position)) => {
                    let task_index = user.weighted_tasks[bucket][position];
                    self.phase = UserPhase::Main;
                    self.bucket = bucket;
                    self.position = position + 1;
                    return Some(UserStep { class: StepClass::Main, task_index });
                },
                None => {},
            }
        }
        self.phase = UserPhase::OnStop;
        self.bucket = 0;
        self.position = 0;
        self.on_stop_step(user)
    }

    /// Says which task the user runs next, and moves on. `exit` says
    /// whether the user was told to stop. After the last task for its stop
    /// the user has no more task.
    pub fn next_step(&mut self, user: &GooseUser, exit: bool) -> (r: Option<UserStep>)
        ensures
            (*final(self), r) == spec_next_step(*old(self), plans_of(*user), exit),
    {
        match self.phase {
            UserPhase::OnStart => {
                match next_place(&user.weighted_on_start_tasks, self.bucket, self.position) {
                    Some((bucket, position)) => {
                        let task_index = user.weighted_on_start_tasks[bucket][position];
                        self.bucket = bucket;
                        self.position = position + 1;
                        Some(UserStep { class: StepClass::OnStart, task_index })
                    },
                    None => {
                        self.phase = UserPhase::Main;
                        self.bucket = 0;
                        self.position = 0;
                        self.main_step(user, exit)
                    },
                }
            },
            UserPhase::Main => self.main_step(user, exit),
            UserPhase::OnStop => self.on_stop_step(user),
            UserPhase::Done => None,
        }
    }
}

/// Whether a user waits after a task: after a main task, where it has a
/// time to wait; not after the tasks for its start and its stop.
pub open spec fn spec_waits_after(step: UserStep, max_wait: usize) -> bool {
    step.class == StepClass::Main && max_wait > 0
}

/// Whether a user waits after a task.
pub fn waits_after(step: &UserStep, user: &GooseUser) -> (r: bool)
    ensures
        r == spec_waits_after(*step, user.max_wait),
{
    match step.class {
        StepClass::Main => user.max_wait > 0,
        _ => false,
    }
}

/// The time a user waits after a main task, for a number drawn by
/// chance: the shortest wait and what the number leaves when divided by
/// the number of possible waits. So every number gives a wait from the
/// shortest to the longest, and numbers drawn evenly give waits drawn
/// evenly.
pub open spec fn spec_think_time(min_wait: usize, max_wait: usize, draw: u64) -> usize {
    if max_wait <= min_wait {
        min_wait
    } else {
        (min_wait + draw as int % (max_wait - min_wait + 1)) as usize
    }
}

/// The time a user waits after a main task, in milliseconds, for a number
/// drawn by chance.
pub fn think_time(min_wait: usize, max_wait: usize, draw: u64) -> (r: usize)
    ensures
        r == spec_think_time(min_wait, max_wait, draw),
        min_wait <= max_wait ==> min_wait <= r <= max_wait,
{
    if max_wait <= min_wait {
        min_wait
    } else {
        let span: u128 = (max_wait - min_wait) as u128 + 1;
        let step: u128 = (draw as u128) % span;
        min_wait + step as usize
    }
}

} // verus!
