//! The supervision of a subprocess whose output is captured: one that wedges is
//! felled at its deadline, and one that has exited is never waited for past a
//! short grace, whoever still holds its pipes open.

use crate::bound::{Bound, DRAIN_POLL_MILLIS, POLL_MILLIS, READER_DRAIN_GRACE_MILLIS};
use vstd::prelude::*;

verus! {

/// What a look at the subprocess and at the two readers of its pipes shows.
#[derive(Clone, Copy, PartialEq, Eq, Structural)]
pub struct Seen {
    /// The subprocess itself, the leader of its process group, has exited.
    pub exited: bool,
    /// The reader of its standard output has reached the end.
    pub stdout_drained: bool,
    /// The reader of its standard error has reached the end.
    pub stderr_drained: bool,
}

/// How far the supervision of a subprocess has come. Moments are nanoseconds
/// since some fixed start.
#[derive(Clone, Copy, PartialEq, Eq, Structural)]
pub enum Stage {
    /// The subprocess may still run, up to the deadline.
    Running { deadline: u128 },
    /// The subprocess has exited and its readers have until that moment, which
    /// the next look sets where it is not set yet. `felled` says whether the
    /// process group was already felled to close the pipes.
    Draining { until: Option<u128>, felled: bool },
}

/// What to do after a look.
#[derive(Clone, Copy, PartialEq, Eq, Structural)]
pub enum Order {
    /// Sleep this long, then look again.
    Sleep { millis: u64 },
    /// Look again at once: the subprocess has exited, and its readers are next.
    Drain,
    /// Fell the process group, so that nobody holds the pipes open, then look
    /// again at once.
    FellGroup,
    /// Done: take the output of each reader that is named here, and nothing of
    /// the other.
    Collect { stdout: bool, stderr: bool },
    /// Done: the subprocess ran past its deadline. Fell the process group, reap
    /// the subprocess, leave the readers behind.
    Abandon,
}

/// The grace in nanoseconds.
pub open spec fn grace() -> int {
    READER_DRAIN_GRACE_MILLIS * 1_000_000
}

impl Order {
    /// Nothing follows this order.
    pub open spec fn is_last(self) -> bool {
        self is Collect || self is Abandon
    }

    /// How long the order has one sleep, in nanoseconds.
    pub open spec fn pause(self) -> int {
        match self {
            Order::Sleep { millis } => millis * 1_000_000,
            _ => 0,
        }
    }
}

/// The stage and the order that follow a look at moment `now`.
pub open spec fn after_look(stage: Stage, now: int, seen: Seen) -> (Stage, Order) {
    match stage {
        Stage::Running { deadline } => {
            if seen.exited {
                (Stage::Draining { until: None, felled: false }, Order::Drain)
            } else if now >= deadline {
                (stage, Order::Abandon)
            } else {
                (stage, Order::Sleep { millis: POLL_MILLIS })
            }
        },
        Stage::Draining { until, felled } => {
            let end = match until {
                Some(end) => end as int,
                None => now + grace(),
            };
            let waiting = Stage::Draining { until: Some(end as u128), felled };
            if seen.stdout_drained && seen.stderr_drained {
                (waiting, Order::Collect { stdout: true, stderr: true })
            } else if now < end {
                (waiting, Order::Sleep { millis: DRAIN_POLL_MILLIS })
            } else if !felled {
                (Stage::Draining { until: None, felled: true }, Order::FellGroup)
            } else {
                (
                    waiting,
                    Order::Collect { stdout: seen.stdout_drained, stderr: seen.stderr_drained },
                )
            }
        },
    }
}

impl Stage {
    /// Starts the supervision of a subprocess that was spawned at moment `now`
    /// and may run for `timeout`.
    pub fn start(now: Bound, timeout: Bound) -> (r: Stage)
        ensures
            r is Running,
            r->Running_deadline == now.total() + timeout.total(),
    {
        Stage::Running { deadline: now.as_nanos() + timeout.as_nanos() }
    }

    /// Decides what follows a look at moment `now`.
    pub fn look(self, now: Bound, seen: Seen) -> (r: (Stage, Order))
        ensures
            r == after_look(self, now.total() as int, seen),
    {
        let moment: u128 = now.as_nanos();
        match self {
            Stage::Running { deadline } => {
                if seen.exited {
                    (Stage::Draining { until: None, felled: false }, Order::Drain)
                } else if moment >= deadline {
                    (self, Order::Abandon)
                } else {
                    (self, Order::Sleep { millis: POLL_MILLIS })
                }
            },
            Stage::Draining { until, felled } => {
                let end: u128 = match until {
                    Some(end) => end,
                    None => moment + READER_DRAIN_GRACE_MILLIS as u128 * 1_000_000,
                };
                let waiting = Stage::Draining { until: Some(end), felled };
                if seen.stdout_drained && seen.stderr_drained {
                    (waiting, Order::Collect { stdout: true, stderr: true })
                } else if moment < end {
                    (waiting, Order::Sleep { millis: DRAIN_POLL_MILLIS })
                } else if !felled {
                    (Stage::Draining { until: None, felled: true }, Order::FellGroup)
                } else {
                    (
                        waiting,
                        Order::Collect {
                            stdout: seen.stdout_drained,
                            stderr: seen.stderr_drained,
                        },
                    )
                }
            },
        }
    }
}

// ---------------------------------------------------------------------------
// Whole supervisions
// ---------------------------------------------------------------------------

/// A look: the moment it was taken and what it showed.
pub struct Look {
    pub now: int,
    pub seen: Seen,
}

/// The stage after a row of looks.
pub open spec fn stage_after(start: Stage, looks: Seq<Look>) -> Stage
    decreases looks.len(),
{
    if looks.len() == 0 {
        start
    } else {
        after_look(stage_after(start, looks.drop_last()), looks.last().now, looks.last().seen).0
    }
}

/// The order that follows the look number `i`.
pub open spec fn order_at(start: Stage, looks: Seq<Look>, i: int) -> Order {
    after_look(stage_after(start, looks.take(i)), looks[i].now, looks[i].seen).1
}

/// Looks that obey: none follows a last order, none comes before the sleep that
/// was ordered is over, and all are at moments that a clock can show.
pub open spec fn obeys(start: Stage, looks: Seq<Look>) -> bool {
    &&& forall|i: int| 0 <= i < looks.len() ==> 0 <= (#[trigger] looks[i]).now < (u64::MAX + 1) * 1_000_000_000
    &&& forall|i: int|
        0 <= i < looks.len() - 1 ==> {
            &&& !(#[trigger] order_at(start, looks, i)).is_last()
            &&& looks[i + 1].now >= looks[i].now + order_at(start, looks, i).pause()
        }
}

/// How many steps of `step` nanoseconds it takes at most to get from `now` to
/// `end`.
pub open spec fn steps_left(end: int, now: int, step: int) -> int {
    if now >= end {
        0
    } else {
        (end - now + step - 1) / step
    }
}

/// How many looks follow at most, the one at `now` among them.
pub open spec fn looks_left(stage: Stage, now: int) -> int {
    match stage {
        Stage::Running { deadline } => steps_left(deadline as int, now, 25_000_000) + 204,
        Stage::Draining { until, felled } => {
            let steps = match until {
                Some(end) => steps_left(end as int, now, 5_000_000),
                None => 100,
            };
            if felled {
                steps + 1
            } else {
                steps + 102
            }
        },
    }
}

/// Between an order that is not the last and the next look, the number of looks
/// that can still follow shrinks.
proof fn lemma_looks_shrink(stage: Stage, now: int, seen: Seen, next: int)
    requires
        0 <= now < (u64::MAX + 1) * 1_000_000_000,
        !after_look(stage, now, seen).1.is_last(),
        next >= now + after_look(stage, now, seen).1.pause(),
    ensures
        looks_left(after_look(stage, now, seen).0, next) < looks_left(stage, now),
{
}

/// The supervision ends, whatever the subprocess and its descendants do: a row
/// of looks that obeys the orders is no longer than the number that the stage
/// and the moment of the first look allow. For a subprocess that has just been
/// started this is one look for each 25 ms of its timeout and 204 more.
pub proof fn law_supervision_ends(start: Stage, looks: Seq<Look>)
    requires
        obeys(start, looks),
        looks.len() > 0,
    ensures
        looks.len() <= looks_left(start, looks[0].now),
{
    lemma_supervision_ends(start, looks);
}

proof fn lemma_supervision_ends(start: Stage, looks: Seq<Look>)
    requires
        obeys(start, looks),
        looks.len() > 0,
    ensures
        looks_left(stage_after(start, looks.drop_last()), looks.last().now) + looks.len() - 1
            <= looks_left(start, looks[0].now),
        looks_left(stage_after(start, looks.drop_last()), looks.last().now) >= 1,
    decreases looks.len(),
{
    if looks.len() > 1 {
        let before = looks.drop_last();
        let i = looks.len() - 2;
        assert forall|j: int| 0 <= j < before.len() implies #[trigger] order_at(start, before, j)
            == order_at(start, looks, j) by {
            assert(before.take(j) == looks.take(j));
        }
        lemma_supervision_ends(start, before);
        assert(order_at(start, looks, i) == order_at(start, before, i));
        assert(looks.take(i) == before.drop_last());
        assert(before.last() == looks[i]);
        let stage = stage_after(start, before.drop_last());
        lemma_looks_shrink(stage, looks[i].now, looks[i].seen, looks.last().now);
    } else {
        assert(looks.drop_last() == Seq::<Look>::empty());
        assert(looks[0] == looks.last());
    }
}

/// A subprocess is abandoned exactly at the first look at or past its deadline
/// that still finds it running: never before, and never once it has exited.
pub proof fn law_abandoned_exactly_at_the_deadline(stage: Stage, now: int, seen: Seen)
    ensures
        after_look(stage, now, seen).1 == Order::Abandon <==> (stage matches Stage::Running {
            deadline,
        } && now >= deadline && !seen.exited),
{
}

/// A subprocess that has exited is never waited for: whatever the time, the
/// readers are looked at next, with all their grace before them.
pub proof fn law_exit_leads_to_the_readers(deadline: u128, now: int, seen: Seen)
    requires
        seen.exited,
    ensures
        after_look(Stage::Running { deadline }, now, seen) == (
            Stage::Draining { until: None, felled: false },
            Order::Drain,
        ),
{
}

/// A subprocess that still runs before its deadline is looked at again after 25
/// milliseconds, and its deadline stays.
pub proof fn law_running_subprocess_is_polled(deadline: u128, now: int, seen: Seen)
    requires
        !seen.exited,
        now < deadline,
    ensures
        after_look(Stage::Running { deadline }, now, seen) == (
            Stage::Running { deadline },
            Order::Sleep { millis: 25 },
        ),
{
}

/// Output is taken of exactly those readers that are done, whenever it is taken;
/// and it is taken at every look that finds both done, be it the first or a later
/// one, before or after the group was felled.
pub proof fn law_drained_output_is_taken_at_once(stage: Stage, now: int, seen: Seen)
    ensures
        after_look(stage, now, seen).1 matches Order::Collect { stdout, stderr } ==> stage
            is Draining && stdout == seen.stdout_drained && stderr == seen.stderr_drained,
        stage is Draining && seen.stdout_drained && seen.stderr_drained ==> after_look(
            stage,
            now,
            seen,
        ).1 is Collect,
{
}

/// Readers that are not done have half a second from the first look at them. Until
/// it is over they are looked at again after 5 milliseconds each time; then the
/// group is felled, and they have half a second once more; then what is there is
/// taken.
pub proof fn law_readers_have_their_grace_twice(
    until: Option<u128>,
    felled: bool,
    now: int,
    seen: Seen,
)
    requires
        !(seen.stdout_drained && seen.stderr_drained),
        0 <= now < (u64::MAX + 1) * 1_000_000_000,
    ensures
        ({
            let (next, order) = after_look(Stage::Draining { until, felled }, now, seen);
            &&& until is None ==> order == (Order::Sleep { millis: 5 }) && (next
                matches Stage::Draining { until: Some(end), felled: f } && end == now
                + 500_000_000 && f == felled)
            &&& (until is Some && now < until->0) ==> order == (Order::Sleep { millis: 5 })
                && next == (Stage::Draining { until, felled })
            &&& (until is Some && now >= until->0 && !felled) ==> order == Order::FellGroup
                && next == (Stage::Draining { until: None, felled: true })
            &&& (until is Some && now >= until->0 && felled) ==> order is Collect
        }),
{
}

/// What is ordered never depends on what a reader has done while the subprocess
/// still runs, nor on the subprocess once it has exited.
pub proof fn law_each_stage_looks_at_its_own(stage: Stage, now: int, seen: Seen, other: Seen)
    requires
        stage is Running ==> seen.exited == other.exited,
        stage is Draining ==> seen.stdout_drained == other.stdout_drained && seen.stderr_drained
            == other.stderr_drained,
    ensures
        after_look(stage, now, seen) == after_look(stage, now, other),
{
}

/// The process group is felled at most once to close the pipes.
pub proof fn law_group_is_felled_at_most_once(start: Stage, looks: Seq<Look>, i: int, j: int)
    requires
        0 <= i < j < looks.len(),
        order_at(start, looks, i) is FellGroup,
    ensures
        !(order_at(start, looks, j) is FellGroup),
{
    assert(looks.take(i + 1).drop_last() == looks.take(i));
    assert(looks.take(i + 1).last() == looks[i]);
    lemma_felled_stays(start, looks, i + 1, j);
}

proof fn lemma_felled_stays(start: Stage, looks: Seq<Look>, i: int, j: int)
    requires
        0 <= i <= j <= looks.len(),
        stage_after(start, looks.take(i)) matches Stage::Draining { felled, .. } && felled,
    ensures
        stage_after(start, looks.take(j)) matches Stage::Draining { felled, .. } && felled,
    decreases j - i,
{
    if i < j {
        lemma_felled_stays(start, looks, i, j - 1);
        assert(looks.take(j).drop_last() == looks.take(j - 1));
    }
}

} // verus!
