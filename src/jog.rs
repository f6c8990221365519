//! Turns the relative motion of the jog wheel into navigation commands.
use vstd::prelude::*;
use crate::command::Command;

verus! {

/// The threshold while note input is active: fine navigation.
pub const FINE_THRESHOLD: i32 = 200;

/// The threshold while note input is inactive: coarse navigation.
pub const COARSE_THRESHOLD: i32 = 600;

/// The magnitude at which accumulated motion fires a command.
pub open spec fn threshold(note_input_active: bool) -> int {
    if note_input_active {
        FINE_THRESHOLD as int
    } else {
        COARSE_THRESHOLD as int
    }
}

/// The command for motion to the right under the given context.
pub open spec fn right_command(note_input_active: bool) -> Command {
    if note_input_active {
        Command::MoveRight
    } else {
        Command::NavigateRight
    }
}

/// The command for motion to the left under the given context.
pub open spec fn left_command(note_input_active: bool) -> Command {
    if note_input_active {
        Command::MoveLeft
    } else {
        Command::NavigateLeft
    }
}

/// One step of integration: the new accumulator and the command fired, if any.
/// At most one command fires; any excess beyond the threshold is dropped.
pub open spec fn jog_step(acc: int, delta: int, note_input_active: bool) -> (int, Option<Command>) {
    let sum = acc + delta;
    let t = threshold(note_input_active);
    if sum >= t {
        (0, Some(right_command(note_input_active)))
    } else if sum <= -t {
        (0, Some(left_command(note_input_active)))
    } else {
        (sum, None)
    }
}

/// The accumulator of jog motion.
pub struct JogIntegrator {
    acc: i32,
}

impl JogIntegrator {
    pub closed spec fn spec_value(&self) -> int {
        self.acc as int
    }

    /// The accumulator never holds a magnitude at or beyond the coarse threshold.
    pub closed spec fn wf(&self) -> bool {
        -COARSE_THRESHOLD < self.acc < COARSE_THRESHOLD
    }

    pub fn new() -> (r: JogIntegrator)
        ensures
            r.wf(),
            r.spec_value() == 0,
    {
        JogIntegrator { acc: 0 }
    }

    pub fn value(&self) -> (r: i32)
        ensures
            r as int == self.spec_value(),
    {
        self.acc
    }

    /// Adds `delta` and fires a command when the threshold of the context is reached.
    pub fn feed(&mut self, delta: i32, note_input_active: bool) -> (r: Option<Command>)
        requires
            old(self).wf(),
        ensures
            final(self).wf(),
            (final(self).spec_value(), r) == jog_step(
                old(self).spec_value(),
                delta as int,
                note_input_active,
            ),
    {
        let sum: i64 = self.acc as i64 + delta as i64;
        let t: i64 = if note_input_active {
            FINE_THRESHOLD as i64
        } else {
            COARSE_THRESHOLD as i64
        };
        if sum >= t {
            self.acc = 0;
            if note_input_active {
                Some(Command::MoveRight)
            } else {
                Some(Command::NavigateRight)
            }
        } else if sum <= -t {
            self.acc = 0;
            if note_input_active {
                Some(Command::MoveLeft)
            } else {
                Some(Command::NavigateLeft)
            }
        } else {
            self.acc = sum as i32;
            None
        }
    }
}

/// The sum of a sequence of deltas.
pub open spec fn seq_sum(ds: Seq<int>) -> int
    decreases ds.len(),
{
    if ds.len() == 0 {
        0
    } else {
        seq_sum(ds.drop_last()) + ds.last()
    }
}

/// Feeds `ds` in order, starting from accumulator `acc` under a fixed context:
/// the final accumulator and the commands fired, in order.
pub open spec fn run_jog(acc: int, ds: Seq<int>, note_input_active: bool) -> (int, Seq<Command>)
    decreases ds.len(),
{
    if ds.len() == 0 {
        (acc, Seq::empty())
    } else {
        let prev = run_jog(acc, ds.drop_last(), note_input_active);
        let step = jog_step(prev.0, ds.last(), note_input_active);
        match step.1 {
            Some(c) => (step.0, prev.1.push(c)),
            None => (step.0, prev.1),
        }
    }
}

proof fn lemma_quiet_prefix(ds: Seq<int>, note_input_active: bool, k: int)
    requires
        0 <= k <= ds.len(),
        forall|j: int|
            0 < j <= k ==> -threshold(note_input_active) < #[trigger] seq_sum(ds.take(j))
                < threshold(note_input_active),
    ensures
        run_jog(0, ds.take(k), note_input_active) == (seq_sum(ds.take(k)), Seq::<Command>::empty()),
    decreases k,
{
    if k > 0 {
        assert(ds.take(k).drop_last() =~= ds.take(k - 1));
        lemma_quiet_prefix(ds, note_input_active, k - 1);
    } else {
        assert(ds.take(0) =~= Seq::<int>::empty());
    }
}

/// Deltas whose running sum first reaches the threshold at the last delta,
/// having stayed strictly inside both thresholds before, fire exactly one
/// rightward command, at that last delta, and leave the accumulator at zero.
pub proof fn lemma_single_crossing(ds: Seq<int>, note_input_active: bool)
    requires
        ds.len() > 0,
        forall|j: int|
            0 < j < ds.len() ==> -threshold(note_input_active) < #[trigger] seq_sum(ds.take(j))
                < threshold(note_input_active),
        seq_sum(ds) >= threshold(note_input_active),
    ensures
        run_jog(0, ds, note_input_active) == (0int, seq![right_command(note_input_active)]),
        forall|j: int|
            0 <= j < ds.len() ==> (#[trigger] run_jog(0, ds.take(j), note_input_active)).1.len()
                == 0,
{
    let n = ds.len() as int;
    lemma_quiet_prefix(ds, note_input_active, n - 1);
    assert(ds.drop_last() =~= ds.take(n - 1));
    assert(Seq::<Command>::empty().push(right_command(note_input_active)) =~= seq![
        right_command(note_input_active),
    ]);
    assert forall|j: int| 0 <= j < ds.len() implies (#[trigger] run_jog(
        0,
        ds.take(j),
        note_input_active,
    )).1.len() == 0 by {
        assert forall|i: int| 0 < i <= j implies -threshold(note_input_active) < #[trigger] seq_sum(
            ds.take(i),
        ) < threshold(note_input_active) by {}
        lemma_quiet_prefix(ds, note_input_active, j);
    }
}

/// Whether a step fires, and in which direction, depends on the context of
/// that step alone, through its threshold; a step that does not fire keeps
/// the whole sum.
pub proof fn lemma_threshold_by_context(acc: int, delta: int, note_input_active: bool)
    ensures
        threshold(note_input_active) == (if note_input_active {
            200int
        } else {
            600int
        }),
        jog_step(acc, delta, note_input_active).1 == Some(right_command(note_input_active))
            <==> acc + delta >= threshold(note_input_active),
        jog_step(acc, delta, note_input_active).1 == Some(left_command(note_input_active))
            <==> acc + delta <= -threshold(note_input_active),
        jog_step(acc, delta, note_input_active).1 is None ==> jog_step(
            acc,
            delta,
            note_input_active,
        ).0 == acc + delta,
        jog_step(acc, delta, note_input_active).1 is Some ==> jog_step(
            acc,
            delta,
            note_input_active,
        ).0 == 0,
{
}

} // verus!
