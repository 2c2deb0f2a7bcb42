//! What the pump's journal guarantees about the bridge.
//!
//! The pump decides on one write at a time, and the hardware follows the
//! signals one by one. The statements here are therefore about every
//! moment on the way through a change of direction, not only about the
//! state it ends in, and they hold wherever on the way a line refuses.

use crate::pin::PinView;
use crate::pump::{
    committed, descent, fault_of, first_refused, levels, levels_of, lowering, marked, pair, plan,
    raising, recovery, redirect_failure, redirected, replay, resolved, restoring, safe, Direction,
    Pump, PumpView, Refusal, Signal, SETTLE_MICROS,
};
use vstd::prelude::*;

verus! {

/// The signals that the lines go through when a pump is asked for `target`
/// and signal `at` of the plan is refused: the signals before it, then the
/// ones that mend the bridge. With `at` the length of the plan, nothing is
/// refused and the lines go through the whole of it.
pub open spec fn course(pump: PumpView, target: Option<Direction>, at: int) -> Seq<Signal> {
    let signals = plan(pump.direction is Some, target);
    if at < signals.len() {
        signals.take(at) + recovery(pump, target, at)
    } else {
        signals
    }
}

/// The refusal at `at`, if `at` is a place in the plan.
pub open spec fn refusal_at(pump: PumpView, target: Option<Direction>, at: int) -> Option<int> {
    if at < plan(pump.direction is Some, target).len() {
        Some(at)
    } else {
        None
    }
}

/// Whether `signal` drives a line high.
pub open spec fn raises(signal: Signal) -> bool {
    match signal {
        Signal::Write { level, .. } => level,
        Signal::Settle { .. } => false,
    }
}

/// Whether `signal` drives high a line that is low as `levels` has them.
pub open spec fn raises_anew(signal: Signal, levels: Seq<bool>) -> bool {
    match signal {
        Signal::Write { slot, level } => level && !(slot < 4 && levels[slot as int]),
        Signal::Settle { .. } => false,
    }
}

/// Starting from `start`, the lines are safe after every signal of `signals`.
pub open spec fn always_safe(start: Seq<bool>, signals: Seq<Signal>) -> bool {
    forall|k: int| 0 <= k <= signals.len() ==> safe(#[trigger] replay(start, signals.take(k)))
}

/// Every line that is high in `lines` is high in `allowed`.
spec fn below(lines: Seq<bool>, allowed: Seq<bool>) -> bool {
    &&& lines.len() == 4
    &&& allowed.len() == 4
    &&& forall|i: int| 0 <= i < 4 ==> (#[trigger] lines[i] ==> allowed[i])
}

/// No signal of `signals` raises a line that is low in `allowed`.
spec fn within(signals: Seq<Signal>, allowed: Seq<bool>) -> bool {
    forall|j: int|
        0 <= j < signals.len() ==> match #[trigger] signals[j] {
            Signal::Write { slot, level } => slot < 4 && (level ==> allowed[slot as int]),
            Signal::Settle { .. } => true,
        }
}

/// Replaying two runs one after the other is replaying the second from where
/// the first ended.
proof fn lemma_replay_concat(start: Seq<bool>, first: Seq<Signal>, second: Seq<Signal>)
    ensures
        replay(start, first + second) == replay(replay(start, first), second),
    decreases second.len(),
{
    if second.len() == 0 {
        assert(first + second =~= first);
    } else {
        let head = second.drop_last();
        lemma_replay_concat(start, first, head);
        assert((first + second).drop_last() =~= first + head);
        assert((first + second).last() == second.last());
    }
}

/// If a first run is safe throughout, and a second is safe throughout from
/// where the first ended, so is the first followed by the second.
proof fn lemma_safe_concat(start: Seq<bool>, first: Seq<Signal>, second: Seq<Signal>)
    requires
        always_safe(start, first),
        always_safe(replay(start, first), second),
    ensures
        always_safe(start, first + second),
{
    let whole = first + second;
    assert forall|k: int| 0 <= k <= whole.len() implies safe(
        #[trigger] replay(start, whole.take(k)),
    ) by {
        if k <= first.len() {
            assert(whole.take(k) =~= first.take(k));
        } else {
            let rest = second.take(k - first.len());
            assert(whole.take(k) =~= first + rest);
            lemma_replay_concat(start, first, rest);
        }
    }
}

/// Lines that only ever rise where a safe setting has them high are safe
/// throughout.
proof fn lemma_stays_below(lines: Seq<bool>, allowed: Seq<bool>, signals: Seq<Signal>)
    requires
        below(lines, allowed),
        within(signals, allowed),
        safe(allowed),
    ensures
        always_safe(lines, signals),
        below(replay(lines, signals), allowed),
    decreases signals.len(),
{
    if signals.len() == 0 {
        assert forall|k: int| 0 <= k <= signals.len() implies safe(
            #[trigger] replay(lines, signals.take(k)),
        ) by {
            assert(signals.take(k) =~= signals);
        }
    } else {
        let head = signals.drop_last();
        assert(within(head, allowed)) by {
            assert forall|j: int| 0 <= j < head.len() implies match #[trigger] head[j] {
                Signal::Write { slot, level } => slot < 4 && (level ==> allowed[slot as int]),
                Signal::Settle { .. } => true,
            } by {
                assert(head[j] == signals[j]);
            }
        }
        lemma_stays_below(lines, allowed, head);
        let last = signals[signals.len() - 1];
        assert(below(replay(lines, signals), allowed));
        assert forall|k: int| 0 <= k <= signals.len() implies safe(
            #[trigger] replay(lines, signals.take(k)),
        ) by {
            if k < signals.len() {
                assert(signals.take(k) =~= head.take(k));
            } else {
                assert(signals.take(k) =~= signals);
            }
        }
    }
}

/// Switching off the first `count` lines turns exactly those low.
proof fn lemma_lowering(start: Seq<bool>, count: int)
    requires
        start.len() == 4,
        0 <= count <= 4,
    ensures
        replay(start, lowering(count)) =~= Seq::new(
            4,
            |i: int|
                if i < count {
                    false
                } else {
                    start[i]
                },
        ),
        within(lowering(count), start),
    decreases count,
{
    if count == 0 {
        assert(lowering(0) =~= Seq::<Signal>::empty());
    } else {
        lemma_lowering(start, count - 1);
        assert(lowering(count).drop_last() =~= lowering(count - 1));
    }
}

/// Raising again what was high among the first `upto` lines turns exactly
/// those high, and raises nothing else.
proof fn lemma_restoring(lines: Seq<bool>, start: Seq<bool>, upto: int)
    requires
        lines.len() == 4,
        start.len() == 4,
        0 <= upto <= 4,
    ensures
        replay(lines, restoring(start, upto)) =~= Seq::new(
            4,
            |i: int|
                if i < upto && start[i] {
                    true
                } else {
                    lines[i]
                },
        ),
        within(restoring(start, upto), start),
        forall|j: int|
            0 <= j < restoring(start, upto).len() ==> !raises_anew(
                #[trigger] restoring(start, upto)[j],
                start,
            ) && !(restoring(start, upto)[j] is Settle),
    decreases upto,
{
    if upto > 0 {
        lemma_restoring(lines, start, upto - 1);
        let shorter = restoring(start, upto - 1);
        if start[upto - 1] {
            let last = Signal::Write { slot: (upto - 1) as u8, level: true };
            assert(restoring(start, upto) == shorter.push(last));
            assert(shorter.push(last).drop_last() =~= shorter);
        }
    }
}

/// The two signals that switch a pair on, and the two that switch its first
/// line on and off again, lead from a standstill to the pair and back to a
/// standstill, and are safe on the way.
proof fn lemma_rise(zero: Seq<bool>, direction: Direction)
    requires
        zero =~= levels_of(None),
    ensures
        always_safe(zero, raising(direction)),
        replay(zero, raising(direction)) =~= levels_of(Some(direction)),
        always_safe(
            zero,
            raising(direction).take(1).push(
                Signal::Write { slot: pair(direction).0 as u8, level: false },
            ),
        ),
        replay(
            zero,
            raising(direction).take(1).push(
                Signal::Write { slot: pair(direction).0 as u8, level: false },
            ),
        ) =~= zero,
        always_safe(zero, Seq::<Signal>::empty()),
{
    let allowed = levels_of(Some(direction));
    let up = raising(direction);
    let back = up.take(1).push(Signal::Write { slot: pair(direction).0 as u8, level: false });
    let first = seq![up[0]];
    assert(below(zero, allowed));
    assert(safe(allowed));
    assert(within(up, allowed));
    assert(within(back, allowed));
    assert(within(Seq::<Signal>::empty(), allowed));
    lemma_stays_below(zero, allowed, up);
    lemma_stays_below(zero, allowed, back);
    lemma_stays_below(zero, allowed, Seq::<Signal>::empty());
    reveal_with_fuel(replay, 3);
    assert(up.drop_last() =~= first);
    assert(back.drop_last() =~= first);
    assert(first.drop_last() =~= Seq::<Signal>::empty());
}

/// Between calls the bridge is never shorted.
///
/// Every pump is settled when it is built and stays so through every call,
/// whatever the sequence of calls and whichever of them fail. A settled
/// pump has no line of the forward pair high together with a line of the
/// backward pair.
pub proof fn law_pairs_never_both_high(pump: PumpView)
    requires
        Pump::settled(pump),
    ensures
        safe(levels(pump.pins)),
        levels(pump.pins) =~= levels_of(pump.direction),
{
    assert(pump.pins[0].level == levels_of(pump.direction)[0]);
    assert(pump.pins[1].level == levels_of(pump.direction)[1]);
    assert(pump.pins[2].level == levels_of(pump.direction)[2]);
    assert(pump.pins[3].level == levels_of(pump.direction)[3]);
}

/// The bridge is never shorted, not even on the way.
///
/// Let a settled pump be asked for `target`, and let signal `at` of the plan
/// be refused, or none if `at` is the length of the plan. Then after each
/// signal that the lines go through, those of the plan and those that mend
/// the bridge, no line of the forward pair is high together with a line of
/// the backward pair. At the end the lines are at the levels of the
/// direction that the pump is left in.
pub proof fn law_never_shorted(pump: PumpView, target: Option<Direction>, at: int)
    requires
        Pump::settled(pump),
        0 <= at <= plan(pump.direction is Some, target).len(),
    ensures
        always_safe(levels(pump.pins), course(pump, target, at)),
        replay(levels(pump.pins), course(pump, target, at)) =~= levels_of(
            resolved(pump, target, refusal_at(pump, target, at)),
        ),
{
    law_pairs_never_both_high(pump);
    let start = levels(pump.pins);
    let running = pump.direction is Some;
    let signals = plan(running, target);
    let trace = course(pump, target, at);
    let zero = levels_of(None);
    lemma_lowering(start, 4);
    if at < descent(running, target) {
        let down = lowering(at);
        let up = restoring(start, at);
        assert(signals.take(at) =~= down);
        lemma_lowering(start, at);
        lemma_restoring(replay(start, down), start, at);
        lemma_replay_concat(start, down, up);
        assert(within(down + up, start));
        lemma_stays_below(start, start, down + up);
    } else {
        match target {
            None => {
                lemma_stays_below(start, start, lowering(4));
            },
            Some(direction) => {
                lemma_rise(zero, direction);
                let top = Signal::Write { slot: pair(direction).0 as u8, level: false };
                let back = raising(direction).take(1).push(top);
                if running {
                    let down = lowering(4);
                    let rest = Signal::Settle { micros: SETTLE_MICROS };
                    let first = down.push(rest);
                    assert(first.drop_last() =~= down);
                    assert(replay(start, first) =~= zero);
                    assert(within(first, start));
                    lemma_stays_below(start, start, first);
                    if at == 4 {
                        assert(trace =~= down);
                        lemma_stays_below(start, start, down);
                    } else if at == 5 {
                        assert(trace =~= first);
                    } else if at == 6 {
                        assert(trace =~= first + back);
                        lemma_replay_concat(start, first, back);
                        lemma_safe_concat(start, first, back);
                    } else {
                        assert(trace =~= first + raising(direction));
                        lemma_replay_concat(start, first, raising(direction));
                        lemma_safe_concat(start, first, raising(direction));
                    }
                } else {
                    assert(start =~= zero);
                    if at == 0 {
                        assert(trace =~= Seq::<Signal>::empty());
                    } else if at == 1 {
                        assert(trace =~= back);
                    } else {
                        assert(trace =~= raising(direction));
                    }
                }
            },
        }
    }
}

/// What a call leaves in the journal is the course of the lines.
///
/// [`Pump::set_direction`] adds to the journal the course up to the first
/// signal that writes to a line with a failure on record, and leaves the
/// pump in the direction that goes with it. [`Pump::committed`] adds only
/// the signals that mend the bridge, the others having been carried out
/// before the call.
pub proof fn law_journal_is_the_course(
    pump: PumpView,
    target: Option<Direction>,
    refusal: Refusal,
)
    requires
        Pump::settled(pump),
    ensures
        ({
            let at = first_refused(pump.pins, plan(pump.direction is Some, target), 0);
            &&& 0 <= at <= plan(pump.direction is Some, target).len()
            &&& redirected(pump, target).journal == pump.journal + course(pump, target, at)
            &&& redirected(pump, target).direction == resolved(
                pump,
                target,
                refusal_at(pump, target, at),
            )
            &&& redirect_failure(pump, target) is None <==> at == plan(
                pump.direction is Some,
                target,
            ).len()
        }),
        refusal.at < plan(pump.direction is Some, target).len() ==> {
            &&& committed(pump, target, Some(refusal)).journal == pump.journal + recovery(
                pump,
                target,
                refusal.at as int,
            )
            &&& committed(pump, target, Some(refusal)).direction == resolved(
                pump,
                target,
                Some(refusal.at as int),
            )
        },
        committed(pump, target, None).journal == pump.journal,
        committed(pump, target, None).direction == target,
{
    let signals = plan(pump.direction is Some, target);
    lemma_first_refused(pump.pins, signals, 0);
    let at = first_refused(pump.pins, signals, 0);
    if at < signals.len() {
        assert(redirected(pump, target).journal =~= pump.journal + course(pump, target, at));
    } else {
        assert(signals.take(at) =~= signals);
        assert(redirected(pump, target).journal =~= pump.journal + course(pump, target, at));
    }
    assert(committed(pump, target, None).journal =~= pump.journal);
    if refusal.at < signals.len() {
        let noted = marked(pump, signals[refusal.at as int], refusal.code);
        assert(levels(noted.pins) =~= levels(pump.pins));
    }
}

/// The first refused signal lies in the plan or at its end, and no signal
/// before it is refused.
proof fn lemma_first_refused(pins: Seq<PinView>, signals: Seq<Signal>, from: int)
    requires
        0 <= from <= signals.len(),
    ensures
        from <= first_refused(pins, signals, from) <= signals.len(),
    decreases signals.len() - from,
{
    if from < signals.len() && !(fault_of(pins, signals[from]) is Some) {
        lemma_first_refused(pins, signals, from + 1);
    }
}

/// The bridge rests before it changes direction.
///
/// When a running pump is asked to run, in either direction, no line that
/// was low is raised before all four were switched off and the bridge then
/// rested for [`SETTLE_MICROS`], which is at least 20 ms. This holds of the
/// signals that mend the bridge too: they raise only lines that were high.
/// A pump that is already stopped, and a pump that is asked to stop, never
/// rest.
pub proof fn law_rest_before_reversal(pump: PumpView, target: Option<Direction>, at: int)
    requires
        Pump::settled(pump),
        0 <= at <= plan(pump.direction is Some, target).len(),
    ensures
        SETTLE_MICROS >= 20_000,
        pump.direction is Some && target is Some ==> forall|j: int|
            0 <= j < course(pump, target, at).len() && raises_anew(
                #[trigger] course(pump, target, at)[j],
                levels(pump.pins),
            ) ==> {
                &&& j > 4
                &&& course(pump, target, at).take(5) == lowering(4).push(
                    Signal::Settle { micros: SETTLE_MICROS },
                )
            },
        pump.direction is None || target is None ==> forall|j: int|
            0 <= j < course(pump, target, at).len() ==> !(#[trigger] course(pump, target, at)[j]
                is Settle),
{
    let start = levels(pump.pins);
    let running = pump.direction is Some;
    let signals = plan(running, target);
    let trace = course(pump, target, at);
    if at < descent(running, target) {
        lemma_restoring(start, start, at);
        assert(signals.take(at) =~= lowering(at));
        assert(trace =~= lowering(at) + restoring(start, at));
    } else if running && target is Some {
        let first = lowering(4).push(Signal::Settle { micros: SETTLE_MICROS });
        if at == 4 {
            assert(trace =~= lowering(4));
        } else {
            assert(trace.take(5) =~= first);
        }
    } else {
        match target {
            None => {
                assert(trace =~= lowering(4));
            },
            Some(direction) => {},
        }
    }
}

/// A call that reports no failure has reached what it was asked for, and a
/// call that reports one has recorded no new direction.
///
/// On success the pump records `target`. On failure the recorded direction
/// is the one from before, or the pump is stopped. Either way the pump is
/// settled: exactly the pair of the recorded direction is high.
pub proof fn law_direction_follows_writes(
    pump: PumpView,
    target: Option<Direction>,
    refusal: Option<Refusal>,
)
    requires
        Pump::settled(pump),
    ensures
        Pump::settled(redirected(pump, target)),
        Pump::settled(committed(pump, target, refusal)),
        redirect_failure(pump, target) is None ==> redirected(pump, target).direction == target,
        redirect_failure(pump, target) is Some ==> {
            ||| redirected(pump, target).direction == pump.direction
            ||| redirected(pump, target).direction is None
        },
        ({
            ||| committed(pump, target, refusal).direction == target
            ||| committed(pump, target, refusal).direction == pump.direction
            ||| committed(pump, target, refusal).direction is None
        }),
{
}

} // verus!
