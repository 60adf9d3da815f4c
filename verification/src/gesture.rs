//! The touch-gesture classifier: tells taps from scrolls, one contact at
//! a time.
//!
//! Each active touch identifier carries a [`TouchState`].  A contact
//! starts as a potential tap; once a move sample arrives at or past the
//! tap threshold it escalates into a drag and can never become a tap
//! again.  Scroll deltas are forwarded sample by sample against the last
//! recorded position whenever the input target accepted the contact for
//! scrolling; a tap fires exactly one press at touch-up; a cancelled
//! contact disappears without any event.

use vstd::prelude::*;
use crate::geom::{spec_delta, Delta, Pos};
use crate::transition::spec_elapsed_ms;

verus! {

/// A contact escalates from a potential tap into a drag once this many
/// milliseconds have passed since touch-down.
pub const TAP_THRESHOLD_MS: u64 = 50;

/// The lifecycle phases of one touch contact, as the platform layer
/// reports them.
#[derive(Clone, Copy, Debug, PartialEq, Eq, Structural)]
pub enum TouchPhase {
    Started,
    Moved,
    Ended,
    Cancelled,
}

/// The classifier state of one active contact.
///
/// `PressStart` is a potential tap: the last recorded position, the
/// unchanging touch-down timestamp, and whether the input target accepted
/// the contact for scrolling.  `Moving` is a drag: the last recorded
/// position and sample time, with the same scroll acceptance.
#[derive(Clone, Copy, Debug, PartialEq, Eq, Structural)]
pub enum TouchState {
    PressStart { pos: Pos, start: u64, forward_moves: bool },
    Moving { pos: Pos, last: u64, forward_moves: bool },
}

/// The semantic gesture one raw touch sample produces for the input
/// target: nothing, a scroll delta, or a press.
#[derive(Clone, Copy, Debug, PartialEq, Eq, Structural)]
pub enum GestureEvent {
    Nothing,
    Scroll(Delta),
    Press(Pos),
}

/// Touch-down: record a fresh potential tap.  `forward_moves` is the
/// input target's answer to whether this contact may drive scrolling.
pub open spec fn spec_touch_down(
    touches: Map<u64, TouchState>,
    id: u64,
    pos: Pos,
    now: u64,
    forward_moves: bool,
) -> Map<u64, TouchState> {
    touches.insert(id, TouchState::PressStart { pos, start: now, forward_moves })
}

/// Touch-move: a sample with no matching contact is silently ignored.  A
/// potential tap forwards the delta against its last recorded position
/// (when accepted for scrolling) and escalates into a drag once the tap
/// threshold has passed, keeping the original down timestamp until then.
/// A drag forwards the delta the same way and stays a drag.
pub open spec fn spec_touch_move(touches: Map<u64, TouchState>, id: u64, pos: Pos, now: u64) -> (
    Map<u64, TouchState>,
    GestureEvent,
) {
    if !touches.contains_key(id) {
        (touches, GestureEvent::Nothing)
    } else {
        match touches[id] {
            TouchState::PressStart { pos: prev, start, forward_moves } => {
                let ev = if forward_moves {
                    GestureEvent::Scroll(spec_delta(prev, pos))
                } else {
                    GestureEvent::Nothing
                };
                let st = if spec_elapsed_ms(start, now) >= TAP_THRESHOLD_MS {
                    TouchState::Moving { pos, last: now, forward_moves }
                } else {
                    TouchState::PressStart { pos, start, forward_moves }
                };
                (touches.insert(id, st), ev)
            },
            TouchState::Moving { pos: prev, last: _, forward_moves } => {
                let ev = if forward_moves {
                    GestureEvent::Scroll(spec_delta(prev, pos))
                } else {
                    GestureEvent::Nothing
                };
                (touches.insert(id, TouchState::Moving { pos, last: now, forward_moves }), ev)
            },
        }
    }
}

/// Touch-up: the contact leaves the map in every case.  A contact still
/// in the potential-tap state counts as a tap and fires one press at the
/// position the up sample carries; a contact that escalated into a drag
/// is never also treated as a tap.
pub open spec fn spec_touch_up(touches: Map<u64, TouchState>, id: u64, pos: Pos) -> (
    Map<u64, TouchState>,
    GestureEvent,
) {
    if !touches.contains_key(id) {
        (touches, GestureEvent::Nothing)
    } else {
        let ev = match touches[id] {
            TouchState::PressStart { .. } => GestureEvent::Press(pos),
            TouchState::Moving { .. } => GestureEvent::Nothing,
        };
        (touches.remove(id), ev)
    }
}

/// Touch-cancel: the contact leaves the map with no event at all.
pub open spec fn spec_touch_cancel(touches: Map<u64, TouchState>, id: u64) -> Map<
    u64,
    TouchState,
> {
    touches.remove(id)
}

/// A run of move samples for one contact, in order: the map they leave
/// behind and the gesture each one produced.
pub open spec fn spec_run_moves(
    touches: Map<u64, TouchState>,
    id: u64,
    samples: Seq<(Pos, u64)>,
) -> (Map<u64, TouchState>, Seq<GestureEvent>)
    decreases samples.len(),
{
    if samples.len() == 0 {
        (touches, Seq::empty())
    } else {
        let stepped = spec_touch_move(touches, id, samples[0].0, samples[0].1);
        let rest = spec_run_moves(stepped.0, id, samples.skip(1));
        (rest.0, seq![stepped.1] + rest.1)
    }
}

/// The position a sample's scroll delta is measured from: the previous
/// sample, or for the first sample the position recorded at touch-down.
pub open spec fn spec_move_origin(p0: Pos, samples: Seq<(Pos, u64)>, k: int) -> Pos {
    if k == 0 {
        p0
    } else {
        samples[k - 1].0
    }
}

/// How many of the produced gestures are scroll events.
pub open spec fn count_scroll_events(events: Seq<GestureEvent>) -> nat
    decreases events.len(),
{
    if events.len() == 0 {
        0
    } else {
        (if events[0] is Scroll {
            1nat
        } else {
            0nat
        }) + count_scroll_events(events.skip(1))
    }
}

/// A tap: for a contact whose move samples all arrive within the tap
/// threshold of its touch-down, the contact stays a potential tap with
/// its down timestamp untouched, each sample forwards a scroll delta
/// from the previous position exactly when the target accepted the
/// contact (and no scroll at all when it refused), and touch-up then
/// fires exactly one press, at the position the up sample carries, and
/// removes the contact.
pub proof fn lemma_tap_sequence_yields_one_press(
    touches: Map<u64, TouchState>,
    id: u64,
    p0: Pos,
    start: u64,
    fwd: bool,
    samples: Seq<(Pos, u64)>,
    up_pos: Pos,
)
    requires
        touches.contains_key(id),
        touches[id] == (TouchState::PressStart { pos: p0, start, forward_moves: fwd }),
        forall|k: int|
            0 <= k < samples.len() ==> spec_elapsed_ms(start, (#[trigger] samples[k]).1)
                < TAP_THRESHOLD_MS,
    ensures
        ({
            let run = spec_run_moves(touches, id, samples);
            let up = spec_touch_up(run.0, id, up_pos);
            &&& run.0 == touches.insert(
                id,
                TouchState::PressStart {
                    pos: spec_move_origin(p0, samples, samples.len() as int),
                    start,
                    forward_moves: fwd,
                },
            )
            &&& run.1.len() == samples.len()
            &&& forall|k: int|
                0 <= k < samples.len() ==> run.1[k] == (if fwd {
                    GestureEvent::Scroll(
                        spec_delta(spec_move_origin(p0, samples, k), samples[k].0),
                    )
                } else {
                    GestureEvent::Nothing
                })
            &&& count_scroll_events(run.1) == (if fwd {
                samples.len()
            } else {
                0nat
            })
            &&& up.1 == GestureEvent::Press(up_pos)
            &&& up.0 == run.0.remove(id)
        }),
    decreases samples.len(),
{
    let run = spec_run_moves(touches, id, samples);
    if samples.len() == 0 {
        assert(touches.insert(
            id,
            TouchState::PressStart { pos: p0, start, forward_moves: fwd },
        ) =~= touches);
        assert(count_scroll_events(run.1) == 0);
    } else {
        let stepped = spec_touch_move(touches, id, samples[0].0, samples[0].1);
        let m1 = stepped.0;
        assert(spec_elapsed_ms(start, samples[0].1) < TAP_THRESHOLD_MS);
        assert(m1 == touches.insert(
            id,
            TouchState::PressStart { pos: samples[0].0, start, forward_moves: fwd },
        ));
        assert(forall|k: int|
            0 <= k < samples.skip(1).len() ==> spec_elapsed_ms(
                start,
                (#[trigger] samples.skip(1)[k]).1,
            ) < TAP_THRESHOLD_MS);
        lemma_tap_sequence_yields_one_press(
            m1,
            id,
            samples[0].0,
            start,
            fwd,
            samples.skip(1),
            up_pos,
        );
        let rest = spec_run_moves(m1, id, samples.skip(1));
        assert(m1.insert(
            id,
            TouchState::PressStart {
                pos: spec_move_origin(samples[0].0, samples.skip(1), samples.skip(1).len() as int),
                start,
                forward_moves: fwd,
            },
        ) =~= touches.insert(
            id,
            TouchState::PressStart {
                pos: spec_move_origin(p0, samples, samples.len() as int),
                start,
                forward_moves: fwd,
            },
        ));
        assert(run.1 =~= seq![stepped.1] + rest.1);
        assert(forall|k: int|
            0 <= k < samples.len() ==> run.1[k] == (if fwd {
                GestureEvent::Scroll(spec_delta(spec_move_origin(p0, samples, k), samples[k].0))
            } else {
                GestureEvent::Nothing
            })) by {
            assert(forall|k: int|
                1 <= k < samples.len() ==> #[trigger] run.1[k] == rest.1[k - 1]);
            assert(forall|k: int|
                1 <= k < samples.len() ==> spec_move_origin(p0, samples, k) == spec_move_origin(
                    samples[0].0,
                    samples.skip(1),
                    k - 1,
                ) && (#[trigger] samples[k]).0 == samples.skip(1)[k - 1].0);
        }
        assert(count_scroll_events(run.1) == (if stepped.1 is Scroll {
            1nat
        } else {
            0nat
        }) + count_scroll_events(rest.1)) by {
            assert(run.1.skip(1) =~= rest.1);
        }
    }
}

/// The escalation step: a move sample that arrives at or past the tap
/// threshold turns a potential tap into a drag.
pub proof fn lemma_threshold_move_escalates(
    touches: Map<u64, TouchState>,
    id: u64,
    p0: Pos,
    start: u64,
    fwd: bool,
    pos: Pos,
    now: u64,
)
    requires
        touches.contains_key(id),
        touches[id] == (TouchState::PressStart { pos: p0, start, forward_moves: fwd }),
        spec_elapsed_ms(start, now) >= TAP_THRESHOLD_MS,
    ensures
        ({
            let stepped = spec_touch_move(touches, id, pos, now);
            &&& stepped.0 == touches.insert(
                id,
                TouchState::Moving { pos, last: now, forward_moves: fwd },
            )
            &&& stepped.1 == (if fwd {
                GestureEvent::Scroll(spec_delta(p0, pos))
            } else {
                GestureEvent::Nothing
            })
        }),
{
}

/// A drag: once a contact has escalated, every further move sample keeps
/// it a drag and forwards a scroll delta measured from the immediately
/// preceding sample exactly when the target accepted the contact -- so
/// the number of forwarded scrolls equals the number of samples processed
/// after the escalation -- and touch-up fires no press at all while still
/// removing the contact.
pub proof fn lemma_drag_sequence_suppresses_press(
    touches: Map<u64, TouchState>,
    id: u64,
    p0: Pos,
    t0: u64,
    fwd: bool,
    samples: Seq<(Pos, u64)>,
    up_pos: Pos,
)
    requires
        touches.contains_key(id),
        touches[id] == (TouchState::Moving { pos: p0, last: t0, forward_moves: fwd }),
    ensures
        ({
            let run = spec_run_moves(touches, id, samples);
            let up = spec_touch_up(run.0, id, up_pos);
            &&& run.0.contains_key(id) && run.0[id] is Moving
            &&& run.1.len() == samples.len()
            &&& forall|k: int|
                0 <= k < samples.len() ==> run.1[k] == (if fwd {
                    GestureEvent::Scroll(
                        spec_delta(spec_move_origin(p0, samples, k), samples[k].0),
                    )
                } else {
                    GestureEvent::Nothing
                })
            &&& count_scroll_events(run.1) == (if fwd {
                samples.len()
            } else {
                0nat
            })
            &&& up.1 == GestureEvent::Nothing
            &&& up.0 == run.0.remove(id)
        }),
    decreases samples.len(),
{
    let run = spec_run_moves(touches, id, samples);
    if samples.len() == 0 {
        assert(count_scroll_events(run.1) == 0);
    } else {
        let stepped = spec_touch_move(touches, id, samples[0].0, samples[0].1);
        let m1 = stepped.0;
        assert(m1 == touches.insert(
            id,
            TouchState::Moving { pos: samples[0].0, last: samples[0].1, forward_moves: fwd },
        ));
        lemma_drag_sequence_suppresses_press(
            m1,
            id,
            samples[0].0,
            samples[0].1,
            fwd,
            samples.skip(1),
            up_pos,
        );
        let rest = spec_run_moves(m1, id, samples.skip(1));
        assert(run.1 =~= seq![stepped.1] + rest.1);
        assert(forall|k: int|
            0 <= k < samples.len() ==> run.1[k] == (if fwd {
                GestureEvent::Scroll(spec_delta(spec_move_origin(p0, samples, k), samples[k].0))
            } else {
                GestureEvent::Nothing
            })) by {
            assert(forall|k: int|
                1 <= k < samples.len() ==> #[trigger] run.1[k] == rest.1[k - 1]);
            assert(forall|k: int|
                1 <= k < samples.len() ==> spec_move_origin(p0, samples, k) == spec_move_origin(
                    samples[0].0,
                    samples.skip(1),
                    k - 1,
                ) && (#[trigger] samples[k]).0 == samples.skip(1)[k - 1].0);
        }
        assert(count_scroll_events(run.1) == (if stepped.1 is Scroll {
            1nat
        } else {
            0nat
        }) + count_scroll_events(rest.1)) by {
            assert(run.1.skip(1) =~= rest.1);
        }
    }
}

/// A move sample whose identifier has no entry in the map changes
/// nothing and produces nothing.
pub proof fn lemma_unknown_move_ignored(
    touches: Map<u64, TouchState>,
    id: u64,
    pos: Pos,
    now: u64,
)
    requires
        !touches.contains_key(id),
    ensures
        spec_touch_move(touches, id, pos, now) == (touches, GestureEvent::Nothing),
{
}

} // verus!
