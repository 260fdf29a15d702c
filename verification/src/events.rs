//! The engine's input vocabulary and how a tick's raw events are read.
//!
//! Both input sources (the keyboard and the secondary input device) are
//! reduced to the same four-way vocabulary before they reach the engine.
//! Events outside the meaningful set are discarded at the adapter boundary
//! and ignored by the engine.

use vstd::prelude::*;

verus! {

/// One event of the engine's vocabulary: move the cursor up or down,
/// confirm the current choice, or anything else (which the engine ignores).
#[derive(Clone, Copy, PartialEq, Eq, Structural, Debug)]
pub enum InputEvent {
    MoveUp,
    MoveDown,
    Confirm,
    Other,
}

/// An event is meaningful when the engine reacts to it at all.
pub open spec fn is_meaningful(e: InputEvent) -> bool {
    !(e is Other)
}

/// The cursor displacement a single event asks for.
pub open spec fn event_delta(e: InputEvent) -> int {
    match e {
        InputEvent::MoveUp => -1,
        InputEvent::MoveDown => 1,
        _ => 0,
    }
}

/// Whether an event moves the cursor.
pub open spec fn is_move(e: InputEvent) -> bool {
    e is MoveUp || e is MoveDown
}

/// The cursor displacement of one tick, given the event drained from the
/// secondary device (`pad`) and the one polled from the keyboard (`key`).
/// The keyboard is consulted after the device, and the displacement is
/// overwritten rather than accumulated, so when both sources move the
/// cursor in the same tick the keyboard wins.
pub open spec fn tick_delta(pad: Option<InputEvent>, key: Option<InputEvent>) -> int {
    match key {
        Some(k) if is_move(k) => event_delta(k),
        _ => match pad {
            Some(p) if is_move(p) => event_delta(p),
            _ => 0,
        },
    }
}

/// Whether a confirm signal fired this tick: either source may produce it,
/// and a confirm is never overwritten by a move from the other source.
pub open spec fn tick_confirm(pad: Option<InputEvent>, key: Option<InputEvent>) -> bool {
    (pad matches Some(p) && p is Confirm) || (key matches Some(k) && k is Confirm)
}

/// The secondary input adapter's filter: only meaningful events are
/// forwarded to the engine; everything else is discarded at the boundary.
pub fn forwards(e: InputEvent) -> (r: bool)
    ensures
        r == is_meaningful(e),
{
    match e {
        InputEvent::Other => false,
        _ => true,
    }
}

} // verus!
