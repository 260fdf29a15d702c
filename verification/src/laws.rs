//! The guarantees the selection engine gives, stated over its
//! mathematical transitions.
//!
//! [`accept_step`] is how an arriving item transforms the state and
//! [`step`] is how one tick's events transform it; `Engine::add_item` and
//! `Engine::tick` are proved to realise exactly those transitions, so
//! everything below holds of the running engine.

use vstd::prelude::*;
use crate::engine::{accept_step, clamp_cursor, init_view, step, EngineView, Render};
use crate::events::{tick_confirm, tick_delta, InputEvent};

verus! {

/// Both transitions preserve the engine invariant: starting from any
/// well-formed state, an arriving item leaves a well-formed state, and so
/// does any tick of a running engine. In particular the cursor is always
/// inside `[0, N-1]` while N items are held, and rests inertly at zero
/// while there is none.
pub proof fn lemma_transitions_preserve_wf<I: Render>(
    s: EngineView<I>,
    item: I,
    pad: Option<InputEvent>,
    key: Option<InputEvent>,
)
    requires
        s.wf(),
    ensures
        accept_step(s, item).wf(),
        !s.done ==> step(s, pad, key).wf(),
{
}

/// The initial state is well-formed.
pub proof fn lemma_init_wf<I: Render>()
    ensures
        init_view::<I>().wf(),
{
}

/// A confirm signal delivered while the engine holds at least one item
/// stops the engine, and the selection is exactly the item at the final
/// cursor index of that tick: the cursor after this tick's displacement
/// was applied and re-clamped. Together with the contract of
/// `Engine::take_selected`, the caller receives precisely that item.
pub proof fn lemma_confirm_selects<I: Render>(
    s: EngineView<I>,
    pad: Option<InputEvent>,
    key: Option<InputEvent>,
)
    requires
        s.wf(),
        !s.done,
        s.items.len() > 0,
        tick_confirm(pad, key),
    ensures
        step(s, pad, key).done,
        step(s, pad, key).items == s.items,
        step(s, pad, key).cursor == clamp_cursor(
            s.cursor + tick_delta(pad, key),
            s.items.len() as int,
        ),
        step(s, pad, key).selected() == s.items[step(s, pad, key).cursor],
{
}

/// A confirm signal delivered while the engine holds no item does not
/// stop the engine, and it does not leak into a later tick: even after an
/// item then arrives, the engine only stops once a fresh confirm signal
/// fires.
pub proof fn lemma_confirm_while_empty_is_dropped<I: Render>(
    s: EngineView<I>,
    pad: Option<InputEvent>,
    key: Option<InputEvent>,
    item: I,
    pad2: Option<InputEvent>,
    key2: Option<InputEvent>,
)
    requires
        s.wf(),
        !s.done,
        s.items.len() == 0,
        !tick_confirm(pad2, key2),
    ensures
        !step(s, pad, key).done,
        !step(accept_step(step(s, pad, key), item), pad2, key2).done,
{
}

/// The cursor does not wrap around: moving up from the first item stays
/// on the first item, and moving down from the last stays on the last.
pub proof fn lemma_no_wraparound<I: Render>(
    s: EngineView<I>,
    pad: Option<InputEvent>,
    key: Option<InputEvent>,
)
    requires
        s.wf(),
        !s.done,
        s.items.len() > 0,
    ensures
        s.cursor == 0 && tick_delta(pad, key) == -1 ==> step(s, pad, key).cursor == 0,
        s.cursor == s.items.len() - 1 && tick_delta(pad, key) == 1 ==> step(s, pad, key).cursor
            == s.items.len() - 1,
{
}

/// The display cache is never stale and never missing: in every
/// well-formed state it has exactly one entry per item, and each entry is
/// that item's canonical rendering.
pub proof fn lemma_display_cache_faithful<I: Render>(s: EngineView<I>)
    requires
        s.wf(),
    ensures
        s.displays.len() == s.items.len(),
        forall|i: int|
            0 <= i < s.items.len() ==> s.displays[i] == #[trigger] s.items[i].render_spec(),
{
}

/// One thing the engine is fed during its life: an arriving item, or the
/// events of one tick.
pub ghost enum EngineInput<I> {
    Arrival(I),
    Tick(Option<InputEvent>, Option<InputEvent>),
}

/// How the engine reacts to one input. A stopped engine reacts to
/// nothing: arrivals are refused and no further tick runs.
pub open spec fn apply_input<I: Render>(s: EngineView<I>, inp: EngineInput<I>) -> EngineView<I> {
    if s.done {
        s
    } else {
        match inp {
            EngineInput::Arrival(item) => accept_step(s, item),
            EngineInput::Tick(pad, key) => step(s, pad, key),
        }
    }
}

/// The state after a whole run: every input applied in order.
pub open spec fn run<I: Render>(s: EngineView<I>, inputs: Seq<EngineInput<I>>) -> EngineView<I>
    decreases inputs.len(),
{
    if inputs.len() == 0 {
        s
    } else {
        run(apply_input(s, inputs[0]), inputs.drop_first())
    }
}

/// Every state a run can reach from a well-formed state is well-formed —
/// whatever items arrive, in whatever interleaving with ticks.
pub proof fn lemma_run_wf<I: Render>(s: EngineView<I>, inputs: Seq<EngineInput<I>>)
    requires
        s.wf(),
    ensures
        run(s, inputs).wf(),
    decreases inputs.len(),
{
    if inputs.len() > 0 {
        let s1 = apply_input(s, inputs[0]);
        if !s.done {
            match inputs[0] {
                EngineInput::Arrival(item) => {
                    lemma_transitions_preserve_wf(s, item, None, None);
                }
                EngineInput::Tick(pad, key) => {
                    lemma_transitions_preserve_wf(s, arbitrary::<I>(), pad, key);
                }
            }
        }
        lemma_run_wf(s1, inputs.drop_first());
    }
}

/// The guarantee of a whole session: for any sequence of items and ticks
/// starting from the initial state, if the run has not stopped and at
/// least one item has arrived, then a tick that carries a confirm signal
/// stops the engine, and the selection is exactly the item at the final
/// cursor index of that tick.
pub proof fn lemma_confirm_ends_any_run<I: Render>(
    inputs: Seq<EngineInput<I>>,
    pad: Option<InputEvent>,
    key: Option<InputEvent>,
)
    requires
        !run(init_view::<I>(), inputs).done,
        run(init_view::<I>(), inputs).items.len() > 0,
        tick_confirm(pad, key),
    ensures
        ({
            let s = run(init_view::<I>(), inputs);
            let s2 = step(s, pad, key);
            &&& s2.done
            &&& s2.selected() == s.items[s2.cursor]
            &&& s2.cursor == clamp_cursor(s.cursor + tick_delta(pad, key), s.items.len() as int)
        }),
{
    lemma_init_wf::<I>();
    lemma_run_wf(init_view::<I>(), inputs);
    lemma_confirm_selects(run(init_view::<I>(), inputs), pad, key);
}

} // verus!
