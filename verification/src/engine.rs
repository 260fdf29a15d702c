//! The selection engine: the state machine behind the interactive menu.
//!
//! The engine owns the accumulated item list, a cached display text for
//! every item, the cursor, the two redraw-dirty flags, and the done flag.
//! It is fed plain values: an arriving item goes in through [`Engine::add_item`],
//! and the events of one loop iteration go in through [`Engine::tick`], which
//! applies the whole per-iteration algorithm and reports what must be
//! repainted. The unverified shell around the library does nothing but
//! drain channels, poll the keyboard, interpret the returned plan on the
//! terminal, and sleep until the next tick.

use vstd::prelude::*;
use crate::events::{tick_confirm, tick_delta, InputEvent};

verus! {

/// The capability an item must offer: a string rendering of itself.
///
/// [`Engine::add_item`] derives each item's cached display text through
/// this trait, so the cache provably holds the canonical rendering.
pub trait Render: Sized {
    /// The mathematical value of the item's rendering.
    spec fn render_spec(&self) -> Seq<char>;

    /// Produce the item's display text.
    fn render(&self) -> (r: String)
        ensures
            r@ == self.render_spec(),
    ;
}

impl Render for String {
    open spec fn render_spec(&self) -> Seq<char> {
        self@
    }

    fn render(&self) -> (r: String) {
        self.clone()
    }
}

/// The mathematical state of an engine.
#[verifier::ext_equal]
pub ghost struct EngineView<I> {
    /// The items handed in so far, in arrival order.
    pub items: Seq<I>,
    /// The cached display text of each item, same order.
    pub displays: Seq<Seq<char>>,
    /// The cursor, as an index into `items`.
    pub cursor: int,
    /// The menu body is stale and must be repainted.
    pub redraw_menu: bool,
    /// The cursor marker is stale and must be repainted.
    pub redraw_cursor: bool,
    /// A confirm signal was accepted; the engine has stopped.
    pub done: bool,
}

impl<I: Render> EngineView<I> {
    /// Every state the engine can be in satisfies this invariant: the
    /// display cache pairs up with the item list and holds each item's
    /// canonical rendering; the cursor is clamped into the item range
    /// (and rests at zero while there is no item); and the engine only
    /// stops while it holds at least one item.
    pub open spec fn wf(self) -> bool {
        &&& self.displays.len() == self.items.len()
        &&& forall|i: int|
            0 <= i < self.items.len() ==> self.displays[i] == #[trigger] self.items[
                i
            ].render_spec()
        &&& if self.items.len() == 0 {
            self.cursor == 0
        } else {
            0 <= self.cursor < self.items.len()
        }
        &&& self.done ==> self.items.len() > 0
    }

    /// The item the cursor rests on.
    pub open spec fn selected(self) -> I {
        self.items[self.cursor]
    }
}

/// The state the engine starts in: no items, cursor at zero, both redraw
/// flags raised so the first tick paints the whole screen, running.
pub open spec fn init_view<I: Render>() -> EngineView<I> {
    EngineView {
        items: Seq::empty(),
        displays: Seq::empty(),
        cursor: 0,
        redraw_menu: true,
        redraw_cursor: true,
        done: false,
    }
}

/// How accepting one arriving item transforms the state: the item and its
/// rendering are appended and the menu body becomes stale. Nothing else
/// moves, so an arrival never disturbs an in-progress selection.
pub open spec fn accept_step<I: Render>(s: EngineView<I>, item: I) -> EngineView<I> {
    EngineView { items: s.items.push(item), displays: s.displays.push(item.render_spec()), redraw_menu: true, ..s }
}

/// A cursor position re-clamped into the range of `n` items; zero when
/// there is no item.
pub open spec fn clamp_cursor(c: int, n: int) -> int {
    if n <= 0 {
        0
    } else if c < 0 {
        0
    } else if c >= n {
        n - 1
    } else {
        c
    }
}

/// How one tick's events transform the state: the cursor moves by the
/// tick's displacement and is re-clamped; the engine stops exactly when a
/// confirm signal fired while at least one item is held; both redraw
/// flags come down (the tick's plan has scheduled the repaints they asked
/// for).
pub open spec fn step<I: Render>(
    s: EngineView<I>,
    pad: Option<InputEvent>,
    key: Option<InputEvent>,
) -> EngineView<I> {
    EngineView {
        cursor: clamp_cursor(s.cursor + tick_delta(pad, key), s.items.len() as int),
        redraw_menu: false,
        redraw_cursor: false,
        done: tick_confirm(pad, key) && s.items.len() > 0,
        ..s
    }
}

/// Whether a tick must repaint the cursor marker: the marker was already
/// stale, or the menu body is repainted (a repaint clears the screen, so
/// the marker must be repainted too), or the cursor was asked to move.
pub open spec fn plan_draw_cursor<I: Render>(
    s: EngineView<I>,
    pad: Option<InputEvent>,
    key: Option<InputEvent>,
) -> bool {
    s.redraw_cursor || s.redraw_menu || tick_delta(pad, key) != 0
}

/// What one tick asks the terminal to do.
pub struct TickPlan {
    /// Repaint the whole menu body.
    pub draw_menu: bool,
    /// Repaint the cursor marker.
    pub draw_cursor: bool,
    /// Where the stale marker must be erased: the cursor before the tick.
    pub erase_pos: usize,
    /// Where the marker must be drawn: the cursor after the tick.
    pub marker_pos: usize,
    /// Flush the terminal buffer, exactly when something was repainted.
    pub flush: bool,
}

/// The selection engine. See the module documentation.
pub struct Engine<I: Render> {
    items: Vec<I>,
    displays: Vec<String>,
    cursor: usize,
    redraw_menu: bool,
    redraw_cursor: bool,
    done: bool,
}

impl<I: Render> View for Engine<I> {
    type V = EngineView<I>;

    closed spec fn view(&self) -> EngineView<I> {
        EngineView {
            items: self.items@,
            displays: crate::draw::str_views(self.displays@),
            cursor: self.cursor as int,
            redraw_menu: self.redraw_menu,
            redraw_cursor: self.redraw_cursor,
            done: self.done,
        }
    }
}

impl<I: Render> Engine<I> {
    /// Start an engine in the initial state.
    pub fn new() -> (r: Engine<I>)
        ensures
            r@ == init_view::<I>(),
            r@.wf(),
    {
        let e = Engine {
            items: Vec::new(),
            displays: Vec::new(),
            cursor: 0,
            redraw_menu: true,
            redraw_cursor: true,
            done: false,
        };
        proof {
            assert(e@ =~= init_view::<I>());
        }
        e
    }

    /// Hand the engine one arriving item.
    ///
    /// While the engine runs, the item and its rendering are appended and
    /// the menu body is marked stale. Once the engine has stopped, the
    /// item is refused: nothing is stored, and the `false` result reports
    /// the refusal rather than letting the item vanish silently.
    pub fn add_item(&mut self, item: I) -> (accepted: bool)
        requires
            old(self)@.wf(),
        ensures
            final(self)@.wf(),
            accepted == !old(self)@.done,
            accepted ==> final(self)@ == accept_step(old(self)@, item),
            !accepted ==> final(self)@ == old(self)@,
    {
        if self.done {
            false
        } else {
            let text = item.render();
            self.displays.push(text);
            self.items.push(item);
            self.redraw_menu = true;
            proof {
                assert(self@ =~= accept_step(old(self)@, item));
            }
            true
        }
    }

    /// Run one iteration of the selection loop on the events it drained:
    /// at most one event from the secondary input device and at most one
    /// from the keyboard, either possibly absent.
    ///
    /// The engine applies the tick's cursor displacement, re-clamps the
    /// cursor, decides whether it is done, and returns the repaint plan of
    /// this tick: whether to repaint the menu body, whether to repaint the
    /// cursor marker (and between which positions), and whether to flush.
    pub fn tick(&mut self, pad: Option<InputEvent>, key: Option<InputEvent>) -> (plan: TickPlan)
        requires
            old(self)@.wf(),
            !old(self)@.done,
        ensures
            final(self)@.wf(),
            final(self)@ == step(old(self)@, pad, key),
            plan.draw_menu == old(self)@.redraw_menu,
            plan.draw_cursor == plan_draw_cursor(old(self)@, pad, key),
            plan.erase_pos == old(self)@.cursor,
            plan.marker_pos == final(self)@.cursor,
            plan.flush == (plan.draw_menu || plan.draw_cursor),
    {
        let mut delta: i8 = 0;
        let mut confirm = false;
        match pad {
            Some(InputEvent::MoveUp) => delta = -1,
            Some(InputEvent::MoveDown) => delta = 1,
            Some(InputEvent::Confirm) => confirm = true,
            _ => (),
        }
        match key {
            Some(InputEvent::MoveUp) => delta = -1,
            Some(InputEvent::MoveDown) => delta = 1,
            Some(InputEvent::Confirm) => confirm = true,
            _ => (),
        }
        assert(delta == tick_delta(pad, key));
        assert(confirm == tick_confirm(pad, key));

        if delta != 0 {
            self.redraw_cursor = true;
        }
        let draw_menu = self.redraw_menu;
        if draw_menu {
            self.redraw_cursor = true;
        }
        let draw_cursor = self.redraw_cursor;

        let erase_pos = self.cursor;
        let n = self.items.len();
        let new_cursor: usize = if n == 0 {
            0
        } else if delta < 0 {
            if self.cursor == 0 {
                0
            } else {
                self.cursor - 1
            }
        } else if delta > 0 {
            if self.cursor >= n - 1 {
                n - 1
            } else {
                self.cursor + 1
            }
        } else {
            self.cursor
        };
        self.cursor = new_cursor;

        if confirm && n > 0 {
            self.done = true;
        }
        self.redraw_menu = false;
        self.redraw_cursor = false;

        proof {
            assert(self@ =~= step(old(self)@, pad, key));
        }
        TickPlan {
            draw_menu,
            draw_cursor,
            erase_pos,
            marker_pos: new_cursor,
            flush: draw_menu || draw_cursor,
        }
    }

    /// Whether the engine has accepted a confirm signal and stopped.
    pub fn is_done(&self) -> (r: bool)
        ensures
            r == self@.done,
    {
        self.done
    }

    /// The current cursor position.
    pub fn cursor_index(&self) -> (r: usize)
        ensures
            r == self@.cursor,
    {
        self.cursor
    }

    /// How many items the engine holds.
    pub fn item_count(&self) -> (r: usize)
        ensures
            r == self@.items.len(),
    {
        self.items.len()
    }

    /// The cached display texts, in arrival order.
    pub fn displays(&self) -> (r: &Vec<String>)
        ensures
            crate::draw::str_views(r@) == self@.displays,
    {
        &self.displays
    }

    /// Move the chosen item out of a stopped engine: exactly the item the
    /// cursor rested on when the confirm signal was accepted. The item
    /// list loses exactly that one element.
    pub fn take_selected(&mut self) -> (r: I)
        requires
            old(self)@.wf(),
            old(self)@.done,
        ensures
            r == old(self)@.selected(),
            final(self)@.items == old(self)@.items.update(
                old(self)@.cursor,
                old(self)@.items.last(),
            ).drop_last(),
    {
        self.items.swap_remove(self.cursor)
    }
}

} // verus!
