//! The application controller.
//!
//! The controller owns the mapping from live window identities to their
//! per-window state and turns each platform event into the actions the
//! driver must perform (resize the surface, request a redraw, render a
//! frame, exit the loop). It decides; the driver executes. The semantics of
//! one event is the spec function [`step`]; every handler is proved to
//! refine it, and the laws at the bottom of this module are proved of it.

use vstd::prelude::*;

use crate::overlay::{initial_overlay, lemma_toggle_parity, toggled, OverlayState};

verus! {

/// The size and UI state of one live window.
#[derive(Clone, Copy, Debug, PartialEq, Eq)]
pub struct WindowState {
    pub width: u32,
    pub height: u32,
    pub overlay: OverlayState,
}

impl WindowState {
    /// The stored color stays within range.
    pub open spec fn wf(self) -> bool {
        self.overlay.wf()
    }

    /// State of a freshly created window: the given size, overlay hidden,
    /// initial color.
    pub fn new(width: u32, height: u32) -> (r: WindowState)
        ensures
            r == (WindowState { width, height, overlay: initial_overlay() }),
            r.wf(),
    {
        WindowState { width, height, overlay: OverlayState::new() }
    }
}

/// One entry of the window table: a platform window identity and its state.
#[derive(Clone, Copy, Debug, PartialEq, Eq)]
pub struct WindowEntry {
    pub id: u64,
    pub state: WindowState,
}

/// The platform events the controller decides on. Anything else a platform
/// delivers is `Other` and is dropped.
#[derive(Clone, Copy, Debug, PartialEq, Eq)]
pub enum WindowEvent {
    CloseRequested,
    RedrawRequested,
    Resized { width: u32, height: u32 },
    KeyboardInput { pressed: bool, is_toggle_key: bool },
    Other,
}

/// What the driver must do in response to an event.
#[derive(Clone, Copy, Debug, PartialEq, Eq)]
pub enum Action {
    /// Create a platform window and register it.
    CreateWindow,
    /// Resize the window's drawable surface to the given size.
    ResizeSurface { width: u32, height: u32 },
    /// Ask the platform for a redraw of this window.
    RequestRedraw,
    /// Render one frame for this window now.
    Render,
    /// Terminate the event loop.
    Exit,
}

/// Index of the first entry with the given identity, or -1 if there is none.
pub open spec fn key_idx(ws: Seq<WindowEntry>, id: u64) -> int
    decreases ws.len(),
{
    if ws.len() == 0 {
        -1
    } else if ws[0].id == id {
        0
    } else {
        let rest = key_idx(ws.skip(1), id);
        if rest < 0 {
            -1
        } else {
            rest + 1
        }
    }
}

/// No two entries share an identity.
pub open spec fn ids_unique(ws: Seq<WindowEntry>) -> bool {
    forall|i: int, j: int| 0 <= i < j < ws.len() ==> ws[i].id != ws[j].id
}

/// What `key_idx` finds: a valid first occurrence, or proof of absence.
pub proof fn lemma_key_idx(ws: Seq<WindowEntry>, id: u64)
    ensures
        -1 <= key_idx(ws, id) < ws.len(),
        key_idx(ws, id) >= 0 ==> ws[key_idx(ws, id)].id == id,
        key_idx(ws, id) >= 0 ==> forall|j: int| 0 <= j < key_idx(ws, id) ==> ws[j].id != id,
        key_idx(ws, id) == -1 ==> forall|j: int| 0 <= j < ws.len() ==> ws[j].id != id,
    decreases ws.len(),
{
    if ws.len() > 0 && ws[0].id != id {
        lemma_key_idx(ws.skip(1), id);
        assert forall|j: int| 1 <= j < ws.len() implies ws.skip(1)[j - 1] == ws[j] by {}
    }
}

/// The first occurrence determines `key_idx`.
pub proof fn lemma_key_idx_is_first(ws: Seq<WindowEntry>, id: u64, i: int)
    requires
        0 <= i < ws.len(),
        ws[i].id == id,
        forall|j: int| 0 <= j < i ==> ws[j].id != id,
    ensures
        key_idx(ws, id) == i,
    decreases i,
{
    if i > 0 {
        assert forall|j: int| 0 <= j < i - 1 implies ws.skip(1)[j].id != id by {
            assert(ws.skip(1)[j] == ws[j + 1]);
        }
        assert(ws.skip(1)[i - 1] == ws[i]);
        lemma_key_idx_is_first(ws.skip(1), id, i - 1);
    }
}

/// Sequences with pointwise equal identities agree on `key_idx`.
pub proof fn lemma_key_idx_same_ids(a: Seq<WindowEntry>, b: Seq<WindowEntry>, id: u64)
    requires
        a.len() == b.len(),
        forall|j: int| 0 <= j < a.len() ==> a[j].id == b[j].id,
    ensures
        key_idx(a, id) == key_idx(b, id),
    decreases a.len(),
{
    if a.len() > 0 && a[0].id != id {
        assert forall|j: int| 0 <= j < a.len() - 1 implies a.skip(1)[j].id == b.skip(1)[j].id by {
            assert(a.skip(1)[j] == a[j + 1]);
            assert(b.skip(1)[j] == b[j + 1]);
        }
        lemma_key_idx_same_ids(a.skip(1), b.skip(1), id);
    }
}

/// The window table and the actions left after one event.
pub struct Step {
    pub windows: Seq<WindowEntry>,
    pub actions: Seq<Action>,
}

/// The meaning of one window event, as the event-loop callback treats it:
/// - an identity with no entry is stale: the event is dropped;
/// - `CloseRequested` removes the entry and exits when it was the last;
/// - `RedrawRequested` renders one frame;
/// - `Resized` with both dimensions nonzero stores the size and resizes the
///   surface, then asks for a redraw; a zero-sized resize is a platform
///   artifact (minimize) and is ignored;
/// - a press of the designated toggle key flips the overlay and asks for a
///   redraw; other keys are left to the overlay's own input translation.
pub open spec fn step(ws: Seq<WindowEntry>, id: u64, ev: WindowEvent) -> Step {
    let i = key_idx(ws, id);
    if i < 0 {
        Step { windows: ws, actions: Seq::empty() }
    } else {
        match ev {
            WindowEvent::CloseRequested => Step {
                windows: ws.remove(i),
                actions: if ws.len() == 1 {
                    seq![Action::Exit]
                } else {
                    Seq::empty()
                },
            },
            WindowEvent::RedrawRequested => Step {
                windows: ws,
                actions: seq![Action::Render],
            },
            WindowEvent::Resized { width, height } => {
                if width > 0 && height > 0 {
                    Step {
                        windows: ws.update(
                            i,
                            WindowEntry {
                                id,
                                state: WindowState { width, height, overlay: ws[i].state.overlay },
                            },
                        ),
                        actions: seq![
                            Action::ResizeSurface { width, height },
                            Action::RequestRedraw,
                        ],
                    }
                } else {
                    Step { windows: ws, actions: Seq::empty() }
                }
            },
            WindowEvent::KeyboardInput { pressed, is_toggle_key } => {
                if pressed && is_toggle_key {
                    Step {
                        windows: ws.update(
                            i,
                            WindowEntry {
                                id,
                                state: WindowState {
                                    width: ws[i].state.width,
                                    height: ws[i].state.height,
                                    overlay: OverlayState {
                                        visible: !ws[i].state.overlay.visible,
                                        color: ws[i].state.overlay.color,
                                    },
                                },
                            },
                        ),
                        actions: seq![Action::RequestRedraw],
                    }
                } else {
                    Step { windows: ws, actions: Seq::empty() }
                }
            },
            WindowEvent::Other => Step { windows: ws, actions: Seq::empty() },
        }
    }
}

/// The window table after a whole sequence of events.
pub open spec fn run(ws: Seq<WindowEntry>, evs: Seq<(u64, WindowEvent)>) -> Seq<WindowEntry>
    decreases evs.len(),
{
    if evs.len() == 0 {
        ws
    } else {
        run(step(ws, evs[0].0, evs[0].1).windows, evs.skip(1))
    }
}

/// Registering a window: a fresh identity is appended; an identity already
/// present has its state replaced, as a map insert would.
pub open spec fn upsert(ws: Seq<WindowEntry>, id: u64, st: WindowState) -> Seq<WindowEntry> {
    let i = key_idx(ws, id);
    if i < 0 {
        ws.push(WindowEntry { id, state: st })
    } else {
        ws.update(i, WindowEntry { id, state: st })
    }
}

/// The application controller: the table of live windows, in creation order.
pub struct Controller {
    windows: Vec<WindowEntry>,
}

impl View for Controller {
    type V = Seq<WindowEntry>;

    closed spec fn view(&self) -> Seq<WindowEntry> {
        self.windows@
    }
}

impl Controller {
    /// Identities are unique: the table is a map.
    pub open spec fn wf(&self) -> bool {
        ids_unique(self@)
    }

    /// A controller with no windows yet.
    pub fn new() -> (r: Controller)
        ensures
            r@ == Seq::<WindowEntry>::empty(),
            r.wf(),
    {
        let c = Controller { windows: Vec::new() };
        proof {
            assert(c@ =~= Seq::<WindowEntry>::empty());
        }
        c
    }

    /// Index of the entry for `id`, if the window is live.
    fn find(&self, id: u64) -> (r: Option<usize>)
        ensures
            match r {
                Some(i) => key_idx(self@, id) == i && i < self@.len(),
                None => key_idx(self@, id) == -1,
            },
    {
        let n = self.windows.len();
        let mut i: usize = 0;
        while i < n
            invariant
                i <= n,
                n == self@.len(),
                forall|j: int| 0 <= j < i ==> self@[j].id != id,
            decreases n - i,
        {
            if self.windows[i].id == id {
                proof {
                    lemma_key_idx_is_first(self@, id, i as int);
                }
                return Some(i);
            }
            i += 1;
        }
        proof {
            lemma_key_idx(self@, id);
        }
        None
    }

    /// Whether a window with this identity is live.
    pub fn contains(&self, id: u64) -> (r: bool)
        ensures
            r == (key_idx(self@, id) >= 0),
    {
        self.find(id).is_some()
    }

    /// Number of live windows.
    pub fn window_count(&self) -> (r: usize)
        ensures
            r == self@.len(),
    {
        self.windows.len()
    }

    /// The state of a live window, or `None` for a stale identity.
    pub fn window_state(&self, id: u64) -> (r: Option<WindowState>)
        ensures
            match r {
                Some(st) => key_idx(self@, id) >= 0 && st == self@[key_idx(self@, id)].state,
                None => key_idx(self@, id) == -1,
            },
    {
        match self.find(id) {
            Some(i) => Some(self.windows[i].state),
            None => None,
        }
    }

    /// Registers a created window under its identity, with the overlay
    /// hidden and the initial color; replaces the state if the identity is
    /// already present.
    pub fn register_window(&mut self, id: u64, width: u32, height: u32)
        requires
            old(self).wf(),
        ensures
            final(self)@ == upsert(
                old(self)@,
                id,
                WindowState { width, height, overlay: initial_overlay() },
            ),
            final(self).wf(),
    {
        let st = WindowState::new(width, height);
        match self.find(id) {
            Some(i) => {
                self.windows.set(i, WindowEntry { id, state: st });
                proof {
                    lemma_key_idx(old(self)@, id);
                    assert forall|a: int, b: int|
                        0 <= a < b < self@.len() implies self@[a].id != self@[b].id by {
                        assert(old(self)@[a].id != old(self)@[b].id);
                    }
                }
            },
            None => {
                self.windows.push(WindowEntry { id, state: st });
                proof {
                    lemma_key_idx(old(self)@, id);
                    assert forall|a: int, b: int|
                        0 <= a < b < self@.len() implies self@[a].id != self@[b].id by {
                        if b < old(self)@.len() {
                            assert(old(self)@[a].id != old(self)@[b].id);
                        } else {
                            assert(self@[b].id == id);
                            assert(old(self)@[a].id != id);
                        }
                    }
                }
            },
        }
    }

    /// The event-loop's `resumed` callback: create the first window once;
    /// idempotent thereafter.
    pub fn resumed(&self) -> (actions: Vec<Action>)
        ensures
            actions@ == if self@.len() == 0 {
                seq![Action::CreateWindow]
            } else {
                Seq::<Action>::empty()
            },
    {
        let mut actions: Vec<Action> = Vec::new();
        if self.windows.len() == 0 {
            actions.push(Action::CreateWindow);
            proof {
                assert(actions@ =~= seq![Action::CreateWindow]);
            }
        } else {
            proof {
                assert(actions@ =~= Seq::<Action>::empty());
            }
        }
        actions
    }

    /// The event-loop's `about_to_wait` callback: every live window is asked
    /// to redraw, unconditionally — the uncapped animation loop.
    pub fn about_to_wait(&self) -> (ids: Vec<u64>)
        ensures
            ids@.len() == self@.len(),
            forall|j: int| 0 <= j < ids@.len() ==> ids@[j] == self@[j].id,
    {
        let n = self.windows.len();
        let mut ids: Vec<u64> = Vec::new();
        let mut i: usize = 0;
        while i < n
            invariant
                i <= n,
                n == self@.len(),
                ids@.len() == i,
                forall|j: int| 0 <= j < i ==> ids@[j] == self@[j].id,
            decreases n - i,
        {
            ids.push(self.windows[i].id);
            i += 1;
        }
        ids
    }

    /// The UI library's answer to input translation: when it asks for a
    /// repaint of a live window, a redraw is requested.
    pub fn overlay_response(&self, id: u64, repaint: bool) -> (actions: Vec<Action>)
        ensures
            actions@ == if repaint && key_idx(self@, id) >= 0 {
                seq![Action::RequestRedraw]
            } else {
                Seq::<Action>::empty()
            },
    {
        let mut actions: Vec<Action> = Vec::new();
        if repaint && self.contains(id) {
            actions.push(Action::RequestRedraw);
            proof {
                assert(actions@ =~= seq![Action::RequestRedraw]);
            }
        } else {
            proof {
                assert(actions@ =~= Seq::<Action>::empty());
            }
        }
        actions
    }

    /// The event-loop's `window_event` callback: one event for one window,
    /// with the meaning given by [`step`].
    pub fn window_event(&mut self, id: u64, ev: WindowEvent) -> (actions: Vec<Action>)
        requires
            old(self).wf(),
        ensures
            final(self)@ == step(old(self)@, id, ev).windows,
            actions@ == step(old(self)@, id, ev).actions,
            final(self).wf(),
    {
        let ghost ws = self@;
        let i = match self.find(id) {
            Some(i) => i,
            None => {
                let dropped: Vec<Action> = Vec::new();
                proof {
                    assert(dropped@ =~= Seq::<Action>::empty());
                }
                return dropped;
            },
        };
        proof {
            lemma_key_idx(ws, id);
        }
        let mut actions: Vec<Action> = Vec::new();
        match ev {
            WindowEvent::CloseRequested => {
                self.windows.remove(i);
                if self.windows.len() == 0 {
                    actions.push(Action::Exit);
                }
                proof {
                    assert(actions@ =~= step(ws, id, ev).actions);
                }
            },
            WindowEvent::RedrawRequested => {
                actions.push(Action::Render);
                proof {
                    assert(actions@ =~= seq![Action::Render]);
                }
            },
            WindowEvent::Resized { width, height } => {
                if width > 0 && height > 0 {
                    let overlay = self.windows[i].state.overlay;
                    self.windows.set(
                        i,
                        WindowEntry { id, state: WindowState { width, height, overlay } },
                    );
                    actions.push(Action::ResizeSurface { width, height });
                    actions.push(Action::RequestRedraw);
                    proof {
                        assert(actions@ =~= step(ws, id, ev).actions);
                    }
                } else {
                    proof {
                        assert(actions@ =~= Seq::<Action>::empty());
                    }
                }
            },
            WindowEvent::KeyboardInput { pressed, is_toggle_key } => {
                if pressed && is_toggle_key {
                    let st = self.windows[i].state;
                    self.windows.set(
                        i,
                        WindowEntry {
                            id,
                            state: WindowState {
                                width: st.width,
                                height: st.height,
                                overlay: OverlayState {
                                    visible: !st.overlay.visible,
                                    color: st.overlay.color,
                                },
                            },
                        },
                    );
                    actions.push(Action::RequestRedraw);
                    proof {
                        assert(actions@ =~= seq![Action::RequestRedraw]);
                    }
                } else {
                    proof {
                        assert(actions@ =~= Seq::<Action>::empty());
                    }
                }
            },
            WindowEvent::Other => {
                proof {
                    assert(actions@ =~= Seq::<Action>::empty());
                }
            },
        }
        proof {
            lemma_step_preserves_unique(ws, id, ev);
        }
        actions
    }
}

/// Law: an event aimed at an identity with no entry — a window already
/// removed — is silently dropped: no state change, no actions.
pub proof fn lemma_stale_event_dropped(ws: Seq<WindowEntry>, id: u64, ev: WindowEvent)
    requires
        key_idx(ws, id) < 0,
    ensures
        step(ws, id, ev).windows == ws,
        step(ws, id, ev).actions == Seq::<Action>::empty(),
{
}

/// One event keeps the window table a map: identities stay unique.
pub proof fn lemma_step_preserves_unique(ws: Seq<WindowEntry>, id: u64, ev: WindowEvent)
    requires
        ids_unique(ws),
    ensures
        ids_unique(step(ws, id, ev).windows),
{
    let i = key_idx(ws, id);
    lemma_key_idx(ws, id);
    if i >= 0 {
        let ws1 = step(ws, id, ev).windows;
        match ev {
            WindowEvent::CloseRequested => {
                ws.remove_ensures(i);
                assert forall|a: int, b: int|
                    0 <= a < b < ws1.len() implies ws1[a].id != ws1[b].id by {
                    let a0 = if a < i {
                        a
                    } else {
                        a + 1
                    };
                    let b0 = if b < i {
                        b
                    } else {
                        b + 1
                    };
                    assert(ws1[a] == ws[a0]);
                    assert(ws1[b] == ws[b0]);
                    assert(ws[a0].id != ws[b0].id);
                }
            },
            _ => {
                assert forall|a: int, b: int|
                    0 <= a < b < ws1.len() implies ws1[a].id != ws1[b].id by {
                    assert(ws[a].id != ws[b].id);
                }
            },
        }
    }
}

/// Law (window-table invariant): over any sequence of events, every live
/// window keeps exactly one entry — identities stay unique.
pub proof fn lemma_run_preserves_unique(ws: Seq<WindowEntry>, evs: Seq<(u64, WindowEvent)>)
    requires
        ids_unique(ws),
    ensures
        ids_unique(run(ws, evs)),
    decreases evs.len(),
{
    if evs.len() > 0 {
        lemma_step_preserves_unique(ws, evs[0].0, evs[0].1);
        lemma_run_preserves_unique(step(ws, evs[0].0, evs[0].1).windows, evs.skip(1));
    }
}

/// A resize event that a platform emits while a window is minimized: one of
/// its dimensions is zero.
pub open spec fn is_zero_resize(ev: WindowEvent) -> bool {
    match ev {
        WindowEvent::Resized { width, height } => width == 0 || height == 0,
        _ => false,
    }
}

/// Law: zero-sized resize events — `Resized(0, 0)` during minimize being the
/// common case — are dropped: any sequence of them leaves the window table
/// unchanged and emits no action at any step. The handlers being verified,
/// no panic can result either.
pub proof fn lemma_zero_resize_sequence(ws: Seq<WindowEntry>, evs: Seq<(u64, WindowEvent)>)
    requires
        forall|k: int| 0 <= k < evs.len() ==> is_zero_resize(evs[k].1),
    ensures
        run(ws, evs) == ws,
        forall|k: int|
            0 <= k < evs.len() ==> step(ws, evs[k].0, evs[k].1).actions == Seq::<Action>::empty(),
    decreases evs.len(),
{
    if evs.len() > 0 {
        assert(step(ws, evs[0].0, evs[0].1).windows == ws);
        let rest = evs.skip(1);
        assert forall|k: int| 0 <= k < rest.len() implies is_zero_resize(rest[k].1) by {
            assert(rest[k] == evs[k + 1]);
        }
        lemma_zero_resize_sequence(ws, rest);
        assert forall|k: int|
            0 <= k < evs.len() implies step(ws, evs[k].0, evs[k].1).actions == Seq::<
            Action,
        >::empty() by {
            if k > 0 {
                assert(rest[k - 1] == evs[k]);
                assert(step(ws, rest[k - 1].0, rest[k - 1].1).actions == Seq::<Action>::empty());
            }
        }
    }
}

/// Law: closing the only open window empties the window table and issues the
/// loop-termination signal exactly once.
pub proof fn lemma_close_last_window(ws: Seq<WindowEntry>, id: u64)
    requires
        ws.len() == 1,
        ws[0].id == id,
    ensures
        step(ws, id, WindowEvent::CloseRequested).windows == Seq::<WindowEntry>::empty(),
        step(ws, id, WindowEvent::CloseRequested).actions == seq![Action::Exit],
{
    assert(key_idx(ws, id) == 0);
    assert(ws.remove(0) =~= Seq::<WindowEntry>::empty());
}

/// A press of the designated toggle key.
pub open spec fn toggle_press() -> WindowEvent {
    WindowEvent::KeyboardInput { pressed: true, is_toggle_key: true }
}

/// `n` presses of the designated toggle key, all aimed at one window.
pub open spec fn toggle_presses(id: u64, n: nat) -> Seq<(u64, WindowEvent)> {
    Seq::new(n, |i: int| (id, toggle_press()))
}

/// Law: dispatching the designated toggle key `n` times to a live window
/// flips only that window's overlay visibility, `n` times — an even `n`
/// restores it, an odd `n` inverts it. Size, color and every other window
/// are untouched.
pub proof fn lemma_toggle_run(ws: Seq<WindowEntry>, id: u64, n: nat)
    requires
        key_idx(ws, id) >= 0,
    ensures
        run(ws, toggle_presses(id, n)).len() == ws.len(),
        forall|j: int|
            0 <= j < ws.len() && j != key_idx(ws, id) ==> run(ws, toggle_presses(id, n))[j]
                == ws[j],
        run(ws, toggle_presses(id, n))[key_idx(ws, id)].id == id,
        run(ws, toggle_presses(id, n))[key_idx(ws, id)].state.width == ws[key_idx(
            ws,
            id,
        )].state.width,
        run(ws, toggle_presses(id, n))[key_idx(ws, id)].state.height == ws[key_idx(
            ws,
            id,
        )].state.height,
        run(ws, toggle_presses(id, n))[key_idx(ws, id)].state.overlay.color == ws[key_idx(
            ws,
            id,
        )].state.overlay.color,
        run(ws, toggle_presses(id, n))[key_idx(ws, id)].state.overlay.visible == toggled(
            ws[key_idx(ws, id)].state.overlay.visible,
            n,
        ),
    decreases n,
{
    let i = key_idx(ws, id);
    lemma_key_idx(ws, id);
    if n == 0 {
        assert(toggle_presses(id, 0) =~= Seq::<(u64, WindowEvent)>::empty());
    } else {
        let evs = toggle_presses(id, n);
        assert(evs[0] == (id, toggle_press()));
        let ws1 = step(ws, id, toggle_press()).windows;
        assert forall|j: int| 0 <= j < ws.len() implies ws1[j].id == ws[j].id by {}
        lemma_key_idx_same_ids(ws, ws1, id);
        assert(evs.skip(1) =~= toggle_presses(id, (n - 1) as nat));
        lemma_toggle_run(ws1, id, (n - 1) as nat);
        lemma_toggle_parity(ws[i].state.overlay.visible, n);
        lemma_toggle_parity(!ws[i].state.overlay.visible, (n - 1) as nat);
    }
}

} // verus!
