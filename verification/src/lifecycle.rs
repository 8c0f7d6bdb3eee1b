//! The application lifecycle state machine.
//!
//! An application owns at most one window, identified by a plain numeric
//! id handed out by the host when the window is created. The state is a
//! closed enum: a window id is held if and only if the state is `Init`.

use vstd::prelude::*;

verus! {

/// Lifecycle state of the application. A window id is held exactly in the
/// `Init` state.
#[derive(Clone, Copy, Debug, PartialEq, Eq, Structural)]
pub enum App {
    /// No window exists yet; the host has not granted UI access.
    Uninit,
    /// Exactly one window is owned, identified by `win`.
    Init { win: u64 },
    /// Terminal: the window has been released; nothing changes the state
    /// any more.
    Destroyed,
}

/// The kinds of window event the application distinguishes.
#[derive(Clone, Copy, Debug, PartialEq, Eq, Structural)]
pub enum WindowEventKind {
    /// The user or the system asked the window to close.
    CloseRequested,
    /// The window should be repainted (a stub: nothing is drawn).
    RedrawRequested,
    /// Any other window event; all are ignored.
    Other,
}

/// What the host is asked to do in reaction to a window event.
#[derive(Clone, Copy, Debug, PartialEq, Eq, Structural)]
pub enum EventAction {
    /// Nothing to do.
    Ignore,
    /// Report that an event arrived before any window existed.
    WarnNotInitialized,
    /// Report that the event targets a window the application does not own.
    WarnUnknownWindow,
    /// Hide the owned window and stop the event loop.
    HideAndExit,
}

/// An event as the host delivers it. A resume signal carries the outcome
/// of the window creation it triggered: `Some(win)` if a window with id
/// `win` was created, `None` if creation failed or was not attempted.
pub enum Event {
    Resumed { outcome: Option<u64> },
    Window { win: u64, kind: WindowEventKind },
}

/// The state after a resume signal whose window creation (attempted only
/// from `Uninit`) had the given outcome. Resume signals in any other state
/// are ignored, and a failed creation leaves the state unchanged.
pub open spec fn resume_state(s: App, outcome: Option<u64>) -> App {
    if s is Uninit {
        match outcome {
            Option::Some(win) => App::Init { win },
            Option::None => s,
        }
    } else {
        s
    }
}

/// Whether a resume signal with the given outcome asks the host to stop
/// the event loop: only when creation was attempted and failed.
pub open spec fn resume_requests_exit(s: App, outcome: Option<u64>) -> bool {
    s is Uninit && outcome is None
}

/// The state after a window event: only a close request for the owned
/// window changes anything, destroying the application.
pub open spec fn window_event_state(s: App, win: u64, kind: WindowEventKind) -> App {
    if s matches App::Init { win: owned } && win == owned && kind is CloseRequested {
        App::Destroyed
    } else {
        s
    }
}

/// The action a window event asks of the host, in each state.
pub open spec fn window_event_action(s: App, win: u64, kind: WindowEventKind) -> EventAction {
    match s {
        App::Uninit => EventAction::WarnNotInitialized,
        App::Init { win: owned } => if win == owned {
            if kind is CloseRequested {
                EventAction::HideAndExit
            } else {
                EventAction::Ignore
            }
        } else {
            EventAction::WarnUnknownWindow
        },
        App::Destroyed => EventAction::Ignore,
    }
}

/// The state after one event of either kind.
pub open spec fn next_state(s: App, ev: Event) -> App {
    match ev {
        Event::Resumed { outcome } => resume_state(s, outcome),
        Event::Window { win, kind } => window_event_state(s, win, kind),
    }
}

/// The state after a whole sequence of events, delivered in order.
pub open spec fn run_events(s: App, evs: Seq<Event>) -> App
    decreases evs.len(),
{
    if evs.len() == 0 {
        s
    } else {
        run_events(next_state(s, evs[0]), evs.skip(1))
    }
}

/// Law: for every sequence of events delivered before any resume signal,
/// the application remains uninitialized and owns no window.
pub proof fn lemma_uninit_until_resumed(evs: Seq<Event>)
    requires
        forall|i: int| 0 <= i < evs.len() ==> !((#[trigger] evs[i]) is Resumed),
    ensures
        run_events(App::Uninit, evs) == App::Uninit,
        run_events(App::Uninit, evs).owned_window() is None,
    decreases evs.len(),
{
    if evs.len() > 0 {
        assert(next_state(App::Uninit, evs[0]) == App::Uninit);
        assert forall|i: int| 0 <= i < evs.skip(1).len() implies !((#[trigger] evs.skip(1)[i])
            is Resumed) by {
            assert(evs.skip(1)[i] == evs[i + 1]);
        }
        lemma_uninit_until_resumed(evs.skip(1));
    }
}

/// Law: after a successful resume signal, the application is initialized
/// and owns exactly the window that creation returned.
pub proof fn lemma_resume_success(s: App, win: u64)
    requires
        s is Uninit,
    ensures
        resume_state(s, Option::Some(win)) == (App::Init { win }),
        resume_state(s, Option::Some(win)).owned_window() == Option::Some(win),
{
}

/// Law: a close request for the owned window always destroys the
/// application and asks the host to hide it and exit the loop; an event
/// for any other window never changes the state and never asks for exit.
pub proof fn lemma_close_requested(owned: u64, win: u64, kind: WindowEventKind)
    ensures
        win == owned && kind is CloseRequested ==> window_event_state(
            App::Init { win: owned },
            win,
            kind,
        ) == App::Destroyed && window_event_action(App::Init { win: owned }, win, kind)
            == EventAction::HideAndExit,
        win != owned ==> window_event_state(App::Init { win: owned }, win, kind) == (App::Init {
            win: owned,
        }) && window_event_action(App::Init { win: owned }, win, kind) != EventAction::HideAndExit,
{
}

/// Law: once destroyed, no sequence of subsequent events of any kind
/// changes the state.
pub proof fn lemma_destroyed_is_terminal(evs: Seq<Event>)
    ensures
        run_events(App::Destroyed, evs) == App::Destroyed,
    decreases evs.len(),
{
    if evs.len() > 0 {
        lemma_destroyed_is_terminal(evs.skip(1));
    }
}

/// Law: a destroyed application asks nothing of the host: every window
/// event is ignored, so the loop exit is requested at most once over the
/// application's whole life.
pub proof fn lemma_destroyed_silent(win: u64, kind: WindowEventKind)
    ensures
        window_event_action(App::Destroyed, win, kind) == EventAction::Ignore,
{
}

impl App {
    /// A freshly started application: no window yet.
    pub fn new() -> (a: App)
        ensures
            a == App::Uninit,
    {
        App::Uninit
    }

    /// The id of the window the application owns: exactly one in `Init`,
    /// none in any other state.
    pub open spec fn owned_window(self) -> Option<u64> {
        match self {
            App::Init { win } => Option::Some(win),
            _ => Option::None,
        }
    }

    /// The id of the owned window, if any.
    pub fn current_window(&self) -> (w: Option<u64>)
        ensures
            w == self.owned_window(),
    {
        match self {
            App::Init { win } => Some(*win),
            _ => None,
        }
    }

    /// On a resume signal, a window is requested from the host exactly when
    /// no window has been created yet; later resume signals are ignored.
    pub fn wants_window(&self) -> (b: bool)
        ensures
            b <==> *self is Uninit,
    {
        match self {
            App::Uninit => true,
            _ => false,
        }
    }

    /// Record the outcome of the window creation a resume signal triggered:
    /// on success the application owns exactly the window the host created;
    /// on failure it stays uninitialized and the host is asked to stop the
    /// event loop.
    pub fn apply_resume_outcome(&mut self, outcome: Option<u64>) -> (exit: bool)
        requires
            *old(self) is Uninit,
        ensures
            *final(self) == resume_state(*old(self), outcome),
            exit == resume_requests_exit(*old(self), outcome),
            outcome matches Some(win) ==> *final(self) == (App::Init { win }),
            outcome is None ==> *final(self) == *old(self) && exit,
    {
        match outcome {
            Some(win) => {
                *self = App::Init { win };
                false
            },
            None => true,
        }
    }

    /// React to a window event: a close request for the owned window
    /// destroys the application and asks the host to hide the window and
    /// stop the loop; every other event leaves the state unchanged, with a
    /// warning where no window, or a foreign window, is addressed.
    pub fn on_window_event(&mut self, win: u64, kind: WindowEventKind) -> (act: EventAction)
        ensures
            *final(self) == window_event_state(*old(self), win, kind),
            act == window_event_action(*old(self), win, kind),
    {
        match *self {
            App::Uninit => EventAction::WarnNotInitialized,
            App::Init { win: owned } => if win == owned {
                match kind {
                    WindowEventKind::CloseRequested => {
                        *self = App::Destroyed;
                        EventAction::HideAndExit
                    },
                    _ => EventAction::Ignore,
                }
            } else {
                EventAction::WarnUnknownWindow
            },
            App::Destroyed => EventAction::Ignore,
        }
    }
}

} // verus!
