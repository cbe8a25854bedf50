//! The decisions of the view's event loop: when the game quits, and whether
//! an event reaches the game while the window has or lacks the focus.
use vstd::prelude::*;

verus! {

/// An event of the game window, as the view's loop tells them apart.
#[derive(Debug, Copy, Clone, PartialEq, Eq, Structural)]
pub enum ViewEvent {
    /// The window was closed.
    Quit,
    /// The application is being terminated.
    AppTerminating,
    /// The window gained the input focus.
    FocusGained,
    /// The window lost the input focus.
    FocusLost,
    /// Any other window event.
    OtherWindow,
    /// Any other event: input for the game.
    Other,
}

/// What the view's loop does with an event.
#[derive(Debug, Copy, Clone, PartialEq, Eq, Structural)]
pub enum ViewAction {
    /// Tell the client to quit and leave the loop.
    Quit,
    /// Show or hide the mouse cursor.
    ShowCursor { visible: bool },
    /// Hand the event to the game's input handling.
    Forward,
    /// Drop the event.
    Ignore,
}

/// The state that the view's loop keeps between events.
#[derive(Debug, Copy, Clone, PartialEq, Eq, Structural)]
pub struct ViewState {
    /// Whether the window has the focus; the cursor is captured only then.
    pub has_focus: bool,
}

/// The state and the action after `event`.
pub open spec fn view_step(s: ViewState, event: ViewEvent) -> (ViewState, ViewAction) {
    match event {
        ViewEvent::Quit => (s, ViewAction::Quit),
        ViewEvent::AppTerminating => (s, ViewAction::Quit),
        ViewEvent::FocusGained => (ViewState { has_focus: true }, ViewAction::ShowCursor { visible: false }),
        ViewEvent::FocusLost => (ViewState { has_focus: false }, ViewAction::ShowCursor { visible: true }),
        ViewEvent::OtherWindow => (s, ViewAction::Ignore),
        ViewEvent::Other => (s, if s.has_focus { ViewAction::Forward } else { ViewAction::Ignore }),
    }
}

/// The state and the actions after the events in turn.
pub open spec fn view_run(s: ViewState, events: Seq<ViewEvent>) -> (ViewState, Seq<ViewAction>)
    decreases events.len(),
{
    if events.len() == 0 {
        (s, Seq::empty())
    } else {
        let (s1, a) = view_step(s, events[0]);
        let (s2, rest) = view_run(s1, events.drop_first());
        (s2, seq![a] + rest)
    }
}

impl ViewState {
    /// The state when the window opens: it has the focus.
    pub fn new() -> (r: ViewState)
        ensures
            r.has_focus,
    {
        ViewState { has_focus: true }
    }

    /// Decides what to do with a window event: quit on a close or a
    /// termination, track the focus and show the cursor only without it,
    /// and hand other events to the game only while the window has the focus.
    pub fn on_event(&mut self, event: ViewEvent) -> (a: ViewAction)
        ensures
            (*final(self), a) == view_step(*old(self), event),
    {
        match event {
            ViewEvent::Quit => ViewAction::Quit,
            ViewEvent::AppTerminating => ViewAction::Quit,
            ViewEvent::FocusGained => {
                self.has_focus = true;
                ViewAction::ShowCursor { visible: false }
            },
            ViewEvent::FocusLost => {
                self.has_focus = false;
                ViewAction::ShowCursor { visible: true }
            },
            ViewEvent::OtherWindow => ViewAction::Ignore,
            ViewEvent::Other => {
                if self.has_focus {
                    ViewAction::Forward
                } else {
                    ViewAction::Ignore
                }
            },
        }
    }
}

/// Running the loop answers each event with one action.
pub proof fn lemma_view_run_len(s: ViewState, events: Seq<ViewEvent>)
    ensures
        view_run(s, events).1.len() == events.len(),
    decreases events.len(),
{
    if events.len() > 0 {
        lemma_view_run_len(view_step(s, events[0]).0, events.drop_first());
    }
}

/// Once the window has lost the focus, no event reaches the game until the
/// window gains it again, and the window stays without it.
pub proof fn lemma_unfocused_forwards_nothing(s: ViewState, events: Seq<ViewEvent>)
    requires
        !s.has_focus,
        forall|i: int| 0 <= i < events.len() ==> events[i] != ViewEvent::FocusGained,
    ensures
        !view_run(s, events).0.has_focus,
        forall|j: int|
            0 <= j < view_run(s, events).1.len() ==> view_run(s, events).1[j] != ViewAction::Forward,
    decreases events.len(),
{
    if events.len() > 0 {
        let (s1, a) = view_step(s, events[0]);
        let tail = events.drop_first();
        assert forall|i: int| 0 <= i < tail.len() implies tail[i] != ViewEvent::FocusGained by {
            assert(tail[i] == events[i + 1]);
        }
        lemma_unfocused_forwards_nothing(s1, tail);
        let rest = view_run(s1, tail).1;
        assert forall|j: int| 0 <= j < view_run(s, events).1.len() implies view_run(
            s,
            events,
        ).1[j] != ViewAction::Forward by {
            if j > 0 {
                assert(view_run(s, events).1[j] == rest[j - 1]);
            }
        }
    }
}

/// While the window keeps the focus, every game event reaches the game, and
/// no other event does.
pub proof fn lemma_focused_forwards_game_events(s: ViewState, events: Seq<ViewEvent>)
    requires
        s.has_focus,
        forall|i: int| 0 <= i < events.len() ==> events[i] != ViewEvent::FocusLost,
    ensures
        view_run(s, events).0.has_focus,
        view_run(s, events).1.len() == events.len(),
        forall|j: int|
            0 <= j < events.len() ==> (view_run(s, events).1[j] == ViewAction::Forward <==> events[j]
                == ViewEvent::Other),
    decreases events.len(),
{
    lemma_view_run_len(s, events);
    if events.len() > 0 {
        let (s1, a) = view_step(s, events[0]);
        let tail = events.drop_first();
        assert forall|i: int| 0 <= i < tail.len() implies tail[i] != ViewEvent::FocusLost by {
            assert(tail[i] == events[i + 1]);
        }
        lemma_focused_forwards_game_events(s1, tail);
        let rest = view_run(s1, tail).1;
        assert forall|j: int| 0 <= j < events.len() implies (view_run(s, events).1[j]
            == ViewAction::Forward <==> events[j] == ViewEvent::Other) by {
            if j > 0 {
                assert(view_run(s, events).1[j] == rest[j - 1]);
                assert(tail[j - 1] == events[j]);
            }
        }
    }
}

/// Only a close or a termination quits; only the focus events change the
/// state and show or hide the cursor (shown exactly when the focus is lost);
/// a game event is forwarded with the focus and dropped without it; other
/// window events are dropped.
pub proof fn lemma_view_step_cases(s: ViewState, event: ViewEvent)
    ensures
        view_step(s, event).1 == ViewAction::Quit <==> (event == ViewEvent::Quit || event
            == ViewEvent::AppTerminating),
        view_step(s, event).1 is ShowCursor <==> (event == ViewEvent::FocusGained || event
            == ViewEvent::FocusLost),
        event == ViewEvent::FocusGained ==> view_step(s, event) == (
            ViewState { has_focus: true },
            ViewAction::ShowCursor { visible: false },
        ),
        event == ViewEvent::FocusLost ==> view_step(s, event) == (
            ViewState { has_focus: false },
            ViewAction::ShowCursor { visible: true },
        ),
        event != ViewEvent::FocusGained && event != ViewEvent::FocusLost ==> view_step(s, event).0
            == s,
        event == ViewEvent::Other && s.has_focus ==> view_step(s, event).1 == ViewAction::Forward,
        event == ViewEvent::Other && !s.has_focus ==> view_step(s, event).1 == ViewAction::Ignore,
        event == ViewEvent::OtherWindow ==> view_step(s, event).1 == ViewAction::Ignore,
        view_step(s, event).1 == ViewAction::Forward <==> (event == ViewEvent::Other && s.has_focus),
{
}

/// Every close or termination event is answered by quitting, with or
/// without the focus.
pub proof fn lemma_quit_always(s: ViewState, event: ViewEvent)
    requires
        event == ViewEvent::Quit || event == ViewEvent::AppTerminating,
    ensures
        view_step(s, event).1 == ViewAction::Quit,
{
}

} // verus!
