//! The decisions of the event loop.
//!
//! The loop itself belongs to the native toolkit. For each event it hands
//! over, `step` says how the loop goes on and what is to be done to the
//! window.

use vstd::prelude::*;
use crate::menu::MenuId;
use crate::window::WindowState;

verus! {

/// Whether the loop waits for the next event or ends. `Exit` is final.
#[derive(Clone, Copy, Debug, PartialEq, Eq, Structural)]
pub enum ControlFlow {
    Wait,
    Exit,
}

/// Where a selected menu item sits.
#[derive(Clone, Copy, Debug, PartialEq, Eq, Structural)]
pub enum MenuOrigin {
    MenuBar,
    ContextMenu,
}

/// An event of the native toolkit, as far as the loop tells events apart.
#[derive(Clone, Copy, Debug, PartialEq, Eq, Structural)]
pub enum Event {
    /// The loop has started.
    Init,
    /// The user asked to close the window.
    CloseRequested,
    /// A menu item was selected.
    MenuSelected { id: MenuId, origin: MenuOrigin },
    /// Any other event.
    Other,
}

/// What is to be done after an event.
#[derive(Clone, Copy, Debug, PartialEq, Eq, Structural)]
pub enum LoopAction {
    /// Nothing.
    Idle,
    /// Note in the diagnostic log that the loop has started.
    LogStart,
    /// Minimize the window.
    MinimizeWindow,
}

/// How the loop goes on after an event: it ends on a request to close, and
/// once ended it stays so.
pub open spec fn next_flow(flow: ControlFlow, event: Event) -> ControlFlow {
    if flow == ControlFlow::Exit || event == Event::CloseRequested {
        ControlFlow::Exit
    } else {
        ControlFlow::Wait
    }
}

/// Whether the event selects, in the menu bar, the item that the menu
/// installed as `close_item`.
pub open spec fn selects_close_item(event: Event, close_item: Option<MenuId>) -> bool {
    match event {
        Event::MenuSelected { id, origin } => origin == MenuOrigin::MenuBar && close_item == Some(
            id,
        ),
        _ => false,
    }
}

/// What is to be done after an event. A loop that has ended does nothing.
pub open spec fn action_on(flow: ControlFlow, event: Event, close_item: Option<MenuId>) -> LoopAction {
    if flow == ControlFlow::Exit {
        LoopAction::Idle
    } else if event == Event::Init {
        LoopAction::LogStart
    } else if selects_close_item(event, close_item) {
        LoopAction::MinimizeWindow
    } else {
        LoopAction::Idle
    }
}

/// Decides one iteration of the loop. `close_item` is the identity of the
/// menu's `CloseWindow` item, `None` on a platform without the menu.
pub fn step(flow: ControlFlow, event: Event, close_item: Option<MenuId>) -> (r: (
    ControlFlow,
    LoopAction,
))
    ensures
        r.0 == next_flow(flow, event),
        r.1 == action_on(flow, event, close_item),
        flow == ControlFlow::Wait ==> (r.0 == ControlFlow::Exit <==> event
            == Event::CloseRequested),
        flow == ControlFlow::Exit ==> r.0 == ControlFlow::Exit,
{
    match flow {
        ControlFlow::Exit => (ControlFlow::Exit, LoopAction::Idle),
        ControlFlow::Wait => match event {
            Event::Init => (ControlFlow::Wait, LoopAction::LogStart),
            Event::CloseRequested => (ControlFlow::Exit, LoopAction::Idle),
            Event::MenuSelected { id, origin } => {
                let hit = match (origin, close_item) {
                    (MenuOrigin::MenuBar, Some(item)) => item.0 == id.0,
                    _ => false,
                };
                if hit {
                    (ControlFlow::Wait, LoopAction::MinimizeWindow)
                } else {
                    (ControlFlow::Wait, LoopAction::Idle)
                }
            },
            Event::Other => (ControlFlow::Wait, LoopAction::Idle),
        },
    }
}

/// The state of the window once an action of the loop is done.
pub open spec fn window_after(state: WindowState, action: LoopAction) -> WindowState {
    match action {
        LoopAction::MinimizeWindow => state.minimized_now(),
        _ => state,
    }
}

/// Records that an action of the loop was done on the window.
pub fn perform(state: &mut WindowState, action: LoopAction)
    ensures
        *final(state) == window_after(*old(state), action),
{
    match action {
        LoopAction::MinimizeWindow => state.minimize(),
        _ => {},
    }
}

/// How the loop stands after a run of events.
pub open spec fn flow_after(flow: ControlFlow, events: Seq<Event>) -> ControlFlow
    decreases events.len(),
{
    if events.len() == 0 {
        flow
    } else {
        next_flow(flow_after(flow, events.drop_last()), events.last())
    }
}

/// A waiting loop ends on a request to close and on no other event.
pub proof fn lemma_only_close_request_exits(event: Event)
    ensures
        next_flow(ControlFlow::Wait, event) == ControlFlow::Exit <==> event
            == Event::CloseRequested,
{
}

/// No event brings an ended loop back to waiting.
pub proof fn lemma_exit_is_final(event: Event)
    ensures
        next_flow(ControlFlow::Exit, event) == ControlFlow::Exit,
{
}

/// After any run of events a loop that started out waiting has ended exactly
/// if one of the events was a request to close.
pub proof fn lemma_run_exits_iff_close_requested(events: Seq<Event>)
    ensures
        flow_after(ControlFlow::Wait, events) == ControlFlow::Exit <==> events.contains(
            Event::CloseRequested,
        ),
    decreases events.len(),
{
    if events.len() > 0 {
        let front = events.drop_last();
        lemma_run_exits_iff_close_requested(front);
        if front.contains(Event::CloseRequested) {
            let i = choose|i: int| 0 <= i < front.len() && front[i] == Event::CloseRequested;
            assert(events[i] == Event::CloseRequested);
        }
        if events.last() == Event::CloseRequested {
            assert(events[events.len() - 1] == Event::CloseRequested);
        }
        if events.contains(Event::CloseRequested) {
            let i = choose|i: int| 0 <= i < events.len() && events[i] == Event::CloseRequested;
            if i < events.len() - 1 {
                assert(front[i] == Event::CloseRequested);
            }
        }
    }
}

/// Selecting the menu's `CloseWindow` item minimizes the window and leaves
/// the loop waiting; the window is not closed.
pub proof fn lemma_close_item_minimizes(id: MenuId, state: WindowState)
    ensures
        next_flow(
            ControlFlow::Wait,
            Event::MenuSelected { id, origin: MenuOrigin::MenuBar },
        ) == ControlFlow::Wait,
        window_after(
            state,
            action_on(
                ControlFlow::Wait,
                Event::MenuSelected { id, origin: MenuOrigin::MenuBar },
                Some(id),
            ),
        ) == state.minimized_now(),
{
}

} // verus!
