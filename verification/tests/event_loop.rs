use page_shell::event_loop::{perform, step, ControlFlow, Event, LoopAction, MenuOrigin};
use page_shell::menu::MenuId;
use page_shell::window::WindowState;

fn state() -> WindowState {
    WindowState {
        width_bits: 800.0f64.to_bits(),
        height_bits: 600.0f64.to_bits(),
        resizable: true,
        fullscreen: false,
        minimized: false,
    }
}

fn other_events() -> Vec<Event> {
    vec![
        Event::Init,
        Event::Other,
        Event::MenuSelected { id: MenuId(7), origin: MenuOrigin::MenuBar },
        Event::MenuSelected { id: MenuId(8), origin: MenuOrigin::MenuBar },
        Event::MenuSelected { id: MenuId(7), origin: MenuOrigin::ContextMenu },
    ]
}

#[test]
fn close_request_ends_the_loop() {
    for close_item in [None, Some(MenuId(7))] {
        assert_eq!(
            step(ControlFlow::Wait, Event::CloseRequested, close_item),
            (ControlFlow::Exit, LoopAction::Idle)
        );
    }
}

#[test]
fn no_other_event_ends_the_loop() {
    for event in other_events() {
        for close_item in [None, Some(MenuId(7))] {
            assert_eq!(step(ControlFlow::Wait, event, close_item).0, ControlFlow::Wait);
        }
    }
}

#[test]
fn an_ended_loop_stays_ended_and_idle() {
    let mut events = other_events();
    events.push(Event::CloseRequested);
    for event in events {
        assert_eq!(
            step(ControlFlow::Exit, event, Some(MenuId(7))),
            (ControlFlow::Exit, LoopAction::Idle)
        );
    }
}

#[test]
fn init_is_logged() {
    assert_eq!(step(ControlFlow::Wait, Event::Init, None), (ControlFlow::Wait, LoopAction::LogStart));
}

#[test]
fn close_item_minimizes_the_window() {
    let event = Event::MenuSelected { id: MenuId(7), origin: MenuOrigin::MenuBar };
    let (flow, action) = step(ControlFlow::Wait, event, Some(MenuId(7)));
    assert_eq!(flow, ControlFlow::Wait);
    assert_eq!(action, LoopAction::MinimizeWindow);
    let mut window = state();
    perform(&mut window, action);
    assert!(window.minimized);
    window.minimized = false;
    assert_eq!(window, state());
}

#[test]
fn other_menu_selections_do_nothing() {
    let bar = Event::MenuSelected { id: MenuId(8), origin: MenuOrigin::MenuBar };
    assert_eq!(step(ControlFlow::Wait, bar, Some(MenuId(7))), (ControlFlow::Wait, LoopAction::Idle));
    let context = Event::MenuSelected { id: MenuId(7), origin: MenuOrigin::ContextMenu };
    assert_eq!(step(ControlFlow::Wait, context, Some(MenuId(7))), (ControlFlow::Wait, LoopAction::Idle));
    let unbound = Event::MenuSelected { id: MenuId(7), origin: MenuOrigin::MenuBar };
    assert_eq!(step(ControlFlow::Wait, unbound, None), (ControlFlow::Wait, LoopAction::Idle));
}

#[test]
fn idle_and_log_leave_the_window_alone() {
    let mut window = state();
    perform(&mut window, LoopAction::Idle);
    perform(&mut window, LoopAction::LogStart);
    assert_eq!(window, state());
}

#[test]
fn a_run_ends_at_the_first_close_request() {
    let events = vec![
        Event::Init,
        Event::Other,
        Event::MenuSelected { id: MenuId(7), origin: MenuOrigin::MenuBar },
        Event::CloseRequested,
        Event::Other,
    ];
    let mut flow = ControlFlow::Wait;
    let mut flows: Vec<ControlFlow> = Vec::new();
    for event in events {
        flow = step(flow, event, Some(MenuId(7))).0;
        flows.push(flow);
    }
    assert_eq!(
        flows,
        vec![ControlFlow::Wait, ControlFlow::Wait, ControlFlow::Wait, ControlFlow::Exit, ControlFlow::Exit]
    );
}
