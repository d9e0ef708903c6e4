use bgui::events::{activates_widgets, interact_targets, window_event_action};
use bgui::{ElementState, GuiAction, GuiEvent, MouseButton};

#[test]
fn close_requested_exits() {
    assert_eq!(window_event_action(GuiEvent::CloseRequested), GuiAction::Exit);
}

#[test]
fn redraw_updates_then_renders() {
    assert_eq!(window_event_action(GuiEvent::RedrawRequested), GuiAction::UpdateAndRender);
}

#[test]
fn mouse_input_goes_to_widgets() {
    let a = window_event_action(GuiEvent::MouseInput {
        state: ElementState::Released,
        button: MouseButton::Right,
    });
    assert_eq!(
        a,
        GuiAction::Interact { button: MouseButton::Right, state: ElementState::Released }
    );
}

#[test]
fn cursor_and_resize_and_other() {
    assert_eq!(window_event_action(GuiEvent::CursorMoved), GuiAction::TrackCursor);
    assert_eq!(
        window_event_action(GuiEvent::Resized { width: 640, height: 480 }),
        GuiAction::ReconfigureSurface { width: 640, height: 480 }
    );
    assert_eq!(window_event_action(GuiEvent::Other), GuiAction::Ignore);
}

#[test]
fn only_left_release_activates() {
    assert!(activates_widgets(MouseButton::Left, ElementState::Released));
    assert!(!activates_widgets(MouseButton::Left, ElementState::Pressed));
    assert!(!activates_widgets(MouseButton::Right, ElementState::Released));
    assert!(!activates_widgets(MouseButton::Middle, ElementState::Released));
    assert!(!activates_widgets(MouseButton::Back, ElementState::Released));
    assert!(!activates_widgets(MouseButton::Forward, ElementState::Released));
    assert!(!activates_widgets(MouseButton::Other(7), ElementState::Released));
}

#[test]
fn left_release_targets_hit_widgets_in_order() {
    let hits = vec![false, true, true, false, true];
    assert_eq!(
        interact_targets(MouseButton::Left, ElementState::Released, &hits),
        vec![1, 2, 4]
    );
}

#[test]
fn press_targets_nothing() {
    let hits = vec![true, true];
    assert!(interact_targets(MouseButton::Left, ElementState::Pressed, &hits).is_empty());
    assert!(interact_targets(MouseButton::Middle, ElementState::Released, &hits).is_empty());
}

#[test]
fn no_widgets_no_targets() {
    let hits: Vec<bool> = Vec::new();
    assert!(interact_targets(MouseButton::Left, ElementState::Released, &hits).is_empty());
    let misses = vec![false, false, false];
    assert!(interact_targets(MouseButton::Left, ElementState::Released, &misses).is_empty());
}
