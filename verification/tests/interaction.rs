use gpu_widgets::node_editor::{node_title, PinType};
use gpu_widgets::run::{after_acquire_failure, handle_event, AcquireRecovery, LoopAction, LoopEvent, SurfaceSize};
use gpu_widgets::state::resize_surface;
use gpu_widgets::ui::cycle_choice;

#[test]
fn choice_button_alternates() {
    assert_eq!(cycle_choice(0), 1);
    assert_eq!(cycle_choice(1), 0);
    assert_eq!(cycle_choice(cycle_choice(0)), 0);
}

#[test]
fn new_node_titles_count_from_one() {
    assert_eq!(node_title(0), "New Node 1");
    assert_eq!(node_title(9), "New Node 10");
    assert_eq!(node_title(123), "New Node 124");
    assert_eq!(node_title(usize::MAX - 1), format!("New Node {}", usize::MAX));
}

#[test]
fn pin_type_is_integer() {
    assert_eq!(PinType::Integer, PinType::Integer);
}

#[test]
fn event_loop_reactions() {
    let mut size = SurfaceSize { width: 800, height: 600 };
    let resized = SurfaceSize { width: 1024, height: 0 };
    assert_eq!(handle_event(&mut size, LoopEvent::Resized(resized)), LoopAction::Reconfigure);
    assert_eq!(size, resized);
    assert_eq!(handle_event(&mut size, LoopEvent::CloseRequested), LoopAction::Exit);
    assert_eq!(handle_event(&mut size, LoopEvent::RedrawRequested), LoopAction::Render);
    assert_eq!(handle_event(&mut size, LoopEvent::AboutToWait), LoopAction::UpdateAndRequestRedraw);
    assert_eq!(handle_event(&mut size, LoopEvent::Other), LoopAction::Ignore);
    assert_eq!(size, resized);
}

#[test]
fn acquire_failure_is_retried_once() {
    assert_eq!(after_acquire_failure(1), AcquireRecovery::ReconfigureAndRetry);
    assert_eq!(after_acquire_failure(2), AcquireRecovery::GiveUp);
}

#[test]
fn resize_ignores_minimized_windows() {
    let mut config = SurfaceSize { width: 640, height: 480 };
    assert!(!resize_surface(&mut config, SurfaceSize { width: 0, height: 300 }));
    assert_eq!(config, SurfaceSize { width: 640, height: 480 });
    assert!(!resize_surface(&mut config, SurfaceSize { width: 300, height: 0 }));
    assert!(resize_surface(&mut config, SurfaceSize { width: 300, height: 200 }));
    assert_eq!(config, SurfaceSize { width: 300, height: 200 });
}
