use wapps::frame::HostInterface;
use wapps::sandbox::{
    call_result, guest_policy, resolve_entry_points, route_event, CallOutcome, EntryPoint, EntryTable, GuestCall,
    GuestError, InputEvent, LoopAction, PointerButton, SandboxError,
};

fn update_only() -> EntryTable {
    EntryTable {
        update: true,
        on_resize: false,
        on_pointer_move: false,
        on_pointer_down: false,
        on_pointer_up: false,
        on_key_down: false,
        on_key_up: false,
    }
}

#[test]
fn update_alone_starts() {
    let t = resolve_entry_points(true, update_only()).unwrap();
    assert!(t.is_present(EntryPoint::Update));
    assert!(!t.is_present(EntryPoint::OnResize));
    assert!(!t.is_present(EntryPoint::OnKeyUp));
}

#[test]
fn missing_update_is_refused() {
    let t = EntryTable { update: false, on_resize: true, ..update_only() };
    assert_eq!(resolve_entry_points(true, t), Err(SandboxError::MissingRequiredExport));
}

#[test]
fn missing_memory_is_refused_first() {
    let t = EntryTable { update: false, ..update_only() };
    assert_eq!(resolve_entry_points(false, t), Err(SandboxError::MissingMemoryExport));
    assert_eq!(resolve_entry_points(false, update_only()), Err(SandboxError::MissingMemoryExport));
}

#[test]
fn update_call_with_no_frame() {
    let t = resolve_entry_points(true, update_only()).unwrap();
    assert!(t.is_present(EntryPoint::Update));
    assert_eq!(call_result(EntryPoint::Update, CallOutcome::Completed), Ok(()));
    let mut h = HostInterface::new();
    assert!(h.borrow_frame().is_none());
}

#[test]
fn failed_calls_are_tagged() {
    assert_eq!(call_result(EntryPoint::OnResize, CallOutcome::Trapped), Err(GuestError::Trap(EntryPoint::OnResize)));
    assert_eq!(call_result(EntryPoint::Update, CallOutcome::TimedOut), Err(GuestError::Timeout(EntryPoint::Update)));
}

#[test]
fn entry_point_names() {
    assert_eq!(EntryPoint::Update.name(), "update");
    assert_eq!(EntryPoint::OnResize.name(), "on_resize");
    assert_eq!(EntryPoint::OnPointerMove.name(), "on_pointer_move");
    assert_eq!(EntryPoint::OnPointerDown.name(), "on_pointer_down");
    assert_eq!(EntryPoint::OnPointerUp.name(), "on_pointer_up");
    assert_eq!(EntryPoint::OnKeyDown.name(), "on_key_down");
    assert_eq!(EntryPoint::OnKeyUp.name(), "on_key_up");
}

#[test]
fn button_codes() {
    assert_eq!(PointerButton::Primary.code(), 1);
    assert_eq!(PointerButton::Middle.code(), 2);
    assert_eq!(PointerButton::Secondary.code(), 3);
    assert_eq!(PointerButton::Other.code(), 0);
}

#[test]
fn events_are_routed() {
    assert_eq!(route_event(InputEvent::Quit), LoopAction::Quit);
    assert_eq!(route_event(InputEvent::Other), LoopAction::Ignore);
    assert_eq!(route_event(InputEvent::Resized(640, 480)), LoopAction::Call(GuestCall::Resize(640, 480)));
    assert_eq!(
        route_event(InputEvent::PointerPressed(3, 4, PointerButton::Secondary)),
        LoopAction::Call(GuestCall::PointerDown(3, 4, 3))
    );
    assert_eq!(
        route_event(InputEvent::PointerReleased(3, 4, PointerButton::Primary)),
        LoopAction::Call(GuestCall::PointerUp(3, 4, 1))
    );
    assert_eq!(route_event(InputEvent::PointerMoved(-1, 2)), LoopAction::Call(GuestCall::PointerMove(-1, 2)));
    assert_eq!(route_event(InputEvent::KeyPressed(4)), LoopAction::Call(GuestCall::KeyDown(4)));
    assert_eq!(route_event(InputEvent::KeyReleased(4)), LoopAction::Call(GuestCall::KeyUp(4)));
    assert_eq!(GuestCall::KeyUp(4).entry(), EntryPoint::OnKeyUp);
    assert_eq!(GuestCall::PointerDown(0, 0, 1).entry(), EntryPoint::OnPointerDown);
}

#[test]
fn policy_denies_files_network_environment() {
    let p = guest_policy();
    assert!(p.inherit_stdout && p.inherit_stderr && p.clock && p.random);
    assert!(!p.filesystem && !p.network && !p.environment);
}
