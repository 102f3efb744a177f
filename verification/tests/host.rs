use extension_gui::host::{command_display_name, request_outcome, FocusHandleAllocator, HostRequest};
use extension_gui::view::small_int_f32;

#[test]
fn focus_handles_count_up_and_saturate() {
    let mut a = FocusHandleAllocator::new();
    assert_eq!(a.create_focus_handle(), 0);
    assert_eq!(a.create_focus_handle(), 1);
    a.next = u32::MAX;
    assert_eq!(a.create_focus_handle(), u32::MAX);
    assert_eq!(a.create_focus_handle(), u32::MAX);
}

#[test]
fn command_names_in_the_palette() {
    assert_eq!(command_display_name("Git Panel Demo", "Open Git Panel"), "git_panel_demo: Open Git Panel");
    assert_eq!(command_display_name("ÉCOLE X", "go"), "école_x: go");
}

#[test]
fn request_outcomes() {
    assert_eq!(request_outcome(HostRequest::ExecuteCommand, false, true, true, None), Err("Command execution not available".to_string()));
    assert_eq!(request_outcome(HostRequest::Subscribe, true, false, true, None), Err("Pub-sub event channel not available".to_string()));
    assert_eq!(request_outcome(HostRequest::RegisterQueryHandler, true, false, true, None), Err("Query delivery channel not available".to_string()));
    assert_eq!(request_outcome(HostRequest::Publish, true, false, false, None), Err("Failed to send publish request".to_string()));
    assert_eq!(request_outcome(HostRequest::Query, true, true, true, None), Err("Channel closed".to_string()));
    assert_eq!(request_outcome(HostRequest::ExecuteSlashCommand, true, true, true, None), Err("Slash command execution channel closed".to_string()));
    assert_eq!(request_outcome(HostRequest::Query, true, true, true, Some(Ok("[]".to_string()))), Ok("[]".to_string()));
}

#[test]
fn whole_numbers_as_f32_bits() {
    for n in [0u32, 1, 2, 3, 12, 16, 100, 4095, 65_536, 0xFF_FFFF] {
        assert_eq!(small_int_f32(n), (n as f32).to_bits());
    }
}
