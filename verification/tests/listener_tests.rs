use ui_events::IngestQueue;
use ui_events::LinuxListener;
use ui_events::ListenerError;
use ui_events::MacosListener;
use ui_events::PlatformListener;
use ui_events::WindowsListener;
use ui_events::str_eq;

#[test]
fn windows_listener_is_not_implemented() {
    assert_eq!(WindowsListener::new().err(), Some(ListenerError::NotImplemented));
}

#[test]
fn linux_listener_is_not_implemented() {
    assert_eq!(LinuxListener::new().err(), Some(ListenerError::NotImplemented));
    let mut q = IngestQueue::new(4);
    let listener = LinuxListener {};
    assert_eq!(listener.run(&mut q).err(), Some(ListenerError::NotImplemented));
}

#[test]
fn macos_listener_needs_the_accessibility_permission() {
    assert!(MacosListener::new(true).is_ok());
    assert_eq!(MacosListener::new(false).err(), Some(ListenerError::PermissionDenied));
}

#[test]
fn listener_errors_describe_themselves() {
    assert_eq!(
        ListenerError::NotImplemented.message(),
        "listener not implemented for this platform"
    );
    assert_eq!(
        ListenerError::PermissionDenied.message(),
        "accessibility permissions not granted by user"
    );
}

#[test]
fn str_eq_agrees_with_equality() {
    assert!(str_eq("AXWindow", "AXWindow"));
    assert!(!str_eq("AXWindow", "AXWindows"));
    assert!(!str_eq("AXWindow", "AXwindow"));
    assert!(str_eq("", ""));
}
