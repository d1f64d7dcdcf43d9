use command_launcher::endpoint::{create_tray_endpoints, TrayCmd, TrayEvent};
use command_launcher::task_tray::{TaskTray, TrayCommand};

#[test]
fn menu_mapping_round_trip() {
    let (endpoint, handle) = create_tray_endpoints();
    let mut tray = TaskTray::new(endpoint, 1, 2);

    // the "show" item yields exactly one ShowWindow event, never a Quit
    assert_eq!(tray.map_selection(1), Some(TrayCommand::Show));
    assert_eq!(tray.handle_selection(1), Some(TrayEvent::ShowWindow));
    assert_eq!(handle.rx.try_recv().unwrap(), TrayEvent::ShowWindow);
    assert!(handle.rx.try_recv().is_err());

    // and the "quit" item exactly one Quit, never a ShowWindow
    assert_eq!(tray.map_selection(2), Some(TrayCommand::Quit));
    assert_eq!(tray.handle_selection(2), Some(TrayEvent::Quit));
    assert_eq!(handle.rx.try_recv().unwrap(), TrayEvent::Quit);
    assert!(handle.rx.try_recv().is_err());

    // an unknown item yields nothing
    assert_eq!(tray.map_selection(3), None);
    assert_eq!(tray.handle_selection(3), None);
    assert!(handle.rx.try_recv().is_err());
}

#[test]
fn tray_leaves_its_loop_on_finish() {
    let (endpoint, handle) = create_tray_endpoints();
    let mut tray = TaskTray::new(endpoint, 1, 2);

    assert!(!tray.poll_command());
    handle.tx.send(TrayCmd::Finish).unwrap();
    assert!(tray.poll_command());
    assert!(tray.finished);
}

#[test]
fn tray_remembers_the_window_handle() {
    let (endpoint, _handle) = create_tray_endpoints();
    let mut tray = TaskTray::new(endpoint, 1, 2);
    assert_eq!(tray.hwnd, None);
    tray.set_hwnd(42);
    assert_eq!(tray.hwnd, Some(42));
}
