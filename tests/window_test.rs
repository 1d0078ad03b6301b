use xcap::active_app::{app_name_or_unknown, display_serial_or_unknown, ActiveAppInfo};
use xcap::error::XCapError;
use xcap::geometry::{display_for_rect, is_on_display, DisplayRecord, Rect};
use xcap::monitor::{Monitor, MonitorIdentity};
use xcap::window::{get_window_cf_dictionary, get_window_id, ImplMonitor, ImplWindow, WindowRecord};

fn rect(x: i32, y: i32, width: u32, height: u32) -> Rect {
    Rect { x, y, width, height }
}

fn record(number: i32, name: &str, owner: &str, pid: i32, sharing: i32, bounds: Option<Rect>, onscreen: bool) -> WindowRecord {
    WindowRecord {
        number: Some(number),
        name: Some(name.to_string()),
        owner_name: Some(owner.to_string()),
        owner_pid: Some(pid),
        sharing_state: Some(sharing),
        bounds,
        is_onscreen: Some(onscreen),
    }
}

fn windows() -> Vec<WindowRecord> {
    vec![
        record(5, "StatusIndicator", "Window Server", 1, 1, Some(rect(0, 0, 10, 10)), true),
        record(10, "Doc", "Editor", 42, 1, Some(rect(100, 100, 800, 600)), true),
        record(11, "Secret", "Vault", 43, 0, Some(rect(0, 0, 50, 50)), true),
        record(12, "Full", "Editor", 42, 1, Some(rect(2000, 0, 1920, 1080)), false),
        record(20, "NoBounds", "Tool", 44, 1, None, true),
    ]
}

fn displays() -> Vec<DisplayRecord> {
    vec![
        DisplayRecord { id: 1, bounds: rect(0, 0, 1920, 1080) },
        DisplayRecord { id: 2, bounds: rect(1920, 0, 1920, 1080) },
    ]
}

#[test]
fn window_ids_skip_status_indicator_and_unshared() {
    let w = windows();
    assert_eq!(get_window_id(&w[0]), Err(XCapError::StatusIndicatorWindow));
    assert_eq!(get_window_id(&w[1]), Ok(10));
    assert_eq!(get_window_id(&w[2]), Err(XCapError::WindowNotShared));
    let mut missing = record(30, "A", "B", 1, 1, None, true);
    missing.sharing_state = None;
    assert_eq!(get_window_id(&missing), Err(XCapError::MissingWindowField));
    let ids: Vec<u32> = ImplWindow::all(&w).iter().map(|x| x.window_id).collect();
    assert_eq!(ids, vec![10, 12, 20]);
}

#[test]
fn window_lookup() {
    let w = windows();
    assert_eq!(get_window_cf_dictionary(12, &w), Ok(3));
    assert_eq!(get_window_cf_dictionary(11, &w), Err(XCapError::WindowNotFound));
}

#[test]
fn window_fields() {
    let w = windows();
    let win = ImplWindow::new(10);
    assert_eq!(win.id(), Ok(10));
    assert_eq!(win.pid(&w), Ok(42));
    assert_eq!(win.app_name(&w), Ok("Editor".to_string()));
    assert_eq!(win.title(&w), Ok("Doc".to_string()));
    assert_eq!(win.x(&w), Ok(100));
    assert_eq!(win.y(&w), Ok(100));
    assert_eq!(win.width(&w), Ok(800));
    assert_eq!(win.height(&w), Ok(600));
    assert_eq!(win.z(&w), 3);
    assert_eq!(ImplWindow::new(99).z(&w), 0);
}

#[test]
fn window_errors() {
    let w = windows();
    assert_eq!(ImplWindow::new(11).pid(&w), Err(XCapError::WindowNotFound));
    assert_eq!(ImplWindow::new(20).x(&w), Err(XCapError::MissingWindowField));
}

#[test]
fn window_monitor_and_state() {
    let w = windows();
    let d = displays();
    let main = d[0];
    assert_eq!(ImplWindow::new(10).current_monitor(&w, &d, &main), Ok(ImplMonitor::new(1)));
    assert_eq!(ImplWindow::new(12).current_monitor(&w, &d, &main), Ok(ImplMonitor::new(2)));
    assert_eq!(ImplWindow::new(12).is_maximized(&w, &d, &main), Ok(true));
    assert_eq!(ImplWindow::new(10).is_maximized(&w, &d, &main), Ok(false));
    assert_eq!(ImplWindow::new(12).is_minimized(&w, &d, &main), Ok(false));
    assert_eq!(ImplWindow::new(10).is_minimized(&w, &d, &main), Ok(false));
    let mut hidden = windows();
    hidden[1].is_onscreen = Some(false);
    assert_eq!(ImplWindow::new(10).is_minimized(&hidden, &d, &main), Ok(true));
}

#[test]
fn window_focus() {
    let w = windows();
    assert!(ImplWindow::new(10).is_focused(&w, Some(42)));
    assert!(!ImplWindow::new(10).is_focused(&w, Some(7)));
    assert!(!ImplWindow::new(10).is_focused(&w, None));
}

#[test]
fn window_capture_target() {
    let w = windows();
    let t = ImplWindow::new(12).capture_target(&w).unwrap();
    assert_eq!(t.rect, rect(2000, 0, 1920, 1080));
    assert_eq!(t.window_id, 12);
    assert_eq!(t.display_id, None);
    assert_eq!(ImplWindow::new(20).capture_target(&w), Err(XCapError::MissingWindowField));
}

#[test]
fn centre_and_overlap_rules() {
    let d = rect(0, 0, 100, 100);
    assert!(is_on_display(&d, &rect(40, 40, 10, 10)));
    assert!(is_on_display(&d, &rect(90, 90, 40, 40)));
    assert!(!is_on_display(&d, &rect(100, 0, 10, 10)));
    assert!(!is_on_display(&d, &rect(-10, -10, 10, 10)));
    let main = DisplayRecord { id: 7, bounds: rect(0, 0, 1, 1) };
    assert_eq!(display_for_rect(&displays(), &main, &rect(5000, 5000, 10, 10)).id, 7);
}

#[test]
fn display_of_application() {
    let w = windows();
    let d = displays();
    assert_eq!(ImplWindow::display_for_pid(42, &w, &d, &d[0]).id, 1);
    assert_eq!(ImplWindow::display_for_pid(99, &w, &d, &d[1]).id, 2);
    assert_eq!(ImplWindow::display_for_pid(44, &w, &d, &d[1]).id, 2);
    assert_eq!(ImplWindow::display_serial_or_id(Ok("SN".to_string()), 7), "SN");
    assert_eq!(ImplWindow::display_serial_or_id(Err(XCapError::SerialUnavailable), 7), "7");
}

#[test]
fn active_app_snapshot() {
    let mut info = ActiveAppInfo::new("Finder".to_string(), 10, "SN1".to_string());
    assert_eq!(
        ImplWindow::get_active_info(Some(&info)),
        Ok(("Finder".to_string(), 10, "SN1".to_string()))
    );
    info.on_activation(Ok(("Editor".to_string(), 42)), Err(XCapError::SerialUnavailable));
    assert_eq!(info.read(), ("Editor".to_string(), 42, "Unknown".to_string()));
    info.on_activation(Err(XCapError::Native("no app".to_string())), Ok("X".to_string()));
    assert_eq!(info.read(), ("Editor".to_string(), 42, "Unknown".to_string()));
    info.update("Mail".to_string(), 7, "SN2".to_string());
    assert_eq!(info.read(), ("Mail".to_string(), 7, "SN2".to_string()));
    assert_eq!(ImplWindow::get_active_info(None), Err(XCapError::StatePoisoned));
}

#[test]
fn active_app_reads_see_whole_snapshots() {
    let mut info = ActiveAppInfo::new("A".to_string(), 1, "S1".to_string());
    let before = info.read();
    info.update("B".to_string(), 2, "S2".to_string());
    let after = info.read();
    assert_eq!(before, ("A".to_string(), 1, "S1".to_string()));
    assert_eq!(after, ("B".to_string(), 2, "S2".to_string()));
}

#[test]
fn unknown_fallbacks() {
    assert_eq!(app_name_or_unknown(None), "Unknown");
    assert_eq!(app_name_or_unknown(Some("Term".to_string())), "Term");
    assert_eq!(display_serial_or_unknown(Err(XCapError::Timeout)), "Unknown");
}

fn identity(id: u32, serial: Option<&str>, uuid: Option<&str>) -> MonitorIdentity {
    MonitorIdentity { id, serial: serial.map(|s| s.to_string()), uuid: uuid.map(|s| s.to_string()) }
}

#[test]
fn monitor_unique_key_and_lookup() {
    assert_eq!(Monitor::unique_key(&identity(3, Some("SN"), Some("U"))), "SN");
    assert_eq!(Monitor::unique_key(&identity(3, Some(""), Some("U"))), "U");
    assert_eq!(Monitor::unique_key(&identity(3, None, None)), "3");
    let ms = vec![identity(1, Some(""), Some("U1")), identity(2, Some("SN2"), None), identity(30, None, None)];
    assert_eq!(Monitor::from_unique_key(&"SN2".to_string(), &ms).unwrap().id(), Ok(2));
    assert_eq!(Monitor::from_unique_key(&"U1".to_string(), &ms).unwrap().id(), Ok(1));
    assert_eq!(Monitor::from_unique_key(&"30".to_string(), &ms).unwrap().id(), Ok(30));
    assert_eq!(Monitor::from_unique_key(&"".to_string(), &ms), Err(XCapError::DisplayNotFound));
}

#[test]
fn monitor_name_default() {
    assert_eq!(ImplMonitor::new(5).name(None), "Unknown Monitor 5");
    assert_eq!(ImplMonitor::new(5).name(Some("Studio".to_string())), "Studio");
}
