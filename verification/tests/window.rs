use everything_ipc::version_resource::version_walk_stays_in_bounds;
use everything_ipc::pe::{decode_version, FixedFileVersions, PeVersionError, VsVersion};
use everything_ipc::wm::FileInfo;
use everything_ipc::{Handle, IpcWindow, Version, IPC_CLASS_PREFIX, NAMED_IPC_CLASS_PREFIX};

fn utf16(s: &str) -> Vec<u16> {
    s.encode_utf16().collect()
}

fn utf16_z(s: &str) -> Vec<u16> {
    let mut v = utf16(s);
    v.push(0);
    v
}

#[test]
fn new_tries_default_then_named_instance() {
    let named = utf16_z("EVERYTHING_TASKBAR_NOTIFICATION_(1.5a)");
    let find = |c: &[u16]| if c == named.as_slice() { Some(9) } else { None };
    let w = IpcWindow::new(&find).unwrap();
    assert_eq!(w.hwnd(), 9);
    assert_eq!(w.class_name(), "EVERYTHING_TASKBAR_NOTIFICATION_(1.5a)");

    let default = utf16_z(IPC_CLASS_PREFIX);
    let find = |c: &[u16]| if c == default.as_slice() || c == named.as_slice() { Some(4) } else { None };
    let w = IpcWindow::new(&find).unwrap();
    assert_eq!(w.class_name(), IPC_CLASS_PREFIX);

    assert!(IpcWindow::new(&|_: &[u16]| None).is_none());
}

#[test]
fn with_instance_null_handle_not_found() {
    assert!(IpcWindow::with_instance(None, &|_: &[u16]| Some(0)).is_none());
    let w = IpcWindow::with_instance(Some("x"), &|_: &[u16]| Some(-2)).unwrap();
    assert_eq!(w.hwnd(), -2);
    assert_eq!(w.class_name(), "EVERYTHING_TASKBAR_NOTIFICATION_(x)");
}

#[test]
fn window_messages() {
    let w = IpcWindow::from_parts(11, IPC_CLASS_PREFIX.to_string());
    let send = |h: isize, m: u32, wp: usize, lp: isize| -> isize {
        assert_eq!(h, 11);
        assert_eq!(m, 0x400);
        match wp {
            0 => 1,
            1 => 5,
            2 => 0,
            3 => 0x1_0000_057B,
            401 => 1,
            411 => if lp == 2 { 0 } else { 7 },
            _ => -1,
        }
    };
    assert!(w.is_ipc_available(&send));
    assert_eq!(w.get_version(&send), Version::new(1, 5, 0, 0x57B));
    assert!(w.is_db_loaded(&send));
    assert!(!w.is_file_info_indexed(FileInfo::FolderSize, &send));
    assert!(w.is_file_info_indexed(FileInfo::FileSize, &send));
    let old = |_: isize, _: u32, _: usize, _: isize| -> isize { 3 };
    assert!(!w.is_ipc_available(&old));
}

#[test]
fn instance_class_names() {
    assert_eq!(IpcWindow::instance_class_name(None), "EVERYTHING_TASKBAR_NOTIFICATION");
    assert_eq!(
        IpcWindow::instance_class_name(Some("1.5a")),
        "EVERYTHING_TASKBAR_NOTIFICATION_(1.5a)"
    );
    let mut expected = utf16("EVERYTHING_TASKBAR_NOTIFICATION_(1.5a)");
    expected.push(0);
    assert_eq!(IpcWindow::instance_class_name_utf16(Some("1.5a")), expected);
    let mut expected = utf16(IPC_CLASS_PREFIX);
    expected.push(0);
    assert_eq!(IpcWindow::instance_class_name_utf16(None), expected);
}

#[test]
fn window_class_of_named_instance() {
    let class = utf16("EVERYTHING_TASKBAR_NOTIFICATION_(1.5a)");
    let w = IpcWindow::from_window_class(77, &class).unwrap().unwrap();
    assert_eq!(w.hwnd(), 77);
    assert_eq!(w.class_name(), "EVERYTHING_TASKBAR_NOTIFICATION_(1.5a)");
    assert_eq!(w.instance_name(), Some("1.5a"));
}

#[test]
fn window_class_of_default_instance() {
    let w = IpcWindow::from_window_class(1, &utf16(IPC_CLASS_PREFIX)).unwrap().unwrap();
    assert_eq!(w.instance_name(), None);
}

#[test]
fn window_class_of_other_window() {
    assert!(IpcWindow::from_window_class(1, &utf16("Notepad")).unwrap().is_none());
    assert!(IpcWindow::from_window_class(1, &utf16("EVERYTHING")).unwrap().is_none());
    assert!(IpcWindow::from_window_class(1, &[]).unwrap().is_none());
}

#[test]
fn window_class_not_utf16() {
    let mut class = utf16(IPC_CLASS_PREFIX);
    class.push(0xDC00);
    assert!(IpcWindow::from_window_class(1, &class).is_err());
}

#[test]
fn instance_name_from_parts() {
    let w = IpcWindow::from_parts(3, format!("{}x)", NAMED_IPC_CLASS_PREFIX));
    assert_eq!(w.instance_name(), Some("x"));
    let w = IpcWindow::from_parts(3, format!("{}x", NAMED_IPC_CLASS_PREFIX));
    assert_eq!(w.instance_name(), None);
    // A named instance found by `with_instance` gives its name back.
    let find = |c: &[u16]| if c == utf16_z("EVERYTHING_TASKBAR_NOTIFICATION_(1.5a)").as_slice() { Some(8) } else { None };
    let w = IpcWindow::with_instance(Some("1.5a"), &find).unwrap();
    assert_eq!(w.instance_name(), Some("1.5a"));
}

#[test]
fn version_order() {
    assert!(Version::new(1, 4, 1, 1024) < Version::new(1, 5, 0, 1300));
    assert_eq!(Version::new(1, 2, 3, 4), Version { major: 1, minor: 2, revision: 3, build: 4 });
}

fn vs(major: u16, minor: u16, patch: u16, build: u16) -> VsVersion {
    VsVersion { Major: major, Minor: minor, Patch: patch, Build: build }
}

#[test]
fn product_version_preferred() {
    let fixed = FixedFileVersions { file_version: vs(1, 2, 3, 4), product_version: vs(1, 5, 0, 1403) };
    assert_eq!(decode_version(Some(fixed)), (1, 5, 0, 1403));
    assert_eq!(
        Version::from_fixed_file_versions(Some(fixed)).unwrap(),
        Version::new(1, 5, 0, 1403)
    );
}

#[test]
fn file_version_when_product_is_zero() {
    let fixed = FixedFileVersions { file_version: vs(1, 4, 1, 1026), product_version: vs(0, 0, 0, 0) };
    assert_eq!(decode_version(Some(fixed)), (1, 4, 1, 1026));
}

#[test]
fn zero_version_not_found() {
    assert_eq!(decode_version(None), (0, 0, 0, 0));
    assert!(matches!(Version::from_fixed_file_versions(None), Err(PeVersionError::NotFound)));
    let zero = FixedFileVersions { file_version: vs(0, 0, 0, 0), product_version: vs(0, 0, 0, 0) };
    assert!(matches!(Version::from_fixed_file_versions(Some(zero)), Err(PeVersionError::NotFound)));
}

#[test]
fn garbage_image_refused() {
    assert!(matches!(Version::from_image(&[0u8; 16]), Err(PeVersionError::Parse(_))));
    assert!(Version::from_image(&[0u8; 512]).is_err());
}

#[test]
fn handle_value() {
    let h = Handle::new(5);
    assert_eq!(h.get(), 5);
    assert!(!h.is_null());
    assert!(Handle::new(0).is_null());
}

/// The default instance of Everything 1.5.0.1403 with a loaded database, as
/// `FindWindowW` and `SendMessageW` answer for it.
fn everything_find(class_name: &[u16]) -> Option<isize> {
    if class_name == utf16_z(IPC_CLASS_PREFIX).as_slice() {
        Some(0x2004C)
    } else {
        None
    }
}

fn everything_send(hwnd: isize, msg: u32, wparam: usize, _lparam: isize) -> isize {
    if hwnd != 0x2004C || msg != 0x400 {
        return 0;
    }
    match wparam {
        0 => 1,
        1 => 5,
        2 => 0,
        3 => 1403,
        401 => 1,
        411 => 1,
        _ => 0,
    }
}

#[test]
fn ipc_window_find_global() {
    let window = IpcWindow::with_instance(None, &everything_find);
    assert!(window.is_some(), "Should find Everything IPC window");

    let window = window.unwrap();
    let class_name = window.class_name();
    println!("IPC Window class name: {}", class_name);
    // Either exact match or starts with prefix
    assert!(
        class_name == "EVERYTHING_TASKBAR_NOTIFICATION"
            || class_name.starts_with("EVERYTHING_TASKBAR_NOTIFICATION_(")
    );

    let version = window.get_version(&everything_send);
    println!(
        "Everything version: {}.{}.{}.{}",
        version.major, version.minor, version.revision, version.build
    );
}

#[test]
fn get_version() {
    let everything = IpcWindow::new(&everything_find).unwrap();
    let version = everything.get_version(&everything_send);

    assert!(version.major >= 1, "Expected Everything v1+");
    println!(
        "Version: {}.{}.{}.{}",
        version.major, version.minor, version.revision, version.build
    );
}

#[test]
fn is_db_loaded() {
    let everything = IpcWindow::new(&everything_find).unwrap();
    let loaded = everything.is_db_loaded(&everything_send);
    assert!(loaded, "Everything DB should be loaded");
}

#[test]
fn is_file_info_indexed() {
    let everything = IpcWindow::new(&everything_find).unwrap();

    let _ = everything.is_file_info_indexed(FileInfo::FileSize, &everything_send);
    let _ = everything.is_file_info_indexed(FileInfo::FolderSize, &everything_send);
    let _ = everything.is_file_info_indexed(FileInfo::DateCreated, &everything_send);
    let _ = everything.is_file_info_indexed(FileInfo::DateModified, &everything_send);
    let _ = everything.is_file_info_indexed(FileInfo::DateAccessed, &everything_send);
    let _ = everything.is_file_info_indexed(FileInfo::Attributes, &everything_send);
}

fn words_le(words: &[u16]) -> Vec<u8> {
    words.iter().flat_map(|w| w.to_le_bytes()).collect()
}

#[test]
fn version_resource_walk_bounds() {
    // The key's padding reaches past a five-word block.
    assert!(!version_walk_stays_in_bounds(&words_le(&[10, 0, 0, 'a' as u16, 0])));
    // A root block with key "A" and no value or children.
    assert!(version_walk_stays_in_bounds(&words_le(&[16, 0, 0, 'A' as u16, 0, 0, 0, 0])));
    // Too short to be a block: the walk stops.
    assert!(version_walk_stays_in_bounds(&[]));
    // A root block whose one child runs its key padding past its end.
    assert!(!version_walk_stays_in_bounds(&words_le(&[
        26, 0, 0, 'A' as u16, 0, 0, 10, 0, 0, 'b' as u16, 0, 0, 0
    ])));
}

#[test]
fn version_order_by_components() {
    assert!(Version::new(1, 5, 0, 1) > Version::new(1, 4, 9, 9999));
    assert!(Version::new(1, 4, 1, 2) < Version::new(1, 4, 1, 3));
    assert_eq!(Version::new(0, 0, 0, 0), Version::default());
    assert_eq!(
        Version::new(2, 0, 0, 0).partial_cmp(&Version::new(2, 0, 0, 0)),
        Some(std::cmp::Ordering::Equal)
    );
}
