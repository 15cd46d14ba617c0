use everything_ipc::search::normalize_path_ev;

#[test]
fn normalize_path_ev_verbatim_disk() {
    // Verbatim disk path: \\?\C:\foo -> C:\foo
    let path = r"\\?\C:\Windows".as_bytes();
    let result = normalize_path_ev(path);
    assert_eq!(result, r"C:\Windows".as_bytes());
}

#[test]
fn normalize_path_ev_regular_disk() {
    // Regular disk path returns as-is (not verbatim)
    let path = r"C:\Windows".as_bytes();
    let result = normalize_path_ev(path);
    assert_eq!(result, r"C:\Windows".as_bytes());
}

#[test]
fn normalize_path_ev_verbatim_unc() {
    // Verbatim UNC path: \\?\UNC\server\share -> \\server\share
    let path = r"\\?\UNC\server\share".as_bytes();
    let result = normalize_path_ev(path);
    assert_eq!(result, r"\\server\share".as_bytes());
}

#[test]
fn normalize_path_ev_relative() {
    // Relative paths return as-is
    let path = "foo/bar".as_bytes();
    let result = normalize_path_ev(path);
    assert_eq!(result, "foo/bar".as_bytes());
}

#[test]
fn normalize_path_ev_root_only() {
    // Verbatim disk path to root
    let path = r"\\?\C:\".as_bytes();
    let result = normalize_path_ev(path);
    assert_eq!(result, r"C:\".as_bytes());
}

#[test]
fn normalize_path_ev_verbatim_non_disk() {
    // `\\?\cat_pics` loses its prefix too
    let result = normalize_path_ev(r"\\?\cat_pics".as_bytes());
    assert_eq!(result, "cat_pics".as_bytes());
}

#[test]
fn normalize_path_ev_short_inputs() {
    assert_eq!(normalize_path_ev(b""), b"");
    assert_eq!(normalize_path_ev(br"\\?"), br"\\?");
    assert_eq!(normalize_path_ev(br"\\?\"), b"");
    assert_eq!(normalize_path_ev(br"\\?\UN"), b"UN");
    assert_eq!(normalize_path_ev(br"\\?\UNC"), br"\");
}
