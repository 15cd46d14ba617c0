use everything_ipc::folder::size::{
    listing_entries, FolderSizeAction, FolderSizeClient, FolderSizeError, FolderSizeEvent,
    FolderSizeRequest, PathName,
};
use everything_ipc::wm::{IpcError, QueryList};

/// A folder listing reply with a file name and a size for each entry.
fn listing(entries: &[(&str, u64)]) -> QueryList {
    let n = entries.len() as u32;
    let mut header = Vec::new();
    for v in [n, n, 0, 0x11, 1] {
        header.extend_from_slice(&v.to_le_bytes());
    }
    let mut data = Vec::new();
    let mut offsets = Vec::new();
    let base = 20 + 8 * entries.len();
    for (name, size) in entries {
        offsets.push((base + data.len()) as u32);
        let units: Vec<u16> = name.encode_utf16().collect();
        data.extend_from_slice(&(units.len() as u32).to_le_bytes());
        for u in units {
            data.extend_from_slice(&u.to_le_bytes());
        }
        data.extend_from_slice(&0u16.to_le_bytes());
        data.extend_from_slice(&size.to_le_bytes());
    }
    for at in offsets {
        header.extend_from_slice(&0x11u32.to_le_bytes());
        header.extend_from_slice(&at.to_le_bytes());
    }
    header.extend_from_slice(&data);
    QueryList::new(9, header.into_boxed_slice())
}

fn root_listing() -> QueryList {
    listing(&[("Windows", 100), ("Users", 200), ("Documents and Settings", 0), ("Empty", 0)])
}

/// A Windows path with its components: the drive, the root, then each name.
fn pn(display: &str) -> PathName {
    let mut components = Vec::new();
    let mut rest = display;
    if rest.len() >= 2 && rest.as_bytes()[1] == b':' {
        components.push(rest[..2].to_string());
        rest = &rest[2..];
    }
    if rest.starts_with('\\') || rest.starts_with('/') {
        components.push("\\".to_string());
    }
    for part in rest.split(|c| c == '\\' || c == '/').filter(|p| !p.is_empty()) {
        components.push(part.to_string());
    }
    PathName { display: display.to_string(), components }
}

fn request(parent: &str, name: &str, eager: bool, want_max: bool) -> FolderSizeRequest {
    let path = format!(r"{}\{}", parent.trim_end_matches('\\'), name);
    FolderSizeRequest {
        path_len: path.len(),
        path: pn(&path),
        parent: Some(pn(parent)),
        file_name: Some(name.to_string()),
        eager_get_links: eager,
        want_parent_max: want_max,
    }
}

fn expect_done(a: FolderSizeAction) -> (Result<u64, FolderSizeError>, Option<u64>) {
    match a {
        FolderSizeAction::Done(r, m) => (r, m),
        _ => panic!("lookup not done"),
    }
}

/// Starts a lookup in the root folder and answers the connection.
fn connect(client: &mut FolderSizeClient, req: FolderSizeRequest) -> FolderSizeAction {
    assert!(matches!(client.step(FolderSizeEvent::Lookup(req)), FolderSizeAction::Connect));
    client.step(FolderSizeEvent::Connected(Ok(())))
}

#[test]
fn listing_entries_in_order() {
    let list = listing(&[("a", 1), ("bé", 2)]);
    assert_eq!(listing_entries(&list), vec![("a".to_string(), 1), ("bé".to_string(), 2)]);
}

#[test]
fn drive_root_asks_disk() {
    let mut client = FolderSizeClient::new();
    let req = FolderSizeRequest {
        path: pn(r"C:\"),
        path_len: 3,
        parent: None,
        file_name: None,
        eager_get_links: false,
        want_parent_max: false,
    };
    assert!(matches!(client.step(FolderSizeEvent::Lookup(req)), FolderSizeAction::QueryDiskSpace));
    let (r, m) = expect_done(client.step(FolderSizeEvent::DiskSpace(Some(5000))));
    assert_eq!(r.unwrap(), 5000);
    assert_eq!(m, None);
}

#[test]
fn drive_root_disk_failure() {
    let mut client = FolderSizeClient::new();
    let req = FolderSizeRequest {
        path: pn(r"C:\"),
        path_len: 3,
        parent: None,
        file_name: None,
        eager_get_links: false,
        want_parent_max: false,
    };
    client.step(FolderSizeEvent::Lookup(req));
    let (r, _) = expect_done(client.step(FolderSizeEvent::DiskSpace(None)));
    assert!(matches!(r, Err(FolderSizeError::RelativePath)));
}

#[test]
fn relative_paths_refused() {
    let mut client = FolderSizeClient::new();
    let req = FolderSizeRequest {
        path: pn("foo"),
        path_len: 3,
        parent: Some(pn("")),
        file_name: Some("foo".to_string()),
        eager_get_links: false,
        want_parent_max: false,
    };
    let (r, _) = expect_done(client.step(FolderSizeEvent::Lookup(req)));
    assert!(matches!(r, Err(FolderSizeError::RelativePath)));
    let req = FolderSizeRequest {
        path: pn("ab"),
        path_len: 2,
        parent: None,
        file_name: None,
        eager_get_links: false,
        want_parent_max: false,
    };
    let (r, _) = expect_done(client.step(FolderSizeEvent::Lookup(req)));
    assert!(matches!(r, Err(FolderSizeError::RelativePath)));
}

#[test]
fn sibling_lookup_uses_cache_and_shares_max() {
    let mut client = FolderSizeClient::new();
    let a = connect(&mut client, request(r"C:\", "Windows", false, true));
    match a {
        FolderSizeAction::QueryFolder(s) => assert_eq!(s, r#"folder:infolder:"C:\""#),
        _ => panic!("expected a folder query"),
    }
    let (r, m) = expect_done(client.step(FolderSizeEvent::Listed(Ok(root_listing()))));
    assert_eq!(r.unwrap(), 100);
    assert_eq!(m, Some(200));

    // Same parent: answered from the cache, with the same largest size.
    let (r, m2) = expect_done(connect(&mut client, request(r"C:\", "Users", false, true)));
    assert_eq!(r.unwrap(), 200);
    assert_eq!(m2, m);

    let (r, m) = expect_done(connect(&mut client, request(r"C:\", "Missing", false, false)));
    assert!(matches!(r, Err(FolderSizeError::NotFound)));
    assert_eq!(m, None);
}

#[test]
fn zero_size_resolves_path() {
    let mut client = FolderSizeClient::new();
    let req = request(r"C:\", "Documents and Settings", false, false);
    assert!(matches!(
        connect(&mut client, req),
        FolderSizeAction::QueryFolder(_)
    ));
    assert!(matches!(
        client.step(FolderSizeEvent::Listed(Ok(root_listing()))),
        FolderSizeAction::ResolvePath
    ));
    match client.step(FolderSizeEvent::PathResolved(Ok(pn(r"C:\Users")))) {
        FolderSizeAction::QueryPathSize(p) => assert_eq!(p, r"C:\Users"),
        _ => panic!("expected a path size query"),
    }
    let (r, _) = expect_done(client.step(FolderSizeEvent::PathSize(Ok(200))));
    assert_eq!(r.unwrap(), 200);

    // The resolved size is cached.
    let (r1, _) = expect_done(connect(
        &mut client,
        request(r"C:\", "Documents and Settings", false, false),
    ));
    assert_eq!(r1.unwrap(), 200);
}

#[test]
fn zero_size_that_resolves_to_itself_is_empty() {
    let mut client = FolderSizeClient::new();
    connect(&mut client, request(r"C:\", "Empty", false, false));
    assert!(matches!(
        client.step(FolderSizeEvent::Listed(Ok(root_listing()))),
        FolderSizeAction::ResolvePath
    ));
    let (r, _) = expect_done(client.step(FolderSizeEvent::PathResolved(Ok(pn(r"C:/Empty")))));
    assert_eq!(r.unwrap(), 0);
}

#[test]
fn eager_links_resolved_while_listing() {
    let mut client = FolderSizeClient::new();
    connect(&mut client, request(r"C:\", "Documents and Settings", true, true));
    match client.step(FolderSizeEvent::Listed(Ok(root_listing()))) {
        FolderSizeAction::ResolveLink(name) => assert_eq!(name, "Documents and Settings"),
        _ => panic!("expected a link resolution"),
    }
    match client.step(FolderSizeEvent::LinkResolved(Some((
        pn(r"C:\Documents and Settings"),
        pn(r"C:\Users"),
    )))) {
        FolderSizeAction::QueryLinkSize(p) => assert_eq!(p, r"C:\Users"),
        _ => panic!("expected a link size query"),
    }
    match client.step(FolderSizeEvent::LinkSize(Some(200))) {
        FolderSizeAction::ResolveLink(name) => assert_eq!(name, "Empty"),
        _ => panic!("expected a link resolution"),
    }
    let (r, m) = expect_done(client.step(FolderSizeEvent::LinkResolved(Some((
        pn(r"C:\Empty"),
        pn(r"C:/Empty"),
    )))));
    assert_eq!(r.unwrap(), 200);
    assert_eq!(m, Some(200));

    let (r, _) = expect_done(connect(&mut client, request(r"C:\", "Empty", true, false)));
    assert_eq!(r.unwrap(), 0);
}

#[test]
fn ipc_failures_are_reported() {
    let mut client = FolderSizeClient::new();
    client.step(FolderSizeEvent::Lookup(request(r"C:\", "Windows", false, false)));
    let (r, _) = expect_done(client.step(FolderSizeEvent::Connected(Err(IpcError::NoIpcWindow))));
    assert!(matches!(r, Err(FolderSizeError::Ipc(IpcError::NoIpcWindow))));

    connect(&mut client, request(r"C:\", "Windows", false, false));
    let (r, _) = expect_done(client.step(FolderSizeEvent::Listed(Err(IpcError::Timeout))));
    assert!(matches!(r, Err(FolderSizeError::Ipc(IpcError::Timeout))));

    // The failed listing leaves nothing cached for that parent: it is listed again.
    match connect(&mut client, request(r"C:\", "Windows", false, false)) {
        FolderSizeAction::QueryFolder(search) => assert_eq!(search, r#"folder:infolder:"C:\""#),
        _ => panic!("expected the parent to be listed again"),
    }
    let (r, _) = expect_done(client.step(FolderSizeEvent::Listed(Ok(root_listing()))));
    assert_eq!(r.unwrap(), 100);
}

#[test]
fn unexpected_event_ends_lookup() {
    let mut client = FolderSizeClient::new();
    let (r, _) = expect_done(client.step(FolderSizeEvent::LinkSize(Some(1))));
    assert!(matches!(r, Err(FolderSizeError::NotFound)));
}

/// A simulated system for the lookup: the disk, Everything's index of `C:\`
/// and the links on disk, answering actions as the application does.
fn drive(client: &mut FolderSizeClient, req: FolderSizeRequest) -> (Result<u64, FolderSizeError>, Option<u64>) {
    let parent = req.parent.as_ref().map(|p| p.display.clone());
    let path = req.path.display.clone();
    let resolve = |p: &str| -> PathName {
        if p == r"C:\Documents and Settings" { pn(r"C:\Users") } else { pn(p) }
    };
    let size_of = |p: &str| -> Result<u64, IpcError> {
        match p {
            r"C:\Users" => Ok(200),
            r"C:\Windows" => Ok(100),
            _ => Err(IpcError::Query("folder not found")),
        }
    };
    let mut action = client.step(FolderSizeEvent::Lookup(req));
    loop {
        let event = match action {
            FolderSizeAction::Done(r, m) => return (r, m),
            FolderSizeAction::QueryDiskSpace => FolderSizeEvent::DiskSpace(Some(500_000)),
            FolderSizeAction::Connect => FolderSizeEvent::Connected(Ok(())),
            FolderSizeAction::QueryFolder(search) => {
                assert_eq!(search, r#"folder:infolder:"C:\""#);
                FolderSizeEvent::Listed(Ok(root_listing()))
            }
            FolderSizeAction::ResolveLink(name) => {
                let joined = format!(r"{}\{}", parent.as_deref().unwrap().trim_end_matches('\\'), name);
                let real = resolve(&joined);
                FolderSizeEvent::LinkResolved(Some((pn(&joined), real)))
            }
            FolderSizeAction::QueryLinkSize(p) => FolderSizeEvent::LinkSize(size_of(&p).ok()),
            FolderSizeAction::ResolvePath => FolderSizeEvent::PathResolved(Ok(resolve(&path))),
            FolderSizeAction::QueryPathSize(p) => FolderSizeEvent::PathSize(size_of(&p)),
        };
        action = client.step(event);
    }
}

fn root() -> FolderSizeRequest {
    FolderSizeRequest {
        path: pn(r"C:\"),
        path_len: 3,
        parent: None,
        file_name: None,
        eager_get_links: false,
        want_parent_max: false,
    }
}

#[test]
fn get_folder_size_root() {
    let mut client = FolderSizeClient::new();
    let (r, _) = drive(&mut client, root());
    assert!(r.unwrap() > 0);
}

#[test]
fn get_folder_size_ev() {
    let mut client = FolderSizeClient::new();
    let (r, _) = drive(&mut client, request(r"C:\", "Windows", false, false));
    assert!(r.unwrap() > 0);
    let (r, _) = drive(&mut client, request(r"C:\", "Users", false, false));
    assert!(r.unwrap() > 0);
}

#[test]
fn get_folder_size_ev_max() {
    let mut client = FolderSizeClient::new();
    let (r, max_size) = drive(&mut client, request(r"C:\", "Windows", false, true));
    assert!(r.unwrap() > 0);
    let (r, max_size2) = drive(&mut client, request(r"C:\", "Users", false, true));
    assert!(r.unwrap() > 0);
    assert_eq!(max_size, max_size2);
}

#[test]
fn get_folder_size_ev_realpath() {
    let mut client = FolderSizeClient::new();
    let r = drive(&mut client, request(r"C:\", "Documents and Settings", false, false)).0.unwrap();
    assert!(r > 0);
    let r1 = drive(&mut client, request(r"C:\", "Documents and Settings", false, false)).0.unwrap();
    assert_eq!(r, r1);
    let r2 = drive(&mut client, request(r"C:\", "Users", false, false)).0.unwrap();
    assert!(r2 > 0);
    assert_eq!(r, r2);
}

#[test]
fn get_folder_size_ev_realpath_eager() {
    let mut client = FolderSizeClient::new();
    let (r, m) = drive(&mut client, request(r"C:\", "Documents and Settings", true, true));
    let r = r.unwrap();
    assert!(r > 0);
    assert_eq!(m, Some(200));
    let r1 = drive(&mut client, request(r"C:\", "Documents and Settings", true, true)).0.unwrap();
    assert_eq!(r, r1);
    let r2 = drive(&mut client, request(r"C:\", "Users", true, true)).0.unwrap();
    assert!(r2 > 0);
    assert_eq!(r, r2);
}
