use everything_ipc::wm::{
    folder_size_from_list, folder_size_search, query_request, FileInfo, IpcError, QueryItem,
    QueryList, QueryValue, RequestFlags, SearchFlags, Sort, FILETIME,
};

/// A reply with the given header fields and item records, followed by `data`.
fn reply(
    found: u32,
    available: u32,
    offset: u32,
    request: u32,
    sort: u32,
    items: &[u32],
    data: &[u8],
) -> Box<[u8]> {
    let mut r = Vec::new();
    for v in [found, available, offset, request, sort] {
        r.extend_from_slice(&v.to_le_bytes());
    }
    for at in items {
        r.extend_from_slice(&request.to_le_bytes());
        r.extend_from_slice(&at.to_le_bytes());
    }
    r.extend_from_slice(data);
    r.into_boxed_slice()
}

fn push_str(out: &mut Vec<u8>, s: &str) {
    let units: Vec<u16> = s.encode_utf16().collect();
    out.extend_from_slice(&(units.len() as u32).to_le_bytes());
    for u in units {
        out.extend_from_slice(&u.to_le_bytes());
    }
    out.extend_from_slice(&0u16.to_le_bytes());
}

/// Item data with a file name "ab", size 1234, a modification date and attributes 0x10.
fn item_data() -> Vec<u8> {
    let mut d = Vec::new();
    push_str(&mut d, "ab");
    d.extend_from_slice(&1234u64.to_le_bytes());
    d.extend_from_slice(&0x1111_2222u32.to_le_bytes());
    d.extend_from_slice(&0x3333_4444u32.to_le_bytes());
    d.extend_from_slice(&0x10u32.to_le_bytes());
    d
}

fn item_request() -> RequestFlags {
    RequestFlags::FileName() | RequestFlags::Size() | RequestFlags::DateModified() | RequestFlags::Attributes()
}

#[test]
fn item_field_offsets() {
    let d = item_data();
    let item = QueryItem::new(item_request(), &d);
    assert_eq!(item.get_offset(RequestFlags::FileName()), Some(0));
    assert_eq!(item.get_offset(RequestFlags::Size()), Some(10));
    assert_eq!(item.get_offset(RequestFlags::DateModified()), Some(18));
    assert_eq!(item.get_offset(RequestFlags::Attributes()), Some(26));
    assert_eq!(item.get_offset(RequestFlags::Path()), None);
}

#[test]
fn item_typed_values() {
    let d = item_data();
    let item = QueryItem::new(item_request(), &d);
    assert_eq!(item.get_str(RequestFlags::FileName()), Some(vec![0x61, 0x62]));
    assert_eq!(item.get_string(RequestFlags::FileName()), Some("ab".to_string()));
    assert_eq!(item.get_size(RequestFlags::Size()), Some(1234));
    assert_eq!(
        item.get_time(RequestFlags::DateModified()),
        Some(FILETIME { dwLowDateTime: 0x1111_2222, dwHighDateTime: 0x3333_4444 })
    );
    assert_eq!(item.get_u32(RequestFlags::Attributes()), Some(0x10));
    assert_eq!(item.get(RequestFlags::Size()), Some(QueryValue::Size(1234)));
    assert_eq!(item.get(RequestFlags::Attributes()), Some(QueryValue::U32(0x10)));
    assert_eq!(item.get(RequestFlags::FileName()), Some(QueryValue::Str(vec![0x61, 0x62])));
    assert_eq!(item.get(RequestFlags::Extension()), None);
    assert_eq!(item.get_size(RequestFlags::Extension()), None);
}

#[test]
fn item_truncated_data() {
    let d = item_data();
    let item = QueryItem::new(item_request(), &d[..14]);
    assert_eq!(item.get_string(RequestFlags::FileName()), Some("ab".to_string()));
    assert_eq!(item.get_size(RequestFlags::Size()), None);
    let item = QueryItem::new(item_request(), &d[..5]);
    assert_eq!(item.get_str(RequestFlags::FileName()), None);
}

#[test]
fn item_lossy_string() {
    let mut d = Vec::new();
    d.extend_from_slice(&1u32.to_le_bytes());
    d.extend_from_slice(&0xD800u16.to_le_bytes());
    d.extend_from_slice(&0u16.to_le_bytes());
    let item = QueryItem::new(RequestFlags::FileName(), &d);
    assert_eq!(item.get_str(RequestFlags::FileName()), Some(vec![0xD800]));
    assert_eq!(item.get_string(RequestFlags::FileName()), Some("\u{FFFD}".to_string()));
}

#[test]
fn item_keys_and_items() {
    let d = item_data();
    let item = QueryItem::new(item_request(), &d);
    assert_eq!(
        item.keys(),
        vec![
            RequestFlags::FileName(),
            RequestFlags::Size(),
            RequestFlags::DateModified(),
            RequestFlags::Attributes()
        ]
    );
    let items = item.items();
    assert_eq!(items.len(), 4);
    assert_eq!(items[1], (RequestFlags::Size(), QueryValue::Size(1234)));
    assert_eq!(
        items[2],
        (
            RequestFlags::DateModified(),
            QueryValue::Time(FILETIME { dwLowDateTime: 0x1111_2222, dwHighDateTime: 0x3333_4444 })
        )
    );
    let named = item.items_with_name();
    let names: Vec<&str> = named.iter().map(|x| x.0).collect();
    assert_eq!(names, vec!["FileName", "Size", "DateModified", "Attributes"]);
    assert_eq!(named[3].2, QueryValue::U32(0x10));
}

#[test]
fn list_header_fields() {
    let data = reply(7, 1, 3, 0x1_0011, 6, &[28], &item_data());
    assert!(QueryList::header_is_valid(&data));
    let list = QueryList::new(42, data);
    assert_eq!(list.id(), 42);
    assert_eq!(list.total_len(), 7);
    assert_eq!(list.len(), 1);
    assert!(!list.is_empty());
    assert_eq!(list.offset(), 3);
    assert_eq!(list.request_flags(), RequestFlags::FileName() | RequestFlags::Size());
    assert_eq!(list.sort(), Sort::SizeDescending);
}

#[test]
fn list_header_validity() {
    assert!(!QueryList::header_is_valid(&[0u8; 19]));
    assert!(!QueryList::header_is_valid(&reply(0, 0, 0, 0, 0, &[], b"")));
    assert!(!QueryList::header_is_valid(&reply(0, 0, 0, 0, 27, &[], b"")));
    assert!(QueryList::header_is_valid(&reply(0, 0, 0, 0, 26, &[], b"")));
}

#[test]
fn list_item_offsets_out_of_range() {
    // The record claims two items but holds one; the item's offset lies past the end.
    let data = reply(2, 2, 0, 0x1, 1, &[1000], b"");
    let list = QueryList::new(0, data);
    assert!(list.get(0).is_none());
    assert!(list.get(1).is_none());
}

#[test]
fn list_iter_size_hint() {
    let data = reply(3, 3, 0, 0x1, 1, &[20, 20, 20], b"");
    let list = QueryList::new(0, data);
    let mut it = list.iter();
    assert_eq!(it.size_hint(), (3, Some(3)));
    assert!(it.next().is_some());
    assert_eq!(it.size_hint(), (2, Some(2)));
    assert!(it.next().is_some());
    assert!(it.next().is_some());
    assert!(it.next().is_none());
    assert_eq!(it.size_hint(), (0, Some(0)));
}

#[test]
fn sort_repr_roundtrip() {
    for v in 1..=26u32 {
        let s = Sort::try_from_repr(v).unwrap();
        assert_eq!(s.repr(), v);
    }
    assert_eq!(Sort::try_from_repr(0), None);
    assert_eq!(Sort::try_from_repr(27), None);
    assert_eq!(Sort::try_from_repr(6), Some(Sort::SizeDescending));
    assert_eq!(Sort::DateRunDescending.repr(), 26);
}

#[test]
fn file_info_repr_values() {
    assert_eq!(FileInfo::FileSize.repr(), 1);
    assert_eq!(FileInfo::FolderSize.repr(), 2);
    assert_eq!(FileInfo::Attributes.repr(), 6);
}

#[test]
fn request_flags_iteration() {
    let f = RequestFlags::Path() | RequestFlags::FileName() | RequestFlags::DateRun();
    assert_eq!(f.iter(), vec![RequestFlags::FileName(), RequestFlags::Path(), RequestFlags::DateRun()]);
    let names: Vec<&str> = f.iter_names().iter().map(|x| x.0).collect();
    assert_eq!(names, vec!["FileName", "Path", "DateRun"]);
    assert!(f.contains(RequestFlags::Path()));
    assert!(!f.contains(RequestFlags::Size()));
    assert_eq!(RequestFlags::all().bits(), 0xFFFF);
    assert_eq!(RequestFlags::from_bits_truncate(0x12_0003).bits(), 0x3);
    assert_eq!(RequestFlags::empty().iter(), vec![]);
    assert_eq!(SearchFlags::from_bits_truncate(0xFF).bits(), 0x1F);
    assert_eq!(SearchFlags::empty().bits(), 0);
    assert_eq!(SearchFlags::default().bits(), 0);
}

#[test]
fn request_flags_double_not() {
    let f = RequestFlags::Size() | RequestFlags::Path();
    assert_eq!(!!f, f);
    let s = SearchFlags::Regex();
    assert_eq!((!!s).bits(), s.bits());
}

#[test]
fn query_request_layout() {
    let r = query_request(
        0x1234,
        7,
        "ab",
        SearchFlags::MatchPath(),
        RequestFlags::FileName() | RequestFlags::Size(),
        Sort::SizeDescending,
        5,
        None,
    );
    let mut expected = Vec::new();
    for v in [0x1234u32, 7, 0x4, 5, u32::MAX, 0x11, 6] {
        expected.extend_from_slice(&v.to_le_bytes());
    }
    expected.extend_from_slice(&[0x61, 0, 0x62, 0, 0, 0]);
    assert_eq!(r, expected);
    let r = query_request(1, 2, "", SearchFlags::empty(), RequestFlags::FileName(), Sort::NameAscending, 0, Some(10));
    assert_eq!(r.len(), 30);
    assert_eq!(u32::from_le_bytes(r[16..20].try_into().unwrap()), 10);
}

#[test]
fn folder_size_search_text() {
    assert_eq!(folder_size_search(r"C:\Users"), r#"wfn:"C:\Users""#);
}

#[test]
fn folder_size_from_reply() {
    let mut d = Vec::new();
    d.extend_from_slice(&4096u64.to_le_bytes());
    let list = QueryList::new(1, reply(1, 1, 0, 0x10, 1, &[28], &d));
    assert_eq!(folder_size_from_list(&list).unwrap(), 4096);

    let empty = QueryList::new(1, reply(0, 0, 0, 0x10, 1, &[], b""));
    assert!(matches!(folder_size_from_list(&empty), Err(IpcError::Query("folder not found"))));

    let no_size = QueryList::new(1, reply(1, 1, 0, 0x1, 1, &[28], &item_data()));
    assert!(matches!(folder_size_from_list(&no_size), Err(IpcError::Query(_))));
}
