use everything_ipc::wm::{
    EverythingIpcQuery2, QueryList, RequestDataType, RequestFlags, SearchFlags, Sort, FILETIME,
};

#[test]
fn search_flags_combinations() {
    let flags = SearchFlags::MatchCase() | SearchFlags::MatchWholeWord();
    assert_eq!(flags.bits(), 0x00000003);
}

#[test]
fn request_flags_combinations() {
    let flags = RequestFlags::FileName() | RequestFlags::Size() | RequestFlags::DateModified();
    assert_eq!(flags.bits(), 0x00000051); // 1 | 16 | 64 = 81 = 0x51
}

#[test]
fn request_flags_data_type() {
    assert_eq!(RequestFlags::FileName().data_type(), RequestDataType::Str);
    assert_eq!(RequestFlags::Size().data_type(), RequestDataType::Size);
    assert_eq!(RequestFlags::DateCreated().data_type(), RequestDataType::Date);
    assert_eq!(RequestFlags::Attributes().data_type(), RequestDataType::Dword);
}

#[test]
fn sort_default() {
    assert_eq!(Sort::default(), Sort::NameAscending);
}

#[test]
fn version_default() {
    let version: everything_ipc::Version = Default::default();
    assert_eq!(version.major, 0);
    assert_eq!(version.minor, 0);
    assert_eq!(version.revision, 0);
    assert_eq!(version.build, 0);
}

#[test]
fn search_flags_not() {
    let flags = !SearchFlags::MatchCase();
    // Not only inverts the defined bits, not the entire u32
    // For SearchFlags with 5 bits defined (0x1F), !MATCH_CASE = 0x1E = 30
    assert_eq!(flags.bits(), 0x1E);
}

#[test]
fn request_flags_not() {
    let flags = !RequestFlags::FileName();
    // Not only inverts the defined bits, not the entire u32
    // For RequestFlags with 16 bits defined (0xFFFF), !FILE_NAME = 0xFFFE = 65534
    assert_eq!(flags.bits(), 0xFFFE);
}

#[test]
fn everything_ipc_query2_size() {
    // Header is exactly 28 bytes (7 DWORDs) + minimum 2 bytes for search_string

    // size_for_search with empty string (just the minimum 1 u16)
    assert_eq!(EverythingIpcQuery2::size_for_search(0), 30); // 30 bytes minimum

    // size_for_search with "test" (4 chars)
    let search_size = 30 + 4 * 2; // 30 minimum + 4 chars * 2 bytes per char
    assert_eq!(EverythingIpcQuery2::size_for_search(4), search_size);
}

#[test]
fn everything_ipc_query2_create() {
    let buffer = EverythingIpcQuery2::create(
        1234,
        5678,
        0,
        0,
        10,
        RequestFlags::FileName().bits(),
        Sort::NameAscending.repr(),
        "test",
    );

    // Minimum 30 bytes + 4 chars * 2 bytes = 38 bytes (30 = 28 header + 2 null terminator)
    assert_eq!(buffer.len(), 38);

    // Verify header fields
    assert_eq!(u32::from_le_bytes(buffer[0..4].try_into().unwrap()), 1234);
    assert_eq!(u32::from_le_bytes(buffer[4..8].try_into().unwrap()), 5678);
    assert_eq!(u32::from_le_bytes(buffer[8..12].try_into().unwrap()), 0);
    assert_eq!(u32::from_le_bytes(buffer[12..16].try_into().unwrap()), 0);
    assert_eq!(u32::from_le_bytes(buffer[16..20].try_into().unwrap()), 10);
    assert_eq!(
        u32::from_le_bytes(buffer[20..24].try_into().unwrap()),
        RequestFlags::FileName().bits()
    );
    assert_eq!(
        u32::from_le_bytes(buffer[24..28].try_into().unwrap()),
        Sort::NameAscending.repr()
    );
}

// Helper to create minimal QueryList data
// Note: EVERYTHING_IPC_LIST2 header is 20 bytes:
//   - totitems (4) + numitems (4) + offset (4) + request_flags (4) + sort_type (4)
fn make_query_data(
    found_num: u32,
    available_num: u32,
    request_flags: u32,
    sort: Sort,
    items: &[(u32, u32)],
    data: &[u8],
) -> Box<[u8]> {
    let mut result = Vec::new();
    result.extend_from_slice(&found_num.to_le_bytes());
    result.extend_from_slice(&available_num.to_le_bytes());
    result.extend_from_slice(&0u32.to_le_bytes()); // offset field (unused)
    result.extend_from_slice(&request_flags.to_le_bytes());
    result.extend_from_slice(&sort.repr().to_le_bytes());

    // Write items
    for (flags, offset) in items {
        result.extend_from_slice(&flags.to_le_bytes());
        result.extend_from_slice(&offset.to_le_bytes());
    }

    // Write data
    result.extend_from_slice(data);
    result.into_boxed_slice()
}

#[test]
fn query_list_empty() {
    // Header (EVERYTHING_IPC_LIST2): found_num(4) + available_num(4) + offset(4) + request_flags(4) + sort(4) = 20 bytes
    let data = make_query_data(0, 0, 0, Sort::default(), &[], b"");
    let results = QueryList::new(0, data);
    assert!(results.is_empty());
    assert_eq!(results.len(), 0);
    assert_eq!(results.total_len(), 0);
    assert!(results.get(0).is_none());
}

#[test]
fn query_list_with_items() {
    // Header (EVERYTHING_IPC_LIST2): 20 bytes
    // Item (EVERYTHING_IPC_ITEM2): flags(4) + offset(4) = 8 bytes
    let data = make_query_data(
        1,
        1,
        RequestFlags::FileName().bits(),
        Sort::NameAscending,
        &[(RequestFlags::FileName().bits(), 20)], // offset 20 = start of data
        b"",
    );
    let results = QueryList::new(0, data);
    assert_eq!(results.total_len(), 1);
    assert_eq!(results.len(), 1);
    assert_eq!(results.request_flags(), RequestFlags::FileName());
}

#[test]
fn query_list_multiple_items() {
    let data = make_query_data(
        2,
        2,
        RequestFlags::FileName().bits(),
        Sort::NameAscending,
        &[
            (RequestFlags::FileName().bits(), 20), // offset 20 = start of data
            (RequestFlags::FileName().bits(), 28), // offset 28 = 20 + 8 (8 bytes for first item)
        ],
        b"",
    );
    let results = QueryList::new(0, data);
    assert_eq!(results.total_len(), 2);
    assert_eq!(results.len(), 2);
}

#[test]
fn query_list_sort_parsing() {
    for (sort_value, expected_sort) in [
        (1, Sort::NameAscending),
        (2, Sort::NameDescending),
        (3, Sort::PathAscending),
        (4, Sort::PathDescending),
        (5, Sort::SizeAscending),
        (6, Sort::SizeDescending),
        (7, Sort::ExtensionAscending),
        (8, Sort::ExtensionDescending),
    ] {
        let data = make_query_data(0, 0, 0, expected_sort, &[], b"");
        let results = QueryList::new(0, data);
        assert_eq!(results.sort(), expected_sort, "sort value {}", sort_value);
    }
}

#[test]
fn query_item_str() {
    // Header is 20 bytes, items array is 8 bytes (1 item)
    // So data starts at offset 20 + 8 = 28
    // Format: length (u32 LE) + string (u16 LE) + null terminator
    // "test" in UTF-16: [116, 0, 101, 0, 115, 0, 116, 0] (4 chars)
    // Plus null terminator = 5 u16s = 10 bytes
    // String data: length(4) + string(10) = 14 bytes
    let string_data: Vec<u8> = vec![4, 0, 0, 0, 116, 0, 101, 0, 115, 0, 116, 0, 0, 0];
    let data = make_query_data(
        1,
        1,
        RequestFlags::FileName().bits(),
        Sort::NameAscending,
        &[(RequestFlags::FileName().bits(), 28)], // offset 28 = 20 (header) + 8 (1 item)
        &string_data,
    );
    let results = QueryList::new(0, data);

    // Get the first item
    if let Some(item) = results.get(0) {
        if let Some(str_val) = item.get_str(RequestFlags::FileName()) {
            assert_eq!(String::from_utf16_lossy(&str_val), "test");
        } else {
            panic!("Expected FILE_NAME string");
        }
    } else {
        panic!("Expected item at index 0");
    }
}

#[test]
fn query_list_iter() {
    let data = make_query_data(
        2,
        2,
        RequestFlags::FileName().bits(),
        Sort::NameAscending,
        &[
            (RequestFlags::FileName().bits(), 20), // offset 20 = start of data
            (RequestFlags::FileName().bits(), 28), // offset 28 = 20 + 8 (8 bytes for first item)
        ],
        b"",
    );
    let results = QueryList::new(0, data);

    let mut count = 0;
    let mut iter = results.iter();
    while let Some(_) = iter.next() {
        count += 1;
    }
    assert_eq!(count, 2);
}

#[test]
fn query_item_out_of_bounds() {
    let data = make_query_data(0, 0, 0, Sort::default(), &[], b"");
    let results = QueryList::new(0, data);
    assert!(results.get(0).is_none());
}

#[test]
fn filetime_structure() {
    let ft = FILETIME {
        dwLowDateTime: 0x12345678,
        dwHighDateTime: 0x9ABCDEF0,
    };
    assert_eq!(ft.dwLowDateTime, 0x12345678);
    assert_eq!(ft.dwHighDateTime, 0x9ABCDEF0);
}

#[test]
fn query_list_get_by_index() {
    let data = make_query_data(
        1,
        1,
        RequestFlags::FileName().bits(),
        Sort::NameAscending,
        &[(RequestFlags::FileName().bits(), 20)], // offset 20 = start of data
        b"",
    );
    let results = QueryList::new(0, data);

    assert!(results.get(0).is_some());
    assert!(results.get(1).is_none()); // Out of bounds
}

#[test]
fn request_flags_all() {
    // All request flags have unique values
    let flags = [
        RequestFlags::FileName(),
        RequestFlags::Path(),
        RequestFlags::FullPathAndFileName(),
        RequestFlags::Extension(),
        RequestFlags::Size(),
        RequestFlags::DateCreated(),
        RequestFlags::DateModified(),
        RequestFlags::DateAccessed(),
        RequestFlags::Attributes(),
        RequestFlags::FileListFileName(),
        RequestFlags::RunCount(),
        RequestFlags::DateRun(),
        RequestFlags::DateRecentlyChanged(),
        RequestFlags::HighlightedFileName(),
        RequestFlags::HighlightedPath(),
        RequestFlags::HighlightedFullPathAndFileName(),
    ];

    let mut seen = std::collections::HashSet::new();
    for flag in flags {
        assert!(
            !seen.contains(&flag.0),
            "Duplicate flag value: {:#x}",
            flag.0
        );
        seen.insert(flag.0);
    }
}
