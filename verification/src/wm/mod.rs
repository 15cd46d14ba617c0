//! Everything's window message IPC interface: flags, request encoding and
//! reply decoding.

use vstd::prelude::*;

use crate::utf16::encode_utf16;

mod fields;
mod flags;
mod list;
mod query;
mod types;

pub use fields::{
    item_bytes, item_bytes_from, lemma_item_fields_read_back, u64_le, value_bytes, value_fits,
};
pub use flags::{
    is_request_flag, lemma_request_data_types, lemma_request_flag_bits, lemma_request_flags_distinct, names_a_date, lemma_request_flags_not_not,
    lemma_request_flags_union, lemma_search_flags_not_not, request_data_type_at, request_flag_at, request_flag_index,
    request_flag_name, request_flag_positions_upto, request_flags_all_bits, request_flags_upto,
    search_flags_all_bits, RequestDataType, RequestFlags, SearchFlags,
};
pub use list::{
    field_offset, field_offset_from, field_size, filetime_at, item_complete, item_record_at,
    item_value, lemma_field_sizes, lemma_iter_stays_exhausted, lemma_reply_header_fields, lemma_reply_items_in_range,
    list_header_bytes, reply_header_valid, reply_item_data, str_units_at, u32_at, u64_at, value_at, QueryItem,
    QueryList, QueryListIter, QueryValue, QueryValueView,
};
pub use query::{
    lemma_query_header_fields, lemma_query_request_layout, lemma_query_search_units,
    lemma_u16s_le_at, lemma_u16s_le_len, query_bytes, query_header, query_size, EverythingIpcQuery2,
};
pub use types::{
    file_info_repr, lemma_file_info_values, lemma_sort_from_repr_inverse, lemma_sort_values, lemma_sort_repr_roundtrip, list_header_len,
    sort_from_repr, sort_repr, EverythingIpcItem2,
    EverythingIpcList2, FileInfo, Sort, FILETIME,
};

verus! {

/// Command of `WM_USER` that asks for the minor version.
pub const EVERYTHING_IPC_GET_MINOR_VERSION: u32 = 1;

/// `COPYDATASTRUCT::dwData` of a query request.
pub const EVERYTHING_IPC_COPYDATA_QUERY2W: u32 = 18;

/// Command of `WM_USER` that asks whether the database is loaded.
pub const EVERYTHING_IPC_IS_DB_LOADED: u32 = 401;

/// Command of `WM_USER` that asks whether a kind of file info is indexed.
pub const EVERYTHING_IPC_IS_FILE_INFO_INDEXED: u32 = 411;

/// Errors that can occur when querying Everything.
#[derive(Debug)]
pub enum IpcError {
    /// No IPC window available.
    NoIpcWindow,
    /// Failed to create reply window.
    CreateReplyWindow,
    /// Failed to send query to Everything.
    Send,
    /// Query timed out waiting for response.
    Timeout,
    /// The query's answer was not what was asked for.
    Query(&'static str),
}

/// A query response received from Everything.
#[derive(Debug)]
pub struct QueryResponse {
    pub id: u32,
    pub data: Vec<u8>,
}

/// The request that a query sends to Everything: `max_results` of `None`
/// asks for every result.
pub fn query_request(
    reply_hwnd: u32,
    id: u32,
    search: &str,
    search_flags: SearchFlags,
    request_flags: RequestFlags,
    sort: Sort,
    offset: u32,
    max_results: Option<u32>,
) -> (r: Vec<u8>)
    requires
        query_size(encode_utf16(search@).len() as int) <= usize::MAX,
    ensures
        r@ == query_bytes(
            reply_hwnd,
            id,
            search_flags.0,
            offset,
            match max_results {
                Some(m) => m,
                None => u32::MAX,
            },
            request_flags.0,
            sort_repr(sort),
            search@,
        ),
{
    let max = match max_results {
        Some(m) => m,
        None => u32::MAX,
    };
    EverythingIpcQuery2::create(
        reply_hwnd,
        id,
        search_flags.bits(),
        offset,
        max,
        request_flags.bits(),
        sort.repr(),
        search,
    )
}

/// The search that finds a folder by its whole name: `wfn:"<path>"`.
pub fn folder_size_search(path: &str) -> (r: String)
    ensures
        r@ == "wfn:\""@ + path@ + "\""@,
{
    let mut s = String::from_str("wfn:\"");
    s.append(path);
    s.append("\"");
    s
}

/// The size of the first item of the answer to a folder-size search.
pub fn folder_size_from_list(list: &QueryList) -> (r: Result<u64, IpcError>)
    ensures
        match reply_item_data(list@.1, 0) {
            Some(d) => match field_offset(
                reply_request_bits(list@.1),
                d,
                0x10,
            ) {
                Some(off) => match u64_at(d, off) {
                    Some(v) => r == Ok::<u64, IpcError>(v),
                    None => r == Err::<u64, IpcError>(IpcError::Query("folder not found")),
                },
                None => r == Err::<u64, IpcError>(IpcError::Query("folder not found")),
            },
            None => r == Err::<u64, IpcError>(IpcError::Query("folder not found")),
        },
{
    if let Some(item) = list.get(0) {
        if let Some(size) = item.get_size(RequestFlags::Size()) {
            return Ok(size);
        }
    }
    Err(IpcError::Query("folder not found"))
}

/// The request flags of a reply, as its header gives them.
pub open spec fn reply_request_bits(data: Seq<u8>) -> u32 {
    crate::bytes::le_u32(data, 12) & request_flags_all_bits()
}

} // verus!
