use vstd::prelude::*;

use crate::bytes::{
    le_u16, le_u32, lemma_le_u32_in_concat, lemma_u16_le_roundtrip, push_u16_le, push_u32_le,
    u16_le, u16s_le, u32_le,
};
use crate::utf16::{encode_utf16, push_utf16};

verus! {

/// Query request of `EVERYTHING_IPC_QUERY2` in `Everything.h`: seven
/// little-endian `u32` fields followed by the null-terminated UTF-16 search
/// string.
pub struct EverythingIpcQuery2 {
    pub reply_hwnd: u32,
    pub reply_copydata_message: u32,
    pub search_flags: u32,
    pub offset: u32,
    pub max_results: u32,
    pub request_flags: u32,
    pub sort_type: u32,
    /// First unit of the search string; at least the null terminator.
    pub search_string: [u16; 1],
}

/// Size in bytes of a request whose search string has `search_len` UTF-16
/// units: a 28-byte header, the units and a null terminator.
pub open spec fn query_size(search_len: int) -> int {
    30 + 2 * search_len
}

/// The bytes of a query request.
pub open spec fn query_bytes(
    reply_hwnd: u32,
    reply_copydata_message: u32,
    search_flags: u32,
    offset: u32,
    max_results: u32,
    request_flags: u32,
    sort_type: u32,
    search: Seq<char>,
) -> Seq<u8> {
    query_header(
        reply_hwnd,
        reply_copydata_message,
        search_flags,
        offset,
        max_results,
        request_flags,
        sort_type,
    ) + u16s_le(encode_utf16(search)) + u16_le(0)
}

pub proof fn lemma_u16s_le_len(units: Seq<u16>)
    ensures
        u16s_le(units).len() == 2 * units.len(),
    decreases units.len(),
{
    if units.len() > 0 {
        lemma_u16s_le_len(units.drop_last());
    }
}

/// Appends the little-endian bytes of each unit.
fn push_u16s_le(v: &mut Vec<u8>, units: &Vec<u16>)
    ensures
        final(v)@ == old(v)@ + u16s_le(units@),
{
    let ghost start = v@;
    let mut i: usize = 0;
    while i < units.len()
        invariant
            i <= units@.len(),
            v@ == start + u16s_le(units@.take(i as int)),
        decreases units@.len() - i,
    {
        let ghost prev = units@.take(i as int);
        push_u16_le(v, units[i]);
        proof {
            assert(units@.take(i + 1).drop_last() =~= prev);
            assert(units@.take(i + 1).last() == units@[i as int]);
        }
        i += 1;
    }
    assert(units@.take(units@.len() as int) =~= units@);
}

impl EverythingIpcQuery2 {
    /// Calculate the total size needed for a query with given search string length.
    /// Header is exactly 28 bytes (7 DWORDs) + minimum 2 bytes for search_string.
    pub fn size_for_search(search_len: usize) -> (r: usize)
        requires
            query_size(search_len as int) <= usize::MAX,
        ensures
            r == query_size(search_len as int),
    {
        30 + search_len * 2
    }

    /// Create a new query request with the given parameters; returns the request buffer.
    pub fn create(
        reply_hwnd: u32,
        reply_copydata_message: u32,
        search_flags: u32,
        offset: u32,
        max_results: u32,
        request_flags: u32,
        sort_type: u32,
        search: &str,
    ) -> (r: Vec<u8>)
        requires
            query_size(encode_utf16(search@).len() as int) <= usize::MAX,
        ensures
            r@ == query_bytes(
                reply_hwnd,
                reply_copydata_message,
                search_flags,
                offset,
                max_results,
                request_flags,
                sort_type,
                search@,
            ),
            r@.len() == query_size(encode_utf16(search@).len() as int),
    {
        let mut units: Vec<u16> = Vec::new();
        push_utf16(search, &mut units);
        let total_size = Self::size_for_search(units.len());
        let mut buffer: Vec<u8> = Vec::with_capacity(total_size);
        push_u32_le(&mut buffer, reply_hwnd);
        push_u32_le(&mut buffer, reply_copydata_message);
        push_u32_le(&mut buffer, search_flags);
        push_u32_le(&mut buffer, offset);
        push_u32_le(&mut buffer, max_results);
        push_u32_le(&mut buffer, request_flags);
        push_u32_le(&mut buffer, sort_type);
        push_u16s_le(&mut buffer, &units);
        push_u16_le(&mut buffer, 0);
        proof {
            lemma_u16s_le_len(units@);
            assert(buffer@ =~= query_bytes(
                reply_hwnd,
                reply_copydata_message,
                search_flags,
                offset,
                max_results,
                request_flags,
                sort_type,
                search@,
            ));
        }
        buffer
    }
}

/// The bytes of unit `j` are the little-endian bytes of that unit.
pub proof fn lemma_u16s_le_at(units: Seq<u16>, j: int)
    requires
        0 <= j < units.len(),
    ensures
        u16s_le(units).len() == 2 * units.len(),
        u16s_le(units)[2 * j] == u16_le(units[j])[0],
        u16s_le(units)[2 * j + 1] == u16_le(units[j])[1],
    decreases units.len(),
{
    lemma_u16s_le_len(units);
    lemma_u16s_le_len(units.drop_last());
    if j < units.len() - 1 {
        lemma_u16s_le_at(units.drop_last(), j);
    }
}

/// The header of a query request: seven little-endian `u32` fields.
pub open spec fn query_header(
    reply_hwnd: u32,
    reply_copydata_message: u32,
    search_flags: u32,
    offset: u32,
    max_results: u32,
    request_flags: u32,
    sort_type: u32,
) -> Seq<u8> {
    u32_le(reply_hwnd) + u32_le(reply_copydata_message) + u32_le(search_flags) + u32_le(offset)
        + u32_le(max_results) + u32_le(request_flags) + u32_le(sort_type)
}

/// The header fields read back at offsets 0 to 24.
pub proof fn lemma_query_header_fields(
    f0: u32,
    f1: u32,
    f2: u32,
    f3: u32,
    f4: u32,
    f5: u32,
    f6: u32,
    tail: Seq<u8>,
)
    ensures
        ({
            let b = query_header(f0, f1, f2, f3, f4, f5, f6) + tail;
            &&& query_header(f0, f1, f2, f3, f4, f5, f6).len() == 28
            &&& le_u32(b, 0) == f0
            &&& le_u32(b, 4) == f1
            &&& le_u32(b, 8) == f2
            &&& le_u32(b, 12) == f3
            &&& le_u32(b, 16) == f4
            &&& le_u32(b, 20) == f5
            &&& le_u32(b, 24) == f6
        }),
{
    let e = Seq::<u8>::empty();
    let h1 = u32_le(f0);
    let h2 = h1 + u32_le(f1);
    let h3 = h2 + u32_le(f2);
    let h4 = h3 + u32_le(f3);
    let h5 = h4 + u32_le(f4);
    let h6 = h5 + u32_le(f5);
    let h7 = h6 + u32_le(f6);
    let b = h7 + tail;
    assert(b =~= e + u32_le(f0) + (h1.skip(4) + u32_le(f1) + u32_le(f2) + u32_le(f3) + u32_le(f4)
        + u32_le(f5) + u32_le(f6) + tail));
    lemma_le_u32_in_concat(e, f0, h1.skip(4) + u32_le(f1) + u32_le(f2) + u32_le(f3) + u32_le(f4)
        + u32_le(f5) + u32_le(f6) + tail);
    assert(b =~= h1 + u32_le(f1) + (u32_le(f2) + u32_le(f3) + u32_le(f4) + u32_le(f5) + u32_le(
        f6,
    ) + tail));
    lemma_le_u32_in_concat(h1, f1, u32_le(f2) + u32_le(f3) + u32_le(f4) + u32_le(f5) + u32_le(f6)
        + tail);
    assert(b =~= h2 + u32_le(f2) + (u32_le(f3) + u32_le(f4) + u32_le(f5) + u32_le(f6) + tail));
    lemma_le_u32_in_concat(h2, f2, u32_le(f3) + u32_le(f4) + u32_le(f5) + u32_le(f6) + tail);
    assert(b =~= h3 + u32_le(f3) + (u32_le(f4) + u32_le(f5) + u32_le(f6) + tail));
    lemma_le_u32_in_concat(h3, f3, u32_le(f4) + u32_le(f5) + u32_le(f6) + tail);
    assert(b =~= h4 + u32_le(f4) + (u32_le(f5) + u32_le(f6) + tail));
    lemma_le_u32_in_concat(h4, f4, u32_le(f5) + u32_le(f6) + tail);
    assert(b =~= h5 + u32_le(f5) + (u32_le(f6) + tail));
    lemma_le_u32_in_concat(h5, f5, u32_le(f6) + tail);
    assert(b =~= h6 + u32_le(f6) + tail);
    lemma_le_u32_in_concat(h6, f6, tail);
}

/// The search string's units read back after the header, then a null unit.
pub proof fn lemma_query_search_units(header: Seq<u8>, units: Seq<u16>)
    requires
        header.len() == 28,
    ensures
        ({
            let b = header + u16s_le(units) + u16_le(0);
            &&& b.len() == 30 + 2 * units.len()
            &&& forall|j: int| 0 <= j < units.len() ==> #[trigger] le_u16(b, 28 + 2 * j) == units[j]
            &&& le_u16(b, 28 + 2 * units.len() as int) == 0
        }),
{
    let b = header + u16s_le(units) + u16_le(0);
    lemma_u16s_le_len(units);
    assert forall|j: int| 0 <= j < units.len() implies #[trigger] le_u16(b, 28 + 2 * j)
        == units[j] by {
        lemma_u16s_le_at(units, j);
        lemma_u16_le_roundtrip(units[j]);
        assert(b[28 + 2 * j] == u16s_le(units)[2 * j]);
        assert(b[28 + 2 * j + 1] == u16s_le(units)[2 * j + 1]);
    }
    lemma_u16_le_roundtrip(0);
    assert(b[28 + 2 * units.len() as int] == u16_le(0)[0]);
    assert(b[28 + 2 * units.len() as int + 1] == u16_le(0)[1]);
}

/// A query request reads back as what it was made from: the seven header
/// fields as little-endian `u32`s at offsets 0 to 24, then each UTF-16 unit
/// of the search string, then a null unit; and it is exactly
/// `size_for_search` bytes long.
pub proof fn lemma_query_request_layout(
    reply_hwnd: u32,
    reply_copydata_message: u32,
    search_flags: u32,
    offset: u32,
    max_results: u32,
    request_flags: u32,
    sort_type: u32,
    search: Seq<char>,
)
    ensures
        ({
            let b = query_bytes(
                reply_hwnd,
                reply_copydata_message,
                search_flags,
                offset,
                max_results,
                request_flags,
                sort_type,
                search,
            );
            let units = encode_utf16(search);
            &&& b.len() == query_size(units.len() as int)
            &&& le_u32(b, 0) == reply_hwnd
            &&& le_u32(b, 4) == reply_copydata_message
            &&& le_u32(b, 8) == search_flags
            &&& le_u32(b, 12) == offset
            &&& le_u32(b, 16) == max_results
            &&& le_u32(b, 20) == request_flags
            &&& le_u32(b, 24) == sort_type
            &&& forall|j: int| 0 <= j < units.len() ==> #[trigger] le_u16(b, 28 + 2 * j) == units[j]
            &&& le_u16(b, 28 + 2 * units.len() as int) == 0
        }),
{
    let h = query_header(
        reply_hwnd,
        reply_copydata_message,
        search_flags,
        offset,
        max_results,
        request_flags,
        sort_type,
    );
    let units = encode_utf16(search);
    let b = query_bytes(
        reply_hwnd,
        reply_copydata_message,
        search_flags,
        offset,
        max_results,
        request_flags,
        sort_type,
        search,
    );
    lemma_query_header_fields(
        reply_hwnd,
        reply_copydata_message,
        search_flags,
        offset,
        max_results,
        request_flags,
        sort_type,
        u16s_le(units) + u16_le(0),
    );
    assert(b =~= h + (u16s_le(units) + u16_le(0)));
    lemma_query_search_units(h, units);
}

} // verus!
