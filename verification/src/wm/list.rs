use vstd::prelude::*;

use crate::bytes::{
    le_u16, le_u32, le_u64, lemma_le_u32_in_concat, read_u16_le, read_u32_le, read_u64_le, u32_le,
};
use crate::utf16::{encode_utf16, units_to_string_lossy, utf16_lossy};
use crate::wm::flags::{
    is_request_flag, request_data_type_at, request_flag_at, request_flag_bits_at,
    request_flag_index, request_flag_name, request_flag_name_at, request_flag_positions_upto,
    request_flags_all_bits, request_flags_upto, RequestDataType, RequestFlags,
};
use crate::wm::types::{
    list_header_len, sort_from_repr, EverythingIpcItem2, EverythingIpcList2, Sort, FILETIME,
};

verus! {

/// Size in bytes of a reply field of the given kind, read at `off`; `None`
/// when a string's length lies beyond the data.
pub open spec fn field_size(data: Seq<u8>, off: int, kind: RequestDataType) -> Option<int> {
    match kind {
        RequestDataType::Str => if 0 <= off && off + 4 <= data.len() {
            Some(4 + (le_u32(data, off) as int + 1) * 2)
        } else {
            None
        },
        RequestDataType::Size => Some(8),
        RequestDataType::Date => Some(8),
        RequestDataType::Dword => Some(4),
    }
}

/// Walks the requested fields from position `i`, at byte offset `off`, to the
/// one of `flag`.
pub open spec fn field_offset_from(request: u32, data: Seq<u8>, flag: u32, i: int, off: int) -> Option<
    int,
>
    decreases 16 - i,
{
    if i < 0 || i >= 16 {
        None
    } else if request & request_flag_at(i) == 0 {
        field_offset_from(request, data, flag, i + 1, off)
    } else if request_flag_at(i) == flag {
        Some(off)
    } else {
        match field_size(data, off, request_data_type_at(i)) {
            None => None,
            Some(size) => field_offset_from(request, data, flag, i + 1, off + size),
        }
    }
}

/// Offset of the field of `flag` in an item's data: the requested fields come
/// in flag order, each as large as its kind says.
pub open spec fn field_offset(request: u32, data: Seq<u8>, flag: u32) -> Option<int> {
    if request & flag == 0 {
        None
    } else {
        match field_offset_from(request, data, flag, 0, 0) {
            Some(off) => if 0 <= off <= data.len() {
                Some(off)
            } else {
                None
            },
            None => None,
        }
    }
}

/// The UTF-16 units of the length-prefixed string at `off`.
pub open spec fn str_units_at(data: Seq<u8>, off: int) -> Option<Seq<u16>> {
    if 0 <= off && off + 4 <= data.len() && off + 4 + 2 * le_u32(data, off) <= data.len() {
        Some(Seq::new(le_u32(data, off) as nat, |k: int| le_u16(data, off + 4 + 2 * k)))
    } else {
        None
    }
}

/// The `u64` at `off`.
pub open spec fn u64_at(data: Seq<u8>, off: int) -> Option<u64> {
    if 0 <= off && off + 8 <= data.len() {
        Some(le_u64(data, off))
    } else {
        None
    }
}

/// The `u32` at `off`.
pub open spec fn u32_at(data: Seq<u8>, off: int) -> Option<u32> {
    if 0 <= off && off + 4 <= data.len() {
        Some(le_u32(data, off))
    } else {
        None
    }
}

/// The file time at `off`.
pub open spec fn filetime_at(data: Seq<u8>, off: int) -> Option<FILETIME> {
    if 0 <= off && off + 8 <= data.len() {
        Some(FILETIME { dwLowDateTime: le_u32(data, off), dwHighDateTime: le_u32(data, off + 4) })
    } else {
        None
    }
}

/// The value of a query item for a request flag.
#[derive(Debug, Clone, PartialEq)]
pub enum QueryValue {
    /// String value (file name, path, extension, etc.), as UTF-16 units.
    Str(Vec<u16>),
    /// Size value (file size in bytes).
    Size(u64),
    /// Date value.
    Time(FILETIME),
    /// Dword value (attributes, run count).
    U32(u32),
}

/// What a [`QueryValue`] holds.
pub enum QueryValueView {
    Str(Seq<u16>),
    Size(u64),
    Time(FILETIME),
    U32(u32),
}

impl View for QueryValue {
    type V = QueryValueView;

    open spec fn view(&self) -> QueryValueView {
        match self {
            QueryValue::Str(s) => QueryValueView::Str(s@),
            QueryValue::Size(v) => QueryValueView::Size(*v),
            QueryValue::Time(t) => QueryValueView::Time(*t),
            QueryValue::U32(v) => QueryValueView::U32(*v),
        }
    }
}

/// The value of the given kind stored at `off`.
pub open spec fn value_at(data: Seq<u8>, off: int, kind: RequestDataType) -> Option<QueryValueView> {
    match kind {
        RequestDataType::Str => match str_units_at(data, off) {
            Some(u) => Some(QueryValueView::Str(u)),
            None => None,
        },
        RequestDataType::Size => match u64_at(data, off) {
            Some(v) => Some(QueryValueView::Size(v)),
            None => None,
        },
        RequestDataType::Date => match filetime_at(data, off) {
            Some(t) => Some(QueryValueView::Time(t)),
            None => None,
        },
        RequestDataType::Dword => match u32_at(data, off) {
            Some(v) => Some(QueryValueView::U32(v)),
            None => None,
        },
    }
}

/// The value for `flag` in an item's data, typed by the flag's kind.
pub open spec fn item_value(request: u32, data: Seq<u8>, flag: u32) -> Option<QueryValueView> {
    match field_offset(request, data, flag) {
        None => None,
        Some(off) => value_at(data, off, request_data_type_at(request_flag_index(flag))),
    }
}

/// A single query result item: the requested fields of one file.
#[derive(Debug)]
pub struct QueryItem<'a> {
    request: RequestFlags,
    data: &'a [u8],
}

impl<'a> View for QueryItem<'a> {
    /// The request bits and the item's data.
    type V = (u32, Seq<u8>);

    closed spec fn view(&self) -> (u32, Seq<u8>) {
        (self.request.0, self.data@)
    }
}

/// The most a field can move the offset: a string of `u32::MAX` units.
spec fn max_field_size() -> int {
    0x2_0000_0008
}

impl<'a> QueryItem<'a> {
    /// An item with the given request flags over the given data.
    pub fn new(request: RequestFlags, data: &'a [u8]) -> (r: QueryItem<'a>)
        ensures
            r@ == (request.0, data@),
    {
        QueryItem { request, data }
    }

    /// Offset of the field of `flag` in the item's data.
    pub fn get_offset(&self, flag: RequestFlags) -> (r: Option<usize>)
        ensures
            match field_offset(self@.0, self@.1, flag.0) {
                Some(off) => r == Some(off as usize),
                None => r is None,
            },
    {
        let request = self.request.0;
        if request & flag.0 == 0 {
            return None;
        }
        let len = self.data.len();
        let mut offset: u64 = 0;
        let mut i: usize = 0;
        while i < 16
            invariant
                i <= 16,
                request == self@.0,
                len == self@.1.len(),
                request & flag.0 != 0,
                offset <= i * max_field_size(),
                field_offset_from(request, self@.1, flag.0, 0, 0) == field_offset_from(
                    request,
                    self@.1,
                    flag.0,
                    i as int,
                    offset as int,
                ),
            decreases 16 - i,
        {
            let f = request_flag_bits_at(i);
            if request & f != 0 {
                if f == flag.0 {
                    if offset <= len as u64 {
                        return Some(offset as usize);
                    } else {
                        return None;
                    }
                }
                if i == 4 {
                    offset = offset + 8;
                } else if i == 5 || i == 6 || i == 7 || i == 11 || i == 12 {
                    offset = offset + 8;
                } else if i == 8 || i == 10 {
                    offset = offset + 4;
                } else {
                    if offset > len as u64 || len as u64 - offset < 4 {
                        return None;
                    }
                    let n = read_u32_le(self.data, offset as usize);
                    offset = offset + 4 + (n as u64 + 1) * 2;
                }
            }
            i += 1;
        }
        None
    }

    /// The UTF-16 units of the string value of `flag`.
    pub fn get_str(&self, flag: RequestFlags) -> (r: Option<Vec<u16>>)
        ensures
            match field_offset(self@.0, self@.1, flag.0) {
                Some(off) => match str_units_at(self@.1, off) {
                    Some(u) => r is Some && r->0@ == u,
                    None => r is None,
                },
                None => r is None,
            },
    {
        let off = match self.get_offset(flag) {
            Some(o) => o,
            None => return None,
        };
        let len = self.data.len();
        if off > len || len - off < 4 {
            return None;
        }
        let n = read_u32_le(self.data, off);
        if (len - off - 4) / 2 < n as usize {
            return None;
        }
        let mut units: Vec<u16> = Vec::new();
        let mut k: usize = 0;
        while k < n as usize
            invariant
                k <= n,
                off + 4 + 2 * n <= len,
                len == self@.1.len(),
                n == le_u32(self@.1, off as int),
                units@.len() == k,
                forall|j: int| 0 <= j < k ==> units@[j] == le_u16(self@.1, off + 4 + 2 * j),
            decreases n - k,
        {
            units.push(read_u16_le(self.data, off + 4 + 2 * k));
            k += 1;
        }
        proof {
            let ghost want = str_units_at(self@.1, off as int);
            assert(want is Some);
            assert(units@ =~= want->0);
        }
        Some(units)
    }

    /// Get size value for a request flag.
    pub fn get_size(&self, flag: RequestFlags) -> (r: Option<u64>)
        ensures
            r == match field_offset(self@.0, self@.1, flag.0) {
                Some(off) => u64_at(self@.1, off),
                None => None,
            },
    {
        let off = match self.get_offset(flag) {
            Some(o) => o,
            None => return None,
        };
        if off > self.data.len() || self.data.len() - off < 8 {
            return None;
        }
        Some(read_u64_le(self.data, off))
    }

    /// Get date value for a request flag.
    pub fn get_time(&self, flag: RequestFlags) -> (r: Option<FILETIME>)
        ensures
            r == match field_offset(self@.0, self@.1, flag.0) {
                Some(off) => filetime_at(self@.1, off),
                None => None,
            },
    {
        let off = match self.get_offset(flag) {
            Some(o) => o,
            None => return None,
        };
        if off > self.data.len() || self.data.len() - off < 8 {
            return None;
        }
        Some(
            FILETIME {
                dwLowDateTime: read_u32_le(self.data, off),
                dwHighDateTime: read_u32_le(self.data, off + 4),
            },
        )
    }

    /// Get dword value for a request flag.
    pub fn get_u32(&self, flag: RequestFlags) -> (r: Option<u32>)
        ensures
            r == match field_offset(self@.0, self@.1, flag.0) {
                Some(off) => u32_at(self@.1, off),
                None => None,
            },
    {
        let off = match self.get_offset(flag) {
            Some(o) => o,
            None => return None,
        };
        if off > self.data.len() || self.data.len() - off < 4 {
            return None;
        }
        Some(read_u32_le(self.data, off))
    }

    /// The value of a single request flag, typed by the flag's kind.
    pub fn get(&self, flag: RequestFlags) -> (r: Option<QueryValue>)
        requires
            is_request_flag(flag.0),
        ensures
            match r {
                Some(v) => item_value(self@.0, self@.1, flag.0) == Some(v@),
                None => item_value(self@.0, self@.1, flag.0) is None,
            },
    {
        match flag.data_type() {
            RequestDataType::Str => match self.get_str(flag) {
                Some(s) => Some(QueryValue::Str(s)),
                None => None,
            },
            RequestDataType::Size => match self.get_size(flag) {
                Some(v) => Some(QueryValue::Size(v)),
                None => None,
            },
            RequestDataType::Date => match self.get_time(flag) {
                Some(t) => Some(QueryValue::Time(t)),
                None => None,
            },
            RequestDataType::Dword => match self.get_u32(flag) {
                Some(v) => Some(QueryValue::U32(v)),
                None => None,
            },
        }
    }
}

/// True when every requested field of an item can be read from its data.
pub open spec fn item_complete(request: u32, data: Seq<u8>) -> bool {
    forall|i: int|
        0 <= i < 16 && #[trigger] (request & request_flag_at(i)) != 0 ==> item_value(
            request,
            data,
            request_flag_at(i),
        ) is Some
}

/// Each reply-layout position holds a single request flag.
pub proof fn lemma_flag_at_is_flag(i: int)
    requires
        0 <= i < 16,
    ensures
        request_flag_index(request_flag_at(i)) == i,
        is_request_flag(request_flag_at(i)),
{
}

impl<'a> QueryItem<'a> {
    /// Get string value for a request flag, decoded lossily.
    pub fn get_string(&self, flag: RequestFlags) -> (r: Option<String>)
        ensures
            match field_offset(self@.0, self@.1, flag.0) {
                Some(off) => match str_units_at(self@.1, off) {
                    Some(u) => r is Some && r->0@ == utf16_lossy(u) && (forall|t: Seq<char>|
                        u == #[trigger] encode_utf16(t) ==> r->0@ == t),
                    None => r is None,
                },
                None => r is None,
            },
    {
        match self.get_str(flag) {
            Some(units) => Some(units_to_string_lossy(units.as_slice())),
            None => None,
        }
    }

    /// The requested flags, in reply-layout order.
    pub fn keys(&self) -> (r: Vec<RequestFlags>)
        ensures
            r@ == request_flags_upto(self@.0, 16),
    {
        self.request.iter()
    }

    /// The requested flags with their values, in reply-layout order.
    pub fn items(&self) -> (r: Vec<(RequestFlags, QueryValue)>)
        requires
            item_complete(self@.0, self@.1),
        ensures
            r@.len() == request_flag_positions_upto(self@.0, 16).len(),
            forall|k: int|
                0 <= k < r@.len() ==> {
                    let i = #[trigger] request_flag_positions_upto(self@.0, 16)[k];
                    &&& r@[k].0 == RequestFlags(request_flag_at(i))
                    &&& item_value(self@.0, self@.1, request_flag_at(i)) == Some(r@[k].1@)
                },
    {
        let mut out: Vec<(RequestFlags, QueryValue)> = Vec::new();
        let mut i: usize = 0;
        while i < 16
            invariant
                i <= 16,
                item_complete(self@.0, self@.1),
                out@.len() == request_flag_positions_upto(self@.0, i as int).len(),
                forall|k: int|
                    0 <= k < out@.len() ==> {
                        let j = #[trigger] request_flag_positions_upto(self@.0, i as int)[k];
                        &&& out@[k].0 == RequestFlags(request_flag_at(j))
                        &&& item_value(self@.0, self@.1, request_flag_at(j)) == Some(out@[k].1@)
                    },
            decreases 16 - i,
        {
            let f = request_flag_bits_at(i);
            if self.request.0 & f != 0 {
                proof {
                    lemma_flag_at_is_flag(i as int);
                }
                match self.get(RequestFlags(f)) {
                    Some(v) => out.push((RequestFlags(f), v)),
                    None => {
                        proof {
                            assert(false);
                        }
                    },
                }
            }
            i += 1;
        }
        out
    }

    /// The requested flags with their names and values, in reply-layout order.
    pub fn items_with_name(&self) -> (r: Vec<(&'static str, RequestFlags, QueryValue)>)
        requires
            item_complete(self@.0, self@.1),
        ensures
            r@.len() == request_flag_positions_upto(self@.0, 16).len(),
            forall|k: int|
                0 <= k < r@.len() ==> {
                    let i = #[trigger] request_flag_positions_upto(self@.0, 16)[k];
                    &&& r@[k].0@ == request_flag_name(i)
                    &&& r@[k].1 == RequestFlags(request_flag_at(i))
                    &&& item_value(self@.0, self@.1, request_flag_at(i)) == Some(r@[k].2@)
                },
    {
        let mut out: Vec<(&'static str, RequestFlags, QueryValue)> = Vec::new();
        let mut i: usize = 0;
        while i < 16
            invariant
                i <= 16,
                item_complete(self@.0, self@.1),
                out@.len() == request_flag_positions_upto(self@.0, i as int).len(),
                forall|k: int|
                    0 <= k < out@.len() ==> {
                        let j = #[trigger] request_flag_positions_upto(self@.0, i as int)[k];
                        &&& out@[k].0@ == request_flag_name(j)
                        &&& out@[k].1 == RequestFlags(request_flag_at(j))
                        &&& item_value(self@.0, self@.1, request_flag_at(j)) == Some(out@[k].2@)
                    },
            decreases 16 - i,
        {
            let f = request_flag_bits_at(i);
            if self.request.0 & f != 0 {
                proof {
                    lemma_flag_at_is_flag(i as int);
                }
                match self.get(RequestFlags(f)) {
                    Some(v) => out.push((request_flag_name_at(i), RequestFlags(f), v)),
                    None => {
                        proof {
                            assert(false);
                        }
                    },
                }
            }
            i += 1;
        }
        out
    }
}

/// True when `data` starts with a reply header whose sort order is one Everything defines.
pub open spec fn reply_header_valid(data: Seq<u8>) -> bool {
    data.len() >= list_header_len() && sort_from_repr(le_u32(data, 16)) is Some
}

/// Byte offset of the record of item `index` in a reply.
pub open spec fn item_record_at(index: int) -> int {
    list_header_len() + 8 * index
}

/// The data of item `index` of a reply: from the item's data offset to the
/// end of the reply; `None` past the available items, or when the record or
/// the offset lies beyond the reply.
pub open spec fn reply_item_data(data: Seq<u8>, index: int) -> Option<Seq<u8>> {
    if 0 <= index < le_u32(data, 4) && item_record_at(index) + 8 <= data.len() && le_u32(
        data,
        item_record_at(index) + 4,
    ) <= data.len() {
        Some(data.subrange(le_u32(data, item_record_at(index) + 4) as int, data.len() as int))
    } else {
        None
    }
}

/// Query results from Everything: a reply and the header read from it.
#[derive(Debug)]
pub struct QueryList {
    id: u32,
    data: Box<[u8]>,
    offset: u32,
    len: u32,
    total_len: u32,
    request_flags: RequestFlags,
    sort: Sort,
}

impl View for QueryList {
    /// The query ID and the reply bytes.
    type V = (u32, Seq<u8>);

    closed spec fn view(&self) -> (u32, Seq<u8>) {
        (self.id, self.data@)
    }
}

impl QueryList {
    /// The header fields agree with the reply bytes.
    #[verifier::type_invariant]
    closed spec fn header_matches(self) -> bool {
        &&& reply_header_valid(self.data@)
        &&& self.total_len == le_u32(self.data@, 0)
        &&& self.len == le_u32(self.data@, 4)
        &&& self.offset == le_u32(self.data@, 8)
        &&& self.request_flags.0 == le_u32(self.data@, 12) & request_flags_all_bits()
        &&& sort_from_repr(le_u32(self.data@, 16)) == Some(self.sort)
    }

    /// True when `data` can be read as a reply: a whole header with a known sort order.
    pub fn header_is_valid(data: &[u8]) -> (r: bool)
        ensures
            r == reply_header_valid(data@),
    {
        if data.len() < 20 {
            return false;
        }
        Sort::try_from_repr(read_u32_le(data, 16)).is_some()
    }

    /// Reads the header of a reply with the given query ID.
    pub fn new(id: u32, data: Box<[u8]>) -> (r: QueryList)
        requires
            reply_header_valid(data@),
        ensures
            r@ == (id, data@),
    {
        let header = EverythingIpcList2::from_bytes(&data);
        let sort = match Sort::try_from_repr(header.sort_type) {
            Some(s) => s,
            None => {
                proof {
                    assert(false);
                }
                Sort::NameAscending
            },
        };
        QueryList {
            id,
            data,
            len: header.numitems,
            offset: header.offset,
            total_len: header.totitems,
            request_flags: RequestFlags::from_bits_truncate(header.request_flags),
            sort,
        }
    }

    /// Get the query ID.
    pub fn id(&self) -> (r: u32)
        ensures
            r == self@.0,
    {
        self.id
    }

    /// Check if results are empty.
    pub fn is_empty(&self) -> (r: bool)
        ensures
            r == (le_u32(self@.1, 4) == 0),
    {
        proof {
            use_type_invariant(self);
        }
        self.len() == 0
    }

    /// Get the offset of the first result.
    pub fn offset(&self) -> (r: u32)
        ensures
            r == le_u32(self@.1, 8),
    {
        proof {
            use_type_invariant(self);
        }
        self.offset
    }

    /// Number of available items.
    pub fn len(&self) -> (r: usize)
        ensures
            r == le_u32(self@.1, 4),
    {
        proof {
            use_type_invariant(self);
        }
        self.len as usize
    }

    /// Get the number of found items.
    pub fn total_len(&self) -> (r: usize)
        ensures
            r == le_u32(self@.1, 0),
    {
        proof {
            use_type_invariant(self);
        }
        self.total_len as usize
    }

    /// Get the request flags.
    pub fn request_flags(&self) -> (r: RequestFlags)
        ensures
            r.0 == le_u32(self@.1, 12) & request_flags_all_bits(),
    {
        proof {
            use_type_invariant(self);
        }
        self.request_flags
    }

    /// Get the sort type.
    pub fn sort(&self) -> (r: Sort)
        ensures
            sort_from_repr(le_u32(self@.1, 16)) == Some(r),
    {
        proof {
            use_type_invariant(self);
        }
        self.sort
    }

    /// Get item at index.
    pub fn get(&self, index: usize) -> (r: Option<QueryItem<'_>>)
        ensures
            match reply_item_data(self@.1, index as int) {
                Some(d) => r is Some && r->0@ == (le_u32(self@.1, 12) & request_flags_all_bits(), d),
                None => r is None,
            },
    {
        proof {
            use_type_invariant(self);
        }
        let data: &[u8] = &self.data;
        if index >= self.len() {
            return None;
        }
        let n = data.len();
        if (n - 20) / 8 <= index {
            return None;
        }
        let at = 20 + index * 8;
        let item = EverythingIpcItem2::from_bytes(data, at);
        let data_offset = item.data_offset as usize;
        if data_offset > n {
            return None;
        }
        Some(QueryItem::new(self.request_flags, &data[data_offset..n]))
    }

    /// Iterator over all items.
    pub fn iter(&self) -> (r: QueryListIter<'_>)
        ensures
            r@ == (self@, 0usize),
    {
        QueryListIter { list: self, index: 0 }
    }
}

/// Iterator over a query list.
pub struct QueryListIter<'a> {
    list: &'a QueryList,
    index: usize,
}

impl<'a> View for QueryListIter<'a> {
    /// The list and the index of the next item.
    type V = ((u32, Seq<u8>), usize);

    closed spec fn view(&self) -> ((u32, Seq<u8>), usize) {
        (self.list@, self.index)
    }
}

impl<'a> QueryListIter<'a> {
    /// The next item: the one at the current index, which then moves on.
    pub fn next(&mut self) -> (r: Option<QueryItem<'a>>)
        ensures
            final(self)@.0 == old(self)@.0,
            final(self)@.1 == if old(self)@.1 < usize::MAX {
                (old(self)@.1 + 1) as usize
            } else {
                old(self)@.1
            },
            match reply_item_data(old(self)@.0.1, old(self)@.1 as int) {
                Some(d) => r is Some && r->0@ == (
                    le_u32(old(self)@.0.1, 12) & request_flags_all_bits(),
                    d,
                ),
                None => r is None,
            },
    {
        let item = self.list.get(self.index);
        if self.index < usize::MAX {
            self.index = self.index + 1;
        }
        item
    }

    /// Number of items left, as lower and upper bound.
    pub fn size_hint(&self) -> (r: (usize, Option<usize>))
        ensures
            r.0 == if le_u32(self@.0.1, 4) >= self@.1 {
                le_u32(self@.0.1, 4) - self@.1
            } else {
                0
            },
            r.1 == Some(r.0),
    {
        let len = self.list.len();
        let size = if len >= self.index {
            len - self.index
        } else {
            0
        };
        (size, Some(size))
    }
}

/// The bytes of a reply header.
pub open spec fn list_header_bytes(h: EverythingIpcList2) -> Seq<u8> {
    u32_le(h.totitems) + u32_le(h.numitems) + u32_le(h.offset) + u32_le(h.request_flags) + u32_le(
        h.sort_type,
    )
}

/// A reply that starts with an encoded header reads that header back, the
/// fields that a [`QueryList`] reports among them; and it can be read as a
/// reply exactly when the header's sort order is one Everything defines.
pub proof fn lemma_reply_header_fields(h: EverythingIpcList2, rest: Seq<u8>)
    ensures
        ({
            let data = list_header_bytes(h) + rest;
            &&& le_u32(data, 0) == h.totitems
            &&& le_u32(data, 4) == h.numitems
            &&& le_u32(data, 8) == h.offset
            &&& le_u32(data, 12) == h.request_flags
            &&& le_u32(data, 16) == h.sort_type
            &&& reply_header_valid(data) == (sort_from_repr(h.sort_type) is Some)
        }),
{
    let e = Seq::<u8>::empty();
    let b = list_header_bytes(h) + rest;
    let u0 = u32_le(h.totitems);
    let u1 = u32_le(h.numitems);
    let u2 = u32_le(h.offset);
    let u3 = u32_le(h.request_flags);
    let u4 = u32_le(h.sort_type);
    assert(b =~= e + u0 + (u1 + u2 + u3 + u4 + rest));
    lemma_le_u32_in_concat(e, h.totitems, u1 + u2 + u3 + u4 + rest);
    assert(b =~= u0 + u1 + (u2 + u3 + u4 + rest));
    lemma_le_u32_in_concat(u0, h.numitems, u2 + u3 + u4 + rest);
    assert(b =~= (u0 + u1) + u2 + (u3 + u4 + rest));
    lemma_le_u32_in_concat(u0 + u1, h.offset, u3 + u4 + rest);
    assert(b =~= (u0 + u1 + u2) + u3 + (u4 + rest));
    lemma_le_u32_in_concat(u0 + u1 + u2, h.request_flags, u4 + rest);
    assert(b =~= (u0 + u1 + u2 + u3) + u4 + rest);
    lemma_le_u32_in_concat(u0 + u1 + u2 + u3, h.sort_type, rest);
}

/// When every item record and every data offset lies within the reply, the
/// items there are exactly those below the header's available count.
pub proof fn lemma_reply_items_in_range(data: Seq<u8>, index: int)
    requires
        item_record_at(le_u32(data, 4) as int) <= data.len(),
        forall|i: int|
            0 <= i < le_u32(data, 4) ==> le_u32(data, #[trigger] item_record_at(i) + 4)
                <= data.len(),
    ensures
        reply_item_data(data, index) is Some <==> 0 <= index < le_u32(data, 4),
{
    if 0 <= index < le_u32(data, 4) {
        assert(le_u32(data, item_record_at(index) + 4) <= data.len());
    }
}

/// How far each kind of field reaches in an item: a date is a `FILETIME`
/// (8 bytes), a size a `u64` (8 bytes), a dword 4 bytes, and a string its
/// 4-byte length in units followed by the units and a null unit. So a field
/// that follows a date starts 8 bytes after it.
pub proof fn lemma_field_sizes(data: Seq<u8>, off: int)
    requires
        0 <= off,
        off + 4 <= data.len(),
    ensures
        field_size(data, off, RequestDataType::Date) == Some(8int),
        field_size(data, off, RequestDataType::Size) == Some(8int),
        field_size(data, off, RequestDataType::Dword) == Some(4int),
        field_size(data, off, RequestDataType::Str) == Some(4 + 2 * (le_u32(data, off) + 1)),
{
}

/// Iteration over a reply whose item records and data offsets all lie
/// inside it stays exhausted: once [`QueryListIter::next`] finds no item at
/// an index, it finds none at any later index.
pub proof fn lemma_iter_stays_exhausted(data: Seq<u8>, k: int, j: int)
    requires
        0 <= k <= j,
        reply_item_data(data, k) is None,
        item_record_at(le_u32(data, 4) as int) <= data.len(),
        forall|i: int|
            0 <= i < le_u32(data, 4) ==> le_u32(data, #[trigger] item_record_at(i) + 4)
                <= data.len(),
    ensures
        reply_item_data(data, j) is None,
{
    lemma_reply_items_in_range(data, k);
    lemma_reply_items_in_range(data, j);
}

} // verus!
