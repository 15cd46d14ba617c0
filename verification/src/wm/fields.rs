//! How a reply item stores its fields, and the law that every requested
//! field reads back as the value stored for it.

use vstd::prelude::*;

use crate::bytes::{
    le_u16, lemma_le_u32_in_concat, lemma_u16_le_roundtrip, u16_le, u16s_le, u32_le,
};
use crate::wm::flags::{
    lemma_request_flags_distinct, request_data_type_at, request_flag_at, RequestDataType,
};
use crate::wm::list::{field_offset, field_offset_from, field_size, item_value, value_at, QueryValueView};
use crate::wm::query::{lemma_u16s_le_at, lemma_u16s_le_len};

verus! {

/// The little-endian bytes of a `u64`.
pub open spec fn u64_le(x: u64) -> Seq<u8> {
    u32_le((x % 0x1_0000_0000) as u32) + u32_le((x / 0x1_0000_0000) as u32)
}

/// The bytes of a field value in an item: a string as its length in units,
/// the units and a null unit; a size as a `u64`; a date as its low and high
/// halves; a dword as a `u32`. All little-endian.
pub open spec fn value_bytes(v: QueryValueView) -> Seq<u8> {
    match v {
        QueryValueView::Str(u) => u32_le(u.len() as u32) + u16s_le(u) + u16_le(0),
        QueryValueView::Size(x) => u64_le(x),
        QueryValueView::Time(t) => u32_le(t.dwLowDateTime) + u32_le(t.dwHighDateTime),
        QueryValueView::U32(x) => u32_le(x),
    }
}

/// A value of the kind that position `i` asks for; a string no longer than
/// its length field can say.
pub open spec fn value_fits(i: int, v: QueryValueView) -> bool {
    match v {
        QueryValueView::Str(u) => request_data_type_at(i) == RequestDataType::Str && u.len()
            <= u32::MAX,
        QueryValueView::Size(_) => request_data_type_at(i) == RequestDataType::Size,
        QueryValueView::Time(_) => request_data_type_at(i) == RequestDataType::Date,
        QueryValueView::U32(_) => request_data_type_at(i) == RequestDataType::Dword,
    }
}

/// The data of an item from position `i` on: the value of each requested
/// position, in reply-layout order.
pub open spec fn item_bytes_from(request: u32, values: Seq<QueryValueView>, i: int) -> Seq<u8>
    decreases 16 - i,
{
    if i < 0 || i >= 16 {
        Seq::empty()
    } else if request & request_flag_at(i) == 0 {
        item_bytes_from(request, values, i + 1)
    } else {
        value_bytes(values[i]) + item_bytes_from(request, values, i + 1)
    }
}

/// The data of an item that holds `values[i]` for each requested position `i`.
pub open spec fn item_bytes(request: u32, values: Seq<QueryValueView>) -> Seq<u8> {
    item_bytes_from(request, values, 0)
}

/// A value stored after any prefix is as long as its kind says and reads
/// back as itself.
proof fn lemma_value_reads_back(pre: Seq<u8>, v: QueryValueView, post: Seq<u8>, i: int)
    requires
        0 <= i < 16,
        value_fits(i, v),
    ensures
        field_size(pre + value_bytes(v) + post, pre.len() as int, request_data_type_at(i))
            == Some(value_bytes(v).len() as int),
        value_at(pre + value_bytes(v) + post, pre.len() as int, request_data_type_at(i)) == Some(v),
{
    let data = pre + value_bytes(v) + post;
    let off = pre.len() as int;
    match v {
        QueryValueView::Str(u) => {
            let n = u.len() as u32;
            lemma_u16s_le_len(u);
            assert(data =~= pre + u32_le(n) + (u16s_le(u) + u16_le(0) + post));
            lemma_le_u32_in_concat(pre, n, u16s_le(u) + u16_le(0) + post);
            let got = Seq::new(n as nat, |k: int| le_u16(data, off + 4 + 2 * k));
            assert forall|k: int| 0 <= k < n implies #[trigger] got[k] == u[k] by {
                lemma_u16s_le_at(u, k);
                lemma_u16_le_roundtrip(u[k]);
                assert(data[off + 4 + 2 * k] == u16s_le(u)[2 * k]);
                assert(data[off + 4 + 2 * k + 1] == u16s_le(u)[2 * k + 1]);
            }
            assert(got =~= u);
        },
        QueryValueView::Size(x) => {
            let lo = (x % 0x1_0000_0000) as u32;
            let hi = (x / 0x1_0000_0000) as u32;
            assert(x % 0x1_0000_0000 < 0x1_0000_0000 && x / 0x1_0000_0000 < 0x1_0000_0000)
                by (bit_vector);
            assert(x == (x % 0x1_0000_0000) + (x / 0x1_0000_0000) * 0x1_0000_0000)
                by (bit_vector);
            assert(data =~= pre + u32_le(lo) + (u32_le(hi) + post));
            lemma_le_u32_in_concat(pre, lo, u32_le(hi) + post);
            assert(data =~= (pre + u32_le(lo)) + u32_le(hi) + post);
            lemma_le_u32_in_concat(pre + u32_le(lo), hi, post);
        },
        QueryValueView::Time(t) => {
            assert(data =~= pre + u32_le(t.dwLowDateTime) + (u32_le(t.dwHighDateTime) + post));
            lemma_le_u32_in_concat(pre, t.dwLowDateTime, u32_le(t.dwHighDateTime) + post);
            assert(data =~= (pre + u32_le(t.dwLowDateTime)) + u32_le(t.dwHighDateTime) + post);
            lemma_le_u32_in_concat(pre + u32_le(t.dwLowDateTime), t.dwHighDateTime, post);
        },
        QueryValueView::U32(x) => {
            lemma_le_u32_in_concat(pre, x, post);
        },
    }
}

/// Walking the requested positions from `k` over stored values reaches the
/// field of position `i` where its value is stored.
proof fn lemma_walk_to_field(
    request: u32,
    values: Seq<QueryValueView>,
    pre: Seq<u8>,
    post: Seq<u8>,
    k: int,
    i: int,
)
    requires
        0 <= k <= i < 16,
        request & request_flag_at(i) != 0,
        values.len() == 16,
        forall|j: int| 0 <= j < 16 ==> value_fits(j, #[trigger] values[j]),
    ensures
        ({
            let data = pre + item_bytes_from(request, values, k) + post;
            match field_offset_from(request, data, request_flag_at(i), k, pre.len() as int) {
                Some(o) => pre.len() <= o <= data.len() && data.subrange(o, data.len() as int)
                    == item_bytes_from(request, values, i) + post,
                None => false,
            }
        }),
    decreases i - k,
{
    let data = pre + item_bytes_from(request, values, k) + post;
    if k == i {
        assert(data.subrange(pre.len() as int, data.len() as int) =~= item_bytes_from(
            request,
            values,
            i,
        ) + post);
    } else if request & request_flag_at(k) == 0 {
        lemma_walk_to_field(request, values, pre, post, k + 1, i);
    } else {
        lemma_request_flags_distinct(k, i);
        let vb = value_bytes(values[k]);
        let rest = item_bytes_from(request, values, k + 1) + post;
        assert(data =~= pre + vb + rest);
        lemma_value_reads_back(pre, values[k], rest, k);
        assert(data =~= (pre + vb) + item_bytes_from(request, values, k + 1) + post);
        lemma_walk_to_field(request, values, pre + vb, post, k + 1, i);
    }
}

/// What a reply stores, an item reads back: in the data of an item that
/// holds a value for each requested position, in reply-layout order, each
/// requested field reads back as the value stored for it, whatever follows
/// the item.
pub proof fn lemma_item_fields_read_back(
    request: u32,
    values: Seq<QueryValueView>,
    post: Seq<u8>,
    i: int,
)
    requires
        0 <= i < 16,
        request & request_flag_at(i) != 0,
        values.len() == 16,
        forall|j: int| 0 <= j < 16 ==> value_fits(j, #[trigger] values[j]),
    ensures
        item_value(request, item_bytes(request, values) + post, request_flag_at(i)) == Some(
            values[i],
        ),
{
    let data = item_bytes(request, values) + post;
    let e = Seq::<u8>::empty();
    assert(data =~= e + item_bytes_from(request, values, 0) + post);
    lemma_walk_to_field(request, values, e, post, 0, i);
    lemma_request_flags_distinct(i, i);
    let o = field_offset_from(request, data, request_flag_at(i), 0, 0)->0;
    assert(field_offset(request, data, request_flag_at(i)) == Some(o));
    let tail = item_bytes_from(request, values, i + 1) + post;
    assert(data.subrange(o, data.len() as int) =~= value_bytes(values[i]) + tail);
    assert(data =~= data.take(o) + data.subrange(o, data.len() as int));
    assert(data =~= data.take(o) + value_bytes(values[i]) + tail);
    lemma_value_reads_back(data.take(o), values[i], tail, i);
}

} // verus!
