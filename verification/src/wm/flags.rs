use vstd::prelude::*;
use vstd::std_specs::ops::{BitOrSpec, NotSpec};

verus! {

/// Search flags of an Everything query.
#[derive(Debug, Clone, Copy, PartialEq, Eq, Structural, Hash)]
pub struct SearchFlags(pub u32);

/// The bits that [`SearchFlags`] defines.
pub open spec fn search_flags_all_bits() -> u32 {
    0x1F
}

#[allow(non_snake_case)]
impl SearchFlags {
    pub fn MatchCase() -> (r: SearchFlags)
        ensures
            r.0 == 0x1,
    {
        SearchFlags(0x1)
    }

    pub fn MatchWholeWord() -> (r: SearchFlags)
        ensures
            r.0 == 0x2,
    {
        SearchFlags(0x2)
    }

    pub fn MatchPath() -> (r: SearchFlags)
        ensures
            r.0 == 0x4,
    {
        SearchFlags(0x4)
    }

    pub fn Regex() -> (r: SearchFlags)
        ensures
            r.0 == 0x8,
    {
        SearchFlags(0x8)
    }

    /// Abandoned?
    pub fn MatchAccents() -> (r: SearchFlags)
        ensures
            r.0 == 0x10,
    {
        SearchFlags(0x10)
    }

    /// The raw bits.
    pub fn bits(&self) -> (r: u32)
        ensures
            r == self.0,
    {
        self.0
    }

    /// No flag set.
    pub fn empty() -> (r: SearchFlags)
        ensures
            r.0 == 0,
    {
        SearchFlags(0)
    }

    /// Keeps only the bits that a flag defines.
    pub fn from_bits_truncate(bits: u32) -> (r: SearchFlags)
        ensures
            r.0 == bits & search_flags_all_bits(),
    {
        SearchFlags(bits & 0x1F)
    }
}

impl core::ops::BitOr for SearchFlags {
    type Output = SearchFlags;

    fn bitor(self, rhs: SearchFlags) -> (r: SearchFlags) {
        SearchFlags(self.0 | rhs.0)
    }
}

impl vstd::std_specs::ops::BitOrSpecImpl for SearchFlags {
    open spec fn obeys_bitor_spec() -> bool {
        true
    }

    open spec fn bitor_req(self, rhs: SearchFlags) -> bool {
        true
    }

    open spec fn bitor_spec(self, rhs: SearchFlags) -> SearchFlags {
        SearchFlags(self.0 | rhs.0)
    }
}

impl core::ops::Not for SearchFlags {
    type Output = SearchFlags;

    fn not(self) -> (r: SearchFlags) {
        SearchFlags(!self.0 & 0x1F)
    }
}

impl vstd::std_specs::ops::NotSpecImpl for SearchFlags {
    open spec fn obeys_not_spec() -> bool {
        true
    }

    open spec fn not_req(self) -> bool {
        true
    }

    open spec fn not_spec(self) -> SearchFlags {
        SearchFlags(!self.0 & search_flags_all_bits())
    }
}

impl Default for SearchFlags {
    fn default() -> (r: SearchFlags)
        ensures
            r.0 == 0,
    {
        SearchFlags(0)
    }
}

/// The kind of value a request flag asks for.
#[derive(Debug, Clone, Copy, PartialEq, Eq, Structural)]
pub enum RequestDataType {
    Str,
    Size,
    Date,
    Dword,
}

/// Request flags of an Everything query.
#[derive(Debug, Clone, Copy, PartialEq, Eq, Structural, Hash)]
pub struct RequestFlags(pub u32);

/// The bits that [`RequestFlags`] defines.
pub open spec fn request_flags_all_bits() -> u32 {
    0xFFFF
}

/// The flag at position `i` of the reply layout: bit `i`.
pub open spec fn request_flag_at(i: int) -> u32 {
    if i == 0 {
        0x1
    } else if i == 1 {
        0x2
    } else if i == 2 {
        0x4
    } else if i == 3 {
        0x8
    } else if i == 4 {
        0x10
    } else if i == 5 {
        0x20
    } else if i == 6 {
        0x40
    } else if i == 7 {
        0x80
    } else if i == 8 {
        0x100
    } else if i == 9 {
        0x200
    } else if i == 10 {
        0x400
    } else if i == 11 {
        0x800
    } else if i == 12 {
        0x1000
    } else if i == 13 {
        0x2000
    } else if i == 14 {
        0x4000
    } else {
        0x8000
    }
}

/// The position of a single request flag, or -1 when `bits` is not one.
pub open spec fn request_flag_index(bits: u32) -> int {
    if bits == 0x1 {
        0
    } else if bits == 0x2 {
        1
    } else if bits == 0x4 {
        2
    } else if bits == 0x8 {
        3
    } else if bits == 0x10 {
        4
    } else if bits == 0x20 {
        5
    } else if bits == 0x40 {
        6
    } else if bits == 0x80 {
        7
    } else if bits == 0x100 {
        8
    } else if bits == 0x200 {
        9
    } else if bits == 0x400 {
        10
    } else if bits == 0x800 {
        11
    } else if bits == 0x1000 {
        12
    } else if bits == 0x2000 {
        13
    } else if bits == 0x4000 {
        14
    } else if bits == 0x8000 {
        15
    } else {
        -1
    }
}

/// True when `bits` is exactly one defined request flag.
pub open spec fn is_request_flag(bits: u32) -> bool {
    request_flag_index(bits) >= 0
}

/// The kind of value that the flag at position `i` asks for.
pub open spec fn request_data_type_at(i: int) -> RequestDataType {
    if i == 4 {
        RequestDataType::Size
    } else if i == 5 || i == 6 || i == 7 || i == 11 || i == 12 {
        RequestDataType::Date
    } else if i == 8 || i == 10 {
        RequestDataType::Dword
    } else {
        RequestDataType::Str
    }
}

/// The name of the flag at position `i`.
pub open spec fn request_flag_name(i: int) -> Seq<char> {
    if i == 0 {
        "FileName"@
    } else if i == 1 {
        "Path"@
    } else if i == 2 {
        "FullPathAndFileName"@
    } else if i == 3 {
        "Extension"@
    } else if i == 4 {
        "Size"@
    } else if i == 5 {
        "DateCreated"@
    } else if i == 6 {
        "DateModified"@
    } else if i == 7 {
        "DateAccessed"@
    } else if i == 8 {
        "Attributes"@
    } else if i == 9 {
        "FileListFileName"@
    } else if i == 10 {
        "RunCount"@
    } else if i == 11 {
        "DateRun"@
    } else if i == 12 {
        "DateRecentlyChanged"@
    } else if i == 13 {
        "HighlightedFileName"@
    } else if i == 14 {
        "HighlightedPath"@
    } else {
        "HighlightedFullPathAndFileName"@
    }
}

/// The flags of `bits` among the first `n` positions, in position order.
pub open spec fn request_flags_upto(bits: u32, n: int) -> Seq<RequestFlags>
    decreases n,
{
    if n <= 0 {
        Seq::empty()
    } else if bits & request_flag_at(n - 1) != 0 {
        request_flags_upto(bits, n - 1).push(RequestFlags(request_flag_at(n - 1)))
    } else {
        request_flags_upto(bits, n - 1)
    }
}

/// The positions of the flags of `bits` among the first `n` positions, in order.
pub open spec fn request_flag_positions_upto(bits: u32, n: int) -> Seq<int>
    decreases n,
{
    if n <= 0 {
        Seq::empty()
    } else if bits & request_flag_at(n - 1) != 0 {
        request_flag_positions_upto(bits, n - 1).push(n - 1)
    } else {
        request_flag_positions_upto(bits, n - 1)
    }
}

/// The flag at position `i` of the reply layout.
pub fn request_flag_bits_at(i: usize) -> (r: u32)
    requires
        i < 16,
    ensures
        r == request_flag_at(i as int),
{
    if i == 0 {
        0x1
    } else if i == 1 {
        0x2
    } else if i == 2 {
        0x4
    } else if i == 3 {
        0x8
    } else if i == 4 {
        0x10
    } else if i == 5 {
        0x20
    } else if i == 6 {
        0x40
    } else if i == 7 {
        0x80
    } else if i == 8 {
        0x100
    } else if i == 9 {
        0x200
    } else if i == 10 {
        0x400
    } else if i == 11 {
        0x800
    } else if i == 12 {
        0x1000
    } else if i == 13 {
        0x2000
    } else if i == 14 {
        0x4000
    } else {
        0x8000
    }
}

/// The name of the flag at position `i`.
pub fn request_flag_name_at(i: usize) -> (r: &'static str)
    requires
        i < 16,
    ensures
        r@ == request_flag_name(i as int),
{
    if i == 0 {
        "FileName"
    } else if i == 1 {
        "Path"
    } else if i == 2 {
        "FullPathAndFileName"
    } else if i == 3 {
        "Extension"
    } else if i == 4 {
        "Size"
    } else if i == 5 {
        "DateCreated"
    } else if i == 6 {
        "DateModified"
    } else if i == 7 {
        "DateAccessed"
    } else if i == 8 {
        "Attributes"
    } else if i == 9 {
        "FileListFileName"
    } else if i == 10 {
        "RunCount"
    } else if i == 11 {
        "DateRun"
    } else if i == 12 {
        "DateRecentlyChanged"
    } else if i == 13 {
        "HighlightedFileName"
    } else if i == 14 {
        "HighlightedPath"
    } else {
        "HighlightedFullPathAndFileName"
    }
}

#[allow(non_snake_case)]
impl RequestFlags {
    pub fn FileName() -> (r: RequestFlags)
        ensures
            r.0 == 0x1,
    {
        RequestFlags(0x1)
    }

    pub fn Path() -> (r: RequestFlags)
        ensures
            r.0 == 0x2,
    {
        RequestFlags(0x2)
    }

    pub fn FullPathAndFileName() -> (r: RequestFlags)
        ensures
            r.0 == 0x4,
    {
        RequestFlags(0x4)
    }

    pub fn Extension() -> (r: RequestFlags)
        ensures
            r.0 == 0x8,
    {
        RequestFlags(0x8)
    }

    pub fn Size() -> (r: RequestFlags)
        ensures
            r.0 == 0x10,
    {
        RequestFlags(0x10)
    }

    pub fn DateCreated() -> (r: RequestFlags)
        ensures
            r.0 == 0x20,
    {
        RequestFlags(0x20)
    }

    pub fn DateModified() -> (r: RequestFlags)
        ensures
            r.0 == 0x40,
    {
        RequestFlags(0x40)
    }

    pub fn DateAccessed() -> (r: RequestFlags)
        ensures
            r.0 == 0x80,
    {
        RequestFlags(0x80)
    }

    pub fn Attributes() -> (r: RequestFlags)
        ensures
            r.0 == 0x100,
    {
        RequestFlags(0x100)
    }

    pub fn FileListFileName() -> (r: RequestFlags)
        ensures
            r.0 == 0x200,
    {
        RequestFlags(0x200)
    }

    pub fn RunCount() -> (r: RequestFlags)
        ensures
            r.0 == 0x400,
    {
        RequestFlags(0x400)
    }

    pub fn DateRun() -> (r: RequestFlags)
        ensures
            r.0 == 0x800,
    {
        RequestFlags(0x800)
    }

    pub fn DateRecentlyChanged() -> (r: RequestFlags)
        ensures
            r.0 == 0x1000,
    {
        RequestFlags(0x1000)
    }

    pub fn HighlightedFileName() -> (r: RequestFlags)
        ensures
            r.0 == 0x2000,
    {
        RequestFlags(0x2000)
    }

    pub fn HighlightedPath() -> (r: RequestFlags)
        ensures
            r.0 == 0x4000,
    {
        RequestFlags(0x4000)
    }

    pub fn HighlightedFullPathAndFileName() -> (r: RequestFlags)
        ensures
            r.0 == 0x8000,
    {
        RequestFlags(0x8000)
    }

    /// The raw bits.
    pub fn bits(&self) -> (r: u32)
        ensures
            r == self.0,
    {
        self.0
    }

    /// No flag set.
    pub fn empty() -> (r: RequestFlags)
        ensures
            r.0 == 0,
    {
        RequestFlags(0)
    }

    /// Every defined flag.
    pub fn all() -> (r: RequestFlags)
        ensures
            r.0 == request_flags_all_bits(),
    {
        RequestFlags(0xFFFF)
    }

    /// Keeps only the bits that a flag defines.
    pub fn from_bits_truncate(bits: u32) -> (r: RequestFlags)
        ensures
            r.0 == bits & request_flags_all_bits(),
    {
        RequestFlags(bits & 0xFFFF)
    }

    /// True when every bit of `other` is set in `self`.
    pub fn contains(&self, other: RequestFlags) -> (r: bool)
        ensures
            r == (self.0 & other.0 == other.0),
    {
        self.0 & other.0 == other.0
    }

    /// The kind of value this single flag asks for.
    pub fn data_type(self) -> (r: RequestDataType)
        requires
            is_request_flag(self.0),
        ensures
            r == request_data_type_at(request_flag_index(self.0)),
    {
        let b = self.0;
        if b == 0x10 {
            RequestDataType::Size
        } else if b == 0x20 || b == 0x40 || b == 0x80 || b == 0x800 || b == 0x1000 {
            RequestDataType::Date
        } else if b == 0x100 || b == 0x400 {
            RequestDataType::Dword
        } else {
            RequestDataType::Str
        }
    }

    /// The set flags, one by one, in reply-layout order.
    pub fn iter(&self) -> (r: Vec<RequestFlags>)
        ensures
            r@ == request_flags_upto(self.0, 16),
    {
        let mut out: Vec<RequestFlags> = Vec::new();
        let mut i: usize = 0;
        while i < 16
            invariant
                i <= 16,
                out@ == request_flags_upto(self.0, i as int),
            decreases 16 - i,
        {
            let f = request_flag_bits_at(i);
            if self.0 & f != 0 {
                out.push(RequestFlags(f));
            }
            i += 1;
        }
        out
    }

    /// The set flags with their names, in reply-layout order.
    pub fn iter_names(&self) -> (r: Vec<(&'static str, RequestFlags)>)
        ensures
            r@.len() == request_flag_positions_upto(self.0, 16).len(),
            forall|k: int|
                0 <= k < r@.len() ==> {
                    let i = #[trigger] request_flag_positions_upto(self.0, 16)[k];
                    &&& r@[k].0@ == request_flag_name(i)
                    &&& r@[k].1 == RequestFlags(request_flag_at(i))
                },
    {
        let mut out: Vec<(&'static str, RequestFlags)> = Vec::new();
        let mut i: usize = 0;
        while i < 16
            invariant
                i <= 16,
                out@.len() == request_flag_positions_upto(self.0, i as int).len(),
                forall|k: int|
                    0 <= k < out@.len() ==> {
                        let j = #[trigger] request_flag_positions_upto(self.0, i as int)[k];
                        &&& out@[k].0@ == request_flag_name(j)
                        &&& out@[k].1 == RequestFlags(request_flag_at(j))
                    },
            decreases 16 - i,
        {
            let f = request_flag_bits_at(i);
            if self.0 & f != 0 {
                out.push((request_flag_name_at(i), RequestFlags(f)));
            }
            i += 1;
        }
        out
    }
}

impl core::ops::BitOr for RequestFlags {
    type Output = RequestFlags;

    fn bitor(self, rhs: RequestFlags) -> (r: RequestFlags) {
        RequestFlags(self.0 | rhs.0)
    }
}

impl vstd::std_specs::ops::BitOrSpecImpl for RequestFlags {
    open spec fn obeys_bitor_spec() -> bool {
        true
    }

    open spec fn bitor_req(self, rhs: RequestFlags) -> bool {
        true
    }

    open spec fn bitor_spec(self, rhs: RequestFlags) -> RequestFlags {
        RequestFlags(self.0 | rhs.0)
    }
}

impl core::ops::Not for RequestFlags {
    type Output = RequestFlags;

    fn not(self) -> (r: RequestFlags) {
        RequestFlags(!self.0 & 0xFFFF)
    }
}

impl vstd::std_specs::ops::NotSpecImpl for RequestFlags {
    open spec fn obeys_not_spec() -> bool {
        true
    }

    open spec fn not_req(self) -> bool {
        true
    }

    open spec fn not_spec(self) -> RequestFlags {
        RequestFlags(!self.0 & request_flags_all_bits())
    }
}

/// The sixteen request flags are distinct single bits, one per position,
/// all among the defined bits.
pub proof fn lemma_request_flags_distinct(i: int, j: int)
    requires
        0 <= i < 16,
        0 <= j < 16,
    ensures
        request_flag_index(request_flag_at(i)) == i,
        request_flag_at(i) & request_flags_all_bits() == request_flag_at(i),
        i != j ==> request_flag_at(i) != request_flag_at(j),
{
    let f = request_flag_at(i);
    assert(f == 0x1 || f == 0x2 || f == 0x4 || f == 0x8 || f == 0x10 || f == 0x20 || f == 0x40
        || f == 0x80 || f == 0x100 || f == 0x200 || f == 0x400 || f == 0x800 || f == 0x1000 || f
        == 0x2000 || f == 0x4000 || f == 0x8000);
    assert(f == 0x1 || f == 0x2 || f == 0x4 || f == 0x8 || f == 0x10 || f == 0x20 || f == 0x40
        || f == 0x80 || f == 0x100 || f == 0x200 || f == 0x400 || f == 0x800 || f == 0x1000 || f
        == 0x2000 || f == 0x4000 || f == 0x8000 ==> f & 0xFFFF == f) by (bit_vector);
}

/// Negating request flags twice keeps the defined bits: `!!f` is
/// `from_bits_truncate(f.bits())`.
pub proof fn lemma_request_flags_not_not(f: RequestFlags)
    ensures
        f.not_spec().not_spec() == RequestFlags(f.0 & request_flags_all_bits()),
        f.not_spec().0 & f.0 == 0,
{
    let x = f.0;
    assert(!(!x & 0xFFFF) & 0xFFFF == x & 0xFFFF) by (bit_vector);
    assert((!x & 0xFFFF) & x == 0) by (bit_vector);
}

/// Negating search flags twice keeps the defined bits.
pub proof fn lemma_search_flags_not_not(f: SearchFlags)
    ensures
        f.not_spec().not_spec() == SearchFlags(f.0 & search_flags_all_bits()),
        f.not_spec().0 & f.0 == 0,
{
    let x = f.0;
    assert(!(!x & 0x1F) & 0x1F == x & 0x1F) by (bit_vector);
    assert((!x & 0x1F) & x == 0) by (bit_vector);
}

/// The union of two sets of request flags contains each of them.
pub proof fn lemma_request_flags_union(a: RequestFlags, b: RequestFlags)
    ensures
        a.bitor_spec(b).0 == a.0 | b.0,
        a.bitor_spec(b).0 & a.0 == a.0,
        a.bitor_spec(b).0 & b.0 == b.0,
{
    let x = a.0;
    let y = b.0;
    assert((x | y) & x == x) by (bit_vector);
    assert((x | y) & y == y) by (bit_vector);
}


/// The name starts with `Date`.
pub open spec fn names_a_date(name: Seq<char>) -> bool {
    name.len() >= 4 && name.take(4) == "Date"@
}

/// The kind of each request flag is the one its field has in
/// `Everything.h`: the `Date*` flags are dates (a `FILETIME`), `Size` is a
/// size, `Attributes` and `RunCount` are dwords, and every other flag (the
/// names and paths) is a string.
pub proof fn lemma_request_data_types(i: int)
    requires
        0 <= i < 16,
    ensures
        (request_data_type_at(i) == RequestDataType::Date) <==> names_a_date(request_flag_name(i)),
        (request_data_type_at(i) == RequestDataType::Size) <==> request_flag_name(i) == "Size"@,
        (request_data_type_at(i) == RequestDataType::Dword) <==> (request_flag_name(i)
            == "Attributes"@ || request_flag_name(i) == "RunCount"@),
{
    reveal_strlit("FileName");
    reveal_strlit("Path");
    reveal_strlit("FullPathAndFileName");
    reveal_strlit("Extension");
    reveal_strlit("Size");
    reveal_strlit("DateCreated");
    reveal_strlit("DateModified");
    reveal_strlit("DateAccessed");
    reveal_strlit("Attributes");
    reveal_strlit("FileListFileName");
    reveal_strlit("RunCount");
    reveal_strlit("DateRun");
    reveal_strlit("DateRecentlyChanged");
    reveal_strlit("HighlightedFileName");
    reveal_strlit("HighlightedPath");
    reveal_strlit("HighlightedFullPathAndFileName");
    reveal_strlit("Date");
    let n = request_flag_name(i);
    if i == 5 || i == 6 || i == 7 || i == 11 || i == 12 {
        assert(n.take(4) =~= "Date"@);
    } else {
        assert(n[0] != 'D');
        assert(n.len() >= 4 ==> n.take(4)[0] != "Date"@[0]);
    }
    if i != 4 {
        assert(n.len() != 4 || n[0] != 'S');
    }
    if i != 8 {
        assert(n.len() != 10 || n[0] != 'A');
    }
    if i != 10 {
        assert(n.len() != 8 || n[0] != 'R');
    }
}


/// The request flag at position `i` of the reply layout is bit `i`: the
/// fields of an item come in the order of their bits.
pub proof fn lemma_request_flag_bits(i: int)
    requires
        0 <= i < 16,
    ensures
        request_flag_at(i) == vstd::arithmetic::power2::pow2(i as nat),
{
    vstd::arithmetic::power2::lemma2_to64();
}

} // verus!
