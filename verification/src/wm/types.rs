use vstd::prelude::*;

use crate::bytes::{le_u32, read_u32_le};

verus! {

/// Sort orders of an Everything query.
#[derive(Debug, Clone, Copy, PartialEq, Eq, Structural, Hash)]
pub enum Sort {
    /// Best performance
    NameAscending,
    NameDescending,
    PathAscending,
    PathDescending,
    SizeAscending,
    SizeDescending,
    ExtensionAscending,
    ExtensionDescending,
    TypeNameAscending,
    TypeNameDescending,
    DateCreatedAscending,
    DateCreatedDescending,
    DateModifiedAscending,
    DateModifiedDescending,
    AttributesAscending,
    AttributesDescending,
    FileListFilenameAscending,
    FileListFilenameDescending,
    RunCountAscending,
    RunCountDescending,
    DateRecentlyChangedAscending,
    DateRecentlyChangedDescending,
    DateAccessedAscending,
    DateAccessedDescending,
    DateRunAscending,
    DateRunDescending,
}

/// The value that stands for a sort order in the IPC protocol.
pub open spec fn sort_repr(s: Sort) -> u32 {
    match s {
        Sort::NameAscending => 1,
        Sort::NameDescending => 2,
        Sort::PathAscending => 3,
        Sort::PathDescending => 4,
        Sort::SizeAscending => 5,
        Sort::SizeDescending => 6,
        Sort::ExtensionAscending => 7,
        Sort::ExtensionDescending => 8,
        Sort::TypeNameAscending => 9,
        Sort::TypeNameDescending => 10,
        Sort::DateCreatedAscending => 11,
        Sort::DateCreatedDescending => 12,
        Sort::DateModifiedAscending => 13,
        Sort::DateModifiedDescending => 14,
        Sort::AttributesAscending => 15,
        Sort::AttributesDescending => 16,
        Sort::FileListFilenameAscending => 17,
        Sort::FileListFilenameDescending => 18,
        Sort::RunCountAscending => 19,
        Sort::RunCountDescending => 20,
        Sort::DateRecentlyChangedAscending => 21,
        Sort::DateRecentlyChangedDescending => 22,
        Sort::DateAccessedAscending => 23,
        Sort::DateAccessedDescending => 24,
        Sort::DateRunAscending => 25,
        Sort::DateRunDescending => 26,
    }
}

/// The sort order that a protocol value stands for, if any.
pub open spec fn sort_from_repr(v: u32) -> Option<Sort> {
    if v == 1 {
        Some(Sort::NameAscending)
    } else if v == 2 {
        Some(Sort::NameDescending)
    } else if v == 3 {
        Some(Sort::PathAscending)
    } else if v == 4 {
        Some(Sort::PathDescending)
    } else if v == 5 {
        Some(Sort::SizeAscending)
    } else if v == 6 {
        Some(Sort::SizeDescending)
    } else if v == 7 {
        Some(Sort::ExtensionAscending)
    } else if v == 8 {
        Some(Sort::ExtensionDescending)
    } else if v == 9 {
        Some(Sort::TypeNameAscending)
    } else if v == 10 {
        Some(Sort::TypeNameDescending)
    } else if v == 11 {
        Some(Sort::DateCreatedAscending)
    } else if v == 12 {
        Some(Sort::DateCreatedDescending)
    } else if v == 13 {
        Some(Sort::DateModifiedAscending)
    } else if v == 14 {
        Some(Sort::DateModifiedDescending)
    } else if v == 15 {
        Some(Sort::AttributesAscending)
    } else if v == 16 {
        Some(Sort::AttributesDescending)
    } else if v == 17 {
        Some(Sort::FileListFilenameAscending)
    } else if v == 18 {
        Some(Sort::FileListFilenameDescending)
    } else if v == 19 {
        Some(Sort::RunCountAscending)
    } else if v == 20 {
        Some(Sort::RunCountDescending)
    } else if v == 21 {
        Some(Sort::DateRecentlyChangedAscending)
    } else if v == 22 {
        Some(Sort::DateRecentlyChangedDescending)
    } else if v == 23 {
        Some(Sort::DateAccessedAscending)
    } else if v == 24 {
        Some(Sort::DateAccessedDescending)
    } else if v == 25 {
        Some(Sort::DateRunAscending)
    } else if v == 26 {
        Some(Sort::DateRunDescending)
    } else {
        None
    }
}

impl Sort {
    /// The value that stands for this sort order in the IPC protocol.
    pub fn repr(self) -> (r: u32)
        ensures
            r == sort_repr(self),
    {
        match self {
            Sort::NameAscending => 1,
            Sort::NameDescending => 2,
            Sort::PathAscending => 3,
            Sort::PathDescending => 4,
            Sort::SizeAscending => 5,
            Sort::SizeDescending => 6,
            Sort::ExtensionAscending => 7,
            Sort::ExtensionDescending => 8,
            Sort::TypeNameAscending => 9,
            Sort::TypeNameDescending => 10,
            Sort::DateCreatedAscending => 11,
            Sort::DateCreatedDescending => 12,
            Sort::DateModifiedAscending => 13,
            Sort::DateModifiedDescending => 14,
            Sort::AttributesAscending => 15,
            Sort::AttributesDescending => 16,
            Sort::FileListFilenameAscending => 17,
            Sort::FileListFilenameDescending => 18,
            Sort::RunCountAscending => 19,
            Sort::RunCountDescending => 20,
            Sort::DateRecentlyChangedAscending => 21,
            Sort::DateRecentlyChangedDescending => 22,
            Sort::DateAccessedAscending => 23,
            Sort::DateAccessedDescending => 24,
            Sort::DateRunAscending => 25,
            Sort::DateRunDescending => 26,
        }
    }

    /// The sort order that a protocol value stands for; `None` for any other value.
    pub fn try_from_repr(v: u32) -> (r: Option<Sort>)
        ensures
            r == sort_from_repr(v),
    {
        if v == 1 {
            Some(Sort::NameAscending)
        } else if v == 2 {
            Some(Sort::NameDescending)
        } else if v == 3 {
            Some(Sort::PathAscending)
        } else if v == 4 {
            Some(Sort::PathDescending)
        } else if v == 5 {
            Some(Sort::SizeAscending)
        } else if v == 6 {
            Some(Sort::SizeDescending)
        } else if v == 7 {
            Some(Sort::ExtensionAscending)
        } else if v == 8 {
            Some(Sort::ExtensionDescending)
        } else if v == 9 {
            Some(Sort::TypeNameAscending)
        } else if v == 10 {
            Some(Sort::TypeNameDescending)
        } else if v == 11 {
            Some(Sort::DateCreatedAscending)
        } else if v == 12 {
            Some(Sort::DateCreatedDescending)
        } else if v == 13 {
            Some(Sort::DateModifiedAscending)
        } else if v == 14 {
            Some(Sort::DateModifiedDescending)
        } else if v == 15 {
            Some(Sort::AttributesAscending)
        } else if v == 16 {
            Some(Sort::AttributesDescending)
        } else if v == 17 {
            Some(Sort::FileListFilenameAscending)
        } else if v == 18 {
            Some(Sort::FileListFilenameDescending)
        } else if v == 19 {
            Some(Sort::RunCountAscending)
        } else if v == 20 {
            Some(Sort::RunCountDescending)
        } else if v == 21 {
            Some(Sort::DateRecentlyChangedAscending)
        } else if v == 22 {
            Some(Sort::DateRecentlyChangedDescending)
        } else if v == 23 {
            Some(Sort::DateAccessedAscending)
        } else if v == 24 {
            Some(Sort::DateAccessedDescending)
        } else if v == 25 {
            Some(Sort::DateRunAscending)
        } else if v == 26 {
            Some(Sort::DateRunDescending)
        } else {
            None
        }
    }
}

impl Default for Sort {
    fn default() -> (r: Sort)
        ensures
            r == Sort::NameAscending,
    {
        Sort::NameAscending
    }
}

/// Kinds of file information that Everything may index.
#[derive(Debug, Clone, Copy, PartialEq, Eq, Structural)]
pub enum FileInfo {
    FileSize,
    FolderSize,
    DateCreated,
    DateModified,
    DateAccessed,
    Attributes,
}

/// The value that stands for a kind of file information in the IPC protocol.
pub open spec fn file_info_repr(f: FileInfo) -> u32 {
    match f {
        FileInfo::FileSize => 1,
        FileInfo::FolderSize => 2,
        FileInfo::DateCreated => 3,
        FileInfo::DateModified => 4,
        FileInfo::DateAccessed => 5,
        FileInfo::Attributes => 6,
    }
}

impl FileInfo {
    /// The value that stands for this kind in the IPC protocol.
    pub fn repr(self) -> (r: u32)
        ensures
            r == file_info_repr(self),
    {
        match self {
            FileInfo::FileSize => 1,
            FileInfo::FolderSize => 2,
            FileInfo::DateCreated => 3,
            FileInfo::DateModified => 4,
            FileInfo::DateAccessed => 5,
            FileInfo::Attributes => 6,
        }
    }
}

/// A Windows file time: 100-nanosecond intervals since 1601, split in two halves.
#[allow(non_snake_case)]
#[derive(Debug, Clone, Copy, PartialEq, Eq, Structural, Hash)]
pub struct FILETIME {
    pub dwLowDateTime: u32,
    pub dwHighDateTime: u32,
}

/// Header of a query reply, `EVERYTHING_IPC_LIST2` of `Everything.h`.
#[derive(Debug, Clone, Copy, PartialEq, Eq, Structural)]
pub struct EverythingIpcList2 {
    /// Found items.
    pub totitems: u32,
    /// Available items.
    pub numitems: u32,
    /// Offset of the first result.
    pub offset: u32,
    /// Valid request flags.
    pub request_flags: u32,
    /// Actual sort type.
    pub sort_type: u32,
}

/// Size in bytes of [`EverythingIpcList2`] in a reply.
pub open spec fn list_header_len() -> int {
    20
}

impl EverythingIpcList2 {
    /// Reads the header at the start of a reply.
    pub fn from_bytes(data: &[u8]) -> (r: EverythingIpcList2)
        requires
            data@.len() >= list_header_len(),
        ensures
            r.totitems == le_u32(data@, 0),
            r.numitems == le_u32(data@, 4),
            r.offset == le_u32(data@, 8),
            r.request_flags == le_u32(data@, 12),
            r.sort_type == le_u32(data@, 16),
    {
        EverythingIpcList2 {
            totitems: read_u32_le(data, 0),
            numitems: read_u32_le(data, 4),
            offset: read_u32_le(data, 8),
            request_flags: read_u32_le(data, 12),
            sort_type: read_u32_le(data, 16),
        }
    }
}

/// One item record of a query reply, `EVERYTHING_IPC_ITEM2` of `Everything.h`.
#[derive(Debug, Clone, Copy, PartialEq, Eq, Structural)]
pub struct EverythingIpcItem2 {
    pub flags: u32,
    /// Offset of the item's data from the start of the reply.
    pub data_offset: u32,
}

impl EverythingIpcItem2 {
    /// Reads the item record that starts at `at`.
    pub fn from_bytes(data: &[u8], at: usize) -> (r: EverythingIpcItem2)
        requires
            at + 8 <= data.len(),
        ensures
            r.flags == le_u32(data@, at as int),
            r.data_offset == le_u32(data@, at + 4),
    {
        EverythingIpcItem2 { flags: read_u32_le(data, at), data_offset: read_u32_le(data, at + 4) }
    }
}

/// The protocol value of a sort order stands for that order, and lies in 1 to 26.
pub proof fn lemma_sort_repr_roundtrip(s: Sort)
    ensures
        sort_from_repr(sort_repr(s)) == Some(s),
        1 <= sort_repr(s) <= 26,
{
}

/// A protocol value that stands for a sort order is that order's value.
pub proof fn lemma_sort_from_repr_inverse(v: u32)
    ensures
        sort_from_repr(v) matches Some(s) ==> sort_repr(s) == v,
        sort_from_repr(v) is Some <==> 1 <= v <= 26,
{
}


/// The values of `Everything.h`'s `EVERYTHING_IPC_SORT_*`: the sort keys in
/// the order name, path, size, extension, type name, date created, date
/// modified, attributes, file-list file name, run count, date recently
/// changed, date accessed, date run; each ascending (odd, from 1) and then
/// descending (the next value).
pub proof fn lemma_sort_values(s: Sort)
    ensures
        sort_repr(Sort::NameAscending) == 1,
        sort_repr(Sort::NameDescending) == 2,
        sort_repr(Sort::PathAscending) == 3,
        sort_repr(Sort::PathDescending) == 4,
        sort_repr(Sort::SizeAscending) == 5,
        sort_repr(Sort::SizeDescending) == 6,
        sort_repr(Sort::ExtensionAscending) == 7,
        sort_repr(Sort::ExtensionDescending) == 8,
        sort_repr(Sort::TypeNameAscending) == 9,
        sort_repr(Sort::TypeNameDescending) == 10,
        sort_repr(Sort::DateCreatedAscending) == 11,
        sort_repr(Sort::DateCreatedDescending) == 12,
        sort_repr(Sort::DateModifiedAscending) == 13,
        sort_repr(Sort::DateModifiedDescending) == 14,
        sort_repr(Sort::AttributesAscending) == 15,
        sort_repr(Sort::AttributesDescending) == 16,
        sort_repr(Sort::FileListFilenameAscending) == 17,
        sort_repr(Sort::FileListFilenameDescending) == 18,
        sort_repr(Sort::RunCountAscending) == 19,
        sort_repr(Sort::RunCountDescending) == 20,
        sort_repr(Sort::DateRecentlyChangedAscending) == 21,
        sort_repr(Sort::DateRecentlyChangedDescending) == 22,
        sort_repr(Sort::DateAccessedAscending) == 23,
        sort_repr(Sort::DateAccessedDescending) == 24,
        sort_repr(Sort::DateRunAscending) == 25,
        sort_repr(Sort::DateRunDescending) == 26,
        sort_repr(Sort::NameDescending) == sort_repr(Sort::NameAscending) + 1,
        sort_repr(Sort::PathDescending) == sort_repr(Sort::PathAscending) + 1,
        sort_repr(Sort::SizeDescending) == sort_repr(Sort::SizeAscending) + 1,
        sort_repr(Sort::ExtensionDescending) == sort_repr(Sort::ExtensionAscending) + 1,
        sort_repr(Sort::TypeNameDescending) == sort_repr(Sort::TypeNameAscending) + 1,
        sort_repr(Sort::DateCreatedDescending) == sort_repr(Sort::DateCreatedAscending) + 1,
        sort_repr(Sort::DateModifiedDescending) == sort_repr(Sort::DateModifiedAscending) + 1,
        sort_repr(Sort::AttributesDescending) == sort_repr(Sort::AttributesAscending) + 1,
        sort_repr(Sort::FileListFilenameDescending) == sort_repr(Sort::FileListFilenameAscending) + 1,
        sort_repr(Sort::RunCountDescending) == sort_repr(Sort::RunCountAscending) + 1,
        sort_repr(Sort::DateRecentlyChangedDescending) == sort_repr(Sort::DateRecentlyChangedAscending) + 1,
        sort_repr(Sort::DateAccessedDescending) == sort_repr(Sort::DateAccessedAscending) + 1,
        sort_repr(Sort::DateRunDescending) == sort_repr(Sort::DateRunAscending) + 1,
        (sort_repr(s) % 2 == 1) <==> (s == Sort::NameAscending || s == Sort::PathAscending || s == Sort::SizeAscending || s == Sort::ExtensionAscending || s == Sort::TypeNameAscending || s == Sort::DateCreatedAscending || s == Sort::DateModifiedAscending || s == Sort::AttributesAscending || s == Sort::FileListFilenameAscending || s == Sort::RunCountAscending || s == Sort::DateRecentlyChangedAscending || s == Sort::DateAccessedAscending || s == Sort::DateRunAscending),
{
}

/// The values of `Everything.h`'s `EVERYTHING_IPC_FILE_INFO_*`, in the order
/// file size, folder size, date created, date modified, date accessed,
/// attributes: each kind's value is its place in that order, from 1.
pub proof fn lemma_file_info_values(f: FileInfo, g: FileInfo)
    ensures
        file_info_repr(FileInfo::FileSize) == 1,
        file_info_repr(FileInfo::FolderSize) == 2,
        file_info_repr(FileInfo::DateCreated) == 3,
        file_info_repr(FileInfo::DateModified) == 4,
        file_info_repr(FileInfo::DateAccessed) == 5,
        file_info_repr(FileInfo::Attributes) == 6,
        1 <= file_info_repr(f) <= 6,
        file_info_repr(f) == file_info_repr(g) ==> f == g,
{
}

} // verus!
