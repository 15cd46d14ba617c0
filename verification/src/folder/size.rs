//! Folder size batch lookup and cache.
//!
//! - Batch lookup of all folder sizes in the parent folder.
//! - For drives (like `C:\`), the disk's size is asked for instead.
//!
//! The lookup alternates decisions with outside work (disk queries, IPC
//! queries, path resolution); [`FolderSizeClient::step`] makes the decisions
//! and says which work to do next.

use rapidhash::RapidHashMap;
use vstd::prelude::*;

use crate::bytes::le_u32;
use crate::utf16::{units_to_string_lossy, utf16_lossy};
use crate::wm::{
    field_offset, reply_item_data, request_flags_all_bits, str_units_at, u64_at, IpcError,
    QueryList, RequestFlags,
};

verus! {

/// A map from file name to folder size, hashed with rapidhash.
pub type SizeMap = RapidHashMap<String, u64>;

#[verifier::external_type_specification]
#[verifier::external_body]
#[verifier::reject_recursive_types(AVALANCHE)]
pub struct ExRapidRandomState<
    const AVALANCHE: bool,
    const SPONGE: bool,
    const COMPACT: bool,
    const PROTECTED: bool,
>(rapidhash::inner::RandomState<AVALANCHE, SPONGE, COMPACT, PROTECTED>);

/// What a folder-size map holds: file name to size.
pub uninterp spec fn folder_sizes(m: SizeMap) -> Map<Seq<char>, u64>;

/// An empty map from `rapidhash::HashMapExt::with_capacity`. Claimed: it
/// holds nothing.
#[verifier::external_body]
fn sizes_with_capacity(capacity: usize) -> (r: SizeMap)
    ensures
        folder_sizes(r).dom() == Set::<Seq<char>>::empty(),
{
    <SizeMap as rapidhash::HashMapExt>::with_capacity(capacity)
}

/// `HashMap::insert` on a folder-size map. Claimed: the key now maps to the
/// value and every other key keeps its value.
#[verifier::external_body]
fn sizes_insert(m: &mut SizeMap, name: String, size: u64)
    ensures
        folder_sizes(*final(m)) == folder_sizes(*old(m)).insert(name@, size),
{
    m.insert(name, size);
}

/// `HashMap::get` on a folder-size map, copied out. Claimed: the value of the
/// key, or `None` when the map does not hold it.
#[verifier::external_body]
fn sizes_get(m: &SizeMap, name: &str) -> (r: Option<u64>)
    ensures
        r == (if folder_sizes(*m).dom().contains(name@) {
            Some(folder_sizes(*m)[name@])
        } else {
            None
        }),
{
    m.get(name).copied()
}

/// The values of a folder-size map, from `HashMap::values`, copied into a
/// `Vec`. Claimed: every value of the map is in the result, and every
/// element of the result is a value of the map.
#[verifier::external_body]
fn sizes_values(m: &SizeMap) -> (r: Vec<u64>)
    ensures
        forall|k: Seq<char>| #[trigger]
            folder_sizes(*m).dom().contains(k) ==> r@.contains(folder_sizes(*m)[k]),
        forall|i: int|
            0 <= i < r@.len() ==> exists|k: Seq<char>|
                #[trigger] folder_sizes(*m).dom().contains(k) && folder_sizes(*m)[k] == #[trigger] r@[i],
{
    m.values().copied().collect()
}

/// The largest value of a folder-size map, `0` for an empty map: every value
/// is at most the result, and the result is a value or `0`.
fn sizes_max(m: &SizeMap) -> (r: u64)
    ensures
        forall|k: Seq<char>| #[trigger] folder_sizes(*m).dom().contains(k) ==> folder_sizes(*m)[k] <= r,
        r == 0 || exists|k: Seq<char>| #[trigger] folder_sizes(*m).dom().contains(k) && folder_sizes(*m)[k] == r,
{
    let values = sizes_values(m);
    let mut max: u64 = 0;
    let mut i: usize = 0;
    while i < values.len()
        invariant
            i <= values@.len(),
            forall|j: int| 0 <= j < i ==> values@[j] <= max,
            max == 0 || exists|j: int| 0 <= j < i && values@[j] == max,
        decreases values@.len() - i,
    {
        if values[i] > max {
            max = values[i];
        }
        i += 1;
    }
    proof {
        assert forall|k: Seq<char>| #[trigger] folder_sizes(*m).dom().contains(k) implies folder_sizes(
            *m,
        )[k] <= max by {
            let j = choose|j: int| 0 <= j < values@.len() && values@[j] == folder_sizes(*m)[k];
            assert(values@[j] <= max);
        }
        if max != 0 {
            let j = choose|j: int| 0 <= j < values@.len() && values@[j] == max;
            assert(exists|k: Seq<char>| #[trigger]
                folder_sizes(*m).dom().contains(k) && folder_sizes(*m)[k] == values@[j]);
        }
    }
    max
}

/// Errors of a folder-size lookup.
#[derive(Debug)]
pub enum FolderSizeError {
    /// Path is relative.
    RelativePath,
    /// Folder not found.
    NotFound,
    Io(std::io::Error),
    Ipc(IpcError),
}

/// The file name and size of item `i` of a folder listing, when both are there.
pub open spec fn listing_entry(data: Seq<u8>, i: int) -> Option<(Seq<char>, u64)> {
    match reply_item_data(data, i) {
        None => None,
        Some(d) => {
            let request = le_u32(data, 12) & request_flags_all_bits();
            match field_offset(request, d, 0x1) {
                None => None,
                Some(name_at) => match str_units_at(d, name_at) {
                    None => None,
                    Some(units) => match field_offset(request, d, 0x10) {
                        None => None,
                        Some(size_at) => match u64_at(d, size_at) {
                            None => None,
                            Some(size) => Some((utf16_lossy(units), size)),
                        },
                    },
                },
            }
        },
    }
}

/// The number of items that iterating a listing yields: from index `i` on,
/// up to the first index without item data.
pub open spec fn listing_count_from(data: Seq<u8>, i: int) -> int
    decreases le_u32(data, 4) - i,
{
    if i < 0 || i >= le_u32(data, 4) || reply_item_data(data, i) is None {
        i
    } else {
        listing_count_from(data, i + 1)
    }
}

/// The entries of the first `n` items of a listing, skipping items without
/// both a file name and a size.
pub open spec fn listing_entries_upto(data: Seq<u8>, n: int) -> Seq<(Seq<char>, u64)>
    decreases n,
{
    if n <= 0 {
        Seq::empty()
    } else {
        match listing_entry(data, n - 1) {
            Some(e) => listing_entries_upto(data, n - 1).push(e),
            None => listing_entries_upto(data, n - 1),
        }
    }
}

/// The entries of a folder listing: file name and size of each listed item
/// that has both.
pub open spec fn listing_entries_of(data: Seq<u8>) -> Seq<(Seq<char>, u64)> {
    listing_entries_upto(data, listing_count_from(data, 0))
}

/// The file names and sizes of a folder listing, in listing order.
pub fn listing_entries(list: &QueryList) -> (r: Vec<(String, u64)>)
    ensures
        r@.len() == listing_entries_of(list@.1).len(),
        forall|k: int|
            0 <= k < r@.len() ==> (#[trigger] r@[k]).0@ == listing_entries_of(list@.1)[k].0 && r@[k].1
                == listing_entries_of(list@.1)[k].1,
{
    let ghost data = list@.1;
    let mut out: Vec<(String, u64)> = Vec::new();
    let mut it = list.iter();
    let mut i: usize = 0;
    loop
        invariant
            it@ == (list@, i),
            data == list@.1,
            0 <= i <= le_u32(data, 4),
            listing_count_from(data, 0) == listing_count_from(data, i as int),
            out@.len() == listing_entries_upto(data, i as int).len(),
            forall|k: int|
                0 <= k < out@.len() ==> (#[trigger] out@[k]).0@ == listing_entries_upto(
                    data,
                    i as int,
                )[k].0 && out@[k].1 == listing_entries_upto(data, i as int)[k].1,
        decreases le_u32(data, 4) - i,
    {
        let item = match it.next() {
            Some(item) => item,
            None => {
                assert(listing_count_from(data, i as int) == i);
                return out;
            },
        };
        let name = item.get_str(RequestFlags::FileName());
        let size = item.get_size(RequestFlags::Size());
        match (name, size) {
            (Some(units), Some(size)) => {
                out.push((units_to_string_lossy(units.as_slice()), size));
            },
            _ => {},
        }
        i += 1;
    }
}

/// A path as the lookup sees it: how `Path::display` shows it, and its
/// components as `Path::components` yields them. Two paths are the same path
/// when their components are.
#[derive(Debug)]
pub struct PathName {
    pub display: String,
    pub components: Vec<String>,
}

/// What a [`PathName`] holds.
pub struct PathNameModel {
    pub display: Seq<char>,
    pub components: Seq<Seq<char>>,
}

/// The views of a sequence of strings.
pub open spec fn strings_view(v: Seq<String>) -> Seq<Seq<char>> {
    Seq::new(v.len(), |i: int| v[i]@)
}

impl View for PathName {
    type V = PathNameModel;

    open spec fn view(&self) -> PathNameModel {
        PathNameModel { display: self.display@, components: strings_view(self.components@) }
    }
}

pub open spec fn opt_path_view(p: Option<PathName>) -> Option<PathNameModel> {
    match p {
        Some(x) => Some(x@),
        None => None,
    }
}

/// True when two component lists are equal, component by component.
fn same_components(a: &Vec<String>, b: &Vec<String>) -> (r: bool)
    ensures
        r == (strings_view(a@) == strings_view(b@)),
{
    if a.len() != b.len() {
        proof {
            assert(strings_view(a@).len() != strings_view(b@).len());
        }
        return false;
    }
    let mut i: usize = 0;
    while i < a.len()
        invariant
            i <= a@.len() == b@.len(),
            forall|j: int| 0 <= j < i ==> a@[j]@ == b@[j]@,
        decreases a@.len() - i,
    {
        if !(a[i] == b[i]) {
            proof {
                assert(strings_view(a@)[i as int] != strings_view(b@)[i as int]);
            }
            return false;
        }
        i += 1;
    }
    proof {
        assert(strings_view(a@) =~= strings_view(b@));
    }
    true
}

/// A copy of a component list.
fn copy_components(a: &Vec<String>) -> (r: Vec<String>)
    ensures
        strings_view(r@) == strings_view(a@),
{
    let mut out: Vec<String> = Vec::new();
    let mut i: usize = 0;
    while i < a.len()
        invariant
            i <= a@.len(),
            out@.len() == i,
            forall|j: int| 0 <= j < i ==> out@[j]@ == a@[j]@,
        decreases a@.len() - i,
    {
        out.push(a[i].clone());
        i += 1;
    }
    proof {
        assert(strings_view(out@) =~= strings_view(a@));
    }
    out
}

/// What a folder-size lookup is about.
#[derive(Debug)]
pub struct FolderSizeRequest {
    /// The path.
    pub path: PathName,
    /// Length in bytes of the path's encoded form.
    pub path_len: usize,
    /// The parent folder; `None` when the path has no parent.
    pub parent: Option<PathName>,
    /// The path's last component, when it is valid Unicode.
    pub file_name: Option<String>,
    /// For listed folders of size 0, resolve links and ask for the target's size.
    pub eager_get_links: bool,
    /// Report the largest size among the folders of the parent folder.
    pub want_parent_max: bool,
}

/// What a [`FolderSizeRequest`] holds.
pub struct RequestModel {
    pub path: PathNameModel,
    pub path_len: usize,
    pub parent: Option<PathNameModel>,
    pub file_name: Option<Seq<char>>,
    pub eager_get_links: bool,
    pub want_parent_max: bool,
}

pub open spec fn opt_string_view(s: Option<String>) -> Option<Seq<char>> {
    match s {
        Some(x) => Some(x@),
        None => None,
    }
}

impl View for FolderSizeRequest {
    type V = RequestModel;

    open spec fn view(&self) -> RequestModel {
        RequestModel {
            path: self.path@,
            path_len: self.path_len,
            parent: opt_path_view(self.parent),
            file_name: opt_string_view(self.file_name),
            eager_get_links: self.eager_get_links,
            want_parent_max: self.want_parent_max,
        }
    }
}

/// Work that a folder-size lookup waits for.
#[derive(Debug)]
pub enum FolderSizeAction {
    /// Ask for the size of the disk whose root the path is; answer with
    /// [`FolderSizeEvent::DiskSpace`].
    QueryDiskSpace,
    /// Get or create the Everything client; answer with [`FolderSizeEvent::Connected`].
    Connect,
    /// Run this search for the file names and sizes in the parent folder;
    /// answer with [`FolderSizeEvent::Listed`].
    QueryFolder(String),
    /// Resolve the links of the parent folder joined with this file name;
    /// answer with [`FolderSizeEvent::LinkResolved`].
    ResolveLink(String),
    /// Ask for the size of this resolved folder; answer with [`FolderSizeEvent::LinkSize`].
    QueryLinkSize(String),
    /// Resolve the links of the path; answer with [`FolderSizeEvent::PathResolved`].
    ResolvePath,
    /// Ask for the size of this resolved path; answer with [`FolderSizeEvent::PathSize`].
    QueryPathSize(String),
    /// The lookup is over: its result, and the largest size in the parent
    /// folder when that was asked for and known.
    Done(Result<u64, FolderSizeError>, Option<u64>),
}

/// The outcome of the work that a [`FolderSizeAction`] asked for, or the start of a lookup.
#[derive(Debug)]
pub enum FolderSizeEvent {
    /// Start a lookup.
    Lookup(FolderSizeRequest),
    /// The disk's size; `None` when the disk could not be asked.
    DiskSpace(Option<u64>),
    /// Whether an Everything client is there.
    Connected(Result<(), IpcError>),
    /// The answer to the folder search.
    Listed(Result<QueryList, IpcError>),
    /// The joined path and what it resolves to; `None` when resolving failed.
    LinkResolved(Option<(PathName, PathName)>),
    /// The size of a resolved folder; `None` when the query failed.
    LinkSize(Option<u64>),
    /// What the path resolves to.
    PathResolved(Result<PathName, std::io::Error>),
    /// The size of the resolved path.
    PathSize(Result<u64, IpcError>),
}

/// What a [`FolderSizeAction`] holds.
pub enum ActionModel {
    QueryDiskSpace,
    Connect,
    QueryFolder(Seq<char>),
    ResolveLink(Seq<char>),
    QueryLinkSize(Seq<char>),
    ResolvePath,
    QueryPathSize(Seq<char>),
    Done(Result<u64, FolderSizeError>, Option<u64>),
}

impl View for FolderSizeAction {
    type V = ActionModel;

    open spec fn view(&self) -> ActionModel {
        match self {
            FolderSizeAction::QueryDiskSpace => ActionModel::QueryDiskSpace,
            FolderSizeAction::Connect => ActionModel::Connect,
            FolderSizeAction::QueryFolder(s) => ActionModel::QueryFolder(s@),
            FolderSizeAction::ResolveLink(s) => ActionModel::ResolveLink(s@),
            FolderSizeAction::QueryLinkSize(s) => ActionModel::QueryLinkSize(s@),
            FolderSizeAction::ResolvePath => ActionModel::ResolvePath,
            FolderSizeAction::QueryPathSize(s) => ActionModel::QueryPathSize(s@),
            FolderSizeAction::Done(r, m) => ActionModel::Done(*r, *m),
        }
    }
}

/// What a [`FolderSizeEvent`] holds.
pub enum EventModel {
    Lookup(RequestModel),
    DiskSpace(Option<u64>),
    Connected(Result<(), IpcError>),
    Listed(Result<Seq<u8>, IpcError>),
    LinkResolved(Option<(PathNameModel, PathNameModel)>),
    LinkSize(Option<u64>),
    PathResolved(Result<PathNameModel, std::io::Error>),
    PathSize(Result<u64, IpcError>),
}

impl View for FolderSizeEvent {
    type V = EventModel;

    open spec fn view(&self) -> EventModel {
        match self {
            FolderSizeEvent::Lookup(r) => EventModel::Lookup(r@),
            FolderSizeEvent::DiskSpace(d) => EventModel::DiskSpace(*d),
            FolderSizeEvent::Connected(c) => EventModel::Connected(*c),
            FolderSizeEvent::Listed(l) => EventModel::Listed(
                match l {
                    Ok(list) => Ok(list@.1),
                    Err(e) => Err(*e),
                },
            ),
            FolderSizeEvent::LinkResolved(l) => EventModel::LinkResolved(
                match l {
                    Some((a, b)) => Some((a@, b@)),
                    None => None,
                },
            ),
            FolderSizeEvent::LinkSize(s) => EventModel::LinkSize(*s),
            FolderSizeEvent::PathResolved(p) => EventModel::PathResolved(
                match p {
                    Ok(s) => Ok(s@),
                    Err(e) => Err(*e),
                },
            ),
            FolderSizeEvent::PathSize(s) => EventModel::PathSize(*s),
        }
    }
}

/// Where a lookup stands.
enum Phase {
    Idle,
    AwaitDiskSpace,
    AwaitClient(FolderSizeRequest),
    AwaitListing(FolderSizeRequest),
    /// Building the map of the parent folder: the listed entries, the next
    /// one to add, and the map so far; the next entry's links are being resolved.
    AwaitLink(FolderSizeRequest, Vec<(String, u64)>, usize, SizeMap),
    /// As `AwaitLink`, with the size of the next entry's link target asked for.
    AwaitLinkSize(FolderSizeRequest, Vec<(String, u64)>, usize, SizeMap),
    /// The listed size of the file is 0: the path is being resolved. The file
    /// name and the largest size of the parent folder to report.
    AwaitPath(FolderSizeRequest, String, Option<u64>),
    AwaitPathSize(FolderSizeRequest, String, Option<u64>),
}

/// What a lookup's phase holds.
pub enum PhaseModel {
    Idle,
    AwaitDiskSpace,
    AwaitClient(RequestModel),
    AwaitListing(RequestModel),
    AwaitLink(RequestModel, Seq<(Seq<char>, u64)>, int, Map<Seq<char>, u64>),
    AwaitLinkSize(RequestModel, Seq<(Seq<char>, u64)>, int, Map<Seq<char>, u64>),
    AwaitPath(RequestModel, Seq<char>, Option<u64>),
    AwaitPathSize(RequestModel, Seq<char>, Option<u64>),
}

pub open spec fn entries_view(v: Seq<(String, u64)>) -> Seq<(Seq<char>, u64)> {
    Seq::new(v.len(), |k: int| (v[k].0@, v[k].1))
}

impl View for Phase {
    type V = PhaseModel;

    closed spec fn view(&self) -> PhaseModel {
        match self {
            Phase::Idle => PhaseModel::Idle,
            Phase::AwaitDiskSpace => PhaseModel::AwaitDiskSpace,
            Phase::AwaitClient(r) => PhaseModel::AwaitClient(r@),
            Phase::AwaitListing(r) => PhaseModel::AwaitListing(r@),
            Phase::AwaitLink(r, e, n, m) => PhaseModel::AwaitLink(
                r@,
                entries_view(e@),
                *n as int,
                folder_sizes(*m),
            ),
            Phase::AwaitLinkSize(r, e, n, m) => PhaseModel::AwaitLinkSize(
                r@,
                entries_view(e@),
                *n as int,
                folder_sizes(*m),
            ),
            Phase::AwaitPath(r, f, m) => PhaseModel::AwaitPath(r@, f@, *m),
            Phase::AwaitPathSize(r, f, m) => PhaseModel::AwaitPathSize(r@, f@, *m),
        }
    }
}

/// Folder size client with parent directory cache.
pub struct FolderSizeClient {
    last_parent: Vec<String>,
    result_map: Option<SizeMap>,
    phase: Phase,
}

/// What a [`FolderSizeClient`] holds: the components of the parent folder
/// last listed, the sizes listed there (if the listing went through), and the
/// lookup in progress.
pub struct ClientModel {
    pub last_parent: Seq<Seq<char>>,
    pub sizes: Option<Map<Seq<char>, u64>>,
    pub phase: PhaseModel,
}

impl View for FolderSizeClient {
    type V = ClientModel;

    closed spec fn view(&self) -> ClientModel {
        ClientModel {
            last_parent: strings_view(self.last_parent@),
            sizes: match self.result_map {
                Some(m) => Some(folder_sizes(m)),
                None => None,
            },
            phase: self.phase@,
        }
    }
}

/// The search that lists a folder's entries: `folder:infolder:"<parent>"`.
pub open spec fn folder_listing_search(parent: Seq<char>) -> Seq<char> {
    "folder:infolder:\""@ + parent + "\""@
}

/// The end of a lookup, or the resolution it waits for, once the parent
/// folder's sizes are known (or known to be missing).
pub open spec fn lookup_spec(s: ClientModel, req: RequestModel) -> (ClientModel, ActionModel) {
    let idle = ClientModel { last_parent: s.last_parent, sizes: s.sizes, phase: PhaseModel::Idle };
    match req.file_name {
        None => (idle, ActionModel::Done(Err(FolderSizeError::RelativePath), None)),
        Some(f) => match s.sizes {
            None => (idle, ActionModel::Done(Err(FolderSizeError::NotFound), None)),
            Some(m) => {
                let max = if req.want_parent_max {
                    Some(map_max(m))
                } else {
                    None
                };
                if !m.dom().contains(f) {
                    (idle, ActionModel::Done(Err(FolderSizeError::NotFound), max))
                } else if m[f] != 0 || req.eager_get_links {
                    (idle, ActionModel::Done(Ok(m[f]), max))
                } else {
                    (
                        ClientModel {
                            last_parent: s.last_parent,
                            sizes: s.sizes,
                            phase: PhaseModel::AwaitPath(req, f, max),
                        },
                        ActionModel::ResolvePath,
                    )
                }
            },
        },
    }
}

/// The largest value of a map, `0` for an empty one.
pub open spec fn map_max(m: Map<Seq<char>, u64>) -> u64 {
    if exists|k: Seq<char>| #[trigger] m.dom().contains(k) {
        let k = choose|k: Seq<char>|
            #[trigger] m.dom().contains(k) && forall|j: Seq<char>| #[trigger]
                m.dom().contains(j) ==> m[j] <= m[k];
        m[k]
    } else {
        0
    }
}

/// Adds the listed entries from `next` on to the map, stopping at the first
/// one whose links are to be resolved; once all are in, the map becomes the
/// parent folder's and the lookup goes on.
pub open spec fn advance_spec(
    last_parent: Seq<Seq<char>>,
    sizes: Option<Map<Seq<char>, u64>>,
    req: RequestModel,
    entries: Seq<(Seq<char>, u64)>,
    next: int,
    built: Map<Seq<char>, u64>,
) -> (ClientModel, ActionModel)
    decreases entries.len() - next,
{
    if next < 0 || next >= entries.len() {
        lookup_spec(ClientModel { last_parent, sizes: Some(built), phase: PhaseModel::Idle }, req)
    } else if req.eager_get_links && entries[next].1 == 0 {
        (
            ClientModel { last_parent, sizes, phase: PhaseModel::AwaitLink(req, entries, next, built) },
            ActionModel::ResolveLink(entries[next].0),
        )
    } else {
        advance_spec(
            last_parent,
            sizes,
            req,
            entries,
            next + 1,
            built.insert(entries[next].0, entries[next].1),
        )
    }
}

/// One step of a folder-size lookup: from the client's state and an event,
/// the next state and the work to do.
pub open spec fn folder_size_next(s: ClientModel, e: EventModel) -> (ClientModel, ActionModel) {
    let idle = ClientModel { last_parent: s.last_parent, sizes: s.sizes, phase: PhaseModel::Idle };
    let unexpected = (idle, ActionModel::Done(Err(FolderSizeError::NotFound), None));
    match e {
        EventModel::Lookup(req) => match req.parent {
            None => if req.path_len == 3 {
                (
                    ClientModel {
                        last_parent: s.last_parent,
                        sizes: s.sizes,
                        phase: PhaseModel::AwaitDiskSpace,
                    },
                    ActionModel::QueryDiskSpace,
                )
            } else {
                (idle, ActionModel::Done(Err(FolderSizeError::RelativePath), None))
            },
            Some(p) => if p.display.len() == 0 {
                (idle, ActionModel::Done(Err(FolderSizeError::RelativePath), None))
            } else {
                (
                    ClientModel {
                        last_parent: s.last_parent,
                        sizes: s.sizes,
                        phase: PhaseModel::AwaitClient(req),
                    },
                    ActionModel::Connect,
                )
            },
        },
        EventModel::DiskSpace(d) => match s.phase {
            PhaseModel::AwaitDiskSpace => match d {
                Some(size) => (idle, ActionModel::Done(Ok(size), None)),
                None => (idle, ActionModel::Done(Err(FolderSizeError::RelativePath), None)),
            },
            _ => unexpected,
        },
        EventModel::Connected(c) => match s.phase {
            PhaseModel::AwaitClient(req) => match c {
                Err(err) => (idle, ActionModel::Done(Err(FolderSizeError::Ipc(err)), None)),
                Ok(_) => match req.parent {
                    Some(p) => if s.last_parent != p.components || s.sizes is None {
                        (
                            ClientModel {
                                last_parent: p.components,
                                sizes: None,
                                phase: PhaseModel::AwaitListing(req),
                            },
                            ActionModel::QueryFolder(folder_listing_search(p.display)),
                        )
                    } else {
                        lookup_spec(s, req)
                    },
                    None => unexpected,
                },
            },
            _ => unexpected,
        },
        EventModel::Listed(l) => match s.phase {
            PhaseModel::AwaitListing(req) => match l {
                Err(err) => (idle, ActionModel::Done(Err(FolderSizeError::Ipc(err)), None)),
                Ok(data) => advance_spec(s.last_parent, s.sizes, req, listing_entries_of(data), 0, Map::empty()),
            },
            _ => unexpected,
        },
        EventModel::LinkResolved(l) => match s.phase {
            PhaseModel::AwaitLink(req, entries, next, built) => if !(0 <= next < entries.len()) {
                unexpected
            } else {
                match l {
                Some((joined, resolved)) => if resolved.components != joined.components {
                    (
                        ClientModel {
                            last_parent: s.last_parent,
                            sizes: s.sizes,
                            phase: PhaseModel::AwaitLinkSize(req, entries, next, built),
                        },
                        ActionModel::QueryLinkSize(resolved.display),
                    )
                } else {
                    advance_spec(
                        s.last_parent,
                        s.sizes,
                        req,
                        entries,
                        next + 1,
                        built.insert(entries[next].0, entries[next].1),
                    )
                },
                None => advance_spec(
                    s.last_parent,
                    s.sizes,
                    req,
                    entries,
                    next + 1,
                    built.insert(entries[next].0, entries[next].1),
                ),
            }},
            _ => unexpected,
        },
        EventModel::LinkSize(size) => match s.phase {
            PhaseModel::AwaitLinkSize(req, entries, next, built) => if !(0 <= next < entries.len()) {
                unexpected
            } else { advance_spec(
                s.last_parent,
                s.sizes,
                req,
                entries,
                next + 1,
                built.insert(
                    entries[next].0,
                    match size {
                        Some(v) => v,
                        None => entries[next].1,
                    },
                ),
            )},
            _ => unexpected,
        },
        EventModel::PathResolved(p) => match s.phase {
            PhaseModel::AwaitPath(req, f, max) => match p {
                Err(err) => (idle, ActionModel::Done(Err(FolderSizeError::Io(err)), max)),
                Ok(resolved) => if resolved.components != req.path.components {
                    (
                        ClientModel {
                            last_parent: s.last_parent,
                            sizes: s.sizes,
                            phase: PhaseModel::AwaitPathSize(req, f, max),
                        },
                        ActionModel::QueryPathSize(resolved.display),
                    )
                } else {
                    (idle, ActionModel::Done(Ok(0), max))
                },
            },
            _ => unexpected,
        },
        EventModel::PathSize(r) => match s.phase {
            PhaseModel::AwaitPathSize(req, f, max) => match r {
                Err(err) => (idle, ActionModel::Done(Err(FolderSizeError::Ipc(err)), max)),
                Ok(size) => (
                    ClientModel {
                        last_parent: s.last_parent,
                        sizes: match s.sizes {
                            Some(m) => Some(m.insert(f, size)),
                            None => None,
                        },
                        phase: PhaseModel::Idle,
                    },
                    ActionModel::Done(Ok(size), max),
                ),
            },
            _ => unexpected,
        },
    }
}

/// Each value of a map is at most `r`, and `r` is one of them or `0`: then
/// `r` is the map's largest value.
proof fn lemma_map_max(m: Map<Seq<char>, u64>, r: u64)
    requires
        forall|k: Seq<char>| #[trigger] m.dom().contains(k) ==> m[k] <= r,
        r == 0 || exists|k: Seq<char>| #[trigger] m.dom().contains(k) && m[k] == r,
    ensures
        map_max(m) == r,
{
    if exists|k: Seq<char>| #[trigger] m.dom().contains(k) {
        let w = if r == 0 {
            choose|k: Seq<char>| #[trigger] m.dom().contains(k)
        } else {
            choose|k: Seq<char>| #[trigger] m.dom().contains(k) && m[k] == r
        };
        assert(m.dom().contains(w) && forall|j: Seq<char>| #[trigger]
            m.dom().contains(j) ==> m[j] <= m[w]);
    }
}

/// The search that lists a folder's entries.
fn folder_search(parent: &str) -> (r: String)
    ensures
        r@ == folder_listing_search(parent@),
{
    let mut s = String::from_str("folder:infolder:\"");
    s.append(parent);
    s.append("\"");
    s
}

impl FolderSizeClient {
    /// A client that has listed no folder yet.
    pub fn new() -> (r: FolderSizeClient)
        ensures
            r@.last_parent == Seq::<Seq<char>>::empty(),
            r@.sizes is None,
            r@.phase == PhaseModel::Idle,
    {
        let r = FolderSizeClient { last_parent: Vec::new(), result_map: None, phase: Phase::Idle };
        proof {
            assert(strings_view(r.last_parent@) =~= Seq::<Seq<char>>::empty());
        }
        r
    }

    fn lookup(&mut self, req: FolderSizeRequest) -> (r: FolderSizeAction)
        requires
            old(self).phase@ == PhaseModel::Idle,
        ensures
            (final(self)@, r@) == lookup_spec(old(self)@, req@),
    {
        let f = match &req.file_name {
            None => return FolderSizeAction::Done(Err(FolderSizeError::RelativePath), None),
            Some(f) => f.clone(),
        };
        let m = match &self.result_map {
            None => return FolderSizeAction::Done(Err(FolderSizeError::NotFound), None),
            Some(m) => m,
        };
        let max = if req.want_parent_max {
            let r = sizes_max(m);
            proof {
                lemma_map_max(folder_sizes(*m), r);
            }
            Some(r)
        } else {
            None
        };
        match sizes_get(m, f.as_str()) {
            None => FolderSizeAction::Done(Err(FolderSizeError::NotFound), max),
            Some(size) => {
                if size != 0 || req.eager_get_links {
                    FolderSizeAction::Done(Ok(size), max)
                } else {
                    self.phase = Phase::AwaitPath(req, f, max);
                    FolderSizeAction::ResolvePath
                }
            },
        }
    }

    fn advance(
        &mut self,
        req: FolderSizeRequest,
        entries: Vec<(String, u64)>,
        next: usize,
        built: SizeMap,
    ) -> (r: FolderSizeAction)
        requires
            old(self).phase@ == PhaseModel::Idle,
        ensures
            (final(self)@, r@) == advance_spec(
                old(self)@.last_parent,
                old(self)@.sizes,
                req@,
                entries_view(entries@),
                next as int,
                folder_sizes(built),
            ),
        decreases entries@.len() - next,
    {
        let mut built = built;
        if next >= entries.len() {
            self.result_map = Some(built);
            return self.lookup(req);
        }
        if req.eager_get_links && entries[next].1 == 0 {
            let name = entries[next].0.clone();
            self.phase = Phase::AwaitLink(req, entries, next, built);
            return FolderSizeAction::ResolveLink(name);
        }
        let name = entries[next].0.clone();
        let size = entries[next].1;
        sizes_insert(&mut built, name, size);
        self.advance(req, entries, next + 1, built)
    }

    /// One step of a folder-size lookup: takes the outcome of the last work
    /// asked for (or the start of a lookup) and says what to do next.
    pub fn step(&mut self, event: FolderSizeEvent) -> (r: FolderSizeAction)
        ensures
            (final(self)@, r@) == folder_size_next(old(self)@, event@),
    {
        let mut phase = Phase::Idle;
        std::mem::swap(&mut phase, &mut self.phase);
        proof {
            assert(old(self)@ == with_phase(self@, phase@));
        }
        match event {
            FolderSizeEvent::Lookup(req) => self.on_lookup(req),
            FolderSizeEvent::DiskSpace(d) => self.on_disk_space(phase, d),
            FolderSizeEvent::Connected(c) => self.on_connected(phase, c),
            FolderSizeEvent::Listed(l) => self.on_listed(phase, l),
            FolderSizeEvent::LinkResolved(l) => self.on_link_resolved(phase, l),
            FolderSizeEvent::LinkSize(t) => self.on_link_size(phase, t),
            FolderSizeEvent::PathResolved(p) => self.on_path_resolved(phase, p),
            FolderSizeEvent::PathSize(z) => self.on_path_size(phase, z),
        }
    }

    fn on_lookup(&mut self, req: FolderSizeRequest) -> (r: FolderSizeAction)
        requires
            old(self).phase@ == PhaseModel::Idle,
        ensures
            (final(self)@, r@) == folder_size_next(old(self)@, EventModel::Lookup(req@)),
    {
        match &req.parent {
            None => {
                if req.path_len == 3 {
                    self.phase = Phase::AwaitDiskSpace;
                    FolderSizeAction::QueryDiskSpace
                } else {
                    FolderSizeAction::Done(Err(FolderSizeError::RelativePath), None)
                }
            },
            Some(p) => {
                if p.display.as_str().is_empty() {
                    FolderSizeAction::Done(Err(FolderSizeError::RelativePath), None)
                } else {
                    self.phase = Phase::AwaitClient(req);
                    FolderSizeAction::Connect
                }
            },
        }
    }

    fn on_disk_space(&mut self, phase: Phase, d: Option<u64>) -> (r: FolderSizeAction)
        requires
            old(self).phase@ == PhaseModel::Idle,
        ensures
            (final(self)@, r@) == folder_size_next(
                with_phase(old(self)@, phase@),
                EventModel::DiskSpace(d),
            ),
    {
        match phase {
            Phase::AwaitDiskSpace => match d {
                Some(size) => FolderSizeAction::Done(Ok(size), None),
                None => FolderSizeAction::Done(Err(FolderSizeError::RelativePath), None),
            },
            _ => FolderSizeAction::Done(Err(FolderSizeError::NotFound), None),
        }
    }

    fn on_connected(&mut self, phase: Phase, c: Result<(), IpcError>) -> (r: FolderSizeAction)
        requires
            old(self).phase@ == PhaseModel::Idle,
        ensures
            (final(self)@, r@) == folder_size_next(
                with_phase(old(self)@, phase@),
                EventModel::Connected(c),
            ),
    {
        match phase {
            Phase::AwaitClient(req) => match c {
                Err(err) => FolderSizeAction::Done(Err(FolderSizeError::Ipc(err)), None),
                Ok(_) => {
                    let (search, components) = match &req.parent {
                        Some(p) => {
                            if same_components(&self.last_parent, &p.components)
                                && self.result_map.is_some() {
                                (None, Vec::new())
                            } else {
                                (Some(folder_search(p.display.as_str())), copy_components(&p.components))
                            }
                        },
                        None => {
                            return FolderSizeAction::Done(Err(FolderSizeError::NotFound), None);
                        },
                    };
                    if let Some(search) = search {
                        self.last_parent = components;
                        self.result_map = None;
                        self.phase = Phase::AwaitListing(req);
                        FolderSizeAction::QueryFolder(search)
                    } else {
                        self.lookup(req)
                    }
                },
            },
            _ => FolderSizeAction::Done(Err(FolderSizeError::NotFound), None),
        }
    }

    fn on_listed(&mut self, phase: Phase, l: Result<QueryList, IpcError>) -> (r: FolderSizeAction)
        requires
            old(self).phase@ == PhaseModel::Idle,
        ensures
            (final(self)@, r@) == folder_size_next(
                with_phase(old(self)@, phase@),
                EventModel::Listed(
                    match l {
                        Ok(list) => Ok(list@.1),
                        Err(e) => Err(e),
                    },
                ),
            ),
    {
        match phase {
            Phase::AwaitListing(req) => match l {
                Err(err) => FolderSizeAction::Done(Err(FolderSizeError::Ipc(err)), None),
                Ok(list) => {
                    let entries = listing_entries(&list);
                    proof {
                        assert(entries_view(entries@) =~= listing_entries_of(list@.1));
                    }
                    let built = sizes_with_capacity(list.len());
                    proof {
                        assert(folder_sizes(built) =~= Map::<Seq<char>, u64>::empty());
                    }
                    self.advance(req, entries, 0, built)
                },
            },
            _ => FolderSizeAction::Done(Err(FolderSizeError::NotFound), None),
        }
    }

    fn on_link_resolved(&mut self, phase: Phase, l: Option<(PathName, PathName)>) -> (r:
        FolderSizeAction)
        requires
            old(self).phase@ == PhaseModel::Idle,
        ensures
            (final(self)@, r@) == folder_size_next(
                with_phase(old(self)@, phase@),
                EventModel::LinkResolved(
                    match l {
                        Some((a, b)) => Some((a@, b@)),
                        None => None,
                    },
                ),
            ),
    {
        match phase {
            Phase::AwaitLink(req, entries, next, built) => {
                if next >= entries.len() {
                    return FolderSizeAction::Done(Err(FolderSizeError::NotFound), None);
                }
                match l {
                    Some((joined, resolved)) => {
                        if !same_components(&resolved.components, &joined.components) {
                            self.phase = Phase::AwaitLinkSize(req, entries, next, built);
                            FolderSizeAction::QueryLinkSize(resolved.display)
                        } else {
                            let mut built = built;
                            let name = entries[next].0.clone();
                            let size = entries[next].1;
                            sizes_insert(&mut built, name, size);
                            self.advance(req, entries, next + 1, built)
                        }
                    },
                    None => {
                        let mut built = built;
                        let name = entries[next].0.clone();
                        let size = entries[next].1;
                        sizes_insert(&mut built, name, size);
                        self.advance(req, entries, next + 1, built)
                    },
                }
            },
            _ => FolderSizeAction::Done(Err(FolderSizeError::NotFound), None),
        }
    }

    fn on_link_size(&mut self, phase: Phase, target: Option<u64>) -> (r: FolderSizeAction)
        requires
            old(self).phase@ == PhaseModel::Idle,
        ensures
            (final(self)@, r@) == folder_size_next(
                with_phase(old(self)@, phase@),
                EventModel::LinkSize(target),
            ),
    {
        match phase {
            Phase::AwaitLinkSize(req, entries, next, built) => {
                if next >= entries.len() {
                    return FolderSizeAction::Done(Err(FolderSizeError::NotFound), None);
                }
                let mut built = built;
                let name = entries[next].0.clone();
                let size = match target {
                    Some(v) => v,
                    None => entries[next].1,
                };
                sizes_insert(&mut built, name, size);
                self.advance(req, entries, next + 1, built)
            },
            _ => FolderSizeAction::Done(Err(FolderSizeError::NotFound), None),
        }
    }

    fn on_path_resolved(&mut self, phase: Phase, p: Result<PathName, std::io::Error>) -> (r:
        FolderSizeAction)
        requires
            old(self).phase@ == PhaseModel::Idle,
        ensures
            (final(self)@, r@) == folder_size_next(
                with_phase(old(self)@, phase@),
                EventModel::PathResolved(
                    match p {
                        Ok(s) => Ok(s@),
                        Err(e) => Err(e),
                    },
                ),
            ),
    {
        match phase {
            Phase::AwaitPath(req, f, max) => match p {
                Err(err) => FolderSizeAction::Done(Err(FolderSizeError::Io(err)), max),
                Ok(resolved) => {
                    if !same_components(&resolved.components, &req.path.components) {
                        self.phase = Phase::AwaitPathSize(req, f, max);
                        FolderSizeAction::QueryPathSize(resolved.display)
                    } else {
                        FolderSizeAction::Done(Ok(0), max)
                    }
                },
            },
            _ => FolderSizeAction::Done(Err(FolderSizeError::NotFound), None),
        }
    }

    fn on_path_size(&mut self, phase: Phase, z: Result<u64, IpcError>) -> (r: FolderSizeAction)
        requires
            old(self).phase@ == PhaseModel::Idle,
        ensures
            (final(self)@, r@) == folder_size_next(
                with_phase(old(self)@, phase@),
                EventModel::PathSize(z),
            ),
    {
        match phase {
            Phase::AwaitPathSize(_req, f, max) => match z {
                Err(err) => FolderSizeAction::Done(Err(FolderSizeError::Ipc(err)), max),
                Ok(size) => {
                    let mut sizes = None;
                    std::mem::swap(&mut sizes, &mut self.result_map);
                    if let Some(mut m) = sizes {
                        sizes_insert(&mut m, f, size);
                        self.result_map = Some(m);
                    }
                    FolderSizeAction::Done(Ok(size), max)
                },
            },
            _ => FolderSizeAction::Done(Err(FolderSizeError::NotFound), None),
        }
    }
}

/// The client state with another phase.
pub open spec fn with_phase(s: ClientModel, phase: PhaseModel) -> ClientModel {
    ClientModel { last_parent: s.last_parent, sizes: s.sizes, phase }
}

/// The map that adding entries `next..` to `built`, in order, gives.
pub open spec fn entries_added(
    entries: Seq<(Seq<char>, u64)>,
    next: int,
    built: Map<Seq<char>, u64>,
) -> Map<Seq<char>, u64>
    decreases entries.len() - next,
{
    if next < 0 || next >= entries.len() {
        built
    } else {
        entries_added(entries, next + 1, built.insert(entries[next].0, entries[next].1))
    }
}

proof fn lemma_advance_without_links(
    last_parent: Seq<Seq<char>>,
    sizes: Option<Map<Seq<char>, u64>>,
    req: RequestModel,
    entries: Seq<(Seq<char>, u64)>,
    next: int,
    built: Map<Seq<char>, u64>,
)
    requires
        !req.eager_get_links,
        0 <= next,
    ensures
        advance_spec(last_parent, sizes, req, entries, next, built) == lookup_spec(
            ClientModel {
                last_parent,
                sizes: Some(entries_added(entries, next, built)),
                phase: PhaseModel::Idle,
            },
            req,
        ),
    decreases entries.len() - next,
{
    if next < entries.len() {
        lemma_advance_without_links(
            last_parent,
            sizes,
            req,
            entries,
            next + 1,
            built.insert(entries[next].0, entries[next].1),
        );
    }
}

/// Batch lookup: once the parent folder is listed (without resolving links),
/// the client holds the size of every listed entry of that folder, and the
/// lookup goes on from those sizes.
pub proof fn lemma_listing_fills_cache(s: ClientModel, req: RequestModel, data: Seq<u8>)
    requires
        s.phase == PhaseModel::AwaitListing(req),
        !req.eager_get_links,
    ensures
        folder_size_next(s, EventModel::Listed(Ok(data))) == lookup_spec(
            ClientModel {
                last_parent: s.last_parent,
                sizes: Some(entries_added(listing_entries_of(data), 0, Map::empty())),
                phase: PhaseModel::Idle,
            },
            req,
        ),
{
    lemma_advance_without_links(
        s.last_parent,
        s.sizes,
        req,
        listing_entries_of(data),
        0,
        Map::empty(),
    );
}

/// A lookup in the parent folder that was listed last asks Everything
/// nothing more: after the client is there, it answers from the cache.
pub proof fn lemma_same_parent_no_requery(s: ClientModel, req: RequestModel)
    requires
        req.parent is Some,
        req.parent->0.components == s.last_parent,
        req.parent->0.display.len() > 0,
        s.sizes is Some,
    ensures
        folder_size_next(s, EventModel::Lookup(req)).1 == ActionModel::Connect,
        folder_size_next(folder_size_next(s, EventModel::Lookup(req)).0, EventModel::Connected(Ok(())))
            == lookup_spec(s, req),
        !(lookup_spec(s, req).1 is QueryFolder),
{
}

/// A lookup is only answered from sizes listed for its own parent. After the
/// lookup starts and the client is there, either the request's parent is
/// listed now (its search is run, the client remembers that parent's
/// components, and nothing is cached until the listing comes), or the
/// client already holds sizes listed for exactly that parent and answers
/// from them.
pub proof fn lemma_answers_only_from_own_parent(s: ClientModel, req: RequestModel)
    requires
        req.parent is Some,
        req.parent->0.display.len() > 0,
    ensures
        ({
            let p = req.parent->0;
            let (s1, a1) = folder_size_next(s, EventModel::Lookup(req));
            let (s2, a2) = folder_size_next(s1, EventModel::Connected(Ok(())));
            &&& a1 == ActionModel::Connect
            &&& (s.last_parent != p.components || s.sizes is None) ==> {
                &&& a2 == ActionModel::QueryFolder(folder_listing_search(p.display))
                &&& s2.last_parent == p.components
                &&& s2.sizes is None
                &&& s2.phase == PhaseModel::AwaitListing(req)
            }
            &&& (s.last_parent == p.components && s.sizes is Some) ==> (s2, a2) == lookup_spec(
                s,
                req,
            )
        }),
{
}

/// A failed listing leaves nothing cached for its parent: the lookup ends
/// with the query's error, and the next lookup in that parent asks
/// Everything for the listing again.
pub proof fn lemma_failed_listing_not_cached(
    s: ClientModel,
    req: RequestModel,
    err: IpcError,
    again: RequestModel,
)
    requires
        s.phase == PhaseModel::AwaitListing(req),
        again.parent is Some,
        again.parent->0.display.len() > 0,
    ensures
        ({
            let (s1, a1) = folder_size_next(s, EventModel::Listed(Err(err)));
            let (s2, a2) = folder_size_next(s1, EventModel::Lookup(again));
            let (s3, a3) = folder_size_next(s2, EventModel::Connected(Ok(())));
            &&& a1 == ActionModel::Done(Err(FolderSizeError::Ipc(err)), None)
            &&& s1.sizes == s.sizes
            &&& (s.sizes is None ==> {
                &&& a2 == ActionModel::Connect
                &&& a3 == ActionModel::QueryFolder(folder_listing_search(again.parent->0.display))
                &&& s3.last_parent == again.parent->0.components
            })
        }),
{
}

/// Through the steps of a lookup in the parent folder listed last: the
/// lookup connects, then answers from the cache, reporting the largest size
/// of that parent when it is asked for.
pub proof fn lemma_cached_lookup_steps(s: ClientModel, req: RequestModel)
    requires
        s.sizes is Some,
        req.parent is Some,
        req.parent->0.components == s.last_parent,
        req.parent->0.display.len() > 0,
        req.want_parent_max,
        req.file_name is Some,
    ensures
        ({
            let (s1, a1) = folder_size_next(s, EventModel::Lookup(req));
            let step = folder_size_next(s1, EventModel::Connected(Ok(())));
            &&& a1 == ActionModel::Connect
            &&& step == lookup_spec(s, req)
            &&& reported_max(step) == Some(map_max(s.sizes->0))
        }),
{
    lemma_parent_max_shared(s, req, req);
}

/// Listing the parent is one step: the listed entries are added to a fresh
/// map from the first, resolving links of size-0 entries when asked to.
pub proof fn lemma_listing_step(s: ClientModel, req: RequestModel, data: Seq<u8>)
    requires
        s.phase == PhaseModel::AwaitListing(req),
    ensures
        folder_size_next(s, EventModel::Listed(Ok(data))) == advance_spec(
            s.last_parent,
            s.sizes,
            req,
            listing_entries_of(data),
            0,
            Map::empty(),
        ),
{
}

/// The largest size of the parent folder that a lookup step reports: the
/// one in a finished lookup, or the one a path resolution carries to its end.
pub open spec fn reported_max(step: (ClientModel, ActionModel)) -> Option<u64> {
    match step.1 {
        ActionModel::Done(_, m) => m,
        _ => match step.0.phase {
            PhaseModel::AwaitPath(_, _, m) => m,
            PhaseModel::AwaitPathSize(_, _, m) => m,
            _ => None,
        },
    }
}

/// Every lookup in a parent folder whose sizes are known reports the largest
/// of those sizes, whether or not the folder is among them and whether the
/// listing was just made or cached: at once, or, when a size of 0 sends the
/// lookup to resolve the path, at the end of that resolution. So folders of
/// the same parent report the same largest size.
pub proof fn lemma_parent_max_shared(s: ClientModel, r1: RequestModel, r2: RequestModel)
    requires
        s.sizes is Some,
        r1.want_parent_max && r2.want_parent_max,
        r1.file_name is Some,
        r2.file_name is Some,
    ensures
        reported_max(lookup_spec(s, r1)) == Some(map_max(s.sizes->0)),
        reported_max(lookup_spec(s, r2)) == Some(map_max(s.sizes->0)),
        lookup_spec(s, r1).1 is Done || lookup_spec(s, r1).1 is ResolvePath,
        lookup_spec(s, r1).1 is ResolvePath ==> lookup_spec(s, r1).0.phase is AwaitPath,
{
}

/// A lookup that lists its parent folder now (without resolving links)
/// reports the largest of the listed sizes, as a later lookup answered from
/// the cache of that listing does.
pub proof fn lemma_listing_reports_max(s: ClientModel, req: RequestModel, data: Seq<u8>)
    requires
        s.phase == PhaseModel::AwaitListing(req),
        !req.eager_get_links,
        req.want_parent_max,
        req.file_name is Some,
    ensures
        reported_max(folder_size_next(s, EventModel::Listed(Ok(data)))) == Some(
            map_max(entries_added(listing_entries_of(data), 0, Map::empty())),
        ),
{
    lemma_listing_fills_cache(s, req, data);
    let cached = ClientModel {
        last_parent: s.last_parent,
        sizes: Some(entries_added(listing_entries_of(data), 0, Map::empty())),
        phase: PhaseModel::Idle,
    };
    lemma_parent_max_shared(cached, req, req);
}

/// A path resolution carries the largest size it was started with to the
/// end of the lookup, and only to it.
pub proof fn lemma_resolution_keeps_max(s: ClientModel, e: EventModel)
    requires
        s.phase is AwaitPath || s.phase is AwaitPathSize,
        e is PathResolved || e is PathSize,
        s.phase is AwaitPath ==> e is PathResolved,
        s.phase is AwaitPathSize ==> e is PathSize,
    ensures
        reported_max(folder_size_next(s, e)) == reported_max((s, ActionModel::ResolvePath)),
{
}

/// Resolving a listed size of 0: without eager link resolution, a folder
/// listed with size 0 is looked up through its resolved path. A resolution
/// error ends the lookup with that error; a path that resolves to itself is
/// an empty folder; otherwise the resolved path's size is asked for, and it
/// is the answer (and is cached), or its error is.
pub proof fn lemma_zero_size_resolution(
    s: ClientModel,
    req: RequestModel,
    resolved: Result<PathNameModel, std::io::Error>,
    size: Result<u64, IpcError>,
)
    requires
        s.phase == PhaseModel::Idle,
        s.sizes is Some,
        !req.eager_get_links,
        req.file_name is Some,
        s.sizes->0.dom().contains(req.file_name->0),
        s.sizes->0[req.file_name->0] == 0,
    ensures
        ({
            let f = req.file_name->0;
            let m = s.sizes->0;
            let max = if req.want_parent_max {
                Some(map_max(m))
            } else {
                None
            };
            let (s1, a1) = lookup_spec(s, req);
            let (s2, a2) = folder_size_next(s1, EventModel::PathResolved(resolved));
            let (s3, a3) = folder_size_next(s2, EventModel::PathSize(size));
            &&& a1 == ActionModel::ResolvePath
            &&& s1.phase == PhaseModel::AwaitPath(req, f, max)
            &&& (resolved matches Err(err) ==> a2 == ActionModel::Done(
                Err(FolderSizeError::Io(err)),
                max,
            ))
            &&& (resolved matches Ok(r) && r.components == req.path.components ==> a2
                == ActionModel::Done(Ok(0), max))
            &&& (resolved is Ok && resolved->Ok_0.components != req.path.components ==> {
                &&& a2 == ActionModel::QueryPathSize(resolved->Ok_0.display)
                &&& (size matches Ok(t) ==> a3 == ActionModel::Done(Ok(t), max) && s3.sizes
                    == Some(m.insert(f, t)))
                &&& (size matches Err(err) ==> a3 == ActionModel::Done(
                    Err(FolderSizeError::Ipc(err)),
                    max,
                ) && s3.sizes == s.sizes)
            })
        }),
{
}

/// Eager link resolution: while the listing is added to the cache, each
/// entry of size 0 has its joined path resolved; when it resolves elsewhere,
/// the resolved folder's size is asked for and cached in its place, and when
/// the resolution or the size query fails, or the path resolves to itself,
/// the entry keeps size 0. A cached size of 0 is then the answer as it is.
pub proof fn lemma_eager_link_resolution(
    s: ClientModel,
    req: RequestModel,
    entries: Seq<(Seq<char>, u64)>,
    next: int,
    built: Map<Seq<char>, u64>,
    resolved: Option<(PathNameModel, PathNameModel)>,
    target: Option<u64>,
)
    requires
        req.eager_get_links,
        0 <= next < entries.len(),
        entries[next].1 == 0,
    ensures
        advance_spec(s.last_parent, s.sizes, req, entries, next, built) == (
            ClientModel {
                last_parent: s.last_parent,
                sizes: s.sizes,
                phase: PhaseModel::AwaitLink(req, entries, next, built),
            },
            ActionModel::ResolveLink(entries[next].0),
        ),
        ({
            let s1 = ClientModel {
                last_parent: s.last_parent,
                sizes: s.sizes,
                phase: PhaseModel::AwaitLink(req, entries, next, built),
            };
            let (s2, a2) = folder_size_next(s1, EventModel::LinkResolved(resolved));
            let keep = advance_spec(
                s.last_parent,
                s.sizes,
                req,
                entries,
                next + 1,
                built.insert(entries[next].0, 0),
            );
            match resolved {
                Some((j, r)) => if r.components != j.components {
                    &&& a2 == ActionModel::QueryLinkSize(r.display)
                    &&& folder_size_next(s2, EventModel::LinkSize(target)) == advance_spec(
                        s.last_parent,
                        s.sizes,
                        req,
                        entries,
                        next + 1,
                        built.insert(
                            entries[next].0,
                            match target {
                                Some(t) => t,
                                None => 0,
                            },
                        ),
                    )
                } else {
                    (s2, a2) == keep
                },
                None => (s2, a2) == keep,
            }
        }),
{
}

/// With eager link resolution a cached size of 0 is an empty folder: the
/// lookup answers 0 without resolving the path.
pub proof fn lemma_eager_zero_is_empty(s: ClientModel, req: RequestModel)
    requires
        s.sizes is Some,
        req.eager_get_links,
        req.file_name is Some,
        s.sizes->0.dom().contains(req.file_name->0),
        s.sizes->0[req.file_name->0] == 0,
    ensures
        lookup_spec(s, req).1 matches ActionModel::Done(Ok(v), _) && v == 0,
{
}

/// A size found through the resolved path is cached: looking the same folder
/// up again in the same parent answers that size without resolving again.
pub proof fn lemma_resolved_size_cached(
    s: ClientModel,
    req: RequestModel,
    f: Seq<char>,
    max: Option<u64>,
    size: u64,
    again: RequestModel,
)
    requires
        s.phase == PhaseModel::AwaitPathSize(req, f, max),
        s.sizes is Some,
        size != 0,
        again.file_name == Some(f),
    ensures
        ({
            let (s2, a) = folder_size_next(s, EventModel::PathSize(Ok(size)));
            &&& a == ActionModel::Done(Ok(size), max)
            &&& s2.last_parent == s.last_parent
            &&& lookup_spec(s2, again).1 == ActionModel::Done(
                Ok(size),
                if again.want_parent_max {
                    Some(map_max(s.sizes->0.insert(f, size)))
                } else {
                    None
                },
            )
        }),
{
}

/// A drive root (a path of three bytes without a parent, like `C:\`) is
/// answered with the disk's size.
pub proof fn lemma_drive_root(s: ClientModel, req: RequestModel, size: u64)
    requires
        req.parent is None,
        req.path_len == 3,
    ensures
        folder_size_next(s, EventModel::Lookup(req)).1 == ActionModel::QueryDiskSpace,
        folder_size_next(folder_size_next(s, EventModel::Lookup(req)).0, EventModel::DiskSpace(Some(size))).1
            == ActionModel::Done(Ok(size), None),
{
}

} // verus!
