//! Client-side logic of voidtools Everything's IPC protocol: the request and
//! reply byte layouts of the window-message interface, search flags and sort
//! orders, IPC window naming, PE version decoding, path normalisation and the
//! folder-size cache.

use vstd::prelude::*;

use crate::utf16::{encode_utf16, push_utf16, units_to_string, utf16_strict};
use crate::wm::{
    file_info_repr, FileInfo, EVERYTHING_IPC_GET_MINOR_VERSION, EVERYTHING_IPC_IS_DB_LOADED,
    EVERYTHING_IPC_IS_FILE_INFO_INDEXED,
};

mod bytes;
pub mod folder;
pub mod pe;
pub mod search;
mod utf16;
mod version;
pub mod version_resource;
mod windows;
pub mod wm;

pub use version::Version;
pub use windows::Handle;

verus! {

/// Class name of Everything's IPC window; a named instance appends its name
/// in brackets.
pub const IPC_CLASS_PREFIX: &'static str = "EVERYTHING_TASKBAR_NOTIFICATION";

/// The message of Everything's IPC commands, `WM_USER`.
pub const EVERYTHING_WM_IPC: u32 = 0x0400;

/// Start of the class name of a named instance's IPC window, up to its name.
pub const NAMED_IPC_CLASS_PREFIX: &'static str = "EVERYTHING_TASKBAR_NOTIFICATION_(";

/// The instance name that an IPC window class name carries, as
/// `EVERYTHING_TASKBAR_NOTIFICATION_(<name>)` does.
pub open spec fn instance_name_of(class_name: Seq<char>) -> Option<Seq<char>> {
    if class_name.len() >= NAMED_IPC_CLASS_PREFIX@.len() + 1 && class_name.take(
        NAMED_IPC_CLASS_PREFIX@.len() as int,
    ) == NAMED_IPC_CLASS_PREFIX@ && class_name.last() == ')' {
        Some(class_name.subrange(NAMED_IPC_CLASS_PREFIX@.len() as int, class_name.len() - 1))
    } else {
        None
    }
}

/// The class name that `IpcWindow::with_instance` looks for: the prefix,
/// then, for a named instance, `_(<name>)`.
pub open spec fn instance_class_name(instance_name: Option<Seq<char>>) -> Seq<char> {
    match instance_name {
        None => IPC_CLASS_PREFIX@,
        Some(name) => IPC_CLASS_PREFIX@ + "_("@ + name + ")"@,
    }
}

/// The class name starts with [`IPC_CLASS_PREFIX`].
pub open spec fn has_ipc_class_prefix(class_name: Seq<char>) -> bool {
    class_name.len() >= IPC_CLASS_PREFIX@.len() && class_name.take(IPC_CLASS_PREFIX@.len() as int)
        == IPC_CLASS_PREFIX@
}

/// The view of an optional string.
pub open spec fn opt_str_view(s: Option<&str>) -> Option<Seq<char>> {
    match s {
        Some(n) => Some(n@),
        None => None,
    }
}

/// The null-terminated UTF-16 class name that `IpcWindow::with_instance` looks for.
pub open spec fn instance_class_units(instance_name: Option<Seq<char>>) -> Seq<u16> {
    encode_utf16(instance_class_name(instance_name)).push(0)
}

/// `find_window`, asked for the class name `units`, may answer `found`.
pub open spec fn found_by<F: Fn(&[u16]) -> Option<isize>>(
    find_window: F,
    units: Seq<u16>,
    found: Option<isize>,
) -> bool {
    exists|c: &[u16]| c@ == units && #[trigger] call_ensures(find_window, (c,), found)
}

/// What `IpcWindow::with_instance` gives for an instance name: the window
/// that `find_window` answered, with the class name asked for, or nothing
/// when it answered nothing or a null handle.
pub open spec fn with_instance_result<F: Fn(&[u16]) -> Option<isize>>(
    find_window: F,
    instance_name: Option<Seq<char>>,
    r: Option<IpcWindow>,
) -> bool {
    let units = instance_class_units(instance_name);
    match r {
        Some(w) => w@.0 != 0 && w@.1 == instance_class_name(instance_name) && found_by(
            find_window,
            units,
            Some(w@.0),
        ),
        None => found_by(find_window, units, None) || found_by(find_window, units, Some(0)),
    }
}

/// An IPC window of Everything.
///
/// This struct is a minimal IPC interface for Everything v1.4+.
/// It only supports:
/// - Detecting Everything.
/// - Retrieving its version and instance name.
/// - Retrieving its DB status.
#[derive(Debug, Clone)]
pub struct IpcWindow {
    hwnd: isize,
    class_name: String,
}

impl View for IpcWindow {
    /// The window handle and the class name.
    type V = (isize, Seq<char>);

    closed spec fn view(&self) -> (isize, Seq<char>) {
        (self.hwnd, self.class_name@)
    }
}

impl IpcWindow {
    /// The window with the given handle and class name.
    pub fn from_parts(hwnd: isize, class_name: String) -> (r: IpcWindow)
        ensures
            r@ == (hwnd, class_name@),
    {
        IpcWindow { hwnd, class_name }
    }

    /// Find an [`IpcWindow`] by trying common instance names: the default
    /// instance, then `1.5a`. `find_window` looks a window up by its
    /// null-terminated UTF-16 class name, as `FindWindowW` does.
    pub fn new<F: Fn(&[u16]) -> Option<isize>>(find_window: &F) -> (r: Option<IpcWindow>)
        requires
            forall|c: &[u16]| #[trigger] call_requires(*find_window, (c,)),
        ensures
            match r {
                Some(_) => with_instance_result(*find_window, None, r) || (with_instance_result(
                    *find_window,
                    None,
                    None,
                ) && with_instance_result(*find_window, Some("1.5a"@), r)),
                None => with_instance_result(*find_window, None, None) && with_instance_result(
                    *find_window,
                    Some("1.5a"@),
                    None,
                ),
            },
            r matches Some(w) ==> has_ipc_class_prefix(w@.1),
    {
        match Self::with_instance(None, find_window) {
            Some(window) => Some(window),
            None => Self::with_instance(Some("1.5a"), find_window),
        }
    }

    /// Find the [`IpcWindow`] of an instance by its class name; `find_window`
    /// looks a window up by its null-terminated UTF-16 class name, as
    /// `FindWindowW` does. A null handle counts as not found.
    pub fn with_instance<F: Fn(&[u16]) -> Option<isize>>(
        instance_name: Option<&str>,
        find_window: &F,
    ) -> (r: Option<IpcWindow>)
        requires
            forall|c: &[u16]| #[trigger] call_requires(*find_window, (c,)),
        ensures
            with_instance_result(*find_window, opt_str_view(instance_name), r),
            r matches Some(w) ==> has_ipc_class_prefix(w@.1),
    {
        proof {
            lemma_instance_class_name_prefix(opt_str_view(instance_name));
        }
        let class_name = Self::instance_class_name_utf16(instance_name);
        let units = class_name.as_slice();
        let found = find_window(units);
        proof {
            assert(units@ == instance_class_units(opt_str_view(instance_name)));
            assert(call_ensures(*find_window, (units,), found));
        }
        match found {
            Some(hwnd) => {
                if hwnd == 0 {
                    None
                } else {
                    Some(IpcWindow { hwnd, class_name: Self::instance_class_name(instance_name) })
                }
            },
            None => None,
        }
    }

    /// The class name that `with_instance` looks for.
    pub fn instance_class_name(instance_name: Option<&str>) -> (r: String)
        ensures
            r@ == instance_class_name(
                match instance_name {
                    Some(n) => Some(n@),
                    None => None,
                },
            ),
    {
        let mut s = String::from_str(IPC_CLASS_PREFIX);
        if let Some(name) = instance_name {
            s.append("_(");
            s.append(name);
            s.append(")");
        }
        s
    }

    /// The null-terminated UTF-16 class name that `with_instance` passes to
    /// `FindWindowW`.
    pub fn instance_class_name_utf16(instance_name: Option<&str>) -> (r: Vec<u16>)
        ensures
            r@ == encode_utf16(
                instance_class_name(
                    match instance_name {
                        Some(n) => Some(n@),
                        None => None,
                    },
                ),
            ).push(0),
    {
        let mut class_name: Vec<u16> = Vec::new();
        push_utf16(IPC_CLASS_PREFIX, &mut class_name);
        if let Some(name) = instance_name {
            push_utf16("_(", &mut class_name);
            push_utf16(name, &mut class_name);
            push_utf16(")", &mut class_name);
            proof {
                crate::utf16::lemma_encode_utf16_concat(IPC_CLASS_PREFIX@, "_("@);
                crate::utf16::lemma_encode_utf16_concat(IPC_CLASS_PREFIX@ + "_("@, name@);
                crate::utf16::lemma_encode_utf16_concat(IPC_CLASS_PREFIX@ + "_("@ + name@, ")"@);
            }
        }
        class_name.push(0);
        class_name
    }

    /// The IPC window that a window of the current thread is, judged by its
    /// class name: `Ok(None)` when the class name does not start with
    /// [`IPC_CLASS_PREFIX`], `Err(())` when it does but is not valid UTF-16.
    pub fn from_window_class(hwnd: isize, class_name: &[u16]) -> (r: Result<
        Option<IpcWindow>,
        (),
    >)
        ensures
            !(class_name@.len() >= encode_utf16(IPC_CLASS_PREFIX@).len() && class_name@.take(
                encode_utf16(IPC_CLASS_PREFIX@).len() as int,
            ) == encode_utf16(IPC_CLASS_PREFIX@)) ==> r == Ok::<Option<IpcWindow>, ()>(None),
            class_name@.len() >= encode_utf16(IPC_CLASS_PREFIX@).len() && class_name@.take(
                encode_utf16(IPC_CLASS_PREFIX@).len() as int,
            ) == encode_utf16(IPC_CLASS_PREFIX@) ==> match utf16_strict(class_name@) {
                Some(s) => r is Ok && r->Ok_0 is Some && r->Ok_0->0@ == (hwnd, s),
                None => r is Err,
            },
            r matches Ok(Some(w)) ==> has_ipc_class_prefix(w@.1),
    {
        let mut prefix: Vec<u16> = Vec::new();
        push_utf16(IPC_CLASS_PREFIX, &mut prefix);
        if class_name.len() < prefix.len() {
            return Ok(None);
        }
        let mut k: usize = 0;
        while k < prefix.len()
            invariant
                k <= prefix@.len() <= class_name@.len(),
                prefix@ == encode_utf16(IPC_CLASS_PREFIX@),
                forall|j: int| 0 <= j < k ==> class_name@[j] == prefix@[j],
            decreases prefix@.len() - k,
        {
            if class_name[k] != prefix[k] {
                proof {
                    assert(class_name@.take(prefix@.len() as int)[k as int] != prefix@[k as int]);
                }
                return Ok(None);
            }
            k += 1;
        }
        assert(class_name@.take(prefix@.len() as int) =~= prefix@);
        match units_to_string(class_name) {
            Some(s) => Ok(Some(IpcWindow { hwnd, class_name: s })),
            None => Err(()),
        }
    }

    /// Handle of the IPC window.
    pub fn hwnd(&self) -> (r: isize)
        ensures
            r == self@.0,
    {
        self.hwnd
    }

    /// Class name of the IPC window.
    pub fn class_name(&self) -> (r: &str)
        ensures
            r@ == self@.1,
    {
        self.class_name.as_str()
    }

    /// Check if IPC is available: the minor version that the window reports
    /// is at least 4. `send_message` sends a message to a window and returns
    /// its result, as `SendMessageW` does.
    pub fn is_ipc_available<F: Fn(isize, u32, usize, isize) -> isize>(&self, send_message: &F) -> (r:
        bool)
        requires
            forall|h: isize, m: u32, w: usize, l: isize| #[trigger]
                call_requires(*send_message, (h, m, w, l)),
        ensures
            exists|res: isize|
                #[trigger] call_ensures(
                    *send_message,
                    (self@.0, EVERYTHING_WM_IPC, EVERYTHING_IPC_GET_MINOR_VERSION as usize, 0isize),
                    res,
                ) && r == (res >= 4),
    {
        let res = send_message(
            self.hwnd,
            EVERYTHING_WM_IPC,
            EVERYTHING_IPC_GET_MINOR_VERSION as usize,
            0,
        );
        res >= 4
    }

    /// Get the version of Everything: the major version, minor version,
    /// revision and build number that the window reports, each truncated to
    /// 32 bits.
    pub fn get_version<F: Fn(isize, u32, usize, isize) -> isize>(&self, send_message: &F) -> (r:
        Version)
        requires
            forall|h: isize, m: u32, w: usize, l: isize| #[trigger]
                call_requires(*send_message, (h, m, w, l)),
        ensures
            exists|a: isize, b: isize, c: isize, d: isize|
                #![trigger call_ensures(*send_message, (self@.0, EVERYTHING_WM_IPC, 0usize, 0isize), a), call_ensures(*send_message, (self@.0, EVERYTHING_WM_IPC, 1usize, 0isize), b), call_ensures(*send_message, (self@.0, EVERYTHING_WM_IPC, 2usize, 0isize), c), call_ensures(*send_message, (self@.0, EVERYTHING_WM_IPC, 3usize, 0isize), d)]
                call_ensures(*send_message, (self@.0, EVERYTHING_WM_IPC, 0usize, 0isize), a)
                    && call_ensures(*send_message, (self@.0, EVERYTHING_WM_IPC, 1usize, 0isize), b)
                    && call_ensures(*send_message, (self@.0, EVERYTHING_WM_IPC, 2usize, 0isize), c)
                    && call_ensures(*send_message, (self@.0, EVERYTHING_WM_IPC, 3usize, 0isize), d)
                    && r == (Version {
                    major: a as u32,
                    minor: b as u32,
                    revision: c as u32,
                    build: d as u32,
                }),
    {
        let major = send_message(self.hwnd, EVERYTHING_WM_IPC, 0, 0);
        let minor = send_message(self.hwnd, EVERYTHING_WM_IPC, 1, 0);
        let revision = send_message(self.hwnd, EVERYTHING_WM_IPC, 2, 0);
        let build = send_message(self.hwnd, EVERYTHING_WM_IPC, 3, 0);
        Version {
            major: major as u32,
            minor: minor as u32,
            revision: revision as u32,
            build: build as u32,
        }
    }

    /// Check if the database is loaded: the window answers non-zero.
    pub fn is_db_loaded<F: Fn(isize, u32, usize, isize) -> isize>(&self, send_message: &F) -> (r:
        bool)
        requires
            forall|h: isize, m: u32, w: usize, l: isize| #[trigger]
                call_requires(*send_message, (h, m, w, l)),
        ensures
            exists|res: isize|
                #[trigger] call_ensures(
                    *send_message,
                    (self@.0, EVERYTHING_WM_IPC, EVERYTHING_IPC_IS_DB_LOADED as usize, 0isize),
                    res,
                ) && r == (res != 0),
    {
        let res = send_message(self.hwnd, EVERYTHING_WM_IPC, EVERYTHING_IPC_IS_DB_LOADED as usize, 0);
        res != 0
    }

    /// Check if a kind of file information is indexed: the window answers non-zero.
    pub fn is_file_info_indexed<F: Fn(isize, u32, usize, isize) -> isize>(
        &self,
        info: FileInfo,
        send_message: &F,
    ) -> (r: bool)
        requires
            forall|h: isize, m: u32, w: usize, l: isize| #[trigger]
                call_requires(*send_message, (h, m, w, l)),
        ensures
            exists|res: isize|
                #[trigger] call_ensures(
                    *send_message,
                    (
                        self@.0,
                        EVERYTHING_WM_IPC,
                        EVERYTHING_IPC_IS_FILE_INFO_INDEXED as usize,
                        file_info_repr(info) as isize,
                    ),
                    res,
                ) && r == (res != 0),
    {
        let lparam = info.repr() as isize;
        let res = send_message(
            self.hwnd,
            EVERYTHING_WM_IPC,
            EVERYTHING_IPC_IS_FILE_INFO_INDEXED as usize,
            lparam,
        );
        res != 0
    }

    /// The instance name in the class name, e.g. `1.5a` for
    /// `EVERYTHING_TASKBAR_NOTIFICATION_(1.5a)`.
    pub fn instance_name(&self) -> (r: Option<&str>)
        ensures
            match instance_name_of(self@.1) {
                Some(n) => r is Some && r->0@ == n,
                None => r is None,
            },
    {
        let s = self.class_name.as_str();
        let prefix = NAMED_IPC_CLASS_PREFIX;
        proof {
            reveal_strlit("EVERYTHING_TASKBAR_NOTIFICATION_(");
        }
        let n = s.unicode_len();
        let p = prefix.unicode_len();
        if n < p + 1 {
            return None;
        }
        let mut k: usize = 0;
        while k < p
            invariant
                k <= p,
                p == prefix@.len(),
                n == s@.len(),
                p + 1 <= n,
                s@ == self@.1,
                prefix@ == NAMED_IPC_CLASS_PREFIX@,
                forall|j: int| 0 <= j < k ==> s@[j] == prefix@[j],
            decreases p - k,
        {
            if s.get_char(k) != prefix.get_char(k) {
                proof {
                    assert(s@.take(p as int)[k as int] != prefix@[k as int]);
                }
                return None;
            }
            k += 1;
        }
        assert(s@.take(p as int) =~= prefix@);
        if s.get_char(n - 1) != ')' {
            return None;
        }
        Some(s.substring_char(p, n - 1))
    }
}

/// The instance name read from a named instance's class name is that name,
/// so the class name that `with_instance` looks for gives its instance name
/// back, and the default instance's class name carries none.
pub proof fn lemma_instance_name_roundtrip(name: Seq<char>)
    ensures
        instance_name_of(NAMED_IPC_CLASS_PREFIX@ + name + ")"@) == Some(name),
        instance_name_of(instance_class_name(Some(name))) == Some(name),
        instance_name_of(instance_class_name(None)) is None,
{
    reveal_strlit("EVERYTHING_TASKBAR_NOTIFICATION_(");
    reveal_strlit("EVERYTHING_TASKBAR_NOTIFICATION");
    reveal_strlit("_(");
    reveal_strlit(")");
    assert(NAMED_IPC_CLASS_PREFIX@ =~= IPC_CLASS_PREFIX@ + "_("@);
    let c = NAMED_IPC_CLASS_PREFIX@ + name + ")"@;
    let p = NAMED_IPC_CLASS_PREFIX@.len() as int;
    assert(c.take(p) =~= NAMED_IPC_CLASS_PREFIX@);
    assert(c.last() == ')');
    assert(c.subrange(p, c.len() - 1) =~= name);
    assert(instance_class_name(Some(name)) =~= c);
}

/// Every class name that `with_instance` looks for starts with
/// [`IPC_CLASS_PREFIX`]; the default instance's is the prefix itself.
pub proof fn lemma_instance_class_name_prefix(name: Option<Seq<char>>)
    ensures
        has_ipc_class_prefix(instance_class_name(name)),
        name is None ==> instance_class_name(name) == IPC_CLASS_PREFIX@,
{
    let c = instance_class_name(name);
    assert(c.take(IPC_CLASS_PREFIX@.len() as int) =~= IPC_CLASS_PREFIX@);
}

} // verus!
