//! The version of Everything, ordered by its components.

use vstd::prelude::*;
use vstd::std_specs::cmp::PartialOrdSpecImpl;

verus! {

/// Version of Everything.
#[derive(Debug, Clone, Copy, PartialEq, Eq, Structural, Ord, Hash)]
pub struct Version {
    pub major: u32,
    pub minor: u32,
    pub revision: u32,
    pub build: u32,
}

/// Versions compare by major version, then minor version, then revision,
/// then build number.
pub open spec fn version_order(a: Version, b: Version) -> core::cmp::Ordering {
    if a.major != b.major {
        if a.major < b.major { core::cmp::Ordering::Less } else { core::cmp::Ordering::Greater }
    } else if a.minor != b.minor {
        if a.minor < b.minor { core::cmp::Ordering::Less } else { core::cmp::Ordering::Greater }
    } else if a.revision != b.revision {
        if a.revision < b.revision { core::cmp::Ordering::Less } else { core::cmp::Ordering::Greater }
    } else if a.build != b.build {
        if a.build < b.build { core::cmp::Ordering::Less } else { core::cmp::Ordering::Greater }
    } else {
        core::cmp::Ordering::Equal
    }
}

impl Version {
    pub fn new(major: u32, minor: u32, revision: u32, build: u32) -> (r: Version)
        ensures
            r == (Version { major, minor, revision, build }),
    {
        Version { major, minor, revision, build }
    }
}

impl Default for Version {
    fn default() -> (r: Version)
        ensures
            r == (Version { major: 0, minor: 0, revision: 0, build: 0 }),
    {
        Version { major: 0, minor: 0, revision: 0, build: 0 }
    }
}

impl PartialOrd for Version {
    fn partial_cmp(&self, other: &Version) -> (r: Option<core::cmp::Ordering>) {
        let a = *self;
        let b = *other;
        let o = if a.major != b.major {
            if a.major < b.major { core::cmp::Ordering::Less } else { core::cmp::Ordering::Greater }
        } else if a.minor != b.minor {
            if a.minor < b.minor { core::cmp::Ordering::Less } else { core::cmp::Ordering::Greater }
        } else if a.revision != b.revision {
            if a.revision < b.revision { core::cmp::Ordering::Less } else { core::cmp::Ordering::Greater }
        } else if a.build != b.build {
            if a.build < b.build { core::cmp::Ordering::Less } else { core::cmp::Ordering::Greater }
        } else {
            core::cmp::Ordering::Equal
        };
        Some(o)
    }
}

impl PartialOrdSpecImpl for Version {
    open spec fn obeys_partial_cmp_spec() -> bool {
        true
    }

    open spec fn partial_cmp_spec(&self, other: &Version) -> Option<core::cmp::Ordering> {
        Some(version_order(*self, *other))
    }
}

/// The order of versions is the lexicographic order of their components, and
/// it is a total order: each pair compares one way, reversed when swapped.
pub proof fn lemma_version_order(a: Version, b: Version)
    ensures
        (version_order(a, b) == core::cmp::Ordering::Less) <==> (a.major < b.major || (a.major
            == b.major && (a.minor < b.minor || (a.minor == b.minor && (a.revision < b.revision
            || (a.revision == b.revision && a.build < b.build)))))),
        (version_order(a, b) == core::cmp::Ordering::Equal) <==> a == b,
        (version_order(a, b) == core::cmp::Ordering::Less) <==> (version_order(b, a)
            == core::cmp::Ordering::Greater),
{
}

} // verus!
