//! PE file utilities: the version of an executable image.

use vstd::prelude::*;

use crate::version_resource::{resource_words, version_walk_in_bounds, version_walk_stays_in_bounds};
use crate::Version;

verus! {

#[verifier::external_type_specification]
#[verifier::external_body]
pub struct ExIoError(std::io::Error);

#[verifier::external_type_specification]
#[verifier::external_body]
pub struct ExPeliteError(pelite::Error);

#[verifier::external_type_specification]
#[verifier::external_body]
pub struct ExFindError(pelite::resources::FindError);

#[verifier::external_type_specification]
#[verifier::external_body]
#[verifier::reject_recursive_types(T32)]
#[verifier::reject_recursive_types(T64)]
pub struct ExWrap<T32, T64>(pelite::Wrap<T32, T64>);

#[verifier::external_type_specification]
#[verifier::external_body]
pub struct ExPe32File<'a>(pelite::pe32::PeFile<'a>);

#[verifier::external_type_specification]
#[verifier::external_body]
pub struct ExPe64File<'a>(pelite::pe64::PeFile<'a>);

#[verifier::external_type_specification]
#[verifier::external_body]
pub struct ExResources<'a>(pelite::resources::Resources<'a>);


/// Error type for PE version extraction.
#[derive(Debug)]
pub enum PeVersionError {
    /// Failed to read.
    Io(std::io::Error),
    /// Failed to parse PE.
    Parse(pelite::Error),
    /// Failed to find version.
    Resources(pelite::resources::FindError),
    /// Version not found.
    NotFound,
}

/// A version as `VS_FIXEDFILEINFO` stores it.
#[allow(non_snake_case)]
#[derive(Debug, Clone, Copy, PartialEq, Eq, Structural)]
pub struct VsVersion {
    pub Major: u16,
    pub Minor: u16,
    pub Patch: u16,
    pub Build: u16,
}

/// The file and product versions of `VS_FIXEDFILEINFO`.
#[derive(Debug, Clone, Copy, PartialEq, Eq, Structural)]
pub struct FixedFileVersions {
    pub file_version: VsVersion,
    pub product_version: VsVersion,
}

/// True when every component of the version is zero.
pub open spec fn vs_version_is_zero(v: VsVersion) -> bool {
    v.Major == 0 && v.Minor == 0 && v.Patch == 0 && v.Build == 0
}

/// The version that fixed file information gives: the product version, or
/// the file version where the product version is all zeros; all zeros
/// without fixed file information. In the order major, minor, patch, build.
pub open spec fn decoded_version(fixed: Option<FixedFileVersions>) -> (u32, u32, u32, u32) {
    match fixed {
        Some(info) => {
            let v = if vs_version_is_zero(info.product_version) {
                info.file_version
            } else {
                info.product_version
            };
            (v.Major as u32, v.Minor as u32, v.Patch as u32, v.Build as u32)
        },
        None => (0, 0, 0, 0),
    }
}

/// Decoding prefers the product version as it is, component for component,
/// and takes the file version as it is only when every component of the
/// product version is zero; without fixed file information every component
/// is zero. A version built from fixed file information carries those same
/// components, major, minor, patch as revision, and build, unless all are zero.
pub proof fn lemma_decoded_version_components(fixed: Option<FixedFileVersions>)
    ensures
        match fixed {
            Some(info) => {
                let p = info.product_version;
                let f = info.file_version;
                &&& (p.Major != 0 || p.Minor != 0 || p.Patch != 0 || p.Build != 0) ==> decoded_version(
                    fixed,
                ) == (p.Major as u32, p.Minor as u32, p.Patch as u32, p.Build as u32)
                &&& (p.Major == 0 && p.Minor == 0 && p.Patch == 0 && p.Build == 0) ==> decoded_version(
                    fixed,
                ) == (f.Major as u32, f.Minor as u32, f.Patch as u32, f.Build as u32)
            },
            None => decoded_version(fixed) == (0u32, 0u32, 0u32, 0u32),
        },
{
}

/// Decode version from `VS_FIXEDFILEINFO`.
pub fn decode_version(fixed: Option<FixedFileVersions>) -> (r: (u32, u32, u32, u32))
    ensures
        r == decoded_version(fixed),
{
    match fixed {
        Some(info) => {
            // Prefer product version, fall back to file version if product is all zeros
            let p = info.product_version;
            let version = if p.Major == 0 && p.Minor == 0 && p.Patch == 0 && p.Build == 0 {
                info.file_version
            } else {
                info.product_version
            };
            // The order is different from its physical layout
            (version.Major as u32, version.Minor as u32, version.Patch as u32, version.Build as u32)
        },
        None => (0, 0, 0, 0),
    }
}

/// Parses a PE image with `pelite::PeFile::from_bytes`, which validates its
/// headers. Claimed: an image shorter than a DOS header (64 bytes) is
/// refused. Nothing is claimed of longer images: the outcome also depends on
/// the alignment of the buffer.
#[verifier::external_body]
fn pe_file_from_bytes<'a>(image: &'a [u8]) -> (r: Result<pelite::PeFile<'a>, pelite::Error>)
    ensures
        image@.len() < 64 ==> r is Err,
{
    pelite::PeFile::from_bytes(image)
}

/// The resources of a PE file, from `pelite::PeFile::resources`. Nothing is
/// claimed of the outcome.
#[verifier::external_body]
fn pe_file_resources<'a>(pe: &pelite::PeFile<'a>) -> (r: Result<
    pelite::resources::Resources<'a>,
    pelite::Error,
>) {
    pe.resources()
}

/// The data of the version resource (type `RT_VERSION`, name 1), from
/// `pelite::resources::Resources::find_resource`: the lookup that
/// `Resources::version_info` makes. Nothing is claimed of the outcome.
#[verifier::external_body]
fn resources_version_data<'a>(resources: &pelite::resources::Resources<'a>) -> (r: Result<
    &'a [u8],
    pelite::resources::FindError,
>) {
    resources.find_resource(&[pelite::resources::Name::VERSION, pelite::resources::Name::Id(1)])
}

/// The fixed file information of a version resource, from
/// `pelite::resources::version_info::VersionInfo::fixed` on the resource data
/// as `VersionInfo::try_from` views it (checking its alignment; the error
/// becomes a `FindError` as in `Resources::version_info`), with the file and
/// product versions moved into [`FixedFileVersions`]. Required: the walk
/// that `fixed` makes stays in bounds (it indexes past a block whose key
/// padding reaches past the block's end); the data is read as little-endian
/// words, as on every Windows target. Nothing is claimed of the outcome.
#[verifier::external_body]
fn version_info_fixed<'a>(data: &'a [u8]) -> (r: Result<
    Option<FixedFileVersions>,
    pelite::resources::FindError,
>)
    requires
        version_walk_in_bounds(resource_words(data@)),
{
    let version_info = pelite::resources::version_info::VersionInfo::try_from(data)?;
    let v = |x: pelite::image::VS_VERSION|
        VsVersion { Major: x.Major, Minor: x.Minor, Patch: x.Patch, Build: x.Build };
    Ok(version_info.fixed().map(
        |i| FixedFileVersions { file_version: v(i.dwFileVersion), product_version: v(i.dwProductVersion) },
    ))
}

impl Version {
    /// The version that fixed file information gives; `NotFound` when all its
    /// components are zero.
    pub fn from_fixed_file_versions(fixed: Option<FixedFileVersions>) -> (r: Result<
        Version,
        PeVersionError,
    >)
        ensures
            ({
                let (major, minor, patch, build) = decoded_version(fixed);
                if major == 0 && minor == 0 && patch == 0 && build == 0 {
                    r matches Err(PeVersionError::NotFound)
                } else {
                    r == Ok::<Version, PeVersionError>(
                        Version { major, minor, revision: patch, build },
                    )
                }
            }),
    {
        let (major, minor, patch, build) = decode_version(fixed);
        // Return error if all version components are zero
        if major == 0 && minor == 0 && patch == 0 && build == 0 {
            Err(PeVersionError::NotFound)
        } else {
            Ok(Version { major, minor, revision: patch, build })
        }
    }

    /// Get the version information from the bytes of a PE executable.
    ///
    /// `Ok(version)` if version info is found, or `Err(e)` if no version info
    /// or parsing fails: `Parse` when the image or its resource directory
    /// cannot be read, `Resources` when there is no version resource or its
    /// data is misaligned, `NotFound` when the resource holds no fixed file
    /// information, its version is all zeros, or its blocks run past their
    /// own ends.
    pub fn from_image(image: &[u8]) -> (r: Result<Version, PeVersionError>)
        ensures
            r matches Ok(v) ==> !(v.major == 0 && v.minor == 0 && v.revision == 0 && v.build
                == 0),
            !(r matches Err(PeVersionError::Io(_))),
            image@.len() < 64 ==> r matches Err(PeVersionError::Parse(_)),
    {
        let pe = match pe_file_from_bytes(image) {
            Ok(pe) => pe,
            Err(e) => return Err(PeVersionError::Parse(e)),
        };
        let resources = match pe_file_resources(&pe) {
            Ok(r) => r,
            Err(e) => return Err(PeVersionError::Parse(e)),
        };
        let data = match resources_version_data(&resources) {
            Ok(d) => d,
            Err(e) => return Err(PeVersionError::Resources(e)),
        };
        // A version resource whose blocks cannot be walked in bounds carries
        // no readable version.
        if !version_walk_stays_in_bounds(data) {
            return Err(PeVersionError::NotFound);
        }
        let fixed = match version_info_fixed(data) {
            Ok(f) => f,
            Err(e) => return Err(PeVersionError::Resources(e)),
        };
        Self::from_fixed_file_versions(fixed)
    }
}

} // verus!
