//! The archive formats an asset can come in, told apart by the asset's name.

use crate::text::ends_with;
use vstd::prelude::*;

verus! {

/// How an asset is packed.
#[derive(Clone, Copy, Debug, PartialEq, Eq, Structural)]
pub enum ArchiveFormat {
    /// A gzip-compressed tar stream.
    TarGz,
    /// A zip archive.
    Zip,
    /// A disk image that has to be mounted.
    Dmg,
}

/// The format that a file name announces.
pub open spec fn format_of(name: Seq<char>) -> Option<ArchiveFormat> {
    if ".tar.gz"@.is_suffix_of(name) {
        Some(ArchiveFormat::TarGz)
    } else if ".zip"@.is_suffix_of(name) {
        Some(ArchiveFormat::Zip)
    } else if ".dmg"@.is_suffix_of(name) {
        Some(ArchiveFormat::Dmg)
    } else {
        None
    }
}

/// The format that a file name announces: `.tar.gz` before `.zip` before `.dmg`.
pub fn archive_format(name: &str) -> (r: Option<ArchiveFormat>)
    ensures
        r == format_of(name@),
{
    if ends_with(name, ".tar.gz") {
        Some(ArchiveFormat::TarGz)
    } else if ends_with(name, ".zip") {
        Some(ArchiveFormat::Zip)
    } else if ends_with(name, ".dmg") {
        Some(ArchiveFormat::Dmg)
    } else {
        None
    }
}

/// A suffix of a suffix is a suffix.
pub proof fn lemma_suffix_of_suffix(inner: Seq<char>, outer: Seq<char>, s: Seq<char>)
    requires
        inner.is_suffix_of(outer),
        outer.is_suffix_of(s),
    ensures
        inner.is_suffix_of(s),
{
    assert(s.subrange(s.len() - inner.len(), s.len() as int) =~= outer.subrange(
        outer.len() - inner.len(),
        outer.len() as int,
    ));
}

} // verus!
