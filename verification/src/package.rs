//! Package metadata and deterministic URL construction.
//!
//! A package resource lives at
//! `{mirrorBase}/Packages/{bucket}/{name}.fc{releaseTag}.{packageArch}.rpm`,
//! where the bucket is the first character of the package name, kept in its
//! original case: the repository shards packages by that character and its
//! mirrors are case-sensitive.

use vstd::prelude::*;
use vstd::string::StrSliceExecFns;
use vstd::string::StringExecFns;

use crate::mirror::Mirror;

verus! {

/// What identifies the package to fetch. Supplied once at startup and never
/// mutated. `name` carries the full `name-version` string as it appears in
/// the package file name.
pub struct PackageSpec {
    pub name: String,
    pub version: String,
    pub release_tag: String,
    pub arch: String,
    pub package_arch: String,
}

impl PackageSpec {
    /// A package name must be non-empty: its first character is the
    /// directory bucket of the package index.
    pub open spec fn wf(&self) -> bool {
        self.name@.len() > 0
    }
}

/// The characters of the package URL built from a mirror base URL and the
/// package metadata.
pub open spec fn package_url_chars(
    base: Seq<char>,
    name: Seq<char>,
    release_tag: Seq<char>,
    package_arch: Seq<char>,
) -> Seq<char>
    recommends
        name.len() > 0,
{
    base + "/Packages/"@ + seq![name[0]] + "/"@ + name + ".fc"@ + release_tag + "."@
        + package_arch + ".rpm"@
}

/// The characters of the mirror-list URL for a release and architecture.
pub open spec fn mirror_list_url_chars(release_tag: Seq<char>, arch: Seq<char>) -> Seq<char> {
    "https://mirrors.fedoraproject.org/mirrorlist?repo=fedora-"@ + release_tag + "&arch="@
        + arch
}

/// Build the download URL of `pkg` on `mirror`. Pure and total on
/// well-formed input: the result is pinned, character for character, to
/// `package_url_chars`.
pub fn build_package_url(mirror: &Mirror, pkg: &PackageSpec) -> (r: String)
    requires
        pkg.wf(),
    ensures
        r@ == package_url_chars(
            mirror.base_url@,
            pkg.name@,
            pkg.release_tag@,
            pkg.package_arch@,
        ),
{
    let bucket: &str = pkg.name.as_str().substring_char(0, 1);
    proof {
        assert(bucket@ =~= seq![pkg.name@[0]]);
    }
    let mut r = String::new();
    r.append(mirror.base_url.as_str());
    r.append("/Packages/");
    r.append(bucket);
    r.append("/");
    r.append(pkg.name.as_str());
    r.append(".fc");
    r.append(pkg.release_tag.as_str());
    r.append(".");
    r.append(pkg.package_arch.as_str());
    r.append(".rpm");
    proof {
        assert(r@ =~= package_url_chars(
            mirror.base_url@,
            pkg.name@,
            pkg.release_tag@,
            pkg.package_arch@,
        ));
    }
    r
}

/// Build the mirror-list URL for the release and architecture of `pkg`.
pub fn build_mirror_list_url(pkg: &PackageSpec) -> (r: String)
    ensures
        r@ == mirror_list_url_chars(pkg.release_tag@, pkg.arch@),
{
    let mut r = String::new();
    r.append("https://mirrors.fedoraproject.org/mirrorlist?repo=fedora-");
    r.append(pkg.release_tag.as_str());
    r.append("&arch=");
    r.append(pkg.arch.as_str());
    proof {
        assert(r@ =~= mirror_list_url_chars(pkg.release_tag@, pkg.arch@));
    }
    r
}

/// Building a package URL is deterministic and pure: two mirrors and two
/// package descriptions that agree, character for character, on every field
/// the construction reads yield the same URL.
pub proof fn lemma_package_url_deterministic(
    m1: Mirror,
    p1: PackageSpec,
    m2: Mirror,
    p2: PackageSpec,
)
    requires
        m1.base_url@ == m2.base_url@,
        p1.name@ == p2.name@,
        p1.release_tag@ == p2.release_tag@,
        p1.package_arch@ == p2.package_arch@,
    ensures
        package_url_chars(m1.base_url@, p1.name@, p1.release_tag@, p1.package_arch@)
            == package_url_chars(m2.base_url@, p2.name@, p2.release_tag@, p2.package_arch@),
{
}

} // verus!
