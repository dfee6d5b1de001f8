//! Whether a newer release of the program is out, and where to download it.
use vstd::prelude::*;

verus! {

#[verifier::external_type_specification]
#[verifier::external_body]
pub struct ExVersion(semver::Version);

/// Whether `semver::Version::parse` accepts a text.
pub uninterp spec fn version_valid(s: Seq<char>) -> bool;

/// Whether the version that `semver::Version::parse` reads from `a` comes
/// after the one it reads from `b`, in semver's order of versions.
pub uninterp spec fn version_newer(a: Seq<char>, b: Seq<char>) -> bool;

/// A version, kept with the text it was read from.
pub struct SemVer {
    text: String,
    version: semver::Version,
}

impl SemVer {
    /// The text the version was read from.
    pub closed spec fn text(&self) -> Seq<char> {
        self.text@
    }
}

/// `semver::Version::parse`: `Some` exactly when the text is a version,
/// kept with its text.
#[verifier::external_body]
fn parse_version(s: &str) -> (r: Option<SemVer>)
    ensures
        r is Some <==> version_valid(s@),
        r matches Some(v) ==> v.text() == s@,
{
    match semver::Version::parse(s) {
        Ok(version) => Some(SemVer { text: s.to_string(), version }),
        Err(_) => None,
    }
}

/// `>` on `semver::Version` (its derived order: major, minor, patch,
/// pre-release, build): whether the first version comes after the second.
#[verifier::external_body]
fn is_newer(a: &SemVer, b: &SemVer) -> (r: bool)
    ensures
        r == version_newer(a.text(), b.text()),
{
    a.version > b.version
}

/// The latest release that has a download for this machine: its version,
/// and the address of the download when there is one.
#[derive(Debug)]
pub struct Release {
    pub version: String,
    pub asset_url: Option<String>,
}

/// What the release check found: nothing newer, or a newer release ready to
/// download from an address.
#[derive(Debug, PartialEq, Eq)]
pub enum ReleaseCheck {
    UpToDate,
    Ready(String),
}

/// Decides whether to offer an update: a release whose version comes after
/// this program's and that has a download is ready; anything else is up to
/// date. `None` when a version is not a semantic version.
pub fn check_release(latest: Option<Release>, this_version: &str) -> (r: Option<ReleaseCheck>)
    ensures
        match latest {
            None => r == Some(ReleaseCheck::UpToDate),
            Some(rel) => if version_valid(rel.version@) && version_valid(this_version@) {
                if version_newer(rel.version@, this_version@) {
                    match rel.asset_url {
                        Some(url) => r == Some(ReleaseCheck::Ready(url)),
                        None => r == Some(ReleaseCheck::UpToDate),
                    }
                } else {
                    r == Some(ReleaseCheck::UpToDate)
                }
            } else {
                r is None
            },
        },
{
    match latest {
        None => Some(ReleaseCheck::UpToDate),
        Some(rel) => {
            let latest_version = match parse_version(rel.version.as_str()) {
                Some(v) => v,
                None => return None,
            };
            let this = match parse_version(this_version) {
                Some(v) => v,
                None => return None,
            };
            if is_newer(&latest_version, &this) {
                match rel.asset_url {
                    Some(url) => Some(ReleaseCheck::Ready(url)),
                    None => Some(ReleaseCheck::UpToDate),
                }
            } else {
                Some(ReleaseCheck::UpToDate)
            }
        },
    }
}

} // verus!
