//! The semantic version of the binding package and the comparison that the
//! generated `CHECK_VERSION` macro performs.

use vstd::prelude::*;

verus! {

/// The three numbers of a semantic version.
#[derive(Debug, Clone, Copy, PartialEq, Eq, Structural)]
pub struct Version {
    pub major: u64,
    pub minor: u64,
    pub micro: u64,
}

/// The major, minor and patch numbers that `semver::Version::parse` reads
/// from a text, or `None` where it refuses the text.
pub uninterp spec fn semver_numbers(text: Seq<char>) -> Option<(u64, u64, u64)>;

/// Calls `semver::Version::parse` and keeps the three numbers of the version
/// it returns; its error is dropped.
///
/// The contract only gives the outcome its name: the same text always parses
/// to the same numbers or is always refused.
#[verifier::external_body]
fn parse_semver(text: &str) -> (r: Option<(u64, u64, u64)>)
    ensures
        r == semver_numbers(text@),
{
    match semver::Version::parse(text) {
        Ok(v) => Some((v.major, v.minor, v.patch)),
        Err(_) => None,
    }
}

/// The version that three parsed numbers stand for.
pub open spec fn version_of(numbers: Option<(u64, u64, u64)>) -> Option<Version> {
    match numbers {
        Some((major, minor, micro)) => Some(Version { major, minor, micro }),
        None => None,
    }
}

/// The condition that the generated `CHECK_VERSION(major, minor, micro)`
/// macro evaluates for the embedded version `v`.
pub open spec fn check_version(v: Version, major: int, minor: int, micro: int) -> bool {
    v.major > major || (v.major == major && v.minor > minor) || (v.major == major && v.minor
        == minor && v.micro >= micro)
}

/// Whether the triple `a` comes at or after the triple `b` in lexicographic
/// order: they are equal, or `a` is greater at the first place where they differ.
pub open spec fn lex_ge(a: (int, int, int), b: (int, int, int)) -> bool {
    if a.0 != b.0 {
        a.0 > b.0
    } else if a.1 != b.1 {
        a.1 > b.1
    } else {
        a.2 >= b.2
    }
}

impl Version {
    /// The version as a triple of integers, most significant first.
    pub open spec fn triple(self) -> (int, int, int) {
        (self.major as int, self.minor as int, self.micro as int)
    }

    /// Builds a version from parsed numbers, where there are any.
    pub fn from_numbers(numbers: Option<(u64, u64, u64)>) -> (r: Option<Version>)
        ensures
            r == version_of(numbers),
    {
        match numbers {
            Some((major, minor, micro)) => Some(Version { major, minor, micro }),
            None => None,
        }
    }

    /// Parses a semantic version and keeps its major, minor and patch numbers.
    pub fn parse(text: &str) -> (r: Option<Version>)
        ensures
            r == version_of(semver_numbers(text@)),
    {
        Version::from_numbers(parse_semver(text))
    }

    /// Evaluates what `CHECK_VERSION(major, minor, micro)` evaluates in a
    /// header generated for this version.
    pub fn check_version(&self, major: u64, minor: u64, micro: u64) -> (r: bool)
        ensures
            r == check_version(*self, major as int, minor as int, micro as int),
    {
        self.major > major || (self.major == major && self.minor > minor) || (self.major == major
            && self.minor == minor && self.micro >= micro)
    }
}

/// `CHECK_VERSION` holds exactly when the embedded version comes at or after
/// the three arguments in lexicographic order.
pub proof fn lemma_check_version_is_lexicographic(v: Version, major: int, minor: int, micro: int)
    ensures
        check_version(v, major, minor, micro) <==> lex_ge(v.triple(), (major, minor, micro)),
{
}

} // verus!
