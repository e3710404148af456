//! Release versions, and the version information of this program.

use semver::{BuildMetadata, Prerelease};
use vstd::prelude::*;
use vstd::string::*;

verus! {

/// A semantic version: major, minor and patch numbers, with pre-release and build
/// identifiers (empty when absent).
#[derive(Debug)]
pub struct SemVer {
    pub major: u64,
    pub minor: u64,
    pub patch: u64,
    pub pre: String,
    pub build: String,
}

/// The model of a semantic version.
pub type SemVerModel = (u64, u64, u64, Seq<char>, Seq<char>);

impl SemVer {
    pub open spec fn view(&self) -> SemVerModel {
        (self.major, self.minor, self.patch, self.pre@, self.build@)
    }

    /// A release version without pre-release or build identifiers.
    pub fn new(major: u64, minor: u64, patch: u64) -> (r: Self)
        ensures
            r.view() == (major, minor, patch, Seq::<char>::empty(), Seq::<char>::empty()),
    {
        SemVer { major, minor, patch, pre: String::new(), build: String::new() }
    }

    /// A copy of this version.
    pub fn copy(&self) -> (r: Self)
        ensures
            r.view() == self.view(),
    {
        SemVer {
            major: self.major,
            minor: self.minor,
            patch: self.patch,
            pre: self.pre.clone(),
            build: self.build.clone(),
        }
    }

    /// Whether both versions hold the same numbers and identifiers.
    pub fn same(&self, other: &SemVer) -> (r: bool)
        ensures
            r == (self.view() == other.view()),
    {
        self.major == other.major && self.minor == other.minor && self.patch == other.patch
            && self.pre == other.pre && self.build == other.build
    }

    /// Whether this version has precedence over `other`, as semver orders versions.
    pub fn greater_than(&self, other: &SemVer) -> (r: bool)
        ensures
            r == precedes(self.view(), other.view()),
    {
        version_greater(self, other)
    }

    /// The text of the version: `major.minor.patch`, then `-pre` and `+build` where
    /// they are not empty.
    pub fn text(&self) -> (r: String)
        ensures
            r@ == version_text(self.view()),
    {
        let mut s = decimal_text(self.major);
        s.append(".");
        s.append(decimal_text(self.minor).as_str());
        s.append(".");
        s.append(decimal_text(self.patch).as_str());
        if self.pre.as_str().unicode_len() > 0 {
            s.append("-");
            s.append(self.pre.as_str());
        }
        if self.build.as_str().unicode_len() > 0 {
            s.append("+");
            s.append(self.build.as_str());
        }
        s
    }
}

/// A version without pre-release or build identifiers.
pub open spec fn plain(v: SemVerModel) -> bool {
    v.3.len() == 0 && v.4.len() == 0
}

/// Whether `a` has precedence over `b`: never for equal versions; by the numbers for
/// versions without identifiers; else as semver orders them.
pub open spec fn precedes(a: SemVerModel, b: SemVerModel) -> bool {
    if a == b {
        false
    } else if plain(a) && plain(b) {
        numbers_greater(a, b)
    } else {
        semver_greater(a, b)
    }
}

/// `a` comes after `b` in the order of major, then minor, then patch numbers.
pub open spec fn numbers_greater(a: SemVerModel, b: SemVerModel) -> bool {
    a.0 > b.0 || (a.0 == b.0 && (a.1 > b.1 || (a.1 == b.1 && a.2 > b.2)))
}

/// Whether semver gives `a` precedence over `b`.
pub uninterp spec fn semver_greater(a: SemVerModel, b: SemVerModel) -> bool;

/// Relies on semver's ordering of `Version` (derived: major, minor, patch, then
/// pre-release, where an empty one is greatest, then build), with identifiers that
/// `Prerelease::new` or `BuildMetadata::new` refuse taken as empty.
#[verifier::external_body]
fn version_greater(a: &SemVer, b: &SemVer) -> (r: bool)
    ensures
        r == semver_greater(a.view(), b.view()),
        plain(a.view()) && plain(b.view()) ==> (r == numbers_greater(a.view(), b.view())),
        a.view() == b.view() ==> !r,
{
    let x = semver::Version { major: a.major, minor: a.minor, patch: a.patch,
        pre: Prerelease::new(&a.pre).unwrap_or(Prerelease::EMPTY),
        build: BuildMetadata::new(&a.build).unwrap_or(BuildMetadata::EMPTY) };
    let y = semver::Version { major: b.major, minor: b.minor, patch: b.patch,
        pre: Prerelease::new(&b.pre).unwrap_or(Prerelease::EMPTY),
        build: BuildMetadata::new(&b.build).unwrap_or(BuildMetadata::EMPTY) };
    x > y
}

/// The decimal digit of `d`, for `d < 10`.
pub open spec fn digit(d: nat) -> char {
    seq!['0', '1', '2', '3', '4', '5', '6', '7', '8', '9'][d as int]
}

/// The decimal notation of `n`, without leading zeros.
pub open spec fn decimal(n: nat) -> Seq<char>
    decreases n,
{
    if n < 10 {
        seq![digit(n)]
    } else {
        decimal(n / 10) + seq![digit(n % 10)]
    }
}

/// What `SemVer::text` gives.
pub open spec fn version_text(v: SemVerModel) -> Seq<char> {
    decimal(v.0 as nat) + "."@ + decimal(v.1 as nat) + "."@ + decimal(v.2 as nat)
        + (if v.3.len() > 0 { "-"@ + v.3 } else { Seq::empty() })
        + (if v.4.len() > 0 { "+"@ + v.4 } else { Seq::empty() })
}

fn digit_str(d: u64) -> (r: &'static str)
    requires
        d < 10,
    ensures
        r@ == seq![digit(d as nat)],
{
    proof {
        reveal_strlit("0");
        reveal_strlit("1");
        reveal_strlit("2");
        reveal_strlit("3");
        reveal_strlit("4");
        reveal_strlit("5");
        reveal_strlit("6");
        reveal_strlit("7");
        reveal_strlit("8");
        reveal_strlit("9");
    }
    match d {
        0 => "0",
        1 => "1",
        2 => "2",
        3 => "3",
        4 => "4",
        5 => "5",
        6 => "6",
        7 => "7",
        8 => "8",
        _ => "9",
    }
}

/// The decimal notation of `n`.
pub fn decimal_text(n: u64) -> (r: String)
    ensures
        r@ == decimal(n as nat),
{
    let mut text = String::from_str(digit_str(n % 10));
    let mut rest: u64 = n / 10;
    while rest > 0
        invariant
            decimal(n as nat) == if rest == 0 { text@ } else { decimal(rest as nat) + text@ },
        decreases rest,
    {
        let ghost before = text@;
        text = String::from_str(digit_str(rest % 10)).concat(text.as_str());
        if rest >= 10 {
            assert(decimal(rest as nat) == decimal((rest / 10) as nat) + seq![digit((rest % 10) as nat)]);
            assert(decimal((rest / 10) as nat) + text@ =~= decimal(rest as nat) + before);
        } else {
            assert(decimal(rest as nat) == seq![digit(rest as nat)]);
            assert(text@ =~= decimal(rest as nat) + before);
        }
        rest = rest / 10;
    }
    text
}

/// The version information of this program.
pub struct Version {
    /// The name of the package.
    pub pkg_name: String,
    /// The version of the package.
    pub pkg_version: String,
    /// The value that `git describe` returned.
    pub git_describe: String,
    /// The version of the rust compiler.
    pub rustc_semver: String,
}

impl Version {
    /// `name version (git/describe) (rustc/semver)`.
    pub fn text(&self) -> (r: String)
        ensures
            r@ == self.pkg_name@ + " "@ + self.pkg_version@ + " (git/"@ + self.git_describe@ + ") (rustc/"@
                + self.rustc_semver@ + ")"@,
    {
        let mut s = self.pkg_name.clone();
        s.append(" ");
        s.append(self.pkg_version.as_str());
        s.append(" (git/");
        s.append(self.git_describe.as_str());
        s.append(") (rustc/");
        s.append(self.rustc_semver.as_str());
        s.append(")");
        s
    }
}

} // verus!
