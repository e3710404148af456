//! The query for the latest release of a vendor, and its answer.

use crate::text::{lower_of, lowercase, trim, trimmed};
use crate::installation::RemoteModel;
use crate::json::Json;
use crate::version::{SemVer, SemVerModel};
use vstd::prelude::*;
use vstd::string::*;

verus! {

/// The parameters of a query; blank ones take defaults.
#[derive(Debug)]
pub struct MetadataRequest {
    pub arch: String,
    pub os: String,
    pub package_type: String,
    pub version: String,
}

/// The release that a vendor offers: version, download location and checksum.
#[derive(Debug)]
pub struct RemotePackage {
    pub checksum: String,
    pub url: String,
    pub version: SemVer,
}

/// Why an answer of the vendor cannot be used.
#[derive(Debug)]
pub enum QueryError {
    /// The answer is not a list of candidates.
    NotList,
    /// It holds this many candidates where one was expected.
    Ambiguous(usize),
    /// A field that the release needs is absent or of another kind.
    Missing(&'static str),
}

/// The model of a query error.
pub enum QueryFailure {
    NotList,
    Ambiguous(nat),
    Missing(Seq<char>),
}

impl QueryError {
    pub open spec fn view(&self) -> QueryFailure {
        match self {
            QueryError::NotList => QueryFailure::NotList,
            QueryError::Ambiguous(n) => QueryFailure::Ambiguous(*n as nat),
            QueryError::Missing(f) => QueryFailure::Missing(f@),
        }
    }
}

/// `default` for a blank value, else the value trimmed and in lower case.
pub open spec fn or_default(value: Seq<char>, default: Seq<char>) -> Seq<char> {
    if trimmed(value).len() == 0 {
        default
    } else {
        lower_of(trimmed(value))
    }
}

/// The package type that a trimmed, lowercase name selects: `jdk` or `jre`, and `jdk`
/// for any other name.
pub open spec fn chosen_type(t: Seq<char>) -> Seq<char> {
    if t == "jdk"@ || t == "jre"@ {
        t
    } else {
        "jdk"@
    }
}

/// The package type: `jdk` or `jre`, and `jdk` for a blank or unknown value.
pub open spec fn package_type_of(value: Seq<char>) -> Seq<char> {
    chosen_type(or_default(value, "jdk"@))
}

/// The package type that the trimmed, lowercase name `t` selects.
pub fn choose_package_type(t: &str) -> (r: String)
    ensures
        r@ == chosen_type(t@),
{
    if crate::text::same_text(t, "jdk") || crate::text::same_text(t, "jre") {
        String::from_str(t)
    } else {
        String::from_str("jdk")
    }
}

fn normalized(value: &str, default: &str) -> (r: String)
    ensures
        r@ == or_default(value@, default@),
{
    let t = trim(value);
    if t.unicode_len() == 0 {
        String::from_str(default)
    } else {
        lowercase(t)
    }
}

impl MetadataRequest {
    /// The requested architecture; `host_arch` when blank.
    pub fn arch(&self, host_arch: &str) -> (r: String)
        ensures
            r@ == or_default(self.arch@, host_arch@),
    {
        normalized(self.arch.as_str(), host_arch)
    }

    /// The requested operating system; `host_os` when blank.
    pub fn os(&self, host_os: &str) -> (r: String)
        ensures
            r@ == or_default(self.os@, host_os@),
    {
        normalized(self.os.as_str(), host_os)
    }

    /// The requested package type.
    pub fn package_type(&self) -> (r: String)
        ensures
            r@ == package_type_of(self.package_type@),
    {
        let t = normalized(self.package_type.as_str(), "jdk");
        choose_package_type(t.as_str())
    }

    /// The requested major version; `17` when blank.
    pub fn version(&self) -> (r: String)
        ensures
            r@ == or_default(self.version@, "17"@),
    {
        normalized(self.version.as_str(), "17")
    }
}

/// Which of `count` candidates of an answer is the release: the only one. Any other
/// count is ambiguous (an answer may list packages of other architectures too), for
/// every vendor.
pub fn candidate_index(count: usize) -> (r: Result<usize, QueryError>)
    ensures
        match r {
            Ok(i) => i == 0 && count == 1,
            Err(e) => e == QueryError::Ambiguous(count) && count != 1,
        },
{
    if count == 1 {
        Ok(0)
    } else {
        Err(QueryError::Ambiguous(count))
    }
}

/// The candidate that an answer offers: its only element.
pub open spec fn pick_spec(answer: Json) -> Result<Json, QueryFailure> {
    match answer {
        Json::Array(v) => if v@.len() == 1 {
            Ok(v@[0])
        } else {
            Err(QueryFailure::Ambiguous(v@.len()))
        },
        _ => Err(QueryFailure::NotList),
    }
}

pub open spec fn text_field(j: Json, name: Seq<char>) -> Result<Seq<char>, QueryFailure> {
    match j.text_spec() {
        Some(t) => Ok(t),
        None => Err(QueryFailure::Missing(name)),
    }
}

pub open spec fn uint_field(j: Json, name: Seq<char>) -> Result<u64, QueryFailure> {
    match j.uint_spec() {
        Some(n) => Ok(n),
        None => Err(QueryFailure::Missing(name)),
    }
}

/// The release in Eclipse's answer: the only candidate's `binary.package.link` and
/// `binary.package.checksum`, and its version object's `major`, `minor`, `security`;
/// the first field that is absent is the error.
pub open spec fn eclipse_release_spec(answer: Json) -> Result<RemoteModel, QueryFailure> {
    match pick_spec(answer) {
        Err(e) => Err(e),
        Ok(c) => {
            let package = c.member_spec("binary"@).member_spec("package"@);
            let v = c.member_spec("version"@);
            match (text_field(package.member_spec("link"@), "link"@), text_field(package.member_spec("checksum"@), "checksum"@)) {
                (Err(e), _) => Err(e),
                (Ok(_), Err(e)) => Err(e),
                (Ok(url), Ok(sum)) => if !(v is Object) {
                    Err(QueryFailure::Missing("version"@))
                } else {
                    match (uint_field(v.member_spec("major"@), "major"@), uint_field(v.member_spec("minor"@), "minor"@),
                        uint_field(v.member_spec("security"@), "security"@)) {
                        (Err(e), _, _) => Err(e),
                        (Ok(_), Err(e), _) => Err(e),
                        (Ok(_), Ok(_), Err(e)) => Err(e),
                        (Ok(a), Ok(b), Ok(p)) => Ok((sum, url, (a, b, p, Seq::empty(), Seq::empty()))),
                    }
                },
            }
        },
    }
}

/// A query result agrees with a modelled one.
pub open spec fn result_matches<T, M>(r: Result<T, QueryError>, m: Result<M, QueryFailure>, view: spec_fn(T) -> M) -> bool {
    match (r, m) {
        (Ok(x), Ok(y)) => view(x) == y,
        (Err(e), Err(f)) => e.view() == f,
        _ => false,
    }
}

fn pick<'a>(answer: &'a Json) -> (r: Result<&'a Json, QueryError>)
    ensures
        result_matches(r, pick_spec(*answer), |j: &Json| *j),
{
    match answer {
        Json::Array(v) => match candidate_index(v.len()) {
            Ok(i) => Ok(&v[i]),
            Err(e) => Err(e),
        },
        _ => Err(QueryError::NotList),
    }
}

fn text_of(j: &Json, name: &'static str) -> (r: Result<String, QueryError>)
    ensures
        result_matches(r, text_field(*j, name@), |s: String| s@),
{
    match j.text() {
        Some(t) => Ok(t),
        None => Err(QueryError::Missing(name)),
    }
}

fn uint_of(j: &Json, name: &'static str) -> (r: Result<u64, QueryError>)
    ensures
        result_matches(r, uint_field(*j, name@), |n: u64| n),
{
    match j.uint() {
        Some(n) => Ok(n),
        None => Err(QueryError::Missing(name)),
    }
}

/// The release in Eclipse's answer.
pub fn eclipse_release(answer: &Json) -> (r: Result<RemotePackage, QueryError>)
    ensures
        result_matches(r, eclipse_release_spec(*answer), |p: RemotePackage| p.view()),
{
    let c = match pick(answer) {
        Ok(c) => c,
        Err(e) => return Err(e),
    };
    let package = c.member("binary").member("package");
    let url = match text_of(package.member("link"), "link") {
        Ok(u) => u,
        Err(e) => return Err(e),
    };
    let checksum = match text_of(package.member("checksum"), "checksum") {
        Ok(s) => s,
        Err(e) => return Err(e),
    };
    let v = c.member("version");
    if !matches!(v, Json::Object(_)) {
        return Err(QueryError::Missing("version"));
    }
    let major = match uint_of(v.member("major"), "major") {
        Ok(n) => n,
        Err(e) => return Err(e),
    };
    let minor = match uint_of(v.member("minor"), "minor") {
        Ok(n) => n,
        Err(e) => return Err(e),
    };
    let security = match uint_of(v.member("security"), "security") {
        Ok(n) => n,
        Err(e) => return Err(e),
    };
    Ok(RemotePackage { checksum, url, version: SemVer::new(major, minor, security) })
}

/// The candidate in Azul's answer: download location, version, and the id under which
/// its checksum is found.
#[derive(Debug)]
pub struct AzulCandidate {
    pub url: String,
    pub version: SemVer,
    pub uuid: String,
}

/// The candidate in Azul's answer: the only candidate's `download_url`, its `java_version` list
/// of major, minor and patch, and its `package_uuid`; the first field that is absent is
/// the error.
pub open spec fn azul_candidate_spec(answer: Json) -> Result<(Seq<char>, SemVerModel, Seq<char>), QueryFailure> {
    match pick_spec(answer) {
        Err(e) => Err(e),
        Ok(c) => {
            let v = c.member_spec("java_version"@);
            match text_field(c.member_spec("download_url"@), "download_url"@) {
                Err(e) => Err(e),
                Ok(url) => if !(v is Array) {
                    Err(QueryFailure::Missing("java_version"@))
                } else {
                    match (uint_field(v.element_spec(0), "major"@), uint_field(v.element_spec(1), "minor"@),
                        uint_field(v.element_spec(2), "patch"@), text_field(c.member_spec("package_uuid"@), "package_uuid"@)) {
                        (Err(e), _, _, _) => Err(e),
                        (Ok(_), Err(e), _, _) => Err(e),
                        (Ok(_), Ok(_), Err(e), _) => Err(e),
                        (Ok(_), Ok(_), Ok(_), Err(e)) => Err(e),
                        (Ok(a), Ok(b), Ok(p), Ok(id)) => Ok((url, (a, b, p, Seq::empty(), Seq::empty()), id)),
                    }
                },
            }
        },
    }
}

/// The candidate in Azul's answer.
pub fn azul_candidate(answer: &Json) -> (r: Result<AzulCandidate, QueryError>)
    ensures
        result_matches(r, azul_candidate_spec(*answer), |c: AzulCandidate| (c.url@, c.version.view(), c.uuid@)),
{
    let c = match pick(answer) {
        Ok(c) => c,
        Err(e) => return Err(e),
    };
    let url = match text_of(c.member("download_url"), "download_url") {
        Ok(u) => u,
        Err(e) => return Err(e),
    };
    let v = c.member("java_version");
    if !matches!(v, Json::Array(_)) {
        return Err(QueryError::Missing("java_version"));
    }
    let major = match uint_of(v.element(0), "major") {
        Ok(n) => n,
        Err(e) => return Err(e),
    };
    let minor = match uint_of(v.element(1), "minor") {
        Ok(n) => n,
        Err(e) => return Err(e),
    };
    let patch = match uint_of(v.element(2), "patch") {
        Ok(n) => n,
        Err(e) => return Err(e),
    };
    let uuid = match text_of(c.member("package_uuid"), "package_uuid") {
        Ok(u) => u,
        Err(e) => return Err(e),
    };
    Ok(AzulCandidate { url, version: SemVer::new(major, minor, patch), uuid })
}

impl AzulCandidate {
    /// The release, with the checksum from the candidate's details (`sha256_hash`).
    pub fn release(self, details: &Json) -> (r: Result<RemotePackage, QueryError>)
        ensures
            result_matches(r, text_field(details.member_spec("sha256_hash"@), "sha256_hash"@),
                |p: RemotePackage| p.checksum@),
            r is Ok ==> r->Ok_0.url@ == self.url@ && r->Ok_0.version.view() == self.version.view(),
    {
        match text_of(details.member("sha256_hash"), "sha256_hash") {
            Ok(checksum) => Ok(RemotePackage { checksum, url: self.url, version: self.version }),
            Err(e) => Err(e),
        }
    }
}

} // verus!
