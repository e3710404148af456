use java_updater::json::Json;
use java_updater::request::{azul_candidate, eclipse_release, QueryError};

fn obj(members: Vec<(&str, Json)>) -> Json {
    Json::Object(members.into_iter().map(|(k, v)| (k.to_string(), v)).collect())
}

fn text(s: &str) -> Json {
    Json::Str(s.to_string())
}

fn eclipse_candidate(security: Json) -> Json {
    obj(vec![
        ("binary", obj(vec![("package", obj(vec![("link", text("https://x/jdk.tar.gz")), ("checksum", text("abcd"))]))])),
        ("version", obj(vec![("major", Json::Uint(17)), ("minor", Json::Uint(0)), ("security", security)])),
    ])
}

#[test]
fn eclipse_answer_gives_release() {
    let answer = Json::Array(vec![eclipse_candidate(Json::Uint(12))]);
    let release = eclipse_release(&answer).unwrap();
    assert_eq!(release.url, "https://x/jdk.tar.gz");
    assert_eq!(release.checksum, "abcd");
    assert_eq!(release.version.text(), "17.0.12");
}

#[test]
fn eclipse_answer_must_be_unambiguous() {
    let answer = Json::Array(vec![eclipse_candidate(Json::Uint(12)), eclipse_candidate(Json::Uint(11))]);
    assert!(matches!(eclipse_release(&answer), Err(QueryError::Ambiguous(2))));
    assert!(matches!(eclipse_release(&obj(vec![])), Err(QueryError::NotList)));
}

#[test]
fn eclipse_answer_names_missing_field() {
    let answer = Json::Array(vec![eclipse_candidate(Json::OtherNumber)]);
    assert!(matches!(eclipse_release(&answer), Err(QueryError::Missing("security"))));
}

#[test]
fn azul_answer_gives_release() {
    let candidate = obj(vec![
        ("download_url", text("https://y/zulu.tar.gz")),
        ("java_version", Json::Array(vec![Json::Uint(21), Json::Uint(0), Json::Uint(4)])),
        ("package_uuid", text("uuid-1")),
    ]);
    let answer = Json::Array(vec![candidate]);
    let c = azul_candidate(&answer).unwrap();
    assert_eq!(c.uuid, "uuid-1");
    let release = c.release(&obj(vec![("sha256_hash", text("ffee"))])).unwrap();
    assert_eq!(release.url, "https://y/zulu.tar.gz");
    assert_eq!(release.checksum, "ffee");
    assert_eq!(release.version.text(), "21.0.4");
}

#[test]
fn azul_answer_with_short_version_fails() {
    let candidate = obj(vec![
        ("download_url", text("https://y/zulu.tar.gz")),
        ("java_version", Json::Array(vec![Json::Uint(21)])),
        ("package_uuid", text("uuid-1")),
    ]);
    assert!(matches!(azul_candidate(&Json::Array(vec![candidate])), Err(QueryError::Missing("minor"))));
    assert!(matches!(azul_candidate(&Json::Array(vec![])), Err(QueryError::Ambiguous(0))));
}

#[test]
fn azul_answer_with_two_candidates_is_ambiguous() {
    let candidate = |arch: &str| {
        obj(vec![
            ("download_url", text(&format!("https://y/zulu-{arch}.tar.gz"))),
            ("java_version", Json::Array(vec![Json::Uint(21), Json::Uint(0), Json::Uint(4)])),
            ("package_uuid", text(arch)),
        ])
    };
    let answer = Json::Array(vec![candidate("x86"), candidate("x64")]);
    assert!(matches!(azul_candidate(&answer), Err(QueryError::Ambiguous(2))));
}
