use session_store::reader::{ReadError, Reader};
use session_store::session::{Meta, Session, SessionError, SessionFault, SessionReads};

/// A reader over an in-memory list of path/content pairs, standing in for
/// the live-directory backend: a logical path exists when it is a stored
/// file or a prefix directory of one, and reading anything else fails.
struct MapReader {
    entries: Vec<(String, String)>,
}

impl MapReader {
    fn new(entries: &[(&str, &str)]) -> MapReader {
        MapReader {
            entries: entries
                .iter()
                .map(|(k, v)| (k.to_string(), v.to_string()))
                .collect(),
        }
    }
}

impl Reader for MapReader {
    fn path_exists(&self, path: &str) -> bool {
        let prefix = format!("{}/", path);
        self.entries
            .iter()
            .any(|(k, _)| k == path || k.starts_with(&prefix))
    }

    fn read_to_string(&self, path: &str) -> Result<String, ReadError> {
        for (k, v) in &self.entries {
            if k == path {
                return Ok(v.clone());
            }
        }
        Err(ReadError)
    }
}

fn full_layout() -> MapReader {
    MapReader::new(&[
        ("session/meta/id", "abc123"),
        ("session/meta/start", "1000"),
        ("session/meta/last", "2000"),
        ("session/meta/branch", "main"),
        ("session/meta/commit", "fedcba"),
    ])
}

#[test]
fn missing_session_subtree_is_no_session() {
    let reader = MapReader::new(&[("other/file", "x")]);
    let r = Session::try_from_reader(&reader);
    assert!(matches!(r, Err(SessionError::NoSession)));
}

#[test]
fn empty_store_is_no_session() {
    let reader = MapReader::new(&[]);
    let r = Session::try_from_reader(&reader);
    assert!(matches!(r, Err(SessionError::NoSession)));
}

#[test]
fn complete_metadata_matches_source_exactly() {
    let session = Session::try_from_reader(&full_layout()).unwrap();
    assert_eq!(
        session,
        Session {
            id: "abc123".to_string(),
            hash: None,
            meta: Meta {
                start_timestamp_ms: 1000,
                last_timestamp_ms: 2000,
                branch: Some("main".to_string()),
                commit: Some("fedcba".to_string()),
            },
        }
    );
}

#[test]
fn absent_optional_fields_become_none() {
    let reader = MapReader::new(&[
        ("session/meta/id", "abc123"),
        ("session/meta/start", "1000"),
        ("session/meta/last", "2000"),
    ]);
    let session = Session::try_from_reader(&reader).unwrap();
    assert_eq!(session.meta.branch, None);
    assert_eq!(session.meta.commit, None);
    assert_eq!(session.id, "abc123");
    assert_eq!(session.hash, None);
}

#[test]
fn end_to_end_live_directory_example() {
    let reader = MapReader::new(&[
        ("session/meta/id", "abc123"),
        ("session/meta/start", "1000"),
        ("session/meta/last", "2000"),
    ]);
    let session = Session::try_from_reader(&reader).unwrap();
    assert_eq!(
        session,
        Session {
            id: "abc123".to_string(),
            hash: None,
            meta: Meta {
                start_timestamp_ms: 1000,
                last_timestamp_ms: 2000,
                branch: None,
                commit: None,
            },
        }
    );
}

#[test]
fn missing_id_is_corrupt_not_no_session() {
    let reader = MapReader::new(&[
        ("session/meta/start", "1000"),
        ("session/meta/last", "2000"),
    ]);
    let r = Session::try_from_reader(&reader);
    assert_eq!(r, Err(SessionError::Corrupt(SessionFault::ReadId)));
}

#[test]
fn missing_start_is_corrupt() {
    let reader = MapReader::new(&[
        ("session/meta/id", "abc123"),
        ("session/meta/last", "2000"),
    ]);
    let r = Session::try_from_reader(&reader);
    assert_eq!(r, Err(SessionError::Corrupt(SessionFault::ReadStart)));
}

#[test]
fn missing_last_is_corrupt() {
    let reader = MapReader::new(&[
        ("session/meta/id", "abc123"),
        ("session/meta/start", "1000"),
    ]);
    let r = Session::try_from_reader(&reader);
    assert_eq!(r, Err(SessionError::Corrupt(SessionFault::ReadLast)));
}

#[test]
fn non_numeric_start_is_a_parse_fault() {
    let reader = MapReader::new(&[
        ("session/meta/id", "abc123"),
        ("session/meta/start", "not-a-number"),
        ("session/meta/last", "2000"),
    ]);
    let r = Session::try_from_reader(&reader);
    assert_eq!(r, Err(SessionError::Corrupt(SessionFault::ParseStart)));
}

#[test]
fn non_numeric_last_is_a_parse_fault() {
    let reader = MapReader::new(&[
        ("session/meta/id", "abc123"),
        ("session/meta/start", "1000"),
        ("session/meta/last", "soon"),
    ]);
    let r = Session::try_from_reader(&reader);
    assert_eq!(r, Err(SessionError::Corrupt(SessionFault::ParseLast)));
}

#[test]
fn from_reads_rebuilds_the_same_session_twice() {
    let reads = || SessionReads {
        session_exists: true,
        id: Ok("abc123".to_string()),
        start: Ok("1000".to_string()),
        last: Ok("2000".to_string()),
        branch: Err(ReadError),
        commit: Err(ReadError),
    };
    let first = Session::from_reads(reads(), Some("deadbeef".to_string()));
    let second = Session::from_reads(reads(), Some("deadbeef".to_string()));
    assert_eq!(first, second);
}

#[test]
fn hash_comes_from_the_caller_not_the_metadata() {
    let reads = SessionReads {
        session_exists: true,
        id: Ok("abc123".to_string()),
        start: Ok("1000".to_string()),
        last: Ok("2000".to_string()),
        branch: Ok("main".to_string()),
        commit: Ok("0123abcd".to_string()),
    };
    let session = Session::from_reads(reads, Some("deadbeef".to_string())).unwrap();
    assert_eq!(session.hash, Some("deadbeef".to_string()));
    assert_eq!(session.meta.commit, Some("0123abcd".to_string()));
}

#[test]
fn error_messages_name_the_failed_step() {
    assert_eq!(SessionError::NoSession.message(), "session does not exist");
    assert_eq!(
        SessionError::Corrupt(SessionFault::ReadId).message(),
        "failed to read session id"
    );
    assert_eq!(
        SessionError::Corrupt(SessionFault::ParseStart).message(),
        "failed to parse session start timestamp"
    );
    assert_eq!(
        SessionError::Corrupt(SessionFault::ReadLast).message(),
        "failed to read session last timestamp"
    );
}
