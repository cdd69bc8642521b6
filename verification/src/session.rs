//! The session model and its reconstruction from a reader.
//!
//! A session is rebuilt on demand from five fixed entries under the
//! `session` subtree of a backing store. Required fields (`id`, `start`,
//! `last`) fail reconstruction hard when absent or malformed; optional
//! fields (`branch`, `commit`) collapse to `None` on any failure. Absence of
//! the whole `session` subtree is a distinguished, recoverable outcome.

use vstd::prelude::*;

verus! {

use crate::parse::parse_u128;
use crate::parse::spec_parse_u128;
use crate::reader::ReadError;
use crate::reader::Reader;

/// Descriptive metadata attached to a session.
#[derive(Debug, Clone, PartialEq)]
#[verifier::ext_equal]
pub struct Meta {
    /// Milliseconds since the epoch at which the session was created.
    pub start_timestamp_ms: u128,
    /// Milliseconds since the epoch of the most recent activity.
    pub last_timestamp_ms: u128,
    /// Name of the version-control branch active during the session, where
    /// one was recorded.
    pub branch: Option<String>,
    /// Identifier of a commit associated with the session's work, distinct
    /// from the commit that stores the session snapshot itself.
    pub commit: Option<String>,
}

/// One tracked unit of working-directory activity, either live or read back
/// from a historical commit.
#[derive(Debug, Clone, PartialEq)]
#[verifier::ext_equal]
pub struct Session {
    /// Opaque stable identifier, unique within a project.
    pub id: String,
    /// Identifier of the commit that persisted this session; `None` means
    /// the session is live, not yet persisted.
    pub hash: Option<String>,
    /// The session's metadata.
    pub meta: Meta,
}

/// The reconstruction step that failed on a required field.
#[derive(Debug, Clone, Copy, PartialEq, Eq)]
pub enum SessionFault {
    /// `session/meta/id` was absent or unreadable.
    ReadId,
    /// `session/meta/start` was absent or unreadable.
    ReadStart,
    /// `session/meta/start` did not parse as a base-10 unsigned integer.
    ParseStart,
    /// `session/meta/last` was absent or unreadable.
    ReadLast,
    /// `session/meta/last` did not parse as a base-10 unsigned integer.
    ParseLast,
}

/// Why a session could not be reconstructed. `NoSession` is the expected
/// absence of anything recorded, which callers treat as "skip"; `Corrupt`
/// covers every other failure and says which step failed.
#[derive(Debug, Clone, Copy, PartialEq, Eq)]
pub enum SessionError {
    /// Nothing is recorded: the backing store has no `session` subtree.
    NoSession,
    /// The store has a session, but a required field was absent, unreadable,
    /// or malformed.
    Corrupt(SessionFault),
}

impl SessionError {
    /// A human-readable description of the failure, naming the field and
    /// step that failed.
    pub fn message(&self) -> (r: &'static str)
        ensures
            *self == SessionError::NoSession ==> r@ == "session does not exist"@,
            *self == SessionError::Corrupt(SessionFault::ReadId) ==> r@
                == "failed to read session id"@,
            *self == SessionError::Corrupt(SessionFault::ReadStart) ==> r@
                == "failed to read session start timestamp"@,
            *self == SessionError::Corrupt(SessionFault::ParseStart) ==> r@
                == "failed to parse session start timestamp"@,
            *self == SessionError::Corrupt(SessionFault::ReadLast) ==> r@
                == "failed to read session last timestamp"@,
            *self == SessionError::Corrupt(SessionFault::ParseLast) ==> r@
                == "failed to parse session last timestamp"@,
    {
        match self {
            SessionError::NoSession => "session does not exist",
            SessionError::Corrupt(SessionFault::ReadId) => "failed to read session id",
            SessionError::Corrupt(SessionFault::ReadStart) => "failed to read session start timestamp",
            SessionError::Corrupt(SessionFault::ParseStart) => "failed to parse session start timestamp",
            SessionError::Corrupt(SessionFault::ReadLast) => "failed to read session last timestamp",
            SessionError::Corrupt(SessionFault::ParseLast) => "failed to parse session last timestamp",
        }
    }
}

/// The outcome of the six fixed probes reconstruction makes against a
/// backing store: the presence check on the `session` subtree, and the
/// content of each `session/meta` entry. An `Err` records that the entry was
/// absent or unreadable; the backends deliberately do not distinguish the
/// two causes.
#[derive(Debug)]
pub struct SessionReads {
    /// Whether anything is present at the `session` path.
    pub session_exists: bool,
    /// Content of `session/meta/id`.
    pub id: Result<String, ReadError>,
    /// Content of `session/meta/start`.
    pub start: Result<String, ReadError>,
    /// Content of `session/meta/last`.
    pub last: Result<String, ReadError>,
    /// Content of `session/meta/branch`.
    pub branch: Result<String, ReadError>,
    /// Content of `session/meta/commit`.
    pub commit: Result<String, ReadError>,
}

/// The outcome reconstruction owes on `reads`: the distinguished `NoSession`
/// where nothing is recorded, a `Corrupt` fault naming the first required
/// field that is absent or malformed, and success otherwise.
pub open spec fn expected_outcome(reads: SessionReads) -> Result<(), SessionError> {
    if !reads.session_exists {
        Err(SessionError::NoSession)
    } else if reads.id is Err {
        Err(SessionError::Corrupt(SessionFault::ReadId))
    } else if reads.start is Err {
        Err(SessionError::Corrupt(SessionFault::ReadStart))
    } else if spec_parse_u128(reads.start->Ok_0@) is None {
        Err(SessionError::Corrupt(SessionFault::ParseStart))
    } else if reads.last is Err {
        Err(SessionError::Corrupt(SessionFault::ReadLast))
    } else if spec_parse_u128(reads.last->Ok_0@) is None {
        Err(SessionError::Corrupt(SessionFault::ParseLast))
    } else {
        Ok(())
    }
}

/// The full relation between the outcome of the reads, the storage-commit
/// identifier supplied by the backend (`None` for the live directory), and
/// the result of reconstruction: errors come exactly as `expected_outcome`
/// owes them, and a successful session carries the id verbatim, the parsed
/// timestamps, the optional fields collapsed to `None` on failure, and the
/// supplied hash.
pub open spec fn reconstruct_rel(
    reads: SessionReads,
    hash: Option<String>,
    r: Result<Session, SessionError>,
) -> bool {
    &&& (r is Err <==> expected_outcome(reads) is Err)
    &&& (r is Err ==> r->Err_0 == expected_outcome(reads)->Err_0)
    &&& (r is Ok ==> {
        &&& r->Ok_0.id == reads.id->Ok_0
        &&& r->Ok_0.hash == hash
        &&& r->Ok_0.meta.start_timestamp_ms == spec_parse_u128(reads.start->Ok_0@)->Some_0
        &&& r->Ok_0.meta.last_timestamp_ms == spec_parse_u128(reads.last->Ok_0@)->Some_0
        &&& r->Ok_0.meta.branch == (if reads.branch is Ok {
            Some(reads.branch->Ok_0)
        } else {
            None::<String>
        })
        &&& r->Ok_0.meta.commit == (if reads.commit is Ok {
            Some(reads.commit->Ok_0)
        } else {
            None::<String>
        })
    })
}

/// Performs the six probes of the session path schema against a reader, in
/// the fixed layout every backend must honor.
pub(crate) fn gather_reads<R: Reader>(reader: &R) -> SessionReads {
    SessionReads {
        session_exists: reader.path_exists("session"),
        id: reader.read_to_string("session/meta/id"),
        start: reader.read_to_string("session/meta/start"),
        last: reader.read_to_string("session/meta/last"),
        branch: reader.read_to_string("session/meta/branch"),
        commit: reader.read_to_string("session/meta/commit"),
    }
}

impl Session {
    /// Reconstructs a session from the outcome of the reads. This is the
    /// whole reconstruction algorithm, written once for every backend;
    /// `hash` is the identifier of the storage commit for a commit-backed
    /// reader and `None` for the live directory.
    pub fn from_reads(reads: SessionReads, hash: Option<String>) -> (r: Result<
        Session,
        SessionError,
    >)
        ensures
            reconstruct_rel(reads, hash, r),
    {
        let SessionReads { session_exists, id, start, last, branch, commit } = reads;
        if !session_exists {
            return Err(SessionError::NoSession);
        }
        let id = match id {
            Ok(text) => text,
            Err(_) => return Err(SessionError::Corrupt(SessionFault::ReadId)),
        };
        let start_text = match start {
            Ok(text) => text,
            Err(_) => return Err(SessionError::Corrupt(SessionFault::ReadStart)),
        };
        let start_timestamp_ms = match parse_u128(start_text.as_str()) {
            Some(v) => v,
            None => return Err(SessionError::Corrupt(SessionFault::ParseStart)),
        };
        let last_text = match last {
            Ok(text) => text,
            Err(_) => return Err(SessionError::Corrupt(SessionFault::ReadLast)),
        };
        let last_timestamp_ms = match parse_u128(last_text.as_str()) {
            Some(v) => v,
            None => return Err(SessionError::Corrupt(SessionFault::ParseLast)),
        };
        let branch = match branch {
            Ok(text) => Some(text),
            Err(_) => None,
        };
        let commit = match commit {
            Ok(text) => Some(text),
            Err(_) => None,
        };
        Ok(
            Session {
                id,
                hash,
                meta: Meta { start_timestamp_ms, last_timestamp_ms, branch, commit },
            },
        )
    }

    /// Attempts to reconstruct a session from any reader. The result carries
    /// `hash: None`: through the generic interface a session is read as the
    /// live one; a commit-backed caller adds its storage commit afterwards.
    pub fn try_from_reader<R: Reader>(reader: &R) -> (r: Result<Session, SessionError>)
        ensures
            r is Ok ==> r->Ok_0.hash is None,
            exists|reads: SessionReads| reconstruct_rel(reads, None::<String>, r),
    {
        let reads = gather_reads(reader);
        let ghost performed = reads;
        let r = Self::from_reads(reads, None);
        proof {
            assert(reconstruct_rel(performed, None::<String>, r));
        }
        r
    }
}

/// Law: reconstruction reports `NoSession` exactly where the backing store
/// has no `session` subtree, and for no other failure, whatever the backend
/// supplied as reads or hash.
pub proof fn lemma_no_session_boundary(
    reads: SessionReads,
    hash: Option<String>,
    r: Result<Session, SessionError>,
)
    requires
        reconstruct_rel(reads, hash, r),
    ensures
        r == Err::<Session, SessionError>(SessionError::NoSession) <==> !reads.session_exists,
{
}

/// Law: where the required fields are present and well-formed and the
/// optional fields are present, reconstruction succeeds and every field of
/// the session matches the source exactly: the id verbatim, the timestamps
/// equal to the parsed integers, branch and commit taken as read.
pub proof fn lemma_complete_metadata(
    reads: SessionReads,
    hash: Option<String>,
    r: Result<Session, SessionError>,
)
    requires
        reconstruct_rel(reads, hash, r),
        reads.session_exists,
        reads.id is Ok,
        reads.start is Ok,
        spec_parse_u128(reads.start->Ok_0@) is Some,
        reads.last is Ok,
        spec_parse_u128(reads.last->Ok_0@) is Some,
        reads.branch is Ok,
        reads.commit is Ok,
    ensures
        r is Ok,
        r->Ok_0.id == reads.id->Ok_0,
        r->Ok_0.hash == hash,
        r->Ok_0.meta.start_timestamp_ms == spec_parse_u128(reads.start->Ok_0@)->Some_0,
        r->Ok_0.meta.last_timestamp_ms == spec_parse_u128(reads.last->Ok_0@)->Some_0,
        r->Ok_0.meta.branch == Some(reads.branch->Ok_0),
        r->Ok_0.meta.commit == Some(reads.commit->Ok_0),
{
}

/// Law: absence of `branch` or `commit` is tolerated: with the required
/// fields well-formed, reconstruction still succeeds, and each absent or
/// unreadable optional field becomes `None` rather than an error.
pub proof fn lemma_optional_fields_tolerated(
    reads: SessionReads,
    hash: Option<String>,
    r: Result<Session, SessionError>,
)
    requires
        reconstruct_rel(reads, hash, r),
        reads.session_exists,
        reads.id is Ok,
        reads.start is Ok,
        spec_parse_u128(reads.start->Ok_0@) is Some,
        reads.last is Ok,
        spec_parse_u128(reads.last->Ok_0@) is Some,
    ensures
        r is Ok,
        reads.branch is Err ==> r->Ok_0.meta.branch is None,
        reads.commit is Err ==> r->Ok_0.meta.commit is None,
{
}

/// Law: a required field that is absent, or a timestamp that is present but
/// non-numeric, fails reconstruction with the corrupt-session error: never
/// with `NoSession`, and never with a silently defaulted session.
pub proof fn lemma_required_fields_hard(
    reads: SessionReads,
    hash: Option<String>,
    r: Result<Session, SessionError>,
)
    requires
        reconstruct_rel(reads, hash, r),
        reads.session_exists,
        reads.id is Err || reads.start is Err || (reads.start is Ok && spec_parse_u128(
            reads.start->Ok_0@,
        ) is None) || reads.last is Err || (reads.last is Ok && spec_parse_u128(
            reads.last->Ok_0@,
        ) is None),
    ensures
        r is Err,
        r->Err_0 is Corrupt,
        r->Err_0 != SessionError::NoSession,
{
}

/// Law: the `hash` field is determined solely by which reader variant the
/// session came from, never by the metadata content: two successful
/// reconstructions handed the same storage-commit identifier carry the same
/// `hash`, whatever their reads held.
pub proof fn lemma_hash_from_variant_only(
    reads1: SessionReads,
    reads2: SessionReads,
    hash: Option<String>,
    r1: Result<Session, SessionError>,
    r2: Result<Session, SessionError>,
)
    requires
        reconstruct_rel(reads1, hash, r1),
        reconstruct_rel(reads2, hash, r2),
        r1 is Ok,
        r2 is Ok,
    ensures
        r1->Ok_0.hash == hash,
        r2->Ok_0.hash == hash,
        r1->Ok_0.hash == r2->Ok_0.hash,
{
}

/// Law: a commit-sourced session is a strict superset of the generic
/// reconstruction: over the same reads it fails exactly where the generic
/// reconstruction fails, with the same error, and succeeds with the same
/// fields — plus the storage commit's identifier as its `hash`, where the
/// generic session carries none.
pub proof fn lemma_commit_sourced_superset(
    reads: SessionReads,
    hex: String,
    generic: Result<Session, SessionError>,
    committed: Result<Session, SessionError>,
)
    requires
        reconstruct_rel(reads, None::<String>, generic),
        reconstruct_rel(reads, Some(hex), committed),
    ensures
        generic is Ok <==> committed is Ok,
        generic is Err ==> generic == committed,
        generic is Ok ==> {
            &&& committed->Ok_0.id == generic->Ok_0.id
            &&& committed->Ok_0.meta == generic->Ok_0.meta
            &&& generic->Ok_0.hash is None
            &&& committed->Ok_0.hash == Some(hex)
        },
{
    if generic is Err && committed is Err {
        assert(generic->Err_0 == committed->Err_0);
    }
    if generic is Ok && committed is Ok {
        assert(committed->Ok_0.meta =~= generic->Ok_0.meta);
    }
}

/// Law: reconstruction is deterministic. The same read outcomes and the same
/// storage-commit identifier always yield one and the same result; in
/// particular, reading an immutable commit back twice yields identical
/// sessions, there being no hidden mutable state.
pub proof fn lemma_reconstruction_deterministic(
    reads: SessionReads,
    hash: Option<String>,
    r1: Result<Session, SessionError>,
    r2: Result<Session, SessionError>,
)
    requires
        reconstruct_rel(reads, hash, r1),
        reconstruct_rel(reads, hash, r2),
    ensures
        r1 == r2,
{
    if r1 is Ok && r2 is Ok {
        assert(r1->Ok_0.meta =~= r2->Ok_0.meta);
        assert(r1->Ok_0 =~= r2->Ok_0);
    }
}

} // verus!
