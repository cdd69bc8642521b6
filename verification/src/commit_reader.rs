//! The commit-backed reader: path-addressed reads out of one historical
//! commit's tree in the snapshot store, through the git2 object-store
//! engine. The engine is an external collaborator: each of its functions
//! stands behind one small trusted wrapper, and everything that chains and
//! interprets what they return is verified.

use vstd::prelude::*;

verus! {

use crate::reader::ReadError;
use crate::reader::Reader;
use crate::session::Session;
use crate::session::SessionError;
use crate::session::SessionReads;
use crate::session::gather_reads;
use crate::session::reconstruct_rel;

#[verifier::external_type_specification]
#[verifier::external_body]
pub struct ExRepository(git2::Repository);

#[verifier::external_type_specification]
#[verifier::external_body]
pub struct ExOid(git2::Oid);

#[verifier::external_type_specification]
#[verifier::external_body]
pub struct ExGitError(git2::Error);

#[verifier::external_type_specification]
#[verifier::external_body]
pub struct ExCommit<'repo>(git2::Commit<'repo>);

#[verifier::external_type_specification]
#[verifier::external_body]
pub struct ExTree<'repo>(git2::Tree<'repo>);

#[verifier::external_type_specification]
#[verifier::external_body]
pub struct ExTreeEntry<'tree>(git2::TreeEntry<'tree>);

#[verifier::external_type_specification]
#[verifier::external_body]
pub struct ExObject<'repo>(git2::Object<'repo>);

#[verifier::external_type_specification]
#[verifier::external_body]
pub struct ExBlob<'repo>(git2::Blob<'repo>);

/// Relies on git2's `Repository::find_commit`: looks the commit up in the
/// store, failing where `oid` does not name one.
#[verifier::external_body]
fn find_commit<'r>(repo: &'r git2::Repository, oid: &git2::Oid) -> Result<
    git2::Commit<'r>,
    git2::Error,
> {
    repo.find_commit(*oid)
}

/// Relies on git2's `Commit::tree`: loads the tree the commit points at.
#[verifier::external_body]
fn commit_tree<'r>(commit: &git2::Commit<'r>) -> Result<git2::Tree<'r>, git2::Error> {
    commit.tree()
}

/// Relies on git2's `Tree::get_path`: resolves a relative path to the tree
/// entry it names, in this tree or any of its subtrees, failing where no
/// entry is there.
#[verifier::external_body]
fn tree_get_path(tree: &git2::Tree<'_>, path: &str) -> Result<git2::TreeEntry<'static>, git2::Error> {
    tree.get_path(std::path::Path::new(path))
}

/// Relies on git2's `TreeEntry::to_object`: loads the object the entry
/// points at out of the store.
#[verifier::external_body]
fn entry_to_object<'r>(entry: &git2::TreeEntry<'_>, repo: &'r git2::Repository) -> Result<
    git2::Object<'r>,
    git2::Error,
> {
    entry.to_object(repo)
}

/// Relies on git2's `Object::into_blob`: the object back as a blob, or as
/// itself where it is none (a subtree, say).
#[verifier::external_body]
fn object_into_blob<'r>(object: git2::Object<'r>) -> Result<git2::Blob<'r>, git2::Object<'r>> {
    object.into_blob()
}

/// Relies on git2's `Blob::content`: the blob's raw bytes.
#[verifier::external_body]
fn blob_content(blob: &git2::Blob<'_>) -> Vec<u8> {
    blob.content().to_vec()
}

/// Relies on the standard library's `String::from_utf8`: the bytes as text,
/// failing where they are not valid UTF-8.
#[verifier::external_body]
fn utf8_string(bytes: Vec<u8>) -> Result<String, ReadError> {
    String::from_utf8(bytes).map_err(|_| ReadError)
}

/// Relies on git2's `Display` for `Oid`, which hex-encodes the identifier:
/// the form in which a session's storage commit is named everywhere.
#[verifier::external_body]
fn oid_to_hex(oid: &git2::Oid) -> String {
    oid.to_string()
}

/// A reader bound to one historical commit of the snapshot store. It holds
/// the commit's tree and the commit's identifier in hex form, and borrows
/// the open repository handle that produced it rather than owning a copy of
/// the store; the bound commit's data is immutable.
pub struct CommitReader<'a> {
    repository: &'a git2::Repository,
    tree: git2::Tree<'a>,
    commit_hex: String,
}

impl<'a> CommitReader<'a> {
    /// The bound commit's identifier in hex form: what a session
    /// reconstructed from this reader carries as its `hash`.
    pub closed spec fn spec_commit_id(&self) -> Seq<char> {
        self.commit_hex@
    }

    /// Binds a reader to the commit named by `oid`, failing where the store
    /// has no such commit or its tree cannot be loaded.
    pub fn from_commit(repository: &'a git2::Repository, oid: git2::Oid) -> (r: Result<
        CommitReader<'a>,
        ReadError,
    >) {
        let commit = match find_commit(repository, &oid) {
            Ok(commit) => commit,
            Err(_) => return Err(ReadError),
        };
        let tree = match commit_tree(&commit) {
            Ok(tree) => tree,
            Err(_) => return Err(ReadError),
        };
        let commit_hex = oid_to_hex(&oid);
        Ok(CommitReader { repository, tree, commit_hex })
    }

    /// The identifier of the bound commit, hex-encoded.
    pub fn get_commit_oid(&self) -> (r: String)
        ensures
            r@ == self.spec_commit_id(),
    {
        self.commit_hex.clone()
    }
}

impl<'a> Reader for CommitReader<'a> {
    fn path_exists(&self, path: &str) -> bool {
        match tree_get_path(&self.tree, path) {
            Ok(_) => true,
            Err(_) => false,
        }
    }

    fn read_to_string(&self, path: &str) -> Result<String, ReadError> {
        let entry = match tree_get_path(&self.tree, path) {
            Ok(entry) => entry,
            Err(_) => return Err(ReadError),
        };
        let object = match entry_to_object(&entry, self.repository) {
            Ok(object) => object,
            Err(_) => return Err(ReadError),
        };
        let blob = match object_into_blob(object) {
            Ok(blob) => blob,
            Err(_) => return Err(ReadError),
        };
        utf8_string(blob_content(&blob))
    }
}

impl Session {
    /// Attempts to reconstruct the session recorded in the bound commit: the
    /// same steps as for any reader, and additionally the bound commit's
    /// identifier as the session's `hash`. A commit-sourced session is thus
    /// a strict superset of the generic reconstruction, and its `hash` comes
    /// from the reader alone, never from the metadata content.
    pub fn try_from_commit_reader<'a>(reader: &CommitReader<'a>) -> (r: Result<
        Session,
        SessionError,
    >)
        ensures
            r is Ok ==> r->Ok_0.hash is Some && r->Ok_0.hash->Some_0@ == reader.spec_commit_id(),
            exists|reads: SessionReads, hex: String|
                hex@ == reader.spec_commit_id() && reconstruct_rel(reads, Some(hex), r),
    {
        let commit_hex = reader.get_commit_oid();
        let ghost hex = commit_hex;
        let reads = gather_reads(reader);
        let ghost performed = reads;
        let r = Session::from_reads(reads, Some(commit_hex));
        proof {
            assert(reconstruct_rel(performed, Some(hex), r));
        }
        r
    }
}

} // verus!
