//! The repository library, as far as this crate uses it: its types, which
//! are carried through unopened, and one function of this crate for each of
//! its functions that is called. What the repository does on such a call is
//! its own affair and rests on what is on disk, so nothing is claimed of
//! whether a call succeeds or of what it leaves in the repository. What has
//! a name is what a value says of itself: the message of a failure, the time
//! and the texts on a signature, the id of a tree or a commit.

use vstd::prelude::*;
use git2::{Commit, Index, Oid, Reference, Repository, Signature, Tree};
use crate::error::{DrawError, RepositoryStep};

verus! {

// The types of `git2` that pass through this crate. Nothing inside them is
// visible here: values of them come from the repository library and go back
// to it.
#[verifier::external_type_specification]
#[verifier::external_body]
pub struct ExRepository(Repository);

#[verifier::external_type_specification]
#[verifier::external_body]
pub struct ExOid(Oid);

#[verifier::external_type_specification]
#[verifier::external_body]
pub struct ExIndex(Index);

#[verifier::external_type_specification]
#[verifier::external_body]
pub struct ExSignature<'a>(Signature<'a>);

#[verifier::external_type_specification]
#[verifier::external_body]
pub struct ExTree<'a>(Tree<'a>);

#[verifier::external_type_specification]
#[verifier::external_body]
pub struct ExCommit<'a>(Commit<'a>);

#[verifier::external_type_specification]
#[verifier::external_body]
pub struct ExReference<'a>(Reference<'a>);

#[verifier::external_type_specification]
#[verifier::external_body]
pub struct ExFailure(git2::Error);

/// The message that a failure of the repository carries.
pub uninterp spec fn failure_text(failure: git2::Error) -> Seq<char>;

/// Whether a failure of the repository says that what was looked for does
/// not exist.
pub uninterp spec fn failure_is_not_found(failure: git2::Error) -> bool;

/// Calls `git2::Error::message` and copies the text. The contract only gives
/// the text its name.
#[verifier::external_body]
pub(crate) fn failure_message(failure: &git2::Error) -> (r: String)
    ensures
        r@ == failure_text(*failure),
{
    failure.message().to_owned()
}

/// Calls `git2::Error::code` and tells whether it is `ErrorCode::NotFound`.
/// The contract only gives the answer its name.
#[verifier::external_body]
pub(crate) fn is_not_found(failure: &git2::Error) -> (r: bool)
    ensures
        r == failure_is_not_found(*failure),
{
    matches!(failure.code(), git2::ErrorCode::NotFound)
}

/// The time of a signature: seconds after the epoch, and the offset from
/// UTC in minutes.
pub uninterp spec fn signature_when(signature: Signature<'_>) -> (i64, i32);

/// The name on a signature, where it is text.
pub uninterp spec fn signature_name(signature: Signature<'_>) -> Option<Seq<char>>;

/// The email on a signature, where it is text.
pub uninterp spec fn signature_email(signature: Signature<'_>) -> Option<Seq<char>>;

/// What a new signature keeps of a name or an email that is given to it: the
/// repository library drops blanks and some marks from both ends.
pub uninterp spec fn signed_text(given: Seq<char>) -> Seq<char>;

/// The id of a tree.
pub uninterp spec fn tree_oid(tree: Tree<'_>) -> Oid;

/// The id of a commit.
pub uninterp spec fn commit_oid(commit: Commit<'_>) -> Oid;

/// Calls `git2::Time::new` and `git2::Signature::new`. Whether a signature
/// comes back is the repository library's decision. One that comes back has
/// the time and offset that were given, and of the name and the email given
/// what `signed_text` names, which are text as what was given is.
#[verifier::external_body]
pub(crate) fn signature_at(name: &str, email: &str, seconds: i64, offset_minutes: i32) -> (r: Result<
    Signature<'static>,
    git2::Error,
>)
    ensures
        r matches Ok(signature) ==> {
            &&& signature_when(signature) == (seconds, offset_minutes)
            &&& signature_name(signature) == Some(signed_text(name@))
            &&& signature_email(signature) == Some(signed_text(email@))
        },
{
    Signature::new(name, email, &git2::Time::new(seconds, offset_minutes))
}

/// Calls `git2::Signature::when`, and `Time::seconds` and
/// `Time::offset_minutes` on its result. The contract only gives the pair
/// its name.
#[verifier::external_body]
pub(crate) fn when_signed(signature: &Signature<'_>) -> (r: (i64, i32))
    ensures
        r == signature_when(*signature),
{
    let when = signature.when();
    (when.seconds(), when.offset_minutes())
}

/// Calls `git2::Signature::name` and copies the text, if it is text. The
/// contract only gives the answer its name.
#[verifier::external_body]
pub(crate) fn name_signed(signature: &Signature<'_>) -> (r: Option<String>)
    ensures
        match r {
            Some(name) => signature_name(*signature) == Some(name@),
            None => signature_name(*signature) is None,
        },
{
    match signature.name() {
        Ok(name) => Some(name.to_owned()),
        Err(_) => None,
    }
}

/// Calls `git2::Signature::email` and copies the text, if it is text. The
/// contract only gives the answer its name.
#[verifier::external_body]
pub(crate) fn email_signed(signature: &Signature<'_>) -> (r: Option<String>)
    ensures
        match r {
            Some(email) => signature_email(*signature) == Some(email@),
            None => signature_email(*signature) is None,
        },
{
    match signature.email() {
        Ok(email) => Some(email.to_owned()),
        Err(_) => None,
    }
}

/// Calls `git2::Repository::index`. Nothing is claimed of the outcome.
#[verifier::external_body]
pub(crate) fn open_index(repo: &Repository) -> Result<Index, git2::Error> {
    repo.index()
}

/// Calls `git2::Index::write_tree`. Nothing is claimed of the outcome.
#[verifier::external_body]
pub(crate) fn write_tree(index: &mut Index) -> Result<Oid, git2::Error> {
    index.write_tree()
}

/// Calls `git2::Repository::find_tree`, which looks the tree up by its id.
/// Whether one is found is the repository's decision; one that is found has
/// the id that was asked for.
#[verifier::external_body]
pub(crate) fn find_tree<'r>(repo: &'r Repository, id: Oid) -> (r: Result<Tree<'r>, git2::Error>)
    ensures
        r matches Ok(tree) ==> tree_oid(tree) == id,
{
    repo.find_tree(id)
}

/// Calls `git2::Tree::id`. The contract only gives the id its name.
#[verifier::external_body]
pub(crate) fn tree_id(tree: &Tree<'_>) -> (r: Oid)
    ensures
        r == tree_oid(*tree),
{
    tree.id()
}

/// Calls `git2::Repository::find_reference`. Nothing is claimed of the
/// outcome.
#[verifier::external_body]
pub(crate) fn find_reference<'r>(repo: &'r Repository, name: &str) -> Result<
    Reference<'r>,
    git2::Error,
> {
    repo.find_reference(name)
}

/// Calls `git2::Reference::peel_to_commit`. Nothing is claimed of the
/// outcome.
#[verifier::external_body]
pub(crate) fn peel_to_commit<'r>(reference: &Reference<'r>) -> Result<Commit<'r>, git2::Error> {
    reference.peel_to_commit()
}

/// Calls `git2::Commit::id`. The contract only gives the id its name.
#[verifier::external_body]
pub(crate) fn commit_id(commit: &Commit<'_>) -> (r: Oid)
    ensures
        r == commit_oid(*commit),
{
    commit.id()
}

/// What is handed to the repository for one commit: who signs it and when,
/// its message, its tree, and its parent, if it has one.
pub struct CommitOrder<'a, 'r> {
    pub signature: &'a Signature<'a>,
    pub message: &'a str,
    pub tree: &'a Tree<'r>,
    pub parent: Option<&'a Commit<'r>>,
}

/// Calls `git2::Repository::commit` with `reference` as the reference to
/// move, the order's signature as author and as committer, its message and
/// tree, and its parent as the only parent, if there is one. Nothing is
/// claimed of the outcome.
#[verifier::external_body]
pub(crate) fn create_commit(
    repo: &Repository,
    reference: &str,
    order: &CommitOrder<'_, '_>,
) -> Result<Oid, git2::Error> {
    repo.commit(
        Some(reference),
        order.signature,
        order.signature,
        order.message,
        order.tree,
        order.parent.as_slice(),
    )
}

/// Calls `git2::Repository::find_commit`, which looks the commit up by its
/// id. Whether one is found is the repository's decision; one that is found
/// has the id that was asked for.
#[verifier::external_body]
pub(crate) fn find_commit<'r>(repo: &'r Repository, id: Oid) -> (r: Result<
    Commit<'r>,
    git2::Error,
>)
    ensures
        r matches Ok(commit) ==> commit_oid(commit) == id,
{
    repo.find_commit(id)
}

/// The repository that is drawn into, and under which name and into which
/// reference.
pub struct GitInfo {
    pub repo: Repository,
    pub reference: String,
    pub name: String,
    pub email: String,
}

/// The error for a failure of the repository at `step`.
pub fn repository_error(step: RepositoryStep, failure: &git2::Error) -> (r: DrawError)
    ensures
        r matches DrawError::RepositoryError { step: s, detail } && s == step && detail@
            == failure_text(*failure),
{
    DrawError::RepositoryError { step, detail: failure_message(failure) }
}

/// What a look for the reference means for the day: a reference that does
/// not exist yet gives no parent, any other failure ends the run.
pub fn reference_or_none<'r>(found: Result<Reference<'r>, git2::Error>) -> (r: Result<
    Option<Reference<'r>>,
    DrawError,
>)
    ensures
        match found {
            Ok(reference) => r == Ok::<Option<Reference<'r>>, DrawError>(Some(reference)),
            Err(failure) => if failure_is_not_found(failure) {
                r == Ok::<Option<Reference<'r>>, DrawError>(None)
            } else {
                r matches Err(DrawError::RepositoryError { step, detail }) && step
                    == RepositoryStep::FindReference && detail@ == failure_text(failure)
            },
        },
{
    match found {
        Ok(reference) => Ok(Some(reference)),
        Err(failure) => {
            if is_not_found(&failure) {
                Ok(None)
            } else {
                Err(repository_error(RepositoryStep::FindReference, &failure))
            }
        },
    }
}

/// What a failure to reach a commit from the reference means for the day:
/// a reference without a commit gives no parent, whatever the failure says.
pub fn tip_or_none<'r>(peeled: Result<Commit<'r>, git2::Error>) -> (r: Option<Commit<'r>>)
    ensures
        match peeled {
            Ok(commit) => r == Some(commit),
            Err(_) => r is None,
        },
{
    match peeled {
        Ok(commit) => Some(commit),
        Err(_) => None,
    }
}

} // verus!
