//! Where the SoftNpu, sidecar-lite and dendrite artifacts are published, how
//! the version to fetch is chosen, and the retry policy of a download.

use vstd::prelude::*;

verus! {

/// The buildomat file server.
pub open spec fn buildomat_base() -> Seq<char> {
    "https://buildomat.eng.oxide.computer"@
}

/// The URL of `file` of revision `rev` under `path` on buildomat.
pub open spec fn buildomat_url_spec(path: Seq<char>, rev: Seq<char>, file: Seq<char>) -> Seq<
    char,
> {
    buildomat_base() + "/"@ + path + "/"@ + rev + "/"@ + file
}

/// The URL of `file` of revision `rev` under `path` on buildomat.
pub fn buildomat_url(path: &str, rev: &str, file: &str) -> (url: String)
    ensures
        url@ == buildomat_url_spec(path@, rev@, file@),
{
    let mut url = String::from_str("https://buildomat.eng.oxide.computer");
    url.append("/");
    url.append(path);
    url.append("/");
    url.append(rev);
    url.append("/");
    url.append(file);
    url
}

/// Where sidecar-lite releases are published.
pub open spec fn sidecar_lite_release_path() -> Seq<char> {
    "public/file/oxidecomputer/sidecar-lite/release"@
}

/// Where softnpu images are published.
pub open spec fn softnpu_image_path() -> Seq<char> {
    "public/file/oxidecomputer/softnpu/image"@
}

/// Where dendrite images are published.
pub open spec fn dendrite_image_path() -> Seq<char> {
    "public/file/oxidecomputer/dendrite/image"@
}

/// The URL of a sidecar-lite release file (`scadm`, `libsidecar_lite.so`
/// or their checksums) of revision `rev`.
pub fn sidecar_lite_url(rev: &str, file: &str) -> (url: String)
    ensures
        url@ == buildomat_url_spec(sidecar_lite_release_path(), rev@, file@),
{
    buildomat_url("public/file/oxidecomputer/sidecar-lite/release", rev, file)
}

/// The URL of a softnpu image file of revision `rev`.
pub fn softnpu_url(rev: &str, file: &str) -> (url: String)
    ensures
        url@ == buildomat_url_spec(softnpu_image_path(), rev@, file@),
{
    buildomat_url("public/file/oxidecomputer/softnpu/image", rev, file)
}

/// The URL of the softnpu dendrite image of revision `rev`.
pub fn dendrite_image_url(rev: &str) -> (url: String)
    ensures
        url@ == buildomat_url_spec(dendrite_image_path(), rev@, "dendrite-softnpu.tar.gz"@),
{
    buildomat_url("public/file/oxidecomputer/dendrite/image", rev, "dendrite-softnpu.tar.gz")
}

/// Artifact version determines how artifacts are fetched.
#[derive(Clone, Copy, Debug)]
pub enum ArtifactVersion<'a> {
    /// The most recent commit on the main branch.
    Latest,
    /// The most recent commit on this branch.
    Branch(&'a str),
    /// This commit.
    Commit(&'a str),
}

/// The branch whose head commit is to be looked up, if any: `main` for the
/// latest version, the branch for a branch, none for a commit.
pub fn branch_to_resolve<'a>(version: &ArtifactVersion<'a>) -> (branch: Option<&'a str>)
    ensures
        version is Latest ==> (branch matches Some(b) && b@ == "main"@),
        version matches ArtifactVersion::Branch(b) ==> branch == Some(*b),
        version is Commit ==> branch is None,
{
    match version {
        ArtifactVersion::Latest => Some("main"),
        ArtifactVersion::Branch(b) => Some(*b),
        ArtifactVersion::Commit(_) => None,
    }
}

/// The object that a git reference points at, as the GitHub API reports
/// it.
#[derive(Debug)]
pub enum RefObject {
    Commit { sha: String },
    Tag { sha: String },
    Other,
}

/// A branch that could not be resolved to a commit.
#[derive(Debug)]
pub struct ResolveVersionError {
    pub branch: String,
    pub error: String,
}

/// The revision that a branch's reference names: the sha of its commit or
/// tag; any other object is an error.
pub fn resolved_revision(branch: &str, object: RefObject) -> (r: Result<String, ResolveVersionError>)
    ensures
        object matches RefObject::Commit { sha } ==> r == Ok::<String, ResolveVersionError>(sha),
        object matches RefObject::Tag { sha } ==> r == Ok::<String, ResolveVersionError>(sha),
        object is Other ==> (r matches Err(e) && e.branch@ == branch@ && e.error@
            == "unexpected ref object type"@),
{
    match object {
        RefObject::Commit { sha } => Ok(sha),
        RefObject::Tag { sha } => Ok(sha),
        RefObject::Other => Err(
            ResolveVersionError {
                branch: String::from_str(branch),
                error: String::from_str("unexpected ref object type"),
            },
        ),
    }
}

/// The number of attempts that a download makes at most.
pub const DOWNLOAD_ATTEMPTS: u32 = 5;

/// The HTTP status of a successful download.
pub const HTTP_OK: u32 = 200;

/// How one download attempt ended.
#[derive(Debug)]
pub enum Attempt<E> {
    /// The file was downloaded.
    Succeeded,
    /// The attempt failed and may be repeated.
    Failed(E),
    /// The attempt failed in a way that ends the download at once.
    Aborted(E),
}

/// What to do after an attempt.
#[derive(Debug)]
pub enum RetryDecision<E> {
    /// Wait for the retry delay, then make the next attempt.
    SleepAndRetry,
    /// The download is over, with this result; its progress display ends.
    Finish(Result<(), E>),
    /// The download ends at once with this error.
    Abort(E),
}

/// The decision after attempt number `attempt` (counted from one).
pub open spec fn decision_spec<E>(attempt: u32, outcome: Attempt<E>) -> RetryDecision<E> {
    match outcome {
        Attempt::Succeeded => RetryDecision::Finish(Ok(())),
        Attempt::Aborted(e) => RetryDecision::Abort(e),
        Attempt::Failed(e) => if attempt < DOWNLOAD_ATTEMPTS {
            RetryDecision::SleepAndRetry
        } else {
            RetryDecision::Finish(Err(e))
        },
    }
}

/// Decides what follows attempt number `attempt` (counted from one): a
/// success ends the download, an abort ends it with its error, a failure
/// is retried after a delay until the last attempt, whose error is the
/// download's.
pub fn after_attempt<E>(attempt: u32, outcome: Attempt<E>) -> (d: RetryDecision<E>)
    requires
        1 <= attempt <= DOWNLOAD_ATTEMPTS,
    ensures
        d == decision_spec(attempt, outcome),
{
    match outcome {
        Attempt::Succeeded => RetryDecision::Finish(Ok(())),
        Attempt::Aborted(e) => RetryDecision::Abort(e),
        Attempt::Failed(e) => if attempt < DOWNLOAD_ATTEMPTS {
            RetryDecision::SleepAndRetry
        } else {
            RetryDecision::Finish(Err(e))
        },
    }
}

/// How an attempt whose transfer completed ended, by the HTTP status: 200
/// is a success, any other status a failure that may be retried.
pub fn response_outcome<E>(status: u32, http_error: E) -> (a: Attempt<E>)
    ensures
        status == HTTP_OK ==> a is Succeeded,
        status != HTTP_OK ==> a == Attempt::Failed(http_error),
{
    if status == HTTP_OK {
        Attempt::Succeeded
    } else {
        Attempt::Failed(http_error)
    }
}

/// How one download attempt ended, with the error to report for it.
#[derive(Debug)]
pub enum AttemptEnd<E> {
    /// The destination file could not be created.
    CreateFile(E),
    /// The transfer could not be set up (URL, redirects, timeouts, progress).
    Configure(E),
    /// The transfer's progress or write callback could not be installed.
    Callbacks(E),
    /// The transfer itself failed.
    Transfer(E),
    /// The transfer completed, but its response code could not be read.
    ResponseCode(E),
    /// The transfer completed with HTTP status `status`; `http_error` is the
    /// error that reports a status other than 200.
    Completed { status: u32, http_error: E },
}

/// How an attempt of a file download ended: a failure to install the
/// transfer's callbacks ends the download at once; every other failure,
/// including an unreadable response code or a status other than 200, may
/// be retried.
pub fn download_outcome<E>(end: AttemptEnd<E>) -> (a: Attempt<E>)
    ensures
        match end {
            AttemptEnd::CreateFile(e) => a == Attempt::Failed(e),
            AttemptEnd::Configure(e) => a == Attempt::Failed(e),
            AttemptEnd::Callbacks(e) => a == Attempt::Aborted(e),
            AttemptEnd::Transfer(e) => a == Attempt::Failed(e),
            AttemptEnd::ResponseCode(e) => a == Attempt::Failed(e),
            AttemptEnd::Completed { status, http_error } => if status == HTTP_OK {
                a is Succeeded
            } else {
                a == Attempt::Failed(http_error)
            },
        },
{
    match end {
        AttemptEnd::CreateFile(e) => Attempt::Failed(e),
        AttemptEnd::Configure(e) => Attempt::Failed(e),
        AttemptEnd::Callbacks(e) => Attempt::Aborted(e),
        AttemptEnd::Transfer(e) => Attempt::Failed(e),
        AttemptEnd::ResponseCode(e) => Attempt::Failed(e),
        AttemptEnd::Completed { status, http_error } => response_outcome(status, http_error),
    }
}

/// How an attempt of the dendrite image download ended: a failure to
/// install the transfer's callbacks or to read the response code ends the
/// download at once; every other failure, including a status other than
/// 200, may be retried.
pub fn image_outcome<E>(end: AttemptEnd<E>) -> (a: Attempt<E>)
    ensures
        match end {
            AttemptEnd::CreateFile(e) => a == Attempt::Failed(e),
            AttemptEnd::Configure(e) => a == Attempt::Failed(e),
            AttemptEnd::Callbacks(e) => a == Attempt::Aborted(e),
            AttemptEnd::Transfer(e) => a == Attempt::Failed(e),
            AttemptEnd::ResponseCode(e) => a == Attempt::Aborted(e),
            AttemptEnd::Completed { status, http_error } => if status == HTTP_OK {
                a is Succeeded
            } else {
                a == Attempt::Failed(http_error)
            },
        },
{
    match end {
        AttemptEnd::CreateFile(e) => Attempt::Failed(e),
        AttemptEnd::Configure(e) => Attempt::Failed(e),
        AttemptEnd::Callbacks(e) => Attempt::Aborted(e),
        AttemptEnd::Transfer(e) => Attempt::Failed(e),
        AttemptEnd::ResponseCode(e) => Attempt::Aborted(e),
        AttemptEnd::Completed { status, http_error } => response_outcome(status, http_error),
    }
}

/// Whether the attempts `outcomes` are those of a download that follows
/// the decisions: every attempt but the last was followed by a retry.
pub open spec fn follows_decisions<E>(outcomes: Seq<Attempt<E>>) -> bool {
    forall|i: int|
        0 <= i < outcomes.len() - 1 ==> (#[trigger] decision_spec(
            (i + 1) as u32,
            outcomes[i],
        )) is SleepAndRetry
}

/// A download makes at most `DOWNLOAD_ATTEMPTS` attempts; only failures
/// are retried; and once the attempts run out, the last one's outcome is
/// the download's result.
pub proof fn lemma_download_attempts_bounded<E>(outcomes: Seq<Attempt<E>>)
    requires
        follows_decisions(outcomes),
    ensures
        outcomes.len() <= DOWNLOAD_ATTEMPTS,
        forall|i: int| 0 <= i < outcomes.len() - 1 ==> (#[trigger] outcomes[i]) is Failed,
        outcomes.len() == DOWNLOAD_ATTEMPTS ==> !(decision_spec(
            DOWNLOAD_ATTEMPTS,
            outcomes.last(),
        ) is SleepAndRetry),
{
    if outcomes.len() > DOWNLOAD_ATTEMPTS {
        let i: int = (DOWNLOAD_ATTEMPTS - 1) as int;
        assert(decision_spec((i + 1) as u32, outcomes[i]) is SleepAndRetry);
    }
    assert forall|i: int| 0 <= i < outcomes.len() - 1 implies (#[trigger] outcomes[i]) is Failed by {
        assert(decision_spec((i + 1) as u32, outcomes[i]) is SleepAndRetry);
    }
}

} // verus!
