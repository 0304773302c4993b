//! The commit transaction: which operation to ask of the repository next,
//! given how the previous one ended.
//!
//! The library never touches a repository. It hands out one `Request` at a
//! time; whoever drives it performs the request and reports the `Outcome`.

use vstd::prelude::*;
use vstd::string::StringExecFns;

verus! {

/// The status of a file that is the same in the working tree, the index and
/// the last commit.
pub const STATUS_CURRENT: u32 = 0;

/// Some file departs from its committed state.
pub open spec fn any_uncommitted(statuses: Seq<u32>) -> bool {
    exists|i: int| 0 <= i < statuses.len() && statuses[i] != STATUS_CURRENT
}

/// Whether the status list of a working tree, one entry per file, shows
/// anything to commit.
pub fn has_uncommitted_changes(statuses: &Vec<u32>) -> (changed: bool)
    ensures
        changed == any_uncommitted(statuses@),
{
    let mut i: usize = 0;
    while i < statuses.len()
        invariant
            i <= statuses.len(),
            forall|j: int| 0 <= j < i ==> statuses[j] == STATUS_CURRENT,
        decreases statuses.len() - i,
    {
        if statuses[i] != STATUS_CURRENT {
            return true;
        }
        i += 1;
    }
    false
}

/// The identifier of an object in the repository, as raw bytes.
#[derive(Debug, PartialEq, Eq)]
pub struct ObjectId {
    pub bytes: Vec<u8>,
}

impl View for ObjectId {
    type V = Seq<u8>;

    open spec fn view(&self) -> Seq<u8> {
        self.bytes@
    }
}

impl DeepView for ObjectId {
    type V = Seq<u8>;

    open spec fn deep_view(&self) -> Seq<u8> {
        self.bytes@
    }
}

/// The operations of a transaction, in the order they are asked for.
#[derive(Clone, Copy, Debug, PartialEq, Eq, Structural)]
pub enum Step {
    /// Stage every file of the working tree, untracked ones included.
    StageAll,
    /// Persist the staging area.
    WriteIndex,
    /// Write the staged tree and report its identifier.
    WriteTree,
    /// Report the commit at the tip of the current branch, if there is one.
    ResolveTip,
    /// Create the commit and move the current branch to it.
    CreateCommit,
}

/// Why a transaction ended without a commit.
#[derive(Debug, PartialEq, Eq)]
pub enum TransactionError {
    /// The working tree holds nothing to commit; no operation was asked for.
    NoChangesPrecondition,
    /// The tip of the current branch could not be resolved.
    RepositoryAccessError { cause: String },
    /// Staging, persisting the index or writing the tree failed.
    StagingError { step: Step, cause: String },
    /// The commit could not be created.
    CommitCreationError { cause: String },
}

/// A `TransactionError` with its texts as sequences of characters.
pub enum TransactionFailure {
    NoChangesPrecondition,
    RepositoryAccessError { cause: Seq<char> },
    StagingError { step: Step, cause: Seq<char> },
    CommitCreationError { cause: Seq<char> },
}

impl View for TransactionError {
    type V = TransactionFailure;

    open spec fn view(&self) -> TransactionFailure {
        match self {
            TransactionError::NoChangesPrecondition => TransactionFailure::NoChangesPrecondition,
            TransactionError::RepositoryAccessError { cause } => {
                TransactionFailure::RepositoryAccessError { cause: cause@ }
            },
            TransactionError::StagingError { step, cause } => {
                TransactionFailure::StagingError { step: *step, cause: cause@ }
            },
            TransactionError::CommitCreationError { cause } => {
                TransactionFailure::CommitCreationError { cause: cause@ }
            },
        }
    }
}

/// What the repository is asked to do.
#[derive(Debug, PartialEq, Eq)]
pub enum Request {
    StageAll,
    WriteIndex,
    WriteTree,
    ResolveTip,
    /// Create a commit with this message, this tree and these parents, and
    /// move the current branch to it.
    CreateCommit { message: String, tree: ObjectId, parents: Vec<ObjectId> },
}

/// A `Request` with its texts and identifiers as sequences.
pub enum RequestView {
    StageAll,
    WriteIndex,
    WriteTree,
    ResolveTip,
    CreateCommit { message: Seq<char>, tree: Seq<u8>, parents: Seq<Seq<u8>> },
}

impl View for Request {
    type V = RequestView;

    open spec fn view(&self) -> RequestView {
        match self {
            Request::StageAll => RequestView::StageAll,
            Request::WriteIndex => RequestView::WriteIndex,
            Request::WriteTree => RequestView::WriteTree,
            Request::ResolveTip => RequestView::ResolveTip,
            Request::CreateCommit { message, tree, parents } => RequestView::CreateCommit {
                message: message@,
                tree: tree@,
                parents: parents.deep_view(),
            },
        }
    }
}

/// How the repository answered a request.
#[derive(Debug, PartialEq, Eq)]
pub enum Outcome {
    /// The operation succeeded. Writing the tree and creating the commit
    /// report the identifier of what they made; resolving the tip reports the
    /// tip commit, or nothing where the branch has no commit yet.
    Completed(Option<ObjectId>),
    /// The operation failed, for the reason given.
    Failed(String),
}

/// An `Outcome` with its text and identifier as sequences.
pub enum OutcomeView {
    Completed(Option<Seq<u8>>),
    Failed(Seq<char>),
}

impl View for Outcome {
    type V = OutcomeView;

    open spec fn view(&self) -> OutcomeView {
        match self {
            Outcome::Completed(id) => OutcomeView::Completed(id.deep_view()),
            Outcome::Failed(cause) => OutcomeView::Failed(cause@),
        }
    }
}

/// A transaction under way: what has been learnt so far, and by that, which
/// operation's outcome is awaited.
#[derive(Debug, PartialEq, Eq)]
pub enum Transaction {
    /// Waiting for the files to be staged.
    Staging { message: String },
    /// Waiting for the index to be persisted.
    IndexPending { message: String },
    /// Waiting for the tree to be written.
    TreePending { message: String },
    /// Waiting for the tip of the branch; the tree is written.
    TipPending { message: String, tree: ObjectId },
    /// Waiting for the commit to be created.
    CommitPending,
}

/// A `Transaction` with its texts and identifiers as sequences.
pub enum TransactionView {
    Staging { message: Seq<char> },
    IndexPending { message: Seq<char> },
    TreePending { message: Seq<char> },
    TipPending { message: Seq<char>, tree: Seq<u8> },
    CommitPending,
}

impl View for Transaction {
    type V = TransactionView;

    open spec fn view(&self) -> TransactionView {
        match self {
            Transaction::Staging { message } => TransactionView::Staging { message: message@ },
            Transaction::IndexPending { message } => TransactionView::IndexPending {
                message: message@,
            },
            Transaction::TreePending { message } => TransactionView::TreePending {
                message: message@,
            },
            Transaction::TipPending { message, tree } => TransactionView::TipPending {
                message: message@,
                tree: tree@,
            },
            Transaction::CommitPending => TransactionView::CommitPending,
        }
    }
}

/// Where a transaction stands after a step.
#[derive(Debug, PartialEq, Eq)]
pub enum Progress {
    /// The transaction goes on: perform `request` and report its outcome to
    /// `state`.
    Next { state: Transaction, request: Request },
    /// The transaction is over, with the identifier of the new commit or the
    /// reason there is none.
    Finished(Result<ObjectId, TransactionError>),
}

/// A `Progress` with its texts and identifiers as sequences.
pub enum ProgressView {
    Next { state: TransactionView, request: RequestView },
    Finished(Result<Seq<u8>, TransactionFailure>),
}

impl View for Progress {
    type V = ProgressView;

    open spec fn view(&self) -> ProgressView {
        match self {
            Progress::Next { state, request } => ProgressView::Next {
                state: state@,
                request: request@,
            },
            Progress::Finished(Ok(id)) => ProgressView::Finished(Ok(id@)),
            Progress::Finished(Err(error)) => ProgressView::Finished(Err(error@)),
        }
    }
}

/// The cause reported where an operation that must name an object completed
/// without naming one.
pub const NO_IDENTIFIER: &'static str = "the repository returned no object identifier";

/// The operation whose outcome `state` is waiting for.
pub open spec fn awaited(state: TransactionView) -> Step {
    match state {
        TransactionView::Staging { .. } => Step::StageAll,
        TransactionView::IndexPending { .. } => Step::WriteIndex,
        TransactionView::TreePending { .. } => Step::WriteTree,
        TransactionView::TipPending { .. } => Step::ResolveTip,
        TransactionView::CommitPending => Step::CreateCommit,
    }
}

/// The error that a failure of `step` ends the transaction with.
pub open spec fn failure(step: Step, cause: Seq<char>) -> TransactionFailure {
    match step {
        Step::StageAll | Step::WriteIndex | Step::WriteTree => TransactionFailure::StagingError {
            step,
            cause,
        },
        Step::ResolveTip => TransactionFailure::RepositoryAccessError { cause },
        Step::CreateCommit => TransactionFailure::CommitCreationError { cause },
    }
}

/// The parents of the new commit: the tip of the branch alone, or none where
/// the branch has no commit yet.
pub open spec fn parents_of(tip: Option<Seq<u8>>) -> Seq<Seq<u8>> {
    match tip {
        Some(tip) => seq![tip],
        None => seq![],
    }
}

/// Where a transaction stands once the operation that `state` waits for has
/// completed, reporting `id`.
pub open spec fn completed(state: TransactionView, id: Option<Seq<u8>>) -> ProgressView {
    match state {
        TransactionView::Staging { message } => ProgressView::Next {
            state: TransactionView::IndexPending { message },
            request: RequestView::WriteIndex,
        },
        TransactionView::IndexPending { message } => ProgressView::Next {
            state: TransactionView::TreePending { message },
            request: RequestView::WriteTree,
        },
        TransactionView::TreePending { message } => match id {
            Some(tree) => ProgressView::Next {
                state: TransactionView::TipPending { message, tree },
                request: RequestView::ResolveTip,
            },
            None => ProgressView::Finished(Err(failure(Step::WriteTree, NO_IDENTIFIER@))),
        },
        TransactionView::TipPending { message, tree } => ProgressView::Next {
            state: TransactionView::CommitPending,
            request: RequestView::CreateCommit { message, tree, parents: parents_of(id) },
        },
        TransactionView::CommitPending => match id {
            Some(commit) => ProgressView::Finished(Ok(commit)),
            None => ProgressView::Finished(Err(failure(Step::CreateCommit, NO_IDENTIFIER@))),
        },
    }
}

/// Where a transaction stands once the operation that `state` waits for has
/// ended in `outcome`. A failure ends the transaction at once.
pub open spec fn advanced(state: TransactionView, outcome: OutcomeView) -> ProgressView {
    match outcome {
        OutcomeView::Failed(cause) => ProgressView::Finished(Err(failure(awaited(state), cause))),
        OutcomeView::Completed(id) => completed(state, id),
    }
}

/// Where a transaction for `message` starts, given the status list of the
/// working tree: with staging, or not at all where nothing has changed.
pub open spec fn begun(message: Seq<char>, statuses: Seq<u32>) -> ProgressView {
    if any_uncommitted(statuses) {
        ProgressView::Next {
            state: TransactionView::Staging { message },
            request: RequestView::StageAll,
        }
    } else {
        ProgressView::Finished(Err(TransactionFailure::NoChangesPrecondition))
    }
}

/// The error that ends a transaction whose operation `step` failed.
fn fail(step: Step, cause: String) -> (error: TransactionError)
    ensures
        error@ == failure(step, cause@),
{
    match step {
        Step::StageAll | Step::WriteIndex | Step::WriteTree => TransactionError::StagingError {
            step,
            cause,
        },
        Step::ResolveTip => TransactionError::RepositoryAccessError { cause },
        Step::CreateCommit => TransactionError::CommitCreationError { cause },
    }
}

/// The error that ends a transaction whose operation `step` named no object.
fn unnamed(step: Step) -> (error: TransactionError)
    ensures
        error@ == failure(step, NO_IDENTIFIER@),
{
    fail(step, NO_IDENTIFIER.to_owned())
}

impl Transaction {
    /// Opens a transaction that is to commit the working tree under
    /// `message`. `statuses` lists the status of each file of the working
    /// tree; where none of them shows a change, the transaction is refused
    /// and nothing is asked of the repository.
    pub fn begin(message: String, statuses: &Vec<u32>) -> (progress: Progress)
        ensures
            progress@ == begun(message@, statuses@),
    {
        if has_uncommitted_changes(statuses) {
            Progress::Next { state: Transaction::Staging { message }, request: Request::StageAll }
        } else {
            Progress::Finished(Err(TransactionError::NoChangesPrecondition))
        }
    }

    /// Takes the outcome of the operation that was asked for last and says
    /// what comes next.
    pub fn advance(self, outcome: Outcome) -> (progress: Progress)
        ensures
            progress@ == advanced(self@, outcome@),
    {
        let id = match outcome {
            Outcome::Failed(cause) => {
                let step = match self {
                    Transaction::Staging { .. } => Step::StageAll,
                    Transaction::IndexPending { .. } => Step::WriteIndex,
                    Transaction::TreePending { .. } => Step::WriteTree,
                    Transaction::TipPending { .. } => Step::ResolveTip,
                    Transaction::CommitPending => Step::CreateCommit,
                };
                return Progress::Finished(Err(fail(step, cause)));
            },
            Outcome::Completed(id) => id,
        };
        match self {
            Transaction::Staging { message } => Progress::Next {
                state: Transaction::IndexPending { message },
                request: Request::WriteIndex,
            },
            Transaction::IndexPending { message } => Progress::Next {
                state: Transaction::TreePending { message },
                request: Request::WriteTree,
            },
            Transaction::TreePending { message } => match id {
                Some(tree) => Progress::Next {
                    state: Transaction::TipPending { message, tree },
                    request: Request::ResolveTip,
                },
                None => Progress::Finished(Err(unnamed(Step::WriteTree))),
            },
            Transaction::TipPending { message, tree } => {
                let mut parents: Vec<ObjectId> = Vec::new();
                if let Some(tip) = id {
                    parents.push(tip);
                }
                assert(parents.deep_view() =~= parents_of(id.deep_view()));
                Progress::Next {
                    state: Transaction::CommitPending,
                    request: Request::CreateCommit { message, tree, parents },
                }
            },
            Transaction::CommitPending => match id {
                Some(commit) => Progress::Finished(Ok(commit)),
                None => Progress::Finished(Err(unnamed(Step::CreateCommit))),
            },
        }
    }
}

/// Where a transaction that stands at `start` ends up once the outcomes of
/// its requests have come in, in this order. A finished transaction asks for
/// nothing, so it takes no further outcome.
pub open spec fn run(start: ProgressView, outcomes: Seq<OutcomeView>) -> ProgressView
    decreases outcomes.len(),
{
    if outcomes.len() == 0 {
        start
    } else {
        match start {
            ProgressView::Finished(_) => start,
            ProgressView::Next { state, .. } => run(
                advanced(state, outcomes[0]),
                outcomes.drop_first(),
            ),
        }
    }
}

/// A working tree without changes is never touched: whatever is reported
/// afterwards, the transaction stands refused and has asked for nothing.
pub proof fn lemma_unchanged_tree_is_refused(
    message: Seq<char>,
    statuses: Seq<u32>,
    outcomes: Seq<OutcomeView>,
)
    requires
        !any_uncommitted(statuses),
    ensures
        run(begun(message, statuses), outcomes) == ProgressView::Finished(
            Err(TransactionFailure::NoChangesPrecondition),
        ),
{
}

/// The operation that is asked for after `done` operations have completed.
pub open spec fn step_at(done: int) -> Step {
    if done <= 0 {
        Step::StageAll
    } else if done == 1 {
        Step::WriteIndex
    } else if done == 2 {
        Step::WriteTree
    } else if done == 3 {
        Step::ResolveTip
    } else {
        Step::CreateCommit
    }
}

/// The first failure ends the transaction: where the outcomes before the
/// `i`-th all completed as they must and the `i`-th is a failure, the
/// transaction ends with the error of the operation that failed, carrying the
/// cause reported, and nothing that is reported later changes that.
pub proof fn lemma_first_failure_is_final(
    message: Seq<char>,
    statuses: Seq<u32>,
    outcomes: Seq<OutcomeView>,
    i: int,
)
    requires
        any_uncommitted(statuses),
        0 <= i < outcomes.len(),
        i < 5,
        forall|j: int| 0 <= j < i ==> outcomes[j] is Completed,
        i > 2 ==> outcomes[2] matches OutcomeView::Completed(Some(_)),
        outcomes[i] is Failed,
    ensures
        run(begun(message, statuses), outcomes) == ProgressView::Finished(
            Err(failure(step_at(i), outcomes[i]->Failed_0)),
        ),
{
    reveal_with_fuel(run, 6);
    let o1 = outcomes.drop_first();
    let o2 = o1.drop_first();
    let o3 = o2.drop_first();
    let o4 = o3.drop_first();
    if i >= 1 {
        assert(o1[0] == outcomes[1]);
    }
    if i >= 2 {
        assert(o2[0] == outcomes[2]);
    }
    if i >= 3 {
        assert(o3[0] == outcomes[3]);
    }
    if i >= 4 {
        assert(o4[0] == outcomes[4]);
    }
}

/// A commit is asked for only once everything before it has succeeded, and
/// then with the message the transaction was opened with, the tree that was
/// written, and the tip that was reported as its only parent (no parent where
/// the branch had no commit).
pub proof fn lemma_commit_request_follows_staging(
    message: Seq<char>,
    statuses: Seq<u32>,
    outcomes: Seq<OutcomeView>,
)
    requires
        run(begun(message, statuses), outcomes) matches ProgressView::Next {
            request: RequestView::CreateCommit { .. },
            ..
        },
    ensures
        any_uncommitted(statuses),
        outcomes.len() == 4,
        forall|j: int| 0 <= j < 4 ==> outcomes[j] is Completed,
        outcomes[2]->Completed_0 is Some,
        run(begun(message, statuses), outcomes) == (ProgressView::Next {
            state: TransactionView::CommitPending,
            request: RequestView::CreateCommit {
                message,
                tree: outcomes[2]->Completed_0.unwrap(),
                parents: parents_of(outcomes[3]->Completed_0),
            },
        }),
{
    reveal_with_fuel(run, 6);
    let o1 = outcomes.drop_first();
    let o2 = o1.drop_first();
    let o3 = o2.drop_first();
    let o4 = o3.drop_first();
    if outcomes.len() >= 2 {
        assert(o1[0] == outcomes[1]);
    }
    if outcomes.len() >= 3 {
        assert(o2[0] == outcomes[2]);
    }
    if outcomes.len() >= 4 {
        assert(o3[0] == outcomes[3]);
    }
    if outcomes.len() >= 5 {
        assert(o4[0] == outcomes[4]);
        assert(run(begun(message, statuses), outcomes) is Finished);
    }
}

/// A transaction ends with a commit only where all five operations
/// succeeded, and the identifier it ends with is the one that creating the
/// commit reported.
pub proof fn lemma_success_needs_every_step(
    message: Seq<char>,
    statuses: Seq<u32>,
    outcomes: Seq<OutcomeView>,
)
    requires
        run(begun(message, statuses), outcomes) matches ProgressView::Finished(Ok(_)),
    ensures
        any_uncommitted(statuses),
        outcomes.len() >= 5,
        forall|j: int| 0 <= j < 5 ==> outcomes[j] is Completed,
        run(begun(message, statuses), outcomes) == ProgressView::Finished(
            Ok(outcomes[4]->Completed_0.unwrap()),
        ),
        outcomes[4]->Completed_0 is Some,
{
    reveal_with_fuel(run, 6);
    let o1 = outcomes.drop_first();
    let o2 = o1.drop_first();
    let o3 = o2.drop_first();
    let o4 = o3.drop_first();
    if outcomes.len() >= 2 {
        assert(o1[0] == outcomes[1]);
    }
    if outcomes.len() >= 3 {
        assert(o2[0] == outcomes[2]);
    }
    if outcomes.len() >= 4 {
        assert(o3[0] == outcomes[3]);
    }
    if outcomes.len() >= 5 {
        assert(o4[0] == outcomes[4]);
    }
}

impl Step {
    /// What it means, in words, that this operation failed.
    pub open spec fn context_of(step: Step) -> Seq<char> {
        match step {
            Step::StageAll => "Failed to run `git add`"@,
            Step::WriteIndex => "Failed to write index from `git add`"@,
            Step::WriteTree => "Failed to write tree"@,
            Step::ResolveTip => "Failed to get HEAD"@,
            Step::CreateCommit => "Could not commit"@,
        }
    }

    /// What it means, in words, that this operation failed.
    pub fn context(self) -> (text: &'static str)
        ensures
            text@ == Self::context_of(self),
    {
        match self {
            Step::StageAll => "Failed to run `git add`",
            Step::WriteIndex => "Failed to write index from `git add`",
            Step::WriteTree => "Failed to write tree",
            Step::ResolveTip => "Failed to get HEAD",
            Step::CreateCommit => "Could not commit",
        }
    }
}

impl TransactionError {
    /// The operation that failed; none where the transaction was refused
    /// before it asked for any.
    pub open spec fn failed_step(failure: TransactionFailure) -> Option<Step> {
        match failure {
            TransactionFailure::NoChangesPrecondition => None,
            TransactionFailure::RepositoryAccessError { .. } => Some(Step::ResolveTip),
            TransactionFailure::StagingError { step, .. } => Some(step),
            TransactionFailure::CommitCreationError { .. } => Some(Step::CreateCommit),
        }
    }

    /// The cause that the repository gave; the empty text where the
    /// transaction was refused before it asked for anything.
    pub open spec fn cause_of(failure: TransactionFailure) -> Seq<char> {
        match failure {
            TransactionFailure::NoChangesPrecondition => Seq::empty(),
            TransactionFailure::RepositoryAccessError { cause } => cause,
            TransactionFailure::StagingError { cause, .. } => cause,
            TransactionFailure::CommitCreationError { cause } => cause,
        }
    }

    /// The error in words: what failed, a colon, and the cause given.
    pub open spec fn described(failure: TransactionFailure) -> Seq<char> {
        match Self::failed_step(failure) {
            None => "No uncommitted changes found"@,
            Some(step) => Step::context_of(step) + ": "@ + Self::cause_of(failure),
        }
    }

    /// The error in words.
    pub fn describe(&self) -> (text: String)
        ensures
            text@ == Self::described(self@),
    {
        let (step, cause) = match self {
            TransactionError::NoChangesPrecondition => {
                return String::from_str("No uncommitted changes found");
            },
            TransactionError::RepositoryAccessError { cause } => (Step::ResolveTip, cause),
            TransactionError::StagingError { step, cause } => (*step, cause),
            TransactionError::CommitCreationError { cause } => (Step::CreateCommit, cause),
        };
        let mut text = String::from_str(step.context());
        text.append(": ");
        text.append(cause.as_str());
        text
    }
}

} // verus!
