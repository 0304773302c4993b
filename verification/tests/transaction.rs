use commitment::{
    create_commit, has_uncommitted_changes, ObjectId, Outcome, Progress, Request, Step, Transaction,
    TransactionError,
};

fn id(byte: u8) -> ObjectId {
    ObjectId { bytes: vec![byte; 20] }
}

fn done() -> Outcome {
    Outcome::Completed(None)
}

fn failed(cause: &str) -> Outcome {
    Outcome::Failed(cause.to_string())
}

fn state_of(progress: Progress) -> Transaction {
    match progress {
        Progress::Next { state, .. } => state,
        Progress::Finished(result) => panic!("finished early: {:?}", result),
    }
}

fn started() -> Transaction {
    state_of(Transaction::begin("ABC-123 Add widget".to_string(), &vec![0, 128]))
}

fn tree_pending() -> Transaction {
    state_of(state_of(started().advance(done())).advance(done()))
}

fn tip_pending() -> Transaction {
    state_of(tree_pending().advance(Outcome::Completed(Some(id(7)))))
}

fn commit_pending() -> Transaction {
    state_of(tip_pending().advance(Outcome::Completed(Some(id(1)))))
}

#[test]
fn changes_are_any_status_but_current() {
    assert!(!has_uncommitted_changes(&vec![]));
    assert!(!has_uncommitted_changes(&vec![0]));
    assert!(!has_uncommitted_changes(&vec![0, 0, 0]));
    assert!(has_uncommitted_changes(&vec![1]));
    assert!(has_uncommitted_changes(&vec![0, 0, 128]));
    assert!(has_uncommitted_changes(&vec![256, 0]));
    assert!(has_uncommitted_changes(&vec![0, 16384, 0]));
    assert!(has_uncommitted_changes(&vec![u32::MAX]));
}

#[test]
fn unchanged_tree_is_refused() {
    assert_eq!(
        Transaction::begin("Message".to_string(), &vec![]),
        Progress::Finished(Err(TransactionError::NoChangesPrecondition))
    );
    assert_eq!(
        Transaction::begin("Message".to_string(), &vec![0, 0]),
        Progress::Finished(Err(TransactionError::NoChangesPrecondition))
    );
}

#[test]
fn changed_tree_is_staged_first() {
    assert_eq!(
        Transaction::begin("Message".to_string(), &vec![0, 128]),
        Progress::Next {
            state: Transaction::Staging { message: "Message".to_string() },
            request: Request::StageAll,
        }
    );
}

#[test]
fn operations_come_in_order() {
    let progress = started().advance(done());
    assert_eq!(
        progress,
        Progress::Next {
            state: Transaction::IndexPending { message: "ABC-123 Add widget".to_string() },
            request: Request::WriteIndex,
        }
    );
    let progress = state_of(progress).advance(done());
    assert_eq!(
        progress,
        Progress::Next {
            state: Transaction::TreePending { message: "ABC-123 Add widget".to_string() },
            request: Request::WriteTree,
        }
    );
    let progress = state_of(progress).advance(Outcome::Completed(Some(id(7))));
    assert_eq!(
        progress,
        Progress::Next {
            state: Transaction::TipPending {
                message: "ABC-123 Add widget".to_string(),
                tree: id(7),
            },
            request: Request::ResolveTip,
        }
    );
    let progress = state_of(progress).advance(Outcome::Completed(Some(id(1))));
    assert_eq!(
        progress,
        Progress::Next {
            state: Transaction::CommitPending,
            request: Request::CreateCommit {
                message: "ABC-123 Add widget".to_string(),
                tree: id(7),
                parents: vec![id(1)],
            },
        }
    );
    let progress = state_of(progress).advance(Outcome::Completed(Some(id(2))));
    assert_eq!(progress, Progress::Finished(Ok(id(2))));
}

#[test]
fn first_commit_has_no_parent() {
    assert_eq!(
        tip_pending().advance(Outcome::Completed(None)),
        Progress::Next {
            state: Transaction::CommitPending,
            request: Request::CreateCommit {
                message: "ABC-123 Add widget".to_string(),
                tree: id(7),
                parents: vec![],
            },
        }
    );
}

#[test]
fn identifier_reported_while_staging_is_ignored() {
    assert_eq!(
        started().advance(Outcome::Completed(Some(id(9)))),
        Progress::Next {
            state: Transaction::IndexPending { message: "ABC-123 Add widget".to_string() },
            request: Request::WriteIndex,
        }
    );
}

#[test]
fn failure_of_each_operation_ends_the_transaction() {
    assert_eq!(
        started().advance(failed("locked")),
        Progress::Finished(Err(TransactionError::StagingError {
            step: Step::StageAll,
            cause: "locked".to_string(),
        }))
    );
    assert_eq!(
        state_of(started().advance(done())).advance(failed("disk full")),
        Progress::Finished(Err(TransactionError::StagingError {
            step: Step::WriteIndex,
            cause: "disk full".to_string(),
        }))
    );
    assert_eq!(
        tree_pending().advance(failed("conflict")),
        Progress::Finished(Err(TransactionError::StagingError {
            step: Step::WriteTree,
            cause: "conflict".to_string(),
        }))
    );
    assert_eq!(
        tip_pending().advance(failed("broken reference")),
        Progress::Finished(Err(TransactionError::RepositoryAccessError {
            cause: "broken reference".to_string(),
        }))
    );
    assert_eq!(
        commit_pending().advance(failed("no signature")),
        Progress::Finished(Err(TransactionError::CommitCreationError {
            cause: "no signature".to_string(),
        }))
    );
}

#[test]
fn missing_identifier_is_a_failure() {
    assert_eq!(
        tree_pending().advance(done()),
        Progress::Finished(Err(TransactionError::StagingError {
            step: Step::WriteTree,
            cause: "the repository returned no object identifier".to_string(),
        }))
    );
    assert_eq!(
        commit_pending().advance(done()),
        Progress::Finished(Err(TransactionError::CommitCreationError {
            cause: "the repository returned no object identifier".to_string(),
        }))
    );
}

#[test]
fn transaction_errors_in_words() {
    assert_eq!(
        TransactionError::NoChangesPrecondition.describe(),
        "No uncommitted changes found"
    );
    assert_eq!(
        TransactionError::StagingError { step: Step::StageAll, cause: "locked".to_string() }
            .describe(),
        "Failed to run `git add`: locked"
    );
    assert_eq!(
        TransactionError::StagingError { step: Step::WriteIndex, cause: "full".to_string() }
            .describe(),
        "Failed to write index from `git add`: full"
    );
    assert_eq!(
        TransactionError::StagingError { step: Step::WriteTree, cause: "x".to_string() }
            .describe(),
        "Failed to write tree: x"
    );
    assert_eq!(
        TransactionError::RepositoryAccessError { cause: "gone".to_string() }.describe(),
        "Failed to get HEAD: gone"
    );
    assert_eq!(
        TransactionError::CommitCreationError { cause: "".to_string() }.describe(),
        "Could not commit: "
    );
}

#[test]
fn contexts_of_the_operations() {
    assert_eq!(Step::StageAll.context(), "Failed to run `git add`");
    assert_eq!(Step::WriteIndex.context(), "Failed to write index from `git add`");
    assert_eq!(Step::WriteTree.context(), "Failed to write tree");
    assert_eq!(Step::ResolveTip.context(), "Failed to get HEAD");
    assert_eq!(Step::CreateCommit.context(), "Could not commit");
}

#[test]
fn composed_message_reaches_the_commit() {
    let message = create_commit("ABC-123-feature", "add widget").unwrap();
    let mut progress = Transaction::begin(message, &vec![128, 0, 256]);
    let mut asked = Vec::new();
    let replies = vec![
        done(),
        done(),
        Outcome::Completed(Some(id(7))),
        Outcome::Completed(Some(id(1))),
        Outcome::Completed(Some(id(2))),
    ];
    for reply in replies {
        let (state, request) = match progress {
            Progress::Next { state, request } => (state, request),
            Progress::Finished(result) => panic!("finished early: {:?}", result),
        };
        asked.push(request);
        progress = state.advance(reply);
    }
    assert_eq!(progress, Progress::Finished(Ok(id(2))));
    assert_eq!(
        asked,
        vec![
            Request::StageAll,
            Request::WriteIndex,
            Request::WriteTree,
            Request::ResolveTip,
            Request::CreateCommit {
                message: "ABC-123 Add widget".to_string(),
                tree: id(7),
                parents: vec![id(1)],
            },
        ]
    );
}

#[test]
fn refused_message_never_reaches_the_repository() {
    assert!(create_commit("ABC-123", "DEF-456 Tail").is_err());
    assert!(create_commit("ABC-123", "").is_err());
}
