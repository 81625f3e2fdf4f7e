//! The transaction executor as a state machine. The caller performs each
//! action against the store (acquire a connection, `START TRANSACTION`, the
//! statement, `SELECT LAST_INSERT_ID()`, `COMMIT` or `ROLLBACK`) and hands
//! back what happened; the machine decides what comes next and how the
//! transaction ends.
use vstd::prelude::*;

use crate::errors::PersistenceError;

verus! {

/// The statement that a transaction runs.
#[derive(Debug, Clone, Copy, PartialEq, Eq, Structural)]
pub enum StatementKind {
    /// A multi-row insert of `rows` records; the first generated id is read
    /// after it, on the same connection, before the commit.
    Insert { rows: u64 },
    /// A delete, whose affected-row count is reported.
    Delete,
}

/// How a transaction ended when no hard error came up.
#[derive(Debug, Clone, Copy, PartialEq, Eq, Structural)]
pub enum TxnOutcome {
    /// The statement ran and was committed. For an insert, `first_id` is the
    /// first generated id; for a delete it is 0.
    Applied { affected: u64, first_id: u32 },
    /// The statement failed, or its ids could not be reported, and the
    /// transaction was rolled back.
    RolledBack,
}

#[derive(Debug, Clone, Copy, PartialEq, Eq)]
pub enum TxnState {
    Connecting,
    Beginning,
    Executing,
    ReadingInsertId { affected: u64 },
    Committing { outcome: TxnOutcome },
    RollingBack,
    Finished { result: Result<TxnOutcome, PersistenceError> },
}

/// What the caller must do next.
#[derive(Debug, Clone, Copy, PartialEq, Eq, Structural)]
pub enum TxnAction {
    AcquireConnection,
    StartTransaction,
    ExecuteStatement,
    ReadInsertId,
    Commit,
    Rollback,
    Stop,
}

/// What happened when the caller performed an action.
#[derive(Debug, Clone, Copy, PartialEq, Eq, Structural)]
pub enum TxnEvent {
    /// The connection was acquired, or the transaction control statement
    /// succeeded.
    Done,
    /// The action failed.
    Failed,
    /// The statement ran and changed `affected` rows.
    Executed { affected: u64 },
    /// The first generated id was read; `None` when the query failed, which
    /// is read as id 0.
    InsertIdRead { id: Option<u32> },
}

pub open spec fn action_of(state: TxnState) -> TxnAction {
    match state {
        TxnState::Connecting => TxnAction::AcquireConnection,
        TxnState::Beginning => TxnAction::StartTransaction,
        TxnState::Executing => TxnAction::ExecuteStatement,
        TxnState::ReadingInsertId { .. } => TxnAction::ReadInsertId,
        TxnState::Committing { .. } => TxnAction::Commit,
        TxnState::RollingBack => TxnAction::Rollback,
        TxnState::Finished { .. } => TxnAction::Stop,
    }
}

/// Whether `rows` ids from `first` on all fit in a `u32`.
pub open spec fn ids_fit(first: u32, rows: u64) -> bool {
    first + rows <= 0x1_0000_0000
}

/// The transition table. An event that does not answer the pending action
/// leaves the state as it is.
pub open spec fn next_state(kind: StatementKind, state: TxnState, ev: TxnEvent) -> TxnState {
    match (state, ev) {
        (TxnState::Connecting, TxnEvent::Done) => TxnState::Beginning,
        (TxnState::Connecting, TxnEvent::Failed) => TxnState::Finished {
            result: Err(PersistenceError::DBConnError),
        },
        (TxnState::Beginning, TxnEvent::Done) => TxnState::Executing,
        (TxnState::Beginning, TxnEvent::Failed) => TxnState::Finished {
            result: Err(PersistenceError::TransactionStartError),
        },
        (TxnState::Executing, TxnEvent::Executed { affected }) => match kind {
            StatementKind::Insert { .. } => TxnState::ReadingInsertId { affected },
            StatementKind::Delete => TxnState::Committing {
                outcome: TxnOutcome::Applied { affected, first_id: 0 },
            },
        },
        (TxnState::Executing, TxnEvent::Failed) => TxnState::RollingBack,
        (TxnState::ReadingInsertId { affected }, TxnEvent::InsertIdRead { id }) => {
            let first: u32 = match id {
                Some(v) => v,
                None => 0,
            };
            match kind {
                StatementKind::Insert { rows } => if ids_fit(first, rows) {
                    TxnState::Committing { outcome: TxnOutcome::Applied { affected, first_id: first } }
                } else {
                    TxnState::RollingBack
                },
                StatementKind::Delete => TxnState::Committing {
                    outcome: TxnOutcome::Applied { affected, first_id: first },
                },
            }
        },
        (TxnState::Committing { outcome }, TxnEvent::Done) => TxnState::Finished {
            result: Ok(outcome),
        },
        (TxnState::Committing { .. }, TxnEvent::Failed) => TxnState::Finished {
            result: Err(PersistenceError::CommitError),
        },
        (TxnState::RollingBack, TxnEvent::Done) => TxnState::Finished {
            result: Ok(TxnOutcome::RolledBack),
        },
        (TxnState::RollingBack, TxnEvent::Failed) => TxnState::Finished {
            result: Err(PersistenceError::RollbackError),
        },
        _ => state,
    }
}

/// One transaction around one statement.
#[derive(Debug, Clone, Copy, PartialEq, Eq)]
pub struct Transaction {
    pub kind: StatementKind,
    pub state: TxnState,
}

impl Transaction {
    /// A transaction that has not acquired its connection yet.
    pub fn new(kind: StatementKind) -> (r: Transaction)
        ensures
            r.kind == kind,
            r.state == TxnState::Connecting,
    {
        Transaction { kind, state: TxnState::Connecting }
    }

    /// The action that the current state asks for.
    pub fn action(&self) -> (r: TxnAction)
        ensures
            r == action_of(self.state),
    {
        match self.state {
            TxnState::Connecting => TxnAction::AcquireConnection,
            TxnState::Beginning => TxnAction::StartTransaction,
            TxnState::Executing => TxnAction::ExecuteStatement,
            TxnState::ReadingInsertId { .. } => TxnAction::ReadInsertId,
            TxnState::Committing { .. } => TxnAction::Commit,
            TxnState::RollingBack => TxnAction::Rollback,
            TxnState::Finished { .. } => TxnAction::Stop,
        }
    }

    /// Takes in what the last action led to, and returns the next action.
    pub fn step(&mut self, ev: TxnEvent) -> (r: TxnAction)
        ensures
            final(self).kind == old(self).kind,
            final(self).state == next_state(old(self).kind, old(self).state, ev),
            r == action_of(final(self).state),
    {
        let next = match (self.state, ev) {
            (TxnState::Connecting, TxnEvent::Done) => TxnState::Beginning,
            (TxnState::Connecting, TxnEvent::Failed) => TxnState::Finished {
                result: Err(PersistenceError::DBConnError),
            },
            (TxnState::Beginning, TxnEvent::Done) => TxnState::Executing,
            (TxnState::Beginning, TxnEvent::Failed) => TxnState::Finished {
                result: Err(PersistenceError::TransactionStartError),
            },
            (TxnState::Executing, TxnEvent::Executed { affected }) => match self.kind {
                StatementKind::Insert { .. } => TxnState::ReadingInsertId { affected },
                StatementKind::Delete => TxnState::Committing {
                    outcome: TxnOutcome::Applied { affected, first_id: 0 },
                },
            },
            (TxnState::Executing, TxnEvent::Failed) => TxnState::RollingBack,
            (TxnState::ReadingInsertId { affected }, TxnEvent::InsertIdRead { id }) => {
                let first: u32 = match id {
                    Some(v) => v,
                    None => 0,
                };
                match self.kind {
                    StatementKind::Insert { rows } => {
                        if rows <= 0x1_0000_0000u64 - first as u64 {
                            TxnState::Committing {
                                outcome: TxnOutcome::Applied { affected, first_id: first },
                            }
                        } else {
                            TxnState::RollingBack
                        }
                    },
                    StatementKind::Delete => TxnState::Committing {
                        outcome: TxnOutcome::Applied { affected, first_id: first },
                    },
                }
            },
            (TxnState::Committing { outcome }, TxnEvent::Done) => TxnState::Finished {
                result: Ok(outcome),
            },
            (TxnState::Committing { .. }, TxnEvent::Failed) => TxnState::Finished {
                result: Err(PersistenceError::CommitError),
            },
            (TxnState::RollingBack, TxnEvent::Done) => TxnState::Finished {
                result: Ok(TxnOutcome::RolledBack),
            },
            (TxnState::RollingBack, TxnEvent::Failed) => TxnState::Finished {
                result: Err(PersistenceError::RollbackError),
            },
            (state, _) => state,
        };
        self.state = next;
        self.action()
    }

    /// How the transaction ended, once it has.
    pub fn result(&self) -> (r: Option<Result<TxnOutcome, PersistenceError>>)
        ensures
            r == (match self.state {
                TxnState::Finished { result } => Some(result),
                _ => None,
            }),
    {
        match self.state {
            TxnState::Finished { result } => Some(result),
            _ => None,
        }
    }
}

} // verus!
