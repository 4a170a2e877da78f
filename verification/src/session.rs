//! What a session records of the transaction that it is in, and how a
//! transaction moves from one state to the next.

use vstd::prelude::*;
use vstd::string::StringExecFns;
use crate::pairs::same_text;
use crate::row::{updates_view, Update};
use crate::strings::{format_int, int_text};
use crate::table::UpdateV;

verus! {

/// The identifier of a stored collection.
#[derive(Clone, Copy, Debug, PartialEq, Eq, Structural, Hash)]
pub enum GlobalId {
    /// A collection of the system.
    System(u64),
    /// A collection of a user.
    User(u64),
}

/// An insertion that waits to be committed.
#[derive(Debug, PartialEq)]
pub struct WriteOp {
    /// The table written to.
    pub id: GlobalId,
    /// The rows, each with the number of times it is added.
    pub rows: Vec<Update>,
}

/// What a transaction has done so far. Reads and writes do not mix in one
/// transaction.
#[derive(Debug, PartialEq)]
pub enum TransactionOps {
    /// Nothing yet.
    Nothing,
    /// Reads at a time; only reads may follow.
    Peeks(u64),
    /// A subscription; nothing may follow.
    Tail,
    /// Writes; only writes may follow.
    Writes(Vec<WriteOp>),
}

/// How a transaction ends.
#[derive(Clone, Copy, Debug, PartialEq, Eq, Structural)]
pub enum EndTransactionAction {
    /// The transaction is committed.
    Commit,
    /// The transaction is rolled back.
    Rollback,
}

impl EndTransactionAction {
    /// The tag that the wire protocol reports for the action.
    pub open spec fn tag_spec(self) -> Seq<char> {
        match self {
            EndTransactionAction::Commit => "COMMIT"@,
            EndTransactionAction::Rollback => "ROLLBACK"@,
        }
    }

    /// The tag that the wire protocol reports for the action.
    pub fn tag(&self) -> (r: &'static str)
        ensures
            r@ == self.tag_spec(),
    {
        match self {
            EndTransactionAction::Commit => "COMMIT",
            EndTransactionAction::Rollback => "ROLLBACK",
        }
    }
}

/// The view of an insertion: its table and its rows.
pub struct WriteOpV {
    pub id: GlobalId,
    pub rows: Seq<UpdateV>,
}

/// The views of insertions.
pub open spec fn writes_view(w: Seq<WriteOp>) -> Seq<WriteOpV> {
    Seq::new(w.len(), |i: int| WriteOpV { id: w[i].id, rows: updates_view(w[i].rows@) })
}

/// The view of what a transaction has done.
pub enum TransactionOpsV {
    Nothing,
    Peeks(u64),
    Tail,
    Writes(Seq<WriteOpV>),
}

impl View for TransactionOps {
    type V = TransactionOpsV;

    open spec fn view(&self) -> TransactionOpsV {
        match self {
            TransactionOps::Nothing => TransactionOpsV::Nothing,
            TransactionOps::Peeks(t) => TransactionOpsV::Peeks(*t),
            TransactionOps::Tail => TransactionOpsV::Tail,
            TransactionOps::Writes(w) => TransactionOpsV::Writes(writes_view(w@)),
        }
    }
}

/// Why operations cannot be added to a transaction.
#[derive(Clone, Copy, Debug, PartialEq, Eq, Structural)]
pub enum OpsError {
    /// The transaction has read and can only read.
    ReadOnlyTransaction,
    /// The transaction has subscribed and can do nothing else.
    TailOnlyTransaction,
    /// The transaction has written and can only write.
    WriteOnlyTransaction,
}

/// What a transaction has done with more operations added: anything after
/// nothing; reads at the same time after reads; writes after writes,
/// appended. Everything else is an error.
pub open spec fn merged_ops(ops: TransactionOpsV, add: TransactionOpsV) -> Result<TransactionOpsV, OpsError> {
    match ops {
        TransactionOpsV::Nothing => Ok(add),
        TransactionOpsV::Peeks(t) => if add is Peeks {
            Ok(ops)
        } else {
            Err(OpsError::ReadOnlyTransaction)
        },
        TransactionOpsV::Tail => Err(OpsError::TailOnlyTransaction),
        TransactionOpsV::Writes(w) => match add {
            TransactionOpsV::Writes(more) => Ok(TransactionOpsV::Writes(w + more)),
            _ => Err(OpsError::WriteOnlyTransaction),
        },
    }
}

/// Whether operations may be offered to a transaction: reads after reads
/// are at the same time.
pub open spec fn may_add(ops: TransactionOpsV, add: TransactionOpsV) -> bool {
    ops is Peeks && add is Peeks ==> ops->Peeks_0 == add->Peeks_0
}

/// A transaction: the wall time at which it was planned, in milliseconds
/// since the epoch, and what it has done.
#[derive(Debug, PartialEq)]
pub struct Transaction {
    pub wall_time: i64,
    pub ops: TransactionOps,
}

/// The state of the transaction of a session.
#[derive(Debug, PartialEq)]
pub enum TransactionStatus {
    /// No transaction.
    Default,
    /// The transaction of a single statement.
    Started(Transaction),
    /// A transaction that was begun explicitly.
    InTransaction(Transaction),
    /// The transaction of several statements sent at once.
    InTransactionImplicit(Transaction),
    /// A transaction begun explicitly that has failed.
    Failed(Transaction),
}

impl TransactionStatus {
    /// The transaction of the state, where there is one.
    pub open spec fn txn(self) -> Option<Transaction> {
        match self {
            TransactionStatus::Default => None,
            TransactionStatus::Started(t) => Some(t),
            TransactionStatus::InTransaction(t) => Some(t),
            TransactionStatus::InTransactionImplicit(t) => Some(t),
            TransactionStatus::Failed(t) => Some(t),
        }
    }

    /// Whether a transaction is running that has not failed.
    pub open spec fn running(self) -> bool {
        self is Started || self is InTransaction || self is InTransactionImplicit
    }

    /// What the transaction has done, unless there is none or it failed.
    pub fn into_ops(self) -> (r: Option<TransactionOps>)
        ensures
            r is Some <==> self.running(),
            r is Some ==> r->0 == self.txn()->0.ops,
    {
        match self {
            TransactionStatus::Default | TransactionStatus::Failed(_) => None,
            TransactionStatus::Started(txn)
            | TransactionStatus::InTransaction(txn)
            | TransactionStatus::InTransactionImplicit(txn) => Some(txn.ops),
        }
    }

    /// The transaction, where there is one.
    pub fn inner(&self) -> (r: Option<&Transaction>)
        ensures
            r is Some <==> !(self is Default),
            r is Some ==> Some(*r->0) == self.txn(),
    {
        match self {
            TransactionStatus::Default => None,
            TransactionStatus::Started(txn)
            | TransactionStatus::InTransaction(txn)
            | TransactionStatus::InTransactionImplicit(txn)
            | TransactionStatus::Failed(txn) => Some(txn),
        }
    }

    /// Whether the transaction was started without being asked for.
    pub fn is_implicit(&self) -> (r: bool)
        ensures
            r == (self is Started || self is InTransactionImplicit),
    {
        match self {
            TransactionStatus::Started(_) | TransactionStatus::InTransactionImplicit(_) => true,
            TransactionStatus::Default | TransactionStatus::InTransaction(_) | TransactionStatus::Failed(_) => false,
        }
    }

    /// The state after a transaction is begun explicitly: a new
    /// transaction, unless several statements already run in one, which
    /// then becomes explicit, or one was begun before, which stays.
    pub fn start_transaction(self, wall_time: i64) -> (r: TransactionStatus)
        requires
            !(self is Failed),
        ensures
            r is InTransaction,
            self is Default || self is Started ==> r->InTransaction_0.wall_time == wall_time
                && r->InTransaction_0.ops@ is Nothing,
            self is InTransactionImplicit || self is InTransaction ==> Some(r->InTransaction_0) == self.txn(),
    {
        match self {
            TransactionStatus::Default | TransactionStatus::Started(_) => TransactionStatus::InTransaction(
                Transaction { wall_time, ops: TransactionOps::Nothing },
            ),
            TransactionStatus::InTransactionImplicit(txn) => TransactionStatus::InTransaction(txn),
            TransactionStatus::InTransaction(txn) => TransactionStatus::InTransaction(txn),
            TransactionStatus::Failed(txn) => TransactionStatus::Failed(txn),
        }
    }

    /// The state after statements arrive without a transaction: the
    /// transaction of one statement, or that of several; with no statement,
    /// or with a transaction there already, the state stays.
    pub fn start_transaction_implicit(self, wall_time: i64, stmts: usize) -> (r: TransactionStatus)
        ensures
            !(self is Default) || stmts == 0 ==> r == self,
            self is Default && stmts == 1 ==> r is Started && r->Started_0.wall_time == wall_time
                && r->Started_0.ops@ is Nothing,
            self is Default && stmts > 1 ==> r is InTransactionImplicit && r->InTransactionImplicit_0.wall_time
                == wall_time && r->InTransactionImplicit_0.ops@ is Nothing,
    {
        match self {
            TransactionStatus::Default => {
                if stmts == 1 {
                    TransactionStatus::Started(Transaction { wall_time, ops: TransactionOps::Nothing })
                } else if stmts > 1 {
                    TransactionStatus::InTransactionImplicit(Transaction { wall_time, ops: TransactionOps::Nothing })
                } else {
                    TransactionStatus::Default
                }
            },
            other => other,
        }
    }

    /// The state after the transaction fails.
    pub fn fail_transaction(self) -> (r: TransactionStatus)
        requires
            !(self is Default),
        ensures
            r is Failed,
            Some(r->Failed_0) == self.txn(),
    {
        match self {
            TransactionStatus::Default => TransactionStatus::Default,
            TransactionStatus::Started(txn)
            | TransactionStatus::InTransactionImplicit(txn)
            | TransactionStatus::InTransaction(txn) => TransactionStatus::Failed(txn),
            TransactionStatus::Failed(txn) => TransactionStatus::Failed(txn),
        }
    }

    /// Adds operations to the running transaction. Where they cannot be
    /// added the state stays as it is.
    pub fn add_transaction_ops(self, add_ops: TransactionOps) -> (r: (TransactionStatus, Result<(), OpsError>))
        requires
            self.running(),
            may_add(self.txn()->0.ops@, add_ops@),
        ensures
            r.0.running(),
            self is Started <==> r.0 is Started,
            self is InTransaction <==> r.0 is InTransaction,
            r.0.txn()->0.wall_time == self.txn()->0.wall_time,
            match merged_ops(self.txn()->0.ops@, add_ops@) {
                Ok(ops) => r.1 is Ok && r.0.txn()->0.ops@ == ops,
                Err(e) => r.1 == Err::<(), OpsError>(e) && r.0.txn()->0.ops@ == self.txn()->0.ops@,
            },
    {
        match self {
            TransactionStatus::Started(txn) => {
                let (txn, r) = add_to(txn, add_ops);
                (TransactionStatus::Started(txn), r)
            },
            TransactionStatus::InTransaction(txn) => {
                let (txn, r) = add_to(txn, add_ops);
                (TransactionStatus::InTransaction(txn), r)
            },
            TransactionStatus::InTransactionImplicit(txn) => {
                let (txn, r) = add_to(txn, add_ops);
                (TransactionStatus::InTransactionImplicit(txn), r)
            },
            other => (other, Ok(())),
        }
    }
}

/// A transaction with operations added; where they cannot be added, the
/// transaction as it was.
fn add_to(txn: Transaction, add_ops: TransactionOps) -> (r: (Transaction, Result<(), OpsError>))
    requires
        may_add(txn.ops@, add_ops@),
    ensures
        r.0.wall_time == txn.wall_time,
        match merged_ops(txn.ops@, add_ops@) {
            Ok(ops) => r.1 is Ok && r.0.ops@ == ops,
            Err(e) => r.1 == Err::<(), OpsError>(e) && r.0.ops@ == txn.ops@,
        },
{
    let Transaction { wall_time, ops } = txn;
    match ops {
        TransactionOps::Nothing => (Transaction { wall_time, ops: add_ops }, Ok(())),
        TransactionOps::Peeks(t) => match add_ops {
            TransactionOps::Peeks(_) => (Transaction { wall_time, ops: TransactionOps::Peeks(t) }, Ok(())),
            _ => (Transaction { wall_time, ops: TransactionOps::Peeks(t) }, Err(OpsError::ReadOnlyTransaction)),
        },
        TransactionOps::Tail => (Transaction { wall_time, ops: TransactionOps::Tail }, Err(
            OpsError::TailOnlyTransaction,
        )),
        TransactionOps::Writes(mut w) => match add_ops {
            TransactionOps::Writes(mut more) => {
                let ghost before = writes_view(w@);
                let ghost added = writes_view(more@);
                w.append(&mut more);
                assert(writes_view(w@) =~= before + added);
                (Transaction { wall_time, ops: TransactionOps::Writes(w) }, Ok(()))
            },
            _ => (Transaction { wall_time, ops: TransactionOps::Writes(w) }, Err(OpsError::WriteOnlyTransaction)),
        },
    }
}

impl TransactionStatus {
    /// The time at which the transaction reads, where it has read.
    pub open spec fn read_time(self) -> Option<u64> {
        match self.txn() {
            Some(t) => match t.ops {
                TransactionOps::Peeks(ts) => Some(ts),
                _ => None,
            },
            None => None,
        }
    }

    /// The time at which the transaction reads, where it has read. A
    /// transaction that has not read yet is given a time by the caller,
    /// who then adds the read to it.
    pub fn peek_timestamp(&self) -> (r: Option<u64>)
        ensures
            r == self.read_time(),
    {
        match self.inner() {
            Some(t) => match &t.ops {
                TransactionOps::Peeks(ts) => Some(*ts),
                _ => None,
            },
            None => None,
        }
    }
}

/// The views of texts.
pub open spec fn texts_view(v: Seq<String>) -> Seq<Seq<char>> {
    Seq::new(v.len(), |i: int| v[i]@)
}

/// Whether a name is among the names.
pub fn is_taken(taken: &Vec<String>, name: &str) -> (r: bool)
    ensures
        r == texts_view(taken@).contains(name@),
{
    let ghost names = texts_view(taken@);
    let mut i: usize = 0;
    while i < taken.len()
        invariant
            i <= taken@.len(),
            names == texts_view(taken@),
            forall|j: int| 0 <= j < i ==> names[j] != name@,
        decreases taken.len() - i,
    {
        if same_text(taken[i].as_str(), name) {
            assert(names[i as int] == name@);
            return true;
        }
        i += 1;
    }
    false
}

/// A portal cannot be bound under a name that another portal has.
#[derive(Debug, PartialEq, Eq)]
pub struct DuplicateCursor(pub String);

/// Whether a portal may be bound under a name: the portal without a name
/// is replaced silently, and any other name must be free.
pub fn check_portal_name(taken: &Vec<String>, portal_name: &str) -> (r: Result<(), DuplicateCursor>)
    ensures
        r is Err <==> portal_name@.len() > 0 && texts_view(taken@).contains(portal_name@),
        r is Err ==> (r->Err_0).0@ == portal_name@,
{
    if portal_name.unicode_len() > 0 && is_taken(taken, portal_name) {
        Err(DuplicateCursor(portal_name.to_owned()))
    } else {
        Ok(())
    }
}

/// The name of the `i`th portal that was made without a name.
pub open spec fn unnamed_portal(i: int) -> Seq<char> {
    "<unnamed portal "@ + int_text(i) + ">"@
}

/// The name of the `i`th portal that was made without a name.
pub fn portal_name(i: usize) -> (r: String)
    requires
        i < i64::MAX,
    ensures
        r@ == unnamed_portal(i as int),
{
    let mut name = String::new();
    name.append("<unnamed portal ");
    name.append(format_int(i as i64).as_str());
    name.append(">");
    assert(name@ =~= unnamed_portal(i as int));
    name
}

/// The name of a portal that is made without one: the first of the names
/// `<unnamed portal 0>`, `<unnamed portal 1>` and so on that is free.
/// Nothing where none of the first names, one more than there are names
/// taken, is free.
pub fn new_portal_name(taken: &Vec<String>) -> (r: Option<String>)
    requires
        taken@.len() < i64::MAX,
    ensures
        match r {
            Some(name) => exists|i: int|
                0 <= i <= taken@.len() && name@ == #[trigger] unnamed_portal(i) && !texts_view(taken@).contains(name@)
                    && forall|j: int| 0 <= j < i ==> texts_view(taken@).contains(#[trigger] unnamed_portal(j)),
            None => forall|j: int| 0 <= j <= taken@.len() ==> texts_view(taken@).contains(#[trigger] unnamed_portal(j)),
        },
{
    let mut i: usize = 0;
    while i < taken.len()
        invariant
            i <= taken@.len() < i64::MAX,
            forall|j: int| 0 <= j < i ==> texts_view(taken@).contains(#[trigger] unnamed_portal(j)),
        decreases taken.len() - i,
    {
        let name = portal_name(i);
        if !is_taken(taken, name.as_str()) {
            return Some(name);
        }
        i += 1;
    }
    let name = portal_name(i);
    if !is_taken(taken, name.as_str()) {
        Some(name)
    } else {
        None
    }
}

} // verus!
