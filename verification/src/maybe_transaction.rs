//! A transaction which may or may not have been opened yet. The wrapper
//! starts out holding a connection source and is promoted, at most once,
//! to holding an open transaction handle; committing consumes the wrapper,
//! so a caller that only borrows it can never end the transaction.
//!
//! Opening and committing perform database I/O and are therefore done by
//! the caller: the wrapper decides when an open is needed, records the
//! handle, hands it back out unchanged, and on commit releases it exactly
//! when one was opened.

use vstd::prelude::*;

verus! {

/// A transaction which may or may not have been opened.
pub enum MaybeTransaction<P, T> {
    /// Not yet started: holds the pooled-connection provider.
    Pool(P),
    /// Started: exclusively owns the open transaction handle.
    Transaction(T),
}

impl<P, T> MaybeTransaction<P, T> {
    /// Whether the wrapper already holds an open transaction.
    pub open spec fn is_open(self) -> bool {
        self is Transaction
    }

    /// Whether a transaction still has to be opened before [`Self::get`]
    /// can hand one out.
    pub fn needs_open(&self) -> (r: bool)
        ensures
            r == !self.is_open(),
    {
        match self {
            MaybeTransaction::Pool(_) => true,
            MaybeTransaction::Transaction(_) => false,
        }
    }

    /// The connection source against which a transaction is to be opened.
    pub fn pool(&self) -> (r: &P)
        requires
            !self.is_open(),
        ensures
            *r == self->Pool_0,
    {
        match self {
            MaybeTransaction::Pool(p) => p,
            MaybeTransaction::Transaction(_) => unreached(),
        }
    }

    /// Records a newly opened transaction. This is the only transition of
    /// the wrapper, and it requires that no transaction was opened before:
    /// at most one transaction is ever opened per wrapper.
    pub fn open(&mut self, transaction: T)
        requires
            !old(self).is_open(),
        ensures
            *final(self) == MaybeTransaction::<P, T>::Transaction(transaction),
    {
        *self = MaybeTransaction::Transaction(transaction);
    }

    /// The open transaction handle. Repeated calls return the same handle:
    /// the held transaction is never replaced, only mutated through the
    /// returned reference.
    pub fn get(&mut self) -> (r: &mut T)
        requires
            old(self).is_open(),
        ensures
            *r == old(self)->Transaction_0,
            *final(self) == MaybeTransaction::<P, T>::Transaction(*final(r)),
    {
        match self {
            MaybeTransaction::Transaction(t) => t,
            MaybeTransaction::Pool(_) => unreached(),
        }
    }

    /// Closes the wrapper. The transaction handle comes back exactly when
    /// one was opened, for the caller to commit; a wrapper on which no
    /// transaction was ever opened has nothing to commit.
    pub fn commit(self) -> (r: Option<T>)
        ensures
            self.is_open() ==> r == Some(self->Transaction_0),
            !self.is_open() ==> r is None,
    {
        match self {
            MaybeTransaction::Transaction(t) => Some(t),
            MaybeTransaction::Pool(_) => None,
        }
    }
}

} // verus!
