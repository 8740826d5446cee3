use crate::db::types::{Store, Tx};
use vstd::prelude::*;

verus! {

/// Opens a transaction: it starts from the committed state and writes to a
/// copy of it.
pub fn begin_transaction(store: &Store) -> (tx: Tx)
    ensures
        tx@ == store@,
        store@.wf(),
{
    store.begin()
}

/// Commits the transaction: what it wrote becomes the store's state. A
/// transaction that is dropped instead leaves the store as it was.
pub fn commit_transaction(tx: Tx, store: &mut Store)
    ensures
        final(store)@ == tx@,
        final(store)@.wf(),
{
    store.commit(tx);
}

} // verus!
