//! The subscription store as a mathematical value: what the store holds and
//! what each of its operations does to it.

use crate::db::types::StorageError;
use crate::domain::subscription_status::SubscriptionStatus;
use vstd::prelude::*;

verus! {

/// One subscription as the store holds it.
pub struct SubscriptionRow {
    pub id: u128,
    pub email: Seq<char>,
    pub name: Seq<char>,
    pub status: SubscriptionStatus,
    pub subscribed_at: i64,
}

impl SubscriptionRow {
    /// The same subscription with another status.
    pub open spec fn with_status(self, status: SubscriptionStatus) -> SubscriptionRow {
        SubscriptionRow { status, ..self }
    }
}

/// What the store holds: the subscriptions by email address, and the
/// outstanding confirmation tokens with the subscription each belongs to.
pub struct StoreState {
    pub subscriptions: Map<Seq<char>, SubscriptionRow>,
    pub tokens: Map<Seq<char>, u128>,
}

impl StoreState {
    /// The store that holds nothing.
    pub open spec fn empty() -> StoreState {
        StoreState { subscriptions: Map::empty(), tokens: Map::empty() }
    }

    /// Whether some subscription has the identifier `id`.
    pub open spec fn id_in_use(self, id: u128) -> bool {
        exists|email: Seq<char>|
            self.subscriptions.contains_key(email) && (#[trigger] self.subscriptions[email]).id
                == id
    }

    /// The store's integrity: finitely many rows, each subscription filed
    /// under its own address, no identifier shared by two subscriptions, and
    /// every token owned by a subscription that exists.
    pub open spec fn wf(self) -> bool {
        &&& self.subscriptions.dom().finite()
        &&& self.tokens.dom().finite()
        &&& forall|email: Seq<char>|
            self.subscriptions.contains_key(email) ==> (#[trigger] self.subscriptions[email]).email
                == email
        &&& forall|a: Seq<char>, b: Seq<char>|
            self.subscriptions.contains_key(a) && self.subscriptions.contains_key(b) && (
            #[trigger] self.subscriptions[a]).id == (#[trigger] self.subscriptions[b]).id ==> a
                == b
        &&& forall|token: Seq<char>|
            self.tokens.contains_key(token) ==> self.id_in_use(#[trigger] self.tokens[token])
    }

    /// The subscription filed under `email`, if there is one.
    pub open spec fn record_for(self, email: Seq<char>) -> Option<SubscriptionRow> {
        if self.subscriptions.contains_key(email) {
            Some(self.subscriptions[email])
        } else {
            None
        }
    }

    /// The subscription that `token` belongs to, if the token is outstanding.
    pub open spec fn owner_of(self, token: Seq<char>) -> Option<u128> {
        if self.tokens.contains_key(token) {
            Some(self.tokens[token])
        } else {
            None
        }
    }

    /// The outstanding tokens of the subscription `id`.
    pub open spec fn tokens_of(self, id: u128) -> Set<Seq<char>> {
        Set::new(|token: Seq<char>| self.tokens.contains_key(token) && self.tokens[token] == id)
    }

    /// Whether `row` can be added: neither its address nor its identifier is
    /// taken.
    pub open spec fn admits(self, row: SubscriptionRow) -> bool {
        !self.subscriptions.contains_key(row.email) && !self.id_in_use(row.id)
    }

    /// The store after an insert of `row`: the row is added where the store
    /// admits it, and nothing happens where it conflicts with a row.
    pub open spec fn inserted(self, row: SubscriptionRow) -> StoreState {
        if self.admits(row) {
            StoreState { subscriptions: self.subscriptions.insert(row.email, row), ..self }
        } else {
            self
        }
    }

    /// The store after the status of the subscription `id` is overwritten.
    /// Nothing changes where no subscription has that identifier.
    pub open spec fn with_status(self, id: u128, status: SubscriptionStatus) -> StoreState {
        StoreState {
            subscriptions: Map::new(
                |email: Seq<char>| self.subscriptions.contains_key(email),
                |email: Seq<char>|
                    if self.subscriptions[email].id == id {
                        self.subscriptions[email].with_status(status)
                    } else {
                        self.subscriptions[email]
                    },
            ),
            ..self
        }
    }

    /// What the store answers when `token` is to be stored for the
    /// subscription `id`: it refuses a token that is outstanding already,
    /// and one for a subscription that does not exist.
    pub open spec fn token_verdict(self, token: Seq<char>, id: u128) -> Result<(), StorageError> {
        if self.tokens.contains_key(token) {
            Err(StorageError::TokenTaken)
        } else if !self.id_in_use(id) {
            Err(StorageError::UnknownSubscriber)
        } else {
            Ok(())
        }
    }

    /// The store with `token` outstanding for the subscription `id`.
    pub open spec fn with_token(self, token: Seq<char>, id: u128) -> StoreState {
        StoreState { tokens: self.tokens.insert(token, id), ..self }
    }

    /// The store without `token`. Nothing changes where it is not outstanding.
    pub open spec fn without_token(self, token: Seq<char>) -> StoreState {
        StoreState { tokens: self.tokens.remove(token), ..self }
    }
}

/// An insert keeps the store well formed, whether it adds the row or not.
pub proof fn lemma_inserted_wf(s: StoreState, row: SubscriptionRow)
    requires
        s.wf(),
    ensures
        s.inserted(row).wf(),
{
    let t = s.inserted(row);
    if s.admits(row) {
        assert forall|token: Seq<char>| t.tokens.contains_key(token) implies t.id_in_use(
            #[trigger] t.tokens[token],
        ) by {
            let owner = choose|email: Seq<char>|
                s.subscriptions.contains_key(email) && (#[trigger] s.subscriptions[email]).id
                    == s.tokens[token];
            assert(t.subscriptions.contains_key(owner) && t.subscriptions[owner].id
                == t.tokens[token]);
        }
    }
}

/// Overwriting a status keeps the store well formed, and keeps every
/// identifier in use.
pub proof fn lemma_with_status_wf(s: StoreState, id: u128, status: SubscriptionStatus)
    requires
        s.wf(),
    ensures
        s.with_status(id, status).wf(),
        forall|other: u128| s.with_status(id, status).id_in_use(other) == s.id_in_use(other),
{
    let t = s.with_status(id, status);
    assert(t.subscriptions.dom() =~= s.subscriptions.dom());
    assert forall|other: u128| t.id_in_use(other) == s.id_in_use(other) by {
        if s.id_in_use(other) {
            let owner = choose|email: Seq<char>|
                s.subscriptions.contains_key(email) && (#[trigger] s.subscriptions[email]).id
                    == other;
            assert(t.subscriptions.contains_key(owner) && t.subscriptions[owner].id == other);
        }
        if t.id_in_use(other) {
            let owner = choose|email: Seq<char>|
                t.subscriptions.contains_key(email) && (#[trigger] t.subscriptions[email]).id
                    == other;
            assert(s.subscriptions.contains_key(owner) && s.subscriptions[owner].id == other);
        }
    }
    assert forall|a: Seq<char>, b: Seq<char>|
        t.subscriptions.contains_key(a) && t.subscriptions.contains_key(b) && (
        #[trigger] t.subscriptions[a]).id == (#[trigger] t.subscriptions[b]).id implies a
        == b by {
        assert(s.subscriptions[a].id == s.subscriptions[b].id);
    }
    assert forall|token: Seq<char>| t.tokens.contains_key(token) implies t.id_in_use(
        #[trigger] t.tokens[token],
    ) by {
        assert(s.id_in_use(s.tokens[token]));
    }
}

/// Storing a token that the store accepts keeps it well formed.
pub proof fn lemma_with_token_wf(s: StoreState, token: Seq<char>, id: u128)
    requires
        s.wf(),
        s.id_in_use(id),
    ensures
        s.with_token(token, id).wf(),
{
    let t = s.with_token(token, id);
    assert forall|other: u128| s.id_in_use(other) implies t.id_in_use(other) by {
        let owner = choose|email: Seq<char>|
            s.subscriptions.contains_key(email) && (#[trigger] s.subscriptions[email]).id
                == other;
        assert(t.subscriptions.contains_key(owner) && t.subscriptions[owner].id == other);
    }
    assert forall|k: Seq<char>| t.tokens.contains_key(k) implies t.id_in_use(
        #[trigger] t.tokens[k],
    ) by {
        if k != token {
            assert(s.id_in_use(s.tokens[k]));
        }
    }
}

/// Deleting a token keeps the store well formed.
pub proof fn lemma_without_token_wf(s: StoreState, token: Seq<char>)
    requires
        s.wf(),
    ensures
        s.without_token(token).wf(),
{
    let t = s.without_token(token);
    assert forall|k: Seq<char>| t.tokens.contains_key(k) implies t.id_in_use(
        #[trigger] t.tokens[k],
    ) by {
        assert(s.id_in_use(s.tokens[k]));
        let owner = choose|email: Seq<char>|
            s.subscriptions.contains_key(email) && (#[trigger] s.subscriptions[email]).id
                == s.tokens[k];
        assert(t.subscriptions.contains_key(owner) && t.subscriptions[owner].id == t.tokens[k]);
    }
}

} // verus!
