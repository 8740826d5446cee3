//! The tables of the store, kept in memory, and the transaction that works
//! on a copy of them.

use crate::db::model::{StoreState, SubscriptionRow};
use crate::domain::subscription_status::SubscriptionStatus;
use vstd::prelude::*;

verus! {

/// A subscription as the store hands it out.
#[derive(Debug)]
pub struct SubscriptionRecord {
    pub id: u128,
    pub email: String,
    pub name: String,
    pub status: SubscriptionStatus,
    pub subscribed_at: i64,
}

impl View for SubscriptionRecord {
    type V = SubscriptionRow;

    open spec fn view(&self) -> SubscriptionRow {
        SubscriptionRow {
            id: self.id,
            email: self.email@,
            name: self.name@,
            status: self.status,
            subscribed_at: self.subscribed_at,
        }
    }
}

impl Clone for SubscriptionRecord {
    fn clone(&self) -> (copy: Self)
        ensures
            copy@ == self@,
    {
        SubscriptionRecord {
            id: self.id,
            email: self.email.clone(),
            name: self.name.clone(),
            status: self.status,
            subscribed_at: self.subscribed_at,
        }
    }
}

/// An outstanding confirmation token and the subscription it belongs to.
struct TokenRecord {
    token: String,
    subscriber_id: u128,
}

/// Why the store refused a write.
#[derive(Debug, PartialEq, Eq, Clone, Copy, Structural)]
pub enum StorageError {
    /// The token is outstanding already.
    TokenTaken,
    /// No subscription has the identifier that the token was to belong to.
    UnknownSubscriber,
}

/// Whether no two rows share an address or an identifier.
spec fn distinct_subscriptions(rows: Seq<SubscriptionRecord>) -> bool {
    forall|i: int, j: int|
        0 <= i < rows.len() && 0 <= j < rows.len() && i != j ==> (#[trigger] rows[i]).email@ != (
        #[trigger] rows[j]).email@ && rows[i].id != rows[j].id
}

/// Whether no two rows hold the same token.
spec fn distinct_tokens(tokens: Seq<TokenRecord>) -> bool {
    forall|i: int, j: int|
        0 <= i < tokens.len() && 0 <= j < tokens.len() && i != j ==> (#[trigger] tokens[i]).token@
            != (#[trigger] tokens[j]).token@
}

/// Whether one of the rows has the identifier `id`.
spec fn knows_id(rows: Seq<SubscriptionRecord>, id: u128) -> bool {
    exists|i: int| 0 <= i < rows.len() && (#[trigger] rows[i]).id == id
}

/// Whether every token belongs to one of the rows.
spec fn tokens_owned(tokens: Seq<TokenRecord>, rows: Seq<SubscriptionRecord>) -> bool {
    forall|t: int| 0 <= t < tokens.len() ==> knows_id(rows, (#[trigger] tokens[t]).subscriber_id)
}

/// Whether `map` files exactly the rows, each under its address.
spec fn files_subscriptions(
    rows: Seq<SubscriptionRecord>,
    map: Map<Seq<char>, SubscriptionRow>,
) -> bool {
    &&& forall|i: int|
        0 <= i < rows.len() ==> map.contains_key((#[trigger] rows[i]).email@) && map[rows[i].email@]
            == rows[i]@
    &&& forall|email: Seq<char>| #[trigger]
        map.contains_key(email) ==> exists|i: int|
            0 <= i < rows.len() && (#[trigger] rows[i]).email@ == email
}

/// Whether `map` files exactly the token rows, each under its token.
spec fn files_tokens(tokens: Seq<TokenRecord>, map: Map<Seq<char>, u128>) -> bool {
    &&& forall|i: int|
        0 <= i < tokens.len() ==> map.contains_key((#[trigger] tokens[i]).token@)
            && map[tokens[i].token@] == tokens[i].subscriber_id
    &&& forall|token: Seq<char>| #[trigger]
        map.contains_key(token) ==> exists|i: int|
            0 <= i < tokens.len() && (#[trigger] tokens[i]).token@ == token
}

/// The subscriptions of the rows, by address.
spec fn subscriptions_map(rows: Seq<SubscriptionRecord>) -> Map<
    Seq<char>,
    SubscriptionRow,
> {
    Map::new(
        |email: Seq<char>| exists|i: int| 0 <= i < rows.len() && (#[trigger] rows[i]).email@ == email,
        |email: Seq<char>|
            rows[choose|i: int| 0 <= i < rows.len() && (#[trigger] rows[i]).email@ == email]@,
    )
}

/// The owners of the tokens, by token.
spec fn tokens_map(tokens: Seq<TokenRecord>) -> Map<Seq<char>, u128> {
    Map::new(
        |token: Seq<char>|
            exists|i: int| 0 <= i < tokens.len() && (#[trigger] tokens[i]).token@ == token,
        |token: Seq<char>|
            tokens[choose|i: int| 0 <= i < tokens.len() && (#[trigger] tokens[i]).token@
                == token].subscriber_id,
    )
}

/// Distinct rows are filed by `subscriptions_map`, in a finite map.
proof fn lemma_subscriptions_map(rows: Seq<SubscriptionRecord>)
    requires
        distinct_subscriptions(rows),
    ensures
        files_subscriptions(rows, subscriptions_map(rows)),
        subscriptions_map(rows).dom().finite(),
        subscriptions_map(rows).dom().len() == rows.len(),
{
    let map = subscriptions_map(rows);
    assert forall|i: int| 0 <= i < rows.len() implies map.contains_key(
        (#[trigger] rows[i]).email@,
    ) && map[rows[i].email@] == rows[i]@ by {
        let email = rows[i].email@;
        let j = choose|j: int| 0 <= j < rows.len() && (#[trigger] rows[j]).email@ == email;
        assert(j == i);
    }
    let emails = rows.map_values(|r: SubscriptionRecord| r.email@);
    assert(map.dom() =~= emails.to_set()) by {
        assert forall|email: Seq<char>| map.dom().contains(email) implies emails.to_set().contains(
            email,
        ) by {
            let i = choose|i: int| 0 <= i < rows.len() && (#[trigger] rows[i]).email@ == email;
            assert(emails[i] == email);
        }
        assert forall|email: Seq<char>| emails.to_set().contains(email) implies map.dom().contains(
            email,
        ) by {
            let i = choose|i: int| 0 <= i < emails.len() && emails[i] == email;
            assert(rows[i].email@ == email);
        }
    }
    vstd::seq_lib::seq_to_set_is_finite(emails);
    assert(emails.no_duplicates()) by {
        assert forall|i: int, j: int|
            0 <= i < emails.len() && 0 <= j < emails.len() && i != j implies emails[i]
            != emails[j] by {
            assert(rows[i].email@ != rows[j].email@);
        }
    }
    emails.unique_seq_to_set();
}

/// Distinct token rows are filed by `tokens_map`, in a finite map.
proof fn lemma_tokens_map(tokens: Seq<TokenRecord>)
    requires
        distinct_tokens(tokens),
    ensures
        files_tokens(tokens, tokens_map(tokens)),
        tokens_map(tokens).dom().finite(),
        tokens_map(tokens).dom().len() == tokens.len(),
{
    let map = tokens_map(tokens);
    assert forall|i: int| 0 <= i < tokens.len() implies map.contains_key(
        (#[trigger] tokens[i]).token@,
    ) && map[tokens[i].token@] == tokens[i].subscriber_id by {
        let token = tokens[i].token@;
        let j = choose|j: int| 0 <= j < tokens.len() && (#[trigger] tokens[j]).token@ == token;
        assert(j == i);
    }
    let texts = tokens.map_values(|r: TokenRecord| r.token@);
    assert(map.dom() =~= texts.to_set()) by {
        assert forall|token: Seq<char>| map.dom().contains(token) implies texts.to_set().contains(
            token,
        ) by {
            let i = choose|i: int| 0 <= i < tokens.len() && (#[trigger] tokens[i]).token@ == token;
            assert(texts[i] == token);
        }
        assert forall|token: Seq<char>| texts.to_set().contains(token) implies map.dom().contains(
            token,
        ) by {
            let i = choose|i: int| 0 <= i < texts.len() && texts[i] == token;
            assert(tokens[i].token@ == token);
        }
    }
    vstd::seq_lib::seq_to_set_is_finite(texts);
    assert(texts.no_duplicates()) by {
        assert forall|i: int, j: int|
            0 <= i < texts.len() && 0 <= j < texts.len() && i != j implies texts[i]
            != texts[j] by {
            assert(tokens[i].token@ != tokens[j].token@);
        }
    }
    texts.unique_seq_to_set();
}

/// Two maps that file the same rows are the same map.
proof fn lemma_files_subscriptions_unique(
    rows: Seq<SubscriptionRecord>,
    a: Map<Seq<char>, SubscriptionRow>,
    b: Map<Seq<char>, SubscriptionRow>,
)
    requires
        files_subscriptions(rows, a),
        files_subscriptions(rows, b),
    ensures
        a == b,
{
    assert forall|email: Seq<char>| a.contains_key(email) == b.contains_key(email) && (
    a.contains_key(email) ==> a[email] == b[email]) by {
        if a.contains_key(email) {
            let i = choose|i: int| 0 <= i < rows.len() && (#[trigger] rows[i]).email@ == email;
            assert(b.contains_key(rows[i].email@));
        }
        if b.contains_key(email) {
            let i = choose|i: int| 0 <= i < rows.len() && (#[trigger] rows[i]).email@ == email;
            assert(a.contains_key(rows[i].email@));
        }
    }
    assert(a =~= b);
}

/// Two maps that file the same token rows are the same map.
proof fn lemma_files_tokens_unique(
    tokens: Seq<TokenRecord>,
    a: Map<Seq<char>, u128>,
    b: Map<Seq<char>, u128>,
)
    requires
        files_tokens(tokens, a),
        files_tokens(tokens, b),
    ensures
        a == b,
{
    assert forall|token: Seq<char>| a.contains_key(token) == b.contains_key(token) && (
    a.contains_key(token) ==> a[token] == b[token]) by {
        if a.contains_key(token) {
            let i = choose|i: int| 0 <= i < tokens.len() && (#[trigger] tokens[i]).token@ == token;
            assert(b.contains_key(tokens[i].token@));
        }
        if b.contains_key(token) {
            let i = choose|i: int| 0 <= i < tokens.len() && (#[trigger] tokens[i]).token@ == token;
            assert(a.contains_key(tokens[i].token@));
        }
    }
    assert(a =~= b);
}

/// The tables of the store: the subscriptions, of which no two share an
/// address or an identifier, and the outstanding tokens, of which no two are
/// the same and each belongs to a subscription.
pub struct Tables {
    subscriptions: Vec<SubscriptionRecord>,
    tokens: Vec<TokenRecord>,
}

impl View for Tables {
    type V = StoreState;

    closed spec fn view(&self) -> StoreState {
        StoreState {
            subscriptions: subscriptions_map(self.subscriptions@),
            tokens: tokens_map(self.tokens@),
        }
    }
}

impl Tables {
    #[verifier::type_invariant]
    spec fn consistent(self) -> bool {
        &&& distinct_subscriptions(self.subscriptions@)
        &&& distinct_tokens(self.tokens@)
        &&& tokens_owned(self.tokens@, self.subscriptions@)
    }

    proof fn lemma_view(self)
        requires
            self.consistent(),
        ensures
            files_subscriptions(self.subscriptions@, self@.subscriptions),
            files_tokens(self.tokens@, self@.tokens),
            self@.wf(),
            forall|id: u128| self@.id_in_use(id) <==> knows_id(self.subscriptions@, id),
    {
        lemma_subscriptions_map(self.subscriptions@);
        lemma_tokens_map(self.tokens@);
        let rows = self.subscriptions@;
        let state = self@;
        assert forall|id: u128| state.id_in_use(id) <==> knows_id(rows, id) by {
            if state.id_in_use(id) {
                let email = choose|email: Seq<char>|
                    state.subscriptions.contains_key(email) && (
                    #[trigger] state.subscriptions[email]).id == id;
                let i = choose|i: int| 0 <= i < rows.len() && (#[trigger] rows[i]).email@ == email;
                assert(rows[i].id == id);
            }
            if knows_id(rows, id) {
                let i = choose|i: int| 0 <= i < rows.len() && (#[trigger] rows[i]).id == id;
                assert(state.subscriptions.contains_key(rows[i].email@));
                assert(state.subscriptions[rows[i].email@].id == id);
            }
        }
        assert forall|a: Seq<char>, b: Seq<char>|
            state.subscriptions.contains_key(a) && state.subscriptions.contains_key(b) && (
            #[trigger] state.subscriptions[a]).id == (#[trigger] state.subscriptions[b]).id implies a
            == b by {
            let i = choose|i: int| 0 <= i < rows.len() && (#[trigger] rows[i]).email@ == a;
            let j = choose|j: int| 0 <= j < rows.len() && (#[trigger] rows[j]).email@ == b;
            assert(i == j);
        }
        assert forall|token: Seq<char>| state.tokens.contains_key(token) implies state.id_in_use(
            #[trigger] state.tokens[token],
        ) by {
            let t = choose|t: int|
                0 <= t < self.tokens.len() && (#[trigger] self.tokens[t]).token@ == token;
            assert(state.tokens[self.tokens[t].token@] == self.tokens[t].subscriber_id);
            assert(knows_id(rows, self.tokens[t].subscriber_id));
        }
        assert forall|email: Seq<char>| state.subscriptions.contains_key(email) implies (
        #[trigger] state.subscriptions[email]).email == email by {
            let i = choose|i: int| 0 <= i < rows.len() && (#[trigger] rows[i]).email@ == email;
            assert(state.subscriptions[rows[i].email@] == rows[i]@);
        }
    }

    /// Tables that hold nothing.
    pub fn new() -> (tables: Tables)
        ensures
            tables@ == StoreState::empty(),
            tables@.wf(),
    {
        let tables = Tables { subscriptions: Vec::new(), tokens: Vec::new() };
        proof {
            assert(tables@.subscriptions =~= Map::empty());
            assert(tables@.tokens =~= Map::empty());
        }
        tables
    }

    /// The subscription filed under `email`, if there is one.
    #[verifier::loop_isolation(false)]
    pub(crate) fn fetch_subscription_by_email(&self, email: &str) -> (found: Option<SubscriptionRecord>)
        ensures
            self@.wf(),
            match found {
                Some(record) => self@.record_for(email@) == Some(record@),
                None => self@.record_for(email@) is None,
            },
    {
        proof {
            use_type_invariant(&*self);
            self.lemma_view();
        }
        let needle = email.to_owned();
        let mut i: usize = 0;
        while i < self.subscriptions.len()
            invariant
                i <= self.subscriptions.len(),
                needle@ == email@,
                forall|j: int| 0 <= j < i ==> (#[trigger] self.subscriptions[j]).email@ != email@,
            decreases self.subscriptions.len() - i,
        {
            if self.subscriptions[i].email == needle {
                return Some(self.subscriptions[i].clone());
            }
            i += 1;
        }
        None
    }
}

impl Tables {
    /// The subscription that `token` belongs to, if the token is outstanding.
    #[verifier::loop_isolation(false)]
    pub(crate) fn fetch_subscription_id_by_token(&self, token: &str) -> (owner: Option<u128>)
        ensures
            self@.wf(),
            owner == self@.owner_of(token@),
    {
        proof {
            use_type_invariant(&*self);
            self.lemma_view();
        }
        let needle = token.to_owned();
        let mut i: usize = 0;
        while i < self.tokens.len()
            invariant
                i <= self.tokens.len(),
                forall|j: int| 0 <= j < i ==> (#[trigger] self.tokens[j]).token@ != token@,
            decreases self.tokens.len() - i,
        {
            if self.tokens[i].token == needle {
                return Some(self.tokens[i].subscriber_id);
            }
            i += 1;
        }
        None
    }

    /// Adds `record`, unless its address or its identifier is taken: then
    /// nothing happens.
    #[verifier::loop_isolation(false)]
    pub(crate) fn insert(&mut self, record: SubscriptionRecord)
        ensures
            final(self)@ == old(self)@.inserted(record@),
            final(self)@.wf(),
    {
        proof {
            use_type_invariant(&*self);
            self.lemma_view();
            crate::db::model::lemma_inserted_wf(self@, record@);
        }
        let mut i: usize = 0;
        while i < self.subscriptions.len()
            invariant
                i <= self.subscriptions.len(),
                *self == *old(self),
                forall|j: int|
                    0 <= j < i ==> (#[trigger] self.subscriptions[j]).email@ != record.email@
                        && self.subscriptions[j].id != record.id,
            decreases self.subscriptions.len() - i,
        {
            if self.subscriptions[i].email == record.email || self.subscriptions[i].id == record.id {
                proof {
                    let row = self.subscriptions[i as int];
                    assert(self@.subscriptions.contains_key(row.email@));
                    assert(self@.subscriptions[row.email@].id == row.id);
                    assert(!self@.admits(record@));
                }
                return ;
            }
            i += 1;
        }
        let ghost before = self.subscriptions@;
        let ghost expected = self@.subscriptions.insert(record.email@, record@);
        proof {
            assert(self@.admits(record@));
            assert(distinct_subscriptions(before.push(record)));
            assert(tokens_owned(self.tokens@, before.push(record))) by {
                assert forall|t: int| 0 <= t < self.tokens.len() implies knows_id(
                    before.push(record),
                    (#[trigger] self.tokens[t]).subscriber_id,
                ) by {
                    let k = choose|k: int|
                        0 <= k < before.len() && (#[trigger] before[k]).id
                            == self.tokens[t].subscriber_id;
                    assert(before.push(record)[k].id == self.tokens[t].subscriber_id);
                }
            }
            assert(files_subscriptions(before.push(record), expected)) by {
                assert forall|k: int| 0 <= k < before.push(record).len() implies expected.contains_key(
                    (#[trigger] before.push(record)[k]).email@,
                ) && expected[before.push(record)[k].email@] == before.push(record)[k]@ by {
                    if k < before.len() {
                        assert(before.push(record)[k] == before[k]);
                    }
                }
                assert forall|email: Seq<char>| #[trigger]
                    expected.contains_key(email) implies exists|k: int|
                    0 <= k < before.push(record).len() && (#[trigger] before.push(record)[k]).email@
                        == email by {
                    if email == record.email@ {
                        assert(before.push(record)[before.len() as int].email@ == email);
                    } else {
                        let k = choose|k: int|
                            0 <= k < before.len() && (#[trigger] before[k]).email@ == email;
                        assert(before.push(record)[k].email@ == email);
                    }
                }
            }
            lemma_subscriptions_map(before.push(record));
            lemma_files_subscriptions_unique(
                before.push(record),
                expected,
                subscriptions_map(before.push(record)),
            );
        }
        let mut tokens: Vec<TokenRecord> = Vec::new();
        std::mem::swap(&mut tokens, &mut self.tokens);
        let mut subscriptions: Vec<SubscriptionRecord> = Vec::new();
        std::mem::swap(&mut subscriptions, &mut self.subscriptions);
        subscriptions.push(record);
        self.subscriptions = subscriptions;
        self.tokens = tokens;
    }
}

impl Tables {
    /// Overwrites the status of the subscription `id`. Nothing happens where
    /// no subscription has that identifier.
    #[verifier::loop_isolation(false)]
    pub(crate) fn update_status(&mut self, id: u128, status: SubscriptionStatus)
        ensures
            final(self)@ == old(self)@.with_status(id, status),
            final(self)@.wf(),
    {
        proof {
            use_type_invariant(&*self);
            self.lemma_view();
            crate::db::model::lemma_with_status_wf(self@, id, status);
        }
        let ghost before = self.subscriptions@;
        let ghost expected = self@.with_status(id, status).subscriptions;
        let mut i: usize = 0;
        while i < self.subscriptions.len()
            invariant
                i <= self.subscriptions.len(),
                *self == *old(self),
                forall|j: int| 0 <= j < i ==> (#[trigger] self.subscriptions[j]).id != id,
            decreases self.subscriptions.len() - i,
        {
            if self.subscriptions[i].id == id {
                let mut record = self.subscriptions[i].clone();
                record.status = status;
                let ghost after = before.update(i as int, record);
                proof {
                    assert(record@ == before[i as int]@.with_status(status));
                    assert(distinct_subscriptions(after)) by {
                        assert forall|a: int, b: int|
                            0 <= a < after.len() && 0 <= b < after.len() && a != b implies (
                        #[trigger] after[a]).email@ != (#[trigger] after[b]).email@ && after[a].id
                            != after[b].id by {
                            assert(after[a].email@ == before[a].email@ && after[a].id
                                == before[a].id);
                            assert(after[b].email@ == before[b].email@ && after[b].id
                                == before[b].id);
                        }
                    }
                    assert(tokens_owned(self.tokens@, after)) by {
                        assert forall|t: int| 0 <= t < self.tokens.len() implies knows_id(
                            after,
                            (#[trigger] self.tokens[t]).subscriber_id,
                        ) by {
                            let k = choose|k: int|
                                0 <= k < before.len() && (#[trigger] before[k]).id
                                    == self.tokens[t].subscriber_id;
                            assert(after[k].id == before[k].id);
                        }
                    }
                    assert(files_subscriptions(after, expected)) by {
                        assert forall|k: int| 0 <= k < after.len() implies expected.contains_key(
                            (#[trigger] after[k]).email@,
                        ) && expected[after[k].email@] == after[k]@ by {
                            assert(after[k].email@ == before[k].email@);
                            assert(self@.subscriptions[before[k].email@] == before[k]@);
                            if k != i {
                                assert(after[k] == before[k]);
                                assert(before[k].id != before[i as int].id);
                            }
                        }
                        assert forall|email: Seq<char>| #[trigger]
                            expected.contains_key(email) implies exists|k: int|
                            0 <= k < after.len() && (#[trigger] after[k]).email@ == email by {
                            let k = choose|k: int|
                                0 <= k < before.len() && (#[trigger] before[k]).email@ == email;
                            assert(after[k].email@ == email);
                        }
                    }
                    lemma_subscriptions_map(after);
                    lemma_files_subscriptions_unique(after, expected, subscriptions_map(after));
                }
                let mut tokens: Vec<TokenRecord> = Vec::new();
                std::mem::swap(&mut tokens, &mut self.tokens);
                let mut subscriptions: Vec<SubscriptionRecord> = Vec::new();
                std::mem::swap(&mut subscriptions, &mut self.subscriptions);
                subscriptions.set(i, record);
                self.subscriptions = subscriptions;
                self.tokens = tokens;
                return ;
            }
            i += 1;
        }
        proof {
            assert(files_subscriptions(before, expected)) by {
                assert forall|k: int| 0 <= k < before.len() implies expected.contains_key(
                    (#[trigger] before[k]).email@,
                ) && expected[before[k].email@] == before[k]@ by {
                    assert(self@.subscriptions[before[k].email@] == before[k]@);
                }
            }
            lemma_files_subscriptions_unique(before, expected, self@.subscriptions);
        }
    }

    /// Makes `token` outstanding for the subscription `id`. The store
    /// refuses a token that is outstanding already, and one for a
    /// subscription that does not exist; then nothing changes.
    #[verifier::loop_isolation(false)]
    pub(crate) fn store_token(&mut self, id: u128, token: String) -> (stored: Result<(), StorageError>)
        ensures
            final(self)@.wf(),
            stored == old(self)@.token_verdict(token@, id),
            stored is Ok ==> final(self)@ == old(self)@.with_token(token@, id),
            stored is Err ==> final(self)@ == old(self)@,
    {
        proof {
            use_type_invariant(&*self);
            self.lemma_view();
        }
        let mut t: usize = 0;
        while t < self.tokens.len()
            invariant
                t <= self.tokens.len(),
                *self == *old(self),
                forall|j: int| 0 <= j < t ==> (#[trigger] self.tokens[j]).token@ != token@,
            decreases self.tokens.len() - t,
        {
            if self.tokens[t].token == token {
                return Err(StorageError::TokenTaken);
            }
            t += 1;
        }
        let mut i: usize = 0;
        let mut known = false;
        while i < self.subscriptions.len()
            invariant
                i <= self.subscriptions.len(),
                *self == *old(self),
                known <==> knows_id(self.subscriptions@.take(i as int), id),
            decreases self.subscriptions.len() - i,
        {
            proof {
                let shorter = self.subscriptions@.take(i as int);
                let longer = self.subscriptions@.take(i + 1);
                if knows_id(shorter, id) {
                    let j = choose|j: int| 0 <= j < shorter.len() && (#[trigger] shorter[j]).id == id;
                    assert(longer[j].id == id);
                }
                if knows_id(longer, id) && self.subscriptions[i as int].id != id {
                    let j = choose|j: int| 0 <= j < longer.len() && (#[trigger] longer[j]).id == id;
                    assert(shorter[j].id == id);
                }
                if self.subscriptions[i as int].id == id {
                    assert(longer[i as int].id == id);
                }
            }
            if self.subscriptions[i].id == id {
                known = true;
            }
            i += 1;
        }
        proof {
            assert(self.subscriptions@.take(i as int) == self.subscriptions@);
        }
        if !known {
            return Err(StorageError::UnknownSubscriber);
        }
        let record = TokenRecord { token, subscriber_id: id };
        let ghost before = self.tokens@;
        let ghost after = before.push(record);
        let ghost expected = self@.tokens.insert(record.token@, id);
        proof {
            crate::db::model::lemma_with_token_wf(self@, record.token@, id);
            assert(distinct_tokens(after));
            assert(tokens_owned(after, self.subscriptions@)) by {
                assert forall|k: int| 0 <= k < after.len() implies knows_id(
                    self.subscriptions@,
                    (#[trigger] after[k]).subscriber_id,
                ) by {
                    if k < before.len() {
                        assert(after[k] == before[k]);
                    }
                }
            }
            assert(files_tokens(after, expected)) by {
                assert forall|k: int| 0 <= k < after.len() implies expected.contains_key(
                    (#[trigger] after[k]).token@,
                ) && expected[after[k].token@] == after[k].subscriber_id by {
                    if k < before.len() {
                        assert(after[k] == before[k]);
                    }
                }
                assert forall|text: Seq<char>| #[trigger]
                    expected.contains_key(text) implies exists|k: int|
                    0 <= k < after.len() && (#[trigger] after[k]).token@ == text by {
                    if text == record.token@ {
                        assert(after[before.len() as int].token@ == text);
                    } else {
                        let k = choose|k: int|
                            0 <= k < before.len() && (#[trigger] before[k]).token@ == text;
                        assert(after[k].token@ == text);
                    }
                }
            }
            lemma_tokens_map(after);
            lemma_files_tokens_unique(after, expected, tokens_map(after));
        }
        let mut tokens: Vec<TokenRecord> = Vec::new();
        std::mem::swap(&mut tokens, &mut self.tokens);
        tokens.push(record);
        self.tokens = tokens;
        Ok(())
    }

    /// Deletes `token`. Nothing happens where it is not outstanding.
    #[verifier::loop_isolation(false)]
    pub(crate) fn delete_token(&mut self, token: &str)
        ensures
            final(self)@ == old(self)@.without_token(token@),
            final(self)@.wf(),
    {
        proof {
            use_type_invariant(&*self);
            self.lemma_view();
            crate::db::model::lemma_without_token_wf(self@, token@);
        }
        let needle = token.to_owned();
        let ghost before = self.tokens@;
        let ghost expected = self@.tokens.remove(token@);
        let mut t: usize = 0;
        while t < self.tokens.len()
            invariant
                t <= self.tokens.len(),
                *self == *old(self),
                forall|j: int| 0 <= j < t ==> (#[trigger] self.tokens[j]).token@ != token@,
            decreases self.tokens.len() - t,
        {
            if self.tokens[t].token == needle {
                let ghost after = before.remove(t as int);
                proof {
                    assert forall|k: int| 0 <= k < after.len() implies #[trigger] after[k]
                        == before[if k < t { k } else { k + 1 }] by {}
                    assert(distinct_tokens(after)) by {
                        assert forall|a: int, b: int|
                            0 <= a < after.len() && 0 <= b < after.len() && a != b implies (
                        #[trigger] after[a]).token@ != (#[trigger] after[b]).token@ by {
                            let a0 = if a < t { a } else { a + 1 };
                            let b0 = if b < t { b } else { b + 1 };
                            assert(after[a] == before[a0] && after[b] == before[b0]);
                        }
                    }
                    assert(tokens_owned(after, self.subscriptions@)) by {
                        assert forall|k: int| 0 <= k < after.len() implies knows_id(
                            self.subscriptions@,
                            (#[trigger] after[k]).subscriber_id,
                        ) by {
                            let k0 = if k < t { k } else { k + 1 };
                            assert(after[k] == before[k0]);
                        }
                    }
                    assert(files_tokens(after, expected)) by {
                        assert forall|k: int| 0 <= k < after.len() implies expected.contains_key(
                            (#[trigger] after[k]).token@,
                        ) && expected[after[k].token@] == after[k].subscriber_id by {
                            let k0 = if k < t { k } else { k + 1 };
                            assert(after[k] == before[k0]);
                            assert(before[k0].token@ != before[t as int].token@);
                        }
                        assert forall|text: Seq<char>| #[trigger]
                            expected.contains_key(text) implies exists|k: int|
                            0 <= k < after.len() && (#[trigger] after[k]).token@ == text by {
                            let k0 = choose|k0: int|
                                0 <= k0 < before.len() && (#[trigger] before[k0]).token@ == text;
                            let k = if k0 < t { k0 } else { k0 - 1 };
                            assert(after[k] == before[k0]);
                        }
                    }
                    lemma_tokens_map(after);
                    lemma_files_tokens_unique(after, expected, tokens_map(after));
                }
                let mut tokens: Vec<TokenRecord> = Vec::new();
                std::mem::swap(&mut tokens, &mut self.tokens);
                let _ = tokens.remove(t);
                self.tokens = tokens;
                return ;
            }
            t += 1;
        }
        proof {
            assert(!self@.tokens.contains_key(token@));
            assert(expected =~= self@.tokens);
        }
    }
}

impl Tables {
    /// A copy of the tables.
    #[verifier::loop_isolation(false)]
    pub(crate) fn snapshot(&self) -> (copy: Tables)
        ensures
            copy@ == self@,
    {
        let mut subscriptions: Vec<SubscriptionRecord> = Vec::new();
        let mut i: usize = 0;
        while i < self.subscriptions.len()
            invariant
                i <= self.subscriptions.len(),
                subscriptions.len() == i,
                forall|j: int| 0 <= j < i ==> (#[trigger] subscriptions[j])@ == self.subscriptions[j]@,
            decreases self.subscriptions.len() - i,
        {
            subscriptions.push(self.subscriptions[i].clone());
            i += 1;
        }
        let mut tokens: Vec<TokenRecord> = Vec::new();
        let mut t: usize = 0;
        while t < self.tokens.len()
            invariant
                t <= self.tokens.len(),
                tokens.len() == t,
                forall|j: int|
                    0 <= j < t ==> (#[trigger] tokens[j]).token@ == self.tokens[j].token@
                        && tokens[j].subscriber_id == self.tokens[j].subscriber_id,
            decreases self.tokens.len() - t,
        {
            tokens.push(
                TokenRecord {
                    token: self.tokens[t].token.clone(),
                    subscriber_id: self.tokens[t].subscriber_id,
                },
            );
            t += 1;
        }
        proof {
            use_type_invariant(self);
            self.lemma_view();
            assert(distinct_subscriptions(subscriptions@)) by {
                assert forall|a: int, b: int|
                    0 <= a < subscriptions.len() && 0 <= b < subscriptions.len() && a
                        != b implies (#[trigger] subscriptions[a]).email@ != (
                #[trigger] subscriptions[b]).email@ && subscriptions[a].id
                    != subscriptions[b].id by {
                    assert(subscriptions[a]@ == self.subscriptions[a]@);
                    assert(subscriptions[b]@ == self.subscriptions[b]@);
                }
            }
            assert(distinct_tokens(tokens@)) by {
                assert forall|a: int, b: int|
                    0 <= a < tokens.len() && 0 <= b < tokens.len() && a != b implies (
                #[trigger] tokens[a]).token@ != (#[trigger] tokens[b]).token@ by {
                    assert(tokens[a].token@ == self.tokens[a].token@);
                    assert(tokens[b].token@ == self.tokens[b].token@);
                }
            }
            assert(tokens_owned(tokens@, subscriptions@)) by {
                assert forall|k: int| 0 <= k < tokens.len() implies knows_id(
                    subscriptions@,
                    (#[trigger] tokens[k]).subscriber_id,
                ) by {
                    assert(knows_id(self.subscriptions@, self.tokens[k].subscriber_id));
                    let r = choose|r: int|
                        0 <= r < self.subscriptions.len() && (#[trigger] self.subscriptions[r]).id
                            == self.tokens[k].subscriber_id;
                    assert(subscriptions[r]@ == self.subscriptions[r]@);
                }
            }
            assert(files_subscriptions(subscriptions@, self@.subscriptions)) by {
                assert forall|k: int|
                    0 <= k < subscriptions.len() implies self@.subscriptions.contains_key(
                    (#[trigger] subscriptions[k]).email@,
                ) && self@.subscriptions[subscriptions[k].email@] == subscriptions[k]@ by {
                    assert(subscriptions[k]@ == self.subscriptions[k]@);
                }
                assert forall|email: Seq<char>| #[trigger]
                    self@.subscriptions.contains_key(email) implies exists|k: int|
                    0 <= k < subscriptions.len() && (#[trigger] subscriptions[k]).email@
                        == email by {
                    let k = choose|k: int|
                        0 <= k < self.subscriptions.len() && (#[trigger] self.subscriptions[k]).email@
                            == email;
                    assert(subscriptions[k]@ == self.subscriptions[k]@);
                }
            }
            assert(files_tokens(tokens@, self@.tokens)) by {
                assert forall|k: int| 0 <= k < tokens.len() implies self@.tokens.contains_key(
                    (#[trigger] tokens[k]).token@,
                ) && self@.tokens[tokens[k].token@] == tokens[k].subscriber_id by {
                    assert(tokens[k].token@ == self.tokens[k].token@);
                }
                assert forall|text: Seq<char>| #[trigger]
                    self@.tokens.contains_key(text) implies exists|k: int|
                    0 <= k < tokens.len() && (#[trigger] tokens[k]).token@ == text by {
                    let k = choose|k: int|
                        0 <= k < self.tokens.len() && (#[trigger] self.tokens[k]).token@ == text;
                    assert(tokens[k].token@ == self.tokens[k].token@);
                }
            }
        }
        let copy = Tables { subscriptions, tokens };
        proof {
            copy.lemma_view();
            lemma_files_subscriptions_unique(
                copy.subscriptions@,
                self@.subscriptions,
                copy@.subscriptions,
            );
            lemma_files_tokens_unique(copy.tokens@, self@.tokens, copy@.tokens);
        }
        copy
    }

    /// How many subscriptions the tables hold.
    pub fn subscription_count(&self) -> (count: usize)
        ensures
            count == self@.subscriptions.dom().len(),
    {
        proof {
            use_type_invariant(self);
            lemma_subscriptions_map(self.subscriptions@);
        }
        self.subscriptions.len()
    }

    /// How many tokens are outstanding.
    pub fn token_count(&self) -> (count: usize)
        ensures
            count == self@.tokens.dom().len(),
    {
        proof {
            use_type_invariant(self);
            lemma_tokens_map(self.tokens@);
        }
        self.tokens.len()
    }
}

/// The store: the tables as the last commit left them.
pub struct Store {
    committed: Tables,
}

impl View for Store {
    type V = StoreState;

    closed spec fn view(&self) -> StoreState {
        self.committed@
    }
}

impl Store {
    /// A store that holds nothing.
    pub fn new() -> (store: Store)
        ensures
            store@ == StoreState::empty(),
            store@.wf(),
    {
        Store { committed: Tables::new() }
    }

    /// The committed tables, to read from.
    pub fn executor(&self) -> (tables: &Tables)
        ensures
            tables@ == self@,
            self@.wf(),
    {
        proof {
            use_type_invariant(&self.committed);
            self.committed.lemma_view();
        }
        &self.committed
    }

    /// A transaction on a copy of the committed tables.
    pub(crate) fn begin(&self) -> (tx: Tx)
        ensures
            tx@ == self@,
            tx@.wf(),
    {
        let working = self.committed.snapshot();
        proof {
            use_type_invariant(&working);
            working.lemma_view();
        }
        Tx { working }
    }

    /// Makes what the transaction wrote the committed state.
    pub(crate) fn commit(&mut self, tx: Tx)
        ensures
            final(self)@ == tx@,
            final(self)@.wf(),
    {
        proof {
            use_type_invariant(&tx.working);
            tx.working.lemma_view();
        }
        self.committed = tx.working;
    }
}

/// A transaction: a working copy of the tables, which a commit makes the
/// store's state and which is forgotten otherwise.
pub struct Tx {
    working: Tables,
}

impl View for Tx {
    type V = StoreState;

    closed spec fn view(&self) -> StoreState {
        self.working@
    }
}

impl Tx {
    /// The working copy, to read from.
    pub fn executor(&self) -> (tables: &Tables)
        ensures
            tables@ == self@,
            self@.wf(),
    {
        proof {
            use_type_invariant(&self.working);
            self.working.lemma_view();
        }
        &self.working
    }

    /// Adds `record` to the working copy, unless its address or its
    /// identifier is taken.
    pub(crate) fn insert(&mut self, record: SubscriptionRecord)
        ensures
            final(self)@ == old(self)@.inserted(record@),
    {
        self.working.insert(record);
    }

    /// Overwrites the status of the subscription `id` in the working copy.
    pub(crate) fn update_status(&mut self, id: u128, status: SubscriptionStatus)
        ensures
            final(self)@ == old(self)@.with_status(id, status),
    {
        self.working.update_status(id, status);
    }

    /// Makes `token` outstanding for the subscription `id` in the working
    /// copy, where the store accepts it.
    pub(crate) fn store_token(&mut self, id: u128, token: String) -> (stored: Result<
        (),
        StorageError,
    >)
        ensures
            stored == old(self)@.token_verdict(token@, id),
            stored is Ok ==> final(self)@ == old(self)@.with_token(token@, id),
            stored is Err ==> final(self)@ == old(self)@,
    {
        self.working.store_token(id, token)
    }

    /// Deletes `token` from the working copy.
    pub(crate) fn delete_token(&mut self, token: &str)
        ensures
            final(self)@ == old(self)@.without_token(token@),
    {
        self.working.delete_token(token);
    }
}

} // verus!
