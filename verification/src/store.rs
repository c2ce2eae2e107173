//! The subscriber store: what the host program reports of it, and the store
//! itself kept in memory, which does what a store behind the routes must do.

use vstd::prelude::*;
use vstd::string::StringExecFns;

use crate::domain::subscriber::{ConfirmationToken, Subscriber, SubscriptionStatus};

verus! {

/// Why the store did not do what was asked of it.
#[derive(Clone, Copy, Debug, PartialEq, Eq, Structural)]
pub enum StoreError {
    /// The store could not be reached, or gave up.
    Unavailable,
    /// The store refused the write, as for a value that must be unique.
    Violated,
}

/// A stored subscriber, as a plain value.
pub struct Row {
    pub id: u128,
    pub email: Seq<char>,
    pub name: Seq<char>,
    pub subscribed_at: i64,
    pub status: SubscriptionStatus,
}

/// A stored token, as a plain value.
pub struct TokenRow {
    pub token: Seq<char>,
    pub subscriber_id: u128,
}

/// The row that stands for `subscriber`.
pub open spec fn row_of(subscriber: Subscriber) -> Row {
    Row {
        id: subscriber.id,
        email: subscriber.email@,
        name: subscriber.name@,
        subscribed_at: subscriber.subscribed_at,
        status: subscriber.status,
    }
}

/// The row that stands for `token`.
pub open spec fn token_row_of(token: ConfirmationToken) -> TokenRow {
    TokenRow { token: token.token@, subscriber_id: token.subscriber_id }
}

/// `row` as it is first stored: pending confirmation.
pub open spec fn pending_row(row: Row) -> Row {
    Row { status: SubscriptionStatus::PendingConfirmation, ..row }
}

/// `row` once confirmed: nothing but the status changes.
pub open spec fn confirmed_row(row: Row) -> Row {
    Row { status: SubscriptionStatus::Confirmed, ..row }
}

/// Some subscriber has the identifier `id`.
pub open spec fn has_id(rows: Seq<Row>, id: u128) -> bool {
    exists|i: int| 0 <= i < rows.len() && (#[trigger] rows[i]).id == id
}

/// Some subscriber has the address `email`.
pub open spec fn has_email(rows: Seq<Row>, email: Seq<char>) -> bool {
    exists|i: int| 0 <= i < rows.len() && (#[trigger] rows[i]).email == email
}

/// The token `token` is stored.
pub open spec fn has_token(tokens: Seq<TokenRow>, token: Seq<char>) -> bool {
    exists|j: int| 0 <= j < tokens.len() && (#[trigger] tokens[j]).token == token
}

/// Some token is stored for the subscriber `id`.
pub open spec fn has_token_for(tokens: Seq<TokenRow>, id: u128) -> bool {
    exists|j: int| 0 <= j < tokens.len() && (#[trigger] tokens[j]).subscriber_id == id
}

/// The token `token` is stored, and belongs to the subscriber `id`.
pub open spec fn owns(tokens: Seq<TokenRow>, token: Seq<char>, id: u128) -> bool {
    exists|j: int|
        0 <= j < tokens.len() && (#[trigger] tokens[j]).token == token && tokens[j].subscriber_id
            == id
}

/// What holds of a store at every moment: no identifier and no address is
/// stored twice; no token is stored twice; a subscriber has no token or one;
/// and every token belongs to a stored subscriber.
pub open spec fn consistent(rows: Seq<Row>, tokens: Seq<TokenRow>) -> bool {
    &&& forall|i: int, j: int|
        0 <= i < j < rows.len() ==> (#[trigger] rows[i]).id != (#[trigger] rows[j]).id
            && rows[i].email != rows[j].email
    &&& forall|i: int, j: int|
        0 <= i < j < tokens.len() ==> (#[trigger] tokens[i]).token != (#[trigger] tokens[j]).token
            && tokens[i].subscriber_id != tokens[j].subscriber_id
    &&& forall|j: int| 0 <= j < tokens.len() ==> has_id(rows, (#[trigger] tokens[j]).subscriber_id)
}

/// The subscribers after the one with the identifier `id`, if there is one,
/// has been confirmed.
pub open spec fn with_confirmed(rows: Seq<Row>, id: u128) -> Seq<Row> {
    Seq::new(
        rows.len(),
        |i: int|
            if rows[i].id == id {
                confirmed_row(rows[i])
            } else {
                rows[i]
            },
    )
}

/// The status of the subscriber `id`, where there is one.
pub open spec fn status_in(rows: Seq<Row>, id: u128, status: SubscriptionStatus) -> bool {
    exists|i: int| 0 <= i < rows.len() && (#[trigger] rows[i]).id == id && rows[i].status == status
}

/// Subscribers and their tokens, kept in memory.
#[derive(Debug)]
pub struct SubscriberStore {
    subscribers: Vec<Subscriber>,
    tokens: Vec<ConfirmationToken>,
}

impl SubscriberStore {
    /// The stored subscribers, in the order in which they were inserted.
    pub closed spec fn rows(&self) -> Seq<Row> {
        self.subscribers@.map_values(|s: Subscriber| row_of(s))
    }

    /// The stored tokens, in the order in which they were inserted.
    pub closed spec fn token_rows(&self) -> Seq<TokenRow> {
        self.tokens@.map_values(|t: ConfirmationToken| token_row_of(t))
    }

    /// The store is consistent. An empty store is, and every operation keeps
    /// it so.
    pub open spec fn wf(&self) -> bool {
        consistent(self.rows(), self.token_rows())
    }

    /// An empty store.
    pub fn new() -> (store: SubscriberStore)
        ensures
            store.wf(),
            store.rows() == Seq::<Row>::empty(),
            store.token_rows() == Seq::<TokenRow>::empty(),
    {
        let store = SubscriberStore { subscribers: Vec::new(), tokens: Vec::new() };
        assert(store.rows() =~= Seq::<Row>::empty());
        assert(store.token_rows() =~= Seq::<TokenRow>::empty());
        store
    }

    fn find_subscriber(&self, id: u128) -> (r: Option<usize>)
        ensures
            r matches Some(i) ==> i < self.rows().len() && self.rows()[i as int].id == id,
            r is None ==> !has_id(self.rows(), id),
            self.rows().len() == self.subscribers@.len(),
            forall|k: int| 0 <= k < self.rows().len() ==> self.rows()[k] == row_of(self.subscribers@[k]),
    {
        let mut i: usize = 0;
        while i < self.subscribers.len()
            invariant
                i <= self.subscribers@.len(),
                self.rows().len() == self.subscribers@.len(),
                forall|k: int| 0 <= k < i ==> (#[trigger] self.rows()[k]).id != id,
            decreases self.subscribers@.len() - i,
        {
            if self.subscribers[i].id == id {
                return Some(i);
            }
            i = i + 1;
        }
        None
    }

    fn email_is_taken(&self, email: &str) -> (taken: bool)
        ensures
            taken == has_email(self.rows(), email@),
    {
        let wanted = String::from_str(email);
        let mut i: usize = 0;
        while i < self.subscribers.len()
            invariant
                i <= self.subscribers@.len(),
                wanted@ == email@,
                self.rows().len() == self.subscribers@.len(),
                forall|k: int| 0 <= k < i ==> (#[trigger] self.rows()[k]).email != email@,
            decreases self.subscribers@.len() - i,
        {
            let here = String::from_str(self.subscribers[i].email.as_ref());
            if here == wanted {
                assert(self.rows()[i as int].email == email@);
                return true;
            }
            i = i + 1;
        }
        false
    }

    fn find_token(&self, token: &str) -> (r: Option<usize>)
        ensures
            r matches Some(j) ==> j < self.token_rows().len() && self.token_rows()[j as int].token
                == token@ && self.token_rows()[j as int].subscriber_id
                == self.tokens@[j as int].subscriber_id,
            r is None ==> !has_token(self.token_rows(), token@),
    {
        let wanted = String::from_str(token);
        let mut j: usize = 0;
        while j < self.tokens.len()
            invariant
                j <= self.tokens@.len(),
                wanted@ == token@,
                self.token_rows().len() == self.tokens@.len(),
                forall|k: int| 0 <= k < j ==> (#[trigger] self.token_rows()[k]).token != token@,
            decreases self.tokens@.len() - j,
        {
            if self.tokens[j].token == wanted {
                return Some(j);
            }
            j = j + 1;
        }
        None
    }

    fn subscriber_has_token(&self, id: u128) -> (has: bool)
        ensures
            has == has_token_for(self.token_rows(), id),
    {
        let mut j: usize = 0;
        while j < self.tokens.len()
            invariant
                j <= self.tokens@.len(),
                self.token_rows().len() == self.tokens@.len(),
                forall|k: int|
                    0 <= k < j ==> (#[trigger] self.token_rows()[k]).subscriber_id != id,
            decreases self.tokens@.len() - j,
        {
            if self.tokens[j].subscriber_id == id {
                assert(self.token_rows()[j as int].subscriber_id == id);
                return true;
            }
            j = j + 1;
        }
        false
    }

    /// Stores `subscriber`, pending confirmation. The write is refused where
    /// the identifier or the address is stored already, and then nothing
    /// changes.
    pub fn insert_pending(&mut self, subscriber: &Subscriber) -> (r: Result<(), StoreError>)
        requires
            old(self).wf(),
        ensures
            final(self).wf(),
            final(self).token_rows() == old(self).token_rows(),
            r is Err <==> has_id(old(self).rows(), subscriber.id) || has_email(
                old(self).rows(),
                subscriber.email@,
            ),
            r matches Err(e) ==> e == StoreError::Violated && final(self).rows() == old(
                self,
            ).rows(),
            r is Ok ==> final(self).rows() == old(self).rows().push(pending_row(row_of(*subscriber))),
    {
        if self.find_subscriber(subscriber.id).is_some() {
            return Err(StoreError::Violated);
        }
        if self.email_is_taken(subscriber.email.as_ref()) {
            return Err(StoreError::Violated);
        }
        let stored = Subscriber {
            id: subscriber.id,
            email: subscriber.email.clone(),
            name: subscriber.name.clone(),
            subscribed_at: subscriber.subscribed_at,
            status: SubscriptionStatus::PendingConfirmation,
        };
        let ghost before = self.rows();
        let ghost row = pending_row(row_of(*subscriber));
        assert(row_of(stored) == row);
        self.subscribers.push(stored);
        proof {
            assert(self.rows() =~= before.push(row));
            let rows = self.rows();
            assert forall|i: int, j: int| 0 <= i < j < rows.len() implies (#[trigger] rows[i]).id
                != (#[trigger] rows[j]).id && rows[i].email != rows[j].email by {
                if j < before.len() {
                    assert(rows[i] == before[i] && rows[j] == before[j]);
                } else {
                    assert(rows[i] == before[i]);
                }
            }
            let tokens = self.token_rows();
            assert forall|j: int| 0 <= j < tokens.len() implies has_id(
                rows,
                (#[trigger] tokens[j]).subscriber_id,
            ) by {
                let i = choose|i: int|
                    0 <= i < before.len() && (#[trigger] before[i]).id == tokens[j].subscriber_id;
                assert(rows[i] == before[i]);
            }
        }
        Ok(())
    }

    /// Stores `token` for its subscriber. The write is refused where the
    /// token is stored already, where the subscriber has a token already, and
    /// where there is no such subscriber; then nothing changes.
    pub fn insert_token(&mut self, token: &ConfirmationToken) -> (r: Result<(), StoreError>)
        requires
            old(self).wf(),
        ensures
            final(self).wf(),
            final(self).rows() == old(self).rows(),
            r is Err <==> has_token(old(self).token_rows(), token.token@) || has_token_for(
                old(self).token_rows(),
                token.subscriber_id,
            ) || !has_id(old(self).rows(), token.subscriber_id),
            r matches Err(e) ==> e == StoreError::Violated && final(self).token_rows() == old(
                self,
            ).token_rows(),
            r is Ok ==> final(self).token_rows() == old(self).token_rows().push(
                token_row_of(*token),
            ),
    {
        if self.find_token(token.token.as_str()).is_some() {
            return Err(StoreError::Violated);
        }
        if self.subscriber_has_token(token.subscriber_id) {
            return Err(StoreError::Violated);
        }
        if self.find_subscriber(token.subscriber_id).is_none() {
            return Err(StoreError::Violated);
        }
        let stored = ConfirmationToken {
            token: token.token.clone(),
            subscriber_id: token.subscriber_id,
        };
        let ghost before = self.token_rows();
        let ghost row = token_row_of(*token);
        assert(token_row_of(stored) == row);
        self.tokens.push(stored);
        proof {
            assert(self.token_rows() =~= before.push(row));
            let tokens = self.token_rows();
            assert forall|i: int, j: int| 0 <= i < j < tokens.len() implies (
            #[trigger] tokens[i]).token != (#[trigger] tokens[j]).token && tokens[i].subscriber_id
                != tokens[j].subscriber_id by {
                if j < before.len() {
                    assert(tokens[i] == before[i] && tokens[j] == before[j]);
                } else {
                    assert(tokens[i] == before[i]);
                }
            }
            assert forall|j: int| 0 <= j < tokens.len() implies has_id(
                self.rows(),
                (#[trigger] tokens[j]).subscriber_id,
            ) by {
                if j < before.len() {
                    assert(tokens[j] == before[j]);
                }
            }
        }
        Ok(())
    }

    /// Looks up the subscriber that `token` belongs to. An unknown token is
    /// no failure: there is then no subscriber to name.
    pub fn lookup_subscriber_by_token(&self, token: &str) -> (r: Result<
        Option<u128>,
        StoreError,
    >)
        ensures
            r is Ok,
            r matches Ok(Some(id)) ==> owns(self.token_rows(), token@, id),
            r matches Ok(None) ==> !has_token(self.token_rows(), token@),
    {
        match self.find_token(token) {
            Some(j) => Ok(Some(self.tokens[j].subscriber_id)),
            None => Ok(None),
        }
    }

    /// Sets the status of the subscriber `id` to confirmed. A confirmed
    /// subscriber stays confirmed, and where there is no such subscriber
    /// nothing changes; neither is a failure.
    pub fn mark_confirmed(&mut self, id: u128) -> (r: Result<(), StoreError>)
        requires
            old(self).wf(),
        ensures
            r is Ok,
            final(self).wf(),
            final(self).rows() == with_confirmed(old(self).rows(), id),
            final(self).token_rows() == old(self).token_rows(),
    {
        let ghost before = self.rows();
        proof {
            confirming_keeps_consistent(before, self.token_rows(), id);
        }
        match self.find_subscriber(id) {
            Some(i) => {
                let confirmed = Subscriber {
                    id,
                    email: self.subscribers[i].email.clone(),
                    name: self.subscribers[i].name.clone(),
                    subscribed_at: self.subscribers[i].subscribed_at,
                    status: self.subscribers[i].status.confirm(),
                };
                assert(row_of(confirmed) == confirmed_row(before[i as int]));
                self.subscribers.set(i, confirmed);
                proof {
                    let after = self.rows();
                    assert forall|k: int| 0 <= k < after.len() implies after[k] == with_confirmed(
                        before,
                        id,
                    )[k] by {
                        if k != i {
                            assert(after[k] == before[k]);
                            if k < i {
                                assert(before[k].id != before[i as int].id);
                            } else {
                                assert(before[i as int].id != before[k].id);
                            }
                        }
                    }
                    assert(after =~= with_confirmed(before, id));
                }
            },
            None => {
                assert(before =~= with_confirmed(before, id));
            },
        }
        Ok(())
    }

    /// The status of the subscriber `id`, or none where there is no such
    /// subscriber.
    pub fn status_of(&self, id: u128) -> (r: Option<SubscriptionStatus>)
        ensures
            r matches Some(status) ==> status_in(self.rows(), id, status),
            r is None ==> !has_id(self.rows(), id),
    {
        match self.find_subscriber(id) {
            Some(i) => {
                assert(self.rows()[i as int].status == self.subscribers@[i as int].status);
                Some(self.subscribers[i].status)
            },
            None => None,
        }
    }
}

/// Confirming changes the status of the one subscriber and nothing else: no
/// subscriber is added or removed, and none that was confirmed goes back to
/// pending.
pub proof fn confirming_changes_one_status(rows: Seq<Row>, id: u128)
    ensures
        with_confirmed(rows, id).len() == rows.len(),
        forall|i: int|
            0 <= i < rows.len() ==> (#[trigger] with_confirmed(rows, id)[i]) == if rows[i].id
                == id {
                confirmed_row(rows[i])
            } else {
                rows[i]
            },
        forall|i: int|
            0 <= i < rows.len() && rows[i].status == SubscriptionStatus::Confirmed ==> (
            #[trigger] with_confirmed(rows, id)[i]).status == SubscriptionStatus::Confirmed,
        has_id(rows, id) ==> status_in(with_confirmed(rows, id), id, SubscriptionStatus::Confirmed),
{
    if has_id(rows, id) {
        let i = choose|i: int| 0 <= i < rows.len() && (#[trigger] rows[i]).id == id;
        assert(with_confirmed(rows, id)[i].id == id);
    }
}

/// Confirming a second time changes nothing.
pub proof fn confirming_is_idempotent(rows: Seq<Row>, id: u128)
    ensures
        with_confirmed(with_confirmed(rows, id), id) == with_confirmed(rows, id),
{
    assert(with_confirmed(with_confirmed(rows, id), id) =~= with_confirmed(rows, id));
}

/// A consistent store is consistent after a confirmation.
pub proof fn confirming_keeps_consistent(rows: Seq<Row>, tokens: Seq<TokenRow>, id: u128)
    requires
        consistent(rows, tokens),
    ensures
        consistent(with_confirmed(rows, id), tokens),
{
    let after = with_confirmed(rows, id);
    assert forall|i: int, j: int| 0 <= i < j < after.len() implies (#[trigger] after[i]).id != (
    #[trigger] after[j]).id && after[i].email != after[j].email by {
        assert(after[i].id == rows[i].id && after[j].id == rows[j].id);
        assert(after[i].email == rows[i].email && after[j].email == rows[j].email);
    }
    assert forall|j: int| 0 <= j < tokens.len() implies has_id(
        after,
        (#[trigger] tokens[j]).subscriber_id,
    ) by {
        let i = choose|i: int|
            0 <= i < rows.len() && (#[trigger] rows[i]).id == tokens[j].subscriber_id;
        assert(after[i].id == rows[i].id);
    }
}

/// In a consistent store a token belongs to one subscriber only.
pub proof fn a_token_has_one_owner(
    rows: Seq<Row>,
    tokens: Seq<TokenRow>,
    token: Seq<char>,
    a: u128,
    b: u128,
)
    requires
        consistent(rows, tokens),
        owns(tokens, token, a),
        owns(tokens, token, b),
    ensures
        a == b,
        has_id(rows, a),
{
    let i = choose|j: int|
        0 <= j < tokens.len() && (#[trigger] tokens[j]).token == token && tokens[j].subscriber_id
            == a;
    let j = choose|j: int|
        0 <= j < tokens.len() && (#[trigger] tokens[j]).token == token && tokens[j].subscriber_id
            == b;
    if i < j {
        assert(tokens[i].token != tokens[j].token);
    } else if j < i {
        assert(tokens[j].token != tokens[i].token);
    }
}

} // verus!
