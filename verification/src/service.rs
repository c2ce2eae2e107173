//! The two workflows followed to their answer against the store in memory:
//! what a registration and a confirmation do to the store, from the request
//! to the response.

use vstd::prelude::*;

use crate::email_client::{outcome_of, EmailClient, Reply};
use crate::routes::response::Response;
use crate::routes::subscriptions::{
    registration_step,
    Registration,
    RegistrationAction,
    RegistrationEvent,
};
use crate::routes::subscriptions_confirm::{
    confirm,
    confirmation_step,
    ConfirmationAction,
    ConfirmationEvent,
    Parameters,
};
use crate::store::{
    a_token_has_one_owner,
    confirmed_row,
    confirming_is_idempotent,
    consistent,
    has_email,
    has_id,
    has_token,
    has_token_for,
    owns,
    pending_row,
    row_of,
    token_row_of,
    with_confirmed,
    Row,
    SubscriberStore,
    TokenRow,
};

verus! {

/// The subscriber that `token` belongs to, where it is stored.
pub open spec fn owner(tokens: Seq<TokenRow>, token: Seq<char>) -> u128 {
    choose|id: u128| owns(tokens, token, id)
}

/// The answer to a confirmation request, and the subscribers after it.
///
/// Without a token the request is bad, and an unknown token is unauthorized;
/// neither touches the store. A known token confirms its subscriber.
pub open spec fn redeemed(rows: Seq<Row>, tokens: Seq<TokenRow>, token: Option<Seq<char>>) -> (
    Response,
    Seq<Row>,
) {
    match token {
        None => (Response::BadRequest, rows),
        Some(token) => if has_token(tokens, token) {
            (Response::Success, with_confirmed(rows, owner(tokens, token)))
        } else {
            (Response::Unauthorized, rows)
        },
    }
}

/// The token that a confirmation request carries, as a plain value.
pub open spec fn token_of(parameters: Option<Parameters>) -> Option<Seq<char>> {
    match parameters {
        Some(parameters) => Some(parameters.subscription_token@),
        None => None,
    }
}

/// Follows a confirmation request to its answer against `store`. The tokens
/// are left as they are: a token can be redeemed again.
pub fn confirm_subscription(store: &mut SubscriberStore, parameters: &Option<Parameters>) -> (response:
    Response)
    requires
        old(store).wf(),
    ensures
        final(store).wf(),
        final(store).token_rows() == old(store).token_rows(),
        (response, final(store).rows()) == redeemed(
            old(store).rows(),
            old(store).token_rows(),
            token_of(*parameters),
        ),
{
    let start = confirm(parameters);
    let token = match parameters {
        Some(parameters) => parameters.subscription_token.as_str(),
        None => {
            return Response::BadRequest;
        },
    };
    let found = store.lookup_subscriber_by_token(token);
    let step = confirmation_step(start.stage, ConfirmationEvent::LookedUp(found));
    match step.action {
        ConfirmationAction::MarkConfirmed(id) => {
            proof {
                let tokens = store.token_rows();
                assert(has_token(tokens, token@)) by {
                    let j = choose|j: int|
                        0 <= j < tokens.len() && (#[trigger] tokens[j]).token == token@
                            && tokens[j].subscriber_id == id;
                    assert(tokens[j].token == token@);
                }
                a_token_has_one_owner(store.rows(), tokens, token@, id, owner(tokens, token@));
            }
            let marked = store.mark_confirmed(id);
            let last = confirmation_step(step.stage, ConfirmationEvent::Marked(marked));
            match last.action {
                ConfirmationAction::Respond(response) => response,
                _ => Response::InternalServerError,
            }
        },
        ConfirmationAction::Respond(response) => response,
        ConfirmationAction::LookUpToken => Response::InternalServerError,
    }
}

/// Redeeming a token again gives the same answer and leaves the store as the
/// first time left it: a confirmed subscriber stays confirmed, and the second
/// confirmation is no error.
pub proof fn redeeming_again_changes_nothing(
    rows: Seq<Row>,
    tokens: Seq<TokenRow>,
    token: Option<Seq<char>>,
)
    ensures
        redeemed(redeemed(rows, tokens, token).1, tokens, token) == redeemed(rows, tokens, token),
{
    match token {
        Some(text) => {
            if has_token(tokens, text) {
                confirming_is_idempotent(rows, owner(tokens, text));
            }
        },
        None => {},
    }
}

/// Whether `registration` can be stored: neither its identifier nor its
/// address is taken.
pub open spec fn subscriber_fits(rows: Seq<Row>, registration: Registration) -> bool {
    !has_id(rows, registration.subscriber.id) && !has_email(rows, registration.subscriber.email@)
}

/// Whether the token of `registration` can be stored beside the subscribers
/// `rows`: the token is new, and it is the first token of a subscriber that
/// is stored.
pub open spec fn token_fits(
    rows: Seq<Row>,
    tokens: Seq<TokenRow>,
    registration: Registration,
) -> bool {
    &&& !has_token(tokens, registration.token.token@)
    &&& !has_token_for(tokens, registration.token.subscriber_id)
    &&& has_id(rows, registration.token.subscriber_id)
}

/// The answer to a registration, and the store after it.
///
/// A subscriber that cannot be stored leaves the store as it was. A token
/// that cannot be stored leaves the subscriber behind, pending and without a
/// token. Once both are stored they stay, whatever becomes of the email; the
/// answer is a success only where the provider took the email.
pub open spec fn enrolled(
    rows: Seq<Row>,
    tokens: Seq<TokenRow>,
    registration: Registration,
    reply: Reply,
) -> (Response, Seq<Row>, Seq<TokenRow>) {
    let row = pending_row(row_of(registration.subscriber));
    if !subscriber_fits(rows, registration) {
        (Response::InternalServerError, rows, tokens)
    } else if !token_fits(rows.push(row), tokens, registration) {
        (Response::InternalServerError, rows.push(row), tokens)
    } else {
        (
            if outcome_of(reply) is Ok {
                Response::Success
            } else {
                Response::InternalServerError
            },
            rows.push(row),
            tokens.push(token_row_of(registration.token)),
        )
    }
}

/// Follows an accepted registration to its answer against `store`, with a
/// mail provider that answers the one request it may get with `reply`.
pub fn enroll(store: &mut SubscriberStore, registration: &Registration, reply: Reply) -> (response:
    Response)
    requires
        old(store).wf(),
    ensures
        final(store).wf(),
        (response, final(store).rows(), final(store).token_rows()) == enrolled(
            old(store).rows(),
            old(store).token_rows(),
            *registration,
            reply,
        ),
{
    let first = registration.first_step();
    let inserted = store.insert_pending(&registration.subscriber);
    let second = registration_step(first.stage, RegistrationEvent::Stored(inserted));
    match second.action {
        RegistrationAction::InsertToken => {},
        RegistrationAction::Respond(response) => {
            return response;
        },
        _ => {
            return Response::InternalServerError;
        },
    }
    let stored = store.insert_token(&registration.token);
    let third = registration_step(second.stage, RegistrationEvent::Stored(stored));
    match third.action {
        RegistrationAction::SendEmail => {},
        RegistrationAction::Respond(response) => {
            return response;
        },
        _ => {
            return Response::InternalServerError;
        },
    }
    let sent = EmailClient::outcome(reply);
    let last = registration_step(third.stage, RegistrationEvent::Dispatched(sent));
    match last.action {
        RegistrationAction::Respond(response) => response,
        _ => Response::InternalServerError,
    }
}

/// After a registration that was answered with success the subscriber is
/// stored, pending confirmation, and the token is stored as the
/// subscriber's; redeeming that token then confirms that subscriber.
pub proof fn registered_then_redeemed(
    rows: Seq<Row>,
    tokens: Seq<TokenRow>,
    registration: Registration,
    reply: Reply,
)
    requires
        consistent(rows, tokens),
        registration.token.subscriber_id == registration.subscriber.id,
        enrolled(rows, tokens, registration, reply).0 == Response::Success,
    ensures
        ({
            let after = enrolled(rows, tokens, registration, reply);
            let row = pending_row(row_of(registration.subscriber));
            let token = registration.token.token@;
            &&& after.1 == rows.push(row)
            &&& owns(after.2, token, registration.subscriber.id)
            &&& redeemed(after.1, after.2, Some(token)) == (
                Response::Success,
                rows.push(confirmed_row(row)),
            )
        }),
{
    let after = enrolled(rows, tokens, registration, reply);
    let row = pending_row(row_of(registration.subscriber));
    let token = registration.token.token@;
    let id = registration.subscriber.id;
    let pushed = after.2;
    assert(pushed[tokens.len() as int] == token_row_of(registration.token));
    assert(owns(pushed, token, id));
    assert(has_token(pushed, token));
    // the token belongs to no one else
    let who = owner(pushed, token);
    assert(owns(pushed, token, who));
    let j = choose|j: int|
        0 <= j < pushed.len() && (#[trigger] pushed[j]).token == token && pushed[j].subscriber_id
            == who;
    if j < tokens.len() {
        assert(pushed[j] == tokens[j]);
        assert(has_token(tokens, token));
    }
    assert(who == id);
    let confirmed = with_confirmed(after.1, id);
    assert forall|i: int| 0 <= i < confirmed.len() implies confirmed[i] == rows.push(
        confirmed_row(row),
    )[i] by {
        if i < rows.len() {
            assert(after.1[i] == rows[i]);
            assert(rows[i].id != id);
        }
    }
    assert(confirmed =~= rows.push(confirmed_row(row)));
}

} // verus!
