use chrono::Utc;
use uuid::Uuid;
use vstd::prelude::*;
use vstd::string::StringExecFns;

use crate::domain::new_subscriber::NewSubscriber;
use crate::domain::subscriber::{ConfirmationToken, Subscriber, SubscriptionStatus};
use crate::domain::subscriber_email::{email_rejection, email_syntax_ok, SubscriberEmail};
use crate::domain::subscriber_name::{
    grapheme_count,
    name_is_valid,
    name_rejection,
    SubscriberName,
};
use crate::domain::subscription_token::{subscription_token, token_text};
use crate::domain::validation_error::ValidationError;
use crate::email_client::DispatchError;
use crate::routes::response::Response;
use crate::store::StoreError;

verus! {

/// The data submitted with the subscription form.
#[derive(Debug)]
pub struct FormData {
    pub email: String,
    pub name: String,
}

/// Why a registration was not begun.
#[derive(Debug)]
pub enum Rejection {
    /// The form could not be read: a field is missing.
    MissingField,
    /// A field was read and found invalid.
    Invalid(ValidationError),
}

impl Rejection {
    /// The answer to a rejected registration: a bad request, always.
    pub fn response(&self) -> (response: Response)
        ensures
            response == Response::BadRequest,
    {
        Response::BadRequest
    }
}

/// The email that asks a new subscriber to confirm.
#[derive(Debug)]
pub struct ConfirmationEmail {
    pub recipient: SubscriberEmail,
    pub subject: String,
    pub html_body: String,
    pub text_body: String,
}

/// All that one registration carries through its steps. It is made once,
/// when the form has been accepted, and does not change afterwards.
#[derive(Debug)]
pub struct Registration {
    /// The subscriber to insert, pending confirmation.
    pub subscriber: Subscriber,
    /// The token to insert for the subscriber.
    pub token: ConfirmationToken,
    /// The link that redeems the token.
    pub confirmation_link: String,
    /// The email to send, which holds the link.
    pub email: ConfirmationEmail,
}

/// Whether `id` has the fixed bits of a random (version 4) UUID: the version
/// is 4, and the variant is the one of RFC 9562.
pub open spec fn is_random_uuid(id: u128) -> bool {
    (id >> 76) & 0xf == 4 && (id >> 62) & 0x3 == 2
}

/// `uuid::Uuid::new_v4` makes a random identifier, handed on here as its 128
/// bits. Trusted: the value has the version and the variant of a random
/// UUID; nothing else is claimed of it, and each call may give another.
#[verifier::external_body]
fn random_id() -> (id: u128)
    ensures
        is_random_uuid(id),
{
    Uuid::new_v4().as_u128()
}

/// `chrono::Utc::now` reads the clock, handed on here as microseconds since
/// the Unix epoch. Trusted: the clock is not read as a time before the
/// epoch; nothing else is claimed of the value.
#[verifier::external_body]
fn now_micros() -> (now: i64)
    ensures
        now >= 0,
{
    Utc::now().timestamp_micros()
}

/// Whether both fields of a form are valid.
pub open spec fn form_is_valid(name: Seq<char>, email: Seq<char>) -> bool {
    name_is_valid(name, grapheme_count(name)) && email_syntax_ok(email)
}

/// The path and query that redeem a token, up to the token itself.
pub open spec fn confirmation_path() -> Seq<char> {
    "/subscriptions/confirm?subscription_token="@
}

/// The link that redeems `token` at the application reachable under
/// `base_url`.
pub open spec fn confirmation_link(base_url: Seq<char>, token: Seq<char>) -> Seq<char> {
    base_url + confirmation_path() + token
}

/// The subject of the confirmation email.
pub open spec fn confirmation_subject() -> Seq<char> {
    "Welcome!"@
}

/// The HTML body of the confirmation email for `link`.
pub open spec fn html_body(link: Seq<char>) -> Seq<char> {
    "Welcome to our newsletter!<br />Click <a href=\""@ + link
        + "\">here</a> to confirm your subscription."@
}

/// The plain-text body of the confirmation email for `link`.
pub open spec fn text_body(link: Seq<char>) -> Seq<char> {
    "Welcome to our newsletter!\nVisit "@ + link + " to confirm your subscription."@
}

/// Both bodies of the confirmation email hold the link, the same in each,
/// right after their opening words.
pub proof fn both_bodies_hold_the_link(link: Seq<char>)
    ensures
        ({
            let at = "Welcome to our newsletter!<br />Click <a href=\""@.len() as int;
            html_body(link).subrange(at, at + link.len()) == link
        }),
        ({
            let at = "Welcome to our newsletter!\nVisit "@.len() as int;
            text_body(link).subrange(at, at + link.len()) == link
        }),
{
    let html_at = "Welcome to our newsletter!<br />Click <a href=\""@.len() as int;
    let text_at = "Welcome to our newsletter!\nVisit "@.len() as int;
    assert(html_body(link).subrange(html_at, html_at + link.len()) =~= link);
    assert(text_body(link).subrange(text_at, text_at + link.len()) =~= link);
}

/// `registration` is the one that registers `name` and `email` under `id` at
/// the time `now`, with the token made of `seed`.
pub open spec fn is_registration_of(
    registration: Registration,
    name: Seq<char>,
    email: Seq<char>,
    base_url: Seq<char>,
    id: u128,
    seed: u128,
    now: i64,
) -> bool {
    let link = confirmation_link(base_url, token_text(seed));
    &&& registration.subscriber.id == id
    &&& registration.subscriber.name@ == name
    &&& registration.subscriber.email@ == email
    &&& registration.subscriber.subscribed_at == now
    &&& registration.subscriber.status == SubscriptionStatus::PendingConfirmation
    &&& registration.token.subscriber_id == id
    &&& registration.token.token@ == token_text(seed)
    &&& registration.confirmation_link@ == link
    &&& registration.email.recipient@ == email
    &&& registration.email.subject@ == confirmation_subject()
    &&& registration.email.html_body@ == html_body(link)
    &&& registration.email.text_body@ == text_body(link)
}

/// Validates a submitted form. The name is looked at first: where both
/// fields are invalid, the error is the name's.
pub fn parse_subscriber(form: FormData) -> (r: Result<NewSubscriber, ValidationError>)
    ensures
        r is Ok <==> form_is_valid(form.name@, form.email@),
        r matches Ok(subscriber) ==> subscriber.name@ == form.name@ && subscriber.email@
            == form.email@,
        r matches Err(e) ==> if !name_is_valid(form.name@, grapheme_count(form.name@)) {
            e.value@ == form.name@ && e.reason@ == name_rejection()
        } else {
            e.value@ == form.email@ && e.reason@ == email_rejection()
        },
{
    let name = match SubscriberName::parse(form.name) {
        Ok(name) => name,
        Err(e) => {
            return Err(e);
        },
    };
    let email = match SubscriberEmail::parse(form.email) {
        Ok(email) => email,
        Err(e) => {
            return Err(e);
        },
    };
    Ok(NewSubscriber { email, name })
}

/// Builds the link that redeems `token`: the base URL, the confirmation
/// path, and the token as the query's value.
pub fn build_confirmation_link(base_url: &str, token: &str) -> (link: String)
    ensures
        link@ == confirmation_link(base_url@, token@),
{
    let mut link = String::from_str(base_url);
    link.append("/subscriptions/confirm?subscription_token=");
    link.append(token);
    link
}

/// Writes the confirmation email to `recipient`. Both bodies hold `link`,
/// once each, between the same fixed words.
pub fn confirmation_email(recipient: SubscriberEmail, link: &str) -> (email: ConfirmationEmail)
    ensures
        email.recipient@ == recipient@,
        email.subject@ == confirmation_subject(),
        email.html_body@ == html_body(link@),
        email.text_body@ == text_body(link@),
{
    let mut html = String::from_str("Welcome to our newsletter!<br />Click <a href=\"");
    html.append(link);
    html.append("\">here</a> to confirm your subscription.");
    let mut text = String::from_str("Welcome to our newsletter!\nVisit ");
    text.append(link);
    text.append(" to confirm your subscription.");
    ConfirmationEmail {
        recipient,
        subject: String::from_str("Welcome!"),
        html_body: html,
        text_body: text,
    }
}

/// Prepares the registration of a validated subscriber under `id`, at the
/// time `subscribed_at`, with the token made of `token_seed`.
pub fn register(
    new_subscriber: NewSubscriber,
    id: u128,
    token_seed: u128,
    subscribed_at: i64,
    base_url: &str,
) -> (registration: Registration)
    ensures
        is_registration_of(
            registration,
            new_subscriber.name@,
            new_subscriber.email@,
            base_url@,
            id,
            token_seed,
            subscribed_at,
        ),
{
    let token = subscription_token(token_seed);
    let link = build_confirmation_link(base_url, token.as_str());
    let email = confirmation_email(new_subscriber.email.clone(), link.as_str());
    Registration {
        subscriber: Subscriber {
            id,
            email: new_subscriber.email,
            name: new_subscriber.name,
            subscribed_at,
            status: SubscriptionStatus::PendingConfirmation,
        },
        token: ConfirmationToken { token, subscriber_id: id },
        confirmation_link: link,
        email,
    }
}

/// Begins a new subscription: validates the form and, where it is valid,
/// prepares the registration under a fresh identifier, with a fresh token and
/// the current time. Nothing is persisted or sent for a form that is
/// rejected.
pub fn subscribe(form: Option<FormData>, base_url: &str) -> (r: Result<Registration, Rejection>)
    ensures
        form is None ==> r matches Err(Rejection::MissingField),
        form matches Some(f) ==> {
            &&& r is Ok <==> form_is_valid(f.name@, f.email@)
            &&& r matches Ok(registration) ==> exists|id: u128, seed: u128, now: i64|
                is_random_uuid(id) && is_random_uuid(seed) && now >= 0 && is_registration_of(
                    registration,
                    f.name@,
                    f.email@,
                    base_url@,
                    id,
                    seed,
                    now,
                )
            &&& r matches Err(rejection) ==> rejection matches Rejection::Invalid(e) && if !name_is_valid(
                f.name@,
                grapheme_count(f.name@),
            ) {
                e.value@ == f.name@ && e.reason@ == name_rejection()
            } else {
                e.value@ == f.email@ && e.reason@ == email_rejection()
            }
        },
{
    let form = match form {
        Some(form) => form,
        None => {
            return Err(Rejection::MissingField);
        },
    };
    let ghost name = form.name@;
    let ghost email = form.email@;
    match parse_subscriber(form) {
        Ok(new_subscriber) => {
            let id = random_id();
            let seed = random_id();
            let now = now_micros();
            let registration = register(new_subscriber, id, seed, now, base_url);
            assert(is_random_uuid(id) && is_random_uuid(seed) && now >= 0 && is_registration_of(
                registration,
                name,
                email,
                base_url@,
                id,
                seed,
                now,
            ));
            Ok(registration)
        },
        Err(e) => Err(Rejection::Invalid(e)),
    }
}

/// How far a registration has come.
#[derive(Clone, Copy, Debug, PartialEq, Eq, Structural)]
pub enum RegistrationStage {
    /// The store is being asked to insert the pending subscriber.
    SavingSubscriber,
    /// The subscriber is stored; the store is being asked to insert the token.
    SavingToken,
    /// Subscriber and token are stored; the confirmation email is being sent.
    SendingEmail,
    /// The request has been answered.
    Finished(Response),
}

/// What the host program is to do next for a registration.
#[derive(Clone, Copy, Debug, PartialEq, Eq, Structural)]
pub enum RegistrationAction {
    /// Insert the registration's subscriber.
    InsertSubscriber,
    /// Insert the registration's token.
    InsertToken,
    /// Send the registration's email.
    SendEmail,
    /// Answer the request.
    Respond(Response),
}

/// What the host program reports back.
#[derive(Clone, Copy, Debug)]
pub enum RegistrationEvent {
    /// The store's answer to an insert.
    Stored(Result<(), StoreError>),
    /// The mail dispatcher's answer to a send.
    Dispatched(Result<(), DispatchError>),
}

/// A stage, and the action that leads on from it.
#[derive(Clone, Copy, Debug, PartialEq, Eq, Structural)]
pub struct RegistrationStep {
    pub stage: RegistrationStage,
    pub action: RegistrationAction,
}

/// The step that ends a registration with `response`.
pub open spec fn registration_end(response: Response) -> RegistrationStep {
    RegistrationStep {
        stage: RegistrationStage::Finished(response),
        action: RegistrationAction::Respond(response),
    }
}

/// Where an accepted registration starts: the subscriber is inserted.
pub open spec fn registration_start() -> RegistrationStep {
    RegistrationStep {
        stage: RegistrationStage::SavingSubscriber,
        action: RegistrationAction::InsertSubscriber,
    }
}

/// The report says that the store did the insert.
pub open spec fn stored(event: RegistrationEvent) -> bool {
    event matches RegistrationEvent::Stored(Ok(_))
}

/// The report says that the mail provider took the email.
pub open spec fn dispatched(event: RegistrationEvent) -> bool {
    event matches RegistrationEvent::Dispatched(Ok(_))
}

/// The step that follows `stage` once the host program reports `event`.
///
/// Each success leads to the next action: subscriber, token, email, answer.
/// Any failure, and any report that does not answer the action of the stage,
/// ends the registration with a server error; what is stored by then stays
/// stored. A finished registration stays as it is.
pub open spec fn registration_next(
    stage: RegistrationStage,
    event: RegistrationEvent,
) -> RegistrationStep {
    match stage {
        RegistrationStage::SavingSubscriber => if stored(event) {
            RegistrationStep {
                stage: RegistrationStage::SavingToken,
                action: RegistrationAction::InsertToken,
            }
        } else {
            registration_end(Response::InternalServerError)
        },
        RegistrationStage::SavingToken => if stored(event) {
            RegistrationStep {
                stage: RegistrationStage::SendingEmail,
                action: RegistrationAction::SendEmail,
            }
        } else {
            registration_end(Response::InternalServerError)
        },
        RegistrationStage::SendingEmail => if dispatched(event) {
            registration_end(Response::Success)
        } else {
            registration_end(Response::InternalServerError)
        },
        RegistrationStage::Finished(response) => registration_end(response),
    }
}

/// The step reached from `step` after all of `events`, one after the other.
pub open spec fn registration_run(
    step: RegistrationStep,
    events: Seq<RegistrationEvent>,
) -> RegistrationStep
    decreases events.len(),
{
    if events.len() == 0 {
        step
    } else {
        registration_run(registration_next(step.stage, events[0]), events.drop_first())
    }
}

/// The number of times the host program is asked to send the email while
/// `events` are reported, one after the other, from `stage` on.
pub open spec fn emails_requested(stage: RegistrationStage, events: Seq<RegistrationEvent>) -> nat
    decreases events.len(),
{
    if events.len() == 0 {
        0
    } else {
        let step = registration_next(stage, events[0]);
        let here: nat = if step.action == RegistrationAction::SendEmail {
            1
        } else {
            0
        };
        here + emails_requested(step.stage, events.drop_first())
    }
}

impl Registration {
    /// The first step of this registration.
    pub fn first_step(&self) -> (step: RegistrationStep)
        ensures
            step == registration_start(),
    {
        RegistrationStep {
            stage: RegistrationStage::SavingSubscriber,
            action: RegistrationAction::InsertSubscriber,
        }
    }
}

fn finished(response: Response) -> (step: RegistrationStep)
    ensures
        step == registration_end(response),
{
    RegistrationStep {
        stage: RegistrationStage::Finished(response),
        action: RegistrationAction::Respond(response),
    }
}

/// Takes a registration one step further, from `stage` and what the host
/// program reports of the action it was given.
pub fn registration_step(stage: RegistrationStage, event: RegistrationEvent) -> (step:
    RegistrationStep)
    ensures
        step == registration_next(stage, event),
{
    match stage {
        RegistrationStage::SavingSubscriber => match event {
            RegistrationEvent::Stored(Ok(_)) => RegistrationStep {
                stage: RegistrationStage::SavingToken,
                action: RegistrationAction::InsertToken,
            },
            _ => finished(Response::InternalServerError),
        },
        RegistrationStage::SavingToken => match event {
            RegistrationEvent::Stored(Ok(_)) => RegistrationStep {
                stage: RegistrationStage::SendingEmail,
                action: RegistrationAction::SendEmail,
            },
            _ => finished(Response::InternalServerError),
        },
        RegistrationStage::SendingEmail => match event {
            RegistrationEvent::Dispatched(Ok(_)) => finished(Response::Success),
            _ => finished(Response::InternalServerError),
        },
        RegistrationStage::Finished(response) => finished(response),
    }
}

/// Once a registration is finished, no report changes its answer, and no
/// email is asked for any more.
pub proof fn finished_registration_stays(response: Response, events: Seq<RegistrationEvent>)
    ensures
        registration_run(registration_end(response), events) == registration_end(response),
        emails_requested(RegistrationStage::Finished(response), events) == 0,
    decreases events.len(),
{
    if events.len() > 0 {
        finished_registration_stays(response, events.drop_first());
    }
}

proof fn no_email_while_sending(events: Seq<RegistrationEvent>)
    ensures
        emails_requested(RegistrationStage::SendingEmail, events) == 0,
{
    if events.len() > 0 {
        let step = registration_next(RegistrationStage::SendingEmail, events[0]);
        match step.stage {
            RegistrationStage::Finished(response) => {
                finished_registration_stays(response, events.drop_first());
            },
            _ => {},
        }
    }
}

proof fn one_email_after_token(events: Seq<RegistrationEvent>)
    ensures
        emails_requested(RegistrationStage::SavingToken, events) == if events.len() >= 1 && stored(
            events[0],
        ) {
            1nat
        } else {
            0nat
        },
{
    if events.len() > 0 {
        if stored(events[0]) {
            no_email_while_sending(events.drop_first());
        } else {
            finished_registration_stays(Response::InternalServerError, events.drop_first());
        }
    }
}

proof fn success_takes_three(events: Seq<RegistrationEvent>)
    ensures
        registration_run(registration_start(), events) == registration_end(Response::Success)
            ==> events.len() >= 3 && stored(events[0]) && stored(events[1]),
{
    let start = registration_start();
    if events.len() > 0 {
        let rest = events.drop_first();
        let one = registration_next(start.stage, events[0]);
        assert(registration_run(start, events) == registration_run(one, rest));
        if !stored(events[0]) {
            finished_registration_stays(Response::InternalServerError, rest);
        } else if rest.len() > 0 {
            let tail = rest.drop_first();
            let two = registration_next(one.stage, rest[0]);
            assert(rest[0] == events[1]);
            assert(registration_run(one, rest) == registration_run(two, tail));
            if !stored(rest[0]) {
                finished_registration_stays(Response::InternalServerError, tail);
            }
        }
    }
}

/// Whatever is reported, in whatever order, one registration asks for its
/// email at most once. It asks exactly once where the registration is
/// answered with success, and never unless the subscriber and then the token
/// were stored first.
pub proof fn one_email_per_registration(events: Seq<RegistrationEvent>)
    ensures
        emails_requested(RegistrationStage::SavingSubscriber, events) <= 1,
        registration_run(registration_start(), events) == registration_end(Response::Success)
            ==> emails_requested(RegistrationStage::SavingSubscriber, events) == 1,
        emails_requested(RegistrationStage::SavingSubscriber, events) == 1 <==> events.len() >= 2
            && stored(events[0]) && stored(events[1]),
{
    success_takes_three(events);
    if events.len() > 0 {
        let rest = events.drop_first();
        if stored(events[0]) {
            one_email_after_token(rest);
            if rest.len() > 0 {
                assert(rest[0] == events[1]);
            }
        } else {
            finished_registration_stays(Response::InternalServerError, rest);
        }
    }
}

/// A registration is answered with success exactly when the subscriber was
/// stored, then the token was stored, then the email was handed over. A
/// failure at any of the three is answered with a server error.
pub proof fn registration_outcomes(
    first: RegistrationEvent,
    second: RegistrationEvent,
    third: RegistrationEvent,
)
    ensures
        registration_run(registration_start(), seq![first, second, third]) == registration_end(
            Response::Success,
        ) <==> stored(first) && stored(second) && dispatched(third),
        !stored(first) ==> registration_run(registration_start(), seq![first])
            == registration_end(Response::InternalServerError),
        stored(first) && !stored(second) ==> registration_run(
            registration_start(),
            seq![first, second],
        ) == registration_end(Response::InternalServerError),
        stored(first) && stored(second) && !dispatched(third) ==> registration_run(
            registration_start(),
            seq![first, second, third],
        ) == registration_end(Response::InternalServerError),
{
    let start = registration_start();
    let e3 = seq![first, second, third];
    let e2 = seq![first, second];
    let e1 = seq![first];
    assert(e3.drop_first() =~= seq![second, third]);
    assert(seq![second, third].drop_first() =~= seq![third]);
    assert(seq![third].drop_first() =~= Seq::<RegistrationEvent>::empty());
    assert(e2.drop_first() =~= seq![second]);
    assert(seq![second].drop_first() =~= Seq::<RegistrationEvent>::empty());
    assert(e1.drop_first() =~= Seq::<RegistrationEvent>::empty());
    reveal_with_fuel(registration_run, 4);
    let one = registration_next(start.stage, first);
    let two = registration_next(one.stage, second);
    let three = registration_next(two.stage, third);
    assert(registration_run(start, e1) == one);
    assert(registration_run(start, e2) == two);
    assert(registration_run(start, e3) == three);
}

} // verus!
