use zero2prod::domain::{SubscriberEmail, SubscriptionStatus};
use zero2prod::email_client::{DispatchError, EmailClient, Reply};
use zero2prod::routes::subscriptions::{
    build_confirmation_link, parse_subscriber, register, registration_step, Registration,
    RegistrationAction, RegistrationEvent, RegistrationStage, Rejection,
};
use zero2prod::routes::subscriptions_confirm::{
    confirmation_step, ConfirmationAction, ConfirmationEvent, ConfirmationStage,
};
use zero2prod::routes::{confirm, health_check, subscribe, FormData, Parameters, Response};
use zero2prod::store::StoreError;

const BASE_URL: &str = "http://127.0.0.1";

fn form(name: &str, email: &str) -> Option<FormData> {
    Some(FormData { name: name.to_string(), email: email.to_string() })
}

fn valid_registration() -> Registration {
    match subscribe(form("le guin", "ursula_le_guin@gmail.com"), BASE_URL) {
        Ok(registration) => registration,
        Err(_) => panic!("the form was rejected"),
    }
}

/// Follows a registration to its answer, with a store and a mail provider
/// that answer as told. Returns the answer and the actions that were asked
/// for on the way.
fn run_registration(
    registration: &Registration,
    store: Result<(), StoreError>,
    token_store: Result<(), StoreError>,
    reply: Reply,
) -> (Response, Vec<RegistrationAction>) {
    let mut step = registration.first_step();
    let mut actions = vec![];
    loop {
        actions.push(step.action);
        let event = match step.action {
            RegistrationAction::InsertSubscriber => RegistrationEvent::Stored(store),
            RegistrationAction::InsertToken => RegistrationEvent::Stored(token_store),
            RegistrationAction::SendEmail => {
                RegistrationEvent::Dispatched(EmailClient::outcome(reply))
            }
            RegistrationAction::Respond(response) => return (response, actions),
        };
        step = registration_step(step.stage, event);
    }
}

/// The links in `text`: each run of characters from `http` up to a space, a
/// quote or the end.
fn links(text: &str) -> Vec<String> {
    let mut found = vec![];
    let mut rest = text;
    while let Some(start) = rest.find("http") {
        let tail = &rest[start..];
        let end = tail.find(|c: char| c == ' ' || c == '"').unwrap_or(tail.len());
        found.push(tail[..end].to_string());
        rest = &tail[end..];
    }
    found
}

#[test]
fn health_check_works() {
    let response = health_check();
    assert_eq!(response, Response::Success);
    assert_eq!(200, response.status_code());
}

#[test]
fn subscribe_returns_a_200_for_valid_form_data() {
    let registration = valid_registration();
    let (response, _) = run_registration(&registration, Ok(()), Ok(()), Reply::Status(200));

    assert_eq!(200, response.status_code());

    assert_eq!(registration.subscriber.name.as_ref(), "le guin");
    assert_eq!(registration.subscriber.email.as_ref(), "ursula_le_guin@gmail.com");
    assert_eq!(registration.subscriber.status, SubscriptionStatus::PendingConfirmation);
    assert_eq!(registration.subscriber.status.as_str(), "pending_confirmation");
}

#[test]
fn subscribe_sends_a_confirmation_email_for_valid_data() {
    let registration = valid_registration();
    let (_, actions) = run_registration(&registration, Ok(()), Ok(()), Reply::Status(200));

    let sends = actions.iter().filter(|action| **action == RegistrationAction::SendEmail).count();
    assert_eq!(sends, 1);
    assert_eq!(
        actions,
        vec![
            RegistrationAction::InsertSubscriber,
            RegistrationAction::InsertToken,
            RegistrationAction::SendEmail,
            RegistrationAction::Respond(Response::Success),
        ]
    );
    assert_eq!(registration.email.recipient.as_ref(), "ursula_le_guin@gmail.com");
}

#[test]
fn subscribe_sends_a_confirmation_email_with_a_link() {
    let registration = valid_registration();

    let html_links = links(&registration.email.html_body);
    let text_links = links(&registration.email.text_body);
    assert_eq!(html_links.len(), 1);
    assert_eq!(text_links.len(), 1);
    assert_eq!(html_links[0], text_links[0]);
    assert_eq!(html_links[0], registration.confirmation_link);
}

#[test]
fn subscribe_returns_a_400_when_data_is_missing() {
    match subscribe(None, BASE_URL) {
        Err(rejection) => {
            assert!(matches!(rejection, Rejection::MissingField));
            assert_eq!(400, rejection.response().status_code());
        }
        Ok(_) => panic!("a registration was begun without a form"),
    }
}

#[test]
fn subscribe_returns_a_400_when_fields_are_invalid() {
    let test_cases = vec![
        (form("", "ursula_le_guin@gmail.com"), "empty name"),
        (form("Ursula", ""), "empty email"),
        (form("Ursula", "definitely-not-an-email"), "invalid email"),
    ];

    for (invalid_form, description) in test_cases {
        match subscribe(invalid_form, BASE_URL) {
            Err(rejection) => {
                assert!(matches!(rejection, Rejection::Invalid(_)), "{}", description);
                assert_eq!(400, rejection.response().status_code(), "{}", description);
            }
            Ok(_) => panic!("the form was accepted with {}", description),
        }
    }
}

#[test]
fn confirmations_without_token_are_rejected_with_400() {
    let step = confirm(&None);
    assert_eq!(step.action, ConfirmationAction::Respond(Response::BadRequest));
    assert_eq!(step.stage, ConfirmationStage::Finished(Response::BadRequest));
    assert_eq!(Response::BadRequest.status_code(), 400);
}

#[test]
fn the_link_returned_by_subscribe_returns_200_when_called() {
    let registration = valid_registration();
    let (response, _) = run_registration(&registration, Ok(()), Ok(()), Reply::Status(200));
    assert_eq!(response, Response::Success);

    let raw_link = links(&registration.email.html_body).remove(0);
    let confirmation_link = url::Url::parse(&raw_link).unwrap();
    assert_eq!(confirmation_link.host_str().unwrap(), "127.0.0.1");
    assert_eq!(confirmation_link.path(), "/subscriptions/confirm");
    let (key, token) = confirmation_link.query_pairs().next().unwrap();
    assert_eq!(key, "subscription_token");
    assert_eq!(token, registration.token.token.as_str());

    let parameters = Some(Parameters { subscription_token: token.into_owned() });
    let step = confirm(&parameters);
    assert_eq!(step.action, ConfirmationAction::LookUpToken);
    let step = confirmation_step(
        step.stage,
        ConfirmationEvent::LookedUp(Ok(Some(registration.token.subscriber_id))),
    );
    assert_eq!(step.action, ConfirmationAction::MarkConfirmed(registration.subscriber.id));
    let step = confirmation_step(step.stage, ConfirmationEvent::Marked(Ok(())));
    assert_eq!(step.action, ConfirmationAction::Respond(Response::Success));
    assert_eq!(200, Response::Success.status_code());
    assert_eq!(registration.subscriber.status.confirm(), SubscriptionStatus::Confirmed);
}

#[test]
fn confirmations_with_an_unknown_token_are_rejected_with_401() {
    let parameters = Some(Parameters { subscription_token: "0".repeat(32) });
    let step = confirm(&parameters);
    assert_eq!(step.stage, ConfirmationStage::LookingUp);
    let step = confirmation_step(step.stage, ConfirmationEvent::LookedUp(Ok(None)));
    assert_eq!(step.action, ConfirmationAction::Respond(Response::Unauthorized));
    assert_eq!(401, Response::Unauthorized.status_code());
}

#[test]
fn a_store_failure_during_confirmation_is_a_500() {
    let parameters = Some(Parameters { subscription_token: "0".repeat(32) });
    let start = confirm(&parameters);
    let step = confirmation_step(
        start.stage,
        ConfirmationEvent::LookedUp(Err(StoreError::Unavailable)),
    );
    assert_eq!(step.action, ConfirmationAction::Respond(Response::InternalServerError));
    assert_eq!(500, Response::InternalServerError.status_code());

    let step = confirmation_step(start.stage, ConfirmationEvent::LookedUp(Ok(Some(7))));
    let step = confirmation_step(step.stage, ConfirmationEvent::Marked(Err(StoreError::Violated)));
    assert_eq!(step.action, ConfirmationAction::Respond(Response::InternalServerError));
}

#[test]
fn confirming_a_confirmed_subscriber_again_succeeds_again() {
    let parameters = Some(Parameters { subscription_token: "0".repeat(32) });
    for _ in 0..2 {
        let step = confirm(&parameters);
        let step = confirmation_step(step.stage, ConfirmationEvent::LookedUp(Ok(Some(7))));
        assert_eq!(step.action, ConfirmationAction::MarkConfirmed(7));
        let step = confirmation_step(step.stage, ConfirmationEvent::Marked(Ok(())));
        assert_eq!(step.action, ConfirmationAction::Respond(Response::Success));
    }
}

#[test]
fn a_finished_confirmation_stays_finished() {
    let step = confirmation_step(
        ConfirmationStage::Finished(Response::Unauthorized),
        ConfirmationEvent::Marked(Ok(())),
    );
    assert_eq!(step.stage, ConfirmationStage::Finished(Response::Unauthorized));
    assert_eq!(step.action, ConfirmationAction::Respond(Response::Unauthorized));
}

#[test]
fn a_report_that_answers_another_action_is_a_500() {
    let step = confirmation_step(ConfirmationStage::LookingUp, ConfirmationEvent::Marked(Ok(())));
    assert_eq!(step.action, ConfirmationAction::Respond(Response::InternalServerError));
    let step = registration_step(
        RegistrationStage::SavingSubscriber,
        RegistrationEvent::Dispatched(Ok(())),
    );
    assert_eq!(step.action, RegistrationAction::Respond(Response::InternalServerError));
    let step =
        registration_step(RegistrationStage::SendingEmail, RegistrationEvent::Stored(Ok(())));
    assert_eq!(step.action, RegistrationAction::Respond(Response::InternalServerError));
}

#[test]
fn no_email_is_sent_when_the_subscriber_cannot_be_stored() {
    let registration = valid_registration();
    let (response, actions) =
        run_registration(&registration, Err(StoreError::Violated), Ok(()), Reply::Status(200));
    assert_eq!(500, response.status_code());
    assert_eq!(
        actions,
        vec![
            RegistrationAction::InsertSubscriber,
            RegistrationAction::Respond(Response::InternalServerError),
        ]
    );
}

#[test]
fn no_email_is_sent_when_the_token_cannot_be_stored() {
    let registration = valid_registration();
    let (response, actions) =
        run_registration(&registration, Ok(()), Err(StoreError::Unavailable), Reply::Status(200));
    assert_eq!(500, response.status_code());
    assert!(!actions.contains(&RegistrationAction::SendEmail));
}

#[test]
fn a_failed_dispatch_is_a_500() {
    let registration = valid_registration();
    for reply in [Reply::Status(500), Reply::TimedOut, Reply::Failed] {
        let (response, actions) = run_registration(&registration, Ok(()), Ok(()), reply);
        assert_eq!(500, response.status_code());
        let sends =
            actions.iter().filter(|action| **action == RegistrationAction::SendEmail).count();
        assert_eq!(sends, 1);
    }
    let step = registration_step(
        RegistrationStage::SendingEmail,
        RegistrationEvent::Dispatched(Err(DispatchError::Transport)),
    );
    assert_eq!(step.stage, RegistrationStage::Finished(Response::InternalServerError));
}

#[test]
fn a_registration_is_made_of_what_it_is_given() {
    let new_subscriber = parse_subscriber(FormData {
        name: "le guin".to_string(),
        email: "ursula_le_guin@gmail.com".to_string(),
    })
    .unwrap_or_else(|_| panic!("the form was rejected"));
    let registration =
        register(new_subscriber, 42, 0xabc, 1_700_000_000_000_000, "https://news.example.com");
    let token = format!("{}abc", "0".repeat(29));
    let link =
        format!("https://news.example.com/subscriptions/confirm?subscription_token={}", token);

    assert_eq!(registration.subscriber.id, 42);
    assert_eq!(registration.subscriber.subscribed_at, 1_700_000_000_000_000);
    assert_eq!(registration.subscriber.status, SubscriptionStatus::PendingConfirmation);
    assert_eq!(registration.token.subscriber_id, 42);
    assert_eq!(registration.token.token, token);
    assert_eq!(registration.confirmation_link, link);
    assert_eq!(registration.email.subject, "Welcome!");
    assert_eq!(
        registration.email.html_body,
        format!(
            "Welcome to our newsletter!<br />Click <a href=\"{}\">here</a> to confirm your subscription.",
            link
        )
    );
    assert_eq!(
        registration.email.text_body,
        format!("Welcome to our newsletter!\nVisit {} to confirm your subscription.", link)
    );
}

#[test]
fn the_confirmation_link_carries_the_token_as_a_query_parameter() {
    assert_eq!(
        build_confirmation_link("http://localhost:8000", "abc"),
        "http://localhost:8000/subscriptions/confirm?subscription_token=abc"
    );
}

#[test]
fn where_both_fields_are_invalid_the_name_is_reported() {
    let error = match parse_subscriber(FormData { name: " ".to_string(), email: "x".to_string() })
    {
        Err(error) => error,
        Ok(_) => panic!("the form was accepted"),
    };
    assert_eq!(error.value, " ");
    assert_eq!(error.reason, "is not a valid subscriber name.");
}

#[test]
fn each_registration_gets_an_identifier_and_a_token_of_its_own() {
    let first = valid_registration();
    let second = valid_registration();
    assert_ne!(first.subscriber.id, second.subscriber.id);
    assert_ne!(first.token.token, second.token.token);
    assert_eq!(first.token.token.len(), 32);
    assert!(first.token.token.chars().all(|c| c.is_ascii_hexdigit() && !c.is_ascii_uppercase()));
    assert!(first.subscriber.subscribed_at > 0);
}

#[test]
fn identifiers_and_tokens_are_random_uuids() {
    for _ in 0..64 {
        let registration = valid_registration();
        let id = registration.subscriber.id;
        assert_eq!((id >> 76) & 0xf, 4);
        assert_eq!((id >> 62) & 0x3, 2);
        assert_eq!(uuid::Uuid::from_u128(id).get_version_num(), 4);
        let token: Vec<char> = registration.token.token.chars().collect();
        assert_eq!(token[12], '4');
        assert!("89ab".contains(token[16]));
    }
}

#[test]
fn the_registered_email_can_be_handed_to_the_mail_client() {
    let registration = valid_registration();
    let client = EmailClient::new(
        "http://127.0.0.1:8025",
        SubscriberEmail::parse("newsletter@example.com".to_string()).unwrap(),
        10_000,
    )
    .unwrap();
    let request = client.send_email(
        registration.email.recipient.clone(),
        &registration.email.subject,
        &registration.email.html_body,
        &registration.email.text_body,
    );
    assert_eq!(request.body.to, "ursula_le_guin@gmail.com");
    assert_eq!(request.body.html_body, registration.email.html_body);
    assert_eq!(request.body.text_body, registration.email.text_body);
}
