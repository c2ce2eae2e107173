use vstd::prelude::*;

use crate::routes::response::Response;
use crate::store::StoreError;

verus! {

/// What a confirmation request must carry.
#[derive(Debug)]
pub struct Parameters {
    /// The token that was mailed to the subscriber.
    pub subscription_token: String,
}

/// How far a confirmation has come.
#[derive(Clone, Copy, Debug, PartialEq, Eq, Structural)]
pub enum ConfirmationStage {
    /// The store is being asked whose token this is.
    LookingUp,
    /// The store is being asked to confirm this subscriber.
    Confirming(u128),
    /// The request has been answered.
    Finished(Response),
}

/// What the host program is to do next for a confirmation.
#[derive(Clone, Copy, Debug, PartialEq, Eq, Structural)]
pub enum ConfirmationAction {
    /// Ask the store for the subscriber that the request's token belongs to.
    LookUpToken,
    /// Ask the store to set this subscriber's status to confirmed.
    MarkConfirmed(u128),
    /// Answer the request.
    Respond(Response),
}

/// What the host program reports back: the store's answer to the action.
#[derive(Clone, Copy, Debug)]
pub enum ConfirmationEvent {
    /// The answer to `LookUpToken`: the subscriber that the token belongs to,
    /// or none where the store knows no such token.
    LookedUp(Result<Option<u128>, StoreError>),
    /// The answer to `MarkConfirmed`.
    Marked(Result<(), StoreError>),
}

/// The report says that the token belongs to a subscriber.
pub open spec fn token_found(event: ConfirmationEvent) -> bool {
    event matches ConfirmationEvent::LookedUp(Ok(Some(_)))
}

/// The report says that the store confirmed the subscriber.
pub open spec fn marked(event: ConfirmationEvent) -> bool {
    event matches ConfirmationEvent::Marked(Ok(_))
}

/// A stage, and the action that leads on from it.
#[derive(Clone, Copy, Debug, PartialEq, Eq, Structural)]
pub struct ConfirmationStep {
    pub stage: ConfirmationStage,
    pub action: ConfirmationAction,
}

/// The step that ends a confirmation with `response`.
pub open spec fn confirmation_end(response: Response) -> ConfirmationStep {
    ConfirmationStep {
        stage: ConfirmationStage::Finished(response),
        action: ConfirmationAction::Respond(response),
    }
}

/// Where a confirmation request starts: without a token it is a bad request
/// and the store is not asked; with one, the token is looked up.
pub open spec fn confirmation_start(has_token: bool) -> ConfirmationStep {
    if has_token {
        ConfirmationStep {
            stage: ConfirmationStage::LookingUp,
            action: ConfirmationAction::LookUpToken,
        }
    } else {
        confirmation_end(Response::BadRequest)
    }
}

/// The step that follows `stage` once the host program reports `event`.
///
/// An unknown token is answered as unauthorized. A subscriber that was found
/// is confirmed, whatever its status was. Any failure of the store, and any
/// report that does not answer the action of the stage, is a server error. A
/// finished confirmation stays as it is.
pub open spec fn confirmation_next(
    stage: ConfirmationStage,
    event: ConfirmationEvent,
) -> ConfirmationStep {
    match stage {
        ConfirmationStage::LookingUp => match event {
            ConfirmationEvent::LookedUp(Ok(Some(id))) => ConfirmationStep {
                stage: ConfirmationStage::Confirming(id),
                action: ConfirmationAction::MarkConfirmed(id),
            },
            ConfirmationEvent::LookedUp(Ok(None)) => confirmation_end(Response::Unauthorized),
            _ => confirmation_end(Response::InternalServerError),
        },
        ConfirmationStage::Confirming(_) => match event {
            ConfirmationEvent::Marked(Ok(_)) => confirmation_end(Response::Success),
            _ => confirmation_end(Response::InternalServerError),
        },
        ConfirmationStage::Finished(response) => confirmation_end(response),
    }
}

/// The stage reached from `step` after all of `events`, one after the other.
pub open spec fn confirmation_run(
    step: ConfirmationStep,
    events: Seq<ConfirmationEvent>,
) -> ConfirmationStep
    decreases events.len(),
{
    if events.len() == 0 {
        step
    } else {
        confirmation_run(confirmation_next(step.stage, events[0]), events.drop_first())
    }
}

/// Starts the confirmation of a pending subscription. Afterwards, once the
/// steps have been followed to the end, the subscriber receives the
/// newsletter.
pub fn confirm(parameters: &Option<Parameters>) -> (step: ConfirmationStep)
    ensures
        step == confirmation_start(parameters is Some),
{
    match parameters {
        Some(_) => ConfirmationStep {
            stage: ConfirmationStage::LookingUp,
            action: ConfirmationAction::LookUpToken,
        },
        None => finished(Response::BadRequest),
    }
}

fn finished(response: Response) -> (step: ConfirmationStep)
    ensures
        step == confirmation_end(response),
{
    ConfirmationStep {
        stage: ConfirmationStage::Finished(response),
        action: ConfirmationAction::Respond(response),
    }
}

/// Takes a confirmation one step further, from `stage` and what the host
/// program reports of the action it was given.
pub fn confirmation_step(stage: ConfirmationStage, event: ConfirmationEvent) -> (step:
    ConfirmationStep)
    ensures
        step == confirmation_next(stage, event),
{
    match stage {
        ConfirmationStage::LookingUp => match event {
            ConfirmationEvent::LookedUp(Ok(Some(id))) => ConfirmationStep {
                stage: ConfirmationStage::Confirming(id),
                action: ConfirmationAction::MarkConfirmed(id),
            },
            ConfirmationEvent::LookedUp(Ok(None)) => finished(Response::Unauthorized),
            _ => finished(Response::InternalServerError),
        },
        ConfirmationStage::Confirming(_) => match event {
            ConfirmationEvent::Marked(Ok(_)) => finished(Response::Success),
            _ => finished(Response::InternalServerError),
        },
        ConfirmationStage::Finished(response) => finished(response),
    }
}

/// A request without a token is answered with a bad request at once: the
/// store is never asked.
pub proof fn missing_token_is_bad_request(events: Seq<ConfirmationEvent>)
    ensures
        confirmation_run(confirmation_start(false), events) == confirmation_end(
            Response::BadRequest,
        ),
    decreases events.len(),
{
    finished_stays_finished(Response::BadRequest, events);
}

/// Once a confirmation is finished, no report changes its answer.
pub proof fn finished_stays_finished(response: Response, events: Seq<ConfirmationEvent>)
    ensures
        confirmation_run(confirmation_end(response), events) == confirmation_end(response),
    decreases events.len(),
{
    if events.len() > 0 {
        finished_stays_finished(response, events.drop_first());
    }
}

/// A confirmation is answered with success exactly when the token was found
/// and the store then confirmed the subscriber it belongs to. An unknown
/// token is answered as unauthorized, and a failure of the store as a server
/// error. The subscriber that is confirmed is the one the token belongs to.
pub proof fn confirmation_outcomes(first: ConfirmationEvent, second: ConfirmationEvent)
    ensures
        confirmation_run(confirmation_start(true), seq![first, second]) == confirmation_end(
            Response::Success,
        ) <==> token_found(first) && marked(second),
        first == ConfirmationEvent::LookedUp(Ok(None)) ==> confirmation_run(
            confirmation_start(true),
            seq![first],
        ) == confirmation_end(Response::Unauthorized),
        first matches ConfirmationEvent::LookedUp(Err(_)) ==> confirmation_run(
            confirmation_start(true),
            seq![first],
        ) == confirmation_end(Response::InternalServerError),
        first matches ConfirmationEvent::LookedUp(Ok(Some(id))) ==> confirmation_next(
            ConfirmationStage::LookingUp,
            first,
        ).action == ConfirmationAction::MarkConfirmed(id),
{
    let start = confirmation_start(true);
    let one = confirmation_next(start.stage, first);
    let events = seq![first, second];
    assert(events.drop_first() =~= seq![second]);
    assert(seq![second].drop_first() =~= Seq::<ConfirmationEvent>::empty());
    assert(seq![first].drop_first() =~= Seq::<ConfirmationEvent>::empty());
    reveal_with_fuel(confirmation_run, 3);
    assert(confirmation_run(start, events) == confirmation_next(one.stage, second));
    assert(confirmation_run(start, seq![first]) == one);
}

/// Redeeming a token a second time is answered as the first time. The answer
/// does not depend on the status that the subscriber already has, so
/// confirming a confirmed subscriber succeeds again.
pub proof fn confirming_twice_succeeds_twice(id: u128)
    ensures
        confirmation_run(
            confirmation_start(true),
            seq![ConfirmationEvent::LookedUp(Ok(Some(id))), ConfirmationEvent::Marked(Ok(()))],
        ) == confirmation_end(Response::Success),
{
    confirmation_outcomes(
        ConfirmationEvent::LookedUp(Ok(Some(id))),
        ConfirmationEvent::Marked(Ok(())),
    );
}

} // verus!
