use crate::db::types::Store;
use crate::handlers::confirm_subscription::{
    confirm_subscription,
    confirmation_output,
    confirmed_store,
    ConfirmSubscriptionError,
    ConfirmSubscriptionOutput,
};
use crate::identifiers::{parse_identifier, parsed_identifier};
use crate::routes::response::Response;
use vstd::prelude::*;

verus! {

/// What the query of a confirmation holds.
#[derive(Debug)]
pub struct Parameters {
    pub subscription_token: String,
}

/// Whether a text has the form of a token.
pub open spec fn is_well_formed_token(text: Seq<char>) -> bool {
    parsed_identifier(text) is Some
}

/// The answer to a confirmation that ended with `result`.
pub open spec fn confirmation_response(
    result: Result<ConfirmSubscriptionOutput, ConfirmSubscriptionError>,
) -> Response {
    match result {
        Ok(ConfirmSubscriptionOutput::Success) => Response::Success,
        Ok(ConfirmSubscriptionOutput::TokenNotFound) => Response::Unauthorized,
        Err(_) => Response::InternalServerError,
    }
}

/// The answer to a confirmation that ended with `result`. A token that is
/// not found is unauthorized, whether it was never issued or was used.
pub fn respond_to_confirmation(
    result: &Result<ConfirmSubscriptionOutput, ConfirmSubscriptionError>,
) -> (response: Response)
    ensures
        response == confirmation_response(*result),
{
    match result {
        Ok(ConfirmSubscriptionOutput::Success) => Response::Success,
        Ok(ConfirmSubscriptionOutput::TokenNotFound) => Response::Unauthorized,
        Err(_) => Response::InternalServerError,
    }
}

/// The answer to a confirmation with a token of which `well_formed` says
/// whether it has the form of a token.
pub open spec fn checked_confirmation_response(
    store: crate::db::model::StoreState,
    token: Seq<char>,
    well_formed: bool,
) -> Response {
    if well_formed {
        confirmation_response(Ok(confirmation_output(store, token)))
    } else {
        Response::BadRequest
    }
}

/// Confirms with a token whose form has been checked. A token that is not
/// well formed is a bad request and never reaches the store.
pub fn confirm_checked(subscription_token: &str, well_formed: bool, store: &mut Store) -> (response:
    Response)
    ensures
        response == checked_confirmation_response(old(store)@, subscription_token@, well_formed),
        well_formed ==> final(store)@ == confirmed_store(old(store)@, subscription_token@),
        !well_formed ==> final(store)@ == old(store)@,
{
    if well_formed {
        let result = confirm_subscription(subscription_token, store);
        respond_to_confirmation(&result)
    } else {
        Response::BadRequest
    }
}

/// Answers a request to confirm. A request without a token (`None`) or
/// with a token that is not well formed is a bad request and never reaches
/// the store.
pub fn subscriptions_confirm(parameters: Option<Parameters>, store: &mut Store) -> (response:
    Response)
    ensures
        parameters is None ==> response == Response::BadRequest && final(store)@ == old(store)@,
        parameters is Some ==> response == checked_confirmation_response(
            old(store)@,
            parameters->Some_0.subscription_token@,
            is_well_formed_token(parameters->Some_0.subscription_token@),
        ),
        parameters is Some && is_well_formed_token(parameters->Some_0.subscription_token@)
            ==> final(store)@ == confirmed_store(
            old(store)@,
            parameters->Some_0.subscription_token@,
        ),
        parameters is Some && !is_well_formed_token(parameters->Some_0.subscription_token@)
            ==> final(store)@ == old(store)@,
{
    match parameters {
        Some(parameters) => {
            let well_formed = parse_identifier(parameters.subscription_token.as_str()).is_some();
            confirm_checked(parameters.subscription_token.as_str(), well_formed, store)
        },
        None => Response::BadRequest,
    }
}

} // verus!
