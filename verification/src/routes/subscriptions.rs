use crate::db::types::Store;
use crate::domain::new_subscriber::NewSubscriber;
use crate::domain::subscriber_email::{email_rejection, is_valid_email, SubscriberEmail};
use crate::domain::subscriber_name::{is_valid_name, name_rejection, SubscriberName};
use crate::events::channel::EventChannel;
use crate::handlers::save_new_subscriber::{
    after_publication,
    registration_effect,
    save_new_subscriber,
    SaveNewSubscriberError,
    SaveNewSubscriberOutput,
};
use crate::identifiers::is_random_identifier;
use crate::routes::response::Response;
use vstd::prelude::*;

verus! {

/// What the subscription form holds.
#[derive(Debug)]
pub struct FormData {
    pub email: String,
    pub name: String,
}

/// Whether the form holds a valid name and a valid email address.
pub open spec fn is_valid_form(form: FormData) -> bool {
    is_valid_name(form.name@) && is_valid_email(form.email@)
}

/// Why a form is refused: for its name, or else for its email address.
pub open spec fn form_rejection(form: FormData) -> Seq<char> {
    if !is_valid_name(form.name@) {
        name_rejection(form.name@)
    } else {
        email_rejection(form.email@)
    }
}

impl NewSubscriber {
    /// The subscriber that the form describes, where its name and its email
    /// address are valid. The name is looked at first.
    pub fn try_from(value: FormData) -> (subscriber: Result<NewSubscriber, String>)
        ensures
            is_valid_form(value) ==> subscriber is Ok && subscriber->Ok_0.email@ == value.email@
                && subscriber->Ok_0.name@ == value.name@,
            !is_valid_form(value) ==> subscriber is Err && subscriber->Err_0@ == form_rejection(
                value,
            ),
    {
        let name = match SubscriberName::parse(value.name) {
            Ok(name) => name,
            Err(reason) => {
                return Err(reason);
            },
        };
        let email = match SubscriberEmail::parse(value.email) {
            Ok(email) => email,
            Err(reason) => {
                return Err(reason);
            },
        };
        Ok(NewSubscriber { email, name })
    }
}

/// The answer to a registration that ended with `result`.
pub open spec fn registration_response(
    result: Result<SaveNewSubscriberOutput, SaveNewSubscriberError>,
) -> Response {
    match result {
        Ok(SaveNewSubscriberOutput::AlreadySubscribed) => Response::Conflict,
        Ok(_) => Response::Success,
        Err(_) => Response::InternalServerError,
    }
}

/// The answer to a registration that ended with `result`: a conflict for a
/// confirmed address, an internal error for a failure, and success
/// otherwise.
pub fn respond_to_registration(
    result: &Result<SaveNewSubscriberOutput, SaveNewSubscriberError>,
) -> (response: Response)
    ensures
        response == registration_response(*result),
{
    match result {
        Ok(SaveNewSubscriberOutput::AlreadySubscribed) => Response::Conflict,
        Ok(_) => Response::Success,
        Err(_) => Response::InternalServerError,
    }
}

/// Answers a request to subscribe. A request whose form could not be read
/// (`None`), or whose name or email address is not valid, is a bad request
/// and touches neither the store nor the event channel. Any other is
/// registered, and answered by how the registration ended.
pub fn subscribe(form: Option<FormData>, store: &mut Store, channel: &mut EventChannel) -> (response:
    Response)
    ensures
        form is None || !is_valid_form(form->Some_0) ==> response == Response::BadRequest,
        form is None || !is_valid_form(form->Some_0) ==> final(store)@ == old(store)@,
        form is None || !is_valid_form(form->Some_0) ==> final(channel)@ == old(channel)@,
        form is Some && is_valid_form(form->Some_0) ==> exists|
            subscriber: NewSubscriber,
            candidate_id: u128,
            subscribed_at: i64,
            token: u128,
        |
            {
                let effect = #[trigger] registration_effect(
                    old(store)@,
                    subscriber,
                    candidate_id,
                    subscribed_at,
                    token,
                );
                &&& subscriber.email@ == form->Some_0.email@
                &&& subscriber.name@ == form->Some_0.name@
                &&& is_random_identifier(candidate_id)
                &&& is_random_identifier(token)
                &&& final(store)@ == effect.store
                &&& final(channel)@ == after_publication(old(channel)@, effect)
                &&& response == registration_response(effect.result)
            },
{
    let form = match form {
        Some(form) => form,
        None => {
            return Response::BadRequest;
        },
    };
    let new_subscriber = match NewSubscriber::try_from(form) {
        Ok(new_subscriber) => new_subscriber,
        Err(_) => {
            return Response::BadRequest;
        },
    };
    let result = save_new_subscriber(store, channel, new_subscriber);
    proof {
        let (candidate_id, subscribed_at, token) = choose|
            candidate_id: u128,
            subscribed_at: i64,
            token: u128,
        |
            {
                let effect = #[trigger] registration_effect(
                    old(store)@,
                    new_subscriber,
                    candidate_id,
                    subscribed_at,
                    token,
                );
                &&& is_random_identifier(candidate_id)
                &&& is_random_identifier(token)
                &&& store@ == effect.store
                &&& result == effect.result
                &&& channel@ == after_publication(old(channel)@, effect)
            };
        let effect = registration_effect(
            old(store)@,
            new_subscriber,
            candidate_id,
            subscribed_at,
            token,
        );
        assert(store@ == effect.store && channel@ == after_publication(old(channel)@, effect));
    }
    respond_to_registration(&result)
}

} // verus!
