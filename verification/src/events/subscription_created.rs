use crate::config::Config;
use crate::db::model::StoreState;
use crate::db::subscription_queries::SubscriptionQueries;
use crate::db::transaction::{begin_transaction, commit_transaction};
use crate::db::types::Store;
use crate::domain::new_subscriber::NewSubscriber;
use crate::domain::subscriber_email::SubscriberEmail;
use crate::domain::subscriber_name::SubscriberName;
use crate::domain::subscription_status::SubscriptionStatus;
use crate::email_client::{
    delivery_error,
    has_received_more,
    is_message,
    EmailClient,
    MailProvider,
    SendEmailRequest,
};
use crate::events::channel::EventChannel;
use crate::handlers::reply::Reply;
use crate::identifiers::{hyphenated, identifier_text};
use vstd::prelude::*;

verus! {

/// What the event says, as plain values.
pub struct EventPayload {
    pub email: Seq<char>,
    pub name: Seq<char>,
    pub subscription_token: u128,
    pub subscription_id: u128,
}

/// The event that a registration publishes once its token is committed.
#[derive(Debug)]
pub struct SubscriptionCreated {
    pub email: SubscriberEmail,
    pub name: SubscriberName,
    pub subscription_token: u128,
    pub subscription_id: u128,
}

impl View for SubscriptionCreated {
    type V = EventPayload;

    open spec fn view(&self) -> EventPayload {
        EventPayload {
            email: self.email@,
            name: self.name@,
            subscription_token: self.subscription_token,
            subscription_id: self.subscription_id,
        }
    }
}

/// What the event for `subscriber` says.
pub open spec fn payload_for(
    subscriber: NewSubscriber,
    subscription_id: u128,
    subscription_token: u128,
) -> EventPayload {
    EventPayload {
        email: subscriber.email@,
        name: subscriber.name@,
        subscription_token,
        subscription_id,
    }
}

impl SubscriptionCreated {
    /// The event for the subscription `subscription_id` of `subscriber`,
    /// which is to be confirmed with `subscription_token`.
    pub fn new(subscriber: NewSubscriber, subscription_id: u128, subscription_token: u128) -> (event:
        SubscriptionCreated)
        ensures
            event@ == payload_for(subscriber, subscription_id, subscription_token),
    {
        SubscriptionCreated {
            email: subscriber.email,
            name: subscriber.name,
            subscription_token,
            subscription_id,
        }
    }
}

/// How the delivery of one event ended.
#[derive(Debug, PartialEq, Eq, Clone, Copy, Structural)]
pub enum DeliveryOutput {
    /// The message could not be read as an event; it was dropped.
    Dropped,
    /// The confirmation email was sent.
    Sent,
    /// The email could not be sent. The token was withdrawn as far as that
    /// was possible, and `marked` says whether the subscription was set to
    /// failed.
    Compensated { marked: bool },
}

/// The step of a delivery that failed.
#[derive(Debug, PartialEq, Eq, Clone, Copy, Structural)]
pub enum DeliveryFault {
    /// No transaction could be opened.
    AcquireTransaction,
    /// The transaction could not be committed.
    CommitTransaction,
}

/// A delivery whose compensation failed, with the step that failed.
#[derive(Debug, PartialEq, Eq, Clone, Copy, Structural)]
pub struct ProcessError(pub DeliveryFault);

impl DeliveryFault {
    /// What went wrong, in words.
    pub open spec fn description(self) -> Seq<char> {
        match self {
            DeliveryFault::AcquireTransaction => "Failed to acquire a transaction"@,
            DeliveryFault::CommitTransaction => "Failed to commit the transaction"@,
        }
    }
}

impl ProcessError {
    /// What went wrong, in words.
    pub fn to_string(&self) -> (text: String)
        ensures
            text@ == self.0.description(),
    {
        match self.0 {
            DeliveryFault::AcquireTransaction => String::from_str("Failed to acquire a transaction"),
            DeliveryFault::CommitTransaction => String::from_str("Failed to commit the transaction"),
        }
    }
}

/// Where the delivery of one event stands: the step that is to be taken
/// next, or how the delivery ended.
#[derive(Debug, PartialEq, Eq, Clone, Copy, Structural)]
pub enum DeliveryStep {
    /// Send the confirmation email, once.
    SendEmail,
    /// The email could not be sent: open a transaction to compensate.
    BeginTransaction,
    /// Set the status of the subscription to failed.
    MarkFailed,
    /// Delete the token, which no email carries.
    DeleteToken { marked: bool },
    /// Commit the transaction.
    CommitTransaction { marked: bool },
    /// The delivery ended with this output.
    Done(DeliveryOutput),
    /// The compensation failed at this step.
    Failed(DeliveryFault),
}

impl DeliveryStep {
    /// Where the delivery of a message starts: a message that could be read
    /// as an event is sent, and any other is dropped.
    pub open spec fn start(readable: bool) -> DeliveryStep {
        if readable {
            DeliveryStep::SendEmail
        } else {
            DeliveryStep::Done(DeliveryOutput::Dropped)
        }
    }

    /// Whether the delivery has ended.
    pub open spec fn is_final(self) -> bool {
        self is Done || self is Failed
    }

    /// The step that follows `self` once the outside has answered it with
    /// `reply`. Any answer but `Completed` counts as a failure of the step.
    /// A failed send is not tried again. A status that could not be set does
    /// not keep the token from being deleted, and a token that could not be
    /// deleted does not keep the transaction from being committed.
    pub open spec fn next(self, reply: Reply) -> DeliveryStep {
        match self {
            DeliveryStep::SendEmail => match reply {
                Reply::Completed => DeliveryStep::Done(DeliveryOutput::Sent),
                _ => DeliveryStep::BeginTransaction,
            },
            DeliveryStep::BeginTransaction => match reply {
                Reply::Completed => DeliveryStep::MarkFailed,
                _ => DeliveryStep::Failed(DeliveryFault::AcquireTransaction),
            },
            DeliveryStep::MarkFailed => match reply {
                Reply::Completed => DeliveryStep::DeleteToken { marked: true },
                _ => DeliveryStep::DeleteToken { marked: false },
            },
            DeliveryStep::DeleteToken { marked } => DeliveryStep::CommitTransaction { marked },
            DeliveryStep::CommitTransaction { marked } => match reply {
                Reply::Completed => DeliveryStep::Done(DeliveryOutput::Compensated { marked }),
                _ => DeliveryStep::Failed(DeliveryFault::CommitTransaction),
            },
            DeliveryStep::Done(output) => DeliveryStep::Done(output),
            DeliveryStep::Failed(fault) => DeliveryStep::Failed(fault),
        }
    }

    /// How a delivery that stands at `self` ends when nothing more is done:
    /// with its output where it is done, and as a failure otherwise, of the
    /// commit where the transaction is open and of its opening before that.
    pub open spec fn settled(self) -> Result<DeliveryOutput, ProcessError> {
        match self {
            DeliveryStep::Done(output) => Ok(output),
            DeliveryStep::Failed(fault) => Err(ProcessError(fault)),
            DeliveryStep::SendEmail => Err(ProcessError(DeliveryFault::AcquireTransaction)),
            DeliveryStep::BeginTransaction => Err(ProcessError(DeliveryFault::AcquireTransaction)),
            DeliveryStep::MarkFailed => Err(ProcessError(DeliveryFault::CommitTransaction)),
            DeliveryStep::DeleteToken { .. } => Err(ProcessError(DeliveryFault::CommitTransaction)),
            DeliveryStep::CommitTransaction { .. } => Err(
                ProcessError(DeliveryFault::CommitTransaction),
            ),
        }
    }

    /// The first step of the delivery of a message.
    pub fn begin(readable: bool) -> (step: DeliveryStep)
        ensures
            step == Self::start(readable),
    {
        if readable {
            DeliveryStep::SendEmail
        } else {
            DeliveryStep::Done(DeliveryOutput::Dropped)
        }
    }

    /// Takes the answer to the step `self` and gives the step that follows.
    pub fn advance(self, reply: Reply) -> (following: DeliveryStep)
        ensures
            following == self.next(reply),
    {
        match self {
            DeliveryStep::SendEmail => match reply {
                Reply::Completed => DeliveryStep::Done(DeliveryOutput::Sent),
                _ => DeliveryStep::BeginTransaction,
            },
            DeliveryStep::BeginTransaction => match reply {
                Reply::Completed => DeliveryStep::MarkFailed,
                _ => DeliveryStep::Failed(DeliveryFault::AcquireTransaction),
            },
            DeliveryStep::MarkFailed => match reply {
                Reply::Completed => DeliveryStep::DeleteToken { marked: true },
                _ => DeliveryStep::DeleteToken { marked: false },
            },
            DeliveryStep::DeleteToken { marked } => DeliveryStep::CommitTransaction { marked },
            DeliveryStep::CommitTransaction { marked } => match reply {
                Reply::Completed => DeliveryStep::Done(DeliveryOutput::Compensated { marked }),
                _ => DeliveryStep::Failed(DeliveryFault::CommitTransaction),
            },
            DeliveryStep::Done(output) => DeliveryStep::Done(output),
            DeliveryStep::Failed(fault) => DeliveryStep::Failed(fault),
        }
    }

    /// Ends the delivery where it stands.
    pub fn settle(self) -> (result: Result<DeliveryOutput, ProcessError>)
        ensures
            result == self.settled(),
    {
        match self {
            DeliveryStep::Done(output) => Ok(output),
            DeliveryStep::Failed(fault) => Err(ProcessError(fault)),
            DeliveryStep::SendEmail => Err(ProcessError(DeliveryFault::AcquireTransaction)),
            DeliveryStep::BeginTransaction => Err(ProcessError(DeliveryFault::AcquireTransaction)),
            DeliveryStep::MarkFailed => Err(ProcessError(DeliveryFault::CommitTransaction)),
            DeliveryStep::DeleteToken { .. } => Err(ProcessError(DeliveryFault::CommitTransaction)),
            DeliveryStep::CommitTransaction { .. } => Err(
                ProcessError(DeliveryFault::CommitTransaction),
            ),
        }
    }
}

/// The subject of the confirmation email.
pub open spec fn confirmation_subject() -> Seq<char> {
    "Subscription confirmation"@
}

/// The link that confirms with `token`, at the application reached under
/// `base_url`.
pub open spec fn confirmation_link(base_url: Seq<char>, token: u128) -> Seq<char> {
    base_url + "/subscriptions/confirm?subscription_token="@ + hyphenated(token)
}

/// The text of the confirmation email, which carries the link.
pub open spec fn confirmation_text(base_url: Seq<char>, token: u128) -> Seq<char> {
    "Welcome to our newsletter!\nVisit "@ + confirmation_link(base_url, token)
        + " to confirm your subscription"@
}

/// Whether `request` is the confirmation email for `event`: one plain-text
/// message from the client's sender to the subscriber, with the
/// confirmation text that carries the link with the event's token.
pub open spec fn is_confirmation_email(
    request: SendEmailRequest,
    config: Config,
    email_client: EmailClient,
    event: EventPayload,
) -> bool {
    is_message(
        request,
        email_client.sender@,
        event.email,
        confirmation_subject(),
        confirmation_text(
            config.base_url(),
            event.subscription_token,
        ),
    )
}

/// The store after the compensation for the email of `event`, which could
/// not be sent: the subscription is failed and the token is gone.
pub open spec fn compensated_store(store: StoreState, event: EventPayload) -> StoreState {
    store.with_status(event.subscription_id, SubscriptionStatus::Failed).without_token(
        hyphenated(event.subscription_token),
    )
}

/// The store after the delivery of `message`, to which the mail provider
/// gave `answer`: only a readable event whose email could not be sent
/// changes the store.
pub open spec fn delivered_store(
    store: StoreState,
    message: Option<EventPayload>,
    answer: Option<u16>,
) -> StoreState {
    match message {
        Some(event) => if delivery_error(answer) is Some {
            compensated_store(store, event)
        } else {
            store
        },
        None => store,
    }
}

/// The output of the delivery of `message`, to which the mail provider gave
/// `answer`.
pub open spec fn delivery_output(message: Option<EventPayload>, answer: Option<u16>) -> DeliveryOutput {
    match message {
        Some(_) => if delivery_error(answer) is Some {
            DeliveryOutput::Compensated { marked: true }
        } else {
            DeliveryOutput::Sent
        },
        None => DeliveryOutput::Dropped,
    }
}

impl SubscriptionCreated {
    /// The link that confirms the subscription of this event.
    pub fn confirmation_link(&self, config: &Config) -> (link: String)
        ensures
            link@ == confirmation_link(
                config.base_url(),
                self.subscription_token,
            ),
    {
        let mut link = config.application_base_url();
        link.append("/subscriptions/confirm?subscription_token=");
        link.append(identifier_text(self.subscription_token).as_str());
        link
    }

    /// The text of the confirmation email for this event.
    pub fn confirmation_text(&self, config: &Config) -> (text: String)
        ensures
            text@ == confirmation_text(
                config.base_url(),
                self.subscription_token,
            ),
    {
        let mut text = String::from_str("Welcome to our newsletter!\nVisit ");
        text.append(self.confirmation_link(config).as_str());
        text.append(" to confirm your subscription");
        text
    }

    /// Handles one message from the event channel. A message that could not
    /// be read as an event (`None`) is dropped. For an event, the
    /// confirmation email is sent through `provider`, once. Where that
    /// fails, one transaction sets the subscription to failed and deletes the
    /// token, so that the link that nobody received can never confirm.
    pub fn process(
        config: &Config,
        email_client: &EmailClient,
        provider: &mut MailProvider,
        store: &mut Store,
        message: Option<SubscriptionCreated>,
    ) -> (result: Result<DeliveryOutput, ProcessError>)
        ensures
            final(store)@ == delivered_store(
                old(store)@,
                option_payload(message),
                old(provider).answer_within(email_client.timeout_millis),
            ),
            result == Ok::<DeliveryOutput, ProcessError>(
                delivery_output(
                    option_payload(message),
                    old(provider).answer_within(email_client.timeout_millis),
                ),
            ),
            message is None ==> *final(provider) == *old(provider),
            message is Some ==> has_received_more(*old(provider), *final(provider), 1)
                && is_confirmation_email(
                final(provider).received@.last(),
                *config,
                *email_client,
                message->Some_0@,
            ),
    {
        let step = DeliveryStep::begin(message.is_some());
        let event = match message {
            Some(event) => event,
            None => {
                return step.settle();
            },
        };
        let text_content = event.confirmation_text(config);
        let sent = email_client.send_email(
            provider,
            &event.email,
            "Subscription confirmation",
            text_content.as_str(),
        );
        let step = step.advance(
            match sent {
                Ok(_) => Reply::Completed,
                Err(_) => Reply::Failed,
            },
        );
        match step {
            DeliveryStep::BeginTransaction => {},
            ended => {
                return ended.settle();
            },
        }
        let mut tx = begin_transaction(store);
        let step = step.advance(Reply::Completed);
        SubscriptionQueries::update_subscription_status(
            &mut tx,
            &event.subscription_id,
            SubscriptionStatus::Failed,
        );
        let step = step.advance(Reply::Completed);
        SubscriptionQueries::delete_token(
            &mut tx,
            identifier_text(event.subscription_token).as_str(),
        );
        let step = step.advance(Reply::Completed);
        commit_transaction(tx, store);
        let step = step.advance(Reply::Completed);
        step.settle()
    }
}

/// What a message says, where it could be read as an event.
pub open spec fn option_payload(message: Option<SubscriptionCreated>) -> Option<EventPayload> {
    match message {
        Some(event) => Some(event@),
        None => None,
    }
}

/// The store after the delivery of the events `events`, oldest first, to
/// each of which the mail provider gave `answer`.
pub open spec fn drained_store(store: StoreState, events: Seq<EventPayload>, answer: Option<u16>) -> StoreState
    decreases events.len(),
{
    if events.len() == 0 {
        store
    } else {
        drained_store(
            delivered_store(store, Some(events[0]), answer),
            events.drop_first(),
            answer,
        )
    }
}

impl SubscriptionCreated {
    /// Works the event channel off: takes the events that wait, oldest
    /// first, and handles each as `process` does, until none waits. Returns
    /// how many were handled.
    pub fn subscribe(
        config: &Config,
        email_client: &EmailClient,
        provider: &mut MailProvider,
        store: &mut Store,
        channel: &mut EventChannel,
    ) -> (handled: usize)
        ensures
            handled == old(channel)@.len(),
            final(channel)@.len() == 0,
            final(store)@ == drained_store(
                old(store)@,
                old(channel)@,
                old(provider).answer_within(email_client.timeout_millis),
            ),
            has_received_more(*old(provider), *final(provider), handled as nat),
            forall|i: int|
                0 <= i < handled ==> is_confirmation_email(
                    #[trigger] final(provider).received@[old(provider).received@.len() + i],
                    *config,
                    *email_client,
                    old(channel)@[i],
                ),
    {
        let ghost answer = provider.answer_within(email_client.timeout_millis);
        let waiting = channel.len();
        let mut handled: usize = 0;
        proof {
            assert(provider.received@.take(provider.received@.len() as int) =~= provider.received@);
            assert(channel@.skip(0) =~= channel@);
        }
        while handled < waiting
            invariant
                waiting == old(channel)@.len(),
                provider.status == old(provider).status,
                provider.delay_millis == old(provider).delay_millis,
                answer == old(provider).answer_within(email_client.timeout_millis),
                handled + channel@.len() == old(channel)@.len(),
                channel@ == old(channel)@.skip(handled as int),
                has_received_more(*old(provider), *provider, handled as nat),
                forall|i: int|
                    0 <= i < handled ==> is_confirmation_email(
                        #[trigger] provider.received@[old(provider).received@.len() + i],
                        *config,
                        *email_client,
                        old(channel)@[i],
                    ),
                drained_store(store@, channel@, answer) == drained_store(
                    old(store)@,
                    old(channel)@,
                    answer,
                ),
            decreases channel@.len(),
        {
            let ghost earlier = provider.received@;
            let message = channel.next();
            let _ = Self::process(config, email_client, provider, store, message);
            proof {
                let start = old(provider).received@.len() as int;
                assert(channel@ =~= old(channel)@.skip(handled + 1));
                assert(message->Some_0@ == old(channel)@[handled as int]);
                assert(provider.received@.take(start) =~= earlier.take(start));
                assert forall|i: int| 0 <= i < handled + 1 implies is_confirmation_email(
                    #[trigger] provider.received@[start + i],
                    *config,
                    *email_client,
                    old(channel)@[i],
                ) by {
                    if i < handled {
                        assert(provider.received@[start + i] == earlier[start + i]);
                    } else {
                        assert(provider.received@[start + i] == provider.received@.last());
                    }
                }
            }
            handled += 1;
        }
        handled
    }
}

} // verus!
