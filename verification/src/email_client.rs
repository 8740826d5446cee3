//! The client of the mail provider, and a mail provider to send to.

use crate::config::Config;
use crate::domain::subscriber_email::SubscriberEmail;
use vstd::prelude::*;

verus! {

/// The recipients of one copy of a message.
#[derive(Debug)]
pub struct Personalization {
    pub to: Vec<Email>,
}

/// An email address in a request to the mail provider.
#[derive(Debug)]
pub struct Email {
    pub email: String,
}

/// One body of a message, with the kind of content it is.
#[derive(Debug)]
pub struct Content {
    pub content_type: String,
    pub value: String,
}

/// The request that asks the mail provider to send one message.
#[derive(Debug)]
pub struct SendEmailRequest {
    pub personalizations: Vec<Personalization>,
    pub from: Email,
    pub subject: String,
    pub content: Vec<Content>,
}

/// The path of the mail provider's send operation.
pub open spec fn send_path() -> Seq<char> {
    "/mail/send"@
}

/// Whether `request` asks for one plain-text message from `sender` to
/// `recipient`, and for nothing else.
pub open spec fn is_message(
    request: SendEmailRequest,
    sender: Seq<char>,
    recipient: Seq<char>,
    subject: Seq<char>,
    text_content: Seq<char>,
) -> bool {
    &&& request.personalizations@.len() == 1
    &&& request.personalizations@[0].to@.len() == 1
    &&& request.personalizations@[0].to@[0].email@ == recipient
    &&& request.from.email@ == sender
    &&& request.subject@ == subject
    &&& request.content@.len() == 1
    &&& request.content@[0].content_type@ == "text/plain"@
    &&& request.content@[0].value@ == text_content
}

/// Whether an answer with the status code `status` says that the message
/// was taken: the code is one of the 2xx.
pub open spec fn is_success_status(status: u16) -> bool {
    200 <= status < 300
}

/// Whether a send counts as delivered, where `status` is the status code of
/// the answer and `None` stands for no answer in time.
pub open spec fn is_delivered(status: Option<u16>) -> bool {
    match status {
        Some(code) => is_success_status(code),
        None => false,
    }
}

/// Decides whether a send counts as delivered: any answer but a 2xx is a
/// failure, and so is no answer in time.
pub fn delivered(status: Option<u16>) -> (ok: bool)
    ensures
        ok == is_delivered(status),
{
    match status {
        Some(code) => 200 <= code && code < 300,
        None => false,
    }
}

/// A message could not be delivered.
#[derive(Debug, PartialEq, Eq, Clone, Copy, Structural)]
pub enum DeliveryError {
    /// The mail provider did not answer in time.
    TimedOut,
    /// The mail provider answered with this status code, which is no 2xx.
    Refused(u16),
}

/// Why a send failed, or `None` where it counts as delivered.
pub open spec fn delivery_error(status: Option<u16>) -> Option<DeliveryError> {
    match status {
        Some(code) => if is_success_status(code) {
            None
        } else {
            Some(DeliveryError::Refused(code))
        },
        None => Some(DeliveryError::TimedOut),
    }
}

/// A mail provider: it answers every request with the same status code
/// after the same delay, and keeps what it was sent.
pub struct MailProvider {
    pub status: u16,
    pub delay_millis: u64,
    pub received: Vec<SendEmailRequest>,
}

/// Whether the provider `after` is the provider `before` with `count` more
/// requests received, behind those it had.
pub open spec fn has_received_more(before: MailProvider, after: MailProvider, count: nat) -> bool {
    &&& after.status == before.status
    &&& after.delay_millis == before.delay_millis
    &&& after.received@.len() == before.received@.len() + count
    &&& after.received@.take(before.received@.len() as int) == before.received@
}

impl MailProvider {
    /// A provider that answers with `status` after `delay_millis` and that
    /// has received nothing yet.
    pub fn new(status: u16, delay_millis: u64) -> (provider: MailProvider)
        ensures
            provider.status == status,
            provider.delay_millis == delay_millis,
            provider.received@.len() == 0,
    {
        MailProvider { status, delay_millis, received: Vec::new() }
    }

    /// What a client that waits for `timeout_millis` learns of the answer:
    /// the status code, or nothing where the answer takes longer.
    pub open spec fn answer_within(self, timeout_millis: u64) -> Option<u16> {
        if self.delay_millis <= timeout_millis {
            Some(self.status)
        } else {
            None
        }
    }

    /// Takes `request`, and answers a client that waits for
    /// `timeout_millis`.
    pub fn accept(&mut self, request: SendEmailRequest, timeout_millis: u64) -> (answer: Option<
        u16,
    >)
        ensures
            answer == old(self).answer_within(timeout_millis),
            final(self).status == old(self).status,
            final(self).delay_millis == old(self).delay_millis,
            final(self).received@ == old(self).received@.push(request),
    {
        self.received.push(request);
        if self.delay_millis <= timeout_millis {
            Some(self.status)
        } else {
            None
        }
    }
}

/// The client of the mail provider: who sends, where to, and how long it
/// waits for the answer.
pub struct EmailClient {
    pub sender: String,
    pub base_url: String,
    pub timeout_millis: u64,
}

impl EmailClient {
    /// The client that `config` describes.
    pub fn new(config: &Config) -> (client: EmailClient)
        ensures
            client.sender@ == config.email_client_sender_email@,
            client.base_url@ == config.email_client_base_url@,
            client.timeout_millis == config.email_client_timeout_seconds * 1000,
    {
        EmailClient {
            sender: config.email_client_sender_email.clone(),
            base_url: config.email_client_base_url.clone(),
            timeout_millis: (config.email_client_timeout_seconds as u64) * 1000,
        }
    }

    /// The address that a message is posted to.
    pub fn send_url(&self) -> (url: String)
        ensures
            url@ == self.base_url@ + send_path(),
    {
        let mut url = self.base_url.clone();
        url.append("/mail/send");
        url
    }

    /// The request for one plain-text message to `recipient`.
    pub fn request(&self, recipient: &SubscriberEmail, subject: &str, text_content: &str) -> (request:
        SendEmailRequest)
        ensures
            is_message(request, self.sender@, recipient@, subject@, text_content@),
    {
        let mut to: Vec<Email> = Vec::new();
        to.push(Email { email: recipient.as_ref().to_owned() });
        let mut personalizations: Vec<Personalization> = Vec::new();
        personalizations.push(Personalization { to });
        let mut content: Vec<Content> = Vec::new();
        content.push(
            Content { content_type: String::from_str("text/plain"), value: text_content.to_owned() },
        );
        SendEmailRequest {
            personalizations,
            from: Email { email: self.sender.clone() },
            subject: subject.to_owned(),
            content,
        }
    }

    /// Sends one plain-text message to `recipient` through `provider`, once.
    /// The provider receives the request in any case. The send fails where
    /// the provider takes longer to answer than the client waits, and where
    /// its answer is no 2xx.
    pub fn send_email(
        &self,
        provider: &mut MailProvider,
        recipient: &SubscriberEmail,
        subject: &str,
        text_content: &str,
    ) -> (sent: Result<(), DeliveryError>)
        ensures
            has_received_more(*old(provider), *final(provider), 1),
            is_message(
                final(provider).received@.last(),
                self.sender@,
                recipient@,
                subject@,
                text_content@,
            ),
            match delivery_error(old(provider).answer_within(self.timeout_millis)) {
                Some(error) => sent == Err::<(), DeliveryError>(error),
                None => sent is Ok,
            },
    {
        let request = self.request(recipient, subject, text_content);
        let answer = provider.accept(request, self.timeout_millis);
        proof {
            let before = old(provider).received@;
            assert(provider.received@.take(before.len() as int) =~= before);
        }
        match answer {
            Some(code) => if delivered(answer) {
                Ok(())
            } else {
                Err(DeliveryError::Refused(code))
            },
            None => Err(DeliveryError::TimedOut),
        }
    }
}

} // verus!
