//! The settings of the service, built once and handed to each component.

use crate::text::{chars_of, decimal, push_decimal};
use vstd::prelude::*;

verus! {

/// The settings that the service's logic reads. Secrets are not among them:
/// whoever connects to the database or to the mail provider holds those.
#[derive(Debug)]
pub struct Config {
    pub application_id: String,
    pub application_host: String,
    pub application_port: u16,
    pub application_protocol: String,
    pub nats_host: String,
    pub nats_port: u16,
    pub nats_subscription_created_subject: String,
    pub nats_subscription_created_group: String,
    pub email_client_sender_email: String,
    pub email_client_base_url: String,
    pub email_client_timeout_seconds: u16,
}

/// The address under which the application is reached:
/// `protocol://host:port`.
pub open spec fn base_url_of(protocol: Seq<char>, host: Seq<char>, port: u16) -> Seq<char> {
    protocol + "://"@ + host + ":"@ + decimal(port as nat)
}

/// The subject of an application's events of one kind: the application's
/// identifier, a hyphen, and the name of the kind.
pub open spec fn subject_of(application_id: Seq<char>, kind: Seq<char>) -> Seq<char> {
    application_id + "-"@ + kind
}

impl Config {
    /// The address under which the application is reached.
    pub open spec fn base_url(&self) -> Seq<char> {
        base_url_of(self.application_protocol@, self.application_host@, self.application_port)
    }

    /// The subject on which registrations publish their events.
    pub open spec fn subscription_created_subject(&self) -> Seq<char> {
        subject_of(self.application_id@, self.nats_subscription_created_subject@)
    }

    /// The address under which the application is reached.
    pub fn application_base_url(&self) -> (url: String)
        ensures
            url@ == self.base_url(),
    {
        let mut url = self.application_protocol.clone();
        url.append("://");
        url.append(self.application_host.as_str());
        url.append(":");
        push_decimal(&mut url, self.application_port as u64);
        url
    }

    /// The subject on which registrations publish their events.
    pub fn nats_subscription_created_subject(&self) -> (subject: String)
        ensures
            subject@ == self.subscription_created_subject(),
    {
        let mut subject = self.application_id.clone();
        subject.append("-");
        subject.append(self.nats_subscription_created_subject.as_str());
        subject
    }

    /// The queue group in which the delivery workers share the events.
    pub fn nats_subscription_created_group(&self) -> (group: String)
        ensures
            group@ == self.nats_subscription_created_group@,
    {
        self.nats_subscription_created_group.clone()
    }
}

/// Whether the first `=` of a line stands at place `at`.
pub open spec fn assignment_at(line: Seq<char>, at: int) -> bool {
    &&& 0 <= at < line.len()
    &&& line[at] == '='
    &&& forall|j: int| 0 <= j < at ==> line[j] != '='
}

/// Whether a line holds no `=`, and so assigns nothing.
pub open spec fn assigns_nothing(line: Seq<char>) -> bool {
    forall|j: int| 0 <= j < line.len() ==> line[j] != '='
}

/// Reads one line of a settings file. A line with an `=` assigns: what
/// stands before the first `=` is the name of a setting, and what stands
/// behind it, whatever it is, is the value. A line without one assigns
/// nothing.
pub fn split_assignment(line: &str) -> (assignment: Option<(String, String)>)
    ensures
        match assignment {
            Some((name, value)) => exists|at: int|
                #![trigger assignment_at(line@, at)]
                assignment_at(line@, at) && name@ == line@.subrange(0, at) && value@
                    == line@.subrange(at + 1, line@.len() as int),
            None => assigns_nothing(line@),
        },
{
    let chars = chars_of(line);
    let mut i: usize = 0;
    while i < chars.len()
        invariant
            i <= chars.len(),
            chars@ == line@,
            forall|j: int| 0 <= j < i ==> line@[j] != '=',
        decreases chars.len() - i,
    {
        if chars[i] == '=' {
            let name = line.substring_char(0, i);
            let value = line.substring_char(i + 1, chars.len());
            proof {
                assert(assignment_at(line@, i as int));
            }
            return Some((name.to_owned(), value.to_owned()));
        }
        i += 1;
    }
    None
}

} // verus!
