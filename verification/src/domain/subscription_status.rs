use vstd::prelude::*;

verus! {

/// Where a subscription stands in the double opt-in lifecycle.
#[derive(Debug, PartialEq, Eq, Clone, Copy, Structural)]
pub enum SubscriptionStatus {
    /// Registered; the confirmation link has not been followed yet.
    Pending,
    /// The confirmation link was followed. Terminal.
    Confirmed,
    /// The confirmation email could not be sent; a new registration revives it.
    Failed,
}

impl SubscriptionStatus {
    /// The legal moves of the state machine: a pending subscription is
    /// confirmed or fails, a failed one becomes pending again, and a
    /// confirmed one never moves.
    pub open spec fn may_become(self, next: SubscriptionStatus) -> bool {
        ||| self == SubscriptionStatus::Pending && next == SubscriptionStatus::Confirmed
        ||| self == SubscriptionStatus::Pending && next == SubscriptionStatus::Failed
        ||| self == SubscriptionStatus::Failed && next == SubscriptionStatus::Pending
    }

    /// The name of the status as it is shown to people.
    pub open spec fn label(self) -> Seq<char> {
        match self {
            SubscriptionStatus::Pending => "Pending"@,
            SubscriptionStatus::Confirmed => "Confirmed"@,
            SubscriptionStatus::Failed => "Failed"@,
        }
    }

    /// The name of the status as the store's status column holds it.
    pub open spec fn column_text(self) -> Seq<char> {
        match self {
            SubscriptionStatus::Pending => "pending"@,
            SubscriptionStatus::Confirmed => "confirmed"@,
            SubscriptionStatus::Failed => "failed"@,
        }
    }

    /// The status that a column text stands for, if any.
    pub open spec fn of_column_text(text: Seq<char>) -> Option<SubscriptionStatus> {
        if text == "pending"@ {
            Some(SubscriptionStatus::Pending)
        } else if text == "confirmed"@ {
            Some(SubscriptionStatus::Confirmed)
        } else if text == "failed"@ {
            Some(SubscriptionStatus::Failed)
        } else {
            None
        }
    }

    /// Whether the state machine allows the move from `self` to `next`.
    pub fn can_become(&self, next: SubscriptionStatus) -> (allowed: bool)
        ensures
            allowed == self.may_become(next),
    {
        match (*self, next) {
            (SubscriptionStatus::Pending, SubscriptionStatus::Confirmed) => true,
            (SubscriptionStatus::Pending, SubscriptionStatus::Failed) => true,
            (SubscriptionStatus::Failed, SubscriptionStatus::Pending) => true,
            _ => false,
        }
    }

    /// Whether no move leaves this status.
    pub fn is_terminal(&self) -> (terminal: bool)
        ensures
            terminal == (forall|next: SubscriptionStatus| !self.may_become(next)),
    {
        match self {
            SubscriptionStatus::Confirmed => true,
            SubscriptionStatus::Pending => {
                assert(self.may_become(SubscriptionStatus::Confirmed));
                false
            },
            SubscriptionStatus::Failed => {
                assert(self.may_become(SubscriptionStatus::Pending));
                false
            },
        }
    }

    /// The label of the status: `Pending`, `Confirmed` or `Failed`.
    pub fn to_string(&self) -> (text: String)
        ensures
            text@ == self.label(),
    {
        match self {
            SubscriptionStatus::Pending => String::from_str("Pending"),
            SubscriptionStatus::Confirmed => String::from_str("Confirmed"),
            SubscriptionStatus::Failed => String::from_str("Failed"),
        }
    }

    /// The text stored in the status column: the label in lower case.
    pub fn as_column_text(&self) -> (text: String)
        ensures
            text@ == self.column_text(),
    {
        match self {
            SubscriptionStatus::Pending => String::from_str("pending"),
            SubscriptionStatus::Confirmed => String::from_str("confirmed"),
            SubscriptionStatus::Failed => String::from_str("failed"),
        }
    }

    /// Reads a status back from the text of the status column.
    pub fn from_column_text(text: &str) -> (status: Option<SubscriptionStatus>)
        ensures
            status == Self::of_column_text(text@),
    {
        let owned = text.to_owned();
        if owned == String::from_str("pending") {
            Some(SubscriptionStatus::Pending)
        } else if owned == String::from_str("confirmed") {
            Some(SubscriptionStatus::Confirmed)
        } else if owned == String::from_str("failed") {
            Some(SubscriptionStatus::Failed)
        } else {
            None
        }
    }
}

/// Writing a status to the status column and reading it back gives the same
/// status, and only the three column texts are read as a status.
pub proof fn lemma_column_text_round_trip(status: SubscriptionStatus)
    ensures
        SubscriptionStatus::of_column_text(status.column_text()) == Some(status),
        forall|text: Seq<char>|
            SubscriptionStatus::of_column_text(text) == Some(status) ==> text
                == status.column_text(),
{
    reveal_strlit("pending");
    reveal_strlit("confirmed");
    reveal_strlit("failed");
    assert("pending"@.len() == 7);
    assert("confirmed"@.len() == 9);
    assert("failed"@.len() == 6);
}

} // verus!
