//! Policy action: allow or deny a connection.

use vstd::prelude::*;

use crate::error::EgressError;
use crate::text::str_equal;

verus! {

/// Action that the policy applies to a connection.
#[derive(Debug, Clone, Copy, PartialEq, Eq, Structural)]
pub enum Action {
    /// The connection is allowed.
    Allow,
    /// The connection is denied.
    Deny,
}

impl Default for Action {
    /// The default action is to deny: an unknown destination is never allowed
    /// by itself (fail-closed).
    fn default() -> (action: Self)
        ensures
            action == Action::Deny,
    {
        Action::Deny
    }
}

impl Action {
    /// Text of the action for storage and the IPC contract.
    pub open spec fn spec_text(self) -> Seq<char> {
        match self {
            Action::Allow => "allow"@,
            Action::Deny => "deny"@,
        }
    }

    /// The action that `input` names, if any.
    pub open spec fn spec_parse(input: Seq<char>) -> Option<Action> {
        if input == "allow"@ {
            Some(Action::Allow)
        } else if input == "deny"@ {
            Some(Action::Deny)
        } else {
            None
        }
    }

    /// Text of the action for storage and the IPC contract.
    pub fn as_str(self) -> (text: &'static str)
        ensures
            text@ == self.spec_text(),
    {
        match self {
            Action::Allow => "allow",
            Action::Deny => "deny",
        }
    }

    /// Parses an action from its text.
    ///
    /// # Errors
    ///
    /// Returns a validation error of the field `action` when the text names no action.
    pub fn parse(input: &str) -> (result: Result<Self, EgressError>)
        ensures
            match Action::spec_parse(input@) {
                Some(action) => result == Ok::<Action, EgressError>(action),
                None => result == Err::<Action, EgressError>(
                    EgressError::Validation { field: "action", reason: "must be `allow` or `deny`" },
                ),
            },
    {
        if str_equal(input, "allow") {
            Ok(Action::Allow)
        } else if str_equal(input, "deny") {
            Ok(Action::Deny)
        } else {
            Err(EgressError::validation("action", "must be `allow` or `deny`"))
        }
    }

    /// Whether the action allows the connection.
    pub fn allows(self) -> (allowed: bool)
        ensures
            allowed == (self == Action::Allow),
    {
        matches!(self, Action::Allow)
    }
}

/// The text of an action parses back to the same action.
pub proof fn lemma_action_text_round_trip(action: Action)
    ensures
        Action::spec_parse(action.spec_text()) == Some(action),
{
    reveal_strlit("allow");
    reveal_strlit("deny");
    assert("allow"@ != "deny"@) by {
        assert("allow"@.len() != "deny"@.len());
    }
}

} // verus!
