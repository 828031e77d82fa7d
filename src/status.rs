use vstd::prelude::*;

use crate::text::same_text;

verus! {

/// Where a ticket stands in its life.
#[derive(Debug, Clone, Copy, PartialEq, Eq, Structural)]
pub enum TicketStatus {
    Pending,
    Wip,
    Resolved,
    Canceled,
}

/// The name under which a status is stored and shown.
pub open spec fn status_name(s: TicketStatus) -> Seq<char> {
    match s {
        TicketStatus::Pending => "Pending"@,
        TicketStatus::Wip => "Wip"@,
        TicketStatus::Resolved => "Resolved"@,
        TicketStatus::Canceled => "Canceled"@,
    }
}

/// The status a name stands for; a name that is no status's falls back to `Pending`.
pub open spec fn status_from_name(s: Seq<char>) -> TicketStatus {
    if s == "Pending"@ {
        TicketStatus::Pending
    } else if s == "Wip"@ {
        TicketStatus::Wip
    } else if s == "Resolved"@ {
        TicketStatus::Resolved
    } else if s == "Canceled"@ {
        TicketStatus::Canceled
    } else {
        TicketStatus::Pending
    }
}

impl TicketStatus {
    /// Decodes a stored name, with `Pending` for an unknown one.
    pub fn from_name(s: &str) -> (r: TicketStatus)
        ensures
            r == status_from_name(s@),
    {
        if same_text(s, "Pending") {
            TicketStatus::Pending
        } else if same_text(s, "Wip") {
            TicketStatus::Wip
        } else if same_text(s, "Resolved") {
            TicketStatus::Resolved
        } else if same_text(s, "Canceled") {
            TicketStatus::Canceled
        } else {
            TicketStatus::Pending
        }
    }

    /// The stored name of this status.
    pub fn name(&self) -> (r: String)
        ensures
            r@ == status_name(*self),
    {
        match self {
            TicketStatus::Pending => String::from_str("Pending"),
            TicketStatus::Wip => String::from_str("Wip"),
            TicketStatus::Resolved => String::from_str("Resolved"),
            TicketStatus::Canceled => String::from_str("Canceled"),
        }
    }
}

impl Default for TicketStatus {
    fn default() -> (r: TicketStatus)
        ensures
            r == TicketStatus::Pending,
    {
        TicketStatus::Pending
    }
}

impl From<String> for TicketStatus {
    fn from(s: String) -> (r: TicketStatus) {
        TicketStatus::from_name(s.as_str())
    }
}

impl vstd::std_specs::convert::FromSpecImpl<String> for TicketStatus {
    open spec fn obeys_from_spec() -> bool {
        true
    }

    open spec fn from_spec(s: String) -> TicketStatus {
        status_from_name(s@)
    }
}

impl From<TicketStatus> for String {
    fn from(s: TicketStatus) -> (r: String)
        ensures
            r@ == status_name(s),
    {
        s.name()
    }
}

impl vstd::std_specs::convert::FromSpecImpl<TicketStatus> for String {
    // The characters of the result are stated on `from` itself.
    open spec fn obeys_from_spec() -> bool {
        false
    }

    open spec fn from_spec(s: TicketStatus) -> String {
        arbitrary()
    }
}

/// Decoding the name of a status gives that status back.
pub proof fn lemma_status_name_round_trip(s: TicketStatus)
    ensures
        status_from_name(status_name(s)) == s,
{
    reveal_strlit("Pending");
    reveal_strlit("Wip");
    reveal_strlit("Resolved");
    reveal_strlit("Canceled");
    assert("Pending"@[0] != "Wip"@[0]);
    assert("Pending"@[0] != "Resolved"@[0]);
    assert("Pending"@[0] != "Canceled"@[0]);
    assert("Wip"@[0] != "Resolved"@[0]);
    assert("Wip"@[0] != "Canceled"@[0]);
    assert("Resolved"@[0] != "Canceled"@[0]);
}

/// Naming what a text decodes to gives the text back exactly when the text is
/// the name of a status.
pub proof fn lemma_status_name_fixed_points(s: Seq<char>)
    ensures
        status_name(status_from_name(s)) == s <==> (s == "Pending"@
            || s == "Wip"@
            || s == "Resolved"@
            || s == "Canceled"@),
{
    reveal_strlit("Pending");
    reveal_strlit("Wip");
    reveal_strlit("Resolved");
    reveal_strlit("Canceled");
    lemma_status_name_round_trip(TicketStatus::Pending);
}

} // verus!
