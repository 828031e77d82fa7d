use vstd::prelude::*;

use crate::text::same_text;

verus! {

/// The effort scale of a ticket.
#[derive(Debug, Clone, Copy, PartialEq, Eq, Structural)]
pub enum TicketLevel {
    One,
    Two,
    Three,
    Five,
    Eight,
    Thirteen,
}

/// The name under which a level is stored and shown.
pub open spec fn level_name(l: TicketLevel) -> Seq<char> {
    match l {
        TicketLevel::One => "One"@,
        TicketLevel::Two => "Two"@,
        TicketLevel::Three => "Three"@,
        TicketLevel::Five => "Five"@,
        TicketLevel::Eight => "Eight"@,
        TicketLevel::Thirteen => "Thirteen"@,
    }
}

/// The level a name stands for; a name that is no level's falls back to `One`.
pub open spec fn level_from_name(s: Seq<char>) -> TicketLevel {
    if s == "One"@ {
        TicketLevel::One
    } else if s == "Two"@ {
        TicketLevel::Two
    } else if s == "Three"@ {
        TicketLevel::Three
    } else if s == "Five"@ {
        TicketLevel::Five
    } else if s == "Eight"@ {
        TicketLevel::Eight
    } else if s == "Thirteen"@ {
        TicketLevel::Thirteen
    } else {
        TicketLevel::One
    }
}

impl TicketLevel {
    /// Decodes a stored name, with `One` for an unknown one.
    pub fn from_name(s: &str) -> (r: TicketLevel)
        ensures
            r == level_from_name(s@),
    {
        if same_text(s, "One") {
            TicketLevel::One
        } else if same_text(s, "Two") {
            TicketLevel::Two
        } else if same_text(s, "Three") {
            TicketLevel::Three
        } else if same_text(s, "Five") {
            TicketLevel::Five
        } else if same_text(s, "Eight") {
            TicketLevel::Eight
        } else if same_text(s, "Thirteen") {
            TicketLevel::Thirteen
        } else {
            TicketLevel::One
        }
    }

    /// The stored name of this level.
    pub fn name(&self) -> (r: String)
        ensures
            r@ == level_name(*self),
    {
        match self {
            TicketLevel::One => String::from_str("One"),
            TicketLevel::Two => String::from_str("Two"),
            TicketLevel::Three => String::from_str("Three"),
            TicketLevel::Five => String::from_str("Five"),
            TicketLevel::Eight => String::from_str("Eight"),
            TicketLevel::Thirteen => String::from_str("Thirteen"),
        }
    }
}

impl Default for TicketLevel {
    fn default() -> (r: TicketLevel)
        ensures
            r == TicketLevel::One,
    {
        TicketLevel::One
    }
}

impl From<String> for TicketLevel {
    fn from(s: String) -> (r: TicketLevel) {
        TicketLevel::from_name(s.as_str())
    }
}

impl vstd::std_specs::convert::FromSpecImpl<String> for TicketLevel {
    open spec fn obeys_from_spec() -> bool {
        true
    }

    open spec fn from_spec(s: String) -> TicketLevel {
        level_from_name(s@)
    }
}

impl From<TicketLevel> for String {
    fn from(l: TicketLevel) -> (r: String)
        ensures
            r@ == level_name(l),
    {
        l.name()
    }
}

impl vstd::std_specs::convert::FromSpecImpl<TicketLevel> for String {
    // The characters of the result are stated on `from` itself.
    open spec fn obeys_from_spec() -> bool {
        false
    }

    open spec fn from_spec(l: TicketLevel) -> String {
        arbitrary()
    }
}

/// Decoding the name of a level gives that level back.
pub proof fn lemma_level_name_round_trip(l: TicketLevel)
    ensures
        level_from_name(level_name(l)) == l,
{
    reveal_strlit("One");
    reveal_strlit("Two");
    reveal_strlit("Three");
    reveal_strlit("Five");
    reveal_strlit("Eight");
    reveal_strlit("Thirteen");
    assert("One"@[0] != "Two"@[0]);
    assert("One"@[0] != "Three"@[0]);
    assert("One"@[0] != "Five"@[0]);
    assert("One"@[0] != "Eight"@[0]);
    assert("One"@[0] != "Thirteen"@[0]);
    assert("Two"@[1] != "Three"@[1]);
    assert("Two"@[0] != "Five"@[0]);
    assert("Two"@[0] != "Eight"@[0]);
    assert("Two"@[1] != "Thirteen"@[1]);
    assert("Three"@.len() != "Five"@.len());
    assert("Three"@[0] != "Eight"@[0]);
    assert("Three"@[2] != "Thirteen"@[2]);
    assert("Five"@[0] != "Eight"@[0]);
    assert("Five"@[0] != "Thirteen"@[0]);
    assert("Eight"@[0] != "Thirteen"@[0]);
}

/// Naming what a text decodes to gives the text back exactly when the text is
/// the name of a level.
pub proof fn lemma_level_name_fixed_points(s: Seq<char>)
    ensures
        level_name(level_from_name(s)) == s <==> (s == "One"@
            || s == "Two"@
            || s == "Three"@
            || s == "Five"@
            || s == "Eight"@
            || s == "Thirteen"@),
{
    reveal_strlit("One");
    reveal_strlit("Two");
    reveal_strlit("Three");
    reveal_strlit("Five");
    reveal_strlit("Eight");
    reveal_strlit("Thirteen");
    lemma_level_name_round_trip(TicketLevel::One);
}

} // verus!
