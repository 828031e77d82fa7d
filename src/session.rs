use vstd::prelude::*;

use crate::ticket::{shows, Ticket, TicketDTO};

verus! {

/// The view the session shows.
#[derive(Debug, Clone, Copy, PartialEq, Eq, Structural)]
pub enum Mode {
    Normal,
    Edit,
}

/// The state of a session: its tickets, the highlighted row, the mode, and
/// the row chosen for editing.
pub struct SessionView {
    pub items: Seq<Ticket>,
    pub cursor: Option<nat>,
    pub mode: Mode,
    pub selected: Option<nat>,
}

impl SessionView {
    /// The cursor is set exactly when there are tickets and points at one;
    /// a row is chosen exactly in `Edit` mode, and it is a ticket's.
    pub open spec fn wf(self) -> bool {
        &&& (self.cursor is Some <==> self.items.len() > 0)
        &&& (self.cursor matches Some(c) ==> c < self.items.len())
        &&& (self.selected is Some <==> self.mode == Mode::Edit)
        &&& (self.selected matches Some(s) ==> s < self.items.len())
    }
}

/// The row after `c` among `n`, back to the first after the last.
pub open spec fn next_index(c: nat, n: nat) -> nat {
    if c + 1 >= n {
        0
    } else {
        c + 1
    }
}

/// The row before `c` among `n`, round to the last before the first.
pub open spec fn previous_index(c: nat, n: nat) -> nat {
    if c == 0 {
        (n - 1) as nat
    } else {
        (c - 1) as nat
    }
}

/// The session after a move down: the cursor steps on, circularly; with no
/// tickets nothing changes.
pub open spec fn next_row_spec(s: SessionView) -> SessionView {
    match s.cursor {
        Some(c) => SessionView { cursor: Some(next_index(c, s.items.len())), ..s },
        None => s,
    }
}

/// The session after a move up: the cursor steps back, circularly; with no
/// tickets nothing changes.
pub open spec fn previous_row_spec(s: SessionView) -> SessionView {
    match s.cursor {
        Some(c) => SessionView { cursor: Some(previous_index(c, s.items.len())), ..s },
        None => s,
    }
}

/// The session after entering edit mode: the highlighted row is chosen;
/// with no highlighted row nothing changes.
pub open spec fn enter_edit_spec(s: SessionView) -> SessionView {
    match s.cursor {
        Some(c) => SessionView { mode: Mode::Edit, selected: Some(c), ..s },
        None => s,
    }
}

/// The title that the edit view shows: the chosen ticket's, if one is chosen.
pub open spec fn edit_title(s: SessionView) -> Option<String> {
    match s.selected {
        Some(i) => Some(s.items[i as int].title),
        None => None,
    }
}

/// The session after `k` moves down.
pub open spec fn next_row_times(s: SessionView, k: nat) -> SessionView
    decreases k,
{
    if k == 0 {
        s
    } else {
        next_row_spec(next_row_times(s, (k - 1) as nat))
    }
}

/// After `k` moves down from row `c` of `n`, the cursor is at `(c + k) % n`.
pub proof fn lemma_next_row_times(s: SessionView, k: nat)
    requires
        s.wf(),
        s.items.len() > 0,
    ensures
        next_row_times(s, k) == (SessionView {
            cursor: Some(((s.cursor.unwrap() + k) as int % (s.items.len() as int)) as nat),
            ..s
        }),
    decreases k,
{
    let n = s.items.len() as int;
    let c = s.cursor.unwrap() as int;
    if k == 0 {
        assert(c % n == c) by (nonlinear_arith)
            requires
                0 <= c < n,
        ;
    } else {
        lemma_next_row_times(s, (k - 1) as nat);
        let p = (c + k - 1) % n;
        assert(0 <= p < n) by (nonlinear_arith)
            requires
                n > 0,
                p == (c + k - 1) % n,
                c + k - 1 >= 0,
        ;
        if p + 1 >= n {
            assert((c + k) % n == 0) by {
                vstd::arithmetic::div_mod::lemma_add_mod_noop(c + k - 1, 1, n);
                vstd::arithmetic::div_mod::lemma_mod_self_0(n);
                if n > 1 {
                    vstd::arithmetic::div_mod::lemma_small_mod(1, n as nat);
                } else {
                    vstd::arithmetic::div_mod::lemma_mod_self_0(1);
                    vstd::arithmetic::div_mod::lemma_small_mod(0, 1);
                }
            };
        } else {
            assert((c + k) % n == p + 1) by {
                vstd::arithmetic::div_mod::lemma_add_mod_noop(c + k - 1, 1, n);
                vstd::arithmetic::div_mod::lemma_small_mod((p + 1) as nat, n as nat);
                vstd::arithmetic::div_mod::lemma_small_mod(1, n as nat);
            };
        }
    }
}

/// Moving down as many times as there are tickets brings the cursor back to
/// where it started, and changes nothing else.
pub proof fn lemma_next_row_wraps_around(s: SessionView)
    requires
        s.wf(),
        s.items.len() > 0,
    ensures
        next_row_times(s, s.items.len()) == s,
{
    let n = s.items.len() as int;
    let c = s.cursor.unwrap() as int;
    lemma_next_row_times(s, s.items.len());
    assert((c + n) % n == c) by {
        vstd::arithmetic::div_mod::lemma_add_mod_noop(c, n, n);
        vstd::arithmetic::div_mod::lemma_mod_self_0(n);
        vstd::arithmetic::div_mod::lemma_small_mod(c as nat, n as nat);
    };
}

/// A move up undoes a move down, and a move down undoes a move up, from
/// every state of a session.
pub proof fn lemma_previous_row_inverts_next_row(s: SessionView)
    requires
        s.wf(),
    ensures
        previous_row_spec(next_row_spec(s)) == s,
        next_row_spec(previous_row_spec(s)) == s,
{
}

/// Entering edit mode on a highlighted row makes the edit view show that
/// row's ticket.
pub proof fn lemma_edit_shows_highlighted(s: SessionView)
    requires
        s.wf(),
        s.cursor is Some,
    ensures
        enter_edit_spec(s).mode == Mode::Edit,
        edit_title(enter_edit_spec(s)) == Some(s.items[s.cursor.unwrap() as int].title),
        enter_edit_spec(s).wf(),
{
}

/// Every step of a session keeps it well formed.
pub proof fn lemma_steps_keep_wf(s: SessionView)
    requires
        s.wf(),
    ensures
        next_row_spec(s).wf(),
        previous_row_spec(s).wf(),
        enter_edit_spec(s).wf(),
{
}

/// What the presenter is given to draw.
#[derive(Debug)]
pub enum RenderState {
    /// The list view: every ticket's display fields, in order, and the
    /// highlighted row.
    Table { tickets: Vec<TicketDTO>, selected: Option<usize> },
    /// The edit view: the title of the chosen ticket.
    EditForm { selected_ticket: Option<String> },
}

/// The session engine: it owns the tickets, the cursor and the mode, and
/// changes them on navigation input. The mode is `Edit` exactly when a row is
/// chosen for editing, so the chosen row alone records both.
pub struct TerminalInteractor {
    cursor: Option<usize>,
    selected_ticket_index: Option<usize>,
    items: Vec<Ticket>,
}

impl View for TerminalInteractor {
    type V = SessionView;

    closed spec fn view(&self) -> SessionView {
        SessionView {
            items: self.items@,
            cursor: match self.cursor {
                Some(c) => Some(c as nat),
                None => None,
            },
            mode: if self.selected_ticket_index is Some {
                Mode::Edit
            } else {
                Mode::Normal
            },
            selected: match self.selected_ticket_index {
                Some(i) => Some(i as nat),
                None => None,
            },
        }
    }
}

impl TerminalInteractor {
    #[verifier::type_invariant]
    spec fn inv(&self) -> bool {
        self@.wf()
    }

    /// A session over `items`, in list view, with the first ticket
    /// highlighted if there is one.
    pub fn new(items: Vec<Ticket>) -> (r: TerminalInteractor)
        ensures
            r@.items == items@,
            r@.cursor == (if items@.len() > 0 {
                Some(0nat)
            } else {
                None
            }),
            r@.mode == Mode::Normal,
            r@.selected is None,
            r@.wf(),
    {
        let cursor = if items.len() > 0 {
            Some(0)
        } else {
            None
        };
        TerminalInteractor { cursor, selected_ticket_index: None, items }
    }

    /// The highlighted row.
    pub fn selected(&self) -> (r: Option<usize>)
        ensures
            r matches Some(c) ==> self@.cursor == Some(c as nat),
            r is None ==> self@.cursor is None,
    {
        self.cursor
    }

    /// The current mode.
    pub fn mode(&self) -> (r: Mode)
        ensures
            r == self@.mode,
    {
        if self.selected_ticket_index.is_some() {
            Mode::Edit
        } else {
            Mode::Normal
        }
    }

    /// The row chosen for editing.
    pub fn selected_ticket_index(&self) -> (r: Option<usize>)
        ensures
            r matches Some(c) ==> self@.selected == Some(c as nat),
            r is None ==> self@.selected is None,
    {
        self.selected_ticket_index
    }

    /// The tickets of the session.
    pub fn items(&self) -> (r: &Vec<Ticket>)
        ensures
            r@ == self@.items,
    {
        &self.items
    }

    /// Moves the cursor down one row, from the last back to the first.
    pub fn next_row(&mut self)
        ensures
            final(self)@ == next_row_spec(old(self)@),
            final(self)@.wf(),
    {
        proof {
            use_type_invariant(&*self);
        }
        if let Some(i) = self.cursor {
            self.cursor = Some(
                if i >= self.items.len() - 1 {
                    0
                } else {
                    i + 1
                },
            );
        }
    }

    /// Moves the cursor up one row, from the first round to the last.
    pub fn previous_row(&mut self)
        ensures
            final(self)@ == previous_row_spec(old(self)@),
            final(self)@.wf(),
    {
        proof {
            use_type_invariant(&*self);
        }
        if let Some(i) = self.cursor {
            self.cursor = Some(
                if i == 0 {
                    self.items.len() - 1
                } else {
                    i - 1
                },
            );
        }
    }

    /// Enters edit mode on the highlighted row; does nothing with no tickets.
    pub fn enter_edit_mode(&mut self)
        ensures
            final(self)@ == enter_edit_spec(old(self)@),
            final(self)@.wf(),
    {
        proof {
            use_type_invariant(&*self);
        }
        if let Some(index) = self.cursor {
            self.selected_ticket_index = Some(index);
        }
    }

    /// What to draw: in list view every ticket's display fields and the
    /// highlighted row, in edit view the chosen ticket's title.
    pub fn render_state(&self) -> (r: RenderState)
        ensures
            match self@.mode {
                Mode::Normal => match r {
                    RenderState::Table { tickets, selected } => {
                        &&& tickets@.len() == self@.items.len()
                        &&& forall|i: int|
                            0 <= i < tickets@.len() ==> shows(
                                #[trigger] tickets@[i],
                                self@.items[i],
                            )
                        &&& (selected matches Some(c) ==> self@.cursor == Some(c as nat))
                        &&& (selected is None ==> self@.cursor is None)
                    },
                    RenderState::EditForm { .. } => false,
                },
                Mode::Edit => r == RenderState::EditForm { selected_ticket: edit_title(self@) },
            },
    {
        proof {
            use_type_invariant(self);
        }
        match self.selected_ticket_index {
            None => {
                let mut tickets: Vec<TicketDTO> = Vec::new();
                for k in 0..self.items.len()
                    invariant
                        tickets@.len() == k,
                        forall|i: int|
                            0 <= i < k ==> shows(#[trigger] tickets@[i], self.items@[i]),
                {
                    tickets.push(TicketDTO::from_ticket(&self.items[k]));
                }
                RenderState::Table { tickets, selected: self.cursor }
            },
            Some(i) => RenderState::EditForm { selected_ticket: Some(self.items[i].title.clone()) },
        }
    }
}

} // verus!
