use vstd::prelude::*;

use crate::ticket::TicketDTO;
use crate::timestamp::Timestamp;

verus! {

/// The RFC 3339 text of an instant given as seconds since the Unix epoch and
/// nanoseconds, if the instant is in chrono's range.
pub uninterp spec fn rfc3339_text(seconds: i64, nanos: u32) -> Option<Seq<char>>;

/// Relies on chrono's `DateTime::<Utc>::from_timestamp`, which is `None` for
/// an instant out of its range, and `DateTime::to_rfc3339`: the text depends
/// on the instant alone.
#[verifier::external_body]
fn format_rfc3339(t: Timestamp) -> (r: Option<String>)
    ensures
        match r {
            Some(s) => rfc3339_text(t.seconds, t.nanos) == Some(s@),
            None => rfc3339_text(t.seconds, t.nanos) is None,
        },
{
    chrono::DateTime::<chrono::Utc>::from_timestamp(t.seconds, t.nanos).map(|d| d.to_rfc3339())
}

/// How an instant is shown: its RFC 3339 text, or nothing for one out of range.
pub open spec fn time_shown(t: Timestamp) -> Seq<char> {
    match rfc3339_text(t.seconds, t.nanos) {
        Some(s) => s,
        None => Seq::empty(),
    }
}

/// How an instant that may be missing is shown: nothing when it is.
pub open spec fn optional_time_shown(t: Option<Timestamp>) -> Seq<char> {
    match t {
        Some(t) => time_shown(t),
        None => Seq::empty(),
    }
}

/// The cells of a ticket's row, in column order.
pub open spec fn row_cells_spec(d: TicketDTO) -> Seq<Seq<char>> {
    seq![
        d.id@,
        d.level@,
        d.title@,
        d.status@,
        time_shown(d.created_at),
        optional_time_shown(d.resolved_at),
    ]
}

/// The column titles of the ticket table.
pub open spec fn column_titles_spec() -> Seq<Seq<char>> {
    seq!["ID"@, "Level"@, "Title"@, "Status"@, "Created At"@, "Resolved At"@]
}

/// The key guide under the table.
pub open spec fn footer_spec() -> Seq<char> {
    "(q) Exit | (k) Up | (j) Down | (l) Edit Mode"@
}

/// What the edit view says: the chosen ticket's title after a label, or that
/// none is chosen.
pub open spec fn edit_form_spec(selected_ticket: Option<Seq<char>>) -> Seq<char> {
    match selected_ticket {
        Some(title) => "Selected Ticket: "@ + title,
        None => "Edit Mode: No ticket selected."@,
    }
}

/// The texts of one row of the table, and whether it is the highlighted one.
#[derive(Debug)]
pub struct TableRow {
    pub cells: Vec<String>,
    pub highlighted: bool,
}

/// Whether `row` shows ticket `d` at position `i` with `selected` highlighted.
pub open spec fn row_shows(row: TableRow, d: TicketDTO, i: int, selected: Option<usize>) -> bool {
    &&& row.cells@.map_values(|c: String| c@) == row_cells_spec(d)
    &&& row.highlighted == (selected matches Some(s) && s == i)
}

/// Lays out what the terminal shows; the drawing itself is the terminal's.
#[derive(Debug)]
pub struct RatatuiPresenter;

impl RatatuiPresenter {
    /// A presenter; it holds no state between frames.
    pub fn new() -> (r: RatatuiPresenter) {
        RatatuiPresenter
    }

    /// How an instant is shown.
    pub fn time_text(&self, t: Timestamp) -> (r: String)
        ensures
            r@ == time_shown(t),
    {
        match format_rfc3339(t) {
            Some(s) => s,
            None => String::new(),
        }
    }

    /// The column titles of the ticket table.
    pub fn column_titles(&self) -> (r: Vec<String>)
        ensures
            r@.map_values(|c: String| c@) == column_titles_spec(),
    {
        let r = vec![
            String::from_str("ID"),
            String::from_str("Level"),
            String::from_str("Title"),
            String::from_str("Status"),
            String::from_str("Created At"),
            String::from_str("Resolved At"),
        ];
        proof {
            assert(r@.map_values(|c: String| c@) =~= column_titles_spec());
        }
        r
    }

    /// The cells of a ticket's row, in column order.
    pub fn row_cells(&self, d: &TicketDTO) -> (r: Vec<String>)
        ensures
            r@.map_values(|c: String| c@) == row_cells_spec(*d),
    {
        let resolved = match d.resolved_at {
            Some(t) => self.time_text(t),
            None => String::new(),
        };
        let r = vec![
            d.id.clone(),
            d.level.clone(),
            d.title.clone(),
            d.status.clone(),
            self.time_text(d.created_at),
            resolved,
        ];
        proof {
            assert(r@.map_values(|c: String| c@) =~= row_cells_spec(*d));
        }
        r
    }

    /// The rows of the ticket table, in order, with `selected` highlighted.
    pub fn table_rows(&self, tickets: &Vec<TicketDTO>, selected: Option<usize>) -> (r: Vec<
        TableRow,
    >)
        ensures
            r@.len() == tickets@.len(),
            forall|i: int|
                0 <= i < tickets@.len() ==> row_shows(#[trigger] r@[i], tickets@[i], i, selected),
    {
        let mut rows: Vec<TableRow> = Vec::new();
        for k in 0..tickets.len()
            invariant
                rows@.len() == k,
                forall|i: int|
                    0 <= i < k ==> row_shows(#[trigger] rows@[i], tickets@[i], i, selected),
        {
            let highlighted = match selected {
                Some(s) => s == k,
                None => false,
            };
            rows.push(TableRow { cells: self.row_cells(&tickets[k]), highlighted });
        }
        rows
    }

    /// The key guide under the table.
    pub fn footer_text(&self) -> (r: String)
        ensures
            r@ == footer_spec(),
    {
        String::from_str("(q) Exit | (k) Up | (j) Down | (l) Edit Mode")
    }

    /// What the edit view says.
    pub fn edit_form_text(&self, selected_ticket: Option<&str>) -> (r: String)
        ensures
            r@ == edit_form_spec(
                match selected_ticket {
                    Some(t) => Some(t@),
                    None => None,
                },
            ),
    {
        match selected_ticket {
            Some(title) => {
                let mut text = String::from_str("Selected Ticket: ");
                text.append(title);
                text
            },
            None => String::from_str("Edit Mode: No ticket selected."),
        }
    }
}

} // verus!
