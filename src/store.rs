use vstd::prelude::*;

use crate::level::{level_from_name, TicketLevel};
use crate::status::{status_from_name, TicketStatus};
use crate::text::{blank, is_blank};
use crate::ticket::Ticket;
use crate::timestamp::{parse_instant, rfc3339_instant, timestamp_of, Timestamp};

verus! {

/// What can go wrong with the ticket store.
#[derive(Debug, PartialEq, Eq)]
pub enum DomainError {
    /// The store could not be read; holds the reader's message.
    FileRead(String),
    /// The store's content does not decode into tickets; holds what failed.
    TomlParse(String),
    /// A store could not be written; holds the writer's message.
    TomlSerialize(String),
    /// The store holds white space alone.
    EmptyFile,
    /// No store exists at the path held.
    FileNotFound(String),
}

/// One stored ticket as its fields stand in the store's text.
#[derive(Debug)]
pub struct TicketRecord {
    pub id: String,
    pub level: String,
    pub title: String,
    pub status: String,
    pub created_at: String,
    pub resolved_at: Option<String>,
}

/// The records of a store, in the order in which the store lists them.
#[derive(Debug)]
pub struct TicketCollection {
    pub ticket_data: Vec<TicketRecord>,
}

/// The ticket that a record describes, given the instants its two time fields name.
pub open spec fn record_ticket(
    r: TicketRecord,
    created_at: Timestamp,
    resolved_at: Option<Timestamp>,
) -> Ticket {
    Ticket {
        id: r.id,
        level: level_from_name(r.level@),
        title: r.title,
        status: status_from_name(r.status@),
        created_at,
        resolved_at,
    }
}

/// The ticket that a record decodes to, or `None` where one of its time
/// fields is no RFC 3339 instant.
pub open spec fn decode_record(r: TicketRecord) -> Option<Ticket> {
    match timestamp_of(rfc3339_instant(r.created_at@)) {
        None => None,
        Some(created_at) => match r.resolved_at {
            None => Some(record_ticket(r, created_at, None)),
            Some(s) => match timestamp_of(rfc3339_instant(s@)) {
                None => None,
                Some(resolved_at) => Some(record_ticket(r, created_at, Some(resolved_at))),
            },
        },
    }
}

/// Whether every record of `rs` decodes.
pub open spec fn all_decode(rs: Seq<TicketRecord>) -> bool {
    forall|i: int| 0 <= i < rs.len() ==> (#[trigger] decode_record(rs[i])) is Some
}

impl TicketRecord {
    /// The ticket that this record describes, given the instants its two
    /// time fields name.
    pub fn to_ticket(&self, created_at: Timestamp, resolved_at: Option<Timestamp>) -> (r: Ticket)
        ensures
            r == record_ticket(*self, created_at, resolved_at),
    {
        Ticket {
            id: self.id.clone(),
            level: TicketLevel::from_name(self.level.as_str()),
            title: self.title.clone(),
            status: TicketStatus::from_name(self.status.as_str()),
            created_at,
            resolved_at,
        }
    }

    /// Decodes this record; a time field that is no RFC 3339 instant is a
    /// `TomlParse` error that holds the field.
    pub fn decode(&self) -> (r: Result<Ticket, DomainError>)
        ensures
            match decode_record(*self) {
                Some(t) => r == Ok::<Ticket, DomainError>(t),
                None => r is Err && r->Err_0 is TomlParse && (if rfc3339_instant(
                    self.created_at@,
                ) is None {
                    r->Err_0->TomlParse_0 == self.created_at
                } else {
                    r->Err_0->TomlParse_0 == self.resolved_at.unwrap()
                }),
            },
    {
        let created_at = match parse_instant(self.created_at.as_str()) {
            Some(t) => t,
            None => return Err(DomainError::TomlParse(self.created_at.clone())),
        };
        let resolved_at = match &self.resolved_at {
            None => None,
            Some(s) => match parse_instant(s.as_str()) {
                Some(t) => Some(t),
                None => return Err(DomainError::TomlParse(s.clone())),
            },
        };
        Ok(self.to_ticket(created_at, resolved_at))
    }
}

impl TicketCollection {
    /// Decodes every record, in order; fails with the first record that does
    /// not decode.
    pub fn decode(&self) -> (r: Result<Vec<Ticket>, DomainError>)
        ensures
            r is Ok <==> all_decode(self.ticket_data@),
            r is Ok ==> r->Ok_0@.len() == self.ticket_data@.len() && forall|i: int|
                0 <= i < self.ticket_data@.len() ==> decode_record(#[trigger] self.ticket_data@[i])
                    == Some(r->Ok_0@[i]),
            r is Err ==> r->Err_0 is TomlParse,
    {
        let mut tickets: Vec<Ticket> = Vec::new();
        let n = self.ticket_data.len();
        for k in 0..n
            invariant
                n == self.ticket_data@.len(),
                tickets@.len() == k,
                forall|i: int|
                    0 <= i < k ==> decode_record(#[trigger] self.ticket_data@[i]) == Some(
                        tickets@[i],
                    ),
        {
            match self.ticket_data[k].decode() {
                Ok(t) => tickets.push(t),
                Err(e) => return Err(e),
            }
        }
        Ok(tickets)
    }
}

/// Checks a store's text before it is decoded: blank text is `EmptyFile`.
pub fn check_content(content: &str) -> (r: Result<(), DomainError>)
    ensures
        r is Ok <==> !is_blank(content@),
        r is Err ==> r->Err_0 == DomainError::EmptyFile,
{
    if blank(content) {
        Err(DomainError::EmptyFile)
    } else {
        Ok(())
    }
}

} // verus!
