use vstd::prelude::*;

use crate::level::{level_from_name, TicketLevel};
use crate::status::{status_from_name, TicketStatus};
use crate::timestamp::Timestamp;

verus! {

/// One record of the tracker.
#[derive(Debug)]
pub struct Ticket {
    pub id: String,
    pub level: TicketLevel,
    pub title: String,
    pub status: TicketStatus,
    pub created_at: Timestamp,
    pub resolved_at: Option<Timestamp>,
}

impl Clone for Ticket {
    fn clone(&self) -> (r: Ticket)
        ensures
            r == *self,
    {
        Ticket {
            id: self.id.clone(),
            level: self.level,
            title: self.title.clone(),
            status: self.status,
            created_at: self.created_at,
            resolved_at: self.resolved_at,
        }
    }
}

impl Default for Ticket {
    fn default() -> (r: Ticket)
        ensures
            r.id@ == Seq::<char>::empty(),
            r.level == TicketLevel::One,
            r.title@ == Seq::<char>::empty(),
            r.status == TicketStatus::Pending,
            r.created_at == (Timestamp { seconds: 0, nanos: 0 }),
            r.resolved_at is None,
    {
        Ticket {
            id: String::new(),
            level: TicketLevel::One,
            title: String::new(),
            status: TicketStatus::Pending,
            created_at: Timestamp::epoch(),
            resolved_at: None,
        }
    }
}

/// What setting a ticket's status at instant `now` leaves: the status is
/// replaced, and a move to `Resolved` stamps `resolved_at` with `now`; any
/// earlier stamp is kept otherwise.
pub open spec fn with_status(t: Ticket, s: TicketStatus, now: Timestamp) -> Ticket {
    Ticket {
        status: s,
        resolved_at: if s == TicketStatus::Resolved {
            Some(now)
        } else {
            t.resolved_at
        },
        ..t
    }
}

/// The ticket that display fields describe, created at `now` and not resolved.
pub open spec fn ticket_of_dto(d: TicketDTO, now: Timestamp) -> Ticket {
    Ticket {
        id: d.id,
        level: level_from_name(d.level@),
        title: d.title,
        status: status_from_name(d.status@),
        created_at: now,
        resolved_at: None,
    }
}

/// A ticket's fields as text, as the presenter shows them.
#[derive(Debug)]
pub struct TicketDTO {
    pub id: String,
    pub level: String,
    pub title: String,
    pub status: String,
    pub created_at: Timestamp,
    pub resolved_at: Option<Timestamp>,
}

/// Whether `d` shows `t`: the same id and title, the names of its level and
/// status, and its two instants.
pub open spec fn shows(d: TicketDTO, t: Ticket) -> bool {
    &&& d.id == t.id
    &&& d.level@ == crate::level::level_name(t.level)
    &&& d.title == t.title
    &&& d.status@ == crate::status::status_name(t.status)
    &&& d.created_at == t.created_at
    &&& d.resolved_at == t.resolved_at
}

impl TicketDTO {
    /// The display fields of a ticket.
    pub fn from_ticket(t: &Ticket) -> (r: TicketDTO)
        ensures
            shows(r, *t),
    {
        TicketDTO {
            id: t.id.clone(),
            level: t.level.name(),
            title: t.title.clone(),
            status: t.status.name(),
            created_at: t.created_at,
            resolved_at: t.resolved_at,
        }
    }
}

impl Ticket {
    /// A new ticket created now, not resolved.
    pub fn new(id: String, level: TicketLevel, title: String, status: TicketStatus) -> (r: Ticket)
        ensures
            r.id == id,
            r.level == level,
            r.title == title,
            r.status == status,
            r.created_at.nanos < 1_000_000_000,
            r.resolved_at is None,
    {
        Ticket::new_at(id, level, title, status, Timestamp::now())
    }

    /// A new ticket created at `created_at`, not resolved.
    pub fn new_at(
        id: String,
        level: TicketLevel,
        title: String,
        status: TicketStatus,
        created_at: Timestamp,
    ) -> (r: Ticket)
        ensures
            r == (Ticket { id, level, title, status, created_at, resolved_at: None }),
    {
        Ticket { id, level, title, status, created_at, resolved_at: None }
    }

    /// Sets the status, stamping `resolved_at` with the current instant on a
    /// move to `Resolved`.
    pub fn set_status(&mut self, new_status: TicketStatus)
        ensures
            final(self).id == old(self).id,
            final(self).level == old(self).level,
            final(self).title == old(self).title,
            final(self).created_at == old(self).created_at,
            final(self).status == new_status,
            new_status == TicketStatus::Resolved ==> final(self).resolved_at is Some
                && final(self).resolved_at.unwrap().nanos < 1_000_000_000,
            new_status != TicketStatus::Resolved ==> final(self).resolved_at
                == old(self).resolved_at,
    {
        let now = Timestamp::now();
        self.set_status_at(new_status, now);
    }

    /// Sets the status, stamping `resolved_at` with `now` on a move to `Resolved`.
    pub fn set_status_at(&mut self, new_status: TicketStatus, now: Timestamp)
        ensures
            *final(self) == with_status(*old(self), new_status, now),
    {
        if new_status == TicketStatus::Resolved {
            self.resolved_at = Some(now);
        }
        self.status = new_status;
    }

    /// The ticket that display fields describe, created now.
    pub fn from_dto(dto: TicketDTO) -> (r: Ticket)
        ensures
            r == ticket_of_dto(dto, r.created_at),
            r.created_at.nanos < 1_000_000_000,
    {
        Ticket::from_dto_at(dto, Timestamp::now())
    }

    /// The ticket that display fields describe, created at `now`.
    pub fn from_dto_at(dto: TicketDTO, now: Timestamp) -> (r: Ticket)
        ensures
            r == ticket_of_dto(dto, now),
    {
        Ticket {
            id: dto.id,
            level: TicketLevel::from_name(dto.level.as_str()),
            title: dto.title,
            status: TicketStatus::from_name(dto.status.as_str()),
            created_at: now,
            resolved_at: None,
        }
    }
}

} // verus!
