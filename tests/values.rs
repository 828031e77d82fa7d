use digger::level::TicketLevel;
use digger::presenter::RatatuiPresenter;
use digger::status::TicketStatus;
use digger::ticket::{Ticket, TicketDTO};
use digger::timestamp::Timestamp;

#[test]
fn level_names_round_trip() {
    let all = [
        TicketLevel::One,
        TicketLevel::Two,
        TicketLevel::Three,
        TicketLevel::Five,
        TicketLevel::Eight,
        TicketLevel::Thirteen,
    ];
    for l in all {
        assert_eq!(TicketLevel::from(String::from(l)), l);
    }
    assert_eq!(TicketLevel::Thirteen.name(), "Thirteen");
    assert_eq!(TicketLevel::from("Four".to_string()), TicketLevel::One);
    assert_eq!(TicketLevel::from_name("three"), TicketLevel::One);
    assert_eq!(TicketLevel::default(), TicketLevel::One);
}

#[test]
fn status_names_round_trip() {
    let all = [
        TicketStatus::Pending,
        TicketStatus::Wip,
        TicketStatus::Resolved,
        TicketStatus::Canceled,
    ];
    for s in all {
        assert_eq!(TicketStatus::from(String::from(s)), s);
    }
    assert_eq!(TicketStatus::Wip.name(), "Wip");
    assert_eq!(TicketStatus::from("Done".to_string()), TicketStatus::Pending);
    assert_eq!(TicketStatus::default(), TicketStatus::Pending);
}

#[test]
fn new_ticket_is_created_now_and_unresolved() {
    let t = Ticket::new("1".to_string(), TicketLevel::Five, "x".to_string(), TicketStatus::Pending);
    assert!(t.created_at.seconds > 1_600_000_000);
    assert!(t.created_at.nanos < 1_000_000_000);
    assert_eq!(t.resolved_at, None);
    assert_eq!(t.level, TicketLevel::Five);
}

#[test]
fn resolving_stamps_resolved_at_and_keeps_it() {
    let mut t = Ticket::new_at(
        "1".to_string(),
        TicketLevel::One,
        "x".to_string(),
        TicketStatus::Pending,
        Timestamp { seconds: 10, nanos: 0 },
    );
    t.set_status_at(TicketStatus::Wip, Timestamp { seconds: 20, nanos: 0 });
    assert_eq!(t.status, TicketStatus::Wip);
    assert_eq!(t.resolved_at, None);
    t.set_status_at(TicketStatus::Resolved, Timestamp { seconds: 30, nanos: 1 });
    assert_eq!(t.resolved_at, Some(Timestamp { seconds: 30, nanos: 1 }));
    t.set_status_at(TicketStatus::Pending, Timestamp { seconds: 40, nanos: 0 });
    assert_eq!(t.status, TicketStatus::Pending);
    assert_eq!(t.resolved_at, Some(Timestamp { seconds: 30, nanos: 1 }));
    assert_eq!(t.created_at, Timestamp { seconds: 10, nanos: 0 });
    t.set_status(TicketStatus::Resolved);
    assert!(t.resolved_at.unwrap().seconds > 1_600_000_000);
}

#[test]
fn default_ticket_is_empty_and_pending() {
    let t = Ticket::default();
    assert_eq!(t.id, "");
    assert_eq!(t.status, TicketStatus::Pending);
    assert_eq!(t.created_at, Timestamp::epoch());
}

#[test]
fn dto_converts_with_fallbacks() {
    let dto = TicketDTO {
        id: "9".to_string(),
        level: "Thirteen".to_string(),
        title: "big".to_string(),
        status: "Unknown".to_string(),
        created_at: Timestamp { seconds: 1, nanos: 0 },
        resolved_at: Some(Timestamp { seconds: 2, nanos: 0 }),
    };
    let t = Ticket::from_dto_at(dto, Timestamp { seconds: 99, nanos: 0 });
    assert_eq!(t.level, TicketLevel::Thirteen);
    assert_eq!(t.status, TicketStatus::Pending);
    assert_eq!(t.created_at, Timestamp { seconds: 99, nanos: 0 });
    assert_eq!(t.resolved_at, None);
    let back = TicketDTO::from_ticket(&t);
    assert_eq!(back.level, "Thirteen");
    assert_eq!(back.status, "Pending");
}

#[test]
fn presenter_texts() {
    let p = RatatuiPresenter::new();
    assert_eq!(p.footer_text(), "(q) Exit | (k) Up | (j) Down | (l) Edit Mode");
    assert_eq!(p.edit_form_text(Some("Fix it")), "Selected Ticket: Fix it");
    assert_eq!(p.edit_form_text(None), "Edit Mode: No ticket selected.");
    assert_eq!(
        p.column_titles(),
        vec!["ID", "Level", "Title", "Status", "Created At", "Resolved At"]
    );
    assert_eq!(
        p.time_text(Timestamp { seconds: 1_704_164_645, nanos: 0 }),
        "2024-01-02T03:04:05+00:00"
    );
    assert_eq!(p.time_text(Timestamp { seconds: i64::MAX, nanos: 0 }), "");
}

#[test]
fn presenter_rows_highlight_selected() {
    let p = RatatuiPresenter::new();
    let t = Ticket::new_at(
        "A".to_string(),
        TicketLevel::Three,
        "x".to_string(),
        TicketStatus::Resolved,
        Timestamp { seconds: 0, nanos: 0 },
    );
    let mut r = t.clone();
    r.resolved_at = Some(Timestamp { seconds: 60, nanos: 0 });
    let dtos = vec![TicketDTO::from_ticket(&t), TicketDTO::from_ticket(&r)];
    let rows = p.table_rows(&dtos, Some(1));
    assert_eq!(rows.len(), 2);
    assert!(!rows[0].highlighted);
    assert!(rows[1].highlighted);
    assert_eq!(
        rows[0].cells,
        vec!["A", "Three", "x", "Resolved", "1970-01-01T00:00:00+00:00", ""]
    );
    assert_eq!(rows[1].cells[5], "1970-01-01T00:01:00+00:00");
    let none = p.table_rows(&dtos, None);
    assert!(!none[0].highlighted && !none[1].highlighted);
}

#[test]
fn only_names_survive_decode_and_name() {
    for n in ["One", "Two", "Three", "Five", "Eight", "Thirteen"] {
        assert_eq!(String::from(TicketLevel::from(n.to_string())), n);
    }
    assert_eq!(String::from(TicketLevel::from("Four".to_string())), "One");
    for n in ["Pending", "Wip", "Resolved", "Canceled"] {
        assert_eq!(String::from(TicketStatus::from(n.to_string())), n);
    }
    assert_eq!(String::from(TicketStatus::from("wip".to_string())), "Pending");
}
