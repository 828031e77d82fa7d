use digger::controller::{InputEvent, Key, TerminalController};
use digger::level::TicketLevel;
use digger::session::{Mode, RenderState, TerminalInteractor};
use digger::status::TicketStatus;
use digger::ticket::Ticket;
use digger::timestamp::Timestamp;

fn ticket(id: &str, title: &str) -> Ticket {
    Ticket::new_at(
        id.to_string(),
        TicketLevel::Two,
        title.to_string(),
        TicketStatus::Wip,
        Timestamp { seconds: 1_700_000_000, nanos: 0 },
    )
}

fn three() -> Vec<Ticket> {
    vec![ticket("A", "first"), ticket("B", "second"), ticket("C", "third")]
}

fn press(code: Key) -> InputEvent {
    InputEvent::Key { code, pressed: true }
}

#[test]
fn new_session_highlights_first_row() {
    let s = TerminalInteractor::new(three());
    assert_eq!(s.selected(), Some(0));
    assert_eq!(s.mode(), Mode::Normal);
    assert_eq!(s.selected_ticket_index(), None);
    assert_eq!(s.items().len(), 3);
}

#[test]
fn empty_session_has_no_cursor_and_ignores_navigation() {
    let mut s = TerminalInteractor::new(Vec::new());
    assert_eq!(s.selected(), None);
    s.next_row();
    assert_eq!(s.selected(), None);
    s.previous_row();
    assert_eq!(s.selected(), None);
    s.enter_edit_mode();
    assert_eq!(s.mode(), Mode::Normal);
    assert_eq!(s.selected_ticket_index(), None);
}

#[test]
fn next_row_len_times_returns_to_start() {
    let mut s = TerminalInteractor::new(three());
    s.next_row();
    let start = s.selected();
    for _ in 0..3 {
        s.next_row();
    }
    assert_eq!(s.selected(), start);
}

#[test]
fn previous_row_undoes_next_row_everywhere() {
    for start in 0..3 {
        let mut s = TerminalInteractor::new(three());
        for _ in 0..start {
            s.next_row();
        }
        assert_eq!(s.selected(), Some(start));
        s.next_row();
        s.previous_row();
        assert_eq!(s.selected(), Some(start));
        s.previous_row();
        s.next_row();
        assert_eq!(s.selected(), Some(start));
    }
}

#[test]
fn previous_row_wraps_to_last() {
    let mut s = TerminalInteractor::new(three());
    s.previous_row();
    assert_eq!(s.selected(), Some(2));
}

#[test]
fn single_ticket_stays_on_its_row() {
    let mut s = TerminalInteractor::new(vec![ticket("A", "only")]);
    s.next_row();
    assert_eq!(s.selected(), Some(0));
    s.previous_row();
    assert_eq!(s.selected(), Some(0));
}

#[test]
fn edit_mode_shows_highlighted_ticket() {
    let mut s = TerminalInteractor::new(three());
    s.next_row();
    s.enter_edit_mode();
    assert_eq!(s.mode(), Mode::Edit);
    assert_eq!(s.selected_ticket_index(), Some(1));
    match s.render_state() {
        RenderState::EditForm { selected_ticket } => {
            assert_eq!(selected_ticket, Some("second".to_string()))
        }
        RenderState::Table { .. } => panic!("expected the edit view"),
    }
}

#[test]
fn list_view_renders_every_ticket() {
    let mut s = TerminalInteractor::new(three());
    s.previous_row();
    match s.render_state() {
        RenderState::Table { tickets, selected } => {
            assert_eq!(selected, Some(2));
            assert_eq!(tickets.len(), 3);
            assert_eq!(tickets[0].id, "A");
            assert_eq!(tickets[0].level, "Two");
            assert_eq!(tickets[0].status, "Wip");
            assert_eq!(tickets[2].title, "third");
            assert_eq!(tickets[1].created_at, Timestamp { seconds: 1_700_000_000, nanos: 0 });
            assert_eq!(tickets[1].resolved_at, None);
        }
        RenderState::EditForm { .. } => panic!("expected the list view"),
    }
}

#[test]
fn three_downs_wrap_to_first_row() {
    let mut c = TerminalController::new(TerminalInteractor::new(three()));
    assert_eq!(c.input_port().selected(), Some(0));
    assert!(!c.handle_event(press(Key::Down)));
    assert_eq!(c.input_port().selected(), Some(1));
    assert!(!c.handle_event(press(Key::Char('j'))));
    assert_eq!(c.input_port().selected(), Some(2));
    assert!(!c.handle_event(press(Key::Down)));
    assert_eq!(c.input_port().selected(), Some(0));
}

#[test]
fn key_bindings_dispatch() {
    let mut c = TerminalController::new(TerminalInteractor::new(three()));
    assert!(!c.handle_event(press(Key::Up)));
    assert_eq!(c.input_port().selected(), Some(2));
    assert!(!c.handle_event(press(Key::Char('k'))));
    assert_eq!(c.input_port().selected(), Some(1));
    assert!(!c.handle_event(press(Key::Char('x'))));
    assert!(!c.handle_event(InputEvent::Other));
    assert!(!c.handle_event(InputEvent::Key { code: Key::Char('q'), pressed: false }));
    assert_eq!(c.input_port().selected(), Some(1));
    assert_eq!(c.input_port().mode(), Mode::Normal);
    assert!(!c.handle_event(press(Key::Char('l'))));
    assert_eq!(c.input_port().mode(), Mode::Edit);
    assert_eq!(c.input_port().selected_ticket_index(), Some(1));
    assert!(c.handle_event(press(Key::Char('q'))));
    assert!(c.handle_event(press(Key::Esc)));
}
