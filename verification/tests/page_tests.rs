use ratatoskr::keys::{KeyCode, KeyEvent, KeyModifiers};
use ratatoskr::meta::{Priority, Mood, MyColor, Tag, Duration, Frequency, Txn_Type};
use ratatoskr::pomodoro::{
    Pomodero, PomoFocus, PomoEffect, next_pomo_focus, prev_pomo_focus, bump_pomo_component, handle_pomodoro_key,
    tick_pomodoro, big_digit_rows, big_time_rows,
};
use ratatoskr::todo::{
    Todo_task, TodoUi, TodoMode, TodoFocus, TodoEffect, todo_display_order, handle_todo_key_at,
    escalate_overdue_todos_at, parse_due_date_input,
};
use ratatoskr::notes::{Note_task, NoteUi, NoteMode, NoteFocus, NoteFilter, NoteEffect, note_display_order, handle_notes_key_at};
use ratatoskr::journal::{Journal_task, JournalUi, JournalMode, JournalFocus, JournalEffect, handle_journal_key_at};
use ratatoskr::finance::{Finance_task, Ledger, LedgerUi, LedgerMode, LedgerFocus, LedgerEffect, handle_ledger_at};
use ratatoskr::calendar::{
    Calendar_task, CalendarUiState, CalendarMode, CalendarFocus, CalendarEffect, shift_month, month_grid,
    events_on_day, handle_calendar_at, sync_view_to_cursor, month_grid_checked,
};
use ratatoskr::editor::EditorState;
use ratatoskr::app::Currency;
use ratatoskr::finance::{convert, convert_checked, shown_amount};

fn key(code: KeyCode) -> KeyEvent {
    KeyEvent { code, modifiers: KeyModifiers { shift: false, control: false, alt: false } }
}

fn ctrl(code: KeyCode) -> KeyEvent {
    KeyEvent { code, modifiers: KeyModifiers { shift: false, control: true, alt: false } }
}

fn alt(code: KeyCode) -> KeyEvent {
    KeyEvent { code, modifiers: KeyModifiers { shift: false, control: false, alt: true } }
}

// ------------------------------------------------------------------ pomodoro

#[test]
fn pomodoro_default_shows_ten_minutes() {
    let p = Pomodero::default();
    assert_eq!(p.format_time_left(), "00:10:00");
}

#[test]
fn pomodoro_custom_format() {
    let p = Pomodero::new(3725, Some("{h}h {m}m {ss}s".to_string()), Some(MyColor::Red));
    assert_eq!(p.format_time_left(), "1h 2m 05s");
    assert_eq!(p.color, MyColor::BrightCyan);
    let q = Pomodero::new(59, None, None);
    assert_eq!(q.format_time_left(), "00:00:59");
}

#[test]
fn pomodoro_focus_cycle() {
    let mut f = PomoFocus::Hour;
    for _ in 0..6 {
        f = next_pomo_focus(f);
    }
    assert_eq!(f, PomoFocus::Hour);
    assert_eq!(prev_pomo_focus(PomoFocus::Hour), PomoFocus::Cancel);
    assert_eq!(prev_pomo_focus(next_pomo_focus(PomoFocus::Reset)), PomoFocus::Reset);
}

#[test]
fn pomodoro_wheels_wrap() {
    let mut p = Pomodero::new(0, None, None);
    bump_pomo_component(&mut p, PomoFocus::Hour, -1);
    assert_eq!(p.duration, 23 * 3600);
    assert_eq!(p.duration_left, 23 * 3600);
    bump_pomo_component(&mut p, PomoFocus::Minute, 61);
    assert_eq!(p.duration, 23 * 3600 + 60);
    bump_pomo_component(&mut p, PomoFocus::Second, -1);
    assert_eq!(p.duration, 23 * 3600 + 60 + 59);
}

#[test]
fn pomodoro_bump_then_back_restores() {
    for focus in [PomoFocus::Hour, PomoFocus::Minute, PomoFocus::Second] {
        let mut p = Pomodero::new(3 * 3600 + 59 * 60 + 7, None, None);
        bump_pomo_component(&mut p, focus, 1);
        bump_pomo_component(&mut p, focus, -1);
        assert_eq!(p.duration, 3 * 3600 + 59 * 60 + 7);
    }
}

#[test]
fn pomodoro_keys_start_pause_reset_cancel() {
    let mut p = Pomodero::new(120, None, None);
    assert_eq!(handle_pomodoro_key(&mut p, key(KeyCode::Up)), PomoEffect::Nothing);
    assert_eq!(p.duration, 3600 + 120);
    p.focus = PomoFocus::StartPause;
    assert_eq!(handle_pomodoro_key(&mut p, key(KeyCode::Enter)), PomoEffect::RestartClock);
    assert!(p.running && !p.paused);
    assert_eq!(handle_pomodoro_key(&mut p, key(KeyCode::Char(' '))), PomoEffect::Nothing);
    assert!(p.paused);
    assert_eq!(handle_pomodoro_key(&mut p, key(KeyCode::Enter)), PomoEffect::RestartClock);
    assert!(!p.paused);
    p.duration_left = 5;
    p.focus = PomoFocus::Reset;
    assert_eq!(handle_pomodoro_key(&mut p, key(KeyCode::Enter)), PomoEffect::RestartClock);
    assert_eq!(p.duration_left, p.duration);
    p.focus = PomoFocus::Cancel;
    handle_pomodoro_key(&mut p, key(KeyCode::Enter));
    assert!(!p.running && !p.paused);
    assert_eq!(handle_pomodoro_key(&mut p, key(KeyCode::Char('q'))), PomoEffect::Quit);
}

#[test]
fn pomodoro_running_wheels_do_not_turn() {
    let mut p = Pomodero::new(60, None, None);
    p.running = true;
    handle_pomodoro_key(&mut p, key(KeyCode::Up));
    assert_eq!(p.duration, 60);
}

#[test]
fn pomodoro_tick_counts_down_and_finishes() {
    let mut p = Pomodero::new(2, None, None);
    let t = tick_pomodoro(&mut p, true);
    assert!(t.restart_clock && !t.finished);
    assert_eq!(p.duration_left, 2);
    p.running = true;
    let t = tick_pomodoro(&mut p, false);
    assert!(!t.restart_clock);
    let t = tick_pomodoro(&mut p, true);
    assert!(t.restart_clock && !t.finished);
    assert_eq!(p.duration_left, 1);
    let t = tick_pomodoro(&mut p, true);
    assert!(t.finished);
    assert_eq!(p.duration_left, 0);
    assert!(!p.running);
}

#[test]
fn block_digits() {
    assert_eq!(big_digit_rows('1'), ["  ██  ", "  ██  ", "  ██  ", "  ██  ", "  ██  "]);
    assert_eq!(big_digit_rows('x'), ["      ", "      ", "      ", "      ", "      "]);
    let rows = big_time_rows("1:");
    assert_eq!(rows.len(), 5);
    assert_eq!(rows[1], "  ██     ██   ");
    assert_eq!(rows[0], "  ██          ");
}

// ------------------------------------------------------------------ todo

fn task(title: &str, done: bool) -> Todo_task {
    let mut t = Todo_task::new_with(1, 0, title.to_string(), None, None, None, Vec::new(), None, None);
    t.status = done;
    t
}

fn todo_ui(list: Vec<Todo_task>) -> TodoUi {
    TodoUi {
        mode: TodoMode::Load,
        focus: TodoFocus::Title,
        list,
        list_selected: 0,
        checkbox_focused: false,
        editing: task("x", false),
        tag_name_input: String::new(),
        tag_hex_input: String::new(),
        due_date_input: String::new(),
        due_date_valid: true,
    }
}

#[test]
fn todo_order_puts_open_tasks_first() {
    let list = vec![task("a", true), task("b", false), task("c", true), task("d", false)];
    assert_eq!(todo_display_order(&list), vec![1, 3, 0, 2]);
    assert_eq!(todo_display_order(&[]), Vec::<usize>::new());
}

#[test]
fn todo_list_keys() {
    let mut ui = todo_ui(vec![task("a", true), task("b", false)]);
    assert_eq!(handle_todo_key_at(&mut ui, key(KeyCode::Down), 0, 9), TodoEffect::Nothing);
    assert_eq!(ui.list_selected, 1);
    handle_todo_key_at(&mut ui, key(KeyCode::Down), 0, 9);
    assert_eq!(ui.list_selected, 1);
    handle_todo_key_at(&mut ui, key(KeyCode::Right), 0, 9);
    assert!(ui.checkbox_focused);
    // the second shown task is the done one at index 0
    assert_eq!(handle_todo_key_at(&mut ui, key(KeyCode::Enter), 77, 9), TodoEffect::SaveTask(0));
    assert!(!ui.list[0].status);
    assert_eq!(ui.list[0].completed_at, None);
    ui.list_selected = 0;
    handle_todo_key_at(&mut ui, key(KeyCode::Enter), 78, 9);
    assert!(ui.list[0].status);
    assert_eq!(ui.list[0].completed_at, Some(78));
    assert_eq!(handle_todo_key_at(&mut ui, key(KeyCode::Char('q')), 0, 9), TodoEffect::QuitAndSave);
}

#[test]
fn todo_new_task_form() {
    let mut ui = todo_ui(Vec::new());
    handle_todo_key_at(&mut ui, key(KeyCode::Char('n')), 5, 42);
    assert_eq!(ui.mode, TodoMode::Edit);
    assert_eq!(ui.editing.title, "Untitled");
    assert_eq!(ui.editing.id, 42);
    assert_eq!(ui.editing.created_at, 5);
    handle_todo_key_at(&mut ui, key(KeyCode::Backspace), 5, 42);
    handle_todo_key_at(&mut ui, key(KeyCode::Char('!')), 5, 42);
    assert_eq!(ui.editing.title, "Untitle!");
    handle_todo_key_at(&mut ui, key(KeyCode::Down), 5, 42);
    assert_eq!(ui.focus, TodoFocus::Description);
    handle_todo_key_at(&mut ui, key(KeyCode::Char('q')), 5, 42);
    assert_eq!(ui.editing.description, Some("q".to_string()));
    handle_todo_key_at(&mut ui, ctrl(KeyCode::Down), 5, 42);
    assert_eq!(ui.focus, TodoFocus::Status);
    assert_eq!(handle_todo_key_at(&mut ui, key(KeyCode::Char('q')), 5, 42), TodoEffect::QuitAndSave);
    handle_todo_key_at(&mut ui, key(KeyCode::Enter), 6, 42);
    assert!(ui.editing.status);
    assert_eq!(ui.editing.completed_at, Some(6));
    handle_todo_key_at(&mut ui, key(KeyCode::Down), 6, 42);
    handle_todo_key_at(&mut ui, key(KeyCode::Right), 6, 42);
    assert_eq!(ui.editing.priority, Priority::Medium);
}

#[test]
fn todo_tag_needs_name_and_six_hex_digits() {
    let mut ui = todo_ui(Vec::new());
    ui.mode = TodoMode::Edit;
    ui.focus = TodoFocus::TagName;
    handle_todo_key_at(&mut ui, key(KeyCode::Char('w')), 0, 0);
    handle_todo_key_at(&mut ui, key(KeyCode::Char(' ')), 0, 0);
    assert_eq!(ui.tag_name_input, "w");
    ui.focus = TodoFocus::TagHex;
    for c in ['0', '0', 'z', 'f', 'f', '0', '0', '1'] {
        handle_todo_key_at(&mut ui, key(KeyCode::Char(c)), 0, 0);
    }
    assert_eq!(ui.tag_hex_input, "00ff00");
    ui.focus = TodoFocus::TagAdd;
    handle_todo_key_at(&mut ui, key(KeyCode::Enter), 0, 0);
    assert_eq!(ui.editing.tags.len(), 1);
    assert_eq!(ui.editing.tags[0].color, MyColor::RGB(0, 255, 0));
    assert_eq!(ui.tag_name_input, "");
    handle_todo_key_at(&mut ui, key(KeyCode::Enter), 0, 0);
    assert_eq!(ui.editing.tags.len(), 1);
}

#[test]
fn todo_save_and_load_effects() {
    let mut ui = todo_ui(Vec::new());
    ui.mode = TodoMode::Edit;
    ui.focus = TodoFocus::Save;
    assert_eq!(handle_todo_key_at(&mut ui, key(KeyCode::Enter), 0, 0), TodoEffect::SaveEditingAndReload);
    assert_eq!(ui.mode, TodoMode::Load);
    ui.mode = TodoMode::Edit;
    ui.focus = TodoFocus::Load;
    ui.list_selected = 4;
    assert_eq!(handle_todo_key_at(&mut ui, key(KeyCode::Char(' ')), 0, 0), TodoEffect::Reload);
    assert_eq!(ui.list_selected, 0);
    ui.mode = TodoMode::Edit;
    assert_eq!(handle_todo_key_at(&mut ui, key(KeyCode::Esc), 0, 0), TodoEffect::Nothing);
    assert_eq!(ui.mode, TodoMode::Load);
}

#[test]
fn todo_due_date_field() {
    assert_eq!(parse_due_date_input(""), None);
    assert_eq!(parse_due_date_input("1970-01-01 00:01"), Some(60_000_000));
    assert_eq!(parse_due_date_input("tomorrow"), None);
    let mut ui = todo_ui(Vec::new());
    ui.mode = TodoMode::Edit;
    ui.focus = TodoFocus::DueDate;
    ui.due_date_input = "1970-01-01 00:0".to_string();
    handle_todo_key_at(&mut ui, key(KeyCode::Char('2')), 0, 0);
    assert!(ui.due_date_valid);
    assert_eq!(ui.editing.due_date, Some(120_000_000));
    handle_todo_key_at(&mut ui, key(KeyCode::Char('x')), 0, 0);
    assert!(!ui.due_date_valid);
    assert_eq!(ui.editing.due_date, Some(120_000_000));
}

#[test]
fn overdue_open_tasks_become_critical() {
    let mut late = task("late", false);
    late.due_date = Some(10);
    let mut done = task("done", true);
    done.due_date = Some(10);
    let mut later = task("later", false);
    later.due_date = Some(100);
    let mut ui = todo_ui(vec![late, done, later]);
    escalate_overdue_todos_at(&mut ui, 50);
    assert_eq!(ui.list[0].priority, Priority::Critical);
    assert_eq!(ui.list[1].priority, Priority::Default);
    assert_eq!(ui.list[2].priority, Priority::Default);
}

// ------------------------------------------------------------------ notes

fn note(title: &str, pinned: bool, favorite: bool) -> Note_task {
    Note_task::new_with(1, 0, Some(title.to_string()), Some("body".to_string()), pinned, favorite, None, None, None)
}

fn note_ui(list: Vec<Note_task>) -> NoteUi {
    NoteUi {
        mode: NoteMode::Load,
        focus: NoteFocus::Title,
        filter: NoteFilter::All,
        list,
        list_selected: 0,
        editing: note("e", false, false),
        tag_name_input: String::new(),
        tag_hex_input: String::new(),
    }
}

#[test]
fn note_order_by_filter() {
    let list = vec![note("a", false, false), note("b", true, false), note("c", false, true), note("d", false, false)];
    assert_eq!(note_display_order(&list, NoteFilter::All), vec![1, 2, 0, 3]);
    assert_eq!(note_display_order(&list, NoteFilter::Pinned), vec![1]);
    assert_eq!(note_display_order(&list, NoteFilter::Favourite), vec![2]);
}

#[test]
fn note_tags_form_a_set() {
    let mut n = note("a", false, false);
    n.add_tag_at(3, Tag::new("x".to_string(), None));
    n.add_tag_at(4, Tag::new("x".to_string(), None));
    assert_eq!(n.tags.len(), 1);
    assert_eq!(n.updated_at, 4);
    let m = Note_task::new_with(2, 0, None, None, false, false, Some(vec![Tag::new("y".to_string(), None), Tag::new("y".to_string(), None)]), None, None);
    assert_eq!(m.tags.len(), 1);
    assert_eq!(m.title, "Untitled");
}

#[test]
fn note_list_opens_note_in_editor() {
    let mut ui = note_ui(vec![note("a", false, false), note("b", true, false)]);
    let mut ed = EditorState::default();
    handle_notes_key_at(&mut ui, &mut ed, key(KeyCode::Enter), 0, 0);
    assert_eq!(ui.mode, NoteMode::Edit);
    assert_eq!(ui.editing.title, "b");
    assert_eq!(ed.buffer.to_string(), "body\n");
    assert_eq!((ed.cursor_x, ed.cursor_y), (0, 0));
}

#[test]
fn note_filter_key_cycles() {
    let mut ui = note_ui(Vec::new());
    let mut ed = EditorState::default();
    ui.list_selected = 3;
    handle_notes_key_at(&mut ui, &mut ed, key(KeyCode::Char('f')), 0, 0);
    assert_eq!(ui.filter, NoteFilter::Pinned);
    assert_eq!(ui.list_selected, 0);
}

#[test]
fn note_form_edits_touch_the_note() {
    let mut ui = note_ui(Vec::new());
    let mut ed = EditorState::default();
    ui.mode = NoteMode::Edit;
    handle_notes_key_at(&mut ui, &mut ed, key(KeyCode::Char('!')), 9, 0);
    assert_eq!(ui.editing.title, "e!");
    assert_eq!(ui.editing.updated_at, 9);
    handle_notes_key_at(&mut ui, &mut ed, key(KeyCode::Down), 9, 0);
    assert_eq!(ui.focus, NoteFocus::Pinned);
    handle_notes_key_at(&mut ui, &mut ed, key(KeyCode::Left), 10, 0);
    assert!(ui.editing.pinned);
    ui.focus = NoteFocus::Save;
    assert_eq!(handle_notes_key_at(&mut ui, &mut ed, key(KeyCode::Enter), 11, 0), NoteEffect::SaveEditingAndReload);
    assert_eq!(ui.editing.content, "Start Typing\nRope");
    assert_eq!(ui.mode, NoteMode::Load);
}

#[test]
fn note_content_goes_to_editor() {
    let mut ui = note_ui(Vec::new());
    let mut ed = EditorState::default();
    ui.mode = NoteMode::Edit;
    ui.focus = NoteFocus::Content;
    handle_notes_key_at(&mut ui, &mut ed, key(KeyCode::Char('q')), 0, 0);
    assert_eq!(ed.buffer.to_string(), "qStart Typing\nRope");
    handle_notes_key_at(&mut ui, &mut ed, alt(KeyCode::Char('n')), 0, 0);
    assert_eq!(ui.focus, NoteFocus::TagName);
}

// ------------------------------------------------------------------ journal

fn journal_ui() -> JournalUi {
    JournalUi {
        mode: JournalMode::Edit,
        focus: JournalFocus::Mood,
        list: Vec::new(),
        list_selected: 0,
        editing: Journal_task::new_with(1, 0, None, None, None, None, None, None),
        tag_name_input: String::new(),
        tag_hex_input: String::new(),
    }
}

#[test]
fn journal_mood_wheel() {
    let mut ui = journal_ui();
    let mut ed = EditorState::default();
    handle_journal_key_at(&mut ui, &mut ed, key(KeyCode::Right), 7, 0);
    assert_eq!(ui.editing.mood, Some(Mood::Neutral.next()));
    assert_eq!(ui.editing.updated_at, 7);
    handle_journal_key_at(&mut ui, &mut ed, key(KeyCode::Delete), 8, 0);
    assert_eq!(ui.editing.mood, None);
    handle_journal_key_at(&mut ui, &mut ed, key(KeyCode::Left), 8, 0);
    assert_eq!(ui.editing.mood, Some(Mood::Neutral.prev()));
}

#[test]
fn journal_save_keeps_form_and_load_lists() {
    let mut ui = journal_ui();
    let mut ed = EditorState::default();
    ui.focus = JournalFocus::Save;
    assert_eq!(handle_journal_key_at(&mut ui, &mut ed, key(KeyCode::Enter), 3, 0), JournalEffect::SaveEditing);
    assert_eq!(ui.mode, JournalMode::Edit);
    assert_eq!(ui.editing.content, "Start Typing\nRope");
    ui.focus = JournalFocus::Load;
    assert_eq!(handle_journal_key_at(&mut ui, &mut ed, key(KeyCode::Enter), 3, 0), JournalEffect::Reload);
    assert_eq!(ui.mode, JournalMode::Load);
    handle_journal_key_at(&mut ui, &mut ed, key(KeyCode::Esc), 3, 0);
    assert_eq!(ui.mode, JournalMode::Edit);
}

#[test]
fn journal_quit_outside_text_fields() {
    let mut ui = journal_ui();
    let mut ed = EditorState::default();
    assert_eq!(handle_journal_key_at(&mut ui, &mut ed, key(KeyCode::Char('q')), 0, 0), JournalEffect::QuitAndSave);
    ui.focus = JournalFocus::Title;
    assert_eq!(handle_journal_key_at(&mut ui, &mut ed, key(KeyCode::Char('q')), 0, 0), JournalEffect::Nothing);
    assert_eq!(ui.editing.title, "Untitledq");
}

// ------------------------------------------------------------------ finance

fn txn(t: Txn_Type, amnt: (i128, u32), time: i64) -> Finance_task {
    Finance_task::new_with(1, time, "item".to_string(), None, t, amnt, None)
}

#[test]
fn ledger_balance_and_blocked() {
    let mut l = Ledger::new();
    l.add_txn_at(1, 10, "pay".to_string(), None, Txn_Type::CREDIT, (10050, 2), None);
    l.add_txn_at(2, 20, "food".to_string(), None, Txn_Type::DEBIT, (2550, 2), Some(Frequency::Once));
    l.add_txn_at(3, 30, "hold".to_string(), None, Txn_Type::BLOCKED, (100, 0), None);
    assert_eq!(l.balance(), (7500, 2));
    assert_eq!(l.get_blocked(), (100, 0));
    assert_eq!(l.checked_balance(), Some((7500, 2)));
    let between = l.get_txns_between(15, 30);
    assert_eq!(between.len(), 2);
    assert_eq!(between[0].get_item(), "food");
    assert_eq!(Ledger::unblock(3), (0, 0));
}

#[test]
fn ledger_copies_get_new_identity() {
    let mut l = Ledger::new();
    let t = txn(Txn_Type::CREDIT, (5, 0), 1);
    l.from_txn_at(99, 1234, &t);
    let v = l.retrive_txn();
    assert_eq!(v[0].get_id(), 99);
    assert_eq!(v[0].get_txn_time(), 1234);
    assert_eq!(v[0].get_amnt(), (5, 0));
    assert_eq!(v[0].get_freq(), Frequency::Once);
    assert_eq!(v[0].get_desc(), "");
}

fn ledger_ui() -> LedgerUi {
    LedgerUi {
        mode: LedgerMode::Edit,
        focus: LedgerFocus::Amount,
        list: Ledger::new(),
        list_selected: 0,
        editing: txn(Txn_Type::DEBIT, (0, 0), 0),
        amnt_input: String::new(),
        amnt_valid: true,
        txn_time_input: String::new(),
        txn_time_valid: true,
    }
}

#[test]
fn ledger_amount_field() {
    let mut ui = ledger_ui();
    for c in ['1', 'x', '2', '.', '5'] {
        handle_ledger_at(&mut ui, key(KeyCode::Char(c)), 0, 0);
    }
    assert_eq!(ui.amnt_input, "12.5");
    assert!(ui.amnt_valid);
    assert_eq!(ui.editing.get_amnt(), (125, 1));
    handle_ledger_at(&mut ui, key(KeyCode::Char('.')), 0, 0);
    assert!(!ui.amnt_valid);
    assert_eq!(ui.editing.get_amnt(), (125, 1));
}

#[test]
fn ledger_add_and_type_keys() {
    let mut ui = ledger_ui();
    ui.focus = LedgerFocus::TxnType;
    handle_ledger_at(&mut ui, key(KeyCode::Right), 0, 0);
    assert_eq!(ui.editing.get_txn_type(), Txn_Type::CREDIT);
    assert_eq!(handle_ledger_at(&mut ui, key(KeyCode::Char('q')), 0, 0), LedgerEffect::QuitAndSave);
    ui.focus = LedgerFocus::Add;
    assert_eq!(handle_ledger_at(&mut ui, key(KeyCode::Enter), 500, 7), LedgerEffect::SaveEditing);
    assert_eq!(ui.mode, LedgerMode::Load);
    assert_eq!(ui.list.retrive_txn().len(), 1);
    assert_eq!(ui.list.retrive_txn()[0].get_id(), 7);
    handle_ledger_at(&mut ui, key(KeyCode::Enter), 0, 0);
    assert_eq!(ui.mode, LedgerMode::Edit);
    assert_eq!(ui.amnt_input, "0");
}

// ------------------------------------------------------------------ calendar

#[test]
fn month_shifting() {
    assert_eq!(shift_month(2024, 1, -1), (2023, 12));
    assert_eq!(shift_month(2024, 12, 1), (2025, 1));
    assert_eq!(shift_month(2024, 5, 0), (2024, 5));
    assert_eq!(shift_month(2024, 5, -17), (2022, 12));
    let (y, m) = shift_month(2024, 3, 7);
    assert_eq!(shift_month(y, m, 5), shift_month(2024, 3, 12));
}

#[test]
fn month_grid_starts_on_sunday() {
    // 2024-06-01 was a Saturday: the grid starts on Sunday 2024-05-26.
    let g = month_grid(2024, 6);
    assert_eq!(g.len(), 42);
    let june_first = 739_038;
    assert_eq!(g[0], june_first - 6);
    assert_eq!(g[41], june_first - 6 + 41);
}

fn event_on(day_from_epoch: i64, duration: Duration) -> Calendar_task {
    Calendar_task::new_with(5, "e".to_string(), Some(duration), None, None, day_from_epoch * 86_400_000_000, None)
}

#[test]
fn events_cover_their_days() {
    let events = vec![event_on(0, Duration::DAY(2)), event_on(1, Duration::HOUR(3))];
    let epoch = 719_163;
    assert_eq!(events_on_day(&events, epoch).len(), 1);
    assert_eq!(events_on_day(&events, epoch + 1).len(), 2);
    assert_eq!(events_on_day(&events, epoch + 2).len(), 0);
}

fn calendar_ui(events: Vec<Calendar_task>) -> CalendarUiState {
    CalendarUiState {
        mode: CalendarMode::Load,
        focus: CalendarFocus::Event,
        events,
        cursor_date: 719_163,
        view_year: 1970,
        view_month: 1,
        editing: event_on(0, Duration::DAY(1)),
        date_input: String::new(),
        date_valid: true,
        color_hex_input: String::new(),
    }
}

#[test]
fn calendar_cursor_moves_and_view_follows() {
    let mut ui = calendar_ui(Vec::new());
    handle_calendar_at(&mut ui, key(KeyCode::Left), 0);
    assert_eq!(ui.cursor_date, 719_162);
    assert_eq!((ui.view_year, ui.view_month), (1969, 12));
    handle_calendar_at(&mut ui, key(KeyCode::Down), 0);
    assert_eq!((ui.view_year, ui.view_month), (1970, 1));
    handle_calendar_at(&mut ui, key(KeyCode::PageUp), 0);
    assert_eq!((ui.view_year, ui.view_month), (1969, 12));
    ui.cursor_date = 739_038;
    sync_view_to_cursor(&mut ui);
    assert_eq!((ui.view_year, ui.view_month), (2024, 6));
}

#[test]
fn calendar_enter_opens_event_or_new() {
    let mut ui = calendar_ui(vec![event_on(0, Duration::DAY(1))]);
    handle_calendar_at(&mut ui, key(KeyCode::Enter), 0);
    assert_eq!(ui.mode, CalendarMode::Edit);
    assert_eq!(ui.editing.id, 5);
    assert_eq!(ui.color_hex_input, "0000FF");
    assert_eq!(ui.date_input, "1970-01-01 00:00");
    let mut ui2 = calendar_ui(Vec::new());
    handle_calendar_at(&mut ui2, key(KeyCode::Enter), 8);
    assert_eq!(ui2.editing.id, 8);
    assert_eq!(ui2.editing.date, 9 * 3_600_000_000);
    assert_eq!(ui2.date_input, "1970-01-01 09:00");
    assert_eq!(ui2.editing.duration, Duration::DAY(1));
    assert_eq!(ui2.editing.color, MyColor::BrightBlue);
}

#[test]
fn calendar_form_color_and_save() {
    let mut ui = calendar_ui(vec![event_on(0, Duration::DAY(1))]);
    ui.mode = CalendarMode::Edit;
    ui.focus = CalendarFocus::ColorHex;
    for c in ['f', 'f', '0', '0', '0', '0'] {
        handle_calendar_at(&mut ui, key(KeyCode::Char(c)), 0);
    }
    assert_eq!(ui.editing.color, MyColor::RGB(255, 0, 0));
    ui.focus = CalendarFocus::Save;
    assert_eq!(handle_calendar_at(&mut ui, key(KeyCode::Enter), 0), CalendarEffect::SaveEvent(true));
    ui.mode = CalendarMode::Edit;
    ui.editing.id = 77;
    assert_eq!(handle_calendar_at(&mut ui, key(KeyCode::Enter), 0), CalendarEffect::SaveEvent(false));
}

#[test]
fn conversion_through_rupee_rate() {
    let rates = vec![(Currency::USD, (1, 0)), (Currency::INR, (8312, 2)), (Currency::EUR, (92, 2))];
    let (m, s) = convert((8312, 2), Currency::EUR, &rates).unwrap();
    assert_eq!(m * 100, 92 * 10i128.pow(s));
    assert_eq!(convert((100, 0), Currency::GBP, &rates), None);
    assert_eq!(convert_checked((100, 0), Currency::GBP, &rates), Some(None));
    let zero = vec![(Currency::INR, (0, 0)), (Currency::EUR, (92, 2))];
    assert_eq!(convert_checked((1, 0), Currency::EUR, &zero), None);
}

#[test]
fn blocked_amounts_stay_out_of_balance() {
    let mut l = Ledger::new();
    l.add_txn_at(1, 0, "a".to_string(), None, Txn_Type::CREDIT, (5, 0), None);
    let before = l.balance();
    l.add_txn_at(2, 0, "b".to_string(), None, Txn_Type::BLOCKED, (7, 0), None);
    assert_eq!(l.balance(), before);
    assert_eq!(l.get_blocked(), (7, 0));
}

#[test]
fn checkbox_flipped_twice() {
    let mut ui = todo_ui(vec![task("a", false)]);
    ui.checkbox_focused = true;
    handle_todo_key_at(&mut ui, key(KeyCode::Enter), 10, 0);
    assert_eq!(ui.list[0].completed_at, Some(10));
    handle_todo_key_at(&mut ui, key(KeyCode::Enter), 11, 0);
    assert!(!ui.list[0].status);
    assert_eq!(ui.list[0].completed_at, None);
}

#[test]
fn escalation_is_idempotent() {
    let mut late = task("late", false);
    late.due_date = Some(0);
    let mut ui = todo_ui(vec![late]);
    ui.editing.due_date = Some(0);
    escalate_overdue_todos_at(&mut ui, 5);
    escalate_overdue_todos_at(&mut ui, 5);
    assert_eq!(ui.list[0].priority, Priority::Critical);
    assert_eq!(ui.editing.priority, Priority::Critical);
}

#[test]
fn calendar_edges_of_the_representable_days() {
    let mut ui = calendar_ui(Vec::new());
    ui.cursor_date = -95_746_129;
    sync_view_to_cursor(&mut ui);
    assert_eq!((ui.view_year, ui.view_month), (-262_143, 1));
    ui.cursor_date = 95_745_399;
    sync_view_to_cursor(&mut ui);
    assert_eq!((ui.view_year, ui.view_month), (262_142, 12));
    // the first month's grid would start four days before the first day
    assert!(month_grid_checked(-262_143, 1).is_none());
    assert!(month_grid_checked(2024, 13).is_none());
    let g = month_grid_checked(2024, 2).unwrap();
    // 2024-02-01 was a Thursday
    assert_eq!(g[0], 738_917 - 4);
}

#[test]
fn balance_of_one_scale_is_exact() {
    let mut l = Ledger::new();
    l.add_txn_at(1, 0, "hold".to_string(), None, Txn_Type::BLOCKED, (300, 2), None);
    assert_eq!(l.balance(), (0, 0));
    l.add_txn_at(2, 0, "rent".to_string(), None, Txn_Type::DEBIT, (125, 2), None);
    assert_eq!(l.balance(), (-125, 2));
    l.add_txn_at(3, 0, "pay".to_string(), None, Txn_Type::CREDIT, (125, 2), None);
    assert_eq!(l.balance(), (0, 2));
    l.add_txn_at(4, 0, "gift".to_string(), None, Txn_Type::CREDIT, (1001, 2), None);
    assert_eq!(l.balance(), (1001, 2));
}

#[test]
fn journal_ctrl_keys_move_focus_from_any_field() {
    let mut ui = journal_ui();
    let mut ed = EditorState::default();
    ui.focus = JournalFocus::Title;
    handle_journal_key_at(&mut ui, &mut ed, ctrl(KeyCode::Char('n')), 0, 0);
    assert_ne!(ui.focus, JournalFocus::Title);
    assert_eq!(ui.editing.title, "Untitled");
    handle_journal_key_at(&mut ui, &mut ed, ctrl(KeyCode::Char('p')), 0, 0);
    assert_eq!(ui.focus, JournalFocus::Title);
    ui.focus = JournalFocus::Content;
    handle_journal_key_at(&mut ui, &mut ed, ctrl(KeyCode::Down), 0, 0);
    assert_ne!(ui.focus, JournalFocus::Content);
    handle_journal_key_at(&mut ui, &mut ed, ctrl(KeyCode::Up), 0, 0);
    assert_eq!(ui.focus, JournalFocus::Content);
}

#[test]
fn ledger_amounts_shown_in_the_chosen_currency() {
    let rates = vec![(Currency::USD, (1, 0)), (Currency::EUR, (92, 2))];
    assert_eq!(shown_amount((1000, 2), Currency::EUR, &rates), Some((92000, 4)));
    assert_eq!(shown_amount((5, 0), Currency::USD, &rates), Some((5, 0)));
    assert_eq!(shown_amount((5, 0), Currency::INR, &rates), None);
}

#[test]
fn balance_of_mixed_scales_is_exact() {
    let mut l = Ledger::new();
    l.add_txn_at(1, 0, "a".to_string(), None, Txn_Type::CREDIT, (15, 1), None);
    l.add_txn_at(2, 0, "b".to_string(), None, Txn_Type::DEBIT, (25, 2), None);
    assert_eq!(l.balance(), (125, 2));
    l.add_txn_at(3, 0, "c".to_string(), None, Txn_Type::CREDIT, (3, 0), None);
    assert_eq!(l.balance(), (425, 2));
}

#[test]
fn ledger_edit_shows_the_amount_as_decimal_text() {
    for (amnt, text) in [((-5i128, 3u32), "-0.005"), ((7500, 2), "75.00"), ((0, 2), "0.00"), ((42, 0), "42")] {
        let mut ui = ledger_ui();
        ui.mode = LedgerMode::Load;
        ui.list.add_txn_at(1, 0, "a".to_string(), None, Txn_Type::CREDIT, amnt, None);
        handle_ledger_at(&mut ui, key(KeyCode::Enter), 0, 0);
        assert_eq!(ui.mode, LedgerMode::Edit);
        assert_eq!(ui.amnt_input, text);
    }
}
