use ratatoskr::keys::{KeyCode, KeyEvent, KeyModifiers};
use ratatoskr::tree::{Tree, Relation};
use ratatoskr::editor::{EditorState, EditorMode, Vim_mode, handle_editor_key, clamp_cursor, cursor_char_idx, word_bounds_at};
use ratatoskr::app::{Settings, Currency, Theme_comp, Color_channel, Page};
use ratatoskr::meta::MyColor;
use ratatoskr::settings_input::{SettingsUi, SettingsFocus, SettingsEffect, cycle_settings_focus, handle_settings_key, handle_color_picker_field_key};
use ratatoskr::helper::{CLI, ArgsOutcome};
use ratatoskr::dispatch::{App, AppEffect, Area, MouseEvent, MouseKind, handle_key_at, handle_mouse};
use ratatoskr::todo::{Todo_task, TodoUi, TodoMode, TodoFocus};
use ratatoskr::notes::{Note_task, NoteUi, NoteMode, NoteFocus, NoteFilter};
use ratatoskr::journal::{Journal_task, JournalUi, JournalMode, JournalFocus};
use ratatoskr::finance::{Finance_task, Ledger, LedgerUi, LedgerMode, LedgerFocus};
use ratatoskr::calendar::{Calendar_task, CalendarUiState, CalendarMode, CalendarFocus};
use ratatoskr::pomodoro::Pomodero;
use ratatoskr::meta::Txn_Type;

fn key(code: KeyCode) -> KeyEvent {
    KeyEvent { code, modifiers: KeyModifiers { shift: false, control: false, alt: false } }
}

fn with(code: KeyCode, shift: bool, control: bool, alt: bool) -> KeyEvent {
    KeyEvent { code, modifiers: KeyModifiers { shift, control, alt } }
}

// ------------------------------------------------------------------ tree

fn rel(p: &str, c: &str) -> Relation {
    Relation { parent: p.to_string(), child: c.to_string() }
}

#[test]
fn tree_walks() {
    let t = Tree::build(vec![rel("a", "b"), rel("a", "c"), rel("b", "d")]);
    assert_eq!(t.dfs(), vec!["a", "b", "d", "c"]);
    assert_eq!(t.bfs(), vec!["a", "b", "c", "d"]);
    assert_eq!(t.parent_of("d"), Some("b".to_string()));
    assert_eq!(t.parent_of("a"), None);
    assert_eq!(t.ancestors("d"), vec!["b", "a"]);
    assert_eq!(t.path_to_root("d"), vec!["d", "b", "a"]);
}

#[test]
fn tree_add_node_errors() {
    let mut t = Tree::build(vec![rel("a", "b")]);
    assert_eq!(t.add_node(Some("a"), "b"), Err("Node 'b' already exists".to_string()));
    assert_eq!(t.add_node(Some("zz"), "e"), Err("Parent 'zz' not found".to_string()));
    assert_eq!(t.add_node(Some("b"), "e"), Ok(()));
    assert_eq!(t.parent_of("e"), Some("b".to_string()));
    assert_eq!(t.add_node(None, "r"), Ok(()));
    assert_eq!(t.parent_of("r"), None);
    assert_eq!(t.dfs(), vec!["a", "b", "e", "r"]);
}

// ------------------------------------------------------------------ editor

fn editor(text: &str) -> EditorState {
    let mut e = EditorState::default();
    e.buffer = ropey::Rope::from_str(text);
    e
}

#[test]
fn plain_editor_typing() {
    let mut e = editor("ab\ncd");
    handle_editor_key(&mut e, key(KeyCode::Right));
    handle_editor_key(&mut e, key(KeyCode::Char('X')));
    assert_eq!(e.buffer.to_string(), "aXb\ncd");
    assert!(e.dirty);
    handle_editor_key(&mut e, key(KeyCode::Enter));
    assert_eq!(e.buffer.to_string(), "aX\nb\ncd");
    assert_eq!((e.cursor_x, e.cursor_y), (0, 1));
    handle_editor_key(&mut e, key(KeyCode::Backspace));
    assert_eq!(e.buffer.to_string(), "aXb\ncd");
    assert_eq!((e.cursor_x, e.cursor_y), (0, 1));
    handle_editor_key(&mut e, key(KeyCode::End));
    assert_eq!(e.cursor_x, 2);
    handle_editor_key(&mut e, key(KeyCode::Backspace));
    assert_eq!(e.buffer.to_string(), "aXb\nc");
    assert_eq!(e.cursor_x, 1);
}

#[test]
fn cursor_is_clamped_to_text() {
    let mut e = editor("abc\nd");
    e.cursor_y = 9;
    e.cursor_x = 9;
    clamp_cursor(&mut e);
    assert_eq!((e.cursor_x, e.cursor_y), (1, 1));
    assert_eq!(cursor_char_idx(&e), 5);
}

#[test]
fn vim_normal_commands() {
    let mut e = editor("one two\nthree");
    e.mode = EditorMode::Vim;
    handle_editor_key(&mut e, key(KeyCode::Char('y')));
    handle_editor_key(&mut e, key(KeyCode::Char('y')));
    handle_editor_key(&mut e, key(KeyCode::Char('j')));
    handle_editor_key(&mut e, key(KeyCode::Char('p')));
    assert_eq!(e.buffer.to_string(), "one two\nthreeone two\n");
    handle_editor_key(&mut e, key(KeyCode::Char('i')));
    assert_eq!(e.vim.submode, Vim_mode::Insert);
    handle_editor_key(&mut e, key(KeyCode::Esc));
    assert_eq!(e.vim.submode, Vim_mode::Normal);
}

#[test]
fn words_split_at_boundaries() {
    assert_eq!(word_bounds_at("hello world", 1), (0, 5));
    assert_eq!(word_bounds_at("hello world", 5), (5, 6));
    assert_eq!(word_bounds_at("hello world", 7), (6, 11));
    assert_eq!(word_bounds_at("hello world", 20), (20, 21));
}

#[test]
fn vim_inner_word_and_line_deletes() {
    let mut e = editor("ab cd
ef");
    e.mode = EditorMode::Vim;
    for c in ['y', 'i', 'w'] {
        handle_editor_key(&mut e, key(KeyCode::Char(c)));
    }
    assert_eq!(e.vim.register, "ab");
    assert!(!e.vim.register_line);
    handle_editor_key(&mut e, key(KeyCode::Char('d')));
    handle_editor_key(&mut e, key(KeyCode::Char('d')));
    assert_eq!(e.buffer.to_string(), "ef");
    assert_eq!(e.vim.register, "ab cd\n");
    handle_editor_key(&mut e, key(KeyCode::Char('~')));
    assert_eq!(e.buffer.to_string(), "Ef");
}

// ------------------------------------------------------------------ settings

fn settings_ui(focus: SettingsFocus) -> SettingsUi {
    SettingsUi { focus, autosave_freq_input: String::new(), date_fmt: String::new(), timezone_input: String::new() }
}

#[test]
fn settings_focus_wraps() {
    assert_eq!(cycle_settings_focus(SettingsFocus::Timezone, true), SettingsFocus::ColorPicker);
    assert_eq!(cycle_settings_focus(SettingsFocus::ColorPicker, false), SettingsFocus::Timezone);
    assert_eq!(cycle_settings_focus(SettingsFocus::Datefmt, true), SettingsFocus::Currency);
}

#[test]
fn settings_switches_and_quit() {
    let mut s = Settings::new();
    let mut ui = settings_ui(SettingsFocus::AutosaveEnabled);
    assert_eq!(handle_settings_key(&mut s, &mut ui, key(KeyCode::Enter)), SettingsEffect::Nothing);
    assert!(s.autosave);
    assert_eq!(handle_settings_key(&mut s, &mut ui, key(KeyCode::Char('q'))), SettingsEffect::Quit);
    ui.focus = SettingsFocus::Timezone;
    assert_eq!(handle_settings_key(&mut s, &mut ui, key(KeyCode::Char('q'))), SettingsEffect::Nothing);
    assert_eq!(s.timezone, "q");
    assert_eq!(handle_settings_key(&mut s, &mut ui, with(KeyCode::Char('s'), false, true, false)), SettingsEffect::Save);
    assert_eq!(s.timezone, "qs");
    ui.focus = SettingsFocus::Currency;
    handle_settings_key(&mut s, &mut ui, key(KeyCode::Left));
    assert_eq!(s.currency, Currency::JPY.prev().prev());
    handle_settings_key(&mut s, &mut ui, key(KeyCode::Down));
    assert_eq!(ui.focus, SettingsFocus::Timezone);
}

#[test]
fn color_picker_keys() {
    let mut s = Settings::new();
    s.theme.primary = MyColor::RGB(1, 2, 3);
    s.color_picker.reload_from_theme(&s.theme);
    handle_color_picker_field_key(&mut s, key(KeyCode::Char('9')));
    assert_eq!(s.color_picker.buffers[0], "19");
    assert_eq!(s.theme.primary, MyColor::RGB(19, 2, 3));
    handle_color_picker_field_key(&mut s, key(KeyCode::Char('9')));
    handle_color_picker_field_key(&mut s, key(KeyCode::Char('9')));
    assert_eq!(s.color_picker.buffers[0], "199");
    assert_eq!(s.theme.primary, MyColor::RGB(199, 2, 3));
    handle_color_picker_field_key(&mut s, key(KeyCode::Tab));
    assert_eq!(s.color_picker.selected, Color_channel::G);
    handle_color_picker_field_key(&mut s, key(KeyCode::Backspace));
    assert_eq!(s.theme.primary, MyColor::RGB(199, 0, 3));
    handle_color_picker_field_key(&mut s, key(KeyCode::Char(']')));
    assert_eq!(s.color_picker.component, Theme_comp::Secondary);
}

// ------------------------------------------------------------------ command line

fn args(v: &[&str]) -> Vec<String> {
    v.iter().map(|s| s.to_string()).collect()
}

#[test]
fn command_line_options() {
    let mut c = CLI::new();
    assert_eq!(c.port, 8080);
    let o = c.Parse_Args(&args(&["-d", "--src=/tmp/x", "--port=+90", "-u=db://h"]), Some("me".to_string()), Some(String::new()));
    assert_eq!(o, ArgsOutcome::Parsed);
    assert!(c.debug);
    assert_eq!(c.srcdir, Some("/tmp/x".to_string()));
    assert_eq!(c.port, 90);
    assert_eq!(c.url, Some("db://h".to_string()));
    assert_eq!(c.user, "me");
    assert_eq!(c.password, None);
}

#[test]
fn command_line_stops() {
    let mut c = CLI::new();
    assert_eq!(c.Parse_Args(&args(&["--file=a=b", "--help", "-d"]), None, Some("pw".to_string())), ArgsOutcome::Help);
    assert_eq!(c.ifile, Some("a=b".to_string()));
    assert!(!c.debug);
    assert_eq!(c.user, "root");
    assert_eq!(c.password, Some("pw".to_string()));
    let mut d = CLI::new();
    assert_eq!(d.Parse_Args(&args(&["-p=70000"]), None, None), ArgsOutcome::BadPort);
    assert_eq!(d.Parse_Args(&args(&["ratatoskr"]), None, None), ArgsOutcome::Help);
}

// ------------------------------------------------------------------ whole app

fn app() -> App {
    App {
        settings: Settings::new(),
        settings_ui: settings_ui(SettingsFocus::ColorPicker),
        page: Page::Home,
        editor: EditorState::default(),
        todo_ui: TodoUi {
            mode: TodoMode::Load,
            focus: TodoFocus::Title,
            list: Vec::new(),
            list_selected: 0,
            checkbox_focused: false,
            editing: Todo_task::new_with(0, 0, String::new(), None, None, None, Vec::new(), None, None),
            tag_name_input: String::new(),
            tag_hex_input: String::new(),
            due_date_input: String::new(),
            due_date_valid: true,
        },
        note_ui: NoteUi {
            mode: NoteMode::Load,
            focus: NoteFocus::Title,
            filter: NoteFilter::All,
            list: Vec::new(),
            list_selected: 0,
            editing: Note_task::new_with(0, 0, None, None, false, false, None, None, None),
            tag_name_input: String::new(),
            tag_hex_input: String::new(),
        },
        journal_ui: JournalUi {
            mode: JournalMode::Edit,
            focus: JournalFocus::Title,
            list: Vec::new(),
            list_selected: 0,
            editing: Journal_task::new_with(0, 0, None, None, None, None, None, None),
            tag_name_input: String::new(),
            tag_hex_input: String::new(),
        },
        calendar_ui: CalendarUiState {
            mode: CalendarMode::Load,
            focus: CalendarFocus::Event,
            events: Vec::new(),
            cursor_date: 719_163,
            view_year: 1970,
            view_month: 1,
            editing: Calendar_task::new_with(0, String::new(), None, None, None, 0, None),
            date_input: String::new(),
            date_valid: true,
            color_hex_input: String::new(),
        },
        ledger_ui: LedgerUi {
            mode: LedgerMode::Load,
            focus: LedgerFocus::Item,
            list: Ledger::new(),
            list_selected: 0,
            editing: Finance_task::new_with(0, 0, String::new(), None, Txn_Type::DEBIT, (0, 0), None),
            amnt_input: String::new(),
            amnt_valid: true,
            txn_time_input: String::new(),
            txn_time_valid: true,
        },
        pomodero: Pomodero::default(),
        last_editor_section: Area { x: 2, y: 3, width: 40, height: 10 },
        is_quit: false,
    }
}

#[test]
fn shared_keys_turn_pages() {
    let mut a = app();
    assert_eq!(handle_key_at(&mut a, key(KeyCode::Tab), 0, 0), AppEffect::Nothing);
    assert_eq!(a.page, Page::Journal);
    handle_key_at(&mut a, with(KeyCode::Left, true, false, false), 0, 0);
    assert_eq!(a.page, Page::Home);
    handle_key_at(&mut a, key(KeyCode::BackTab), 0, 0);
    assert_eq!(a.page, Page::Settings);
    handle_key_at(&mut a, with(KeyCode::Right, true, false, false), 0, 0);
    assert_eq!(a.page, Page::Home);
    handle_key_at(&mut a, key(KeyCode::Tab), 0, 0);
    handle_key_at(&mut a, key(KeyCode::Tab), 0, 0);
    assert_eq!(a.page, Page::Note);
    handle_key_at(&mut a, key(KeyCode::F(2)), 0, 0);
    assert_eq!(a.editor.mode, EditorMode::Vim);
    assert!(!a.is_quit);
    assert_eq!(handle_key_at(&mut a, with(KeyCode::Char('q'), false, false, true), 0, 0), AppEffect::SaveAll);
    assert!(a.is_quit);
}

#[test]
fn page_keys_go_to_the_page() {
    let mut a = app();
    a.page = Page::Settings;
    assert_eq!(handle_key_at(&mut a, key(KeyCode::Char('q')), 0, 0), AppEffect::Settings(SettingsEffect::Quit));
    assert!(a.is_quit);
    let mut b = app();
    b.page = Page::Calendar;
    handle_key_at(&mut b, key(KeyCode::Right), 0, 0);
    assert_eq!(b.calendar_ui.cursor_date, 719_164);
    let mut c = app();
    assert_eq!(handle_key_at(&mut c, key(KeyCode::Char('x')), 0, 0), AppEffect::Nothing);
    assert_eq!(handle_key_at(&mut c, key(KeyCode::Char('q')), 0, 0), AppEffect::SaveAll);
}

#[test]
fn mouse_clicks_place_the_cursor() {
    let mut a = app();
    a.page = Page::Note;
    handle_mouse(&mut a, MouseEvent { kind: MouseKind::Down, column: 5, row: 5 });
    assert_eq!((a.editor.cursor_x, a.editor.cursor_y), (2, 1));
    handle_mouse(&mut a, MouseEvent { kind: MouseKind::ScrollUp, column: 0, row: 0 });
    assert_eq!(a.editor.cursor_y, 0);
    a.page = Page::Home;
    handle_mouse(&mut a, MouseEvent { kind: MouseKind::ScrollDown, column: 0, row: 0 });
    assert_eq!(a.editor.cursor_y, 0);
}
