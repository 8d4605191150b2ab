use vstd::prelude::*;
use crate::app::{Page, Settings, page_idx, page_at};
use crate::editor::{
    EditorState, EditorMode, EditorView, editor_key_ok, editor_step, handle_editor_key, clamp, clamp_cursor,
};
use crate::keys::{KeyCode, KeyEvent};
use crate::settings_input::{SettingsUi, SettingsEffect, handle_settings_key, settings_step, settings_page_view};
use crate::todo::{TodoUi, TodoEffect, todo_key_ok, todo_key_step, handle_todo_key_at};
use crate::notes::{NoteUi, NoteEffect, note_key_ok, note_key_step, handle_notes_key_at};
use crate::journal::{JournalUi, JournalEffect, journal_key_ok, journal_key_step, handle_journal_key_at};
use crate::calendar::{CalendarUiState, CalendarEffect, calendar_key_ok, calendar_key_step, handle_calendar_at};
use crate::finance::{LedgerUi, LedgerEffect, ledger_key_ok, ledger_key_step, handle_ledger_at};
use crate::pomodoro::Pomodero;
use crate::fields::{now_micros, new_uuid};
use crate::rope::{rope_len_lines, rope_line_count, rope_text};

verus! {

/// A screen area: column, row, width and height.
#[derive(Debug, Clone, Copy, PartialEq, Eq, Structural)]
pub struct Area {
    pub x: u16,
    pub y: u16,
    pub width: u16,
    pub height: u16,
}

/// The state of the program's pages.
pub struct App {
    pub settings: Settings,
    pub settings_ui: SettingsUi,
    pub page: Page,
    pub editor: EditorState,
    pub todo_ui: TodoUi,
    pub note_ui: NoteUi,
    pub journal_ui: JournalUi,
    pub calendar_ui: CalendarUiState,
    pub ledger_ui: LedgerUi,
    pub pomodero: Pomodero,
    /// Where the editor was last drawn, for mouse clicks.
    pub last_editor_section: Area,
    pub is_quit: bool,
}

/// What the caller of the key handler has to do afterwards.
#[derive(Debug, Clone, Copy, PartialEq, Eq, Structural)]
pub enum AppEffect {
    Nothing,
    /// Save everything (the program is leaving).
    SaveAll,
    Settings(SettingsEffect),
    Todo(TodoEffect),
    Note(NoteEffect),
    Journal(JournalEffect),
    Calendar(CalendarEffect),
    Ledger(LedgerEffect),
}

pub open spec fn flip_mode(m: EditorMode) -> EditorMode {
    match m {
        EditorMode::Normal => EditorMode::Vim,
        EditorMode::Vim => EditorMode::Normal,
    }
}

/// The keys every page shares: F2 flips the editor between plain and vim, Shift+Left
/// or BackTab and Shift+Right or Tab turn the page, Alt+q quits.
pub open spec fn is_global_key(key: KeyEvent) -> bool {
    ||| key.code == KeyCode::F(2)
    ||| (key.code == KeyCode::Left && key.modifiers.shift) || key.code == KeyCode::BackTab
    ||| (key.code == KeyCode::Right && key.modifiers.shift) || key.code == KeyCode::Tab
    ||| key.code == KeyCode::Char('q') && key.modifiers.alt
}

/// Whether a page effect asks to leave the program.
pub open spec fn effect_quits(e: AppEffect) -> bool {
    ||| e == AppEffect::SaveAll
    ||| e == AppEffect::Settings(SettingsEffect::Quit)
    ||| e == AppEffect::Todo(TodoEffect::QuitAndSave)
    ||| e == AppEffect::Note(NoteEffect::QuitAndSave)
    ||| e == AppEffect::Journal(JournalEffect::QuitAndSave)
    ||| e == AppEffect::Calendar(CalendarEffect::QuitAndSave)
    ||| e == AppEffect::Ledger(LedgerEffect::QuitAndSave)
}

/// The requirements of the page the key goes to.
pub open spec fn app_key_ok(app: App, key: KeyEvent) -> bool {
    !is_global_key(key) ==> match app.page {
        Page::Todo => todo_key_ok(app.todo_ui@),
        Page::Note => note_key_ok(app.note_ui@, app.editor@, key),
        Page::Journal => journal_key_ok(app.journal_ui@, app.editor@, key),
        Page::Calendar => calendar_key_ok(app.calendar_ui@, key),
        Page::Finance => ledger_key_ok(app.ledger_ui@, key),
        _ => true,
    }
}

/// What a page's own key handler does with a key, as a relation between the app before
/// and after and the effect.
pub open spec fn page_key_result(old_app: App, key: KeyEvent, now: i64, id: u128, new_app: App, e: AppEffect) -> bool {
    match old_app.page {
        Page::Home => e == (if key.code == KeyCode::Char('q') {
            AppEffect::SaveAll
        } else {
            AppEffect::Nothing
        }),
        Page::Settings => {
            let (v, s) = settings_step(settings_page_view(old_app.settings, old_app.settings_ui), key);
            settings_page_view(new_app.settings, new_app.settings_ui) == v && e == AppEffect::Settings(s)
        },
        Page::Todo => {
            let (u, t) = todo_key_step(old_app.todo_ui@, key, now, id);
            new_app.todo_ui@ == u && e == AppEffect::Todo(t)
        },
        Page::Note => {
            let (u, ev, t) = note_key_step(old_app.note_ui@, old_app.editor@, key, now, id);
            new_app.note_ui@ == u && new_app.editor@ == ev && e == AppEffect::Note(t)
        },
        Page::Journal => {
            let (u, ev, t) = journal_key_step(old_app.journal_ui@, old_app.editor@, key, now, id);
            new_app.journal_ui@ == u && new_app.editor@ == ev && e == AppEffect::Journal(t)
        },
        Page::Calendar => {
            let (u, t) = calendar_key_step(old_app.calendar_ui@, key, id);
            new_app.calendar_ui@ == u && e == AppEffect::Calendar(t)
        },
        Page::Finance => {
            let (u, t) = ledger_key_step(old_app.ledger_ui@, key, now, id);
            new_app.ledger_ui@ == u && e == AppEffect::Ledger(t)
        },
    }
}

fn dispatch_page(app: &mut App, key: KeyEvent, now: i64, id: u128) -> (e: AppEffect)
    requires
        !is_global_key(key),
        app_key_ok(*old(app), key),
    ensures
        page_key_result(*old(app), key, now, id, *final(app), e),
        final(app).page == old(app).page,
        final(app).pomodero == old(app).pomodero,
        final(app).last_editor_section == old(app).last_editor_section,
        final(app).is_quit == old(app).is_quit,
{
    match app.page {
        Page::Settings => AppEffect::Settings(handle_settings_key(&mut app.settings, &mut app.settings_ui, key)),
        Page::Todo => AppEffect::Todo(handle_todo_key_at(&mut app.todo_ui, key, now, id)),
        Page::Note => AppEffect::Note(handle_notes_key_at(&mut app.note_ui, &mut app.editor, key, now, id)),
        Page::Journal => AppEffect::Journal(handle_journal_key_at(&mut app.journal_ui, &mut app.editor, key, now, id)),
        Page::Finance => AppEffect::Ledger(handle_ledger_at(&mut app.ledger_ui, key, now, id)),
        Page::Calendar => AppEffect::Calendar(handle_calendar_at(&mut app.calendar_ui, key, id)),
        Page::Home => {
            if key.code == KeyCode::Char('q') {
                AppEffect::SaveAll
            } else {
                AppEffect::Nothing
            }
        },
    }
}

/// What the shared keys do: F2 flips the editor between plain and vim; Shift+Left or
/// BackTab turns to the previous page and Shift+Right or Tab to the next, both wrapping
/// round the seven pages; Alt+q sets the quit flag and asks to save everything. Nothing
/// else of the app changes.
pub open spec fn global_key_result(old_app: App, key: KeyEvent, new_app: App, e: AppEffect) -> bool {
    if key.code == KeyCode::F(2) {
        e == AppEffect::Nothing && new_app == (App {
            editor: EditorState { mode: flip_mode(old_app.editor.mode), ..old_app.editor },
            ..old_app
        })
    } else if (key.code == KeyCode::Left && key.modifiers.shift) || key.code == KeyCode::BackTab {
        e == AppEffect::Nothing && new_app == (App { page: page_at(page_idx(old_app.page) + 6), ..old_app })
    } else if (key.code == KeyCode::Right && key.modifiers.shift) || key.code == KeyCode::Tab {
        e == AppEffect::Nothing && new_app == (App { page: page_at(page_idx(old_app.page) + 1), ..old_app })
    } else {
        e == AppEffect::SaveAll && new_app == (App { is_quit: true, ..old_app })
    }
}

/// Handles a key at time `now`; a new item gets the identifier `id`. The shared keys
/// come first; any other key goes to the page on view, and a page that asks to leave
/// sets the quit flag.
pub fn handle_key_at(app: &mut App, key: KeyEvent, now: i64, id: u128) -> (e: AppEffect)
    requires
        app_key_ok(*old(app), key),
    ensures
        final(app).pomodero == old(app).pomodero,
        final(app).last_editor_section == old(app).last_editor_section,
        final(app).is_quit == (old(app).is_quit || effect_quits(e)),
        is_global_key(key) ==> global_key_result(*old(app), key, *final(app), e),
        !is_global_key(key) ==> final(app).page == old(app).page && page_key_result(
            *old(app),
            key,
            now,
            id,
            *final(app),
            e,
        ),
{
    if key.code == KeyCode::F(2) {
        app.editor.mode = match app.editor.mode {
            EditorMode::Normal => EditorMode::Vim,
            EditorMode::Vim => EditorMode::Normal,
        };
        return AppEffect::Nothing;
    }
    if (key.code == KeyCode::Left && key.modifiers.shift) || key.code == KeyCode::BackTab {
        app.page = Page::from_idx(app.page.idx() + 6);
        return AppEffect::Nothing;
    } else if (key.code == KeyCode::Right && key.modifiers.shift) || key.code == KeyCode::Tab {
        app.page = Page::from_idx(app.page.idx() + 1);
        return AppEffect::Nothing;
    } else if key.code == KeyCode::Char('q') && key.modifiers.alt {
        app.is_quit = true;
        return AppEffect::SaveAll;
    }
    let e = dispatch_page(app, key, now, id);
    let quits = match e {
        AppEffect::SaveAll => true,
        AppEffect::Settings(SettingsEffect::Quit) => true,
        AppEffect::Todo(TodoEffect::QuitAndSave) => true,
        AppEffect::Note(NoteEffect::QuitAndSave) => true,
        AppEffect::Journal(JournalEffect::QuitAndSave) => true,
        AppEffect::Calendar(CalendarEffect::QuitAndSave) => true,
        AppEffect::Ledger(LedgerEffect::QuitAndSave) => true,
        _ => false,
    };
    if quits {
        app.is_quit = true;
    }
    e
}

/// Handles a key, reading the clock and drawing a fresh identifier for a new item.
pub fn handle_key(app: &mut App, key: KeyEvent) -> (e: AppEffect)
    requires
        app_key_ok(*old(app), key),
    ensures
        final(app).is_quit == (old(app).is_quit || effect_quits(e)),
        !is_global_key(key) ==> final(app).page == old(app).page,
        !is_global_key(key) ==> exists|now: i64, id: u128| #[trigger] page_key_result(*old(app), key, now, id, *final(app), e),
        is_global_key(key) ==> global_key_result(*old(app), key, *final(app), e),
{
    let now = now_micros();
    let id = new_uuid();
    handle_key_at(app, key, now, id)
}

// ------------------------------------------------------------------------
// The mouse
// ------------------------------------------------------------------------

#[derive(Debug, Clone, Copy, PartialEq, Eq, Structural)]
pub enum MouseKind {
    Down,
    ScrollUp,
    ScrollDown,
    Other,
}

/// A mouse event at a screen cell.
#[derive(Debug, Clone, Copy, PartialEq, Eq, Structural)]
pub struct MouseEvent {
    pub kind: MouseKind,
    pub column: u16,
    pub row: u16,
}

/// Whether a page shows the editor that the mouse works on.
pub open spec fn mouse_page(p: Page) -> bool {
    p == Page::Journal || p == Page::Note || p == Page::Todo || p == Page::Calendar || p == Page::Finance
}

/// The editor after a mouse event: a click inside the editor's frame puts the cursor on
/// the clicked cell, and the wheel moves it a line; the cursor is then brought onto the
/// text. Only the plain editor takes the mouse.
pub open spec fn mouse_step(ev: EditorView, page: Page, area: Area, m: MouseEvent) -> EditorView {
    if ev.mode != EditorMode::Normal || !mouse_page(page) {
        ev
    } else {
        match m.kind {
            MouseKind::Down => if m.row > area.y && m.column > area.x {
                let y = (m.row - area.y - 1) as int;
                let last = rope_line_count(ev.text) - 1;
                clamp(EditorView {
                    y: (if y < last { y } else { last }) as usize,
                    x: (m.column - area.x - 1) as usize,
                    ..ev
                })
            } else {
                ev
            },
            MouseKind::ScrollUp => clamp(EditorView { y: if ev.y > 0 { (ev.y - 1) as usize } else { 0 }, ..ev }),
            MouseKind::ScrollDown => clamp(EditorView { y: (ev.y + 1) as usize, ..ev }),
            MouseKind::Other => ev,
        }
    }
}

/// Handles a mouse event on the editor.
pub fn handle_mouse(app: &mut App, mouse: MouseEvent)
    requires
        mouse.kind == MouseKind::ScrollDown ==> old(app).editor.cursor_y < usize::MAX,
    ensures
        final(app).editor@ == mouse_step(old(app).editor@, old(app).page, old(app).last_editor_section, mouse),
        *final(app) == (App { editor: final(app).editor, ..*old(app) }),
        old(app).editor.mode != EditorMode::Normal || !mouse_page(old(app).page) ==> *final(app) == *old(app),
{
    if app.editor.mode != EditorMode::Normal {
        return;
    }
    let shown = match app.page {
        Page::Journal | Page::Note | Page::Todo | Page::Calendar | Page::Finance => true,
        _ => false,
    };
    if !shown {
        return;
    }
    let area = app.last_editor_section;
    match mouse.kind {
        MouseKind::Down => {
            if mouse.row > area.y && mouse.column > area.x {
                let y = (mouse.row - area.y - 1) as usize;
                let x = (mouse.column - area.x - 1) as usize;
                let last = rope_len_lines(&app.editor.buffer) - 1;
                app.editor.cursor_y = if y < last { y } else { last };
                app.editor.cursor_x = x;
                clamp_cursor(&mut app.editor);
            }
        },
        MouseKind::ScrollUp => {
            app.editor.cursor_y = if app.editor.cursor_y > 0 { app.editor.cursor_y - 1 } else { 0 };
            clamp_cursor(&mut app.editor);
        },
        MouseKind::ScrollDown => {
            app.editor.cursor_y = app.editor.cursor_y + 1;
            clamp_cursor(&mut app.editor);
        },
        MouseKind::Other => {},
    }
}

} // verus!
