use vstd::prelude::*;
use crate::meta::{Tag, MyColor, Mood, mood_next, mood_prev};
use crate::fields::{
    now_micros, new_uuid, opt_view, tags_view, copy_tags, copy_opt_string, TagView, text_after,
    word_after, hex_after, opt_text_after, all_hex, tag_of_inputs, edit_text, edit_word, edit_hex,
    edit_opt_text, take_tag, is_press, is_whitespace, char_white_space,
};
use crate::keys::{KeyCode, KeyEvent};
use crate::editor::{EditorState, EditorView, editor_key_ok, editor_step, handle_editor_key};
use crate::notes::{or_untitled, or_empty, editor_showing, word_key};
use crate::rope::{rope_from_str, rope_to_string};
use crate::text::push_char;

verus! {

/// A journal entry. Times are microseconds since the Unix epoch.
pub struct Journal_task {
    pub id: u128,
    pub title: String,
    pub content: String,
    pub mood: Option<Mood>,
    pub created_at: i64,
    pub updated_at: i64,
    pub tags: Vec<Tag>,
    pub member: Option<String>,
    pub topic: Option<String>,
}

pub struct JournalView {
    pub id: u128,
    pub title: Seq<char>,
    pub content: Seq<char>,
    pub mood: Option<Mood>,
    pub created_at: i64,
    pub updated_at: i64,
    pub tags: Seq<TagView>,
    pub member: Option<Seq<char>>,
    pub topic: Option<Seq<char>>,
}

impl View for Journal_task {
    type V = JournalView;

    open spec fn view(&self) -> JournalView {
        JournalView {
            id: self.id,
            title: self.title@,
            content: self.content@,
            mood: self.mood,
            created_at: self.created_at,
            updated_at: self.updated_at,
            tags: tags_view(self.tags@),
            member: opt_view(self.member),
            topic: opt_view(self.topic),
        }
    }
}

pub open spec fn tags_or_none(tags: Option<Vec<Tag>>) -> Seq<TagView> {
    match tags {
        Some(v) => tags_view(v@),
        None => Seq::empty(),
    }
}

/// Appends tags, in order.
fn push_tags(tags: &mut Vec<Tag>, new: Vec<Tag>)
    ensures
        tags_view(final(tags)@) == tags_view(old(tags)@) + tags_view(new@),
{
    let mut rest = new;
    let ghost all = rest@;
    while rest.len() > 0
        invariant
            rest@.len() <= all.len(),
            rest@ == all.skip(all.len() - rest@.len()),
            tags_view(tags@) == tags_view(old(tags)@) + tags_view(all.take(all.len() - rest@.len())),
        decreases rest.len(),
    {
        let ghost k = all.len() - rest@.len();
        let ghost before = tags@;
        let y = rest.remove(0);
        assert(y == all[k]);
        tags.push(y);
        assert(all.take(k + 1) =~= all.take(k).push(all[k]));
        assert(tags_view(all.take(k + 1)) =~= tags_view(all.take(k)).push((y.name@, y.color)));
        assert(tags_view(tags@) =~= tags_view(before).push((y.name@, y.color)));
        assert(tags_view(old(tags)@) + tags_view(all.take(k + 1)) =~= (tags_view(old(tags)@) + tags_view(
            all.take(k),
        )).push((y.name@, y.color)));
        assert(rest@ =~= all.skip(k + 1));
    }
    assert(all.take(all.len() as int) =~= all);
}

impl Journal_task {
    /// An entry with the given fields, identified by `id`, created and updated at `now`.
    pub fn new_with(
        id: u128,
        now: i64,
        title: Option<String>,
        content: Option<String>,
        mood: Option<Mood>,
        tags: Option<Vec<Tag>>,
        part_of: Option<String>,
        topic: Option<String>,
    ) -> (j: Journal_task)
        ensures
            j@ == (JournalView {
                id,
                title: or_untitled(title),
                content: or_empty(content),
                mood,
                created_at: now,
                updated_at: now,
                tags: tags_or_none(tags),
                member: opt_view(part_of),
                topic: opt_view(topic),
            }),
    {
        let tags = if let Some(x) = tags {
            x
        } else {
            Vec::new()
        };
        proof {
            assert(tags_view(Seq::<Tag>::empty()) =~= Seq::<TagView>::empty());
        }
        Journal_task {
            id,
            title: if let Some(x) = title {
                x
            } else {
                String::from_str("Untitled")
            },
            content: if let Some(x) = content {
                x
            } else {
                String::new()
            },
            mood,
            created_at: now,
            updated_at: now,
            tags,
            member: part_of,
            topic,
        }
    }

    /// An entry with the given fields, a fresh random identifier, created now.
    pub fn new(
        title: Option<String>,
        content: Option<String>,
        mood: Option<Mood>,
        tags: Option<Vec<Tag>>,
        part_of: Option<String>,
        topic: Option<String>,
    ) -> (j: Journal_task)
        ensures
            j@ == (JournalView {
                id: j.id,
                title: or_untitled(title),
                content: or_empty(content),
                mood,
                created_at: j.created_at,
                updated_at: j.created_at,
                tags: tags_or_none(tags),
                member: opt_view(part_of),
                topic: opt_view(topic),
            }),
    {
        let id = new_uuid();
        let now = now_micros();
        Journal_task::new_with(id, now, title, content, mood, tags, part_of, topic)
    }

    /// `update_at` at the current time.
    pub fn update(
        &mut self,
        title: Option<String>,
        content: Option<String>,
        mood: Option<Mood>,
        tags: Option<Vec<Tag>>,
        member: Option<String>,
        topic: Option<String>,
    )
        ensures
            final(self)@ == (JournalView {
                title: match title {
                    Some(x) => x@,
                    None => old(self)@.title,
                },
                content: match content {
                    Some(x) => x@,
                    None => old(self)@.content,
                },
                mood,
                tags: old(self)@.tags + tags_or_none(tags),
                member: opt_view(member),
                topic: opt_view(topic),
                updated_at: final(self)@.updated_at,
                ..old(self)@
            }),
    {
        let now = now_micros();
        self.update_at(now, title, content, mood, tags, member, topic);
    }

    /// Takes the given fields; the tags given are appended, and the entry is marked as
    /// updated at `now`.
    pub fn update_at(
        &mut self,
        now: i64,
        title: Option<String>,
        content: Option<String>,
        mood: Option<Mood>,
        tags: Option<Vec<Tag>>,
        member: Option<String>,
        topic: Option<String>,
    )
        ensures
            final(self)@ == (JournalView {
                title: match title {
                    Some(x) => x@,
                    None => old(self)@.title,
                },
                content: match content {
                    Some(x) => x@,
                    None => old(self)@.content,
                },
                mood,
                tags: old(self)@.tags + tags_or_none(tags),
                member: opt_view(member),
                topic: opt_view(topic),
                updated_at: now,
                ..old(self)@
            }),
    {
        let ghost given = tags;
        if let Some(x) = title {
            self.title = x;
        }
        if let Some(x) = content {
            self.content = x;
        }
        self.mood = mood;
        if let Some(x) = tags {
            push_tags(&mut self.tags, x);
        } else {
            proof {
                assert(old(self)@.tags + tags_or_none(given) =~= old(self)@.tags);
            }
        }
        self.member = member;
        self.topic = topic;
        self.updated_at = now;
    }

    /// Appends a tag and marks the entry as updated at `now`.
    pub fn add_tag_at(&mut self, now: i64, t: Tag)
        ensures
            final(self)@ == (JournalView {
                tags: old(self)@.tags.push((t.name@, t.color)),
                updated_at: now,
                ..old(self)@
            }),
    {
        self.tags.push(t);
        self.updated_at = now;
        proof {
            assert(tags_view(self.tags@) =~= tags_view(old(self).tags@).push((t.name@, t.color)));
        }
    }

    /// Appends a tag and marks the entry as updated now.
    pub fn add_tag(&mut self, t: Tag)
        ensures
            final(self)@ == (JournalView {
                tags: old(self)@.tags.push((t.name@, t.color)),
                updated_at: final(self).updated_at,
                ..old(self)@
            }),
    {
        let now = now_micros();
        self.add_tag_at(now, t);
    }

    /// Appends tags, in order, and marks the entry as updated now.
    pub fn add_tags(&mut self, t: Vec<Tag>)
        ensures
            final(self)@ == (JournalView {
                tags: old(self)@.tags + tags_view(t@),
                updated_at: final(self).updated_at,
                ..old(self)@
            }),
    {
        push_tags(&mut self.tags, t);
        self.updated_at = now_micros();
    }

    /// A copy of the entry.
    pub fn duplicate(&self) -> (r: Journal_task)
        ensures
            r@ == self@,
    {
        Journal_task {
            id: self.id,
            title: self.title.clone(),
            content: self.content.clone(),
            mood: self.mood,
            created_at: self.created_at,
            updated_at: self.updated_at,
            tags: copy_tags(&self.tags),
            member: copy_opt_string(&self.member),
            topic: copy_opt_string(&self.topic),
        }
    }
}

// ------------------------------------------------------------------------
// The journal page
// ------------------------------------------------------------------------

#[derive(Debug, Clone, Copy, PartialEq, Eq, Structural)]
pub enum JournalMode {
    Load,
    Edit,
}

/// The field of the entry form that has the focus.
#[derive(Debug, Clone, Copy, PartialEq, Eq, Structural)]
pub enum JournalFocus {
    Title,
    Member,
    Topic,
    Mood,
    Content,
    TagName,
    TagHex,
    TagAdd,
    Save,
    New,
    Load,
}

pub open spec fn journal_focus_next(f: JournalFocus) -> JournalFocus {
    match f {
        JournalFocus::Title => JournalFocus::Member,
        JournalFocus::Member => JournalFocus::Topic,
        JournalFocus::Topic => JournalFocus::Mood,
        JournalFocus::Mood => JournalFocus::Content,
        JournalFocus::Content => JournalFocus::TagName,
        JournalFocus::TagName => JournalFocus::TagHex,
        JournalFocus::TagHex => JournalFocus::TagAdd,
        JournalFocus::TagAdd => JournalFocus::Save,
        JournalFocus::Save => JournalFocus::New,
        JournalFocus::New => JournalFocus::Load,
        JournalFocus::Load => JournalFocus::Title,
    }
}

pub open spec fn journal_focus_prev(f: JournalFocus) -> JournalFocus {
    match f {
        JournalFocus::Title => JournalFocus::Load,
        JournalFocus::Member => JournalFocus::Title,
        JournalFocus::Topic => JournalFocus::Member,
        JournalFocus::Mood => JournalFocus::Topic,
        JournalFocus::Content => JournalFocus::Mood,
        JournalFocus::TagName => JournalFocus::Content,
        JournalFocus::TagHex => JournalFocus::TagName,
        JournalFocus::TagAdd => JournalFocus::TagHex,
        JournalFocus::Save => JournalFocus::TagAdd,
        JournalFocus::New => JournalFocus::Save,
        JournalFocus::Load => JournalFocus::New,
    }
}

impl JournalFocus {
    pub fn next(self) -> (r: JournalFocus)
        ensures
            r == journal_focus_next(self),
    {
        match self {
            JournalFocus::Title => JournalFocus::Member,
            JournalFocus::Member => JournalFocus::Topic,
            JournalFocus::Topic => JournalFocus::Mood,
            JournalFocus::Mood => JournalFocus::Content,
            JournalFocus::Content => JournalFocus::TagName,
            JournalFocus::TagName => JournalFocus::TagHex,
            JournalFocus::TagHex => JournalFocus::TagAdd,
            JournalFocus::TagAdd => JournalFocus::Save,
            JournalFocus::Save => JournalFocus::New,
            JournalFocus::New => JournalFocus::Load,
            JournalFocus::Load => JournalFocus::Title,
        }
    }

    pub fn prev(self) -> (r: JournalFocus)
        ensures
            r == journal_focus_prev(self),
    {
        match self {
            JournalFocus::Title => JournalFocus::Load,
            JournalFocus::Member => JournalFocus::Title,
            JournalFocus::Topic => JournalFocus::Member,
            JournalFocus::Mood => JournalFocus::Topic,
            JournalFocus::Content => JournalFocus::Mood,
            JournalFocus::TagName => JournalFocus::Content,
            JournalFocus::TagHex => JournalFocus::TagName,
            JournalFocus::TagAdd => JournalFocus::TagHex,
            JournalFocus::Save => JournalFocus::TagAdd,
            JournalFocus::New => JournalFocus::Save,
            JournalFocus::Load => JournalFocus::New,
        }
    }
}

/// Moving the focus forward and back, or back and forward, returns to the same field.
pub proof fn lemma_journal_focus_cycle(f: JournalFocus)
    ensures
        journal_focus_prev(journal_focus_next(f)) == f,
        journal_focus_next(journal_focus_prev(f)) == f,
{
}

/// The state of the journal page.
pub struct JournalUi {
    pub mode: JournalMode,
    pub focus: JournalFocus,
    pub list: Vec<Journal_task>,
    pub list_selected: usize,
    pub editing: Journal_task,
    pub tag_name_input: String,
    pub tag_hex_input: String,
}

pub struct JournalUiView {
    pub mode: JournalMode,
    pub focus: JournalFocus,
    pub list: Seq<JournalView>,
    pub list_selected: usize,
    pub editing: JournalView,
    pub tag_name_input: Seq<char>,
    pub tag_hex_input: Seq<char>,
}

impl View for JournalUi {
    type V = JournalUiView;

    open spec fn view(&self) -> JournalUiView {
        JournalUiView {
            mode: self.mode,
            focus: self.focus,
            list: self.list@.map_values(|j: Journal_task| j@),
            list_selected: self.list_selected,
            editing: self.editing@,
            tag_name_input: self.tag_name_input@,
            tag_hex_input: self.tag_hex_input@,
        }
    }
}

/// What the caller of a journal key handler has to do afterwards.
#[derive(Debug, Clone, Copy, PartialEq, Eq, Structural)]
pub enum JournalEffect {
    Nothing,
    /// Save everything and leave the program.
    QuitAndSave,
    /// Store the entry being edited and keep it among the entries.
    SaveEditing,
    /// Reload the list from the store.
    Reload,
}

/// A new untitled entry.
pub open spec fn fresh_journal(id: u128, now: i64) -> JournalView {
    JournalView {
        id,
        title: "Untitled"@,
        content: Seq::empty(),
        mood: None,
        created_at: now,
        updated_at: now,
        tags: Seq::empty(),
        member: None,
        topic: None,
    }
}

/// The journal list after a key: Up and Down move the selection, Enter opens the
/// selected entry, Esc goes back to the form.
pub open spec fn journal_list_step(ui: JournalUiView, ev: EditorView, code: KeyCode) -> (JournalUiView, EditorView) {
    match code {
        KeyCode::Up => (
            JournalUiView { list_selected: if ui.list_selected > 0 { (ui.list_selected - 1) as usize } else { 0 }, ..ui },
            ev,
        ),
        KeyCode::Down => if ui.list.len() > 0 {
            (
                JournalUiView {
                    list_selected: if ui.list_selected + 1 < ui.list.len() {
                        (ui.list_selected + 1) as usize
                    } else {
                        (ui.list.len() - 1) as usize
                    },
                    ..ui
                },
                ev,
            )
        } else {
            (ui, ev)
        },
        KeyCode::Enter => if ui.list_selected < ui.list.len() {
            let j = ui.list[ui.list_selected as int];
            (
                JournalUiView { editing: j, mode: JournalMode::Edit, focus: JournalFocus::Title, ..ui },
                editor_showing(ev, j.content.push('\n')),
            )
        } else {
            (ui, ev)
        },
        KeyCode::Esc => (JournalUiView { mode: JournalMode::Edit, ..ui }, ev),
        _ => (ui, ev),
    }
}

pub open spec fn journal_text_field(f: JournalFocus) -> bool {
    f == JournalFocus::Title || f == JournalFocus::Content || f == JournalFocus::TagName || f
        == JournalFocus::TagHex || f == JournalFocus::Member || f == JournalFocus::Topic
}

pub open spec fn journal_touched(j: JournalView, touch: bool, now: i64) -> JournalView {
    if touch {
        JournalView { updated_at: now, ..j }
    } else {
        j
    }
}

pub open spec fn mood_or_neutral(m: Option<Mood>) -> Mood {
    match m {
        Some(x) => x,
        None => Mood::Neutral,
    }
}

/// The entry form after a key press on the focused field.
pub open spec fn journal_field_step(ui: JournalUiView, ev: EditorView, code: KeyCode, now: i64, id: u128) -> (
    JournalUiView,
    EditorView,
    JournalEffect,
) {
    let ed = ui.editing;
    let typed = code is Char || code == KeyCode::Backspace;
    match ui.focus {
        JournalFocus::Title => (
            JournalUiView { editing: journal_touched(JournalView { title: text_after(ed.title, code), ..ed }, typed, now), ..ui },
            ev,
            JournalEffect::Nothing,
        ),
        JournalFocus::Member => (
            JournalUiView {
                editing: journal_touched(JournalView { member: opt_text_after(ed.member, code, true), ..ed }, word_key(code), now),
                ..ui
            },
            ev,
            JournalEffect::Nothing,
        ),
        JournalFocus::Topic => (
            JournalUiView {
                editing: journal_touched(JournalView { topic: opt_text_after(ed.topic, code, true), ..ed }, word_key(code), now),
                ..ui
            },
            ev,
            JournalEffect::Nothing,
        ),
        JournalFocus::Mood => {
            let m = if code == KeyCode::Left {
                Some(Some(mood_prev(mood_or_neutral(ed.mood))))
            } else if code == KeyCode::Right {
                Some(Some(mood_next(mood_or_neutral(ed.mood))))
            } else if code == KeyCode::Backspace || code == KeyCode::Delete {
                Some(None)
            } else {
                None
            };
            match m {
                Some(mood) => (
                    JournalUiView { editing: JournalView { mood, updated_at: now, ..ed }, ..ui },
                    ev,
                    JournalEffect::Nothing,
                ),
                None => (ui, ev, JournalEffect::Nothing),
            }
        },
        JournalFocus::Content => (ui, editor_step(ev, code), JournalEffect::Nothing),
        JournalFocus::TagName => (
            JournalUiView { tag_name_input: word_after(ui.tag_name_input, code), ..ui },
            ev,
            JournalEffect::Nothing,
        ),
        JournalFocus::TagHex => (
            JournalUiView { tag_hex_input: hex_after(ui.tag_hex_input, code), ..ui },
            ev,
            JournalEffect::Nothing,
        ),
        JournalFocus::TagAdd => if is_press(code) {
            match tag_of_inputs(ui.tag_name_input, ui.tag_hex_input) {
                Some(t) => (
                    JournalUiView {
                        editing: JournalView { tags: ed.tags.push(t), updated_at: now, ..ed },
                        tag_name_input: Seq::empty(),
                        tag_hex_input: Seq::empty(),
                        ..ui
                    },
                    ev,
                    JournalEffect::Nothing,
                ),
                None => (ui, ev, JournalEffect::Nothing),
            }
        } else {
            (ui, ev, JournalEffect::Nothing)
        },
        JournalFocus::Save => if is_press(code) {
            (
                JournalUiView { editing: JournalView { content: ev.text, updated_at: now, ..ed }, ..ui },
                ev,
                JournalEffect::SaveEditing,
            )
        } else {
            (ui, ev, JournalEffect::Nothing)
        },
        JournalFocus::New => if is_press(code) {
            (
                JournalUiView {
                    editing: fresh_journal(id, now),
                    tag_name_input: Seq::empty(),
                    tag_hex_input: Seq::empty(),
                    focus: JournalFocus::Title,
                    ..ui
                },
                editor_showing(ev, "\n"@),
                JournalEffect::Nothing,
            )
        } else {
            (ui, ev, JournalEffect::Nothing)
        },
        JournalFocus::Load => if is_press(code) {
            (JournalUiView { list_selected: 0, mode: JournalMode::Load, ..ui }, ev, JournalEffect::Reload)
        } else {
            (ui, ev, JournalEffect::Nothing)
        },
    }
}

/// The entry form after a key: Ctrl with n/Down or p/Up moves the focus from any field,
/// plain Up and Down do so outside the content, `q` quits outside the text fields, and
/// any other key goes to the focused field.
pub open spec fn journal_edit_step(ui: JournalUiView, ev: EditorView, key: KeyEvent, now: i64, id: u128) -> (
    JournalUiView,
    EditorView,
    JournalEffect,
) {
    let code = key.code;
    if key.modifiers.control && (code == KeyCode::Char('n') || code == KeyCode::Down) {
        (JournalUiView { focus: journal_focus_next(ui.focus), ..ui }, ev, JournalEffect::Nothing)
    } else if key.modifiers.control && (code == KeyCode::Char('p') || code == KeyCode::Up) {
        (JournalUiView { focus: journal_focus_prev(ui.focus), ..ui }, ev, JournalEffect::Nothing)
    } else if ui.focus != JournalFocus::Content && code == KeyCode::Up {
        (JournalUiView { focus: journal_focus_prev(ui.focus), ..ui }, ev, JournalEffect::Nothing)
    } else if ui.focus != JournalFocus::Content && code == KeyCode::Down {
        (JournalUiView { focus: journal_focus_next(ui.focus), ..ui }, ev, JournalEffect::Nothing)
    } else if code == KeyCode::Char('q') && !journal_text_field(ui.focus) {
        (ui, ev, JournalEffect::QuitAndSave)
    } else {
        journal_field_step(ui, ev, code, now, id)
    }
}

/// The journal page after a key.
pub open spec fn journal_key_step(ui: JournalUiView, ev: EditorView, key: KeyEvent, now: i64, id: u128) -> (
    JournalUiView,
    EditorView,
    JournalEffect,
) {
    if ui.mode == JournalMode::Load {
        let (u, e) = journal_list_step(ui, ev, key.code);
        (u, e, JournalEffect::Nothing)
    } else {
        journal_edit_step(ui, ev, key, now, id)
    }
}

/// The requirements of the journal key handler: the hex input holds hex digits, the
/// selection can move down in the list, and a key for the editor is one it accepts.
pub open spec fn journal_key_ok(ui: JournalUiView, ev: EditorView, key: KeyEvent) -> bool {
    &&& all_hex(ui.tag_hex_input)
    &&& ui.mode == JournalMode::Load ==> ui.list_selected < usize::MAX
    &&& (ui.mode == JournalMode::Edit && ui.focus == JournalFocus::Content && !(key.modifiers.control && (key.code
        == KeyCode::Char('n') || key.code == KeyCode::Down || key.code == KeyCode::Char('p') || key.code
        == KeyCode::Up))) ==> editor_key_ok(ev, key.code)
}

fn handle_journal_list_key(ui: &mut JournalUi, editor: &mut EditorState, key: KeyEvent)
    requires
        old(ui).list_selected < usize::MAX,
    ensures
        (final(ui)@, final(editor)@) == journal_list_step(old(ui)@, old(editor)@, key.code),
{
    match key.code {
        KeyCode::Up => {
            ui.list_selected = if ui.list_selected > 0 { ui.list_selected - 1 } else { 0 };
        },
        KeyCode::Down => {
            if ui.list.len() > 0 {
                ui.list_selected = if ui.list_selected + 1 < ui.list.len() {
                    ui.list_selected + 1
                } else {
                    ui.list.len() - 1
                };
            }
        },
        KeyCode::Enter => {
            if ui.list_selected < ui.list.len() {
                let task = ui.list[ui.list_selected].duplicate();
                let mut text = task.content.clone();
                push_char(&mut text, '\n');
                editor.buffer = rope_from_str(text.as_str());
                editor.cursor_x = 0;
                editor.cursor_y = 0;
                ui.editing = task;
                ui.mode = JournalMode::Edit;
                ui.focus = JournalFocus::Title;
            }
        },
        KeyCode::Esc => {
            ui.mode = JournalMode::Edit;
        },
        _ => {},
    }
}

fn handle_journal_edit_key(ui: &mut JournalUi, editor: &mut EditorState, key: KeyEvent, now: i64, id: u128) -> (e: JournalEffect)
    requires
        old(ui).mode == JournalMode::Edit,
        journal_key_ok(old(ui)@, old(editor)@, key),
    ensures
        (final(ui)@, final(editor)@, e) == journal_edit_step(old(ui)@, old(editor)@, key, now, id),
{
    let code = key.code;
    if key.modifiers.control && (code == KeyCode::Char('n') || code == KeyCode::Down) {
        ui.focus = ui.focus.next();
        return JournalEffect::Nothing;
    }
    if key.modifiers.control && (code == KeyCode::Char('p') || code == KeyCode::Up) {
        ui.focus = ui.focus.prev();
        return JournalEffect::Nothing;
    }
    if ui.focus != JournalFocus::Content {
        match code {
            KeyCode::Up => {
                ui.focus = ui.focus.prev();
                return JournalEffect::Nothing;
            },
            KeyCode::Down => {
                ui.focus = ui.focus.next();
                return JournalEffect::Nothing;
            },
            _ => {},
        }
    }
    let text_field = match ui.focus {
        JournalFocus::Title | JournalFocus::Content | JournalFocus::TagName | JournalFocus::TagHex
        | JournalFocus::Member | JournalFocus::Topic => true,
        _ => false,
    };
    if code == KeyCode::Char('q') && !text_field {
        return JournalEffect::QuitAndSave;
    }
    let pressed = code == KeyCode::Enter || code == KeyCode::Char(' ');
    match ui.focus {
        JournalFocus::Title => {
            match code {
                KeyCode::Char(_) | KeyCode::Backspace => {
                    edit_text(&mut ui.editing.title, code);
                    ui.editing.updated_at = now;
                },
                _ => {},
            }
        },
        JournalFocus::Member => {
            let touch = match code {
                KeyCode::Char(c) => !is_whitespace(c),
                KeyCode::Backspace => true,
                _ => false,
            };
            edit_opt_text(&mut ui.editing.member, code, true);
            if touch {
                ui.editing.updated_at = now;
            }
        },
        JournalFocus::Topic => {
            let touch = match code {
                KeyCode::Char(c) => !is_whitespace(c),
                KeyCode::Backspace => true,
                _ => false,
            };
            edit_opt_text(&mut ui.editing.topic, code, true);
            if touch {
                ui.editing.updated_at = now;
            }
        },
        JournalFocus::Mood => {
            let current = match ui.editing.mood {
                Some(m) => m,
                None => Mood::Neutral,
            };
            match code {
                KeyCode::Left => {
                    ui.editing.mood = Some(current.prev());
                    ui.editing.updated_at = now;
                },
                KeyCode::Right => {
                    ui.editing.mood = Some(current.next());
                    ui.editing.updated_at = now;
                },
                KeyCode::Backspace | KeyCode::Delete => {
                    ui.editing.mood = None;
                    ui.editing.updated_at = now;
                },
                _ => {},
            }
        },
        JournalFocus::Content => {
            handle_editor_key(editor, key);
        },
        JournalFocus::TagName => {
            edit_word(&mut ui.tag_name_input, code);
        },
        JournalFocus::TagHex => {
            edit_hex(&mut ui.tag_hex_input, code);
        },
        JournalFocus::TagAdd => {
            if pressed {
                match take_tag(&mut ui.tag_name_input, &mut ui.tag_hex_input) {
                    Some(t) => ui.editing.add_tag_at(now, t),
                    None => {},
                }
            }
        },
        JournalFocus::Save => {
            if pressed {
                ui.editing.content = rope_to_string(&editor.buffer);
                ui.editing.updated_at = now;
                return JournalEffect::SaveEditing;
            }
        },
        JournalFocus::New => {
            if pressed {
                ui.editing = Journal_task::new_with(id, now, None, None, None, None, None, None);
                ui.tag_name_input = String::new();
                ui.tag_hex_input = String::new();
                editor.buffer = rope_from_str("\n");
                editor.cursor_x = 0;
                editor.cursor_y = 0;
                ui.focus = JournalFocus::Title;
            }
        },
        JournalFocus::Load => {
            if pressed {
                ui.list_selected = 0;
                ui.mode = JournalMode::Load;
                return JournalEffect::Reload;
            }
        },
    }
    JournalEffect::Nothing
}

/// Handles a key on the journal page at time `now`; a new entry gets the identifier
/// `id`.
pub fn handle_journal_key_at(ui: &mut JournalUi, editor: &mut EditorState, key: KeyEvent, now: i64, id: u128) -> (e: JournalEffect)
    requires
        journal_key_ok(old(ui)@, old(editor)@, key),
    ensures
        (final(ui)@, final(editor)@, e) == journal_key_step(old(ui)@, old(editor)@, key, now, id),
        all_hex(final(ui)@.tag_hex_input),
{
    if ui.mode == JournalMode::Load {
        handle_journal_list_key(ui, editor, key);
        JournalEffect::Nothing
    } else {
        let e = handle_journal_edit_key(ui, editor, key, now, id);
        proof {
            let s = old(ui).tag_hex_input@;
            let t = ui.tag_hex_input@;
            assert(all_hex(t)) by {
                if t.len() < s.len() && t.len() > 0 {
                    assert(t =~= s.drop_last());
                }
            }
        }
        e
    }
}

/// Handles a key on the journal page, reading the clock and drawing a fresh identifier
/// for a new entry.
pub fn handle_journal_key(ui: &mut JournalUi, editor: &mut EditorState, key: KeyEvent) -> (e: JournalEffect)
    requires
        journal_key_ok(old(ui)@, old(editor)@, key),
    ensures
        exists|now: i64, id: u128|
            (final(ui)@, final(editor)@, e) == #[trigger] journal_key_step(old(ui)@, old(editor)@, key, now, id),
{
    let now = now_micros();
    let id = new_uuid();
    handle_journal_key_at(ui, editor, key, now, id)
}

/// Adds the tag typed into the name and hex inputs to the entry being edited, marking it
/// as updated at `now`, and clears the inputs; does nothing when they describe no tag.
pub fn add_tag_from_inputs_at(ui: &mut JournalUi, now: i64)
    requires
        all_hex(old(ui)@.tag_hex_input),
    ensures
        final(ui)@ == (match tag_of_inputs(old(ui)@.tag_name_input, old(ui)@.tag_hex_input) {
            Some(t) => JournalUiView {
                editing: JournalView { tags: old(ui)@.editing.tags.push(t), updated_at: now, ..old(ui)@.editing },
                tag_name_input: Seq::empty(),
                tag_hex_input: Seq::empty(),
                ..old(ui)@
            },
            None => old(ui)@,
        }),
{
    match take_tag(&mut ui.tag_name_input, &mut ui.tag_hex_input) {
        Some(t) => ui.editing.add_tag_at(now, t),
        None => {},
    }
}

/// `add_tag_from_inputs_at` at the current time.
pub fn add_tag_from_inputs(ui: &mut JournalUi)
    requires
        all_hex(old(ui)@.tag_hex_input),
    ensures
        final(ui)@ == (match tag_of_inputs(old(ui)@.tag_name_input, old(ui)@.tag_hex_input) {
            Some(t) => JournalUiView {
                editing: JournalView {
                    tags: old(ui)@.editing.tags.push(t),
                    updated_at: final(ui)@.editing.updated_at,
                    ..old(ui)@.editing
                },
                tag_name_input: Seq::empty(),
                tag_hex_input: Seq::empty(),
                ..old(ui)@
            },
            None => old(ui)@,
        }),
{
    let now = now_micros();
    add_tag_from_inputs_at(ui, now);
}


/// The tag hex field holds hex digits only, and every key keeps it so: the handler types
/// only hex digits into it and otherwise empties it or leaves it.
pub proof fn lemma_journal_hex_input_stays(ui: JournalUiView, ev: EditorView, key: KeyEvent, now: i64, id: u128)
    requires
        all_hex(ui.tag_hex_input),
    ensures
        all_hex(journal_key_step(ui, ev, key, now, id).0.tag_hex_input),
{
    crate::fields::lemma_hex_after_keeps(ui.tag_hex_input, key.code);
}

} // verus!
