use vstd::prelude::*;
use crate::meta::{Tag, MyColor};
use crate::fields::{
    now_micros, new_uuid, opt_view, tags_view, copy_tags, copy_opt_string, has_tag, TagView,
    text_after, word_after, hex_after, opt_text_after, all_hex, tag_of_inputs, edit_text,
    edit_word, edit_hex, edit_opt_text, take_tag, is_press,
};
use crate::keys::{KeyCode, KeyEvent};
use crate::todo::{indices_where, lemma_indices_where};
use crate::editor::{EditorState, EditorView, editor_key_ok, editor_step, handle_editor_key};
use crate::rope::{rope_from_str, rope_to_string};

verus! {

/// A note. Times are microseconds since the Unix epoch; the tags form a set.
pub struct Note_task {
    pub id: u128,
    pub title: String,
    pub content: String,
    pub created_at: i64,
    pub updated_at: i64,
    pub pinned: bool,
    pub favorite: bool,
    pub tags: Vec<Tag>,
    pub topic: Option<String>,
    pub member: Option<String>,
}

pub struct NoteView {
    pub id: u128,
    pub title: Seq<char>,
    pub content: Seq<char>,
    pub created_at: i64,
    pub updated_at: i64,
    pub pinned: bool,
    pub favorite: bool,
    pub tags: Set<TagView>,
    pub topic: Option<Seq<char>>,
    pub member: Option<Seq<char>>,
}

impl Note_task {
    /// No tag is held twice.
    pub open spec fn tags_distinct(&self) -> bool {
        tags_view(self.tags@).no_duplicates()
    }
}

impl View for Note_task {
    type V = NoteView;

    open spec fn view(&self) -> NoteView {
        NoteView {
            id: self.id,
            title: self.title@,
            content: self.content@,
            created_at: self.created_at,
            updated_at: self.updated_at,
            pinned: self.pinned,
            favorite: self.favorite,
            tags: tags_view(self.tags@).to_set(),
            topic: opt_view(self.topic),
            member: opt_view(self.member),
        }
    }
}

pub open spec fn or_untitled(s: Option<String>) -> Seq<char> {
    match s {
        Some(x) => x@,
        None => "Untitled"@,
    }
}

pub open spec fn or_empty(s: Option<String>) -> Seq<char> {
    match s {
        Some(x) => x@,
        None => Seq::empty(),
    }
}

pub open spec fn tag_set(tags: Option<Vec<Tag>>) -> Set<TagView> {
    match tags {
        Some(v) => tags_view(v@).to_set(),
        None => Set::empty(),
    }
}

/// Adds each tag of `new` that the list does not hold yet.
fn insert_tags(tags: &mut Vec<Tag>, new: Vec<Tag>)
    ensures
        tags_view(final(tags)@).to_set() == tags_view(old(tags)@).to_set() + tags_view(new@).to_set(),
        tags_view(old(tags)@).no_duplicates() ==> tags_view(final(tags)@).no_duplicates(),
{
    let mut rest = new;
    let ghost all = rest@;
    while rest.len() > 0
        invariant
            rest@.len() <= all.len(),
            rest@ == all.skip(all.len() - rest@.len()),
            tags_view(tags@).to_set() == tags_view(old(tags)@).to_set() + tags_view(
                all.take(all.len() - rest@.len()),
            ).to_set(),
            tags_view(old(tags)@).no_duplicates() ==> tags_view(tags@).no_duplicates(),
        decreases rest.len(),
    {
        let ghost k = all.len() - rest@.len();
        let y = rest.remove(0);
        assert(y == all[k]);
        insert_tag(tags, y);
        assert(all.take(k + 1) =~= all.take(k).push(all[k]));
        assert(tags_view(all.take(k + 1)) =~= tags_view(all.take(k)).push((y.name@, y.color)));
        assert(tags_view(all.take(k + 1)).to_set() =~= tags_view(all.take(k)).to_set().insert((y.name@, y.color))) by {
            tags_view(all.take(k)).lemma_push_to_set_commute((y.name@, y.color));
        }
        assert(rest@ =~= all.skip(k + 1));
    }
    assert(all.take(all.len() as int) =~= all);
}

/// Adds a tag unless the list holds it already.
fn insert_tag(tags: &mut Vec<Tag>, t: Tag)
    ensures
        tags_view(final(tags)@).to_set() == tags_view(old(tags)@).to_set().insert((t.name@, t.color)),
        tags_view(old(tags)@).no_duplicates() ==> tags_view(final(tags)@).no_duplicates(),
{
    if has_tag(tags, &t.name, t.color) {
        proof {
            assert(tags_view(tags@).to_set().contains((t.name@, t.color)));
            assert(tags_view(tags@).to_set() =~= tags_view(tags@).to_set().insert((t.name@, t.color)));
        }
    } else {
        let ghost before = tags@;
        tags.push(t);
        proof {
            assert(tags_view(tags@) =~= tags_view(before).push((t.name@, t.color)));
            tags_view(before).lemma_push_to_set_commute((t.name@, t.color));
            let v = tags_view(tags@);
            assert forall|i: int, j: int| 0 <= i < v.len() && 0 <= j < v.len() && i != j && tags_view(before).no_duplicates()
                implies v[i] != v[j] by {
                if i == v.len() - 1 {
                    assert(v[j] == tags_view(before)[j]);
                } else if j == v.len() - 1 {
                    assert(v[i] == tags_view(before)[i]);
                } else {
                    assert(v[i] == tags_view(before)[i] && v[j] == tags_view(before)[j]);
                }
            }
        }
    }
}

impl Note_task {
    /// A note with the given fields, identified by `id`, created and updated at `now`.
    pub fn new_with(
        id: u128,
        now: i64,
        title: Option<String>,
        content: Option<String>,
        pinned: bool,
        favorite: bool,
        tags: Option<Vec<Tag>>,
        part_of: Option<String>,
        topic: Option<String>,
    ) -> (n: Note_task)
        ensures
            n@ == (NoteView {
                id,
                title: or_untitled(title),
                content: or_empty(content),
                created_at: now,
                updated_at: now,
                pinned,
                favorite,
                tags: tag_set(tags),
                topic: opt_view(topic),
                member: opt_view(part_of),
            }),
            n.tags_distinct(),
    {
        let mut set: Vec<Tag> = Vec::new();
        let ghost given = tags;
        if let Some(x) = tags {
            insert_tags(&mut set, x);
        }
        proof {
            assert(tags_view(Seq::<Tag>::empty()).to_set() =~= Set::<TagView>::empty());
            if given is Some {
                assert(Set::<TagView>::empty() + tag_set(given) =~= tag_set(given));
            }
        }
        Note_task {
            id,
            title: if let Some(x) = title {
                x
            } else {
                String::from_str("Untitled")
            },
            content: if let Some(x) = content {
                x
            } else {
                String::new()
            },
            created_at: now,
            updated_at: now,
            tags: set,
            member: part_of,
            topic,
            pinned,
            favorite,
        }
    }

    /// A note with the given fields, a fresh random identifier, created now.
    pub fn new(
        title: Option<String>,
        content: Option<String>,
        pinned: bool,
        favorite: bool,
        tags: Option<Vec<Tag>>,
        part_of: Option<String>,
        topic: Option<String>,
    ) -> (n: Note_task)
        ensures
            n@ == (NoteView {
                id: n.id,
                title: or_untitled(title),
                content: or_empty(content),
                created_at: n.created_at,
                updated_at: n.created_at,
                pinned,
                favorite,
                tags: tag_set(tags),
                topic: opt_view(topic),
                member: opt_view(part_of),
            }),
            n.tags_distinct(),
    {
        let id = new_uuid();
        let now = now_micros();
        Note_task::new_with(id, now, title, content, pinned, favorite, tags, part_of, topic)
    }

    /// `update_at` at the current time.
    pub fn update(
        &mut self,
        title: Option<String>,
        content: Option<String>,
        favorite: bool,
        pinned: bool,
        tags: Option<Vec<Tag>>,
        member: Option<String>,
        topic: Option<String>,
    )
        ensures
            final(self)@ == (NoteView {
                title: match title {
                    Some(x) => x@,
                    None => old(self)@.title,
                },
                content: match content {
                    Some(x) => x@,
                    None => old(self)@.content,
                },
                favorite,
                pinned,
                tags: old(self)@.tags + tag_set(tags),
                member: opt_view(member),
                topic: opt_view(topic),
                updated_at: final(self)@.updated_at,
                ..old(self)@
            }),
            old(self).tags_distinct() ==> final(self).tags_distinct(),
    {
        let now = now_micros();
        self.update_at(now, title, content, favorite, pinned, tags, member, topic);
    }

    /// Takes the given fields; the tags given join the set, and the note is marked as
    /// updated at `now`.
    pub fn update_at(
        &mut self,
        now: i64,
        title: Option<String>,
        content: Option<String>,
        favorite: bool,
        pinned: bool,
        tags: Option<Vec<Tag>>,
        member: Option<String>,
        topic: Option<String>,
    )
        ensures
            final(self)@ == (NoteView {
                title: match title {
                    Some(x) => x@,
                    None => old(self)@.title,
                },
                content: match content {
                    Some(x) => x@,
                    None => old(self)@.content,
                },
                favorite,
                pinned,
                tags: old(self)@.tags + tag_set(tags),
                member: opt_view(member),
                topic: opt_view(topic),
                updated_at: now,
                ..old(self)@
            }),
            old(self).tags_distinct() ==> final(self).tags_distinct(),
    {
        let ghost given = tags;
        if let Some(x) = title {
            self.title = x;
        }
        if let Some(x) = content {
            self.content = x;
        }
        self.favorite = favorite;
        self.pinned = pinned;
        if let Some(x) = tags {
            insert_tags(&mut self.tags, x);
        } else {
            proof {
                assert(old(self)@.tags + tag_set(given) =~= old(self)@.tags);
            }
        }
        self.member = member;
        self.topic = topic;
        self.updated_at = now;
    }

    /// Adds a tag to the set and marks the note as updated at `now`.
    pub fn add_tag_at(&mut self, now: i64, t: Tag)
        ensures
            final(self)@ == (NoteView {
                tags: old(self)@.tags.insert((t.name@, t.color)),
                updated_at: now,
                ..old(self)@
            }),
            old(self).tags_distinct() ==> final(self).tags_distinct(),
    {
        insert_tag(&mut self.tags, t);
        self.updated_at = now;
    }

    /// Adds a tag to the set and marks the note as updated now.
    pub fn add_tag(&mut self, t: Tag)
        ensures
            final(self)@ == (NoteView {
                tags: old(self)@.tags.insert((t.name@, t.color)),
                updated_at: final(self).updated_at,
                ..old(self)@
            }),
            old(self).tags_distinct() ==> final(self).tags_distinct(),
    {
        let now = now_micros();
        self.add_tag_at(now, t);
    }

    /// Adds tags to the set and marks the note as updated now.
    pub fn add_tags(&mut self, t: Vec<Tag>)
        ensures
            final(self)@ == (NoteView {
                tags: old(self)@.tags + tags_view(t@).to_set(),
                updated_at: final(self).updated_at,
                ..old(self)@
            }),
            old(self).tags_distinct() ==> final(self).tags_distinct(),
    {
        insert_tags(&mut self.tags, t);
        self.updated_at = now_micros();
    }

    /// A copy of the note.
    pub fn duplicate(&self) -> (r: Note_task)
        ensures
            r@ == self@,
            r.tags_distinct() == self.tags_distinct(),
    {
        Note_task {
            id: self.id,
            title: self.title.clone(),
            content: self.content.clone(),
            created_at: self.created_at,
            updated_at: self.updated_at,
            pinned: self.pinned,
            favorite: self.favorite,
            tags: copy_tags(&self.tags),
            topic: copy_opt_string(&self.topic),
            member: copy_opt_string(&self.member),
        }
    }
}

// ------------------------------------------------------------------------
// Display order: the filter's notes, pinned or favourite ones first
// ------------------------------------------------------------------------

/// Which notes the list shows.
#[derive(Debug, Clone, Copy, PartialEq, Eq, Structural)]
pub enum NoteFilter {
    All,
    Pinned,
    Favourite,
}

pub open spec fn note_filter_next(f: NoteFilter) -> NoteFilter {
    match f {
        NoteFilter::All => NoteFilter::Pinned,
        NoteFilter::Pinned => NoteFilter::Favourite,
        NoteFilter::Favourite => NoteFilter::All,
    }
}

impl NoteFilter {
    pub fn next(self) -> (r: NoteFilter)
        ensures
            r == note_filter_next(self),
    {
        match self {
            NoteFilter::All => NoteFilter::Pinned,
            NoteFilter::Pinned => NoteFilter::Favourite,
            NoteFilter::Favourite => NoteFilter::All,
        }
    }
}

pub open spec fn note_shown(pinned: bool, favorite: bool, filter: NoteFilter) -> bool {
    match filter {
        NoteFilter::All => true,
        NoteFilter::Pinned => pinned,
        NoteFilter::Favourite => favorite,
    }
}

/// A pinned or favourite note.
pub open spec fn note_special(n: NoteView) -> bool {
    n.pinned || n.favorite
}

pub open spec fn special_flags(list: Seq<NoteView>, filter: NoteFilter) -> Seq<bool> {
    list.map_values(|n: NoteView| note_shown(n.pinned, n.favorite, filter) && (n.pinned || n.favorite))
}

pub open spec fn plain_flags(list: Seq<NoteView>, filter: NoteFilter) -> Seq<bool> {
    list.map_values(|n: NoteView| note_shown(n.pinned, n.favorite, filter) && !n.pinned && !n.favorite)
}

/// The notes the filter shows, pinned or favourite ones first, each group in list order.
pub open spec fn note_order(list: Seq<NoteView>, filter: NoteFilter) -> Seq<usize> {
    indices_where(special_flags(list, filter), true) + indices_where(plain_flags(list, filter), true)
}

/// The display order lists each note the filter shows exactly once and no other, the
/// pinned or favourite ones before the rest.
pub proof fn lemma_note_order(list: Seq<NoteView>, filter: NoteFilter)
    requires
        list.len() <= usize::MAX,
    ensures
        forall|i: usize| i < list.len() ==> (#[trigger] note_order(list, filter).contains(i) <==> note_shown(
            list[i as int].pinned,
            list[i as int].favorite,
            filter,
        )),
        forall|k: int| 0 <= k < note_order(list, filter).len() ==> #[trigger] note_order(list, filter)[k] < list.len(),
        forall|a: int, b: int|
            0 <= a < b < note_order(list, filter).len() ==> note_order(list, filter)[a] != note_order(list, filter)[b],
        forall|a: int, b: int|
            #![trigger note_order(list, filter)[a], note_order(list, filter)[b]]
            0 <= a < b < note_order(list, filter).len() && note_special(list[note_order(list, filter)[b] as int])
                ==> note_special(list[note_order(list, filter)[a] as int]),
{
    let sp = special_flags(list, filter);
    let pl = plain_flags(list, filter);
    lemma_indices_where(sp, true);
    lemma_indices_where(pl, true);
    let s = indices_where(sp, true);
    let p = indices_where(pl, true);
    let o = note_order(list, filter);
    assert forall|i: usize| i < list.len() implies (#[trigger] o.contains(i) <==> note_shown(
        list[i as int].pinned,
        list[i as int].favorite,
        filter,
    )) by {
        let j = i as int;
        assert(sp[j] == (note_shown(list[j].pinned, list[j].favorite, filter) && (list[j].pinned || list[j].favorite)));
        assert(pl[j] == (note_shown(list[j].pinned, list[j].favorite, filter) && !list[j].pinned && !list[j].favorite));
        if o.contains(i) {
            let k = o.index_of(i);
            if k < s.len() {
                assert(o[k] == s[k]);
            } else {
                assert(o[k] == p[k - s.len()]);
            }
        }
        if sp[j] {
            let k = s.index_of(i);
            assert(o[k] == i);
        } else if pl[j] {
            let k = p.index_of(i);
            assert(o[s.len() + k] == i);
        }
    }
    assert forall|k: int| 0 <= k < o.len() implies #[trigger] o[k] < list.len() by {
        if k < s.len() {
            assert(o[k] == s[k]);
        } else {
            assert(o[k] == p[k - s.len()]);
        }
    }
    assert forall|a: int, b: int| #![trigger o[a], o[b]] 0 <= a < b < o.len() implies o[a] != o[b] && (
        note_special(list[o[b] as int]) ==> note_special(list[o[a] as int])) by {
        if b < s.len() {
            assert(o[a] == s[a] && o[b] == s[b]);
            assert(sp[s[a] as int]);
        } else if a >= s.len() {
            assert(o[a] == p[a - s.len()] && o[b] == p[b - s.len()]);
            assert(pl[p[b - s.len()] as int]);
        } else {
            assert(o[a] == s[a] && o[b] == p[b - s.len()]);
            assert(sp[s[a] as int]);
            assert(pl[p[b - s.len()] as int]);
        }
    }
}

/// The indices of the notes the filter shows, pinned or favourite ones first.
pub fn note_display_order(list: &[Note_task], filter: NoteFilter) -> (r: Vec<usize>)
    ensures
        r@ == note_order(list@.map_values(|n: Note_task| n@), filter),
{
    let ghost views = list@.map_values(|n: Note_task| n@);
    let mut special: Vec<usize> = Vec::new();
    let mut normal: Vec<usize> = Vec::new();
    let mut i: usize = 0;
    while i < list.len()
        invariant
            i <= list@.len(),
            views == list@.map_values(|n: Note_task| n@),
            special@ == indices_where(special_flags(views, filter).take(i as int), true),
            normal@ == indices_where(plain_flags(views, filter).take(i as int), true),
        decreases list.len() - i,
    {
        assert(special_flags(views, filter).take(i + 1).drop_last() =~= special_flags(views, filter).take(i as int));
        assert(plain_flags(views, filter).take(i + 1).drop_last() =~= plain_flags(views, filter).take(i as int));
        let n = &list[i];
        let shown = match filter {
            NoteFilter::All => true,
            NoteFilter::Pinned => n.pinned,
            NoteFilter::Favourite => n.favorite,
        };
        if shown && (n.pinned || n.favorite) {
            special.push(i);
        } else if shown {
            normal.push(i);
        }
        i = i + 1;
    }
    assert(special_flags(views, filter).take(i as int) =~= special_flags(views, filter));
    assert(plain_flags(views, filter).take(i as int) =~= plain_flags(views, filter));
    special.append(&mut normal);
    special
}

// ------------------------------------------------------------------------
// The notes page
// ------------------------------------------------------------------------

#[derive(Debug, Clone, Copy, PartialEq, Eq, Structural)]
pub enum NoteMode {
    Load,
    Edit,
}

/// The field of the note form that has the focus, in screen order.
#[derive(Debug, Clone, Copy, PartialEq, Eq, Structural)]
pub enum NoteFocus {
    Title,
    Pinned,
    Favourite,
    Content,
    TagName,
    TagHex,
    TagAdd,
    Member,
    Topic,
    Save,
    New,
    Load,
}

pub open spec fn note_focus_next(f: NoteFocus) -> NoteFocus {
    match f {
        NoteFocus::Title => NoteFocus::Pinned,
        NoteFocus::Pinned => NoteFocus::Favourite,
        NoteFocus::Favourite => NoteFocus::Content,
        NoteFocus::Content => NoteFocus::TagName,
        NoteFocus::TagName => NoteFocus::TagHex,
        NoteFocus::TagHex => NoteFocus::TagAdd,
        NoteFocus::TagAdd => NoteFocus::Member,
        NoteFocus::Member => NoteFocus::Topic,
        NoteFocus::Topic => NoteFocus::Save,
        NoteFocus::Save => NoteFocus::New,
        NoteFocus::New => NoteFocus::Load,
        NoteFocus::Load => NoteFocus::Title,
    }
}

pub open spec fn note_focus_prev(f: NoteFocus) -> NoteFocus {
    match f {
        NoteFocus::Title => NoteFocus::Load,
        NoteFocus::Pinned => NoteFocus::Title,
        NoteFocus::Favourite => NoteFocus::Pinned,
        NoteFocus::Content => NoteFocus::Favourite,
        NoteFocus::TagName => NoteFocus::Content,
        NoteFocus::TagHex => NoteFocus::TagName,
        NoteFocus::TagAdd => NoteFocus::TagHex,
        NoteFocus::Member => NoteFocus::TagAdd,
        NoteFocus::Topic => NoteFocus::Member,
        NoteFocus::Save => NoteFocus::Topic,
        NoteFocus::New => NoteFocus::Save,
        NoteFocus::Load => NoteFocus::New,
    }
}

impl NoteFocus {
    pub fn next(self) -> (r: NoteFocus)
        ensures
            r == note_focus_next(self),
    {
        match self {
            NoteFocus::Title => NoteFocus::Pinned,
            NoteFocus::Pinned => NoteFocus::Favourite,
            NoteFocus::Favourite => NoteFocus::Content,
            NoteFocus::Content => NoteFocus::TagName,
            NoteFocus::TagName => NoteFocus::TagHex,
            NoteFocus::TagHex => NoteFocus::TagAdd,
            NoteFocus::TagAdd => NoteFocus::Member,
            NoteFocus::Member => NoteFocus::Topic,
            NoteFocus::Topic => NoteFocus::Save,
            NoteFocus::Save => NoteFocus::New,
            NoteFocus::New => NoteFocus::Load,
            NoteFocus::Load => NoteFocus::Title,
        }
    }

    pub fn prev(self) -> (r: NoteFocus)
        ensures
            r == note_focus_prev(self),
    {
        match self {
            NoteFocus::Title => NoteFocus::Load,
            NoteFocus::Pinned => NoteFocus::Title,
            NoteFocus::Favourite => NoteFocus::Pinned,
            NoteFocus::Content => NoteFocus::Favourite,
            NoteFocus::TagName => NoteFocus::Content,
            NoteFocus::TagHex => NoteFocus::TagName,
            NoteFocus::TagAdd => NoteFocus::TagHex,
            NoteFocus::Member => NoteFocus::TagAdd,
            NoteFocus::Topic => NoteFocus::Member,
            NoteFocus::Save => NoteFocus::Topic,
            NoteFocus::New => NoteFocus::Save,
            NoteFocus::Load => NoteFocus::New,
        }
    }
}

/// Moving the focus forward and back, or back and forward, returns to the same field.
pub proof fn lemma_note_focus_cycle(f: NoteFocus)
    ensures
        note_focus_prev(note_focus_next(f)) == f,
        note_focus_next(note_focus_prev(f)) == f,
{
}

/// The state of the notes page.
pub struct NoteUi {
    pub mode: NoteMode,
    pub focus: NoteFocus,
    pub filter: NoteFilter,
    pub list: Vec<Note_task>,
    pub list_selected: usize,
    pub editing: Note_task,
    pub tag_name_input: String,
    pub tag_hex_input: String,
}

pub struct NoteUiView {
    pub mode: NoteMode,
    pub focus: NoteFocus,
    pub filter: NoteFilter,
    pub list: Seq<NoteView>,
    pub list_selected: usize,
    pub editing: NoteView,
    pub tag_name_input: Seq<char>,
    pub tag_hex_input: Seq<char>,
}

impl View for NoteUi {
    type V = NoteUiView;

    open spec fn view(&self) -> NoteUiView {
        NoteUiView {
            mode: self.mode,
            focus: self.focus,
            filter: self.filter,
            list: self.list@.map_values(|n: Note_task| n@),
            list_selected: self.list_selected,
            editing: self.editing@,
            tag_name_input: self.tag_name_input@,
            tag_hex_input: self.tag_hex_input@,
        }
    }
}

/// What the caller of a notes key handler has to do afterwards.
#[derive(Debug, Clone, Copy, PartialEq, Eq, Structural)]
pub enum NoteEffect {
    Nothing,
    /// Save everything and leave the program.
    QuitAndSave,
    /// Store the note being edited and keep it among the notes, then reload the list.
    SaveEditingAndReload,
    /// Reload the list from the store.
    Reload,
}

/// A new untitled note.
pub open spec fn fresh_note(id: u128, now: i64) -> NoteView {
    NoteView {
        id,
        title: "Untitled"@,
        content: Seq::empty(),
        created_at: now,
        updated_at: now,
        pinned: false,
        favorite: false,
        tags: Set::empty(),
        topic: None,
        member: None,
    }
}

/// The editor showing `text` with the cursor at the start.
pub open spec fn editor_showing(ev: EditorView, text: Seq<char>) -> EditorView {
    EditorView { text, x: 0, y: 0, ..ev }
}

/// The form on a new note, with an editor holding one empty line.
pub open spec fn note_form_reset(ui: NoteUiView, ev: EditorView, id: u128, now: i64) -> (NoteUiView, EditorView) {
    (
        NoteUiView {
            editing: fresh_note(id, now),
            tag_name_input: Seq::empty(),
            tag_hex_input: Seq::empty(),
            focus: NoteFocus::Title,
            ..ui
        },
        editor_showing(ev, "\n"@),
    )
}

/// The notes list after a key: `q` quits, `n` opens a new note, `f` switches the filter,
/// Up and Down move the selection, and Enter opens the selected note.
pub open spec fn note_list_step(ui: NoteUiView, ev: EditorView, code: KeyCode, now: i64, id: u128) -> (
    NoteUiView,
    EditorView,
    NoteEffect,
) {
    let order = note_order(ui.list, ui.filter);
    if code == KeyCode::Char('q') {
        (ui, ev, NoteEffect::QuitAndSave)
    } else if code == KeyCode::Char('n') {
        let (u, e) = note_form_reset(ui, ev, id, now);
        (NoteUiView { mode: NoteMode::Edit, ..u }, e, NoteEffect::Nothing)
    } else if code == KeyCode::Char('f') {
        (NoteUiView { filter: note_filter_next(ui.filter), list_selected: 0, ..ui }, ev, NoteEffect::Nothing)
    } else if order.len() == 0 {
        (ui, ev, NoteEffect::Nothing)
    } else {
        match code {
            KeyCode::Up => (
                NoteUiView {
                    list_selected: if ui.list_selected > 0 { (ui.list_selected - 1) as usize } else { 0 },
                    ..ui
                },
                ev,
                NoteEffect::Nothing,
            ),
            KeyCode::Down => (
                NoteUiView {
                    list_selected: if ui.list_selected + 1 < order.len() {
                        (ui.list_selected + 1) as usize
                    } else {
                        (order.len() - 1) as usize
                    },
                    ..ui
                },
                ev,
                NoteEffect::Nothing,
            ),
            KeyCode::Enter => {
                let pos = if ui.list_selected < order.len() { ui.list_selected as int } else { order.len() - 1 };
                let n = ui.list[order[pos] as int];
                (
                    NoteUiView { editing: n, mode: NoteMode::Edit, focus: NoteFocus::Title, ..ui },
                    editor_showing(ev, n.content.push('\n')),
                    NoteEffect::Nothing,
                )
            },
            _ => (ui, ev, NoteEffect::Nothing),
        }
    }
}

/// The fields of the note form that take typed text.
pub open spec fn note_text_field(f: NoteFocus) -> bool {
    f == NoteFocus::Title || f == NoteFocus::Content || f == NoteFocus::TagName || f == NoteFocus::TagHex
        || f == NoteFocus::Member || f == NoteFocus::Topic
}

/// Whether a key changes a one-word field (and so marks the note as updated).
pub open spec fn word_key(code: KeyCode) -> bool {
    match code {
        KeyCode::Char(c) => !crate::fields::char_white_space(c),
        KeyCode::Backspace => true,
        _ => false,
    }
}

pub open spec fn is_toggle(code: KeyCode) -> bool {
    code == KeyCode::Enter || code == KeyCode::Char(' ') || code == KeyCode::Left || code == KeyCode::Right
}

/// A field edit that marks the note as updated at `now` when `touch` holds.
pub open spec fn touched(n: NoteView, touch: bool, now: i64) -> NoteView {
    if touch {
        NoteView { updated_at: now, ..n }
    } else {
        n
    }
}

/// The note form after a key press on the focused field.
pub open spec fn note_field_step(ui: NoteUiView, ev: EditorView, code: KeyCode, now: i64, id: u128) -> (
    NoteUiView,
    EditorView,
    NoteEffect,
) {
    let ed = ui.editing;
    let typed = code is Char || code == KeyCode::Backspace;
    match ui.focus {
        NoteFocus::Title => (
            NoteUiView { editing: touched(NoteView { title: text_after(ed.title, code), ..ed }, typed, now), ..ui },
            ev,
            NoteEffect::Nothing,
        ),
        NoteFocus::Member => (
            NoteUiView {
                editing: touched(NoteView { member: opt_text_after(ed.member, code, true), ..ed }, word_key(code), now),
                ..ui
            },
            ev,
            NoteEffect::Nothing,
        ),
        NoteFocus::Topic => (
            NoteUiView {
                editing: touched(NoteView { topic: opt_text_after(ed.topic, code, true), ..ed }, word_key(code), now),
                ..ui
            },
            ev,
            NoteEffect::Nothing,
        ),
        NoteFocus::Favourite => (
            NoteUiView {
                editing: if is_toggle(code) {
                    NoteView { favorite: !ed.favorite, updated_at: now, ..ed }
                } else {
                    ed
                },
                ..ui
            },
            ev,
            NoteEffect::Nothing,
        ),
        NoteFocus::Pinned => (
            NoteUiView {
                editing: if is_toggle(code) {
                    NoteView { pinned: !ed.pinned, updated_at: now, ..ed }
                } else {
                    ed
                },
                ..ui
            },
            ev,
            NoteEffect::Nothing,
        ),
        NoteFocus::Content => (ui, editor_step(ev, code), NoteEffect::Nothing),
        NoteFocus::TagName => (NoteUiView { tag_name_input: word_after(ui.tag_name_input, code), ..ui }, ev, NoteEffect::Nothing),
        NoteFocus::TagHex => (NoteUiView { tag_hex_input: hex_after(ui.tag_hex_input, code), ..ui }, ev, NoteEffect::Nothing),
        NoteFocus::TagAdd => if is_press(code) {
            match tag_of_inputs(ui.tag_name_input, ui.tag_hex_input) {
                Some(t) => (
                    NoteUiView {
                        editing: NoteView { tags: ed.tags.insert(t), updated_at: now, ..ed },
                        tag_name_input: Seq::empty(),
                        tag_hex_input: Seq::empty(),
                        ..ui
                    },
                    ev,
                    NoteEffect::Nothing,
                ),
                None => (ui, ev, NoteEffect::Nothing),
            }
        } else {
            (ui, ev, NoteEffect::Nothing)
        },
        NoteFocus::Save => if is_press(code) {
            (
                NoteUiView {
                    editing: NoteView { content: ev.text, updated_at: now, ..ed },
                    mode: NoteMode::Load,
                    ..ui
                },
                ev,
                NoteEffect::SaveEditingAndReload,
            )
        } else {
            (ui, ev, NoteEffect::Nothing)
        },
        NoteFocus::New => if is_press(code) {
            let (u, e) = note_form_reset(ui, ev, id, now);
            (u, e, NoteEffect::Nothing)
        } else {
            (ui, ev, NoteEffect::Nothing)
        },
        NoteFocus::Load => if is_press(code) {
            (NoteUiView { list_selected: 0, mode: NoteMode::Load, ..ui }, ev, NoteEffect::Reload)
        } else {
            (ui, ev, NoteEffect::Nothing)
        },
    }
}

/// The note form after a key: Alt with n/Down or p/Up moves the focus from any field,
/// plain Up and Down do so outside the content, `q` quits outside the text fields, Esc
/// goes back to the list, and any other key goes to the focused field.
pub open spec fn note_edit_step(ui: NoteUiView, ev: EditorView, key: KeyEvent, now: i64, id: u128) -> (
    NoteUiView,
    EditorView,
    NoteEffect,
) {
    let code = key.code;
    if key.modifiers.alt && (code == KeyCode::Char('n') || code == KeyCode::Down) {
        (NoteUiView { focus: note_focus_next(ui.focus), ..ui }, ev, NoteEffect::Nothing)
    } else if key.modifiers.alt && (code == KeyCode::Char('p') || code == KeyCode::Up) {
        (NoteUiView { focus: note_focus_prev(ui.focus), ..ui }, ev, NoteEffect::Nothing)
    } else if ui.focus != NoteFocus::Content && code == KeyCode::Up {
        (NoteUiView { focus: note_focus_prev(ui.focus), ..ui }, ev, NoteEffect::Nothing)
    } else if ui.focus != NoteFocus::Content && code == KeyCode::Down {
        (NoteUiView { focus: note_focus_next(ui.focus), ..ui }, ev, NoteEffect::Nothing)
    } else if code == KeyCode::Char('q') && !note_text_field(ui.focus) {
        (ui, ev, NoteEffect::QuitAndSave)
    } else if code == KeyCode::Esc {
        (NoteUiView { mode: NoteMode::Load, ..ui }, ev, NoteEffect::Nothing)
    } else {
        note_field_step(ui, ev, code, now, id)
    }
}

/// The notes page after a key.
pub open spec fn note_key_step(ui: NoteUiView, ev: EditorView, key: KeyEvent, now: i64, id: u128) -> (
    NoteUiView,
    EditorView,
    NoteEffect,
) {
    if ui.mode == NoteMode::Load {
        note_list_step(ui, ev, key.code, now, id)
    } else {
        note_edit_step(ui, ev, key, now, id)
    }
}

/// Whether a key on the note form goes to the content editor.
pub open spec fn note_key_to_editor(ui: NoteUiView, key: KeyEvent) -> bool {
    &&& ui.mode == NoteMode::Edit
    &&& ui.focus == NoteFocus::Content
    &&& !(key.modifiers.alt && (key.code == KeyCode::Char('n') || key.code == KeyCode::Down
        || key.code == KeyCode::Char('p') || key.code == KeyCode::Up))
    &&& key.code != KeyCode::Esc
}

/// The requirements of the notes key handler: the hex input holds hex digits, the
/// selection can move down in the list, and a key for the editor is one it accepts.
pub open spec fn note_key_ok(ui: NoteUiView, ev: EditorView, key: KeyEvent) -> bool {
    &&& all_hex(ui.tag_hex_input)
    &&& ui.mode == NoteMode::Load ==> ui.list_selected < usize::MAX
    &&& note_key_to_editor(ui, key) ==> editor_key_ok(ev, key.code)
}

fn reset_note_form(ui: &mut NoteUi, editor: &mut EditorState, now: i64, id: u128)
    ensures
        (final(ui)@, final(editor)@) == note_form_reset(old(ui)@, old(editor)@, id, now),
{
    ui.editing = Note_task::new_with(id, now, None, None, false, false, None, None, None);
    ui.tag_name_input = String::new();
    ui.tag_hex_input = String::new();
    editor.buffer = rope_from_str("\n");
    editor.cursor_x = 0;
    editor.cursor_y = 0;
    ui.focus = NoteFocus::Title;
}

fn handle_note_list_key(ui: &mut NoteUi, editor: &mut EditorState, key: KeyEvent, now: i64, id: u128) -> (e: NoteEffect)
    requires
        old(ui).mode == NoteMode::Load,
        old(ui).list_selected < usize::MAX,
    ensures
        (final(ui)@, final(editor)@, e) == note_list_step(old(ui)@, old(editor)@, key.code, now, id),
{
    if key.code == KeyCode::Char('q') {
        return NoteEffect::QuitAndSave;
    }
    if key.code == KeyCode::Char('n') {
        reset_note_form(ui, editor, now, id);
        ui.mode = NoteMode::Edit;
        return NoteEffect::Nothing;
    }
    if key.code == KeyCode::Char('f') {
        ui.filter = ui.filter.next();
        ui.list_selected = 0;
        return NoteEffect::Nothing;
    }
    let order = note_display_order(ui.list.as_slice(), ui.filter);
    if order.len() == 0 {
        return NoteEffect::Nothing;
    }
    match key.code {
        KeyCode::Up => {
            ui.list_selected = if ui.list_selected > 0 { ui.list_selected - 1 } else { 0 };
        },
        KeyCode::Down => {
            ui.list_selected = if ui.list_selected + 1 < order.len() { ui.list_selected + 1 } else { order.len() - 1 };
        },
        KeyCode::Enter => {
            let pos = if ui.list_selected < order.len() { ui.list_selected } else { order.len() - 1 };
            let idx = order[pos];
            let n = ui.list.len();
            proof {
                assert(ui.list@.len() == n);
                lemma_note_order(ui.list@.map_values(|n: Note_task| n@), ui.filter);
                assert(order@[pos as int] == idx);
            }
            let task = ui.list[idx].duplicate();
            let mut text = task.content.clone();
            crate::text::push_char(&mut text, '\n');
            editor.buffer = rope_from_str(text.as_str());
            editor.cursor_x = 0;
            editor.cursor_y = 0;
            ui.editing = task;
            ui.mode = NoteMode::Edit;
            ui.focus = NoteFocus::Title;
        },
        _ => {},
    }
    NoteEffect::Nothing
}

fn handle_note_edit_key(ui: &mut NoteUi, editor: &mut EditorState, key: KeyEvent, now: i64, id: u128) -> (e: NoteEffect)
    requires
        old(ui).mode == NoteMode::Edit,
        note_key_ok(old(ui)@, old(editor)@, key),
    ensures
        (final(ui)@, final(editor)@, e) == note_edit_step(old(ui)@, old(editor)@, key, now, id),
        all_hex(final(ui)@.tag_hex_input),
{
    let code = key.code;
    if key.modifiers.alt && (code == KeyCode::Char('n') || code == KeyCode::Down) {
        ui.focus = ui.focus.next();
        return NoteEffect::Nothing;
    }
    if key.modifiers.alt && (code == KeyCode::Char('p') || code == KeyCode::Up) {
        ui.focus = ui.focus.prev();
        return NoteEffect::Nothing;
    }
    if ui.focus != NoteFocus::Content {
        match code {
            KeyCode::Up => {
                ui.focus = ui.focus.prev();
                return NoteEffect::Nothing;
            },
            KeyCode::Down => {
                ui.focus = ui.focus.next();
                return NoteEffect::Nothing;
            },
            _ => {},
        }
    }
    let text_field = match ui.focus {
        NoteFocus::Title | NoteFocus::Content | NoteFocus::TagName | NoteFocus::TagHex
        | NoteFocus::Member | NoteFocus::Topic => true,
        _ => false,
    };
    if code == KeyCode::Char('q') && !text_field {
        return NoteEffect::QuitAndSave;
    }
    if code == KeyCode::Esc {
        ui.mode = NoteMode::Load;
        return NoteEffect::Nothing;
    }
    let pressed = code == KeyCode::Enter || code == KeyCode::Char(' ');
    let toggle = pressed || code == KeyCode::Left || code == KeyCode::Right;
    match ui.focus {
        NoteFocus::Title => {
            match code {
                KeyCode::Char(_) | KeyCode::Backspace => {
                    edit_text(&mut ui.editing.title, code);
                    ui.editing.updated_at = now;
                },
                _ => {},
            }
        },
        NoteFocus::Member => {
            let touch = match code {
                KeyCode::Char(c) => !crate::fields::is_whitespace(c),
                KeyCode::Backspace => true,
                _ => false,
            };
            edit_opt_text(&mut ui.editing.member, code, true);
            if touch {
                ui.editing.updated_at = now;
            }
        },
        NoteFocus::Topic => {
            let touch = match code {
                KeyCode::Char(c) => !crate::fields::is_whitespace(c),
                KeyCode::Backspace => true,
                _ => false,
            };
            edit_opt_text(&mut ui.editing.topic, code, true);
            if touch {
                ui.editing.updated_at = now;
            }
        },
        NoteFocus::Favourite => {
            if toggle {
                ui.editing.favorite = !ui.editing.favorite;
                ui.editing.updated_at = now;
            }
        },
        NoteFocus::Pinned => {
            if toggle {
                ui.editing.pinned = !ui.editing.pinned;
                ui.editing.updated_at = now;
            }
        },
        NoteFocus::Content => {
            handle_editor_key(editor, key);
        },
        NoteFocus::TagName => {
            edit_word(&mut ui.tag_name_input, code);
        },
        NoteFocus::TagHex => {
            edit_hex(&mut ui.tag_hex_input, code);
            proof {
                let s = old(ui).tag_hex_input@;
                assert(all_hex(ui.tag_hex_input@)) by {
                    if ui.tag_hex_input@.len() < s.len() {
                        assert(ui.tag_hex_input@ =~= s.drop_last());
                    }
                }
            }
        },
        NoteFocus::TagAdd => {
            if pressed {
                match take_tag(&mut ui.tag_name_input, &mut ui.tag_hex_input) {
                    Some(t) => ui.editing.add_tag_at(now, t),
                    None => {},
                }
            }
        },
        NoteFocus::Save => {
            if pressed {
                ui.editing.content = rope_to_string(&editor.buffer);
                ui.editing.updated_at = now;
                ui.mode = NoteMode::Load;
                return NoteEffect::SaveEditingAndReload;
            }
        },
        NoteFocus::New => {
            if pressed {
                reset_note_form(ui, editor, now, id);
            }
        },
        NoteFocus::Load => {
            if pressed {
                ui.list_selected = 0;
                ui.mode = NoteMode::Load;
                return NoteEffect::Reload;
            }
        },
    }
    NoteEffect::Nothing
}

/// Handles a key on the notes page at time `now`; a new note gets the identifier `id`.
/// The caller fills an empty list from the store before a key on the list.
pub fn handle_notes_key_at(ui: &mut NoteUi, editor: &mut EditorState, key: KeyEvent, now: i64, id: u128) -> (e: NoteEffect)
    requires
        note_key_ok(old(ui)@, old(editor)@, key),
    ensures
        (final(ui)@, final(editor)@, e) == note_key_step(old(ui)@, old(editor)@, key, now, id),
{
    if ui.mode == NoteMode::Load {
        handle_note_list_key(ui, editor, key, now, id)
    } else {
        handle_note_edit_key(ui, editor, key, now, id)
    }
}

/// Handles a key on the notes page, reading the clock and drawing a fresh identifier for
/// a new note.
pub fn handle_notes_key(ui: &mut NoteUi, editor: &mut EditorState, key: KeyEvent) -> (e: NoteEffect)
    requires
        note_key_ok(old(ui)@, old(editor)@, key),
    ensures
        exists|now: i64, id: u128|
            (final(ui)@, final(editor)@, e) == #[trigger] note_key_step(old(ui)@, old(editor)@, key, now, id),
{
    let now = now_micros();
    let id = new_uuid();
    handle_notes_key_at(ui, editor, key, now, id)
}


/// The tag hex field holds hex digits only, and every key keeps it so: the handler types
/// only hex digits into it and otherwise empties it or leaves it.
pub proof fn lemma_note_hex_input_stays(ui: NoteUiView, ev: EditorView, key: KeyEvent, now: i64, id: u128)
    requires
        all_hex(ui.tag_hex_input),
    ensures
        all_hex(note_key_step(ui, ev, key, now, id).0.tag_hex_input),
{
    crate::fields::lemma_hex_after_keeps(ui.tag_hex_input, key.code);
}

} // verus!
