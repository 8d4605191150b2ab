use vstd::prelude::*;
use crate::meta::{Priority, Tag, MyColor, priority_next, priority_prev};
use crate::fields::{
    now_micros, new_uuid, opt_view, tags_view, copy_tags, copy_opt_string, TagView, text_after,
    word_after, hex_after, opt_text_after, all_hex, tag_of_inputs, edit_text, edit_word, edit_hex,
    edit_opt_text, take_tag, is_press,
};
use crate::keys::{KeyCode, KeyEvent};

verus! {

/// A task on the todo list. Times are microseconds since the Unix epoch.
pub struct Todo_task {
    pub id: u128,
    pub title: String,
    pub description: Option<String>,
    pub status: bool,
    pub priority: Priority,
    pub due_date: Option<i64>,
    pub created_at: i64,
    pub completed_at: Option<i64>,
    pub tags: Vec<Tag>,
    pub topic: Option<String>,
    pub member: Option<String>,
}

/// A task as plain values.
pub struct TodoView {
    pub id: u128,
    pub title: Seq<char>,
    pub description: Option<Seq<char>>,
    pub status: bool,
    pub priority: Priority,
    pub due_date: Option<i64>,
    pub created_at: i64,
    pub completed_at: Option<i64>,
    pub tags: Seq<TagView>,
    pub topic: Option<Seq<char>>,
    pub member: Option<Seq<char>>,
}

impl View for Todo_task {
    type V = TodoView;

    open spec fn view(&self) -> TodoView {
        TodoView {
            id: self.id,
            title: self.title@,
            description: opt_view(self.description),
            status: self.status,
            priority: self.priority,
            due_date: self.due_date,
            created_at: self.created_at,
            completed_at: self.completed_at,
            tags: tags_view(self.tags@),
            topic: opt_view(self.topic),
            member: opt_view(self.member),
        }
    }
}

pub open spec fn or_default_priority(p: Option<Priority>) -> Priority {
    match p {
        Some(x) => x,
        None => Priority::Default,
    }
}

impl Todo_task {
    /// An open task with the given fields, identified by `id` and created at `now`.
    pub fn new_with(
        id: u128,
        now: i64,
        title: String,
        desc: Option<String>,
        prio: Option<Priority>,
        due_date: Option<i64>,
        tags: Vec<Tag>,
        topic: Option<String>,
        member: Option<String>,
    ) -> (t: Todo_task)
        ensures
            t@ == (TodoView {
                id,
                title: title@,
                description: opt_view(desc),
                status: false,
                priority: or_default_priority(prio),
                due_date,
                created_at: now,
                completed_at: None,
                tags: tags_view(tags@),
                topic: opt_view(topic),
                member: opt_view(member),
            }),
    {
        Todo_task {
            id,
            title,
            description: desc,
            status: false,
            priority: if let Some(x) = prio {
                x
            } else {
                Priority::Default
            },
            due_date,
            created_at: now,
            completed_at: None,
            tags,
            topic,
            member,
        }
    }

    /// An open task with the given fields, a fresh random identifier, created now.
    pub fn new(
        title: String,
        desc: Option<String>,
        prio: Option<Priority>,
        due_date: Option<i64>,
        tags: Vec<Tag>,
        topic: Option<String>,
        member: Option<String>,
    ) -> (t: Todo_task)
        ensures
            t@.title == title@,
            t@.description == opt_view(desc),
            !t@.status,
            t@.priority == or_default_priority(prio),
            t@.due_date == due_date,
            t@.completed_at is None,
            t@.tags == tags_view(tags@),
            t@.topic == opt_view(topic),
            t@.member == opt_view(member),
    {
        let id = new_uuid();
        let now = now_micros();
        Todo_task::new_with(id, now, title, desc, prio, due_date, tags, topic, member)
    }

    /// Appends a tag.
    pub fn add_tag(&mut self, t: Tag)
        ensures
            final(self)@ == (TodoView { tags: old(self)@.tags.push((t.name@, t.color)), ..old(self)@ }),
    {
        self.tags.push(t);
        proof {
            assert(tags_view(self.tags@) =~= tags_view(old(self).tags@).push((t.name@, t.color)));
        }
    }

    /// Appends tags, in order.
    pub fn add_tags(&mut self, t: Vec<Tag>)
        ensures
            final(self)@ == (TodoView { tags: old(self)@.tags + tags_view(t@), ..old(self)@ }),
    {
        let mut rest = t;
        let ghost all = rest@;
        let ghost start = self@;
        while rest.len() > 0
            invariant
                rest@.len() <= all.len(),
                rest@ == all.skip(all.len() - rest@.len()),
                self@ == (TodoView { tags: start.tags + tags_view(all.take(all.len() - rest@.len())), ..start }),
            decreases rest.len(),
        {
            let ghost k = all.len() - rest@.len();
            let y = rest.remove(0);
            assert(y == all[k]);
            self.add_tag(y);
            assert(all.take(k + 1) =~= all.take(k).push(all[k]));
            assert(tags_view(all.take(k + 1)) =~= tags_view(all.take(k)).push((y.name@, y.color)));
            assert(start.tags + tags_view(all.take(k + 1)) =~= (start.tags + tags_view(all.take(k))).push((y.name@, y.color)));
            assert(rest@ =~= all.skip(k + 1));
        }
        assert(all.take(all.len() as int) =~= all);
    }

    /// Takes the given fields; the tags given are appended, and the creation time is
    /// set to `now`.
    pub fn update_at(
        &mut self,
        now: i64,
        title: Option<String>,
        desc: Option<String>,
        status: bool,
        prio: Priority,
        due: Option<i64>,
        tags: Option<Vec<Tag>>,
        member: Option<String>,
        topic: Option<String>,
    )
        ensures
            final(self)@ == (TodoView {
                title: match title {
                    Some(x) => x@,
                    None => old(self)@.title,
                },
                description: opt_view(desc),
                status,
                priority: prio,
                due_date: due,
                tags: match tags {
                    Some(x) => old(self)@.tags + tags_view(x@),
                    None => old(self)@.tags,
                },
                member: opt_view(member),
                topic: opt_view(topic),
                created_at: now,
                ..old(self)@
            }),
    {
        if let Some(x) = title {
            self.title = x;
        }
        self.description = desc;
        self.status = status;
        self.priority = prio;
        self.due_date = due;
        if let Some(x) = tags {
            self.add_tags(x);
        }
        self.member = member;
        self.topic = topic;
        self.created_at = now;
    }

    /// `update_at` at the current time.
    pub fn update(
        &mut self,
        title: Option<String>,
        desc: Option<String>,
        status: bool,
        prio: Priority,
        due: Option<i64>,
        tags: Option<Vec<Tag>>,
        member: Option<String>,
        topic: Option<String>,
    )
        ensures
                final(self)@ == (TodoView {
                    title: match title {
                        Some(x) => x@,
                        None => old(self)@.title,
                    },
                    description: opt_view(desc),
                    status,
                    priority: prio,
                    due_date: due,
                    tags: match tags {
                        Some(x) => old(self)@.tags + tags_view(x@),
                        None => old(self)@.tags,
                    },
                    member: opt_view(member),
                    topic: opt_view(topic),
                    created_at: final(self).created_at,
                    ..old(self)@
                }),
    {
        let now = now_micros();
        self.update_at(now, title, desc, status, prio, due, tags, member, topic);
    }

    /// A copy of the task.
    pub fn duplicate(&self) -> (r: Todo_task)
        ensures
            r@ == self@,
    {
        Todo_task {
            id: self.id,
            title: self.title.clone(),
            description: copy_opt_string(&self.description),
            status: self.status,
            priority: self.priority,
            due_date: self.due_date,
            created_at: self.created_at,
            completed_at: self.completed_at,
            tags: copy_tags(&self.tags),
            topic: copy_opt_string(&self.topic),
            member: copy_opt_string(&self.member),
        }
    }
}

// ------------------------------------------------------------------------
// Display order: open tasks first, then done ones, each in list order
// ------------------------------------------------------------------------

/// The indices `i` of `flags` with `flags[i] == want`, ascending.
pub open spec fn indices_where(flags: Seq<bool>, want: bool) -> Seq<usize>
    decreases flags.len(),
{
    if flags.len() == 0 {
        Seq::empty()
    } else {
        let rest = indices_where(flags.drop_last(), want);
        if flags.last() == want {
            rest.push((flags.len() - 1) as usize)
        } else {
            rest
        }
    }
}

pub open spec fn todo_statuses(list: Seq<Todo_task>) -> Seq<bool> {
    list.map_values(|t: Todo_task| t.status)
}

/// Open tasks first, then done ones, each group in list order.
pub open spec fn todo_order(list: Seq<Todo_task>) -> Seq<usize> {
    indices_where(todo_statuses(list), false) + indices_where(todo_statuses(list), true)
}

/// `indices_where` lists, ascending and once each, exactly the indices whose flag is
/// `want`.
pub proof fn lemma_indices_where(flags: Seq<bool>, want: bool)
    requires
        flags.len() <= usize::MAX,
    ensures
        forall|i: int| 0 <= i < flags.len() ==> (indices_where(flags, want).contains(i as usize) <==> flags[i] == want),
        forall|k: int| 0 <= k < indices_where(flags, want).len() ==> {
            let i = #[trigger] indices_where(flags, want)[k];
            i < flags.len() && flags[i as int] == want
        },
        forall|a: int, b: int| 0 <= a < b < indices_where(flags, want).len() ==> indices_where(flags, want)[a] < indices_where(flags, want)[b],
    decreases flags.len(),
{
    if flags.len() > 0 {
        let rest = flags.drop_last();
        lemma_indices_where(rest, want);
        let r = indices_where(rest, want);
        assert forall|i: int| 0 <= i < flags.len() implies (indices_where(flags, want).contains(i as usize) <==> flags[i] == want) by {
            if i < rest.len() {
                assert(rest[i] == flags[i]);
                if flags.last() == want {
                    if indices_where(flags, want).contains(i as usize) {
                        let k = indices_where(flags, want).index_of(i as usize);
                        if k < r.len() {
                            assert(r[k] == i as usize);
                        }
                    }
                    if r.contains(i as usize) {
                        let k = r.index_of(i as usize);
                        assert(indices_where(flags, want)[k] == i as usize);
                    }
                }
            } else {
                if flags.last() == want {
                    assert(indices_where(flags, want)[r.len() as int] == i as usize);
                } else {
                    if r.contains(i as usize) {
                        let k = r.index_of(i as usize);
                        assert(r[k] < rest.len());
                    }
                }
            }
        }
    }
}

/// Every task appears once in the display order: the open ones first, in list order,
/// then the done ones, in list order.
pub proof fn lemma_todo_order_permutation(list: Seq<Todo_task>)
    requires
        list.len() <= usize::MAX,
    ensures
        todo_order(list).len() == list.len(),
        forall|i: usize| i < list.len() ==> #[trigger] todo_order(list).contains(i),
        forall|k: int| 0 <= k < todo_order(list).len() ==> #[trigger] todo_order(list)[k] < list.len(),
        forall|a: int, b: int| 0 <= a < b < todo_order(list).len() ==> todo_order(list)[a] != todo_order(list)[b],
        forall|a: int, b: int| 0 <= a < b < todo_order(list).len() && list[todo_order(list)[a] as int].status
            ==> list[todo_order(list)[b] as int].status,
{
    let flags = todo_statuses(list);
    lemma_indices_where(flags, false);
    lemma_indices_where(flags, true);
    lemma_indices_where_len(flags);
    let o = indices_where(flags, false);
    let c = indices_where(flags, true);
    assert forall|i: usize| i < list.len() implies #[trigger] todo_order(list).contains(i) by {
        let j = i as int;
        assert(flags[j] == list[j].status);
        if flags[j] {
            assert(c.contains(i));
            let k = c.index_of(i);
            assert(c[k] == i);
            assert(todo_order(list)[o.len() + k] == i);
        } else {
            assert(o.contains(i));
            let k = o.index_of(i);
            assert(o[k] == i);
            assert(todo_order(list)[k] == i);
        }
    }
    assert forall|k: int| 0 <= k < todo_order(list).len() implies #[trigger] todo_order(list)[k] < list.len() by {
        if k < o.len() {
            assert(todo_order(list)[k] == o[k]);
        } else {
            assert(todo_order(list)[k] == c[k - o.len()]);
        }
    }
    assert forall|a: int, b: int| 0 <= a < b < todo_order(list).len() implies todo_order(list)[a] != todo_order(list)[b] && (list[todo_order(list)[a] as int].status ==> list[todo_order(list)[b] as int].status) by {
        if b < o.len() {
            assert(todo_order(list)[a] == o[a] && todo_order(list)[b] == o[b]);
        } else if a >= o.len() {
            assert(todo_order(list)[a] == c[a - o.len()] && todo_order(list)[b] == c[b - o.len()]);
            assert(flags[c[b - o.len()] as int] == true);
        } else {
            assert(todo_order(list)[a] == o[a] && todo_order(list)[b] == c[b - o.len()]);
            assert(flags[o[a] as int] == false);
            assert(flags[c[b - o.len()] as int] == true);
        }
    }
}

pub proof fn lemma_indices_where_len(flags: Seq<bool>)
    ensures
        indices_where(flags, false).len() + indices_where(flags, true).len() == flags.len(),
    decreases flags.len(),
{
    if flags.len() > 0 {
        lemma_indices_where_len(flags.drop_last());
    }
}

/// The indices of the open tasks followed by those of the done ones.
pub fn todo_display_order(list: &[Todo_task]) -> (r: Vec<usize>)
    ensures
        r@ == todo_order(list@),
{
    let mut incomplete: Vec<usize> = Vec::new();
    let mut complete: Vec<usize> = Vec::new();
    let mut i: usize = 0;
    while i < list.len()
        invariant
            i <= list@.len(),
            incomplete@ == indices_where(todo_statuses(list@).take(i as int), false),
            complete@ == indices_where(todo_statuses(list@).take(i as int), true),
        decreases list.len() - i,
    {
        let ghost flags = todo_statuses(list@);
        assert(flags.take(i + 1).drop_last() =~= flags.take(i as int));
        if !list[i].status {
            incomplete.push(i);
        } else {
            complete.push(i);
        }
        i = i + 1;
    }
    assert(todo_statuses(list@).take(i as int) =~= todo_statuses(list@));
    incomplete.append(&mut complete);
    incomplete
}

// ------------------------------------------------------------------------
// Due dates written as `%Y-%m-%d %H:%M`
// ------------------------------------------------------------------------

/// What `chrono::NaiveDateTime::parse_from_str` reads from a text with the format
/// `%Y-%m-%d %H:%M`, as microseconds since the Unix epoch taken as UTC.
pub uninterp spec fn due_parse(s: Seq<char>) -> Option<i64>;

/// What chrono writes for a UTC time with the format `%Y-%m-%d %H:%M`; empty for a time
/// chrono cannot represent.
pub uninterp spec fn due_text(t: i64) -> Seq<char>;

/// `chrono::NaiveDateTime::parse_from_str(s, "%Y-%m-%d %H:%M")`, the result taken as UTC.
#[verifier::external_body]
pub(crate) fn parse_due_date_text(s: &str) -> (r: Option<i64>)
    ensures
        r == due_parse(s@),
{
    match chrono::NaiveDateTime::parse_from_str(s, "%Y-%m-%d %H:%M") {
        Ok(n) => Some(n.and_utc().timestamp_micros()),
        Err(_) => None,
    }
}

/// `chrono::DateTime::<Utc>::format(.., "%Y-%m-%d %H:%M")` of a time.
#[verifier::external_body]
pub(crate) fn format_due_text(t: i64) -> (r: String)
    ensures
        r@ == due_text(t),
{
    match chrono::DateTime::from_timestamp_micros(t) {
        Some(d) => d.format("%Y-%m-%d %H:%M").to_string(),
        None => String::new(),
    }
}

/// The due date a text gives: none for an empty text, else what it reads as.
pub open spec fn due_input_value(s: Seq<char>) -> Option<i64> {
    if s.len() == 0 {
        None
    } else {
        due_parse(s)
    }
}

/// Reads a due date typed as `YYYY-MM-DD HH:MM`; an empty text gives none.
pub fn parse_due_date_input(s: &str) -> (r: Option<i64>)
    ensures
        r == due_input_value(s@),
{
    if s.is_empty() {
        return None;
    }
    parse_due_date_text(s)
}

/// The text shown for an optional due date.
pub open spec fn due_field_text(d: Option<i64>) -> Seq<char> {
    match d {
        Some(t) => due_text(t),
        None => Seq::empty(),
    }
}

// ------------------------------------------------------------------------
// The todo page
// ------------------------------------------------------------------------

#[derive(Debug, Clone, Copy, PartialEq, Eq, Structural)]
pub enum TodoMode {
    Load,
    Edit,
}

/// The field of the task form that has the focus, in screen order.
#[derive(Debug, Clone, Copy, PartialEq, Eq, Structural)]
pub enum TodoFocus {
    Title,
    Description,
    Status,
    Priority,
    DueDate,
    TagName,
    TagHex,
    TagAdd,
    Member,
    Topic,
    Save,
    New,
    Load,
}

pub open spec fn todo_focus_next(f: TodoFocus) -> TodoFocus {
    match f {
        TodoFocus::Title => TodoFocus::Description,
        TodoFocus::Description => TodoFocus::Status,
        TodoFocus::Status => TodoFocus::Priority,
        TodoFocus::Priority => TodoFocus::DueDate,
        TodoFocus::DueDate => TodoFocus::TagName,
        TodoFocus::TagName => TodoFocus::TagHex,
        TodoFocus::TagHex => TodoFocus::TagAdd,
        TodoFocus::TagAdd => TodoFocus::Member,
        TodoFocus::Member => TodoFocus::Topic,
        TodoFocus::Topic => TodoFocus::Save,
        TodoFocus::Save => TodoFocus::New,
        TodoFocus::New => TodoFocus::Load,
        TodoFocus::Load => TodoFocus::Title,
    }
}

pub open spec fn todo_focus_prev(f: TodoFocus) -> TodoFocus {
    match f {
        TodoFocus::Title => TodoFocus::Load,
        TodoFocus::Description => TodoFocus::Title,
        TodoFocus::Status => TodoFocus::Description,
        TodoFocus::Priority => TodoFocus::Status,
        TodoFocus::DueDate => TodoFocus::Priority,
        TodoFocus::TagName => TodoFocus::DueDate,
        TodoFocus::TagHex => TodoFocus::TagName,
        TodoFocus::TagAdd => TodoFocus::TagHex,
        TodoFocus::Member => TodoFocus::TagAdd,
        TodoFocus::Topic => TodoFocus::Member,
        TodoFocus::Save => TodoFocus::Topic,
        TodoFocus::New => TodoFocus::Save,
        TodoFocus::Load => TodoFocus::New,
    }
}

impl TodoFocus {
    pub fn next(self) -> (r: TodoFocus)
        ensures
            r == todo_focus_next(self),
    {
        match self {
            TodoFocus::Title => TodoFocus::Description,
            TodoFocus::Description => TodoFocus::Status,
            TodoFocus::Status => TodoFocus::Priority,
            TodoFocus::Priority => TodoFocus::DueDate,
            TodoFocus::DueDate => TodoFocus::TagName,
            TodoFocus::TagName => TodoFocus::TagHex,
            TodoFocus::TagHex => TodoFocus::TagAdd,
            TodoFocus::TagAdd => TodoFocus::Member,
            TodoFocus::Member => TodoFocus::Topic,
            TodoFocus::Topic => TodoFocus::Save,
            TodoFocus::Save => TodoFocus::New,
            TodoFocus::New => TodoFocus::Load,
            TodoFocus::Load => TodoFocus::Title,
        }
    }

    pub fn prev(self) -> (r: TodoFocus)
        ensures
            r == todo_focus_prev(self),
    {
        match self {
            TodoFocus::Title => TodoFocus::Load,
            TodoFocus::Description => TodoFocus::Title,
            TodoFocus::Status => TodoFocus::Description,
            TodoFocus::Priority => TodoFocus::Status,
            TodoFocus::DueDate => TodoFocus::Priority,
            TodoFocus::TagName => TodoFocus::DueDate,
            TodoFocus::TagHex => TodoFocus::TagName,
            TodoFocus::TagAdd => TodoFocus::TagHex,
            TodoFocus::Member => TodoFocus::TagAdd,
            TodoFocus::Topic => TodoFocus::Member,
            TodoFocus::Save => TodoFocus::Topic,
            TodoFocus::New => TodoFocus::Save,
            TodoFocus::Load => TodoFocus::New,
        }
    }
}

/// Moving the focus forward and back, or back and forward, returns to the same field.
pub proof fn lemma_todo_focus_cycle(f: TodoFocus)
    ensures
        todo_focus_prev(todo_focus_next(f)) == f,
        todo_focus_next(todo_focus_prev(f)) == f,
{
}

/// The state of the todo page: the list, the task being edited, and the form inputs.
pub struct TodoUi {
    pub mode: TodoMode,
    pub focus: TodoFocus,
    pub list: Vec<Todo_task>,
    pub list_selected: usize,
    pub checkbox_focused: bool,
    pub editing: Todo_task,
    pub tag_name_input: String,
    pub tag_hex_input: String,
    pub due_date_input: String,
    pub due_date_valid: bool,
}

pub struct TodoUiView {
    pub mode: TodoMode,
    pub focus: TodoFocus,
    pub list: Seq<TodoView>,
    pub list_selected: usize,
    pub checkbox_focused: bool,
    pub editing: TodoView,
    pub tag_name_input: Seq<char>,
    pub tag_hex_input: Seq<char>,
    pub due_date_input: Seq<char>,
    pub due_date_valid: bool,
}

impl View for TodoUi {
    type V = TodoUiView;

    open spec fn view(&self) -> TodoUiView {
        TodoUiView {
            mode: self.mode,
            focus: self.focus,
            list: self.list@.map_values(|t: Todo_task| t@),
            list_selected: self.list_selected,
            checkbox_focused: self.checkbox_focused,
            editing: self.editing@,
            tag_name_input: self.tag_name_input@,
            tag_hex_input: self.tag_hex_input@,
            due_date_input: self.due_date_input@,
            due_date_valid: self.due_date_valid,
        }
    }
}

/// What the caller of a todo key handler has to do afterwards.
#[derive(Debug, Clone, Copy, PartialEq, Eq, Structural)]
pub enum TodoEffect {
    Nothing,
    /// Save everything and leave the program.
    QuitAndSave,
    /// Store the task at this index of the list.
    SaveTask(usize),
    /// Store the task being edited, then reload the list from the store.
    SaveEditingAndReload,
    /// Reload the list from the store.
    Reload,
}

/// The hex input holds only hexadecimal digits, as the form keeps it.
pub open spec fn todo_ui_wf(ui: TodoUiView) -> bool {
    all_hex(ui.tag_hex_input)
}

/// A new untitled open task.
pub open spec fn fresh_todo(id: u128, now: i64) -> TodoView {
    TodoView {
        id,
        title: "Untitled"@,
        description: None,
        status: false,
        priority: Priority::Default,
        due_date: None,
        created_at: now,
        completed_at: None,
        tags: Seq::empty(),
        topic: None,
        member: None,
    }
}

/// The form reset to a new untitled task, focus on the title.
pub open spec fn todo_form_reset(ui: TodoUiView, id: u128, now: i64) -> TodoUiView {
    TodoUiView {
        editing: fresh_todo(id, now),
        tag_name_input: Seq::empty(),
        tag_hex_input: Seq::empty(),
        due_date_input: Seq::empty(),
        due_date_valid: true,
        focus: TodoFocus::Title,
        ..ui
    }
}

/// A task with its done mark flipped; a task marked done gets `now` as its completion time.
pub open spec fn toggled(t: TodoView, now: i64) -> TodoView {
    TodoView {
        status: !t.status,
        completed_at: if !t.status { Some(now) } else { None },
        ..t
    }
}

/// The todo list after a key: `q` quits, `n` opens a new task, Up and Down move the
/// selection, Left and Right switch between the check box and the title, and Enter
/// either flips the selected task's check box or opens the task in the form.
pub open spec fn todo_list_step(ui: TodoUiView, code: KeyCode, now: i64, id: u128) -> (TodoUiView, TodoEffect) {
    let order = indices_where(ui.list.map_values(|t: TodoView| t.status), false)
        + indices_where(ui.list.map_values(|t: TodoView| t.status), true);
    if code == KeyCode::Char('q') {
        (ui, TodoEffect::QuitAndSave)
    } else if code == KeyCode::Char('n') {
        (TodoUiView { mode: TodoMode::Edit, ..todo_form_reset(ui, id, now) }, TodoEffect::Nothing)
    } else if order.len() == 0 {
        (ui, TodoEffect::Nothing)
    } else {
        match code {
            KeyCode::Up => (
                TodoUiView {
                    list_selected: if ui.list_selected > 0 { (ui.list_selected - 1) as usize } else { 0 },
                    ..ui
                },
                TodoEffect::Nothing,
            ),
            KeyCode::Down => (
                TodoUiView {
                    list_selected: if ui.list_selected + 1 < order.len() {
                        (ui.list_selected + 1) as usize
                    } else {
                        (order.len() - 1) as usize
                    },
                    ..ui
                },
                TodoEffect::Nothing,
            ),
            KeyCode::Left | KeyCode::Right => (
                TodoUiView { checkbox_focused: !ui.checkbox_focused, ..ui },
                TodoEffect::Nothing,
            ),
            KeyCode::Enter => {
                let pos = if ui.list_selected < order.len() { ui.list_selected as int } else { order.len() - 1 };
                let idx = order[pos];
                if ui.checkbox_focused {
                    (
                        TodoUiView { list: ui.list.update(idx as int, toggled(ui.list[idx as int], now)), ..ui },
                        TodoEffect::SaveTask(idx),
                    )
                } else {
                    (
                        TodoUiView {
                            editing: ui.list[idx as int],
                            due_date_input: due_field_text(ui.list[idx as int].due_date),
                            due_date_valid: true,
                            mode: TodoMode::Edit,
                            focus: TodoFocus::Title,
                            ..ui
                        },
                        TodoEffect::Nothing,
                    )
                }
            },
            _ => (ui, TodoEffect::Nothing),
        }
    }
}

proof fn lemma_todo_order_view(list: Seq<Todo_task>)
    ensures
        todo_order(list) == indices_where(list.map_values(|t: Todo_task| t@).map_values(|t: TodoView| t.status), false)
            + indices_where(list.map_values(|t: Todo_task| t@).map_values(|t: TodoView| t.status), true),
{
    assert(todo_statuses(list) =~= list.map_values(|t: Todo_task| t@).map_values(|t: TodoView| t.status));
}

/// Handles a key on the todo list at time `now`; a new task gets the identifier `id`.
fn handle_todo_list_key(ui: &mut TodoUi, key: KeyEvent, now: i64, id: u128) -> (e: TodoEffect)
    requires
        todo_ui_wf(old(ui)@),
        old(ui).list_selected < usize::MAX,
    ensures
        (final(ui)@, e) == todo_list_step(old(ui)@, key.code, now, id),
{
    if key.code == KeyCode::Char('q') {
        return TodoEffect::QuitAndSave;
    }
    if key.code == KeyCode::Char('n') {
        let t = Todo_task::new_with(id, now, String::from_str("Untitled"), None, None, None, Vec::new(), None, None);
        ui.editing = t;
        ui.tag_name_input = String::new();
        ui.tag_hex_input = String::new();
        ui.due_date_input = String::new();
        ui.due_date_valid = true;
        ui.mode = TodoMode::Edit;
        ui.focus = TodoFocus::Title;
        proof {
            assert(ui.editing@.tags =~= Seq::<TagView>::empty());
        }
        return TodoEffect::Nothing;
    }
    let order = todo_display_order(ui.list.as_slice());
    proof {
        lemma_todo_order_view(ui.list@);
    }
    if order.len() == 0 {
        return TodoEffect::Nothing;
    }
    match key.code {
        KeyCode::Up => {
            ui.list_selected = if ui.list_selected > 0 { ui.list_selected - 1 } else { 0 };
            TodoEffect::Nothing
        },
        KeyCode::Down => {
            ui.list_selected = if ui.list_selected + 1 < order.len() { ui.list_selected + 1 } else { order.len() - 1 };
            TodoEffect::Nothing
        },
        KeyCode::Left | KeyCode::Right => {
            ui.checkbox_focused = !ui.checkbox_focused;
            TodoEffect::Nothing
        },
        KeyCode::Enter => {
            let pos = if ui.list_selected < order.len() { ui.list_selected } else { order.len() - 1 };
            let idx = order[pos];
            let n = ui.list.len();
            proof {
                assert(ui.list@.len() == n);
                lemma_todo_order_permutation(ui.list@);
                assert(order@[pos as int] == idx);
            }
            if ui.checkbox_focused {
                let mut task = ui.list[idx].duplicate();
                task.status = !task.status;
                task.completed_at = if task.status { Some(now) } else { None };
                let ghost before = ui.list@;
                ui.list.set(idx, task);
                proof {
                    assert(ui.list@.map_values(|t: Todo_task| t@) =~= before.map_values(|t: Todo_task| t@).update(
                        idx as int,
                        toggled(before[idx as int]@, now),
                    ));
                }
                TodoEffect::SaveTask(idx)
            } else {
                let task = ui.list[idx].duplicate();
                ui.due_date_input = match task.due_date {
                    Some(d) => format_due_text(d),
                    None => String::new(),
                };
                ui.due_date_valid = true;
                ui.editing = task;
                ui.mode = TodoMode::Edit;
                ui.focus = TodoFocus::Title;
                TodoEffect::Nothing
            }
        },
        _ => TodoEffect::Nothing,
    }
}

/// The fields of the task form that take typed text.
pub open spec fn todo_text_field(f: TodoFocus) -> bool {
    f == TodoFocus::Title || f == TodoFocus::Description || f == TodoFocus::TagName || f
        == TodoFocus::TagHex || f == TodoFocus::Member || f == TodoFocus::Topic || f
        == TodoFocus::DueDate
}

/// The task form after a key press on the focused field.
pub open spec fn todo_field_step(ui: TodoUiView, code: KeyCode, now: i64, id: u128) -> (TodoUiView, TodoEffect) {
    let ed = ui.editing;
    match ui.focus {
        TodoFocus::Title => (
            TodoUiView { editing: TodoView { title: text_after(ed.title, code), ..ed }, ..ui },
            TodoEffect::Nothing,
        ),
        TodoFocus::Description => (
            TodoUiView {
                editing: TodoView { description: opt_text_after(ed.description, code, false), ..ed },
                ..ui
            },
            TodoEffect::Nothing,
        ),
        TodoFocus::Status => if code == KeyCode::Left || code == KeyCode::Right || code == KeyCode::Enter {
            (TodoUiView { editing: toggled(ed, now), ..ui }, TodoEffect::Nothing)
        } else {
            (ui, TodoEffect::Nothing)
        },
        TodoFocus::Priority => if code == KeyCode::Left {
            (TodoUiView { editing: TodoView { priority: priority_prev(ed.priority), ..ed }, ..ui }, TodoEffect::Nothing)
        } else if code == KeyCode::Right {
            (TodoUiView { editing: TodoView { priority: priority_next(ed.priority), ..ed }, ..ui }, TodoEffect::Nothing)
        } else {
            (ui, TodoEffect::Nothing)
        },
        TodoFocus::DueDate => {
            let input = text_after(ui.due_date_input, code);
            match due_input_value(input) {
                Some(dt) => (
                    TodoUiView {
                        due_date_input: input,
                        due_date_valid: true,
                        editing: TodoView { due_date: Some(dt), ..ed },
                        ..ui
                    },
                    TodoEffect::Nothing,
                ),
                None => if input.len() == 0 {
                    (
                        TodoUiView {
                            due_date_input: input,
                            due_date_valid: true,
                            editing: TodoView { due_date: None, ..ed },
                            ..ui
                        },
                        TodoEffect::Nothing,
                    )
                } else {
                    (TodoUiView { due_date_input: input, due_date_valid: false, ..ui }, TodoEffect::Nothing)
                },
            }
        },
        TodoFocus::Member => (
            TodoUiView { editing: TodoView { member: opt_text_after(ed.member, code, true), ..ed }, ..ui },
            TodoEffect::Nothing,
        ),
        TodoFocus::Topic => (
            TodoUiView { editing: TodoView { topic: opt_text_after(ed.topic, code, true), ..ed }, ..ui },
            TodoEffect::Nothing,
        ),
        TodoFocus::TagName => (
            TodoUiView { tag_name_input: word_after(ui.tag_name_input, code), ..ui },
            TodoEffect::Nothing,
        ),
        TodoFocus::TagHex => (
            TodoUiView { tag_hex_input: hex_after(ui.tag_hex_input, code), ..ui },
            TodoEffect::Nothing,
        ),
        TodoFocus::TagAdd => if is_press(code) {
            match tag_of_inputs(ui.tag_name_input, ui.tag_hex_input) {
                Some(t) => (
                    TodoUiView {
                        editing: TodoView { tags: ed.tags.push(t), ..ed },
                        tag_name_input: Seq::empty(),
                        tag_hex_input: Seq::empty(),
                        ..ui
                    },
                    TodoEffect::Nothing,
                ),
                None => (ui, TodoEffect::Nothing),
            }
        } else {
            (ui, TodoEffect::Nothing)
        },
        TodoFocus::Save => if is_press(code) {
            (TodoUiView { mode: TodoMode::Load, ..ui }, TodoEffect::SaveEditingAndReload)
        } else {
            (ui, TodoEffect::Nothing)
        },
        TodoFocus::New => if is_press(code) {
            (todo_form_reset(ui, id, now), TodoEffect::Nothing)
        } else {
            (ui, TodoEffect::Nothing)
        },
        TodoFocus::Load => if is_press(code) {
            (TodoUiView { list_selected: 0, mode: TodoMode::Load, ..ui }, TodoEffect::Reload)
        } else {
            (ui, TodoEffect::Nothing)
        },
    }
}

/// The task form after a key: Ctrl with n/Down or p/Up moves the focus from any field,
/// plain Up and Down do so outside the description, Esc goes back to the list, `q`
/// quits outside the text fields, and any other key goes to the focused field.
pub open spec fn todo_edit_step(ui: TodoUiView, key: KeyEvent, now: i64, id: u128) -> (TodoUiView, TodoEffect) {
    let code = key.code;
    if key.modifiers.control && (code == KeyCode::Char('n') || code == KeyCode::Down) {
        (TodoUiView { focus: todo_focus_next(ui.focus), ..ui }, TodoEffect::Nothing)
    } else if key.modifiers.control && (code == KeyCode::Char('p') || code == KeyCode::Up) {
        (TodoUiView { focus: todo_focus_prev(ui.focus), ..ui }, TodoEffect::Nothing)
    } else if ui.focus != TodoFocus::Description && code == KeyCode::Up {
        (TodoUiView { focus: todo_focus_prev(ui.focus), ..ui }, TodoEffect::Nothing)
    } else if ui.focus != TodoFocus::Description && code == KeyCode::Down {
        (TodoUiView { focus: todo_focus_next(ui.focus), ..ui }, TodoEffect::Nothing)
    } else if code == KeyCode::Esc {
        (TodoUiView { mode: TodoMode::Load, ..ui }, TodoEffect::Nothing)
    } else if code == KeyCode::Char('q') && !todo_text_field(ui.focus) {
        (ui, TodoEffect::QuitAndSave)
    } else {
        todo_field_step(ui, code, now, id)
    }
}

/// Handles a key on the task form at time `now`; a new task gets the identifier `id`.
fn handle_todo_edit_key(ui: &mut TodoUi, key: KeyEvent, now: i64, id: u128) -> (e: TodoEffect)
    requires
        todo_ui_wf(old(ui)@),
    ensures
        (final(ui)@, e) == todo_edit_step(old(ui)@, key, now, id),
        todo_ui_wf(final(ui)@),
{
    let code = key.code;
    if key.modifiers.control && (code == KeyCode::Char('n') || code == KeyCode::Down) {
        ui.focus = ui.focus.next();
        return TodoEffect::Nothing;
    }
    if key.modifiers.control && (code == KeyCode::Char('p') || code == KeyCode::Up) {
        ui.focus = ui.focus.prev();
        return TodoEffect::Nothing;
    }
    if ui.focus != TodoFocus::Description {
        match code {
            KeyCode::Up => {
                ui.focus = ui.focus.prev();
                return TodoEffect::Nothing;
            },
            KeyCode::Down => {
                ui.focus = ui.focus.next();
                return TodoEffect::Nothing;
            },
            _ => {},
        }
    }
    if code == KeyCode::Esc {
        ui.mode = TodoMode::Load;
        return TodoEffect::Nothing;
    }
    let text_field = match ui.focus {
        TodoFocus::Title | TodoFocus::Description | TodoFocus::TagName | TodoFocus::TagHex
        | TodoFocus::Member | TodoFocus::Topic | TodoFocus::DueDate => true,
        _ => false,
    };
    if code == KeyCode::Char('q') && !text_field {
        return TodoEffect::QuitAndSave;
    }
    let pressed = code == KeyCode::Enter || code == KeyCode::Char(' ');
    match ui.focus {
        TodoFocus::Title => {
            edit_text(&mut ui.editing.title, code);
        },
        TodoFocus::Description => {
            edit_opt_text(&mut ui.editing.description, code, false);
        },
        TodoFocus::Status => {
            if code == KeyCode::Left || code == KeyCode::Right || code == KeyCode::Enter {
                ui.editing.status = !ui.editing.status;
                ui.editing.completed_at = if ui.editing.status { Some(now) } else { None };
            }
        },
        TodoFocus::Priority => {
            if code == KeyCode::Left {
                ui.editing.priority = ui.editing.priority.prev();
            } else if code == KeyCode::Right {
                ui.editing.priority = ui.editing.priority.next();
            }
        },
        TodoFocus::DueDate => {
            edit_text(&mut ui.due_date_input, code);
            match parse_due_date_input(ui.due_date_input.as_str()) {
                Some(dt) => {
                    ui.due_date_valid = true;
                    ui.editing.due_date = Some(dt);
                },
                None => {
                    if ui.due_date_input.as_str().is_empty() {
                        ui.due_date_valid = true;
                        ui.editing.due_date = None;
                    } else {
                        ui.due_date_valid = false;
                    }
                },
            }
        },
        TodoFocus::Member => {
            edit_opt_text(&mut ui.editing.member, code, true);
        },
        TodoFocus::Topic => {
            edit_opt_text(&mut ui.editing.topic, code, true);
        },
        TodoFocus::TagName => {
            edit_word(&mut ui.tag_name_input, code);
        },
        TodoFocus::TagHex => {
            edit_hex(&mut ui.tag_hex_input, code);
            proof {
                let s = old(ui).tag_hex_input@;
                assert(all_hex(ui.tag_hex_input@)) by {
                    if ui.tag_hex_input@.len() < s.len() {
                        assert(ui.tag_hex_input@ =~= s.drop_last());
                    }
                }
            }
        },
        TodoFocus::TagAdd => {
            if pressed {
                match take_tag(&mut ui.tag_name_input, &mut ui.tag_hex_input) {
                    Some(t) => ui.editing.add_tag(t),
                    None => {},
                }
            }
        },
        TodoFocus::Save => {
            if pressed {
                ui.mode = TodoMode::Load;
                return TodoEffect::SaveEditingAndReload;
            }
        },
        TodoFocus::New => {
            if pressed {
                ui.editing = Todo_task::new_with(
                    id,
                    now,
                    String::from_str("Untitled"),
                    None,
                    None,
                    None,
                    Vec::new(),
                    None,
                    None,
                );
                ui.tag_name_input = String::new();
                ui.tag_hex_input = String::new();
                ui.due_date_input = String::new();
                ui.due_date_valid = true;
                ui.focus = TodoFocus::Title;
                proof {
                    assert(ui.editing@.tags =~= Seq::<TagView>::empty());
                }
            }
        },
        TodoFocus::Load => {
            if pressed {
                ui.list_selected = 0;
                ui.mode = TodoMode::Load;
                return TodoEffect::Reload;
            }
        },
    }
    TodoEffect::Nothing
}

/// The todo page after a key at time `now`, a new task getting the identifier `id`.
pub open spec fn todo_key_step(ui: TodoUiView, key: KeyEvent, now: i64, id: u128) -> (TodoUiView, TodoEffect) {
    match ui.mode {
        TodoMode::Load => todo_list_step(ui, key.code, now, id),
        TodoMode::Edit => todo_edit_step(ui, key, now, id),
    }
}

/// The requirements of the todo key handlers.
pub open spec fn todo_key_ok(ui: TodoUiView) -> bool {
    todo_ui_wf(ui) && (ui.mode == TodoMode::Load ==> ui.list_selected < usize::MAX)
}

/// Handles a key on the todo page at time `now`, a new task getting the identifier
/// `id`. The caller fills an empty list from the store before a key on the list.
pub fn handle_todo_key_at(ui: &mut TodoUi, key: KeyEvent, now: i64, id: u128) -> (e: TodoEffect)
    requires
        todo_key_ok(old(ui)@),
    ensures
        (final(ui)@, e) == todo_key_step(old(ui)@, key, now, id),
{
    match ui.mode {
        TodoMode::Load => handle_todo_list_key(ui, key, now, id),
        TodoMode::Edit => handle_todo_edit_key(ui, key, now, id),
    }
}

/// Handles a key on the todo page, reading the clock and drawing a fresh identifier
/// for a new task.
pub fn handle_todo_key(ui: &mut TodoUi, key: KeyEvent) -> (e: TodoEffect)
    requires
        todo_key_ok(old(ui)@),
    ensures
        exists|now: i64, id: u128| (final(ui)@, e) == #[trigger] todo_key_step(old(ui)@, key, now, id),
{
    let now = now_micros();
    let id = new_uuid();
    handle_todo_key_at(ui, key, now, id)
}

/// An open task that is due by `now` becomes critical.
pub open spec fn escalated(t: TodoView, now: i64) -> TodoView {
    match t.due_date {
        Some(due) => if !t.status && due <= now {
            TodoView { priority: Priority::Critical, ..t }
        } else {
            t
        },
        None => t,
    }
}

/// Escalating twice at the same time is escalating once, and only open tasks that are
/// due change.
pub proof fn lemma_escalate_idempotent(t: TodoView, now: i64)
    ensures
        escalated(escalated(t, now), now) == escalated(t, now),
        escalated(t, now) != t ==> !t.status && (t.due_date matches Some(d) && d <= now),
{
}

/// Flipping a task's check box twice gives back its status; it is marked done at the
/// second flip's time when it was done, and has no completion time when it was open.
pub proof fn lemma_toggle_twice(t: TodoView, first: i64, second: i64)
    ensures
        toggled(toggled(t, first), second) == (TodoView {
            completed_at: if t.status { Some(second) } else { None },
            ..t
        }),
{
}

fn escalate_task(t: &mut Todo_task, now: i64)
    ensures
        final(t)@ == escalated(old(t)@, now),
{
    if !t.status {
        if let Some(due) = t.due_date {
            if due <= now && t.priority != Priority::Critical {
                t.priority = Priority::Critical;
            }
        }
    }
}

/// The page with every open task that is due by `now` made critical, in the list and in
/// the form.
pub open spec fn escalated_ui(ui: TodoUiView, now: i64) -> TodoUiView {
    TodoUiView {
        list: ui.list.map_values(|t: TodoView| escalated(t, now)),
        editing: escalated(ui.editing, now),
        ..ui
    }
}

/// Makes every open task of the list, and the one being edited, critical once it is due
/// by `now`.
pub fn escalate_overdue_todos_at(ui: &mut TodoUi, now: i64)
    ensures
        final(ui)@ == escalated_ui(old(ui)@, now),
{
    let mut i: usize = 0;
    let ghost start = ui.list@;
    while i < ui.list.len()
        invariant
            i <= ui.list@.len(),
            ui.list@.len() == start.len(),
            forall|k: int| 0 <= k < i ==> #[trigger] ui.list@[k]@ == escalated(start[k]@, now),
            forall|k: int| i <= k < start.len() ==> #[trigger] ui.list@[k] == start[k],
            ui.mode == old(ui).mode,
            ui.focus == old(ui).focus,
            ui.list_selected == old(ui).list_selected,
            ui.checkbox_focused == old(ui).checkbox_focused,
            ui.editing == old(ui).editing,
            ui.tag_name_input == old(ui).tag_name_input,
            ui.tag_hex_input == old(ui).tag_hex_input,
            ui.due_date_input == old(ui).due_date_input,
            ui.due_date_valid == old(ui).due_date_valid,
            start == old(ui).list@,
        decreases ui.list.len() - i,
    {
        let mut t = ui.list[i].duplicate();
        escalate_task(&mut t, now);
        ui.list.set(i, t);
        i = i + 1;
    }
    escalate_task(&mut ui.editing, now);
    proof {
        assert(ui.list@.map_values(|t: Todo_task| t@) =~= start.map_values(|t: Todo_task| t@).map_values(
            |t: TodoView| escalated(t, now),
        ));
    }
}

/// `escalate_overdue_todos_at` at the current time.
pub fn escalate_overdue_todos(ui: &mut TodoUi)
    ensures
        exists|now: i64| final(ui)@ == #[trigger] escalated_ui(old(ui)@, now),
{
    let now = now_micros();
    escalate_overdue_todos_at(ui, now);
}


/// The tag hex field holds hex digits only, and every key keeps it so: the handler types
/// only hex digits into it and otherwise empties it or leaves it.
pub proof fn lemma_todo_hex_input_stays(ui: TodoUiView, key: KeyEvent, now: i64, id: u128)
    requires
        all_hex(ui.tag_hex_input),
    ensures
        all_hex(todo_key_step(ui, key, now, id).0.tag_hex_input),
{
    crate::fields::lemma_hex_after_keeps(ui.tag_hex_input, key.code);
}


/// The rows of the todo list, as indices into the list: the open tasks in list order,
/// then the done ones in list order.
pub open spec fn shown_rows(list: Seq<TodoView>) -> Seq<usize> {
    indices_where(list.map_values(|t: TodoView| t.status), false) + indices_where(
        list.map_values(|t: TodoView| t.status),
        true,
    )
}

/// The number of open tasks.
pub open spec fn open_count(list: Seq<TodoView>) -> nat {
    indices_where(list.map_values(|t: TodoView| t.status), false).len()
}

/// On a non-empty todo list with the selection on row `k`, Enter on the title opens in
/// the form the task shown on row `k` (an open task for a row among the first
/// `open_count` rows, a done one after them), and Enter on the check box flips that
/// task's status, stamping its completion time when it becomes done, and changes no
/// other task. Up and Down move the selection by one row, staying on the first and last.
pub proof fn lemma_todo_list_keys(ui: TodoUiView, now: i64, id: u128)
    requires
        ui.mode == TodoMode::Load,
        0 < ui.list.len() <= usize::MAX,
        ui.list_selected < ui.list.len(),
    ensures
        ({
            let rows = shown_rows(ui.list);
            let j = rows[ui.list_selected as int] as int;
            &&& rows.len() == ui.list.len()
            &&& 0 <= j < ui.list.len()
            &&& ui.list_selected < open_count(ui.list) ==> !ui.list[j].status
            &&& ui.list_selected >= open_count(ui.list) ==> ui.list[j].status
            &&& !ui.checkbox_focused ==> ({
                let (r, e) = todo_list_step(ui, KeyCode::Enter, now, id);
                &&& r.editing == ui.list[j] && r.mode == TodoMode::Edit && r.list == ui.list
                &&& e == TodoEffect::Nothing
            })
            &&& ui.checkbox_focused ==> ({
                let (r, e) = todo_list_step(ui, KeyCode::Enter, now, id);
                &&& r.list.len() == ui.list.len()
                &&& r.list[j].status == !ui.list[j].status
                &&& r.list[j].completed_at == (if ui.list[j].status { None } else { Some(now) })
                &&& r.list[j].title == ui.list[j].title
                &&& forall|i: int| 0 <= i < ui.list.len() && i != j ==> #[trigger] r.list[i] == ui.list[i]
                &&& e == TodoEffect::SaveTask(j as usize)
            })
        }),
        ({
            let (r, _) = todo_list_step(ui, KeyCode::Up, now, id);
            &&& ui.list_selected > 0 ==> r.list_selected == ui.list_selected - 1
            &&& ui.list_selected == 0 ==> r.list_selected == 0
            &&& r.list == ui.list
        }),
        ({
            let (r, _) = todo_list_step(ui, KeyCode::Down, now, id);
            &&& ui.list_selected + 1 < ui.list.len() ==> r.list_selected == ui.list_selected + 1
            &&& ui.list_selected + 1 == ui.list.len() ==> r.list_selected == ui.list_selected
            &&& r.list == ui.list
        }),
{
    let flags = ui.list.map_values(|t: TodoView| t.status);
    lemma_indices_where(flags, false);
    lemma_indices_where(flags, true);
    lemma_indices_where_len(flags);
    let a = indices_where(flags, false);
    let b = indices_where(flags, true);
    let rows = shown_rows(ui.list);
    let k = ui.list_selected as int;
    if k < a.len() {
        assert(rows[k] == a[k]);
    } else {
        assert(rows[k] == b[k - a.len()]);
    }
}

} // verus!
