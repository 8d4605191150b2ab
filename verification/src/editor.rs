use vstd::prelude::*;
use ropey::Rope;
use crate::keys::{KeyCode, KeyEvent};
use crate::text::{
    byte_range_chars, byte_range_string, char_is_uppercase, char_lowercase_first, char_uppercase_first,
    is_uppercase, lowercase_first, uppercase_first,
};
use unicode_segmentation::UnicodeSegmentation;
use vstd::string::StringSliceAdditionalSpecFns;
use vstd::utf8::{is_ascii_chars, encode_utf8};
use crate::rope::{
    rope_char, rope_from_str, rope_insert, rope_insert_char, rope_len_chars, rope_len_lines,
    rope_line_count, rope_line_len, rope_line_start, rope_line_to_char, rope_remove, rope_slice_string,
    rope_text,
};

verus! {

/// Plain arrow-key editing, or modal vim editing.
#[derive(Debug, PartialEq, Eq, Hash, Clone, Copy, Structural)]
pub enum EditorMode {
    Normal,
    Vim,
}

/// The two vim sub-modes that are emulated.
#[derive(Debug, PartialEq, Eq, Clone, Copy, Structural)]
pub enum Vim_mode {
    Normal,
    Insert,
}

/// The first key(s) of a vim command that waits for more keys.
#[derive(Debug, PartialEq, Eq, Clone, Copy, Structural)]
pub enum Pending {
    Idle,
    G,
    Y,
    YI,
    D,
    DI,
    R,
}

/// Vim state: sub-mode, pending command, and the yank register (whole line or not).
pub struct Vimstate {
    pub submode: Vim_mode,
    pub pending: Pending,
    pub register: String,
    pub register_line: bool,
}

impl Default for Vimstate {
    fn default() -> (v: Vimstate)
        ensures
            v.submode == Vim_mode::Normal,
            v.pending == Pending::Idle,
            v.register@ == Seq::<char>::empty(),
            !v.register_line,
    {
        Vimstate { submode: Vim_mode::Normal, pending: Pending::Idle, register: String::new(), register_line: false }
    }
}

/// A text buffer with a cursor at column `cursor_x` of line `cursor_y`.
pub struct EditorState {
    pub mode: EditorMode,
    pub cursor_x: usize,
    pub cursor_y: usize,
    pub dirty: bool,
    pub buffer: Rope,
    pub vim: Vimstate,
}

/// The abstract content of an editor.
pub struct EditorView {
    pub mode: EditorMode,
    pub x: usize,
    pub y: usize,
    pub dirty: bool,
    pub text: Seq<char>,
    pub submode: Vim_mode,
    pub pending: Pending,
    pub register: Seq<char>,
    pub register_line: bool,
}

impl View for EditorState {
    type V = EditorView;

    open spec fn view(&self) -> EditorView {
        EditorView {
            mode: self.mode,
            x: self.cursor_x,
            y: self.cursor_y,
            dirty: self.dirty,
            text: rope_text(self.buffer),
            submode: self.vim.submode,
            pending: self.vim.pending,
            register: self.vim.register@,
            register_line: self.vim.register_line,
        }
    }
}

impl Default for EditorState {
    fn default() -> (e: EditorState)
        ensures
            e@.mode == EditorMode::Normal,
            e@.x == 0 && e@.y == 0 && !e@.dirty,
            e@.text == "Start Typing\nRope"@,
            e@.submode == Vim_mode::Normal,
            e@.pending == Pending::Idle,
            e@.register == Seq::<char>::empty(),
            !e@.register_line,
    {
        EditorState {
            mode: EditorMode::Normal,
            cursor_x: 0,
            cursor_y: 0,
            dirty: false,
            buffer: rope_from_str("Start Typing\nRope"),
            vim: Vimstate::default(),
        }
    }
}

// ------------------------------------------------------------------------
// Lines and the cursor
// ------------------------------------------------------------------------

pub open spec fn sat_dec(n: usize) -> usize {
    if n == 0 {
        0
    } else {
        (n - 1) as usize
    }
}

pub open spec fn min_int(a: int, b: int) -> int {
    if a <= b {
        a
    } else {
        b
    }
}

/// The number of chars of line `y`, its line break included.
pub open spec fn line_len(t: Seq<char>, y: int) -> int {
    rope_line_start(t, (y + 1) as nat) - rope_line_start(t, y as nat)
}

/// The number of chars of line `y` without its trailing line break: one less than
/// `line_len` on every line but the last.
pub open spec fn line_len_nl(t: Seq<char>, y: int) -> int {
    if y + 1 < rope_line_count(t) {
        if line_len(t, y) >= 1 {
            line_len(t, y) - 1
        } else {
            0
        }
    } else {
        line_len(t, y)
    }
}

/// The last line.
pub open spec fn last_line(t: Seq<char>) -> int {
    rope_line_count(t) - 1
}

/// The char index of column `x` on line `y`, the line taken as the last one when `y` is
/// past it.
pub open spec fn char_index(t: Seq<char>, x: int, y: int) -> int {
    rope_line_start(t, min_int(y, last_line(t)) as nat) + x
}

/// Whether the caret may rest just past the last char of a line: always in plain
/// editing and in vim insert mode, never in vim normal mode.
pub open spec fn rests_past_end(mode: EditorMode, submode: Vim_mode) -> bool {
    mode == EditorMode::Normal || (mode == EditorMode::Vim && submode == Vim_mode::Insert)
}

/// The editor with its cursor moved onto the text: the line at most the last one, the
/// column at most the line's length (one less in vim normal mode).
pub open spec fn clamp(v: EditorView) -> EditorView {
    let y = min_int(v.y as int, last_line(v.text));
    let len = line_len_nl(v.text, y);
    let max_x = if rests_past_end(v.mode, v.submode) {
        len
    } else if len >= 1 {
        len - 1
    } else {
        0
    };
    EditorView { x: min_int(v.x as int, max_x) as usize, y: y as usize, ..v }
}

/// The largest column the cursor may rest on, on line `y`.
pub open spec fn max_col(v: EditorView, y: int) -> int {
    let len = line_len_nl(v.text, y);
    if rests_past_end(v.mode, v.submode) {
        len
    } else if len >= 1 {
        len - 1
    } else {
        0
    }
}

/// The cursor rests on the text: on an existing line, at most at that line's last column.
pub open spec fn cursor_on_text(v: EditorView) -> bool {
    &&& v.y < rope_line_count(v.text)
    &&& line_len_nl(v.text, v.y as int) >= 0
    &&& rope_line_start(v.text, v.y as nat) + line_len_nl(v.text, v.y as int) <= v.text.len()
    &&& v.x <= max_col(v, v.y as int)
}

/// The char index of the cursor.
pub fn cursor_char_idx(editor: &EditorState) -> (i: usize)
    requires
        char_index(editor@.text, editor@.x as int, editor@.y as int) <= usize::MAX,
    ensures
        i == char_index(editor@.text, editor@.x as int, editor@.y as int),
{
    let lines = rope_len_lines(&editor.buffer);
    let y = if editor.cursor_y < lines - 1 { editor.cursor_y } else { lines - 1 };
    let line_start = rope_line_to_char(&editor.buffer, y);
    line_start + editor.cursor_x
}

/// The number of chars of line `y` without its trailing line break.
pub fn line_len_no_newline(rope: &Rope, y: usize) -> (n: usize)
    requires
        y < rope_line_count(rope_text(*rope)),
    ensures
        n == line_len_nl(rope_text(*rope), y as int),
        n + rope_line_start(rope_text(*rope), y as nat) <= rope_text(*rope).len(),
{
    let len = rope_line_len(rope, y);
    let lines = rope_len_lines(rope);
    if y + 1 < lines {
        if len >= 1 {
            len - 1
        } else {
            0
        }
    } else {
        len
    }
}

/// Moves the cursor onto the text.
pub fn clamp_cursor(editor: &mut EditorState)
    ensures
        final(editor)@ == clamp(old(editor)@),
        cursor_on_text(final(editor)@),
{
    let max_line = rope_len_lines(&editor.buffer) - 1;
    if editor.cursor_y > max_line {
        editor.cursor_y = max_line;
    }
    let len = line_len_no_newline(&editor.buffer, editor.cursor_y);
    let caret_rests_past_end = editor.mode == EditorMode::Normal || (editor.mode == EditorMode::Vim
        && editor.vim.submode == Vim_mode::Insert);
    let max_x = if caret_rests_past_end {
        len
    } else if len >= 1 {
        len - 1
    } else {
        0
    };
    if editor.cursor_x > max_x {
        editor.cursor_x = max_x;
    }
}

/// Clamping an editor whose cursor is on the text changes nothing.
pub proof fn lemma_clamp_keeps_cursor_on_text(v: EditorView)
    requires
        cursor_on_text(v),
    ensures
        clamp(v) == v,
{
}

/// From a cursor on the text, typing a char, deleting before the cursor and breaking
/// the line are all accepted, given room in the coordinates.
pub proof fn lemma_cursor_on_text_edits_ok(v: EditorView, c: char)
    requires
        cursor_on_text(v),
        v.text.len() <= usize::MAX,
        v.x < usize::MAX,
        v.y < usize::MAX,
    ensures
        plain_ok(v, KeyCode::Char(c)),
        plain_ok(v, KeyCode::Backspace),
        plain_ok(v, KeyCode::Enter),
        plain_ok(v, KeyCode::End),
{
    assert(min_int(v.y as int, last_line(v.text)) == v.y);
}

// ------------------------------------------------------------------------
// Plain editing
// ------------------------------------------------------------------------

/// What a key does in plain editing, before the cursor is clamped.
pub open spec fn plain_step(v: EditorView, code: KeyCode) -> EditorView {
    let idx = char_index(v.text, v.x as int, v.y as int);
    match code {
        KeyCode::Left => EditorView { x: sat_dec(v.x), ..v },
        KeyCode::Right => EditorView { x: (v.x + 1) as usize, ..v },
        KeyCode::Up => EditorView { y: sat_dec(v.y), ..v },
        KeyCode::Down => EditorView { y: (v.y + 1) as usize, ..v },
        KeyCode::Char(c) => EditorView { text: v.text.insert(idx, c), x: (v.x + 1) as usize, dirty: true, ..v },
        KeyCode::Backspace => if idx > 0 {
            EditorView { text: v.text.take(idx - 1) + v.text.skip(idx), x: sat_dec(v.x), dirty: true, ..v }
        } else {
            v
        },
        KeyCode::Enter => EditorView { text: v.text.insert(idx, '\n'), y: (v.y + 1) as usize, x: 0, dirty: true, ..v },
        KeyCode::Home => EditorView { x: 0, ..v },
        KeyCode::End => EditorView { x: line_len_nl(v.text, v.y as int) as usize, ..v },
        _ => v,
    }
}

/// The keys on which plain editing stays within the text and within machine integers:
/// an edit needs the cursor's char index inside the text (whose length a `usize`
/// holds), `End` a cursor on an existing line, and a move right or down a coordinate
/// below the largest `usize`.
pub open spec fn plain_ok(v: EditorView, code: KeyCode) -> bool {
    let idx = char_index(v.text, v.x as int, v.y as int);
    match code {
        KeyCode::Right => v.x < usize::MAX,
        KeyCode::Down => v.y < usize::MAX,
        KeyCode::Char(_) => idx <= v.text.len() <= usize::MAX && v.x < usize::MAX,
        KeyCode::Backspace => idx <= v.text.len() <= usize::MAX,
        KeyCode::Enter => idx <= v.text.len() <= usize::MAX && v.y < usize::MAX,
        KeyCode::End => v.y < rope_line_count(v.text),
        _ => true,
    }
}

/// Edits shared by plain editing and vim insert mode.
fn apply_text_key(editor: &mut EditorState, code: KeyCode)
    requires
        plain_ok(old(editor)@, code),
    ensures
        final(editor)@ == plain_step(old(editor)@, code),
{
    match code {
        KeyCode::Left => {
            if editor.cursor_x > 0 {
                editor.cursor_x = editor.cursor_x - 1;
            }
        },
        KeyCode::Right => editor.cursor_x = editor.cursor_x + 1,
        KeyCode::Up => {
            if editor.cursor_y > 0 {
                editor.cursor_y = editor.cursor_y - 1;
            }
        },
        KeyCode::Down => editor.cursor_y = editor.cursor_y + 1,
        KeyCode::Char(c) => {
            let idx = cursor_char_idx(editor);
            rope_insert_char(&mut editor.buffer, idx, c);
            editor.cursor_x = editor.cursor_x + 1;
            editor.dirty = true;
        },
        KeyCode::Backspace => {
            let idx = cursor_char_idx(editor);
            if idx > 0 {
                rope_remove(&mut editor.buffer, idx - 1, idx);
                if editor.cursor_x > 0 {
                    editor.cursor_x = editor.cursor_x - 1;
                }
                editor.dirty = true;
            }
        },
        KeyCode::Enter => {
            let idx = cursor_char_idx(editor);
            rope_insert_char(&mut editor.buffer, idx, '\n');
            editor.cursor_y = editor.cursor_y + 1;
            editor.cursor_x = 0;
            editor.dirty = true;
        },
        KeyCode::Home => editor.cursor_x = 0,
        KeyCode::End => editor.cursor_x = line_len_no_newline(&editor.buffer, editor.cursor_y),
        _ => {},
    }
}

/// Plain editing: arrows move, chars are typed at the cursor, Backspace deletes before
/// it, Enter breaks the line, Home and End go to the line's ends; the cursor is then
/// moved onto the text.
pub fn handle_plain_editor_key(editor: &mut EditorState, key: KeyEvent)
    requires
        plain_ok(old(editor)@, key.code),
    ensures
        final(editor)@ == clamp(plain_step(old(editor)@, key.code)),
        cursor_on_text(final(editor)@),
{
    apply_text_key(editor, key.code);
    clamp_cursor(editor);
}

// ------------------------------------------------------------------------
// Words
// ------------------------------------------------------------------------

/// What `split_word_bound_indices` yields for a line: each piece's byte offset and chars.
pub uninterp spec fn word_bound_pieces(line: Seq<char>) -> Seq<(usize, Seq<char>)>;

/// The chars of the pieces, put together in order.
pub open spec fn flat(ps: Seq<(usize, Seq<char>)>) -> Seq<char>
    decreases ps.len(),
{
    if ps.len() == 0 {
        Seq::empty()
    } else {
        flat(ps.drop_last()) + ps.last().1
    }
}

/// The pieces put together are the line, and each piece's offset is the byte length of
/// the pieces before it.
pub open spec fn pieces_tile(ps: Seq<(usize, Seq<char>)>, line: Seq<char>) -> bool {
    &&& flat(ps) == line
    &&& forall|i: int| 0 <= i < ps.len() ==> (#[trigger] ps[i]).0 == encode_utf8(flat(ps.take(i))).len()
}

pub open spec fn pieces_view(v: Seq<(usize, String)>) -> Seq<(usize, Seq<char>)> {
    v.map_values(|p: (usize, String)| (p.0, p.1@))
}

proof fn lemma_flat_step(ps: Seq<(usize, Seq<char>)>, i: int)
    requires
        0 <= i < ps.len(),
    ensures
        flat(ps.take(i + 1)) == flat(ps.take(i)) + ps[i].1,
{
    assert(ps.take(i + 1).drop_last() =~= ps.take(i));
}

/// What the first pieces put together is a prefix of what all of them put together is.
proof fn lemma_flat_prefix(ps: Seq<(usize, Seq<char>)>, i: int)
    requires
        0 <= i <= ps.len(),
    ensures
        flat(ps.take(i)).len() <= flat(ps).len(),
        flat(ps).take(flat(ps.take(i)).len() as int) == flat(ps.take(i)),
    decreases ps.len() - i,
{
    if i == ps.len() {
        assert(ps.take(i) =~= ps);
        assert(flat(ps).take(flat(ps).len() as int) =~= flat(ps));
    } else {
        lemma_flat_prefix(ps, i + 1);
        lemma_flat_step(ps, i);
        let a = flat(ps.take(i));
        let b = flat(ps.take(i + 1));
        assert(b.take(a.len() as int) =~= a);
        assert(flat(ps).take(a.len() as int) =~= flat(ps).take(b.len() as int).take(a.len() as int));
    }
}

/// In an ASCII line that the pieces tile, a column inside the line lies in the piece
/// `span_at` picks from piece `i` on, once the pieces before `i` end at or before it.
proof fn lemma_span_in_piece(ps: Seq<(usize, Seq<char>)>, line: Seq<char>, i: int, col: usize) -> (k: int)
    requires
        pieces_tile(ps, line),
        is_ascii_chars(line),
        0 <= i <= ps.len(),
        flat(ps.take(i)).len() <= col < line.len(),
    ensures
        i <= k < ps.len(),
        span_at(ps.skip(i), col) == (ps[k].0, (ps[k].0 + ps[k].1.len()) as usize),
        ps[k].0 <= col < ps[k].0 + ps[k].1.len() <= line.len(),
        line.subrange(ps[k].0 as int, ps[k].0 + ps[k].1.len()) == ps[k].1,
    decreases ps.len() - i,
{
    broadcast use vstd::utf8::is_ascii_chars_encode_utf8;
    if i == ps.len() {
        assert(ps.take(i) =~= ps);
        assert(false);
    }
    lemma_flat_prefix(ps, i);
    lemma_flat_prefix(ps, i + 1);
    lemma_flat_step(ps, i);
    let a = flat(ps.take(i));
    let b = flat(ps.take(i + 1));
    assert(is_ascii_chars(a)) by {
        assert forall|j: int| 0 <= j < a.len() implies '\0' <= #[trigger] a[j] <= '\u{7f}' by {
            assert(a[j] == line.take(a.len() as int)[j]);
        }
    }
    assert(ps[i].0 == a.len());
    assert(ps.skip(i)[0] == ps[i]);
    assert(line.subrange(a.len() as int, b.len() as int) =~= ps[i].1) by {
        assert forall|j: int| 0 <= j < ps[i].1.len() implies line[a.len() + j] == #[trigger] ps[i].1[j] by {
            assert(line.take(b.len() as int)[a.len() + j] == b[a.len() + j]);
        }
    }
    if col < b.len() {
        i
    } else {
        lemma_span_at_skip(ps, i, col);
        lemma_span_in_piece(ps, line, i + 1, col)
    }
}

/// `UnicodeSegmentation::split_word_bound_indices`: the pieces between the line's word
/// boundaries, each with its byte offset. Each piece is a slice of the line, so its
/// offset plus its char count stays within the line's byte length, which a `usize` holds;
/// the pieces put together in order are the line, so each starts at the byte length of
/// those before it.
#[verifier::external_body]
fn word_pieces(line: &str) -> (r: Vec<(usize, String)>)
    ensures
        r@.len() == word_bound_pieces(line@).len(),
        forall|i: int| 0 <= i < r@.len() ==> (#[trigger] r@[i]).0 == word_bound_pieces(line@)[i].0
            && r@[i].1@ == word_bound_pieces(line@)[i].1,
        forall|i: int| 0 <= i < r@.len() ==> (#[trigger] r@[i]).0 + r@[i].1@.len() <= line.spec_bytes().len()
            && r@[i].0 + r@[i].1@.len() <= usize::MAX,
        pieces_tile(pieces_view(r@), line@),
{
    line.split_word_bound_indices().map(|(i, w)| (i, w.to_string())).collect()
}

/// The span `start..start + chars` of the first piece holding column `col`, or
/// `col..col + 1` when none does.
pub open spec fn span_at(pieces: Seq<(usize, Seq<char>)>, col: usize) -> (usize, usize)
    decreases pieces.len(),
{
    if pieces.len() == 0 {
        (col, (col + 1) as usize)
    } else {
        let start = pieces[0].0;
        let end = start + pieces[0].1.len();
        if col >= start && col < end {
            (start, end as usize)
        } else {
            span_at(pieces.skip(1), col)
        }
    }
}

proof fn lemma_span_at_skip(pieces: Seq<(usize, Seq<char>)>, i: int, col: usize)
    requires
        0 <= i < pieces.len(),
        !(col >= pieces[i].0 && col < pieces[i].0 + pieces[i].1.len()),
    ensures
        span_at(pieces.skip(i), col) == span_at(pieces.skip(i + 1), col),
{
    assert(pieces.skip(i).skip(1) =~= pieces.skip(i + 1));
}

/// The span of the word piece under column `col` of `line`.
pub fn word_bounds_at(line: &str, col: usize) -> (r: (usize, usize))
    requires
        col < usize::MAX,
    ensures
        r == span_at(word_bound_pieces(line@), col),
        r.0 <= col < r.1,
        line.is_ascii() && col < line@.len() ==> r.1 <= line@.len() && exists|k: int|
            0 <= k < word_bound_pieces(line@).len() && #[trigger] word_bound_pieces(line@)[k].0 == r.0
                && line@.subrange(r.0 as int, r.1 as int) == word_bound_pieces(line@)[k].1,
{
    let pieces = word_pieces(line);
    let ghost ps = word_bound_pieces(line@);
    proof {
        assert(pieces_view(pieces@) =~= ps);
        if line.is_ascii() && col < line@.len() {
            assert(ps.take(0) =~= Seq::<(usize, Seq<char>)>::empty());
            assert(ps.skip(0) =~= ps);
            let k = lemma_span_in_piece(ps, line@, 0, col);
            let sp = span_at(ps, col);
            assert(ps[k].0 == sp.0 && line@.subrange(sp.0 as int, sp.1 as int) == ps[k].1);
        }
        assert(line.is_ascii() && col < line@.len() ==> span_at(ps, col).1 <= line@.len() && exists|k: int|
            0 <= k < ps.len() && #[trigger] ps[k].0 == span_at(ps, col).0
                && line@.subrange(span_at(ps, col).0 as int, span_at(ps, col).1 as int) == ps[k].1);
    }
    let mut i: usize = 0;
    assert(ps.skip(0) =~= ps);
    while i < pieces.len()
        invariant
            i <= pieces@.len(),
            ps == word_bound_pieces(line@),
            col < usize::MAX,
            pieces@.len() == ps.len(),
            forall|k: int| 0 <= k < pieces@.len() ==> (#[trigger] pieces@[k]).0 == ps[k].0 && pieces@[k].1@ == ps[k].1,
            forall|k: int| 0 <= k < pieces@.len() ==> (#[trigger] pieces@[k]).0 + pieces@[k].1@.len() <= usize::MAX,
            span_at(ps, col) == span_at(ps.skip(i as int), col),
            line.is_ascii() && col < line@.len() ==> span_at(ps, col).1 <= line@.len() && exists|k: int|
                0 <= k < ps.len() && #[trigger] ps[k].0 == span_at(ps, col).0
                    && line@.subrange(span_at(ps, col).0 as int, span_at(ps, col).1 as int) == ps[k].1,
        decreases pieces.len() - i,
    {
        let start = pieces[i].0;
        let count = pieces[i].1.as_str().unicode_len();
        let end = start + count;
        assert(ps.skip(i as int)[0] == ps[i as int]);
        assert(count == ps[i as int].1.len());
        assert(ps.skip(i as int).len() > 0);
        if col >= start && col < end {
            assert(span_at(ps.skip(i as int), col) == (start, end));
            return (start, end);
        }
        proof {
            lemma_span_at_skip(ps, i as int, col);
        }
        i = i + 1;
    }
    assert(ps.skip(i as int) =~= Seq::<(usize, Seq<char>)>::empty());
    (col, col + 1)
}

// ------------------------------------------------------------------------
// Vim commands
// ------------------------------------------------------------------------

/// The chars of the cursor's line without its trailing line break.
pub open spec fn cur_line(v: EditorView) -> Seq<char> {
    let start = rope_line_start(v.text, v.y as nat);
    v.text.subrange(start as int, start + line_len_nl(v.text, v.y as int))
}

pub open spec fn yank_line_spec(v: EditorView) -> EditorView {
    EditorView { register: cur_line(v).push('\n'), register_line: true, ..v }
}

pub open spec fn delete_line_spec(v: EditorView) -> EditorView {
    let start = rope_line_start(v.text, v.y as nat);
    let end = rope_line_start(v.text, min_int(v.y + 1, rope_line_count(v.text) as int) as nat);
    EditorView { text: v.text.take(start as int) + v.text.skip(end as int), dirty: true, ..yank_line_spec(v) }
}

pub open spec fn word_span(v: EditorView) -> (usize, usize) {
    span_at(word_bound_pieces(cur_line(v)), v.x)
}

pub open spec fn yank_word_spec(v: EditorView) -> EditorView {
    let (s, e) = word_span(v);
    EditorView { register: byte_range_chars(cur_line(v), s as int, e as int), register_line: false, ..v }
}

pub open spec fn delete_word_spec(v: EditorView) -> EditorView {
    let (s, e) = word_span(v);
    let ls = rope_line_start(v.text, v.y as nat);
    EditorView {
        text: v.text.take(ls + s) + v.text.skip(ls + e),
        x: s,
        dirty: true,
        ..yank_word_spec(v)
    }
}

pub open spec fn replace_spec(v: EditorView, c: char) -> EditorView {
    let idx = char_index(v.text, v.x as int, v.y as int);
    if idx < v.text.len() {
        EditorView { text: v.text.update(idx, c), dirty: true, ..v }
    } else {
        v
    }
}

pub open spec fn toggled(c: char) -> char {
    if char_is_uppercase(c) {
        char_lowercase_first(c)
    } else {
        char_uppercase_first(c)
    }
}

pub open spec fn toggle_spec(v: EditorView) -> EditorView {
    let idx = char_index(v.text, v.x as int, v.y as int);
    if idx < v.text.len() {
        EditorView { text: v.text.update(idx, toggled(v.text[idx])), x: (v.x + 1) as usize, dirty: true, ..v }
    } else {
        v
    }
}

pub open spec fn open_above_spec(v: EditorView) -> EditorView {
    let ls = rope_line_start(v.text, v.y as nat);
    EditorView { text: v.text.insert(ls as int, '\n'), x: 0, submode: Vim_mode::Insert, dirty: true, ..v }
}

pub open spec fn paste_spec(v: EditorView) -> EditorView {
    if v.register.len() == 0 {
        v
    } else if v.register_line {
        let nl = rope_line_start(v.text, min_int(v.y + 1, rope_line_count(v.text) as int) as nat);
        EditorView {
            text: v.text.take(nl as int) + v.register + v.text.skip(nl as int),
            y: (v.y + 1) as usize,
            x: 0,
            dirty: true,
            ..v
        }
    } else {
        let idx = min_int(char_index(v.text, v.x as int, v.y as int) + 1, v.text.len() as int);
        EditorView {
            text: v.text.take(idx) + v.register + v.text.skip(idx),
            x: (v.x + 1) as usize,
            dirty: true,
            ..v
        }
    }
}

/// Where the commands on the cursor's line stay within the text and machine integers.
pub open spec fn line_cmd_ok(v: EditorView) -> bool {
    v.y < rope_line_count(v.text) && v.text.len() <= usize::MAX
}

pub open spec fn word_cmd_ok(v: EditorView) -> bool {
    line_cmd_ok(v) && v.x < usize::MAX
}

pub open spec fn delete_word_ok(v: EditorView) -> bool {
    word_cmd_ok(v) && rope_line_start(v.text, v.y as nat) + word_span(v).1 <= v.text.len()
}

pub open spec fn cursor_cmd_ok(v: EditorView) -> bool {
    char_index(v.text, v.x as int, v.y as int) <= usize::MAX && v.text.len() <= usize::MAX
}

pub open spec fn toggle_ok(v: EditorView) -> bool {
    cursor_cmd_ok(v) && (char_index(v.text, v.x as int, v.y as int) < v.text.len() ==> v.x < usize::MAX)
}

pub open spec fn paste_ok(v: EditorView) -> bool {
    v.text.len() <= usize::MAX && (v.register.len() > 0 ==> if v.register_line {
        v.y < usize::MAX
    } else {
        char_index(v.text, v.x as int, v.y as int) < usize::MAX && v.x < usize::MAX
    })
}

/// The chars of the cursor's line without its line break.
fn current_line_string(editor: &EditorState) -> (s: String)
    requires
        line_cmd_ok(editor@),
    ensures
        s@ == cur_line(editor@),
{
    let len = line_len_no_newline(&editor.buffer, editor.cursor_y);
    let start = rope_line_to_char(&editor.buffer, editor.cursor_y);
    rope_slice_string(&editor.buffer, start, start + len)
}

/// `yy`: copies the cursor's line, with a line break, into the register as a whole line.
fn yank_line(editor: &mut EditorState)
    requires
        line_cmd_ok(old(editor)@),
    ensures
        final(editor)@ == yank_line_spec(old(editor)@),
{
    let mut line = current_line_string(editor);
    crate::text::push_char(&mut line, '\n');
    editor.vim.register = line;
    editor.vim.register_line = true;
}

/// `dd`: yanks the cursor's line, then removes it with its line break.
fn delete_line(editor: &mut EditorState)
    requires
        line_cmd_ok(old(editor)@),
    ensures
        final(editor)@ == delete_line_spec(old(editor)@),
{
    yank_line(editor);
    let start = rope_line_to_char(&editor.buffer, editor.cursor_y);
    let lines = rope_len_lines(&editor.buffer);
    let next = if editor.cursor_y + 1 < lines { editor.cursor_y + 1 } else { lines };
    let end = rope_line_to_char(&editor.buffer, next);
    rope_remove(&mut editor.buffer, start, end);
    if rope_len_lines(&editor.buffer) == 0 {
        editor.buffer = rope_from_str("\n");
    }
    editor.dirty = true;
}

/// `yiw`: copies the word piece under the cursor into the register.
fn yank_inner_word(editor: &mut EditorState)
    requires
        word_cmd_ok(old(editor)@),
    ensures
        final(editor)@ == yank_word_spec(old(editor)@),
{
    let line = current_line_string(editor);
    let (s, e) = word_bounds_at(line.as_str(), editor.cursor_x);
    editor.vim.register = byte_range_string(line.as_str(), s, e);
    editor.vim.register_line = false;
}

/// `diw`: yanks the word piece under the cursor, removes it, and puts the cursor at its start.
fn delete_inner_word(editor: &mut EditorState)
    requires
        delete_word_ok(old(editor)@),
    ensures
        final(editor)@ == delete_word_spec(old(editor)@),
{
    let line = current_line_string(editor);
    let (s, e) = word_bounds_at(line.as_str(), editor.cursor_x);
    editor.vim.register = byte_range_string(line.as_str(), s, e);
    editor.vim.register_line = false;
    let line_start = rope_line_to_char(&editor.buffer, editor.cursor_y);
    rope_remove(&mut editor.buffer, line_start + s, line_start + e);
    editor.cursor_x = s;
    editor.dirty = true;
}

/// `r`: replaces the char under the cursor.
fn replace_char_under_cursor(editor: &mut EditorState, c: char)
    requires
        cursor_cmd_ok(old(editor)@),
    ensures
        final(editor)@ == replace_spec(old(editor)@, c),
{
    let idx = cursor_char_idx(editor);
    if idx < rope_len_chars(&editor.buffer) {
        rope_remove(&mut editor.buffer, idx, idx + 1);
        rope_insert_char(&mut editor.buffer, idx, c);
        assert(rope_text(editor.buffer) =~= old(editor)@.text.update(idx as int, c));
        editor.dirty = true;
    }
}

/// `~`: switches the letter case of the char under the cursor and moves past it.
fn toggle_case_under_cursor(editor: &mut EditorState)
    requires
        toggle_ok(old(editor)@),
    ensures
        final(editor)@ == toggle_spec(old(editor)@),
{
    let idx = cursor_char_idx(editor);
    if idx < rope_len_chars(&editor.buffer) {
        let ch = rope_char(&editor.buffer, idx);
        let toggled = if is_uppercase(ch) {
            match lowercase_first(ch) {
                Some(t) => t,
                None => ch,
            }
        } else {
            match uppercase_first(ch) {
                Some(t) => t,
                None => ch,
            }
        };
        rope_remove(&mut editor.buffer, idx, idx + 1);
        rope_insert_char(&mut editor.buffer, idx, toggled);
        assert(rope_text(editor.buffer) =~= old(editor)@.text.update(idx as int, toggled));
        editor.cursor_x = editor.cursor_x + 1;
        editor.dirty = true;
    }
}

/// `O`: opens an empty line above the cursor's line and enters insert mode on it.
fn open_line_above(editor: &mut EditorState)
    requires
        old(editor)@.y <= rope_line_count(old(editor)@.text),
    ensures
        final(editor)@ == open_above_spec(old(editor)@),
{
    let line_start = rope_line_to_char(&editor.buffer, editor.cursor_y);
    rope_insert_char(&mut editor.buffer, line_start, '\n');
    editor.cursor_x = 0;
    editor.vim.submode = Vim_mode::Insert;
    editor.dirty = true;
}

/// `p`: puts the register below the cursor's line when it holds a whole line, else
/// after the cursor.
fn paste_register(editor: &mut EditorState)
    requires
        paste_ok(old(editor)@),
    ensures
        final(editor)@ == paste_spec(old(editor)@),
{
    if editor.vim.register.as_str().unicode_len() == 0 {
        return;
    }
    if editor.vim.register_line {
        let lines = rope_len_lines(&editor.buffer);
        let next = if editor.cursor_y + 1 < lines { editor.cursor_y + 1 } else { lines };
        let next_line_start = rope_line_to_char(&editor.buffer, next);
        rope_insert(&mut editor.buffer, next_line_start, editor.vim.register.as_str());
        editor.cursor_y = editor.cursor_y + 1;
        editor.cursor_x = 0;
    } else {
        let idx = cursor_char_idx(editor) + 1;
        let len = rope_len_chars(&editor.buffer);
        let idx = if idx < len { idx } else { len };
        rope_insert(&mut editor.buffer, idx, editor.vim.register.as_str());
        editor.cursor_x = editor.cursor_x + 1;
    }
    editor.dirty = true;
}

// ------------------------------------------------------------------------
// Vim key handling
// ------------------------------------------------------------------------

/// What a key does in vim insert mode, before the cursor is clamped: `Esc` returns to
/// normal mode one column to the left; typing, deleting, line breaks, Home and End work
/// as in plain editing.
pub open spec fn vim_insert_step(v: EditorView, code: KeyCode) -> EditorView {
    match code {
        KeyCode::Esc => EditorView { submode: Vim_mode::Normal, x: sat_dec(v.x), ..v },
        KeyCode::Char(_) => plain_step(v, code),
        KeyCode::Backspace => plain_step(v, code),
        KeyCode::Enter => plain_step(v, code),
        KeyCode::Home => plain_step(v, code),
        KeyCode::End => plain_step(v, code),
        _ => v,
    }
}

pub open spec fn vim_insert_ok(v: EditorView, code: KeyCode) -> bool {
    match code {
        KeyCode::Char(_) => plain_ok(v, code),
        KeyCode::Backspace => plain_ok(v, code),
        KeyCode::Enter => plain_ok(v, code),
        KeyCode::End => plain_ok(v, code),
        _ => true,
    }
}

/// What a key does in vim normal mode, before the cursor is clamped. A pending command
/// takes the key as its second (or third) key and is then done; otherwise the key moves
/// (`hjkl`, arrows, Home, End, `gg`, `G`), starts a command (`g`, `y`, `d`, `r`), or
/// runs one (`~`, `O`, `p`, `i`).
pub open spec fn vim_normal_step(v: EditorView, code: KeyCode) -> EditorView {
    let idle = EditorView { pending: Pending::Idle, ..v };
    match v.pending {
        Pending::G => if code == KeyCode::Char('g') {
            EditorView { y: 0, x: 0, ..idle }
        } else {
            idle
        },
        Pending::Y => if code == KeyCode::Char('y') {
            yank_line_spec(idle)
        } else if code == KeyCode::Char('i') {
            EditorView { pending: Pending::YI, ..v }
        } else {
            idle
        },
        Pending::YI => if code == KeyCode::Char('w') {
            yank_word_spec(idle)
        } else {
            idle
        },
        Pending::D => if code == KeyCode::Char('d') {
            delete_line_spec(idle)
        } else if code == KeyCode::Char('i') {
            EditorView { pending: Pending::DI, ..v }
        } else {
            idle
        },
        Pending::DI => if code == KeyCode::Char('w') {
            delete_word_spec(idle)
        } else {
            idle
        },
        Pending::R => match code {
            KeyCode::Char(c) => replace_spec(idle, c),
            _ => idle,
        },
        Pending::Idle => if code == KeyCode::Char('h') || code == KeyCode::Left {
            EditorView { x: sat_dec(v.x), ..v }
        } else if code == KeyCode::Char('l') || code == KeyCode::Right {
            EditorView { x: (v.x + 1) as usize, ..v }
        } else if code == KeyCode::Char('k') || code == KeyCode::Up {
            EditorView { y: sat_dec(v.y), ..v }
        } else if code == KeyCode::Char('j') || code == KeyCode::Down {
            EditorView { y: (v.y + 1) as usize, ..v }
        } else if code == KeyCode::Home {
            EditorView { x: 0, ..v }
        } else if code == KeyCode::End {
            let len = line_len_nl(v.text, v.y as int);
            EditorView { x: (if len >= 1 { len - 1 } else { 0 }) as usize, ..v }
        } else if code == KeyCode::Char('g') {
            EditorView { pending: Pending::G, ..v }
        } else if code == KeyCode::Char('G') {
            EditorView { y: last_line(v.text) as usize, x: 0, ..v }
        } else if code == KeyCode::Char('y') {
            EditorView { pending: Pending::Y, ..v }
        } else if code == KeyCode::Char('d') {
            EditorView { pending: Pending::D, ..v }
        } else if code == KeyCode::Char('r') {
            EditorView { pending: Pending::R, ..v }
        } else if code == KeyCode::Char('~') {
            toggle_spec(v)
        } else if code == KeyCode::Char('O') {
            open_above_spec(v)
        } else if code == KeyCode::Char('p') {
            paste_spec(v)
        } else if code == KeyCode::Char('i') {
            EditorView { submode: Vim_mode::Insert, ..v }
        } else {
            v
        },
    }
}

/// The keys on which vim normal mode stays within the text and machine integers.
pub open spec fn vim_normal_ok(v: EditorView, code: KeyCode) -> bool {
    let idle = EditorView { pending: Pending::Idle, ..v };
    match v.pending {
        Pending::G => true,
        Pending::Y => code == KeyCode::Char('y') ==> line_cmd_ok(idle),
        Pending::YI => code == KeyCode::Char('w') ==> word_cmd_ok(idle),
        Pending::D => code == KeyCode::Char('d') ==> line_cmd_ok(idle),
        Pending::DI => code == KeyCode::Char('w') ==> delete_word_ok(idle),
        Pending::R => code is Char ==> cursor_cmd_ok(idle),
        Pending::Idle => if code == KeyCode::Char('l') || code == KeyCode::Right {
            v.x < usize::MAX
        } else if code == KeyCode::Char('j') || code == KeyCode::Down {
            v.y < usize::MAX
        } else if code == KeyCode::End {
            v.y < rope_line_count(v.text)
        } else if code == KeyCode::Char('~') {
            toggle_ok(v)
        } else if code == KeyCode::Char('O') {
            v.y <= rope_line_count(v.text)
        } else if code == KeyCode::Char('p') {
            paste_ok(v)
        } else {
            true
        },
    }
}

fn handle_vim_insert_key(editor: &mut EditorState, key: KeyEvent)
    requires
        vim_insert_ok(old(editor)@, key.code),
    ensures
        final(editor)@ == vim_insert_step(old(editor)@, key.code),
{
    match key.code {
        KeyCode::Esc => {
            editor.vim.submode = Vim_mode::Normal;
            if editor.cursor_x > 0 {
                editor.cursor_x = editor.cursor_x - 1;
            }
        },
        KeyCode::Char(_) => apply_text_key(editor, key.code),
        KeyCode::Backspace => apply_text_key(editor, key.code),
        KeyCode::Enter => apply_text_key(editor, key.code),
        KeyCode::Home => apply_text_key(editor, key.code),
        KeyCode::End => apply_text_key(editor, key.code),
        _ => {},
    }
}

fn handle_vim_normal_key(editor: &mut EditorState, key: KeyEvent)
    requires
        vim_normal_ok(old(editor)@, key.code),
    ensures
        final(editor)@ == vim_normal_step(old(editor)@, key.code),
{
    let code = key.code;
    match editor.vim.pending {
        Pending::G => {
            editor.vim.pending = Pending::Idle;
            if code == KeyCode::Char('g') {
                editor.cursor_y = 0;
                editor.cursor_x = 0;
            }
            return;
        },
        Pending::Y => {
            editor.vim.pending = Pending::Idle;
            if code == KeyCode::Char('y') {
                yank_line(editor);
            } else if code == KeyCode::Char('i') {
                editor.vim.pending = Pending::YI;
            }
            return;
        },
        Pending::YI => {
            editor.vim.pending = Pending::Idle;
            if code == KeyCode::Char('w') {
                yank_inner_word(editor);
            }
            return;
        },
        Pending::D => {
            editor.vim.pending = Pending::Idle;
            if code == KeyCode::Char('d') {
                delete_line(editor);
            } else if code == KeyCode::Char('i') {
                editor.vim.pending = Pending::DI;
            }
            return;
        },
        Pending::DI => {
            editor.vim.pending = Pending::Idle;
            if code == KeyCode::Char('w') {
                delete_inner_word(editor);
            }
            return;
        },
        Pending::R => {
            editor.vim.pending = Pending::Idle;
            if let KeyCode::Char(c) = code {
                replace_char_under_cursor(editor, c);
            }
            return;
        },
        Pending::Idle => {},
    }
    if code == KeyCode::Char('h') || code == KeyCode::Left {
        if editor.cursor_x > 0 {
            editor.cursor_x = editor.cursor_x - 1;
        }
    } else if code == KeyCode::Char('l') || code == KeyCode::Right {
        editor.cursor_x = editor.cursor_x + 1;
    } else if code == KeyCode::Char('k') || code == KeyCode::Up {
        if editor.cursor_y > 0 {
            editor.cursor_y = editor.cursor_y - 1;
        }
    } else if code == KeyCode::Char('j') || code == KeyCode::Down {
        editor.cursor_y = editor.cursor_y + 1;
    } else if code == KeyCode::Home {
        editor.cursor_x = 0;
    } else if code == KeyCode::End {
        let len = line_len_no_newline(&editor.buffer, editor.cursor_y);
        editor.cursor_x = if len >= 1 { len - 1 } else { 0 };
    } else if code == KeyCode::Char('g') {
        editor.vim.pending = Pending::G;
    } else if code == KeyCode::Char('G') {
        editor.cursor_y = rope_len_lines(&editor.buffer) - 1;
        editor.cursor_x = 0;
    } else if code == KeyCode::Char('y') {
        editor.vim.pending = Pending::Y;
    } else if code == KeyCode::Char('d') {
        editor.vim.pending = Pending::D;
    } else if code == KeyCode::Char('r') {
        editor.vim.pending = Pending::R;
    } else if code == KeyCode::Char('~') {
        toggle_case_under_cursor(editor);
    } else if code == KeyCode::Char('O') {
        open_line_above(editor);
    } else if code == KeyCode::Char('p') {
        paste_register(editor);
    } else if code == KeyCode::Char('i') {
        editor.vim.submode = Vim_mode::Insert;
    }
}

/// Vim editing: the key goes to insert or normal mode, then the cursor is moved onto
/// the text.
fn handle_vim_key(editor: &mut EditorState, key: KeyEvent)
    requires
        old(editor)@.submode == Vim_mode::Insert ==> vim_insert_ok(old(editor)@, key.code),
        old(editor)@.submode == Vim_mode::Normal ==> vim_normal_ok(old(editor)@, key.code),
    ensures
        final(editor)@ == clamp(
            if old(editor)@.submode == Vim_mode::Insert {
                vim_insert_step(old(editor)@, key.code)
            } else {
                vim_normal_step(old(editor)@, key.code)
            },
        ),
        cursor_on_text(final(editor)@),
{
    match editor.vim.submode {
        Vim_mode::Insert => handle_vim_insert_key(editor, key),
        Vim_mode::Normal => handle_vim_normal_key(editor, key),
    }
    clamp_cursor(editor);
}

/// What a key does to an editor: plain editing or vim, by the editor's mode, with the
/// cursor moved onto the text afterwards.
pub open spec fn editor_step(v: EditorView, code: KeyCode) -> EditorView {
    clamp(
        if v.mode == EditorMode::Normal {
            plain_step(v, code)
        } else if v.submode == Vim_mode::Insert {
            vim_insert_step(v, code)
        } else {
            vim_normal_step(v, code)
        },
    )
}

pub open spec fn editor_key_ok(v: EditorView, code: KeyCode) -> bool {
    if v.mode == EditorMode::Normal {
        plain_ok(v, code)
    } else if v.submode == Vim_mode::Insert {
        vim_insert_ok(v, code)
    } else {
        vim_normal_ok(v, code)
    }
}

/// How a key moves between the three editing states. Plain editing never changes mode.
/// In vim insert mode Esc goes to normal mode a column to the left (then brought onto
/// the text) and every other key stays in insert mode. In vim normal mode `i` with no
/// command pending enters insert mode where the cursor is, `O` with none pending enters
/// it on a new line opened above, and every other key stays in normal mode. A key never
/// switches between plain editing and vim, and Esc and `i` leave the text, the line and
/// the register as they were. (The handler then leaves the cursor on the text:
/// `handle_editor_key`.)
pub proof fn lemma_editor_modes(v: EditorView, code: KeyCode)
    requires
        cursor_on_text(v),
    ensures
        editor_step(v, code).mode == v.mode,
        v.mode == EditorMode::Normal ==> editor_step(v, code).submode == v.submode,
        v.mode == EditorMode::Vim && v.submode == Vim_mode::Insert ==> (editor_step(v, code).submode
            == Vim_mode::Normal <==> code == KeyCode::Esc),
        v.mode == EditorMode::Vim && v.submode == Vim_mode::Insert && code == KeyCode::Esc ==> editor_step(v, code)
            == clamp((EditorView { submode: Vim_mode::Normal, x: sat_dec(v.x), ..v })) && editor_step(v, code).text
            == v.text && editor_step(v, code).y == v.y && editor_step(v, code).register == v.register
            && editor_step(v, code).x <= sat_dec(v.x),
        v.mode == EditorMode::Vim && v.submode == Vim_mode::Normal ==> (editor_step(v, code).submode
            == Vim_mode::Insert <==> (v.pending == Pending::Idle && (code == KeyCode::Char('i') || code
            == KeyCode::Char('O')))),
        v.mode == EditorMode::Vim && v.submode == Vim_mode::Normal && v.pending == Pending::Idle && code
            == KeyCode::Char('i') ==> editor_step(v, code) == (EditorView { submode: Vim_mode::Insert, ..v }),
{
    if v.mode == EditorMode::Vim && v.submode == Vim_mode::Normal && v.pending == Pending::Idle && code
        == KeyCode::Char('i') {
        lemma_clamp_keeps_cursor_on_text(EditorView { submode: Vim_mode::Insert, ..v });
    }
}

/// The cursor's char index, which may lie past what a `usize` holds.
fn char_index_wide(editor: &EditorState) -> (r: u128)
    ensures
        r == char_index(editor@.text, editor@.x as int, editor@.y as int),
{
    let lines = rope_len_lines(&editor.buffer);
    let y = if editor.cursor_y < lines - 1 { editor.cursor_y } else { lines - 1 };
    let line_start = rope_line_to_char(&editor.buffer, y);
    line_start as u128 + editor.cursor_x as u128
}

/// Whether the editor accepts the key: the requirements of `handle_editor_key`, tested.
pub fn editor_key_allowed(editor: &EditorState, code: KeyCode) -> (b: bool)
    ensures
        b == editor_key_ok(editor@, code),
{
    let len = rope_len_chars(&editor.buffer) as u128;
    let lines = rope_len_lines(&editor.buffer);
    let idx = char_index_wide(editor);
    let big = usize::MAX as u128;
    let x_room = editor.cursor_x < usize::MAX;
    let y_room = editor.cursor_y < usize::MAX;
    let on_line = editor.cursor_y < lines;
    let plain = match code {
        KeyCode::Right => x_room,
        KeyCode::Down => y_room,
        KeyCode::Char(_) => idx <= len && x_room,
        KeyCode::Backspace => idx <= len,
        KeyCode::Enter => idx <= len && y_room,
        KeyCode::End => on_line,
        _ => true,
    };
    match editor.mode {
        EditorMode::Normal => plain,
        EditorMode::Vim => match editor.vim.submode {
            Vim_mode::Insert => match code {
                KeyCode::Char(_) | KeyCode::Backspace | KeyCode::Enter | KeyCode::End => plain,
                _ => true,
            },
            Vim_mode::Normal => match editor.vim.pending {
                Pending::G => true,
                Pending::Y | Pending::D => {
                    let second = match code {
                        KeyCode::Char(c) => c == if editor.vim.pending == Pending::Y { 'y' } else { 'd' },
                        _ => false,
                    };
                    !second || on_line
                },
                Pending::YI => {
                    let w = match code {
                        KeyCode::Char(c) => c == 'w',
                        _ => false,
                    };
                    !w || (on_line && x_room)
                },
                Pending::DI => {
                    let w = match code {
                        KeyCode::Char(c) => c == 'w',
                        _ => false,
                    };
                    if !w {
                        true
                    } else if !(on_line && x_room) {
                        false
                    } else {
                        let line = current_line_string(editor);
                        let span = word_bounds_at(line.as_str(), editor.cursor_x);
                        let start = rope_line_to_char(&editor.buffer, editor.cursor_y);
                        start as u128 + span.1 as u128 <= len
                    }
                },
                Pending::R => match code {
                    KeyCode::Char(_) => idx <= big,
                    _ => true,
                },
                Pending::Idle => match code {
                    KeyCode::Char('l') | KeyCode::Right => x_room,
                    KeyCode::Char('j') | KeyCode::Down => y_room,
                    KeyCode::End => on_line,
                    KeyCode::Char('~') => idx <= big && (idx >= len || x_room),
                    KeyCode::Char('O') => editor.cursor_y <= lines,
                    KeyCode::Char('p') => {
                        if editor.vim.register.unicode_len() == 0 {
                            true
                        } else if editor.vim.register_line {
                            y_room
                        } else {
                            idx < big && x_room
                        }
                    },
                    _ => true,
                },
            },
        },
    }
}

/// Handles a key in the editor; afterwards the cursor rests on the text.
pub fn handle_editor_key(editor: &mut EditorState, key: KeyEvent)
    requires
        editor_key_ok(old(editor)@, key.code),
    ensures
        final(editor)@ == editor_step(old(editor)@, key.code),
        cursor_on_text(final(editor)@),
{
    match editor.mode {
        EditorMode::Normal => handle_plain_editor_key(editor, key),
        EditorMode::Vim => handle_vim_key(editor, key),
    }
}


/// Vim's one-char commands on the char under the cursor, at the cursor's char index `i`:
/// `r` then a char replaces that char and nothing else, keeping the text's length; `~`
/// swaps its case and nothing else; where the cursor is past the text's end neither
/// changes the text. Both finish the command (nothing pending) and keep the line and
/// the register.
pub proof fn lemma_vim_char_commands(v: EditorView, c: char)
    requires
        v.mode == EditorMode::Vim,
        v.submode == Vim_mode::Normal,
    ensures
        ({
            let i = char_index(v.text, v.x as int, v.y as int);
            let w = EditorView { pending: Pending::R, ..v };
            let r = editor_step(w, KeyCode::Char(c));
            &&& r.text.len() == v.text.len()
            &&& forall|j: int| 0 <= j < v.text.len() && j != i ==> #[trigger] r.text[j] == v.text[j]
            &&& 0 <= i < v.text.len() ==> r.text[i] == c
            &&& !(0 <= i < v.text.len()) ==> r.text == v.text
            &&& r.pending == Pending::Idle && r.register == v.register && r.submode == Vim_mode::Normal
        }),
        ({
            let i = char_index(v.text, v.x as int, v.y as int);
            let w = EditorView { pending: Pending::Idle, ..v };
            let r = editor_step(w, KeyCode::Char('~'));
            &&& r.text.len() == v.text.len()
            &&& forall|j: int| 0 <= j < v.text.len() && j != i ==> #[trigger] r.text[j] == v.text[j]
            &&& 0 <= i < v.text.len() ==> r.text[i] == (if char_is_uppercase(v.text[i]) {
                char_lowercase_first(v.text[i])
            } else {
                char_uppercase_first(v.text[i])
            })
            &&& !(0 <= i < v.text.len()) ==> r.text == v.text
            &&& r.pending == Pending::Idle && r.register == v.register
        }),
{
}

/// Vim's line commands: `yy` copies the cursor's line with a line break into the
/// register as a whole line and leaves the text; `dd` copies it the same way and
/// removes the line, line break included, from the text, leaving the text before and
/// after it.
pub proof fn lemma_vim_line_commands(v: EditorView)
    requires
        v.mode == EditorMode::Vim,
        v.submode == Vim_mode::Normal,
    ensures
        ({
            let w = EditorView { pending: Pending::Y, ..v };
            let r = editor_step(w, KeyCode::Char('y'));
            &&& r.text == v.text && r.register == cur_line(v).push('\n') && r.register_line
            &&& r.pending == Pending::Idle
        }),
        ({
            let w = EditorView { pending: Pending::D, ..v };
            let r = editor_step(w, KeyCode::Char('d'));
            let start = rope_line_start(v.text, v.y as nat);
            let end = rope_line_start(v.text, min_int(v.y + 1, rope_line_count(v.text) as int) as nat);
            &&& r.register == cur_line(v).push('\n') && r.register_line
            &&& r.text == v.text.take(start as int) + v.text.skip(end as int)
            &&& r.pending == Pending::Idle
        }),
{
}

} // verus!
