use vstd::prelude::*;
use vstd::string::StringSliceAdditionalSpecFns;
use vstd::utf8::{encode_utf8, is_ascii_chars, is_char_boundary};
use crate::text::{push_char, pop_char, is_hex_digit, str_len, str_eq};
use crate::meta::{MyColor, Tag, hex_color_of, parse_hex_color};
use crate::keys::KeyCode;

verus! {

// ------------------------------------------------------------------------
// Outside facts: the clock, identifiers and Unicode white space
// ------------------------------------------------------------------------

/// The chars with the Unicode White_Space property: tab to carriage return, space,
/// next line, no-break space, ogham space mark, the spaces from en quad to hair space,
/// line and paragraph separators, narrow no-break space, medium mathematical space and
/// ideographic space.
pub open spec fn char_white_space(c: char) -> bool {
    let n = c as u32;
    ||| 0x09 <= n <= 0x0D
    ||| n == 0x20 || n == 0x85 || n == 0xA0 || n == 0x1680
    ||| 0x2000 <= n <= 0x200A
    ||| n == 0x2028 || n == 0x2029 || n == 0x202F || n == 0x205F || n == 0x3000
}

/// `char::is_whitespace`: whether the char has the Unicode White_Space property.
#[verifier::external_body]
pub(crate) fn is_whitespace(c: char) -> (r: bool)
    ensures
        r == char_white_space(c),
{
    c.is_whitespace()
}

/// `chrono::Utc::now`, as microseconds since the Unix epoch. Nothing is promised of the
/// value: it is the machine's clock.
#[verifier::external_body]
pub(crate) fn now_micros() -> (t: i64) {
    chrono::Utc::now().timestamp_micros()
}

/// `uuid::Uuid::new_v4`, as its 128-bit value. Nothing is promised of the value: it is
/// drawn at random.
#[verifier::external_body]
pub(crate) fn new_uuid() -> (id: u128) {
    uuid::Uuid::new_v4().as_u128()
}

/// Enter or space: a press of the focused button.
pub open spec fn is_press(code: KeyCode) -> bool {
    code == KeyCode::Enter || code == KeyCode::Char(' ')
}

// ------------------------------------------------------------------------
// Text fields edited one key at a time
// ------------------------------------------------------------------------

/// `s` without its last char, if it has one (`String::pop`).
pub open spec fn popped(s: Seq<char>) -> Seq<char> {
    if s.len() == 0 {
        s
    } else {
        s.drop_last()
    }
}

/// A free-text field after a key: a char is appended, Backspace removes the last one.
pub open spec fn text_after(s: Seq<char>, code: KeyCode) -> Seq<char> {
    match code {
        KeyCode::Char(c) => s.push(c),
        KeyCode::Backspace => popped(s),
        _ => s,
    }
}

/// A one-word field after a key: white space is ignored.
pub open spec fn word_after(s: Seq<char>, code: KeyCode) -> Seq<char> {
    match code {
        KeyCode::Char(c) => if char_white_space(c) {
            s
        } else {
            s.push(c)
        },
        KeyCode::Backspace => popped(s),
        _ => s,
    }
}

/// A hex-color field after a key: only hexadecimal digits are taken, and only while the
/// field holds fewer than six bytes.
pub open spec fn hex_after(s: Seq<char>, code: KeyCode) -> Seq<char> {
    match code {
        KeyCode::Char(c) => if is_hex_digit(c) && str_len(s) < 6 {
            s.push(c)
        } else {
            s
        },
        KeyCode::Backspace => popped(s),
        _ => s,
    }
}

pub open spec fn opt_view(o: Option<String>) -> Option<Seq<char>> {
    match o {
        Some(s) => Some(s@),
        None => None,
    }
}

/// An optional text field after a key: typing into an absent field creates it,
/// Backspace on an absent field leaves it absent. With `words`, white space is ignored.
pub open spec fn opt_text_after(o: Option<Seq<char>>, code: KeyCode, words: bool) -> Option<
    Seq<char>,
> {
    match code {
        KeyCode::Char(c) => if words && char_white_space(c) {
            o
        } else {
            Some(
                match o {
                    Some(s) => s,
                    None => Seq::empty(),
                }.push(c),
            )
        },
        KeyCode::Backspace => match o {
            Some(s) => Some(popped(s)),
            None => None,
        },
        _ => o,
    }
}

/// Typing a char into a field and erasing it leaves the field as it was; an absent
/// optional field that is typed into and erased stays, empty.
pub proof fn lemma_type_then_erase(s: Seq<char>, c: char, words: bool)
    ensures
        text_after(text_after(s, KeyCode::Char(c)), KeyCode::Backspace) == s,
        !char_white_space(c) ==> word_after(word_after(s, KeyCode::Char(c)), KeyCode::Backspace) == s,
        !(words && char_white_space(c)) ==> opt_text_after(
            opt_text_after(Some(s), KeyCode::Char(c), words),
            KeyCode::Backspace,
            words,
        ) == Some(s),
        !(words && char_white_space(c)) ==> opt_text_after(
            opt_text_after(None, KeyCode::Char(c), words),
            KeyCode::Backspace,
            words,
        ) == Some(Seq::<char>::empty()),
{
    assert(s.push(c).drop_last() =~= s);
    assert(Seq::<char>::empty().push(c).drop_last() =~= Seq::<char>::empty());
}

/// Applies a key to a free-text field.
pub fn edit_text(s: &mut String, code: KeyCode)
    ensures
        final(s)@ == text_after(old(s)@, code),
{
    match code {
        KeyCode::Char(c) => push_char(s, c),
        KeyCode::Backspace => {
            pop_char(s);
        },
        _ => {},
    }
}

/// Applies a key to a one-word field.
pub fn edit_word(s: &mut String, code: KeyCode)
    ensures
        final(s)@ == word_after(old(s)@, code),
{
    match code {
        KeyCode::Char(c) => {
            if !is_whitespace(c) {
                push_char(s, c);
            }
        },
        KeyCode::Backspace => {
            pop_char(s);
        },
        _ => {},
    }
}

/// Whether a char is an ASCII hexadecimal digit (`char::is_ascii_hexdigit`).
pub fn is_ascii_hexdigit(c: char) -> (r: bool)
    ensures
        r == is_hex_digit(c),
{
    ('0' <= c && c <= '9') || ('a' <= c && c <= 'f') || ('A' <= c && c <= 'F')
}

/// Applies a key to a hex-color field.
pub fn edit_hex(s: &mut String, code: KeyCode)
    ensures
        final(s)@ == hex_after(old(s)@, code),
{
    match code {
        KeyCode::Char(c) => {
            if is_ascii_hexdigit(c) {
                if s.as_str().len() < 6 {
                    push_char(s, c);
                }
            }
        },
        KeyCode::Backspace => {
            pop_char(s);
        },
        _ => {},
    }
}

/// Applies a key to an optional text field.
pub fn edit_opt_text(o: &mut Option<String>, code: KeyCode, words: bool)
    ensures
        opt_view(*final(o)) == opt_text_after(opt_view(*old(o)), code, words),
{
    match code {
        KeyCode::Char(c) => {
            if words && is_whitespace(c) {
                return;
            }
            let mut s = match o.take() {
                Some(s) => s,
                None => String::new(),
            };
            push_char(&mut s, c);
            *o = Some(s);
        },
        KeyCode::Backspace => {
            match o.take() {
                Some(s) => {
                    let mut s = s;
                    pop_char(&mut s);
                    *o = Some(s);
                },
                None => {},
            }
        },
        _ => {},
    }
}

// ------------------------------------------------------------------------
// Tags typed as a name and a hex color
// ------------------------------------------------------------------------

/// Every char of the field is a hexadecimal digit, as the hex field keeps it.
pub open spec fn all_hex(s: Seq<char>) -> bool {
    forall|i: int| 0 <= i < s.len() ==> #[trigger] is_hex_digit(s[i])
}

/// Editing a hex field keeps it all hex digits.
pub proof fn lemma_hex_after_keeps(s: Seq<char>, code: KeyCode)
    requires
        all_hex(s),
    ensures
        all_hex(hex_after(s, code)),
        all_hex(Seq::<char>::empty()),
{
    let t = hex_after(s, code);
    assert forall|i: int| 0 <= i < t.len() implies #[trigger] is_hex_digit(t[i]) by {
        if i < s.len() {
            if code is Backspace && s.len() > 0 {
                assert(t[i] == s[i]);
            } else {
                assert(t[i] == s[i]);
            }
        }
    }
}

/// In an ASCII string every index up to its length is a char boundary, and it has as
/// many bytes as chars.
pub proof fn lemma_ascii_boundary(s: Seq<char>, i: int)
    requires
        is_ascii_chars(s),
        0 <= i <= s.len(),
    ensures
        encode_utf8(s).len() == s.len(),
        is_char_boundary(encode_utf8(s), i),
{
    broadcast use vstd::utf8::is_ascii_chars_encode_utf8, vstd::utf8::encode_utf8_valid_utf8;
    let b = encode_utf8(s);
    if i < s.len() {
        assert(b[i] == s[i] as u8);
        assert(s[i] as nat <= 0x7f);
        vstd::utf8::is_char_boundary_iff_is_leading_byte(b, i);
    } else {
        vstd::utf8::is_char_boundary_start_end_of_seq(b);
    }
}

pub proof fn lemma_hex_is_ascii(s: Seq<char>)
    requires
        all_hex(s),
    ensures
        is_ascii_chars(s),
{
    assert forall|i: int| 0 <= i < s.len() implies '\0' <= #[trigger] s[i] <= '\u{7f}' by {
        assert(is_hex_digit(s[i]));
    }
}

/// The tag the two inputs describe, when the name is not empty and the hex field holds
/// exactly six bytes that read as a color.
pub open spec fn tag_of_inputs(name: Seq<char>, hex: Seq<char>) -> Option<(Seq<char>, MyColor)> {
    if name.len() > 0 && str_len(hex) == 6 {
        match hex_color_of(hex) {
            Some(c) => Some((name, c)),
            None => None,
        }
    } else {
        None
    }
}

/// Builds a tag from the name and hex inputs; when one is built, both inputs are
/// cleared, and otherwise they are left as they were.
pub fn take_tag(name: &mut String, hex: &mut String) -> (t: Option<Tag>)
    requires
        all_hex(old(hex)@),
    ensures
        match tag_of_inputs(old(name)@, old(hex)@) {
            Some((n, c)) => t is Some && t->0.name@ == n && t->0.color == c && final(name)@
                == Seq::<char>::empty() && final(hex)@ == Seq::<char>::empty(),
            None => t is None && final(name)@ == old(name)@ && final(hex)@ == old(hex)@,
        },
{
    proof {
        lemma_hex_is_ascii(hex@);
        lemma_ascii_boundary(hex@, 0);
    }
    let hs = hex.as_str();
    if name.as_str().is_empty() || hs.len() != 6 {
        return None;
    }
    proof {
        lemma_ascii_boundary(hex@, 2);
        lemma_ascii_boundary(hex@, 4);
        assert(hs.spec_bytes() == encode_utf8(hex@));
        assert(vstd::string::is_ascii(hs));
    }
    match parse_hex_color(hs) {
        Some(color) => {
            let tag = Tag::new(name.clone(), Some(color));
            *name = String::new();
            *hex = String::new();
            Some(tag)
        },
        None => None,
    }
}

// ------------------------------------------------------------------------
// Copies with what they hold
// ------------------------------------------------------------------------

/// A tag as plain values: its name and its color.
pub type TagView = (Seq<char>, MyColor);

pub open spec fn tags_view(tags: Seq<Tag>) -> Seq<TagView> {
    tags.map_values(|t: Tag| (t.name@, t.color))
}

/// A copy of a tag.
pub fn copy_tag(t: &Tag) -> (r: Tag)
    ensures
        r.name@ == t.name@,
        r.color == t.color,
{
    Tag { name: t.name.clone(), color: t.color }
}

/// A copy of a list of tags.
pub fn copy_tags(tags: &Vec<Tag>) -> (r: Vec<Tag>)
    ensures
        tags_view(r@) == tags_view(tags@),
{
    let mut r: Vec<Tag> = Vec::new();
    let mut i: usize = 0;
    while i < tags.len()
        invariant
            i <= tags@.len(),
            tags_view(r@) == tags_view(tags@.take(i as int)),
        decreases tags.len() - i,
    {
        let t = copy_tag(&tags[i]);
        let ghost prev = r@;
        r.push(t);
        proof {
            assert(tags@.take(i + 1) =~= tags@.take(i as int).push(tags@[i as int]));
            assert(tags_view(r@) =~= tags_view(prev).push((t.name@, t.color)));
            assert(tags_view(tags@.take(i + 1)) =~= tags_view(tags@.take(i as int)).push(
                (tags@[i as int].name@, tags@[i as int].color),
            ));
        }
        i = i + 1;
    }
    assert(tags@.take(i as int) =~= tags@);
    r
}

/// Whether the list holds a tag with this name and color.
pub fn has_tag(tags: &Vec<Tag>, name: &String, color: MyColor) -> (r: bool)
    ensures
        r == tags_view(tags@).contains((name@, color)),
{
    let mut i: usize = 0;
    while i < tags.len()
        invariant
            i <= tags@.len(),
            forall|k: int| 0 <= k < i ==> tags_view(tags@)[k] != (name@, color),
        decreases tags.len() - i,
    {
        if tags[i].color == color && str_eq(tags[i].name.as_str(), name.as_str()) {
            assert(tags_view(tags@)[i as int] == (name@, color));
            return true;
        }
        i = i + 1;
    }
    false
}

/// A copy of an optional string.
pub fn copy_opt_string(o: &Option<String>) -> (r: Option<String>)
    ensures
        opt_view(r) == opt_view(*o),
{
    match o {
        Some(s) => Some(s.clone()),
        None => None,
    }
}

} // verus!
