use vstd::prelude::*;
use crate::app::Color_channel;
use crate::text::{
    ascii_lower, chars_of, decimal, find_char, find_char_in, hex_byte, lemma_find_char,
    lemma_parse_decimal, parse_unsigned, parse_unsigned_range, push_char, push_decimal, push_str, starts_with_lit, take_chars, is_hex_digit, lower_ascii, parse_hex_pair, parse_hex_pair_exec,
    push_hex_byte, range_is, str_eq, lemma_hex_byte_roundtrip,
};
use vstd::utf8::{is_ascii_chars, is_char_boundary};
use vstd::string::StringSliceAdditionalSpecFns;
use crate::fields::{char_white_space, is_whitespace};

verus! {

// ------------------------------------------------------------------------
// Priority
// ------------------------------------------------------------------------

/// How urgent a task is, from least to most.
#[derive(Debug, PartialEq, Eq, Hash, Clone, Copy, Structural)]
pub enum Priority {
    Low,
    Default,
    Medium,
    High,
    Critical,
}

pub open spec fn priority_next(p: Priority) -> Priority {
    match p {
        Priority::Low => Priority::Default,
        Priority::Default => Priority::Medium,
        Priority::Medium => Priority::High,
        Priority::High => Priority::Critical,
        Priority::Critical => Priority::Low,
    }
}

pub open spec fn priority_prev(p: Priority) -> Priority {
    match p {
        Priority::Low => Priority::Critical,
        Priority::Default => Priority::Low,
        Priority::Medium => Priority::Default,
        Priority::High => Priority::Medium,
        Priority::Critical => Priority::High,
    }
}

pub open spec fn priority_name(p: Priority) -> Seq<char> {
    match p {
        Priority::Low => "Low"@,
        Priority::Default => "Default"@,
        Priority::Medium => "Medium"@,
        Priority::High => "High"@,
        Priority::Critical => "Critical"@,
    }
}

/// The priority a stored name stands for; an unknown name stands for `Default`.
pub open spec fn priority_from_name(s: Seq<char>) -> Priority {
    if s == "Low"@ {
        Priority::Low
    } else if s == "Default"@ {
        Priority::Default
    } else if s == "Medium"@ {
        Priority::Medium
    } else if s == "High"@ {
        Priority::High
    } else if s == "Critical"@ {
        Priority::Critical
    } else {
        Priority::Default
    }
}

impl Priority {
    pub fn title(&self) -> (r: &'static str)
        ensures
            r@ == priority_name(*self),
    {
        match self {
            Priority::Low => "Low",
            Priority::Default => "Default",
            Priority::Medium => "Medium",
            Priority::High => "High",
            Priority::Critical => "Critical",
        }
    }

    /// The following priority, wrapping from `Critical` to `Low`.
    pub fn next(self) -> (r: Priority)
        ensures
            r == priority_next(self),
    {
        match self {
            Priority::Low => Priority::Default,
            Priority::Default => Priority::Medium,
            Priority::Medium => Priority::High,
            Priority::High => Priority::Critical,
            Priority::Critical => Priority::Low,
        }
    }

    /// The preceding priority, wrapping from `Low` to `Critical`.
    pub fn prev(self) -> (r: Priority)
        ensures
            r == priority_prev(self),
    {
        match self {
            Priority::Low => Priority::Critical,
            Priority::Default => Priority::Low,
            Priority::Medium => Priority::Default,
            Priority::High => Priority::Medium,
            Priority::Critical => Priority::High,
        }
    }

    /// The name under which a priority is stored and shown.
    pub fn to_string(self) -> (r: String)
        ensures
            r@ == priority_name(self),
    {
        String::from_str(self.title())
    }

    /// Reads a stored priority name; an unknown name gives `Default`.
    pub fn from_string(value: String) -> (r: Priority)
        ensures
            r == priority_from_name(value@),
    {
        let v = value.as_str();
        if str_eq(v, "Low") {
            Priority::Low
        } else if str_eq(v, "Default") {
            Priority::Default
        } else if str_eq(v, "Medium") {
            Priority::Medium
        } else if str_eq(v, "High") {
            Priority::High
        } else if str_eq(v, "Critical") {
            Priority::Critical
        } else {
            Priority::Default
        }
    }
}

/// Stepping a priority forward then back, or back then forward, gives it back, and
/// five steps forward go all the way round.
pub proof fn lemma_priority_cycle(p: Priority)
    ensures
        priority_prev(priority_next(p)) == p,
        priority_next(priority_prev(p)) == p,
        priority_next(priority_next(priority_next(priority_next(priority_next(p))))) == p,
{
}

/// A priority read back from its stored name is the same priority.
pub proof fn lemma_priority_name_roundtrip(p: Priority)
    ensures
        priority_from_name(priority_name(p)) == p,
{
    reveal_strlit("Low");
    reveal_strlit("Default");
    reveal_strlit("Medium");
    reveal_strlit("High");
    reveal_strlit("Critical");
    assert("Low"@.len() == 3);
    assert("Default"@.len() == 7);
    assert("Medium"@.len() == 6);
    assert("High"@.len() == 4);
    assert("Critical"@.len() == 8);
    assert("Default"@ != "Low"@);
    assert("Medium"@ != "Low"@);
    assert("Medium"@ != "Default"@);
    assert("High"@ != "Low"@);
    assert("High"@ != "Default"@);
    assert("High"@ != "Medium"@);
    assert("Critical"@ != "Low"@);
    assert("Critical"@ != "Default"@);
    assert("Critical"@ != "Medium"@);
    assert("Critical"@ != "High"@);
}

// ------------------------------------------------------------------------
// Mood
// ------------------------------------------------------------------------

/// How a journal entry's author felt.
#[derive(Debug, PartialEq, Eq, Hash, Clone, Copy, Structural)]
pub enum Mood {
    Happy,
    Neutral,
    Sad,
    Angry,
    Excited,
    Tired,
}

pub open spec fn mood_next(m: Mood) -> Mood {
    match m {
        Mood::Happy => Mood::Neutral,
        Mood::Neutral => Mood::Sad,
        Mood::Sad => Mood::Angry,
        Mood::Angry => Mood::Excited,
        Mood::Excited => Mood::Tired,
        Mood::Tired => Mood::Happy,
    }
}

pub open spec fn mood_prev(m: Mood) -> Mood {
    match m {
        Mood::Happy => Mood::Tired,
        Mood::Neutral => Mood::Happy,
        Mood::Sad => Mood::Neutral,
        Mood::Angry => Mood::Sad,
        Mood::Excited => Mood::Angry,
        Mood::Tired => Mood::Excited,
    }
}

pub open spec fn mood_name(m: Mood) -> Seq<char> {
    match m {
        Mood::Happy => "Happy"@,
        Mood::Neutral => "Neutral"@,
        Mood::Sad => "Sad"@,
        Mood::Angry => "Angry"@,
        Mood::Excited => "Excited"@,
        Mood::Tired => "Tired"@,
    }
}

/// The mood a stored name stands for, whatever the case of its letters; an unknown
/// name stands for `Neutral`.
pub open spec fn mood_from_name(s: Seq<char>) -> Mood {
    let l = ascii_lower(s);
    if l == "happy"@ {
        Mood::Happy
    } else if l == "neutral"@ {
        Mood::Neutral
    } else if l == "sad"@ {
        Mood::Sad
    } else if l == "angry"@ {
        Mood::Angry
    } else if l == "excited"@ {
        Mood::Excited
    } else if l == "tired"@ {
        Mood::Tired
    } else {
        Mood::Neutral
    }
}

impl Mood {
    pub fn title(&self) -> (r: &'static str)
        ensures
            r@ == mood_name(*self),
    {
        match self {
            Mood::Happy => "Happy",
            Mood::Neutral => "Neutral",
            Mood::Sad => "Sad",
            Mood::Angry => "Angry",
            Mood::Excited => "Excited",
            Mood::Tired => "Tired",
        }
    }

    /// The following mood, wrapping from `Tired` to `Happy`.
    pub fn next(self) -> (r: Mood)
        ensures
            r == mood_next(self),
    {
        match self {
            Mood::Happy => Mood::Neutral,
            Mood::Neutral => Mood::Sad,
            Mood::Sad => Mood::Angry,
            Mood::Angry => Mood::Excited,
            Mood::Excited => Mood::Tired,
            Mood::Tired => Mood::Happy,
        }
    }

    /// The preceding mood, wrapping from `Happy` to `Tired`.
    pub fn prev(self) -> (r: Mood)
        ensures
            r == mood_prev(self),
    {
        match self {
            Mood::Happy => Mood::Tired,
            Mood::Neutral => Mood::Happy,
            Mood::Sad => Mood::Neutral,
            Mood::Angry => Mood::Sad,
            Mood::Excited => Mood::Angry,
            Mood::Tired => Mood::Excited,
        }
    }

    pub fn to_string(self) -> (r: String)
        ensures
            r@ == mood_name(self),
    {
        String::from_str(self.title())
    }

    /// Reads a stored mood name regardless of letter case; an unknown name gives `Neutral`.
    ///
    /// The names are ASCII, and no char outside ASCII lowers onto one of their letters
    /// one for one, so lowering ASCII letters alone decides the same matches as a full
    /// Unicode lowering would.
    pub fn from_string(value: String) -> (r: Mood)
        ensures
            r == mood_from_name(value@),
    {
        let v = chars_of(value.as_str());
        let l = lower_ascii(&v);
        let n = l.len();
        assert(l@.subrange(0, n as int) =~= l@);
        if range_is(&l, 0, n, "happy") {
            Mood::Happy
        } else if range_is(&l, 0, n, "neutral") {
            Mood::Neutral
        } else if range_is(&l, 0, n, "sad") {
            Mood::Sad
        } else if range_is(&l, 0, n, "angry") {
            Mood::Angry
        } else if range_is(&l, 0, n, "excited") {
            Mood::Excited
        } else if range_is(&l, 0, n, "tired") {
            Mood::Tired
        } else {
            assert(l@.subrange(0, n as int) =~= l@);
            Mood::Neutral
        }
    }
}

/// Stepping a mood forward then back, or back then forward, gives it back, and six
/// steps forward go all the way round.
pub proof fn lemma_mood_cycle(m: Mood)
    ensures
        mood_prev(mood_next(m)) == m,
        mood_next(mood_prev(m)) == m,
        mood_next(mood_next(mood_next(mood_next(mood_next(mood_next(m)))))) == m,
{
}

/// A mood read back from its stored name is the same mood.
pub proof fn lemma_mood_name_roundtrip(m: Mood)
    ensures
        mood_from_name(mood_name(m)) == m,
{
    reveal_strlit("Happy");
    reveal_strlit("Neutral");
    reveal_strlit("Sad");
    reveal_strlit("Angry");
    reveal_strlit("Excited");
    reveal_strlit("Tired");
    reveal_strlit("happy");
    reveal_strlit("neutral");
    reveal_strlit("sad");
    reveal_strlit("angry");
    reveal_strlit("excited");
    reveal_strlit("tired");
    assert("happy"@.len() == 5);
    assert("neutral"@.len() == 7);
    assert("sad"@.len() == 3);
    assert("angry"@.len() == 5);
    assert("excited"@.len() == 7);
    assert("tired"@.len() == 5);
    assert("happy"@[0] != "angry"@[0] && "happy"@[0] != "tired"@[0] && "angry"@[0] != "tired"@[0]);
    assert("neutral"@[0] != "excited"@[0]);
    let l = ascii_lower(mood_name(m));
    match m {
        Mood::Happy => { assert(l =~= "happy"@); }
        Mood::Neutral => { assert(l =~= "neutral"@); }
        Mood::Sad => { assert(l =~= "sad"@); }
        Mood::Angry => { assert(l =~= "angry"@); }
        Mood::Excited => { assert(l =~= "excited"@); }
        Mood::Tired => { assert(l =~= "tired"@); }
    }
}

// ------------------------------------------------------------------------
// Colors
// ------------------------------------------------------------------------

/// A named terminal color or an explicit RGB triple.
#[derive(Debug, Clone, Copy, PartialEq, Eq, Hash, Structural)]
pub enum MyColor {
    Black,
    Red,
    Green,
    Yellow,
    Blue,
    Magenta,
    Cyan,
    White,
    BrightBlack,
    BrightRed,
    BrightGreen,
    BrightYellow,
    BrightBlue,
    BrightMagenta,
    BrightCyan,
    BrightWhite,
    RGB(u8, u8, u8),
}

/// The RGB triple each color is drawn with.
pub open spec fn color_rgb(c: MyColor) -> (u8, u8, u8) {
    match c {
        MyColor::Black => (0, 0, 0),
        MyColor::Red => (125, 0, 0),
        MyColor::Green => (0, 125, 0),
        MyColor::Yellow => (181, 165, 54),
        MyColor::Blue => (0, 0, 125),
        MyColor::Magenta => (76, 51, 102),
        MyColor::Cyan => (44, 167, 184),
        MyColor::White => (212, 210, 195),
        MyColor::BrightBlack => (33, 33, 33),
        MyColor::BrightRed => (255, 0, 0),
        MyColor::BrightGreen => (0, 255, 0),
        MyColor::BrightYellow => (255, 230, 0),
        MyColor::BrightBlue => (0, 0, 255),
        MyColor::BrightMagenta => (123, 0, 255),
        MyColor::BrightCyan => (0, 218, 247),
        MyColor::BrightWhite => (255, 255, 255),
        MyColor::RGB(r, g, b) => (r, g, b),
    }
}

/// The named color drawn with a triple, or the triple itself when no name has it.
pub open spec fn canonical_color(rgb: (u8, u8, u8)) -> MyColor {
    let (r, g, b) = rgb;
    if r == 0 && g == 0 && b == 0 {
        MyColor::Black
    } else if r == 125 && g == 0 && b == 0 {
        MyColor::Red
    } else if r == 0 && g == 125 && b == 0 {
        MyColor::Green
    } else if r == 181 && g == 165 && b == 54 {
        MyColor::Yellow
    } else if r == 0 && g == 0 && b == 125 {
        MyColor::Blue
    } else if r == 76 && g == 51 && b == 102 {
        MyColor::Magenta
    } else if r == 44 && g == 167 && b == 184 {
        MyColor::Cyan
    } else if r == 212 && g == 210 && b == 195 {
        MyColor::White
    } else if r == 33 && g == 33 && b == 33 {
        MyColor::BrightBlack
    } else if r == 255 && g == 0 && b == 0 {
        MyColor::BrightRed
    } else if r == 0 && g == 255 && b == 0 {
        MyColor::BrightGreen
    } else if r == 255 && g == 230 && b == 0 {
        MyColor::BrightYellow
    } else if r == 0 && g == 0 && b == 255 {
        MyColor::BrightBlue
    } else if r == 123 && g == 0 && b == 255 {
        MyColor::BrightMagenta
    } else if r == 0 && g == 218 && b == 247 {
        MyColor::BrightCyan
    } else if r == 255 && g == 255 && b == 255 {
        MyColor::BrightWhite
    } else {
        MyColor::RGB(r, g, b)
    }
}

/// Six upper-case hexadecimal digits for a triple, `RRGGBB`.
pub open spec fn rgb_hex(rgb: (u8, u8, u8)) -> Seq<char> {
    hex_byte(rgb.0) + hex_byte(rgb.1) + hex_byte(rgb.2)
}

pub open spec fn channel_of(rgb: (u8, u8, u8), chan: Color_channel) -> u8 {
    match chan {
        Color_channel::R => rgb.0,
        Color_channel::G => rgb.1,
        Color_channel::B => rgb.2,
    }
}

/// The triple with one channel replaced.
pub open spec fn rgb_with(rgb: (u8, u8, u8), chan: Color_channel, v: u8) -> (u8, u8, u8) {
    match chan {
        Color_channel::R => (v, rgb.1, rgb.2),
        Color_channel::G => (rgb.0, v, rgb.2),
        Color_channel::B => (rgb.0, rgb.1, v),
    }
}

/// The three bytes that six chars denote, each pair read as by `u8::from_str_radix(.., 16)`.
pub open spec fn hex_triple(s: Seq<char>) -> Option<(u8, u8, u8)> {
    if s.len() < 6 {
        None
    } else {
        match (parse_hex_pair(s[0], s[1]), parse_hex_pair(s[2], s[3]), parse_hex_pair(s[4], s[5])) {
            (Some(r), Some(g), Some(b)) => Some((r, g, b)),
            _ => None,
        }
    }
}

/// What `parse_hex_color` gives for the chars of an ASCII string.
pub open spec fn hex_color_of(s: Seq<char>) -> Option<MyColor> {
    if s.len() == 6 {
        match hex_triple(s) {
            Some(t) => Some(MyColor::RGB(t.0, t.1, t.2)),
            None => None,
        }
    } else {
        None
    }
}

fn palette(c: MyColor) -> (r: (u8, u8, u8))
    ensures
        r == color_rgb(c),
{
    match c {
        MyColor::Black => (0, 0, 0),
        MyColor::Red => (125, 0, 0),
        MyColor::Green => (0, 125, 0),
        MyColor::Yellow => (181, 165, 54),
        MyColor::Blue => (0, 0, 125),
        MyColor::Magenta => (76, 51, 102),
        MyColor::Cyan => (44, 167, 184),
        MyColor::White => (212, 210, 195),
        MyColor::BrightBlack => (33, 33, 33),
        MyColor::BrightRed => (255, 0, 0),
        MyColor::BrightGreen => (0, 255, 0),
        MyColor::BrightYellow => (255, 230, 0),
        MyColor::BrightBlue => (0, 0, 255),
        MyColor::BrightMagenta => (123, 0, 255),
        MyColor::BrightCyan => (0, 218, 247),
        MyColor::BrightWhite => (255, 255, 255),
        MyColor::RGB(r, g, b) => (r, g, b),
    }
}

/// The color for a triple: a named color where one is drawn with it, else `RGB`.
pub fn color_from_rgb(r: u8, g: u8, b: u8) -> (c: MyColor)
    ensures
        c == canonical_color((r, g, b)),
{
    match (r, g, b) {
        (0, 0, 0) => MyColor::Black,
        (125, 0, 0) => MyColor::Red,
        (0, 125, 0) => MyColor::Green,
        (181, 165, 54) => MyColor::Yellow,
        (0, 0, 125) => MyColor::Blue,
        (76, 51, 102) => MyColor::Magenta,
        (44, 167, 184) => MyColor::Cyan,
        (212, 210, 195) => MyColor::White,
        (33, 33, 33) => MyColor::BrightBlack,
        (255, 0, 0) => MyColor::BrightRed,
        (0, 255, 0) => MyColor::BrightGreen,
        (255, 230, 0) => MyColor::BrightYellow,
        (0, 0, 255) => MyColor::BrightBlue,
        (123, 0, 255) => MyColor::BrightMagenta,
        (0, 218, 247) => MyColor::BrightCyan,
        (255, 255, 255) => MyColor::BrightWhite,
        _ => MyColor::RGB(r, g, b),
    }
}

/// Reads three hexadecimal pairs from `v[0..6]`.
fn hex_triple_exec(v: &Vec<char>) -> (r: Option<(u8, u8, u8)>)
    ensures
        r == hex_triple(v@),
{
    if v.len() < 6 {
        return None;
    }
    match (parse_hex_pair_exec(v[0], v[1]), parse_hex_pair_exec(v[2], v[3]), parse_hex_pair_exec(v[4], v[5])) {
        (Some(r), Some(g), Some(b)) => Some((r, g, b)),
        _ => None,
    }
}

impl MyColor {
    pub fn new(r: u8, g: u8, b: u8) -> (c: MyColor)
        ensures
            c == MyColor::RGB(r, g, b),
    {
        MyColor::RGB(r, g, b)
    }

    /// The color as six upper-case hexadecimal digits, `RRGGBB`.
    pub fn rgb_str(&self) -> (s: String)
        ensures
            s@ == rgb_hex(color_rgb(*self)),
    {
        let (r, g, b) = palette(*self);
        let mut s = String::new();
        push_hex_byte(&mut s, r);
        push_hex_byte(&mut s, g);
        push_hex_byte(&mut s, b);
        s
    }

    pub fn get_rgb(&self) -> (rgb: (u8, u8, u8))
        ensures
            rgb == color_rgb(*self),
    {
        palette(*self)
    }

    /// One channel of the color.
    pub fn channel(&self, chan: Color_channel) -> (v: u8)
        ensures
            v == channel_of(color_rgb(*self), chan),
    {
        let (r, g, b) = palette(*self);
        match chan {
            Color_channel::R => r,
            Color_channel::G => g,
            Color_channel::B => b,
        }
    }

    /// The color with one channel set to `v`, as an explicit triple.
    pub fn with_channel(&self, chan: Color_channel, v: u8) -> (c: MyColor)
        ensures
            c == (MyColor::RGB(rgb_with(color_rgb(*self), chan, v).0, rgb_with(color_rgb(*self), chan, v).1, rgb_with(color_rgb(*self), chan, v).2)),
    {
        let (r, g, b) = palette(*self);
        match chan {
            Color_channel::R => MyColor::RGB(v, g, b),
            Color_channel::G => MyColor::RGB(r, v, b),
            Color_channel::B => MyColor::RGB(r, g, v),
        }
    }

    /// Reads a color from the six hexadecimal digits at the start of `value`; a triple that
    /// a named color is drawn with gives that named color.
    pub fn from_hex_string(value: String) -> (c: MyColor)
        requires
            value@.len() >= 6,
            is_ascii_chars(value@.take(6)),
            hex_triple(value@) is Some,
        ensures
            c == canonical_color(hex_triple(value@).unwrap()),
    {
        let v = chars_of(value.as_str());
        let t = hex_triple_exec(&v);
        match t {
            Some((r, g, b)) => color_from_rgb(r, g, b),
            None => MyColor::BrightWhite,
        }
    }
}

/// Reads a color written as exactly six hexadecimal digits.
pub fn parse_hex_color(hex: &str) -> (r: Option<MyColor>)
    requires
        hex.spec_bytes().len() == 6 ==> is_char_boundary(hex.spec_bytes(), 2) && is_char_boundary(
            hex.spec_bytes(),
            4,
        ),
    ensures
        r == (if hex.is_ascii() {
            hex_color_of(hex@)
        } else {
            None::<MyColor>
        }),
{
    broadcast use vstd::string::is_ascii_spec_bytes;
    if hex.len() != 6 {
        return None;
    }
    if !hex.is_ascii() {
        return None;
    }
    let v = chars_of(hex);
    match hex_triple_exec(&v) {
        Some((r, g, b)) => Some(MyColor::RGB(r, g, b)),
        None => None,
    }
}

/// Setting a channel and reading it back gives the value set; the other channels keep
/// the color's values.
pub proof fn lemma_with_channel(c: MyColor, chan: Color_channel, other: Color_channel, v: u8)
    requires
        other != chan,
    ensures
        channel_of(rgb_with(color_rgb(c), chan, v), chan) == v,
        channel_of(rgb_with(color_rgb(c), chan, v), other) == channel_of(color_rgb(c), other),
{
}

/// A triple is drawn the same after naming it.
pub proof fn lemma_canonical_rgb(rgb: (u8, u8, u8))
    ensures
        color_rgb(canonical_color(rgb)) == rgb,
{
}

/// Reading back the hexadecimal form of a color gives its triple.
pub proof fn lemma_rgb_hex_roundtrip(c: MyColor)
    ensures
        hex_triple(rgb_hex(color_rgb(c))) == Some(color_rgb(c)),
        hex_color_of(rgb_hex(color_rgb(c))) == Some(MyColor::RGB(color_rgb(c).0, color_rgb(c).1, color_rgb(c).2)),
{
    let (r, g, b) = color_rgb(c);
    let s = rgb_hex(color_rgb(c));
    lemma_hex_byte_roundtrip(r);
    lemma_hex_byte_roundtrip(g);
    lemma_hex_byte_roundtrip(b);
    assert(s[0] == hex_byte(r)[0] && s[1] == hex_byte(r)[1]);
    assert(s[2] == hex_byte(g)[0] && s[3] == hex_byte(g)[1]);
    assert(s[4] == hex_byte(b)[0] && s[5] == hex_byte(b)[1]);
}

/// The text `rgb_str` writes is six ASCII bytes, split at char boundaries, and
/// `parse_hex_color` reads it back as the color's triple.
pub proof fn lemma_rgb_str_reads_back(c: MyColor, s: &str)
    requires
        s@ == rgb_hex(color_rgb(c)),
    ensures
        s.is_ascii(),
        s.spec_bytes().len() == 6,
        is_char_boundary(s.spec_bytes(), 2),
        is_char_boundary(s.spec_bytes(), 4),
        hex_color_of(s@) == Some(MyColor::RGB(color_rgb(c).0, color_rgb(c).1, color_rgb(c).2)),
{
    lemma_rgb_hex_roundtrip(c);
    let t = s@;
    assert forall|i: int| 0 <= i < t.len() implies '\0' <= #[trigger] t[i] <= '\u{7f}' by {
        let (r, g, b) = color_rgb(c);
        assert(t[0] == hex_byte(r)[0] && t[1] == hex_byte(r)[1]);
        assert(t[2] == hex_byte(g)[0] && t[3] == hex_byte(g)[1]);
        assert(t[4] == hex_byte(b)[0] && t[5] == hex_byte(b)[1]);
    }
    crate::fields::lemma_ascii_boundary(t, 2);
    crate::fields::lemma_ascii_boundary(t, 4);
}

// ------------------------------------------------------------------------
// Tags
// ------------------------------------------------------------------------

/// A named, colored label.
#[derive(Debug, PartialEq, Eq, Hash, Clone)]
pub struct Tag {
    pub name: String,
    pub color: MyColor,
}

impl Tag {
    /// A tag, bright white unless a color is given.
    pub fn new(name: String, color: Option<MyColor>) -> (t: Tag)
        ensures
            t.name@ == name@,
            t.color == (match color {
                Some(c) => c,
                None => MyColor::BrightWhite,
            }),
    {
        Tag {
            name,
            color: if let Some(x) = color {
                x
            } else {
                MyColor::BrightWhite
            },
        }
    }
}

// ------------------------------------------------------------------------
// Frequencies
// ------------------------------------------------------------------------

/// How often something recurs.
#[derive(Debug, PartialEq, Eq, Clone, Copy, Hash, Structural)]
pub enum Frequency {
    Once,
    SECONDS(u8),
    MIN(u8),
    HOUR(u8),
    DAY(u16),
    WEEK(u8),
    MONTH(u8),
    YEAR(u8),
    DECADE(u8),
    CENTURY(u8),
}

/// Which unit a stored frequency name denotes: 1 to 8 for the units taking a byte
/// count, in the order `SECONDS, MIN, HOUR, WEEK, MONTH, YEAR, DECADE, CENTURY`;
/// 9 for `Once`; 0 for an unknown name.
pub open spec fn frequency_unit(name: Seq<char>) -> int {
    if name == "SECONDS"@ {
        1
    } else if name == "MIN"@ {
        2
    } else if name == "HOUR"@ {
        3
    } else if name == "WEEK"@ {
        4
    } else if name == "MONTH"@ {
        5
    } else if name == "YEAR"@ {
        6
    } else if name == "DECADE"@ {
        7
    } else if name == "CENTURY"@ {
        8
    } else if name == "Once"@ {
        9
    } else {
        0
    }
}

pub open spec fn frequency_with(unit: int, x: u8) -> Frequency {
    if unit == 1 {
        Frequency::SECONDS(x)
    } else if unit == 2 {
        Frequency::MIN(x)
    } else if unit == 3 {
        Frequency::HOUR(x)
    } else if unit == 4 {
        Frequency::WEEK(x)
    } else if unit == 5 {
        Frequency::MONTH(x)
    } else if unit == 6 {
        Frequency::YEAR(x)
    } else if unit == 7 {
        Frequency::DECADE(x)
    } else {
        Frequency::CENTURY(x)
    }
}

/// The number between the first `(` at `start` and the first `)` at `end`, read as an
/// unsigned integer no larger than `max`; `None` where reading it fails.
pub open spec fn bracketed(s: Seq<char>, start: int, end: int, max: nat) -> Option<nat> {
    if start + 1 > end {
        None
    } else {
        parse_unsigned(s.subrange(start + 1, end), max)
    }
}

/// What `Frequency::from_raw_str` gives for a text such as `HOUR(3)`; `None` for the
/// texts on which it fails (an unreadable count after a known unit name, or a `)`
/// before the `(` there).
pub open spec fn frequency_from_raw(s: Seq<char>) -> Option<Frequency> {
    let start = find_char(s, '(');
    let end = find_char(s, ')');
    if start < 0 || end < 0 {
        Some(Frequency::SECONDS(0))
    } else if s.len() >= 3 && s.take(3) == "DAY"@ {
        match bracketed(s, start, end, 65535) {
            Some(x) => Some(Frequency::DAY(x as u16)),
            None => None,
        }
    } else {
        let unit = frequency_unit(s.take(start));
        if unit == 0 {
            Some(Frequency::SECONDS(0))
        } else if unit == 9 {
            Some(Frequency::Once)
        } else {
            match bracketed(s, start, end, 255) {
                Some(x) => Some(frequency_with(unit, x as u8)),
                None => None,
            }
        }
    }
}

/// The stored form of a frequency, such as `HOUR(3)` or `Once`.
pub open spec fn frequency_raw(f: Frequency) -> Seq<char> {
    match f {
        Frequency::Once => "Once"@,
        Frequency::SECONDS(x) => "SECONDS"@ + seq!['('] + decimal(x as nat) + seq![')'],
        Frequency::MIN(x) => "MIN"@ + seq!['('] + decimal(x as nat) + seq![')'],
        Frequency::HOUR(x) => "HOUR"@ + seq!['('] + decimal(x as nat) + seq![')'],
        Frequency::DAY(x) => "DAY"@ + seq!['('] + decimal(x as nat) + seq![')'],
        Frequency::WEEK(x) => "WEEK"@ + seq!['('] + decimal(x as nat) + seq![')'],
        Frequency::MONTH(x) => "MONTH"@ + seq!['('] + decimal(x as nat) + seq![')'],
        Frequency::YEAR(x) => "YEAR"@ + seq!['('] + decimal(x as nat) + seq![')'],
        Frequency::DECADE(x) => "DECADE"@ + seq!['('] + decimal(x as nat) + seq![')'],
        Frequency::CENTURY(x) => "CENTURY"@ + seq!['('] + decimal(x as nat) + seq![')'],
    }
}

fn frequency_unit_exec(v: &Vec<char>, start: usize) -> (u: u8)
    requires
        start <= v@.len(),
    ensures
        u == frequency_unit(v@.take(start as int)),
{
    assert(v@.subrange(0, start as int) =~= v@.take(start as int));
    if range_is(v, 0, start, "SECONDS") {
        1
    } else if range_is(v, 0, start, "MIN") {
        2
    } else if range_is(v, 0, start, "HOUR") {
        3
    } else if range_is(v, 0, start, "WEEK") {
        4
    } else if range_is(v, 0, start, "MONTH") {
        5
    } else if range_is(v, 0, start, "YEAR") {
        6
    } else if range_is(v, 0, start, "DECADE") {
        7
    } else if range_is(v, 0, start, "CENTURY") {
        8
    } else if range_is(v, 0, start, "Once") {
        9
    } else {
        0
    }
}

fn bracketed_exec(v: &Vec<char>, start: usize, end: usize, max: u64) -> (r: Option<u64>)
    requires
        start < v@.len(),
        end < v@.len(),
        max <= u32::MAX,
    ensures
        r matches Some(x) ==> bracketed(v@, start as int, end as int, max as nat) == Some(x as nat),
        r is None ==> bracketed(v@, start as int, end as int, max as nat) is None,
{
    if start >= end {
        None
    } else {
        parse_unsigned_range(v, start + 1, end, max)
    }
}

impl Frequency {
    /// Reads a stored frequency such as `HOUR(3)`, `DAY(400)` or `Once()`. A text
    /// without both brackets, or with an unknown unit name, gives `SECONDS(0)`.
    pub fn from_raw_str(freq: &str) -> (r: Frequency)
        requires
            frequency_from_raw(freq@) is Some,
        ensures
            frequency_from_raw(freq@) == Some(r),
    {
        let v = chars_of(freq);
        let start = match find_char_in(&v, '(') {
            Some(i) => i,
            None => { return Frequency::SECONDS(0); }
        };
        let end = match find_char_in(&v, ')') {
            Some(i) => i,
            None => { return Frequency::SECONDS(0); }
        };
        proof {
            reveal_strlit("DAY");
        }
        if starts_with_lit(&v, "DAY") {
            match bracketed_exec(&v, start, end, 65535) {
                Some(x) => Frequency::DAY(x as u16),
                None => Frequency::SECONDS(0),
            }
        } else {
            let unit = frequency_unit_exec(&v, start);
            if unit == 0 {
                Frequency::SECONDS(0)
            } else if unit == 9 {
                Frequency::Once
            } else {
                match bracketed_exec(&v, start, end, 255) {
                    Some(x) => {
                        let b = x as u8;
                        if unit == 1 {
                            Frequency::SECONDS(b)
                        } else if unit == 2 {
                            Frequency::MIN(b)
                        } else if unit == 3 {
                            Frequency::HOUR(b)
                        } else if unit == 4 {
                            Frequency::WEEK(b)
                        } else if unit == 5 {
                            Frequency::MONTH(b)
                        } else if unit == 6 {
                            Frequency::YEAR(b)
                        } else if unit == 7 {
                            Frequency::DECADE(b)
                        } else {
                            Frequency::CENTURY(b)
                        }
                    },
                    None => Frequency::SECONDS(0),
                }
            }
        }
    }

    /// Reads a stored frequency as `from_raw_str` does, or gives `None` for the texts on
    /// which that cannot read one.
    pub fn from_raw_str_checked(freq: &str) -> (r: Option<Frequency>)
        ensures
            r == frequency_from_raw(freq@),
    {
        let v = chars_of(freq);
        let start = match find_char_in(&v, '(') {
            Some(i) => i,
            None => { return Some(Frequency::SECONDS(0)); }
        };
        let end = match find_char_in(&v, ')') {
            Some(i) => i,
            None => { return Some(Frequency::SECONDS(0)); }
        };
        proof {
            reveal_strlit("DAY");
        }
        if starts_with_lit(&v, "DAY") {
            match bracketed_exec(&v, start, end, 65535) {
                Some(x) => Some(Frequency::DAY(x as u16)),
                None => None,
            }
        } else {
            let unit = frequency_unit_exec(&v, start);
            if unit == 0 {
                Some(Frequency::SECONDS(0))
            } else if unit == 9 {
                Some(Frequency::Once)
            } else {
                match bracketed_exec(&v, start, end, 255) {
                    Some(x) => {
                        let b = x as u8;
                        Some(if unit == 1 {
                            Frequency::SECONDS(b)
                        } else if unit == 2 {
                            Frequency::MIN(b)
                        } else if unit == 3 {
                            Frequency::HOUR(b)
                        } else if unit == 4 {
                            Frequency::WEEK(b)
                        } else if unit == 5 {
                            Frequency::MONTH(b)
                        } else if unit == 6 {
                            Frequency::YEAR(b)
                        } else if unit == 7 {
                            Frequency::DECADE(b)
                        } else {
                            Frequency::CENTURY(b)
                        })
                    },
                    None => None,
                }
            }
        }
    }


    /// The stored form of the frequency.
    pub fn to_raw_string(self) -> (s: String)
        ensures
            s@ == frequency_raw(self),
    {
        let (name, x): (&str, u64) = match self {
            Frequency::Once => { return String::from_str("Once"); },
            Frequency::SECONDS(x) => ("SECONDS", x as u64),
            Frequency::MIN(x) => ("MIN", x as u64),
            Frequency::HOUR(x) => ("HOUR", x as u64),
            Frequency::DAY(x) => ("DAY", x as u64),
            Frequency::WEEK(x) => ("WEEK", x as u64),
            Frequency::MONTH(x) => ("MONTH", x as u64),
            Frequency::YEAR(x) => ("YEAR", x as u64),
            Frequency::DECADE(x) => ("DECADE", x as u64),
            Frequency::CENTURY(x) => ("CENTURY", x as u64),
        };
        let mut s = String::from_str(name);
        push_char(&mut s, '(');
        push_decimal(&mut s, x);
        push_char(&mut s, ')');
        s
    }
}

proof fn lemma_decimal_plain(n: nat)
    ensures
        forall|i: int| 0 <= i < decimal(n).len() ==> '0' <= #[trigger] decimal(n)[i] <= '9',
        decimal(n).len() >= 1,
    decreases n,
{
    if n >= 10 {
        lemma_decimal_plain(n / 10);
    }
}

/// Where the brackets of `name(digits)` are, for a name without brackets.
proof fn lemma_bracket_positions(name: Seq<char>, n: nat, max: nat)
    requires
        forall|i: int| 0 <= i < name.len() ==> name[i] != '(' && name[i] != ')',
        n <= max,
    ensures
        ({
            let s = name + seq!['('] + decimal(n) + seq![')'];
            &&& find_char(s, '(') == name.len()
            &&& find_char(s, ')') == name.len() + 1 + decimal(n).len()
            &&& s.take(name.len() as int) == name
            &&& bracketed(s, name.len() as int, (name.len() + 1 + decimal(n).len()) as int, max) == Some(n)
        }),
{
    let s = name + seq!['('] + decimal(n) + seq![')'];
    let d = decimal(n);
    lemma_decimal_plain(n);
    lemma_find_char(s, '(', name.len() as int);
    assert forall|j: int| 0 <= j < name.len() + 1 + d.len() implies s[j] != ')' by {
        if j < name.len() {
        } else if j == name.len() {
        } else {
            assert(s[j] == d[j - name.len() - 1]);
        }
    }
    lemma_find_char(s, ')', (name.len() + 1 + d.len()) as int);
    assert(s.take(name.len() as int) =~= name);
    assert(s.subrange((name.len() + 1) as int, (name.len() + 1 + d.len()) as int) =~= d);
    lemma_parse_decimal(n, max);
}

/// Reading back the stored form of a frequency gives the frequency: `from_raw_str` of
/// what `to_raw_string` writes is the frequency written, for every frequency but `Once`,
/// whose stored form `Once` has no brackets and reads back as `SECONDS(0)`.
pub proof fn lemma_frequency_raw_roundtrip(f: Frequency)
    requires
        f != Frequency::Once,
    ensures
        frequency_from_raw(frequency_raw(f)) == Some(f),
{
    reveal_strlit("SECONDS");
    reveal_strlit("MIN");
    reveal_strlit("HOUR");
    reveal_strlit("DAY");
    reveal_strlit("WEEK");
    reveal_strlit("MONTH");
    reveal_strlit("YEAR");
    reveal_strlit("DECADE");
    reveal_strlit("CENTURY");
    reveal_strlit("Once");
    let s = frequency_raw(f);
    match f {
        Frequency::Once => {},
        Frequency::SECONDS(x) => {
            lemma_bracket_positions("SECONDS"@, x as nat, 255);
            assert(s.take(3) =~= "SECONDS"@.take(3));
            assert(s.take(3)[0] != "DAY"@[0]);
        },
        Frequency::MIN(x) => {
            lemma_bracket_positions("MIN"@, x as nat, 255);
            assert(s.take(3) =~= "MIN"@.take(3));
            assert(s.take(3)[0] != "DAY"@[0]);
            assert("MIN"@ != "SECONDS"@);
        },
        Frequency::HOUR(x) => {
            lemma_bracket_positions("HOUR"@, x as nat, 255);
            assert(s.take(3) =~= "HOUR"@.take(3));
            assert(s.take(3)[0] != "DAY"@[0]);
            assert("HOUR"@ != "SECONDS"@ && "HOUR"@ != "MIN"@);
        },
        Frequency::DAY(x) => {
            lemma_bracket_positions("DAY"@, x as nat, 65535);
            assert(s.take(3) =~= "DAY"@);
        },
        Frequency::WEEK(x) => {
            lemma_bracket_positions("WEEK"@, x as nat, 255);
            assert(s.take(3) =~= "WEEK"@.take(3));
            assert(s.take(3)[0] != "DAY"@[0]);
            assert("WEEK"@ != "SECONDS"@ && "WEEK"@ != "MIN"@ && "WEEK"@[0] != "HOUR"@[0]);
        },
        Frequency::MONTH(x) => {
            lemma_bracket_positions("MONTH"@, x as nat, 255);
            assert(s.take(3) =~= "MONTH"@.take(3));
            assert(s.take(3)[0] != "DAY"@[0]);
            assert("MONTH"@ != "SECONDS"@ && "MONTH"@ != "MIN"@ && "MONTH"@ != "HOUR"@ && "MONTH"@ != "WEEK"@);
        },
        Frequency::YEAR(x) => {
            lemma_bracket_positions("YEAR"@, x as nat, 255);
            assert(s.take(3) =~= "YEAR"@.take(3));
            assert(s.take(3)[0] != "DAY"@[0]);
            assert("YEAR"@ != "SECONDS"@ && "YEAR"@ != "MIN"@ && "YEAR"@[0] != "HOUR"@[0] && "YEAR"@[0] != "WEEK"@[0] && "YEAR"@ != "MONTH"@);
        },
        Frequency::DECADE(x) => {
            lemma_bracket_positions("DECADE"@, x as nat, 255);
            assert(s.take(3) =~= "DECADE"@.take(3));
            assert(s.take(3)[1] != "DAY"@[1]);
            assert("DECADE"@ != "SECONDS"@ && "DECADE"@ != "MIN"@ && "DECADE"@ != "HOUR"@ && "DECADE"@ != "WEEK"@ && "DECADE"@ != "MONTH"@ && "DECADE"@ != "YEAR"@);
        },
        Frequency::CENTURY(x) => {
            lemma_bracket_positions("CENTURY"@, x as nat, 255);
            assert(s.take(3) =~= "CENTURY"@.take(3));
            assert(s.take(3)[0] != "DAY"@[0]);
            assert("CENTURY"@[0] != "SECONDS"@[0] && "CENTURY"@ != "MIN"@ && "CENTURY"@ != "HOUR"@ && "CENTURY"@ != "WEEK"@ && "CENTURY"@ != "MONTH"@ && "CENTURY"@ != "YEAR"@ && "CENTURY"@ != "DECADE"@);
        },
    }
}

// ------------------------------------------------------------------------
// Durations
// ------------------------------------------------------------------------

/// How long something lasts: a count of one unit, a custom span, or an interval between
/// two date-times.
#[derive(Debug, PartialEq, Eq, Clone, Copy, Hash, Structural)]
pub enum Duration {
    SECONDS(u8),
    MIN(u8),
    HOUR(u8),
    DAY(u16),
    WEEK(u8),
    MONTH(u8),
    YEAR(u8),
    DECADE(u8),
    CENTURY(u8),
    Custom(u8, u8, u8, u16, u8, u8, u8),
    Interval(u8, u8, u16, u8, u8, u8, u8, u8, u16, u8, u8, u8),
}

/// Which unit a lower-case duration name denotes: 1 `seconds`, 2 `min`, 3 `hour`,
/// 4 `day`, 5 `week`, 6 `month`, 7 `year`, 8 `decade`, 9 `century`, 0 unknown.
pub open spec fn duration_unit(name: Seq<char>) -> int {
    if name == "seconds"@ {
        1
    } else if name == "min"@ {
        2
    } else if name == "hour"@ {
        3
    } else if name == "day"@ {
        4
    } else if name == "week"@ {
        5
    } else if name == "month"@ {
        6
    } else if name == "year"@ {
        7
    } else if name == "decade"@ {
        8
    } else if name == "century"@ {
        9
    } else {
        0
    }
}

pub open spec fn duration_with(unit: int, x: u8) -> Duration {
    if unit == 1 {
        Duration::SECONDS(x)
    } else if unit == 2 {
        Duration::MIN(x)
    } else if unit == 3 {
        Duration::HOUR(x)
    } else if unit == 5 {
        Duration::WEEK(x)
    } else if unit == 6 {
        Duration::MONTH(x)
    } else if unit == 7 {
        Duration::YEAR(x)
    } else if unit == 8 {
        Duration::DECADE(x)
    } else {
        Duration::CENTURY(x)
    }
}

// ------------------------------------------------------------------------
// Intervals: `D/M/YYYY H:M:S -> D/M/YYYY H:M:S`
// ------------------------------------------------------------------------

/// The first index in `lo..hi` holding `c`, or -1.
pub open spec fn find_in(s: Seq<char>, lo: int, hi: int, c: char) -> int
    decreases hi - lo,
{
    if lo >= hi {
        -1
    } else if s[lo] == c {
        lo
    } else {
        find_in(s, lo + 1, hi, c)
    }
}

/// The first index from `lo` on where `->` starts, or -1.
pub open spec fn find_arrow(s: Seq<char>, lo: int) -> int
    decreases s.len() - lo,
{
    if lo + 1 >= s.len() {
        -1
    } else if s[lo] == '-' && s[lo + 1] == '>' {
        lo
    } else {
        find_arrow(s, lo + 1)
    }
}

/// The start of `lo..hi` with leading white space skipped.
pub open spec fn skip_space(s: Seq<char>, lo: int, hi: int) -> int
    decreases hi - lo,
{
    if lo < hi && char_white_space(s[lo]) {
        skip_space(s, lo + 1, hi)
    } else {
        lo
    }
}

/// The end of `lo..hi` with trailing white space dropped.
pub open spec fn drop_space(s: Seq<char>, lo: int, hi: int) -> int
    decreases hi - lo,
{
    if lo < hi && char_white_space(s[hi - 1]) {
        drop_space(s, lo, hi - 1)
    } else {
        hi
    }
}

/// Where `lo..hi` splits into exactly three pieces at `sep`: the indices of the two
/// separators.
pub open spec fn three_fields(s: Seq<char>, lo: int, hi: int, sep: char) -> Option<(int, int)> {
    let i = find_in(s, lo, hi, sep);
    if i < 0 {
        None
    } else {
        let j = find_in(s, i + 1, hi, sep);
        if j < 0 || find_in(s, j + 1, hi, sep) >= 0 {
            None
        } else {
            Some((i, j))
        }
    }
}

/// One number of a date or time: the chars `lo..hi` read as an unsigned number of at
/// most `max`.
pub open spec fn field_value(s: Seq<char>, lo: int, hi: int, max: nat) -> Option<nat> {
    parse_unsigned(s.subrange(lo, hi), max)
}

/// A date and time `D/M/YYYY H:M:S` in `lo..hi`: the date up to the first space, the
/// time after it with its leading white space skipped; day, month, hour, minute and
/// second fit a byte and the year two.
pub open spec fn stamp(s: Seq<char>, lo: int, hi: int) -> Option<(u8, u8, u16, u8, u8, u8)> {
    let sp = find_in(s, lo, hi, ' ');
    if sp < 0 {
        None
    } else {
        let tlo = skip_space(s, sp + 1, hi);
        match (three_fields(s, lo, sp, '/'), three_fields(s, tlo, hi, ':')) {
            (Some((a, b)), Some((c, d))) => match (
                field_value(s, lo, a, 255),
                field_value(s, a + 1, b, 255),
                field_value(s, b + 1, sp, 65535),
                field_value(s, tlo, c, 255),
                field_value(s, c + 1, d, 255),
                field_value(s, d + 1, hi, 255),
            ) {
                (Some(dd), Some(mm), Some(yy), Some(h), Some(mi), Some(se)) => Some(
                    (dd as u8, mm as u8, yy as u16, h as u8, mi as u8, se as u8),
                ),
                _ => None,
            },
            _ => None,
        }
    }
}

/// An interval `D/M/YYYY H:M:S -> D/M/YYYY H:M:S`: the text is split at the first `->`
/// and each side, trimmed of white space, is read as a date and time.
pub open spec fn interval_from_raw(s: Seq<char>) -> Option<Duration> {
    let k = find_arrow(s, 0);
    if k < 0 {
        None
    } else {
        let a_lo = skip_space(s, 0, k);
        let a_hi = drop_space(s, a_lo, k);
        let b_lo = skip_space(s, k + 2, s.len() as int);
        let b_hi = drop_space(s, b_lo, s.len() as int);
        match (stamp(s, a_lo, a_hi), stamp(s, b_lo, b_hi)) {
            (Some(x), Some(y)) => Some(Duration::Interval(x.0, x.1, x.2, x.3, x.4, x.5, y.0, y.1, y.2, y.3, y.4, y.5)),
            _ => None,
        }
    }
}

fn find_in_exec(v: &Vec<char>, lo: usize, hi: usize, c: char) -> (r: Option<usize>)
    requires
        lo <= hi <= v@.len(),
    ensures
        r matches Some(i) ==> lo <= i < hi && find_in(v@, lo as int, hi as int, c) == i,
        r is None ==> find_in(v@, lo as int, hi as int, c) == -1,
{
    let mut i = lo;
    while i < hi
        invariant
            lo <= i <= hi <= v@.len(),
            find_in(v@, lo as int, hi as int, c) == find_in(v@, i as int, hi as int, c),
        decreases hi - i,
    {
        if v[i] == c {
            return Some(i);
        }
        i = i + 1;
    }
    None
}

fn find_arrow_exec(v: &Vec<char>) -> (r: Option<usize>)
    ensures
        r matches Some(i) ==> i + 1 < v@.len() && find_arrow(v@, 0) == i,
        r is None ==> find_arrow(v@, 0) == -1,
{
    let mut i: usize = 0;
    while v.len() > 1 && i < v.len() - 1
        invariant
            i <= v@.len(),
            find_arrow(v@, 0) == find_arrow(v@, i as int),
        decreases v.len() - i,
    {
        if v[i] == '-' && v[i + 1] == '>' {
            return Some(i);
        }
        i = i + 1;
    }
    None
}

fn skip_space_exec(v: &Vec<char>, lo: usize, hi: usize) -> (r: usize)
    requires
        lo <= hi <= v@.len(),
    ensures
        lo <= r <= hi,
        r == skip_space(v@, lo as int, hi as int),
{
    let mut i = lo;
    while i < hi && is_whitespace(v[i])
        invariant
            lo <= i <= hi <= v@.len(),
            skip_space(v@, lo as int, hi as int) == skip_space(v@, i as int, hi as int),
        decreases hi - i,
    {
        i = i + 1;
    }
    i
}

fn drop_space_exec(v: &Vec<char>, lo: usize, hi: usize) -> (r: usize)
    requires
        lo <= hi <= v@.len(),
    ensures
        lo <= r <= hi,
        r == drop_space(v@, lo as int, hi as int),
{
    let mut j = hi;
    while j > lo && is_whitespace(v[j - 1])
        invariant
            lo <= j <= hi <= v@.len(),
            drop_space(v@, lo as int, hi as int) == drop_space(v@, lo as int, j as int),
        decreases j - lo,
    {
        j = j - 1;
    }
    j
}

fn three_fields_exec(v: &Vec<char>, lo: usize, hi: usize, sep: char) -> (r: Option<(usize, usize)>)
    requires
        lo <= hi <= v@.len(),
    ensures
        r matches Some((i, j)) ==> lo <= i < j < hi && three_fields(v@, lo as int, hi as int, sep) == Some((i as int, j as int)),
        r is None ==> three_fields(v@, lo as int, hi as int, sep) is None,
{
    let i = match find_in_exec(v, lo, hi, sep) {
        Some(i) => i,
        None => { return None; },
    };
    let j = match find_in_exec(v, i + 1, hi, sep) {
        Some(j) => j,
        None => { return None; },
    };
    match find_in_exec(v, j + 1, hi, sep) {
        Some(_) => None,
        None => Some((i, j)),
    }
}

fn field_exec(v: &Vec<char>, lo: usize, hi: usize, max: u64) -> (r: Option<u64>)
    requires
        lo <= hi <= v@.len(),
        max <= u32::MAX,
    ensures
        r matches Some(x) ==> x <= max && field_value(v@, lo as int, hi as int, max as nat) == Some(x as nat),
        r is None ==> field_value(v@, lo as int, hi as int, max as nat) is None,
{
    parse_unsigned_range(v, lo, hi, max)
}

fn stamp_exec(v: &Vec<char>, lo: usize, hi: usize) -> (r: Option<(u8, u8, u16, u8, u8, u8)>)
    requires
        lo <= hi <= v@.len(),
    ensures
        r == stamp(v@, lo as int, hi as int),
{
    let sp = match find_in_exec(v, lo, hi, ' ') {
        Some(sp) => sp,
        None => { return None; },
    };
    let tlo = skip_space_exec(v, sp + 1, hi);
    let (a, b) = match three_fields_exec(v, lo, sp, '/') {
        Some(x) => x,
        None => {
            return None;
        },
    };
    let (c, d) = match three_fields_exec(v, tlo, hi, ':') {
        Some(x) => x,
        None => {
            return None;
        },
    };
    let dd = field_exec(v, lo, a, 255);
    let mm = field_exec(v, a + 1, b, 255);
    let yy = field_exec(v, b + 1, sp, 65535);
    let h = field_exec(v, tlo, c, 255);
    let mi = field_exec(v, c + 1, d, 255);
    let se = field_exec(v, d + 1, hi, 255);
    match (dd, mm, yy, h, mi, se) {
        (Some(dd), Some(mm), Some(yy), Some(h), Some(mi), Some(se)) => Some(
            (dd as u8, mm as u8, yy as u16, h as u8, mi as u8, se as u8),
        ),
        _ => None,
    }
}

fn interval_exec(v: &Vec<char>) -> (r: Option<Duration>)
    ensures
        r == interval_from_raw(v@),
{
    let k = match find_arrow_exec(v) {
        Some(k) => k,
        None => { return None; },
    };
    let n = v.len();
    assert(k + 2 <= n);
    let a_lo = skip_space_exec(v, 0, k);
    let a_hi = drop_space_exec(v, a_lo, k);
    let b_lo = skip_space_exec(v, k + 2, n);
    let b_hi = drop_space_exec(v, b_lo, n);
    match (stamp_exec(v, a_lo, a_hi), stamp_exec(v, b_lo, b_hi)) {
        (Some(x), Some(y)) => Some(Duration::Interval(x.0, x.1, x.2, x.3, x.4, x.5, y.0, y.1, y.2, y.3, y.4, y.5)),
        _ => None,
    }
}

/// What `Duration::from_raw_str` gives for a text: a text without both brackets is an
/// interval `D/M/YYYY H:M:S -> D/M/YYYY H:M:S`; otherwise a unit and a bracketed count
/// such as `hour(3)`, an unknown unit name giving `SECONDS(0)`. `None` for the texts on
/// which it fails: an interval that does not read as two dates and times, every text
/// starting with `custom` in any letter case (its first comma-separated piece starts
/// with letters and never parses), and a bracketed count that does not read as a
/// `u16`, or exceeds 255 for a unit other than `day`.
pub open spec fn duration_from_raw(s: Seq<char>) -> Option<Duration> {
    let start = find_char(s, '(');
    let end = find_char(s, ')');
    if start < 0 || end < 0 {
        interval_from_raw(s)
    } else if s.len() >= 6 && ascii_lower(s.take(6)) == "custom"@ {
        None
    } else {
        match bracketed(s, start, end, 65535) {
            None => None,
            Some(x) => {
                let unit = duration_unit(s.take(start));
                if unit == 0 {
                    Some(Duration::SECONDS(0))
                } else if unit == 4 {
                    Some(Duration::DAY(x as u16))
                } else if x <= 255 {
                    Some(duration_with(unit, x as u8))
                } else {
                    None
                }
            },
        }
    }
}

fn duration_unit_exec(v: &Vec<char>, start: usize) -> (u: u8)
    requires
        start <= v@.len(),
    ensures
        u == duration_unit(v@.take(start as int)),
{
    assert(v@.subrange(0, start as int) =~= v@.take(start as int));
    if range_is(v, 0, start, "seconds") {
        1
    } else if range_is(v, 0, start, "min") {
        2
    } else if range_is(v, 0, start, "hour") {
        3
    } else if range_is(v, 0, start, "day") {
        4
    } else if range_is(v, 0, start, "week") {
        5
    } else if range_is(v, 0, start, "month") {
        6
    } else if range_is(v, 0, start, "year") {
        7
    } else if range_is(v, 0, start, "decade") {
        8
    } else if range_is(v, 0, start, "century") {
        9
    } else {
        0
    }
}

/// Appends `name(count)`.
fn push_unit(s: &mut String, name: &str, x: u64)
    ensures
        final(s)@ == old(s)@ + name@ + seq!['('] + decimal(x as nat) + seq![')'],
{
    push_str(s, name);
    push_char(s, '(');
    push_decimal(s, x);
    push_char(s, ')');
}

/// The stored form of a duration. Every unit is written as `NAME(count)` except
/// `MONTH`, whose count follows the name with no brackets.
pub open spec fn duration_raw(d: Duration) -> Seq<char> {
    let u = |name: Seq<char>, x: nat| name + seq!['('] + decimal(x) + seq![')'];
    match d {
        Duration::SECONDS(x) => u("SECONDS"@, x as nat),
        Duration::MIN(x) => u("MIN"@, x as nat),
        Duration::HOUR(x) => u("HOUR"@, x as nat),
        Duration::DAY(x) => u("DAY"@, x as nat),
        Duration::WEEK(x) => u("WEEK"@, x as nat),
        Duration::MONTH(x) => "MONTH"@ + decimal(x as nat),
        Duration::YEAR(x) => u("YEAR"@, x as nat),
        Duration::DECADE(x) => u("DECADE"@, x as nat),
        Duration::CENTURY(x) => u("CENTURY"@, x as nat),
        Duration::Custom(a, b, c, d, e, f, g) => "Custom("@ + decimal(a as nat) + seq![','] + decimal(b as nat)
            + seq![','] + decimal(c as nat) + seq![','] + decimal(d as nat) + seq![','] + decimal(e as nat)
            + seq![','] + decimal(f as nat) + seq![','] + decimal(g as nat) + seq![')'],
        Duration::Interval(a, b, c, d, e, f, g, h, i, j, k, l) => decimal(a as nat) + seq!['/'] + decimal(b as nat)
            + seq!['/'] + decimal(c as nat) + seq![' '] + decimal(d as nat) + seq![':'] + decimal(e as nat)
            + seq![':'] + decimal(f as nat) + "->"@ + decimal(g as nat) + seq!['/'] + decimal(h as nat)
            + seq!['/'] + decimal(i as nat) + seq![' '] + decimal(j as nat) + seq![':'] + decimal(k as nat)
            + seq![':'] + decimal(l as nat),
    }
}

/// Appends `sep` then the decimal spelling of `x`.
fn push_sep_decimal(s: &mut String, sep: char, x: u64)
    ensures
        final(s)@ == old(s)@ + seq![sep] + decimal(x as nat),
{
    push_char(s, sep);
    push_decimal(s, x);
}

/// The whole days a duration covers: a month is taken as 30 days, a year as 365, a
/// decade and a century as ten and a hundred such years; shorter units give the whole
/// days of their total, and custom spans and intervals give none.
pub open spec fn duration_days(d: Duration) -> int {
    match d {
        Duration::SECONDS(n) => n as int / 86400,
        Duration::MIN(n) => (n * 60) / 86400,
        Duration::HOUR(n) => n as int / 24,
        Duration::DAY(n) => n as int,
        Duration::WEEK(n) => 7 * n,
        Duration::MONTH(n) => 30 * n,
        Duration::YEAR(n) => 365 * n,
        Duration::DECADE(n) => 3650 * n,
        Duration::CENTURY(n) => 36500 * n,
        Duration::Custom(..) => 0,
        Duration::Interval(..) => 0,
    }
}

impl Duration {
    /// The whole days the duration covers.
    pub fn approx_days(&self) -> (r: i64)
        ensures
            r == duration_days(*self),
            0 <= r <= 36500 * 255,
    {
        match *self {
            Duration::SECONDS(n) => (n as i64) / 86400,
            Duration::MIN(n) => (n as i64 * 60) / 86400,
            Duration::HOUR(n) => (n as i64) / 24,
            Duration::DAY(n) => n as i64,
            Duration::WEEK(n) => 7 * (n as i64),
            Duration::MONTH(n) => 30 * (n as i64),
            Duration::YEAR(n) => 365 * (n as i64),
            Duration::DECADE(n) => 3650 * (n as i64),
            Duration::CENTURY(n) => 36500 * (n as i64),
            Duration::Custom(..) => 0,
            Duration::Interval(..) => 0,
        }
    }

    /// Reads a stored duration such as `hour(3)`, `day(400)` or an interval
    /// `3/3/2025 10:12:56 -> 4/3/2025 11:00:00`; an unknown unit name gives `SECONDS(0)`.
    pub fn from_raw_str(dur: &str) -> (r: Duration)
        requires
            duration_from_raw(dur@) is Some,
        ensures
            duration_from_raw(dur@) == Some(r),
    {
        let v = chars_of(dur);
        let (start, end) = match (find_char_in(&v, '('), find_char_in(&v, ')')) {
            (Some(i), Some(j)) => (i, j),
            _ => {
                return match interval_exec(&v) {
                    Some(d) => d,
                    None => Duration::SECONDS(0),
                };
            },
        };
        if v.len() >= 6 {
            let head = lower_ascii(&take_chars(&v, 6));
            assert(head@.subrange(0, 6) =~= head@);
            if range_is(&head, 0, 6, "custom") {
                return Duration::SECONDS(0);
            }
        }
        let x = match bracketed_exec(&v, start, end, 65535) {
            Some(x) => x,
            None => { return Duration::SECONDS(0); }
        };
        let unit = duration_unit_exec(&v, start);
        if unit == 0 {
            Duration::SECONDS(0)
        } else if unit == 4 {
            Duration::DAY(x as u16)
        } else if x <= 255 {
            let b = x as u8;
            if unit == 1 {
                Duration::SECONDS(b)
            } else if unit == 2 {
                Duration::MIN(b)
            } else if unit == 3 {
                Duration::HOUR(b)
            } else if unit == 5 {
                Duration::WEEK(b)
            } else if unit == 6 {
                Duration::MONTH(b)
            } else if unit == 7 {
                Duration::YEAR(b)
            } else if unit == 8 {
                Duration::DECADE(b)
            } else {
                Duration::CENTURY(b)
            }
        } else {
            Duration::SECONDS(0)
        }
    }

    /// Reads a stored duration as `from_raw_str` does, or gives `None` for the texts on
    /// which that cannot read one.
    pub fn from_raw_str_checked(dur: &str) -> (r: Option<Duration>)
        ensures
            r == duration_from_raw(dur@),
    {
        let v = chars_of(dur);
        let (start, end) = match (find_char_in(&v, '('), find_char_in(&v, ')')) {
            (Some(i), Some(j)) => (i, j),
            _ => {
                return interval_exec(&v);
            },
        };
        if v.len() >= 6 {
            let head = lower_ascii(&take_chars(&v, 6));
            assert(head@.subrange(0, 6) =~= head@);
            if range_is(&head, 0, 6, "custom") {
                return None;
            }
        }
        let x = match bracketed_exec(&v, start, end, 65535) {
            Some(x) => x,
            None => { return None; }
        };
        let unit = duration_unit_exec(&v, start);
        if unit == 0 {
            Some(Duration::SECONDS(0))
        } else if unit == 4 {
            Some(Duration::DAY(x as u16))
        } else if x <= 255 {
            let b = x as u8;
            Some(if unit == 1 {
                Duration::SECONDS(b)
            } else if unit == 2 {
                Duration::MIN(b)
            } else if unit == 3 {
                Duration::HOUR(b)
            } else if unit == 5 {
                Duration::WEEK(b)
            } else if unit == 6 {
                Duration::MONTH(b)
            } else if unit == 7 {
                Duration::YEAR(b)
            } else if unit == 8 {
                Duration::DECADE(b)
            } else {
                Duration::CENTURY(b)
            })
        } else {
            None
        }
    }


    /// The stored form of the duration.
    pub fn to_raw_string(self) -> (s: String)
        ensures
            s@ == duration_raw(self),
    {
        let mut s = String::new();
        match self {
            Duration::SECONDS(x) => push_unit(&mut s, "SECONDS", x as u64),
            Duration::MIN(x) => push_unit(&mut s, "MIN", x as u64),
            Duration::HOUR(x) => push_unit(&mut s, "HOUR", x as u64),
            Duration::DAY(x) => push_unit(&mut s, "DAY", x as u64),
            Duration::WEEK(x) => push_unit(&mut s, "WEEK", x as u64),
            Duration::MONTH(x) => {
                push_str(&mut s, "MONTH");
                push_decimal(&mut s, x as u64);
            },
            Duration::YEAR(x) => push_unit(&mut s, "YEAR", x as u64),
            Duration::DECADE(x) => push_unit(&mut s, "DECADE", x as u64),
            Duration::CENTURY(x) => push_unit(&mut s, "CENTURY", x as u64),
            Duration::Custom(a, b, c, d, e, f, g) => {
                push_str(&mut s, "Custom(");
                push_decimal(&mut s, a as u64);
                push_sep_decimal(&mut s, ',', b as u64);
                push_sep_decimal(&mut s, ',', c as u64);
                push_sep_decimal(&mut s, ',', d as u64);
                push_sep_decimal(&mut s, ',', e as u64);
                push_sep_decimal(&mut s, ',', f as u64);
                push_sep_decimal(&mut s, ',', g as u64);
                push_char(&mut s, ')');
            },
            Duration::Interval(a, b, c, d, e, f, g, h, i, j, k, l) => {
                push_decimal(&mut s, a as u64);
                push_sep_decimal(&mut s, '/', b as u64);
                push_sep_decimal(&mut s, '/', c as u64);
                push_sep_decimal(&mut s, ' ', d as u64);
                push_sep_decimal(&mut s, ':', e as u64);
                push_sep_decimal(&mut s, ':', f as u64);
                push_str(&mut s, "->");
                push_decimal(&mut s, g as u64);
                push_sep_decimal(&mut s, '/', h as u64);
                push_sep_decimal(&mut s, '/', i as u64);
                push_sep_decimal(&mut s, ' ', j as u64);
                push_sep_decimal(&mut s, ':', k as u64);
                push_sep_decimal(&mut s, ':', l as u64);
            },
        }
        assert(s@ =~= duration_raw(self));
        s
    }
}

// ------------------------------------------------------------------------
// Transaction types
// ------------------------------------------------------------------------

/// Whether a ledger entry takes money out, puts money in, or holds it back.
#[derive(Debug, PartialEq, Eq, Clone, Copy, Structural)]
pub enum Txn_Type {
    DEBIT,
    CREDIT,
    BLOCKED,
}

pub open spec fn txn_type_name(t: Txn_Type) -> Seq<char> {
    match t {
        Txn_Type::BLOCKED => "BLOCKED"@,
        Txn_Type::DEBIT => "DEBIT"@,
        Txn_Type::CREDIT => "CREDIT"@,
    }
}

/// The type a stored name stands for: `CREDIT` and `DEBIT` by name, every other name
/// `BLOCKED`.
pub open spec fn txn_type_from_name(s: Seq<char>) -> Txn_Type {
    if s == "BLOCKEED"@ {
        Txn_Type::BLOCKED
    } else if s == "CREDIT"@ {
        Txn_Type::CREDIT
    } else if s == "DEBIT"@ {
        Txn_Type::DEBIT
    } else {
        Txn_Type::BLOCKED
    }
}

pub open spec fn txn_type_next(t: Txn_Type) -> Txn_Type {
    match t {
        Txn_Type::DEBIT => Txn_Type::CREDIT,
        Txn_Type::CREDIT => Txn_Type::BLOCKED,
        Txn_Type::BLOCKED => Txn_Type::DEBIT,
    }
}

pub open spec fn txn_type_prev(t: Txn_Type) -> Txn_Type {
    match t {
        Txn_Type::DEBIT => Txn_Type::BLOCKED,
        Txn_Type::CREDIT => Txn_Type::DEBIT,
        Txn_Type::BLOCKED => Txn_Type::CREDIT,
    }
}

impl Txn_Type {
    /// The next type in declaration order, wrapping around.
    pub fn next(self) -> (r: Txn_Type)
        ensures
            r == txn_type_next(self),
    {
        match self {
            Txn_Type::DEBIT => Txn_Type::CREDIT,
            Txn_Type::CREDIT => Txn_Type::BLOCKED,
            Txn_Type::BLOCKED => Txn_Type::DEBIT,
        }
    }

    /// The previous type in declaration order, wrapping around.
    pub fn prev(self) -> (r: Txn_Type)
        ensures
            r == txn_type_prev(self),
    {
        match self {
            Txn_Type::DEBIT => Txn_Type::BLOCKED,
            Txn_Type::CREDIT => Txn_Type::DEBIT,
            Txn_Type::BLOCKED => Txn_Type::CREDIT,
        }
    }

    pub fn to_string(self) -> (s: String)
        ensures
            s@ == txn_type_name(self),
    {
        match self {
            Txn_Type::BLOCKED => String::from_str("BLOCKED"),
            Txn_Type::DEBIT => String::from_str("DEBIT"),
            Txn_Type::CREDIT => String::from_str("CREDIT"),
        }
    }

    pub fn from_string(value: String) -> (t: Txn_Type)
        ensures
            t == txn_type_from_name(value@),
    {
        let v = value.as_str();
        if str_eq(v, "BLOCKEED") {
            Txn_Type::BLOCKED
        } else if str_eq(v, "CREDIT") {
            Txn_Type::CREDIT
        } else if str_eq(v, "DEBIT") {
            Txn_Type::DEBIT
        } else {
            Txn_Type::BLOCKED
        }
    }
}

/// A transaction type read back from its stored name is the same type.
pub proof fn lemma_txn_type_roundtrip(t: Txn_Type)
    ensures
        txn_type_from_name(txn_type_name(t)) == t,
{
    reveal_strlit("BLOCKED");
    reveal_strlit("BLOCKEED");
    reveal_strlit("DEBIT");
    reveal_strlit("CREDIT");
    assert("BLOCKED"@.len() == 7 && "BLOCKEED"@.len() == 8 && "DEBIT"@.len() == 5 && "CREDIT"@.len() == 6);
}

} // verus!
