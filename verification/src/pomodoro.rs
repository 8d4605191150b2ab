use vstd::prelude::*;
use crate::text::{decimal, zero_padded, push_decimal, push_padded, replace_all, replace_str, push_str, push_char, chars_of};
use crate::meta::MyColor;
use crate::keys::{KeyCode, KeyEvent};

verus! {

/// The control of the pomodoro page that has the focus.
#[derive(Debug, Clone, Copy, PartialEq, Eq, Structural)]
pub enum PomoFocus {
    Hour,
    Minute,
    Second,
    StartPause,
    Reset,
    Cancel,
}

pub open spec fn pomo_focus_next(f: PomoFocus) -> PomoFocus {
    match f {
        PomoFocus::Hour => PomoFocus::Minute,
        PomoFocus::Minute => PomoFocus::Second,
        PomoFocus::Second => PomoFocus::StartPause,
        PomoFocus::StartPause => PomoFocus::Reset,
        PomoFocus::Reset => PomoFocus::Cancel,
        PomoFocus::Cancel => PomoFocus::Hour,
    }
}

pub open spec fn pomo_focus_prev(f: PomoFocus) -> PomoFocus {
    match f {
        PomoFocus::Hour => PomoFocus::Cancel,
        PomoFocus::Minute => PomoFocus::Hour,
        PomoFocus::Second => PomoFocus::Minute,
        PomoFocus::StartPause => PomoFocus::Second,
        PomoFocus::Reset => PomoFocus::StartPause,
        PomoFocus::Cancel => PomoFocus::Reset,
    }
}

/// The focus one control to the right, wrapping from Cancel to Hour.
pub fn next_pomo_focus(f: PomoFocus) -> (r: PomoFocus)
    ensures
        r == pomo_focus_next(f),
{
    match f {
        PomoFocus::Hour => PomoFocus::Minute,
        PomoFocus::Minute => PomoFocus::Second,
        PomoFocus::Second => PomoFocus::StartPause,
        PomoFocus::StartPause => PomoFocus::Reset,
        PomoFocus::Reset => PomoFocus::Cancel,
        PomoFocus::Cancel => PomoFocus::Hour,
    }
}

/// The focus one control to the left, wrapping from Hour to Cancel.
pub fn prev_pomo_focus(f: PomoFocus) -> (r: PomoFocus)
    ensures
        r == pomo_focus_prev(f),
{
    match f {
        PomoFocus::Hour => PomoFocus::Cancel,
        PomoFocus::Minute => PomoFocus::Hour,
        PomoFocus::Second => PomoFocus::Minute,
        PomoFocus::StartPause => PomoFocus::Second,
        PomoFocus::Reset => PomoFocus::StartPause,
        PomoFocus::Cancel => PomoFocus::Reset,
    }
}

/// Moving the focus right and then left (or left and then right) returns to where it
/// was, and six moves in one direction visit every control once and come back.
pub proof fn lemma_pomo_focus_cycle(f: PomoFocus)
    ensures
        pomo_focus_prev(pomo_focus_next(f)) == f,
        pomo_focus_next(pomo_focus_prev(f)) == f,
        pomo_focus_next(pomo_focus_next(pomo_focus_next(pomo_focus_next(pomo_focus_next(
            pomo_focus_next(f),
        ))))) == f,
{
}

/// A countdown timer.
pub struct Pomodero {
    /// The length of a session in seconds.
    pub duration: usize,
    /// The seconds left in the current session.
    pub duration_left: usize,
    /// The display format; `{hh}`, `{h}`, `{mm}`, `{m}`, `{ss}` and `{s}` stand for the
    /// hours, minutes and seconds left, padded to two digits or not.
    pub fmt: String,
    pub color: MyColor,
    pub running: bool,
    pub paused: bool,
    pub focus: PomoFocus,
}

impl Default for Pomodero {
    fn default() -> (p: Self)
        ensures
            p.duration == 600,
            p.duration_left == 600,
            p.fmt@ == "{hh}:{mm}:{ss}"@,
            p.color == MyColor::BrightCyan,
            !p.running,
            !p.paused,
            p.focus == PomoFocus::Hour,
    {
        Pomodero {
            duration: 600,
            duration_left: 600,
            fmt: String::from_str("{hh}:{mm}:{ss}"),
            color: MyColor::BrightCyan,
            running: false,
            paused: false,
            focus: PomoFocus::Hour,
        }
    }
}

/// The hours, minutes and seconds of a number of seconds; the hours are not wrapped.
pub open spec fn hms(d: int) -> (int, int, int) {
    (d / 3600, (d % 3600) / 60, d % 60)
}

/// `fmt` with its time fields filled in for `left` seconds.
pub open spec fn time_left_text(fmt: Seq<char>, left: nat) -> Seq<char> {
    let h = (left / 3600) as nat;
    let m = ((left % 3600) / 60) as nat;
    let s = (left % 60) as nat;
    let a = replace_all(fmt, "{hh}"@, zero_padded(h, 2));
    let b = replace_all(a, "{h}"@, decimal(h));
    let c = replace_all(b, "{mm}"@, zero_padded(m, 2));
    let d = replace_all(c, "{m}"@, decimal(m));
    let e = replace_all(d, "{ss}"@, zero_padded(s, 2));
    replace_all(e, "{s}"@, decimal(s))
}

/// The duration after the focused wheel was turned by `delta`: the hour wheel wraps
/// at 24, the minute and second wheels at 60, and the other wheels are left alone.
pub open spec fn bumped_duration(d: int, focus: PomoFocus, delta: int) -> int {
    let (h, m, s) = hms(d);
    match focus {
        PomoFocus::Hour => ((h + delta) % 24) * 3600 + m * 60 + s,
        PomoFocus::Minute => h * 3600 + ((m + delta) % 60) * 60 + s,
        PomoFocus::Second => h * 3600 + m * 60 + (s + delta) % 60,
        _ => h * 3600 + m * 60 + s,
    }
}

/// Turning a wheel of `d` by `delta` stays within `i64` and `usize`.
pub open spec fn bump_fits(d: int, focus: PomoFocus, delta: int) -> bool {
    let (h, m, s) = hms(d);
    &&& (focus == PomoFocus::Hour ==> i64::MIN <= h + delta <= i64::MAX)
    &&& (focus == PomoFocus::Minute ==> i64::MIN <= m + delta <= i64::MAX)
    &&& (focus == PomoFocus::Second ==> i64::MIN <= s + delta <= i64::MAX)
    &&& bumped_duration(d, focus, delta) <= i64::MAX
    &&& bumped_duration(d, focus, delta) <= usize::MAX
}

proof fn lemma_hms_bounds(d: int)
    requires
        0 <= d,
    ensures
        0 <= hms(d).0,
        hms(d).0 * 3600 <= d,
        0 <= hms(d).1 < 60,
        0 <= hms(d).2 < 60,
        hms(d).0 * 3600 + hms(d).1 * 60 + hms(d).2 == d,
{
    assert(d == (d / 3600) * 3600 + d % 3600) by (nonlinear_arith);
    assert(d % 3600 == ((d % 3600) / 60) * 60 + (d % 3600) % 60) by (nonlinear_arith);
    assert((d % 3600) % 60 == d % 60) by (nonlinear_arith);
    assert(0 <= d % 3600 < 3600) by (nonlinear_arith);
    assert(0 <= (d / 3600)) by (nonlinear_arith) requires 0 <= d;
    assert((d % 3600) / 60 < 60) by (nonlinear_arith) requires 0 <= d % 3600 < 3600;
}

impl Pomodero {
    /// A stopped timer of `duration` seconds, shown in `fmt` or in `{hh}:{mm}:{ss}`.
    /// The color is always bright cyan.
    pub fn new(duration: usize, fmt: Option<String>, color: Option<MyColor>) -> (p: Self)
        ensures
            p.duration == duration,
            p.duration_left == duration,
            p.fmt@ == (match fmt {
                Some(f) => f@,
                None => "{hh}:{mm}:{ss}"@,
            }),
            p.color == MyColor::BrightCyan,
            !p.running,
            !p.paused,
            p.focus == PomoFocus::Hour,
    {
        let fmt = match fmt {
            Some(f) => f,
            None => String::from_str("{hh}:{mm}:{ss}"),
        };
        Pomodero {
            duration,
            duration_left: duration,
            fmt,
            color: MyColor::BrightCyan,
            running: false,
            paused: false,
            focus: PomoFocus::Hour,
        }
    }

    /// The time left, written in the timer's format.
    pub fn format_time_left(&self) -> (r: String)
        ensures
            r@ == time_left_text(self.fmt@, self.duration_left as nat),
    {
        let left = self.duration_left as u64;
        let hours = left / 3600;
        let minutes = (left % 3600) / 60;
        let seconds = left % 60;
        proof {
            reveal_strlit("{hh}");
            reveal_strlit("{h}");
            reveal_strlit("{mm}");
            reveal_strlit("{m}");
            reveal_strlit("{ss}");
            reveal_strlit("{s}");
        }
        let mut hh = String::new();
        push_padded(&mut hh, hours, 2);
        let mut h = String::new();
        push_decimal(&mut h, hours);
        let mut mm = String::new();
        push_padded(&mut mm, minutes, 2);
        let mut m = String::new();
        push_decimal(&mut m, minutes);
        let mut ss = String::new();
        push_padded(&mut ss, seconds, 2);
        let mut s = String::new();
        push_decimal(&mut s, seconds);
        let a = replace_str(self.fmt.as_str(), "{hh}", hh.as_str());
        let b = replace_str(a.as_str(), "{h}", h.as_str());
        let c = replace_str(b.as_str(), "{mm}", mm.as_str());
        let d = replace_str(c.as_str(), "{m}", m.as_str());
        let e = replace_str(d.as_str(), "{ss}", ss.as_str());
        replace_str(e.as_str(), "{s}", s.as_str())
    }
}

/// Turns the focused wheel of the timer by `delta` and restarts the countdown from the
/// new duration.
pub fn bump_pomo_component(pomo: &mut Pomodero, focus: PomoFocus, delta: i64)
    requires
        bump_fits(old(pomo).duration as int, focus, delta as int),
    ensures
        final(pomo).duration == bumped_duration(old(pomo).duration as int, focus, delta as int),
        final(pomo).duration_left == final(pomo).duration,
        final(pomo).fmt == old(pomo).fmt,
        final(pomo).color == old(pomo).color,
        final(pomo).running == old(pomo).running,
        final(pomo).paused == old(pomo).paused,
        final(pomo).focus == old(pomo).focus,
{
    let d = pomo.duration;
    proof {
        lemma_hms_bounds(d as int);
        assert(d as int / 3600 <= i64::MAX) by (nonlinear_arith) requires 0 <= d <= u64::MAX;
    }
    let mut h: i64 = (d / 3600) as i64;
    let mut m: i64 = ((d % 3600) / 60) as i64;
    let mut s: i64 = (d % 60) as i64;
    match focus {
        PomoFocus::Hour => {
            h = wrap(h + delta, 24);
        },
        PomoFocus::Minute => {
            m = wrap(m + delta, 60);
        },
        PomoFocus::Second => {
            s = wrap(s + delta, 60);
        },
        _ => {},
    }
    proof {
        assert(0 <= h && 0 <= m < 60 && 0 <= s < 60);
    }
    let total: i64 = h * 3600 + m * 60 + s;
    pomo.duration = total as usize;
    pomo.duration_left = pomo.duration;
}

proof fn lemma_hms_of(h: int, m: int, s: int)
    requires
        0 <= h,
        0 <= m < 60,
        0 <= s < 60,
    ensures
        hms(h * 3600 + m * 60 + s) == (h, m, s),
{
    let d = h * 3600 + m * 60 + s;
    assert(0 <= m * 60 + s < 3600) by (nonlinear_arith) requires 0 <= m < 60, 0 <= s < 60;
    vstd::arithmetic::div_mod::lemma_fundamental_div_mod_converse(d, 3600, h, m * 60 + s);
    vstd::arithmetic::div_mod::lemma_fundamental_div_mod_converse(m * 60 + s, 60, m, s);
    vstd::arithmetic::div_mod::lemma_fundamental_div_mod_converse(d, 60, h * 60 + m, s);
}

proof fn lemma_wrap_step(x: int, n: int)
    requires
        0 <= x < n,
    ensures
        0 <= (x + 1) % n < n,
        0 <= (x - 1) % n < n,
        ((x + 1) % n - 1) % n == x,
        ((x - 1) % n + 1) % n == x,
{
    if x + 1 == n {
        assert((x + 1) % n == 0) by {
            vstd::arithmetic::div_mod::lemma_fundamental_div_mod_converse(x + 1, n, 1, 0);
        }
        vstd::arithmetic::div_mod::lemma_fundamental_div_mod_converse(-1, n, -1, n - 1);
    } else {
        vstd::arithmetic::div_mod::lemma_fundamental_div_mod_converse(x + 1, n, 0, x + 1);
    }
    if x == 0 {
        vstd::arithmetic::div_mod::lemma_fundamental_div_mod_converse(-1, n, -1, n - 1);
        vstd::arithmetic::div_mod::lemma_fundamental_div_mod_converse(n, n, 1, 0);
    } else {
        vstd::arithmetic::div_mod::lemma_fundamental_div_mod_converse(x - 1, n, 0, x - 1);
    }
    vstd::arithmetic::div_mod::lemma_fundamental_div_mod_converse(x, n, 0, x);
}

proof fn lemma_day_bound(h: int, m: int, s: int)
    requires
        0 <= h < 24,
        0 <= m < 60,
        0 <= s < 60,
    ensures
        0 <= h * 3600 + m * 60 + s < 86400,
{
    assert(0 <= h * 3600 + m * 60 + s < 86400) by (nonlinear_arith)
        requires 0 <= h < 24, 0 <= m < 60, 0 <= s < 60;
}

/// Within a day, turning a wheel and turning it back restores the duration, and the
/// duration stays within a day.
#[verifier::spinoff_prover]
pub proof fn lemma_bump_undo(d: int, focus: PomoFocus)
    requires
        0 <= d < 86400,
    ensures
        0 <= bumped_duration(d, focus, 1) < 86400,
        0 <= bumped_duration(d, focus, -1) < 86400,
        bumped_duration(bumped_duration(d, focus, 1), focus, -1) == d,
        bumped_duration(bumped_duration(d, focus, -1), focus, 1) == d,
{
    lemma_hms_bounds(d);
    let (h, m, s) = hms(d);
    assert(h < 24) by (nonlinear_arith) requires h * 3600 <= d < 86400, 0 <= h;
    match focus {
        PomoFocus::Hour => {
            lemma_wrap_step(h, 24);
            lemma_hms_of((h + 1) % 24, m, s);
            lemma_hms_of((h - 1) % 24, m, s);
            lemma_day_bound((h + 1) % 24, m, s);
            lemma_day_bound((h - 1) % 24, m, s);
        },
        PomoFocus::Minute => {
            lemma_wrap_step(m, 60);
            lemma_hms_of(h, (m + 1) % 60, s);
            lemma_hms_of(h, (m - 1) % 60, s);
            lemma_day_bound(h, (m + 1) % 60, s);
            lemma_day_bound(h, (m - 1) % 60, s);
        },
        PomoFocus::Second => {
            lemma_wrap_step(s, 60);
            lemma_hms_of(h, m, (s + 1) % 60);
            lemma_hms_of(h, m, (s - 1) % 60);
            lemma_day_bound(h, m, (s + 1) % 60);
            lemma_day_bound(h, m, (s - 1) % 60);
        },
        _ => {
            lemma_hms_of(h, m, s);
        },
    }
}

/// `x` modulo a positive `n`, in `0..n`.
fn wrap(x: i64, n: i64) -> (r: i64)
    requires
        0 < n,
    ensures
        r == x as int % n as int,
        0 <= r < n,
{
    match x.checked_rem_euclid(n) {
        Some(r) => r,
        None => 0,
    }
}

/// What the caller of a pomodoro key handler has to do afterwards.
#[derive(Debug, Clone, Copy, PartialEq, Eq, Structural)]
pub enum PomoEffect {
    /// Leave the program.
    Quit,
    /// Count the next second from now.
    RestartClock,
    Nothing,
}

pub open spec fn is_press(code: KeyCode) -> bool {
    code == KeyCode::Enter || code == KeyCode::Char(' ')
}

/// The timer after a key press on the pomodoro page, and what the caller has to do.
pub open spec fn pomo_key_result(p: Pomodero, code: KeyCode) -> (Pomodero, PomoEffect) {
    if code == KeyCode::Char('q') {
        (p, PomoEffect::Quit)
    } else if code == KeyCode::Left {
        (Pomodero { focus: pomo_focus_prev(p.focus), ..p }, PomoEffect::Nothing)
    } else if code == KeyCode::Right {
        (Pomodero { focus: pomo_focus_next(p.focus), ..p }, PomoEffect::Nothing)
    } else {
        match p.focus {
            PomoFocus::Hour | PomoFocus::Minute | PomoFocus::Second => {
                if !p.running && (code == KeyCode::Up || code == KeyCode::Down) {
                    let d = bumped_duration(
                        p.duration as int,
                        p.focus,
                        if code == KeyCode::Up { 1 } else { -1 },
                    ) as usize;
                    (Pomodero { duration: d, duration_left: d, ..p }, PomoEffect::Nothing)
                } else {
                    (p, PomoEffect::Nothing)
                }
            },
            PomoFocus::StartPause => {
                if !is_press(code) {
                    (p, PomoEffect::Nothing)
                } else if !p.running {
                    (Pomodero { running: true, paused: false, ..p }, PomoEffect::RestartClock)
                } else if p.paused {
                    (Pomodero { paused: false, ..p }, PomoEffect::RestartClock)
                } else {
                    (Pomodero { paused: true, ..p }, PomoEffect::Nothing)
                }
            },
            PomoFocus::Reset => {
                if is_press(code) {
                    (Pomodero { duration_left: p.duration, ..p }, PomoEffect::RestartClock)
                } else {
                    (p, PomoEffect::Nothing)
                }
            },
            PomoFocus::Cancel => {
                if is_press(code) {
                    (
                        Pomodero { running: false, paused: false, duration_left: p.duration, ..p },
                        PomoEffect::Nothing,
                    )
                } else {
                    (p, PomoEffect::Nothing)
                }
            },
        }
    }
}

/// A key press may turn a wheel only where the turn stays within `i64` and `usize`.
pub open spec fn pomo_key_ok(p: Pomodero, code: KeyCode) -> bool {
    (code != KeyCode::Char('q') && code != KeyCode::Left && code != KeyCode::Right
        && !p.running && (p.focus == PomoFocus::Hour || p.focus == PomoFocus::Minute
        || p.focus == PomoFocus::Second)) ==> (
        (code == KeyCode::Up ==> bump_fits(p.duration as int, p.focus, 1))
        && (code == KeyCode::Down ==> bump_fits(p.duration as int, p.focus, -1))
    )
}

/// Handles a key press on the pomodoro page: `q` quits, Left and Right move the focus,
/// Up and Down turn the focused wheel of a stopped timer, and Enter or space presses
/// the focused button.
pub fn handle_pomodoro_key(pomo: &mut Pomodero, key: KeyEvent) -> (e: PomoEffect)
    requires
        pomo_key_ok(*old(pomo), key.code),
    ensures
        (*final(pomo), e) == pomo_key_result(*old(pomo), key.code),
{
    if key.code == KeyCode::Char('q') {
        return PomoEffect::Quit;
    }
    match key.code {
        KeyCode::Left => {
            pomo.focus = prev_pomo_focus(pomo.focus);
            return PomoEffect::Nothing;
        },
        KeyCode::Right => {
            pomo.focus = next_pomo_focus(pomo.focus);
            return PomoEffect::Nothing;
        },
        _ => {},
    }
    let pressed = key.code == KeyCode::Enter || key.code == KeyCode::Char(' ');
    match pomo.focus {
        PomoFocus::Hour | PomoFocus::Minute | PomoFocus::Second => {
            if pomo.running {
                return PomoEffect::Nothing;
            }
            let focus = pomo.focus;
            match key.code {
                KeyCode::Up => bump_pomo_component(pomo, focus, 1),
                KeyCode::Down => bump_pomo_component(pomo, focus, -1),
                _ => {},
            }
            PomoEffect::Nothing
        },
        PomoFocus::StartPause => {
            if !pressed {
                PomoEffect::Nothing
            } else if !pomo.running {
                pomo.running = true;
                pomo.paused = false;
                PomoEffect::RestartClock
            } else if pomo.paused {
                pomo.paused = false;
                PomoEffect::RestartClock
            } else {
                pomo.paused = true;
                PomoEffect::Nothing
            }
        },
        PomoFocus::Reset => {
            if pressed {
                pomo.duration_left = pomo.duration;
                PomoEffect::RestartClock
            } else {
                PomoEffect::Nothing
            }
        },
        PomoFocus::Cancel => {
            if pressed {
                pomo.running = false;
                pomo.paused = false;
                pomo.duration_left = pomo.duration;
            }
            PomoEffect::Nothing
        },
    }
}

/// What the caller of the timer tick has to do afterwards.
#[derive(Debug, Clone, Copy, PartialEq, Eq, Structural)]
pub struct PomoTick {
    /// Count the next second from now.
    pub restart_clock: bool,
    /// The countdown reached zero: tell the user.
    pub finished: bool,
}

/// The timer after a tick, and what the caller has to do. A stopped or paused timer
/// only restarts the clock, so that no seconds are caught up on resuming; a running
/// one counts a second down once a second has elapsed, and stops at zero.
pub open spec fn pomo_tick_result(p: Pomodero, second_elapsed: bool) -> (Pomodero, PomoTick) {
    if !p.running || p.paused {
        (p, PomoTick { restart_clock: true, finished: false })
    } else if !second_elapsed {
        (p, PomoTick { restart_clock: false, finished: false })
    } else {
        let left: usize = if p.duration_left > 0 { (p.duration_left - 1) as usize } else { 0 };
        if left == 0 {
            (
                Pomodero { duration_left: left, running: false, paused: false, ..p },
                PomoTick { restart_clock: true, finished: true },
            )
        } else {
            (Pomodero { duration_left: left, ..p }, PomoTick { restart_clock: true, finished: false })
        }
    }
}

/// A tick never adds time: the time left drops by exactly one when a running, unpaused
/// timer with time left sees a second pass, and stays otherwise; a timer that ends
/// stops, and only a tick that ends it reports it finished.
pub proof fn lemma_tick_counts_down(p: Pomodero, second_elapsed: bool)
    ensures
        ({
            let (q, t) = pomo_tick_result(p, second_elapsed);
            &&& q.duration_left <= p.duration_left
            &&& (p.running && !p.paused && second_elapsed && p.duration_left > 0) ==> q.duration_left
                == p.duration_left - 1
            &&& !(p.running && !p.paused && second_elapsed) ==> q.duration_left == p.duration_left
            &&& t.finished <==> (p.running && !p.paused && second_elapsed && p.duration_left <= 1)
            &&& t.finished ==> !q.running && !q.paused && q.duration_left == 0
            &&& q.duration == p.duration
        }),
{
}

/// Advances the timer; `second_elapsed` says whether a second has passed since the
/// clock was last restarted.
pub fn tick_pomodoro(pomo: &mut Pomodero, second_elapsed: bool) -> (t: PomoTick)
    ensures
        (*final(pomo), t) == pomo_tick_result(*old(pomo), second_elapsed),
{
    if !pomo.running || pomo.paused {
        return PomoTick { restart_clock: true, finished: false };
    }
    if !second_elapsed {
        return PomoTick { restart_clock: false, finished: false };
    }
    if pomo.duration_left > 0 {
        pomo.duration_left = pomo.duration_left - 1;
    }
    if pomo.duration_left == 0 {
        pomo.running = false;
        pomo.paused = false;
        PomoTick { restart_clock: true, finished: true }
    } else {
        PomoTick { restart_clock: true, finished: false }
    }
}

/// The five rows of the block glyph of a digit or a colon; any other char is blank.
pub open spec fn glyph(c: char) -> Seq<Seq<char>> {
    if c == '0' {
        seq!["██████"@, "██  ██"@, "██  ██"@, "██  ██"@, "██████"@]
    } else if c == '1' {
        seq!["  ██  "@, "  ██  "@, "  ██  "@, "  ██  "@, "  ██  "@]
    } else if c == '2' {
        seq!["██████"@, "    ██"@, "██████"@, "██    "@, "██████"@]
    } else if c == '3' {
        seq!["██████"@, "    ██"@, "██████"@, "    ██"@, "██████"@]
    } else if c == '4' {
        seq!["██  ██"@, "██  ██"@, "██████"@, "    ██"@, "    ██"@]
    } else if c == '5' {
        seq!["██████"@, "██    "@, "██████"@, "    ██"@, "██████"@]
    } else if c == '6' {
        seq!["██████"@, "██    "@, "██████"@, "██  ██"@, "██████"@]
    } else if c == '7' {
        seq!["██████"@, "    ██"@, "    ██"@, "    ██"@, "    ██"@]
    } else if c == '8' {
        seq!["██████"@, "██  ██"@, "██████"@, "██  ██"@, "██████"@]
    } else if c == '9' {
        seq!["██████"@, "██  ██"@, "██████"@, "    ██"@, "██████"@]
    } else if c == ':' {
        seq!["      "@, "  ██  "@, "      "@, "  ██  "@, "      "@]
    } else {
        seq!["      "@, "      "@, "      "@, "      "@, "      "@]
    }
}

/// The five rows of the block glyph of `c`.
pub fn big_digit_rows(c: char) -> (r: [&'static str; 5])
    ensures
        forall|i: int| 0 <= i < 5 ==> #[trigger] r[i]@ == glyph(c)[i],
{
    match c {
        '0' => ["██████", "██  ██", "██  ██", "██  ██", "██████"],
        '1' => ["  ██  ", "  ██  ", "  ██  ", "  ██  ", "  ██  "],
        '2' => ["██████", "    ██", "██████", "██    ", "██████"],
        '3' => ["██████", "    ██", "██████", "    ██", "██████"],
        '4' => ["██  ██", "██  ██", "██████", "    ██", "    ██"],
        '5' => ["██████", "██    ", "██████", "    ██", "██████"],
        '6' => ["██████", "██    ", "██████", "██  ██", "██████"],
        '7' => ["██████", "    ██", "    ██", "    ██", "    ██"],
        '8' => ["██████", "██  ██", "██████", "██  ██", "██████"],
        '9' => ["██████", "██  ██", "██████", "    ██", "██████"],
        ':' => ["      ", "  ██  ", "      ", "  ██  ", "      "],
        _ => ["      ", "      ", "      ", "      ", "      "],
    }
}

/// Row `i` of `t` drawn in block glyphs, each glyph followed by a space.
pub open spec fn big_row(t: Seq<char>, i: int) -> Seq<char>
    decreases t.len(),
{
    if t.len() == 0 {
        Seq::empty()
    } else {
        big_row(t.drop_last(), i) + glyph(t.last())[i] + seq![' ']
    }
}

/// The five rows of `text` drawn in block glyphs.
pub fn big_time_rows(text: &str) -> (rows: Vec<String>)
    ensures
        rows@.len() == 5,
        forall|i: int| 0 <= i < 5 ==> #[trigger] rows@[i]@ == big_row(text@, i),
{
    let cs = chars_of(text);
    let mut rows: Vec<String> = Vec::new();
    let mut i: usize = 0;
    while i < 5
        invariant
            i <= 5,
            rows@.len() == i,
            cs@ == text@,
            forall|k: int| 0 <= k < i ==> #[trigger] rows@[k]@ == big_row(text@, k),
        decreases 5 - i,
    {
        let mut row = String::new();
        let mut j: usize = 0;
        while j < cs.len()
            invariant
                i < 5,
                j <= cs@.len(),
                cs@ == text@,
                row@ == big_row(cs@.take(j as int), i as int),
            decreases cs.len() - j,
        {
            let glyph_rows = big_digit_rows(cs[j]);
            push_str(&mut row, glyph_rows[i]);
            push_char(&mut row, ' ');
            assert(cs@.take(j + 1).drop_last() =~= cs@.take(j as int));
            j = j + 1;
        }
        assert(cs@.take(j as int) =~= cs@);
        rows.push(row);
        i = i + 1;
    }
    rows
}


/// What the pomodoro keys do, in terms of the timer before and after:
/// - the Start/Pause button starts a stopped timer, pauses a running one and resumes a
///   paused one, never touching the time left or the length;
/// - Reset puts the time left back to the full length and leaves running and paused;
/// - Cancel stops the timer (neither running nor paused) and puts the time left back
///   to the full length;
/// - a button takes only Enter and space; any other key leaves the timer as it was;
/// - turning the second wheel of a stopped timer up adds one second (below 59 s on the
///   wheel), the minute wheel sixty, the hour wheel an hour (below 23 h), and the
///   length and the time left both become the new length; a running timer's wheels
///   do not turn.
pub proof fn lemma_pomo_keys(p: Pomodero, code: KeyCode)
    requires
        code != KeyCode::Char('q') && code != KeyCode::Left && code != KeyCode::Right,
    ensures
        ({
            let (r, e) = pomo_key_result(p, code);
            let pressed = code == KeyCode::Enter || code == KeyCode::Char(' ');
            &&& r.focus == p.focus && r.fmt == p.fmt && r.color == p.color
            &&& p.focus == PomoFocus::Cancel && pressed ==> !r.running && !r.paused && r.duration_left == p.duration
                && r.duration == p.duration
            &&& p.focus == PomoFocus::Reset && pressed ==> r.duration_left == p.duration && r.duration == p.duration
                && r.running == p.running && r.paused == p.paused && e == PomoEffect::RestartClock
            &&& p.focus == PomoFocus::StartPause && pressed ==> r.duration_left == p.duration_left && r.duration
                == p.duration && (!p.running ==> r.running && !r.paused) && (p.running ==> r.running && r.paused
                == !p.paused)
            &&& (p.focus == PomoFocus::Cancel || p.focus == PomoFocus::Reset || p.focus == PomoFocus::StartPause)
                && !pressed ==> r == p && e == PomoEffect::Nothing
            &&& (p.focus == PomoFocus::Hour || p.focus == PomoFocus::Minute || p.focus == PomoFocus::Second)
                && p.running ==> r == p
            &&& p.focus == PomoFocus::Second && !p.running && code == KeyCode::Up && p.duration % 60 < 59
                && p.duration < usize::MAX
                ==> r.duration == p.duration + 1 && r.duration_left == r.duration
            &&& p.focus == PomoFocus::Second && !p.running && code == KeyCode::Down && p.duration % 60 > 0
                ==> r.duration == p.duration - 1 && r.duration_left == r.duration
            &&& p.focus == PomoFocus::Minute && !p.running && code == KeyCode::Up && (p.duration % 3600) / 60 < 59
                && p.duration + 60 <= usize::MAX
                ==> r.duration == p.duration + 60 && r.duration_left == r.duration
            &&& p.focus == PomoFocus::Hour && !p.running && code == KeyCode::Up && p.duration / 3600 < 23
                ==> r.duration == p.duration + 3600 && r.duration_left == r.duration
        }),
{
    let d = p.duration as int;
    lemma_hms_bounds(d);
    let (h, m, s) = hms(d);
    if s < 59 {
        assert((s + 1) % 60 == s + 1);
    }
    if s > 0 {
        assert((s - 1) % 60 == s - 1);
    }
    if m < 59 {
        assert((m + 1) % 60 == m + 1);
    }
    if h < 23 {
        assert((h + 1) % 24 == h + 1);
    }
}

} // verus!
