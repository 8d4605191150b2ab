use ratatoskr::app::{Color_channel, Currency, Page, Theme, Theme_comp, ColorPickerState, Settings};
use ratatoskr::meta::{Priority, Mood, MyColor, Tag, Frequency, Duration, Txn_Type, parse_hex_color};
use ratatoskr::text::replace_str;

#[test]
fn priority_steps_wrap_and_undo() {
    assert_eq!(Priority::Critical.next(), Priority::Low);
    assert_eq!(Priority::Low.prev(), Priority::Critical);
    for p in [Priority::Low, Priority::Default, Priority::Medium, Priority::High, Priority::Critical] {
        assert_eq!(p.next().prev(), p);
        assert_eq!(p.prev().next(), p);
    }
}

#[test]
fn priority_names_read_back() {
    for p in [Priority::Low, Priority::Default, Priority::Medium, Priority::High, Priority::Critical] {
        assert_eq!(Priority::from_string(p.to_string()), p);
    }
    assert_eq!(Priority::from_string("urgent".to_string()), Priority::Default);
    assert_eq!(Priority::High.title(), "High");
}

#[test]
fn mood_names_read_back() {
    for m in [Mood::Happy, Mood::Neutral, Mood::Sad, Mood::Angry, Mood::Excited, Mood::Tired] {
        assert_eq!(Mood::from_string(m.to_string()), m);
        assert_eq!(m.next().prev(), m);
    }
}

#[test]
fn hex_color_reads_six_digits() {
    assert_eq!(parse_hex_color("FF8000"), Some(MyColor::RGB(255, 128, 0)));
    assert_eq!(parse_hex_color("ff8000"), Some(MyColor::RGB(255, 128, 0)));
    assert_eq!(parse_hex_color("FF800"), None);
    assert_eq!(parse_hex_color("GG8000"), None);
}

#[test]
fn color_hex_text_round_trip() {
    let c = MyColor::new(12, 200, 7);
    assert_eq!(c.rgb_str(), "0CC807");
    assert_eq!(parse_hex_color(&c.rgb_str()), Some(MyColor::RGB(12, 200, 7)));
    assert_eq!(MyColor::BrightCyan.get_rgb(), (0, 218, 247));
    assert_eq!(MyColor::new(0, 0, 255), MyColor::RGB(0, 0, 255));
}

#[test]
fn color_channel_set_and_read() {
    let c = MyColor::Red.with_channel(Color_channel::G, 9);
    assert_eq!(c.channel(Color_channel::G), 9);
    assert_eq!(c.channel(Color_channel::R), 125);
    assert_eq!(c.channel(Color_channel::B), 0);
}

#[test]
fn tag_defaults_to_bright_white() {
    let t = Tag::new("work".to_string(), None);
    assert_eq!(t.color, MyColor::BrightWhite);
    assert_eq!(t.name, "work");
}

#[test]
fn frequency_text_round_trip() {
    for f in [Frequency::SECONDS(5), Frequency::MIN(3), Frequency::HOUR(2), Frequency::WEEK(1), Frequency::YEAR(9)] {
        assert_eq!(Frequency::from_raw_str(&f.to_raw_string()), f);
    }
    assert_eq!(Frequency::HOUR(3).to_raw_string(), "HOUR(3)");
    assert_eq!(Frequency::Once.to_raw_string(), "Once");
    assert_eq!(Frequency::from_raw_str_checked("Once"), Some(Frequency::SECONDS(0)));
    assert_eq!(Frequency::from_raw_str_checked("Once()"), Some(Frequency::Once));
    assert_eq!(Frequency::from_raw_str_checked("DAY(400)"), Some(Frequency::DAY(400)));
    assert_eq!(Frequency::from_raw_str_checked("HOUR(x)"), None);
}

#[test]
fn duration_reads_lower_case_units() {
    assert_eq!(Duration::from_raw_str("hour(3)"), Duration::HOUR(3));
    assert_eq!(Duration::from_raw_str("day(400)"), Duration::DAY(400));
    assert_eq!(Duration::from_raw_str("fortnight(2)"), Duration::SECONDS(0));
    assert_eq!(Duration::from_raw_str_checked("hour"), None);
    assert_eq!(Duration::from_raw_str_checked("custom(1,2)"), None);
    assert_eq!(Duration::from_raw_str_checked("hour(300)"), None);
    assert_eq!(Duration::from_raw_str_checked("week(3)"), Some(Duration::WEEK(3)));
}

#[test]
fn duration_reads_intervals() {
    assert_eq!(
        Duration::from_raw_str("3/3/2025 10:12:56 -> 4/3/2025 11:00:00"),
        Duration::Interval(3, 3, 2025, 10, 12, 56, 4, 3, 2025, 11, 0, 0)
    );
    let d = Duration::Interval(1, 12, 1999, 23, 59, 7, 2, 1, 2000, 0, 0, 1);
    assert_eq!(Duration::from_raw_str_checked(&d.to_raw_string()), Some(d));
    assert_eq!(Duration::from_raw_str_checked("  3/3/2025   1:2:3->4/3/2025 4:5:6 "), Some(Duration::Interval(3, 3, 2025, 1, 2, 3, 4, 3, 2025, 4, 5, 6)));
    assert_eq!(Duration::from_raw_str_checked("3/3/2025 10:12 -> 4/3/2025 11:00:00"), None);
    assert_eq!(Duration::from_raw_str_checked("3/3/2025 10:12:56"), None);
    assert_eq!(Duration::from_raw_str_checked("300/3/2025 1:1:1 -> 4/3/2025 1:1:1"), None);
    assert_eq!(Duration::from_raw_str_checked("3/3/2025/1 1:1:1 -> 4/3/2025 1:1:1"), None);
}

#[test]
fn duration_days() {
    assert_eq!(Duration::WEEK(2).approx_days(), 14);
    assert_eq!(Duration::HOUR(49).approx_days(), 2);
    assert_eq!(Duration::DAY(1).approx_days(), 1);
    assert_eq!(Duration::MIN(200).approx_days(), 0);
}

#[test]
fn txn_type_names() {
    assert_eq!(Txn_Type::from_string(Txn_Type::CREDIT.to_string()), Txn_Type::CREDIT);
    assert_eq!(Txn_Type::from_string(Txn_Type::DEBIT.to_string()), Txn_Type::DEBIT);
    assert_eq!(Txn_Type::from_string(Txn_Type::BLOCKED.to_string()), Txn_Type::BLOCKED);
    assert_eq!(Txn_Type::from_string("anything".to_string()), Txn_Type::BLOCKED);
    assert_eq!(Txn_Type::DEBIT.next(), Txn_Type::CREDIT);
    assert_eq!(Txn_Type::DEBIT.prev(), Txn_Type::BLOCKED);
}

#[test]
fn currency_codes() {
    assert_eq!(Currency::try_from("USD"), Ok(Currency::USD));
    assert_eq!(Currency::try_from("INR"), Ok(Currency::INR));
    assert_eq!(Currency::try_from("XYZ"), Err(()));
    assert_eq!(Currency::ETB.next(), Currency::USD);
    assert_eq!(Currency::USD.prev(), Currency::ETB);
    assert_eq!(Currency::EUR.next().prev(), Currency::EUR);
    let mut c = Currency::USD;
    for _ in 0..55 {
        assert_eq!(Currency::try_from(format!("{:?}", c).as_str()), Ok(c));
        c = c.next();
    }
    assert_eq!(c, Currency::USD);
    assert_eq!(Currency::try_from("usd"), Err(()));
    assert_eq!(Currency::try_from(""), Err(()));
}

#[test]
fn page_index_round_trip() {
    for i in 0..7usize {
        assert_eq!(Page::from_idx(i).idx(), i);
    }
    assert_eq!(Page::from_idx(Page::Home.idx() + 6), Page::Settings);
    assert_eq!(Page::from_idx(Page::Settings.idx() + 1), Page::Home);
    assert_eq!(Page::Finance.title(), "Finance");
}

#[test]
fn theme_component_set_get() {
    let mut t = Theme::default();
    Theme_comp::Accent.set(&mut t, MyColor::RGB(1, 2, 3));
    assert_eq!(Theme_comp::Accent.get(&t), MyColor::RGB(1, 2, 3));
    assert_eq!(Theme_comp::Error.next(), Theme_comp::Primary);
    assert_eq!(Theme_comp::Primary.prev(), Theme_comp::Error);
}

#[test]
fn color_picker_buffers_follow_theme() {
    let t = Theme::new(Some(MyColor::RGB(10, 20, 30)), None, None, None, None, None);
    let p = ColorPickerState::new(&t);
    assert_eq!(p.buffers[0], "10");
    assert_eq!(p.buffers[1], "20");
    assert_eq!(p.buffers[2], "30");
}

#[test]
fn color_picker_commit_caps_at_255() {
    let mut t = Theme::new(Some(MyColor::RGB(10, 20, 30)), None, None, None, None, None);
    let mut p = ColorPickerState::new(&t);
    p.selected = Color_channel::G;
    *p.buffer_mut(Color_channel::G) = "999".to_string();
    p.commit_focused_channel(&mut t);
    assert_eq!(t.primary, MyColor::RGB(10, 255, 30));
    *p.buffer_mut(Color_channel::G) = "x".to_string();
    p.commit_focused_channel(&mut t);
    assert_eq!(t.primary, MyColor::RGB(10, 0, 30));
    *p.buffer_mut(Color_channel::G) = "9999999999".to_string();
    p.commit_focused_channel(&mut t);
    assert_eq!(t.primary, MyColor::RGB(10, 255, 30));
    *p.buffer_mut(Color_channel::G) = "+7".to_string();
    p.commit_focused_channel(&mut t);
    assert_eq!(t.primary, MyColor::RGB(10, 7, 30));
    *p.buffer_mut(Color_channel::G) = String::new();
    p.commit_focused_channel(&mut t);
    assert_eq!(t.primary, MyColor::RGB(10, 0, 30));
}

#[test]
fn settings_defaults() {
    let s = Settings::new();
    assert_eq!(s.autosave_freq, usize::MAX);
    assert_eq!(s.timezone, "Utc");
    assert_eq!(s.currency, Currency::INR);
    let d = Settings::default();
    assert_eq!(d.timezone, "india");
    assert_eq!(d.date_format, "dd-mm-yyyy");
}

#[test]
fn replace_skips_past_each_match() {
    assert_eq!(replace_str("aaa", "aa", "b"), "ba");
    assert_eq!(replace_str("{h}:{hh}", "{hh}", "07"), "{h}:07");
    assert_eq!(replace_str("none", "x", "y"), "none");
}
