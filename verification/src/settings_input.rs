use vstd::prelude::*;
use crate::app::{
    Settings, ColorPickerState, Theme, Theme_comp, Color_channel, Currency, buffer_index, buffer_value,
    comp_get, comp_set, comp_next, comp_prev, channel_next, channel_prev, currency_next, currency_prev,
};
use crate::meta::{MyColor, color_rgb, rgb_with};
use crate::keys::{KeyCode, KeyEvent};
use crate::text::{decimal, push_char, pop_char, str_len};
use crate::fields::{text_after, edit_text, popped};

verus! {

// ------------------------------------------------------------------------
// The color picker
// ------------------------------------------------------------------------

/// The color picker and the theme it edits, as plain values.
pub struct PickerView {
    pub selected: Color_channel,
    pub component: Theme_comp,
    pub buffers: Seq<Seq<char>>,
    pub theme: Theme,
}

pub open spec fn picker_view(s: Settings) -> PickerView {
    PickerView {
        selected: s.color_picker.selected,
        component: s.color_picker.component,
        buffers: s.color_picker.buffers@.map_values(|b: String| b@),
        theme: s.theme,
    }
}

/// The buffers refilled from the theme's color for a component.
pub open spec fn reloaded(p: PickerView, component: Theme_comp) -> PickerView {
    let rgb = color_rgb(comp_get(component, p.theme));
    PickerView {
        component,
        buffers: seq![decimal(rgb.0 as nat), decimal(rgb.1 as nat), decimal(rgb.2 as nat)],
        ..p
    }
}

/// The focused buffer replaced by `text`, and its value written into the theme.
pub open spec fn committed(p: PickerView, text: Seq<char>) -> PickerView {
    let rgb = rgb_with(color_rgb(comp_get(p.component, p.theme)), p.selected, buffer_value(text));
    PickerView {
        buffers: p.buffers.update(buffer_index(p.selected), text),
        theme: comp_set(p.component, p.theme, MyColor::RGB(rgb.0, rgb.1, rgb.2)),
        ..p
    }
}

pub open spec fn is_ascii_digit(c: char) -> bool {
    '0' <= c <= '9'
}

/// The picker after a key: `[` and `]` switch the theme component and refill the
/// buffers, Left and Right (or Tab) switch the channel, a digit is appended to the
/// focused buffer while it holds fewer than three bytes, Backspace removes the last
/// char, and each of these two writes the buffer's value into the theme at once.
pub open spec fn picker_step(p: PickerView, code: KeyCode) -> PickerView {
    let buf = p.buffers[buffer_index(p.selected)];
    match code {
        KeyCode::Char('[') => reloaded(p, comp_prev(p.component)),
        KeyCode::Char(']') => reloaded(p, comp_next(p.component)),
        KeyCode::Left => PickerView { selected: channel_prev(p.selected), ..p },
        KeyCode::Right | KeyCode::Tab => PickerView { selected: channel_next(p.selected), ..p },
        KeyCode::Char(c) => if is_ascii_digit(c) {
            committed(p, if str_len(buf) < 3 { buf.push(c) } else { buf })
        } else {
            p
        },
        KeyCode::Backspace => committed(p, popped(buf)),
        _ => p,
    }
}

fn commit_text(settings: &mut Settings)
    ensures
        picker_view(*final(settings)) == committed(
            picker_view(*old(settings)),
            old(settings).color_picker.buffers@[buffer_index(old(settings).color_picker.selected)]@,
        ),
        final(settings).autosave == old(settings).autosave,
        final(settings).autosave_freq == old(settings).autosave_freq,
        final(settings).vim_mode == old(settings).vim_mode,
        final(settings).confirm_delete == old(settings).confirm_delete,
        final(settings).date_format == old(settings).date_format,
        final(settings).timezone == old(settings).timezone,
        final(settings).autocomplete == old(settings).autocomplete,
        final(settings).currency == old(settings).currency,
{
    settings.color_picker.commit_focused_channel(&mut settings.theme);
    proof {
        let p = picker_view(*old(settings));
        let i = buffer_index(old(settings).color_picker.selected);
        assert(p.buffers.update(i, p.buffers[i]) =~= p.buffers);
        assert(picker_view(*settings).buffers =~= p.buffers);
    }
}

/// Handles a key while the color picker has the focus.
pub fn handle_color_picker_field_key(settings: &mut Settings, key: KeyEvent)
    ensures
        picker_view(*final(settings)) == picker_step(picker_view(*old(settings)), key.code),
        final(settings).autosave == old(settings).autosave,
        final(settings).autosave_freq == old(settings).autosave_freq,
        final(settings).vim_mode == old(settings).vim_mode,
        final(settings).confirm_delete == old(settings).confirm_delete,
        final(settings).date_format == old(settings).date_format,
        final(settings).timezone == old(settings).timezone,
        final(settings).autocomplete == old(settings).autocomplete,
        final(settings).currency == old(settings).currency,
{
    let ghost p = picker_view(*settings);
    match key.code {
        KeyCode::Char('[') => {
            settings.color_picker.component = settings.color_picker.component.prev();
            settings.color_picker.reload_from_theme(&settings.theme);
            proof {
                assert(picker_view(*settings).buffers =~= reloaded(p, comp_prev(p.component)).buffers);
            }
        },
        KeyCode::Char(']') => {
            settings.color_picker.component = settings.color_picker.component.next();
            settings.color_picker.reload_from_theme(&settings.theme);
            proof {
                assert(picker_view(*settings).buffers =~= reloaded(p, comp_next(p.component)).buffers);
            }
        },
        KeyCode::Left => {
            settings.color_picker.selected = settings.color_picker.selected.prev();
        },
        KeyCode::Right | KeyCode::Tab => {
            settings.color_picker.selected = settings.color_picker.selected.next();
        },
        KeyCode::Char(c) => {
            if '0' <= c && c <= '9' {
                let sel = settings.color_picker.selected;
                let buf = settings.color_picker.buffer_mut(sel);
                if buf.as_str().len() < 3 {
                    push_char(buf, c);
                }
                let ghost mid = picker_view(*settings);
                commit_text(settings);
                proof {
                    assert(mid.buffers =~= p.buffers.update(
                        buffer_index(sel),
                        mid.buffers[buffer_index(sel)],
                    ));
                    assert(picker_view(*settings).buffers =~= committed(
                        p,
                        mid.buffers[buffer_index(sel)],
                    ).buffers);
                }
            }
        },
        KeyCode::Backspace => {
            let sel = settings.color_picker.selected;
            let buf = settings.color_picker.buffer_mut(sel);
            pop_char(buf);
            let ghost mid = picker_view(*settings);
            commit_text(settings);
            proof {
                assert(mid.buffers =~= p.buffers.update(buffer_index(sel), mid.buffers[buffer_index(sel)]));
                assert(picker_view(*settings).buffers =~= committed(p, mid.buffers[buffer_index(sel)]).buffers);
            }
        },
        _ => {},
    }
}

// ------------------------------------------------------------------------
// The settings page
// ------------------------------------------------------------------------

/// The setting that has the focus, in screen order.
#[derive(Debug, Clone, Copy, PartialEq, Eq, Structural)]
pub enum SettingsFocus {
    ColorPicker,
    AutosaveEnabled,
    AutosaveFreq,
    AutocompleteEnabled,
    VimmodeEnabled,
    ConfirmdeleteEnabled,
    Datefmt,
    Currency,
    Timezone,
}

pub open spec fn settings_focus_next(f: SettingsFocus) -> SettingsFocus {
    match f {
        SettingsFocus::ColorPicker => SettingsFocus::AutosaveEnabled,
        SettingsFocus::AutosaveEnabled => SettingsFocus::AutosaveFreq,
        SettingsFocus::AutosaveFreq => SettingsFocus::AutocompleteEnabled,
        SettingsFocus::AutocompleteEnabled => SettingsFocus::VimmodeEnabled,
        SettingsFocus::VimmodeEnabled => SettingsFocus::ConfirmdeleteEnabled,
        SettingsFocus::ConfirmdeleteEnabled => SettingsFocus::Datefmt,
        SettingsFocus::Datefmt => SettingsFocus::Currency,
        SettingsFocus::Currency => SettingsFocus::Timezone,
        SettingsFocus::Timezone => SettingsFocus::ColorPicker,
    }
}

pub open spec fn settings_focus_prev(f: SettingsFocus) -> SettingsFocus {
    match f {
        SettingsFocus::ColorPicker => SettingsFocus::Timezone,
        SettingsFocus::AutosaveEnabled => SettingsFocus::ColorPicker,
        SettingsFocus::AutosaveFreq => SettingsFocus::AutosaveEnabled,
        SettingsFocus::AutocompleteEnabled => SettingsFocus::AutosaveFreq,
        SettingsFocus::VimmodeEnabled => SettingsFocus::AutocompleteEnabled,
        SettingsFocus::ConfirmdeleteEnabled => SettingsFocus::VimmodeEnabled,
        SettingsFocus::Datefmt => SettingsFocus::ConfirmdeleteEnabled,
        SettingsFocus::Currency => SettingsFocus::Datefmt,
        SettingsFocus::Timezone => SettingsFocus::Currency,
    }
}

/// The focus one setting down (`forward`) or up, wrapping around.
pub fn cycle_settings_focus(focus: SettingsFocus, forward: bool) -> (r: SettingsFocus)
    ensures
        r == if forward { settings_focus_next(focus) } else { settings_focus_prev(focus) },
{
    let order = [
        SettingsFocus::ColorPicker,
        SettingsFocus::AutosaveEnabled,
        SettingsFocus::AutosaveFreq,
        SettingsFocus::AutocompleteEnabled,
        SettingsFocus::VimmodeEnabled,
        SettingsFocus::ConfirmdeleteEnabled,
        SettingsFocus::Datefmt,
        SettingsFocus::Currency,
        SettingsFocus::Timezone,
    ];
    let i: usize = match focus {
        SettingsFocus::ColorPicker => 0,
        SettingsFocus::AutosaveEnabled => 1,
        SettingsFocus::AutosaveFreq => 2,
        SettingsFocus::AutocompleteEnabled => 3,
        SettingsFocus::VimmodeEnabled => 4,
        SettingsFocus::ConfirmdeleteEnabled => 5,
        SettingsFocus::Datefmt => 6,
        SettingsFocus::Currency => 7,
        SettingsFocus::Timezone => 8,
    };
    let next = if forward { (i + 1) % 9 } else { (i + 9 - 1) % 9 };
    order[next]
}

/// Moving the focus down and up, or up and down, returns to the same setting.
pub proof fn lemma_settings_focus_cycle(f: SettingsFocus)
    ensures
        settings_focus_prev(settings_focus_next(f)) == f,
        settings_focus_next(settings_focus_prev(f)) == f,
{
}

/// The text typed into the settings page's text fields, and the focus.
pub struct SettingsUi {
    pub focus: SettingsFocus,
    pub autosave_freq_input: String,
    pub date_fmt: String,
    pub timezone_input: String,
}

/// What the caller of the settings key handler has to do afterwards.
#[derive(Debug, Clone, Copy, PartialEq, Eq, Structural)]
pub enum SettingsEffect {
    Nothing,
    /// Leave the program.
    Quit,
    /// Write the settings to their file.
    Save,
}

/// Plain values of the settings page that the keys change.
pub struct SettingsPageView {
    pub picker: PickerView,
    pub autosave: bool,
    pub vim_mode: bool,
    pub confirm_delete: bool,
    pub autocomplete: bool,
    pub currency: Currency,
    pub timezone: Seq<char>,
    pub focus: SettingsFocus,
    pub autosave_freq_input: Seq<char>,
    pub date_fmt: Seq<char>,
    pub timezone_input: Seq<char>,
}

pub open spec fn settings_page_view(s: Settings, ui: SettingsUi) -> SettingsPageView {
    SettingsPageView {
        picker: picker_view(s),
        autosave: s.autosave,
        vim_mode: s.vim_mode,
        confirm_delete: s.confirm_delete,
        autocomplete: s.autocomplete,
        currency: s.currency,
        timezone: s.timezone@,
        focus: ui.focus,
        autosave_freq_input: ui.autosave_freq_input@,
        date_fmt: ui.date_fmt@,
        timezone_input: ui.timezone_input@,
    }
}

pub open spec fn is_switch(code: KeyCode) -> bool {
    code == KeyCode::Left || code == KeyCode::Right || code == KeyCode::Enter
}

/// The settings after a key on the focused setting.
pub open spec fn settings_field_step(v: SettingsPageView, code: KeyCode) -> SettingsPageView {
    match v.focus {
        SettingsFocus::ColorPicker => SettingsPageView { picker: picker_step(v.picker, code), ..v },
        SettingsFocus::AutosaveEnabled => if is_switch(code) { SettingsPageView { autosave: !v.autosave, ..v } } else { v },
        SettingsFocus::AutosaveFreq => SettingsPageView { autosave_freq_input: text_after(v.autosave_freq_input, code), ..v },
        SettingsFocus::Datefmt => SettingsPageView { date_fmt: text_after(v.date_fmt, code), ..v },
        SettingsFocus::Currency => if code == KeyCode::Left {
            SettingsPageView { currency: currency_prev(v.currency), ..v }
        } else if code == KeyCode::Right {
            SettingsPageView { currency: currency_next(v.currency), ..v }
        } else {
            v
        },
        SettingsFocus::Timezone => {
            let t = text_after(v.timezone_input, code);
            SettingsPageView { timezone_input: t, timezone: t, ..v }
        },
        SettingsFocus::AutocompleteEnabled => if is_switch(code) { SettingsPageView { autocomplete: !v.autocomplete, ..v } } else { v },
        SettingsFocus::ConfirmdeleteEnabled => if is_switch(code) { SettingsPageView { confirm_delete: !v.confirm_delete, ..v } } else { v },
        SettingsFocus::VimmodeEnabled => if is_switch(code) { SettingsPageView { vim_mode: !v.vim_mode, ..v } } else { v },
    }
}

/// The settings after a key: `q` quits outside the three text settings, Ctrl+s saves
/// (and the key still goes on), Up and Down move the focus, and any other key goes to
/// the focused setting.
pub open spec fn settings_step(v: SettingsPageView, key: KeyEvent) -> (SettingsPageView, SettingsEffect) {
    let code = key.code;
    if code == KeyCode::Char('q') && v.focus != SettingsFocus::Timezone && v.focus != SettingsFocus::AutosaveFreq
        && v.focus != SettingsFocus::Datefmt {
        (v, SettingsEffect::Quit)
    } else {
        let e = if code == KeyCode::Char('s') && key.modifiers.control { SettingsEffect::Save } else { SettingsEffect::Nothing };
        if code == KeyCode::Up {
            (SettingsPageView { focus: settings_focus_prev(v.focus), ..v }, e)
        } else if code == KeyCode::Down {
            (SettingsPageView { focus: settings_focus_next(v.focus), ..v }, e)
        } else {
            (settings_field_step(v, code), e)
        }
    }
}

/// Handles a key on the settings page.
pub fn handle_settings_key(settings: &mut Settings, ui: &mut SettingsUi, key: KeyEvent) -> (e: SettingsEffect)
    ensures
        (settings_page_view(*final(settings), *final(ui)), e) == settings_step(settings_page_view(*old(settings), *old(ui)), key),
        final(settings).date_format == old(settings).date_format,
        final(settings).autosave_freq == old(settings).autosave_freq,
{
    let code = key.code;
    if code == KeyCode::Char('q') && ui.focus != SettingsFocus::Timezone && ui.focus != SettingsFocus::AutosaveFreq
        && ui.focus != SettingsFocus::Datefmt {
        return SettingsEffect::Quit;
    }
    let effect = if code == KeyCode::Char('s') && key.modifiers.control {
        SettingsEffect::Save
    } else {
        SettingsEffect::Nothing
    };
    match code {
        KeyCode::Up => {
            ui.focus = cycle_settings_focus(ui.focus, false);
            return effect;
        },
        KeyCode::Down => {
            ui.focus = cycle_settings_focus(ui.focus, true);
            return effect;
        },
        _ => {},
    }
    let switch = code == KeyCode::Left || code == KeyCode::Right || code == KeyCode::Enter;
    match ui.focus {
        SettingsFocus::ColorPicker => handle_color_picker_field_key(settings, key),
        SettingsFocus::AutosaveEnabled => {
            if switch {
                settings.autosave = !settings.autosave;
            }
        },
        SettingsFocus::AutosaveFreq => {
            edit_text(&mut ui.autosave_freq_input, code);
        },
        SettingsFocus::Datefmt => {
            edit_text(&mut ui.date_fmt, code);
        },
        SettingsFocus::Currency => {
            if code == KeyCode::Left {
                settings.currency = settings.currency.prev();
            } else if code == KeyCode::Right {
                settings.currency = settings.currency.next();
            }
        },
        SettingsFocus::Timezone => {
            edit_text(&mut ui.timezone_input, code);
            settings.timezone = ui.timezone_input.clone();
        },
        SettingsFocus::AutocompleteEnabled => {
            if switch {
                settings.autocomplete = !settings.autocomplete;
            }
        },
        SettingsFocus::ConfirmdeleteEnabled => {
            if switch {
                settings.confirm_delete = !settings.confirm_delete;
            }
        },
        SettingsFocus::VimmodeEnabled => {
            if switch {
                settings.vim_mode = !settings.vim_mode;
            }
        },
    }
    effect
}

} // verus!
