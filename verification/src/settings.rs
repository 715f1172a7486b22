//! The client's own preferences: their model, the text file they are stored
//! in, and where that file and its neighbours live.
use crate::number::{
    decimal, decimal_string, lemma_decimal_digits, lemma_decimal_round_trip, parse_unsigned,
    parse_unsigned_chars,
};
use crate::lines::{
    has_no_newline, lemma_lines_round_trip, lemma_lines_text_take, lines_text, split_lines,
    strip_carriage_return, text_lines,
};
use crate::text::{
    chars_eq_str, is_trimmed, is_white_space, lemma_strip_prefix_mismatch,
    lemma_strip_prefix_of_concat, lemma_trimmed_is_trim, push_str, string_of, strip_prefix,
    strip_prefix_chars, trim, trim_chars,
};
use vstd::prelude::*;

verus! {

/// Seconds of reconnect timeout used when none is configured.
pub const DEFAULT_RECONNECT_TIMEOUT_SECS: u64 = 30;

/// The reconnect timeouts, in seconds, that the preferences accept.
pub const RECONNECT_TIMEOUT_OPTIONS_SECS: [u64; 5] = [10, 15, 20, 30, 60];

pub open spec fn reconnect_timeout_options() -> Seq<u64> {
    seq![10u64, 15u64, 20u64, 30u64, 60u64]
}

/// Whether `secs` is one of the accepted reconnect timeouts.
pub fn is_reconnect_timeout_option(secs: u64) -> (r: bool)
    ensures
        r == reconnect_timeout_options().contains(secs),
{
    let mut i: usize = 0;
    while i < 5
        invariant
            i <= 5,
            RECONNECT_TIMEOUT_OPTIONS_SECS@ == reconnect_timeout_options(),
            forall|j: int| 0 <= j < i ==> reconnect_timeout_options()[j] != secs,
        decreases 5 - i,
    {
        if RECONNECT_TIMEOUT_OPTIONS_SECS[i] == secs {
            assert(reconnect_timeout_options()[i as int] == secs);
            return true;
        }
        i = i + 1;
    }
    false
}

/// What closing the main window does.
#[derive(Clone, Copy, Debug, PartialEq, Eq, Structural)]
pub enum CloseAction {
    HideToTray,
    Exit,
}

pub open spec fn close_action_text(action: CloseAction) -> Seq<char> {
    match action {
        CloseAction::HideToTray => "hide_to_tray"@,
        CloseAction::Exit => "exit"@,
    }
}

impl CloseAction {
    /// The name under which the action is stored.
    pub fn as_str(self) -> (r: &'static str)
        ensures
            r@ == close_action_text(self),
    {
        match self {
            CloseAction::HideToTray => "hide_to_tray",
            CloseAction::Exit => "exit",
        }
    }
}

impl Default for CloseAction {
    fn default() -> (r: Self)
        ensures
            r == CloseAction::Exit,
    {
        CloseAction::Exit
    }
}

/// The client's own preferences (those the tunnel library does not keep).
#[derive(Clone, Debug, PartialEq, Eq)]
pub struct GuiPreferences {
    pub theme: String,
    pub locale: String,
    pub remember_window_state: bool,
    pub close_action: CloseAction,
    pub join_uri: String,
    pub reconnect_timeout_secs: Option<u64>,
}

/// The preferences as plain values.
pub struct PreferencesView {
    pub theme: Seq<char>,
    pub locale: Seq<char>,
    pub remember_window_state: bool,
    pub close_action: CloseAction,
    pub join_uri: Seq<char>,
    pub reconnect_timeout_secs: Option<u64>,
}

impl View for GuiPreferences {
    type V = PreferencesView;

    open spec fn view(&self) -> PreferencesView {
        PreferencesView {
            theme: self.theme@,
            locale: self.locale@,
            remember_window_state: self.remember_window_state,
            close_action: self.close_action,
            join_uri: self.join_uri@,
            reconnect_timeout_secs: self.reconnect_timeout_secs,
        }
    }
}

pub open spec fn default_preferences() -> PreferencesView {
    PreferencesView {
        theme: "system"@,
        locale: "zh-CN"@,
        remember_window_state: true,
        close_action: CloseAction::Exit,
        join_uri: Seq::empty(),
        reconnect_timeout_secs: None,
    }
}

impl Default for GuiPreferences {
    fn default() -> (r: Self)
        ensures
            r@ == default_preferences(),
    {
        GuiPreferences {
            theme: String::from_str("system"),
            locale: String::from_str("zh-CN"),
            remember_window_state: true,
            close_action: CloseAction::Exit,
            join_uri: String::new(),
            reconnect_timeout_secs: None,
        }
    }
}

pub open spec fn is_theme_name(v: Seq<char>) -> bool {
    v == "system"@ || v == "light"@ || v == "dark"@
}

/// What one line of the preferences file does to the preferences read so far.
pub open spec fn apply_preference_line(p: PreferencesView, line: Seq<char>) -> PreferencesView {
    match strip_prefix(line, "theme="@) {
        Some(v) => if is_theme_name(trim(v)) {
            PreferencesView { theme: trim(v), ..p }
        } else {
            p
        },
        None => match strip_prefix(line, "locale="@) {
            Some(v) => PreferencesView { locale: trim(v), ..p },
            None => match strip_prefix(line, "remember_window_state="@) {
                Some(v) => PreferencesView { remember_window_state: trim(v) == "true"@, ..p },
                None => match strip_prefix(line, "close_action="@) {
                    Some(v) => PreferencesView {
                        close_action: if trim(v) == "hide_to_tray"@ {
                            CloseAction::HideToTray
                        } else {
                            CloseAction::Exit
                        },
                        ..p
                    },
                    None => match strip_prefix(line, "join_uri="@) {
                        Some(v) => PreferencesView { join_uri: trim(v), ..p },
                        None => match strip_prefix(line, "reconnect_timeout_secs="@) {
                            Some(v) => if trim(v) == "unlimited"@ {
                                PreferencesView { reconnect_timeout_secs: None, ..p }
                            } else {
                                match parse_unsigned(trim(v), u64::MAX as nat) {
                                    Ok(n) => if reconnect_timeout_options().contains(n as u64) {
                                        PreferencesView {
                                            reconnect_timeout_secs: Some(n as u64),
                                            ..p
                                        }
                                    } else {
                                        p
                                    },
                                    Err(_) => p,
                                }
                            },
                            None => p,
                        },
                    },
                },
            },
        },
    }
}

/// The preferences after reading `lines` in order, starting from `p`.
pub open spec fn apply_preference_lines(p: PreferencesView, lines: Seq<Seq<char>>) -> PreferencesView
    decreases lines.len(),
{
    if lines.len() == 0 {
        p
    } else {
        apply_preference_line(apply_preference_lines(p, lines.drop_last()), lines.last())
    }
}

/// The preferences that a preferences file holds.
pub open spec fn preferences_from_text(s: Seq<char>) -> PreferencesView {
    apply_preference_lines(default_preferences(), text_lines(s))
}

/// Applies one line of the preferences file.
fn apply_line(p: &mut GuiPreferences, line: &Vec<char>)
    ensures
        final(p)@ == apply_preference_line(old(p)@, line@),
{
    if let Some(v) = strip_prefix_chars(line, "theme=") {
        let v = trim_chars(&v);
        if chars_eq_str(&v, "system") || chars_eq_str(&v, "light") || chars_eq_str(&v, "dark") {
            p.theme = string_of(&v);
        }
    } else if let Some(v) = strip_prefix_chars(line, "locale=") {
        let v = trim_chars(&v);
        p.locale = string_of(&v);
    } else if let Some(v) = strip_prefix_chars(line, "remember_window_state=") {
        let v = trim_chars(&v);
        p.remember_window_state = chars_eq_str(&v, "true");
    } else if let Some(v) = strip_prefix_chars(line, "close_action=") {
        let v = trim_chars(&v);
        p.close_action = if chars_eq_str(&v, "hide_to_tray") {
            CloseAction::HideToTray
        } else {
            CloseAction::Exit
        };
    } else if let Some(v) = strip_prefix_chars(line, "join_uri=") {
        let v = trim_chars(&v);
        p.join_uri = string_of(&v);
    } else if let Some(v) = strip_prefix_chars(line, "reconnect_timeout_secs=") {
        let v = trim_chars(&v);
        if chars_eq_str(&v, "unlimited") {
            p.reconnect_timeout_secs = None;
        } else if let Ok(n) = parse_unsigned_chars(&v, u64::MAX) {
            if is_reconnect_timeout_option(n) {
                p.reconnect_timeout_secs = Some(n);
            }
        }
    }
}

/// Reads the preferences file: every line it recognises sets one
/// preference, and what it does not recognise keeps the default.
pub fn parse_preferences(content: &str) -> (p: GuiPreferences)
    ensures
        p@ == preferences_from_text(content@),
{
    let lines = split_lines(content);
    let ghost ls = text_lines(content@);
    let mut prefs = GuiPreferences::default();
    let mut i: usize = 0;
    assert(ls.take(0) =~= Seq::<Seq<char>>::empty());
    while i < lines.len()
        invariant
            i <= lines.len(),
            lines@.len() == ls.len(),
            forall|j: int| 0 <= j < lines@.len() ==> #[trigger] lines@[j]@ == ls[j],
            prefs@ == apply_preference_lines(default_preferences(), ls.take(i as int)),
        decreases lines.len() - i,
    {
        assert(ls.take(i + 1).drop_last() =~= ls.take(i as int));
        assert(lines@[i as int]@ == ls[i as int]);
        apply_line(&mut prefs, &lines[i]);
        i = i + 1;
    }
    assert(ls.take(lines.len() as int) =~= ls);
    prefs
}

pub open spec fn bool_text(b: bool) -> Seq<char> {
    if b {
        "true"@
    } else {
        "false"@
    }
}

pub open spec fn reconnect_timeout_text(secs: Option<u64>) -> Seq<char> {
    match secs {
        Some(v) => decimal(v as nat),
        None => "unlimited"@,
    }
}

/// The six lines of the preferences file, one `key=value` line per
/// preference.
pub open spec fn preference_lines(p: PreferencesView) -> Seq<Seq<char>> {
    seq![
        "theme="@ + p.theme,
        "locale="@ + p.locale,
        "remember_window_state="@ + bool_text(p.remember_window_state),
        "close_action="@ + close_action_text(p.close_action),
        "join_uri="@ + p.join_uri,
        "reconnect_timeout_secs="@ + reconnect_timeout_text(p.reconnect_timeout_secs),
    ]
}

/// The text of the preferences file that stores `p`.
pub open spec fn preferences_text(p: PreferencesView) -> Seq<char> {
    lines_text(preference_lines(p))
}

/// Appends the line `key=value` and its newline.
fn push_line(out: &mut Vec<char>, key: &str, value: &str)
    ensures
        final(out)@ == old(out)@ + (key@ + value@) + seq!['\n'],
{
    push_str(out, key);
    push_str(out, value);
    push_str(out, "\n");
    proof {
        reveal_strlit("\n");
    }
    assert(out@ =~= old(out)@ + (key@ + value@) + seq!['\n']);
}

/// The text of the preferences file that stores the preferences.
pub fn preferences_content(p: &GuiPreferences) -> (s: String)
    ensures
        s@ == preferences_text(p@),
{
    let ghost ls = preference_lines(p@);
    let mut out: Vec<char> = Vec::new();
    proof {
        lemma_lines_text_take(ls, 0);
    }
    push_line(&mut out, "theme=", p.theme.as_str());
    proof {
        lemma_lines_text_take(ls, 1);
        assert(out@ =~= lines_text(ls.take(1)));
    }
    push_line(&mut out, "locale=", p.locale.as_str());
    proof {
        lemma_lines_text_take(ls, 2);
        assert(out@ =~= lines_text(ls.take(2)));
    }
    push_line(
        &mut out,
        "remember_window_state=",
        if p.remember_window_state {
            "true"
        } else {
            "false"
        },
    );
    proof {
        lemma_lines_text_take(ls, 3);
        assert(out@ =~= lines_text(ls.take(3)));
    }
    push_line(&mut out, "close_action=", p.close_action.as_str());
    proof {
        lemma_lines_text_take(ls, 4);
        assert(out@ =~= lines_text(ls.take(4)));
    }
    push_line(&mut out, "join_uri=", p.join_uri.as_str());
    proof {
        lemma_lines_text_take(ls, 5);
        assert(out@ =~= lines_text(ls.take(5)));
    }
    let timeout = match p.reconnect_timeout_secs {
        Some(v) => decimal_string(v),
        None => String::from_str("unlimited"),
    };
    push_line(&mut out, "reconnect_timeout_secs=", timeout.as_str());
    proof {
        lemma_lines_text_take(ls, 6);
        assert(out@ =~= lines_text(ls.take(6)));
        assert(ls.take(6) =~= ls);
    }
    string_of(&out)
}

/// Preferences that the preferences file can hold: a known theme, a
/// locale and a share URI on one line without white space at their ends, and
/// either no reconnect timeout or an accepted one.
pub open spec fn is_storable(p: PreferencesView) -> bool {
    &&& is_theme_name(p.theme)
    &&& has_no_newline(p.locale) && is_trimmed(p.locale)
    &&& has_no_newline(p.join_uri) && is_trimmed(p.join_uri)
    &&& (p.reconnect_timeout_secs matches Some(v) ==> reconnect_timeout_options().contains(v))
}

/// Writing preferences that the file can hold and reading the file back
/// gives the same preferences.
pub proof fn lemma_preferences_round_trip(p: PreferencesView)
    requires
        is_storable(p),
    ensures
        preferences_from_text(preferences_text(p)) == p,
{
    reveal_strlit("theme=");
    reveal_strlit("locale=");
    reveal_strlit("remember_window_state=");
    reveal_strlit("close_action=");
    reveal_strlit("join_uri=");
    reveal_strlit("reconnect_timeout_secs=");
    reveal_strlit("system");
    reveal_strlit("light");
    reveal_strlit("dark");
    reveal_strlit("true");
    reveal_strlit("false");
    reveal_strlit("hide_to_tray");
    reveal_strlit("exit");
    reveal_strlit("unlimited");
    let ls = preference_lines(p);
    let (l0, l1, l2, l3, l4, l5) = (ls[0], ls[1], ls[2], ls[3], ls[4], ls[5]);
    // Each line is free of newlines and does not end in a carriage return.
    let rt = reconnect_timeout_text(p.reconnect_timeout_secs);
    if let Some(v) = p.reconnect_timeout_secs {
        lemma_decimal_digits(v as nat);
    }
    assert(has_no_newline(rt));
    assert forall|i: int| 0 <= i < ls.len() implies has_no_newline(#[trigger] ls[i]) by {}
    assert(rt.len() > 0 && !is_white_space(rt[0]) && !is_white_space(rt.last())) by {
        if let Some(v) = p.reconnect_timeout_secs {
            assert(rt[rt.len() - 1] == rt.last());
        }
    }
    assert forall|i: int| 0 <= i < ls.len() implies #[trigger] strip_carriage_return(ls[i])
        == ls[i] by {
        if i == 1 && p.locale.len() > 0 {
            assert(ls[i].last() == p.locale.last());
        }
        if i == 4 && p.join_uri.len() > 0 {
            assert(ls[i].last() == p.join_uri.last());
        }
        if i == 5 {
            assert(ls[i].last() == rt.last());
        }
    }
    lemma_lines_round_trip(ls);
    assert(text_lines(preferences_text(p)) == ls);
    // Each line sets exactly its own preference.
    let d = default_preferences();
    lemma_trimmed_is_trim(p.locale);
    lemma_trimmed_is_trim(p.join_uri);
    lemma_trimmed_is_trim(p.theme);
    lemma_trimmed_is_trim(rt);
    lemma_trimmed_is_trim(bool_text(p.remember_window_state));
    lemma_trimmed_is_trim(close_action_text(p.close_action));
    lemma_strip_prefix_of_concat("theme="@, p.theme);
    lemma_strip_prefix_of_concat("locale="@, p.locale);
    lemma_strip_prefix_of_concat("remember_window_state="@, bool_text(p.remember_window_state));
    lemma_strip_prefix_of_concat("close_action="@, close_action_text(p.close_action));
    lemma_strip_prefix_of_concat("join_uri="@, p.join_uri);
    lemma_strip_prefix_of_concat("reconnect_timeout_secs="@, rt);
    lemma_strip_prefix_mismatch(l1, "theme="@, 0);
    lemma_strip_prefix_mismatch(l2, "theme="@, 0);
    lemma_strip_prefix_mismatch(l2, "locale="@, 0);
    lemma_strip_prefix_mismatch(l3, "theme="@, 0);
    lemma_strip_prefix_mismatch(l3, "locale="@, 0);
    lemma_strip_prefix_mismatch(l3, "remember_window_state="@, 0);
    lemma_strip_prefix_mismatch(l4, "theme="@, 0);
    lemma_strip_prefix_mismatch(l4, "locale="@, 0);
    lemma_strip_prefix_mismatch(l4, "remember_window_state="@, 0);
    lemma_strip_prefix_mismatch(l4, "close_action="@, 0);
    lemma_strip_prefix_mismatch(l5, "theme="@, 0);
    lemma_strip_prefix_mismatch(l5, "locale="@, 0);
    lemma_strip_prefix_mismatch(l5, "remember_window_state="@, 2);
    lemma_strip_prefix_mismatch(l5, "close_action="@, 0);
    lemma_strip_prefix_mismatch(l5, "join_uri="@, 0);
    let q0 = apply_preference_line(d, l0);
    let q1 = apply_preference_line(q0, l1);
    let q2 = apply_preference_line(q1, l2);
    let q3 = apply_preference_line(q2, l3);
    let q4 = apply_preference_line(q3, l4);
    let q5 = apply_preference_line(q4, l5);
    if let Some(v) = p.reconnect_timeout_secs {
        lemma_decimal_round_trip(v as nat, u64::MAX as nat);
        assert(rt[0] != "unlimited"@[0]);
    }
    assert(q5 == p);
    assert(ls.drop_last().drop_last().drop_last().drop_last().drop_last().drop_last()
        =~= Seq::<Seq<char>>::empty());
    assert(apply_preference_lines(d, ls.take(1)) == q0) by {
        assert(ls.take(1).drop_last() =~= Seq::<Seq<char>>::empty());
        assert(apply_preference_lines(d, Seq::<Seq<char>>::empty()) == d);
        assert(ls.take(1).last() == l0);
    }
    assert(apply_preference_lines(d, ls.take(2)) == q1) by {
        assert(ls.take(2).drop_last() =~= ls.take(1));
    }
    assert(apply_preference_lines(d, ls.take(3)) == q2) by {
        assert(ls.take(3).drop_last() =~= ls.take(2));
    }
    assert(apply_preference_lines(d, ls.take(4)) == q3) by {
        assert(ls.take(4).drop_last() =~= ls.take(3));
    }
    assert(apply_preference_lines(d, ls.take(5)) == q4) by {
        assert(ls.take(5).drop_last() =~= ls.take(4));
    }
    assert(apply_preference_lines(d, ls) == q5) by {
        assert(ls.drop_last() =~= ls.take(5));
    }
}

} // verus!
