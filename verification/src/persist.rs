//! The small preferences file of the client's appearance: dark mode and
//! locale, one `key=value` line each.
use crate::lines::{
    has_no_newline, lemma_lines_round_trip, lemma_lines_text_take, lines_text, split_lines,
    strip_carriage_return, text_lines,
};
use crate::text::{
    chars_eq_str, is_trimmed, lemma_strip_prefix_mismatch, lemma_strip_prefix_of_concat,
    lemma_trimmed_is_trim, push_str, string_of, strip_prefix, strip_prefix_chars, trim, trim_chars,
};
use vstd::prelude::*;

verus! {

/// Appearance preferences of the client.
#[derive(Clone, Debug, PartialEq, Eq)]
pub struct AppPrefs {
    pub dark_mode: bool,
    pub locale: String,
}

/// The appearance preferences as plain values.
pub struct AppPrefsView {
    pub dark_mode: bool,
    pub locale: Seq<char>,
}

impl View for AppPrefs {
    type V = AppPrefsView;

    open spec fn view(&self) -> AppPrefsView {
        AppPrefsView { dark_mode: self.dark_mode, locale: self.locale@ }
    }
}

pub open spec fn default_app_prefs() -> AppPrefsView {
    AppPrefsView { dark_mode: true, locale: "en"@ }
}

impl Default for AppPrefs {
    fn default() -> (r: Self)
        ensures
            r@ == default_app_prefs(),
    {
        AppPrefs { dark_mode: true, locale: String::from_str("en") }
    }
}

/// What one line of the file does to the preferences read so far: a
/// `dark_mode=` line turns dark mode on exactly when its value is `true`, a
/// `locale=` line sets the locale, and any other line changes nothing.
pub open spec fn apply_app_prefs_line(p: AppPrefsView, line: Seq<char>) -> AppPrefsView {
    match strip_prefix(line, "dark_mode="@) {
        Some(v) => AppPrefsView { dark_mode: trim(v) == "true"@, ..p },
        None => match strip_prefix(line, "locale="@) {
            Some(v) => AppPrefsView { locale: trim(v), ..p },
            None => p,
        },
    }
}

/// The preferences after reading `lines` in order, starting from `p`.
pub open spec fn apply_app_prefs_lines(p: AppPrefsView, lines: Seq<Seq<char>>) -> AppPrefsView
    decreases lines.len(),
{
    if lines.len() == 0 {
        p
    } else {
        apply_app_prefs_line(apply_app_prefs_lines(p, lines.drop_last()), lines.last())
    }
}

/// The preferences that a file with the text `s` holds.
pub open spec fn app_prefs_from_text(s: Seq<char>) -> AppPrefsView {
    apply_app_prefs_lines(default_app_prefs(), text_lines(s))
}

fn apply_app_prefs(p: &mut AppPrefs, line: &Vec<char>)
    ensures
        final(p)@ == apply_app_prefs_line(old(p)@, line@),
{
    if let Some(v) = strip_prefix_chars(line, "dark_mode=") {
        let v = trim_chars(&v);
        p.dark_mode = chars_eq_str(&v, "true");
    } else if let Some(v) = strip_prefix_chars(line, "locale=") {
        let v = trim_chars(&v);
        p.locale = string_of(&v);
    }
}

/// Reads the appearance preferences file; what it does not set keeps the
/// default.
pub fn parse_app_prefs(content: &str) -> (p: AppPrefs)
    ensures
        p@ == app_prefs_from_text(content@),
{
    let lines = split_lines(content);
    let ghost ls = text_lines(content@);
    let mut prefs = AppPrefs::default();
    let mut i: usize = 0;
    assert(ls.take(0) =~= Seq::<Seq<char>>::empty());
    while i < lines.len()
        invariant
            i <= lines.len(),
            lines@.len() == ls.len(),
            forall|j: int| 0 <= j < lines@.len() ==> #[trigger] lines@[j]@ == ls[j],
            prefs@ == apply_app_prefs_lines(default_app_prefs(), ls.take(i as int)),
        decreases lines.len() - i,
    {
        assert(ls.take(i + 1).drop_last() =~= ls.take(i as int));
        assert(lines@[i as int]@ == ls[i as int]);
        apply_app_prefs(&mut prefs, &lines[i]);
        i = i + 1;
    }
    assert(ls.take(lines.len() as int) =~= ls);
    prefs
}

pub open spec fn app_prefs_lines(dark_mode: bool, locale: Seq<char>) -> Seq<Seq<char>> {
    seq![
        "dark_mode="@ + (if dark_mode { "true"@ } else { "false"@ }),
        "locale="@ + locale,
    ]
}

/// The text of the file that stores the two preferences.
pub open spec fn app_prefs_text(dark_mode: bool, locale: Seq<char>) -> Seq<char> {
    lines_text(app_prefs_lines(dark_mode, locale))
}

/// The text of the file that stores the two preferences:
/// `"dark_mode=<true|false>\nlocale=<locale>\n"`.
pub fn app_prefs_content(dark_mode: bool, locale: &str) -> (s: String)
    ensures
        s@ == app_prefs_text(dark_mode, locale@),
{
    let ghost ls = app_prefs_lines(dark_mode, locale@);
    let mut out: Vec<char> = Vec::new();
    proof {
        lemma_lines_text_take(ls, 0);
        reveal_strlit("\n");
    }
    push_str(&mut out, "dark_mode=");
    push_str(
        &mut out,
        if dark_mode {
            "true"
        } else {
            "false"
        },
    );
    push_str(&mut out, "\n");
    proof {
        lemma_lines_text_take(ls, 1);
        assert(out@ =~= lines_text(ls.take(1)));
    }
    push_str(&mut out, "locale=");
    push_str(&mut out, locale);
    push_str(&mut out, "\n");
    proof {
        lemma_lines_text_take(ls, 2);
        assert(out@ =~= lines_text(ls.take(2)));
        assert(ls.take(2) =~= ls);
    }
    string_of(&out)
}

/// Writing the preferences and reading the file back gives them again, for
/// a locale on one line without white space at its ends.
pub proof fn lemma_app_prefs_round_trip(p: AppPrefsView)
    requires
        has_no_newline(p.locale),
        is_trimmed(p.locale),
    ensures
        app_prefs_from_text(app_prefs_text(p.dark_mode, p.locale)) == p,
{
    reveal_strlit("dark_mode=");
    reveal_strlit("locale=");
    reveal_strlit("true");
    reveal_strlit("false");
    let b: Seq<char> = if p.dark_mode {
        "true"@
    } else {
        "false"@
    };
    let ls = app_prefs_lines(p.dark_mode, p.locale);
    let (l0, l1) = (ls[0], ls[1]);
    assert forall|i: int| 0 <= i < ls.len() implies has_no_newline(#[trigger] ls[i]) by {}
    assert forall|i: int| 0 <= i < ls.len() implies #[trigger] strip_carriage_return(ls[i])
        == ls[i] by {
        if i == 0 {
            assert(ls[i].last() == b.last());
        }
        if i == 1 && p.locale.len() > 0 {
            assert(ls[i].last() == p.locale.last());
        }
    }
    lemma_lines_round_trip(ls);
    lemma_trimmed_is_trim(p.locale);
    lemma_trimmed_is_trim(b);
    lemma_strip_prefix_of_concat("dark_mode="@, b);
    lemma_strip_prefix_of_concat("locale="@, p.locale);
    lemma_strip_prefix_mismatch(l1, "dark_mode="@, 0);
    let d = default_app_prefs();
    let q0 = apply_app_prefs_line(d, l0);
    let q1 = apply_app_prefs_line(q0, l1);
    assert(q1 == p);
    assert(apply_app_prefs_lines(d, ls.take(1)) == q0) by {
        assert(ls.take(1).drop_last() =~= Seq::<Seq<char>>::empty());
        assert(apply_app_prefs_lines(d, Seq::<Seq<char>>::empty()) == d);
        assert(ls.take(1).last() == l0);
    }
    assert(apply_app_prefs_lines(d, ls) == q1) by {
        assert(ls.drop_last() =~= ls.take(1));
    }
}

} // verus!
