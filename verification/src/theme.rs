//! Dark-mode detection: which desktop settings sources are consulted, in
//! what order, and how each source's reply is read.
use vstd::prelude::*;
use crate::text::{
    chars_of, contains, contains_spec, lemma_lines_of_first_line, lemma_lines_of_last_line, lowercase_of, lines, same_chars,
    split_lines, strip_cr, to_lowercase, trim, trim_spec, views,
};

verus! {

broadcast use vstd::string::group_string_axioms;

/// A place where the desktop records its colour scheme.
#[derive(PartialEq, Eq, Structural, Clone, Copy, Debug)]
pub enum ThemeSource {
    /// `dbus-send` to the settings portal (`org.freedesktop.appearance color-scheme`).
    PortalDbusSend,
    /// `busctl call` to the same portal setting.
    PortalBusctl,
    /// `gsettings get org.gnome.desktop.interface color-scheme`.
    GnomeColorScheme,
    /// `gsettings get org.gnome.desktop.interface gtk-theme`.
    GnomeGtkTheme,
    /// The `~/.config/kdeglobals` file.
    KdeGlobals,
}

/// What the trimmed, lowercased reply of a command source says: `Some(true)`
/// for dark, `Some(false)` for light, `None` when it does not say.
pub open spec fn reply_answer(source: ThemeSource, lowered: Seq<char>) -> Option<bool> {
    match source {
        ThemeSource::PortalDbusSend => if contains_spec(lowered, "uint32 1"@) {
            Some(true)
        } else if contains_spec(lowered, "uint32 2"@) || contains_spec(lowered, "uint32 0"@) {
            Some(false)
        } else {
            None
        },
        ThemeSource::PortalBusctl => if contains_spec(lowered, " 1"@) {
            Some(true)
        } else if contains_spec(lowered, " 2"@) || contains_spec(lowered, " 0"@) {
            Some(false)
        } else {
            None
        },
        ThemeSource::GnomeColorScheme | ThemeSource::GnomeGtkTheme => if contains_spec(
            lowered,
            "dark"@,
        ) {
            Some(true)
        } else if contains_spec(lowered, "light"@) {
            Some(false)
        } else {
            None
        },
        ThemeSource::KdeGlobals => None,
    }
}

/// What one lowercased line of `kdeglobals` says: only a `ColorScheme=`
/// line counts, and then only when it names a dark or a light scheme.
pub open spec fn kde_line_answer_spec(lowered: Seq<char>) -> Option<bool> {
    if contains_spec(lowered, "colorscheme="@) {
        if contains_spec(lowered, "dark"@) {
            Some(true)
        } else if contains_spec(lowered, "light"@) {
            Some(false)
        } else {
            None
        }
    } else {
        None
    }
}

/// The answer of the first line, among `ls`, that gives one.
pub open spec fn kde_lines_answer(ls: Seq<Seq<char>>) -> Option<bool>
    decreases ls.len(),
{
    if ls.len() == 0 {
        None
    } else {
        match kde_line_answer_spec(lowercase_of(ls[0])) {
            Some(b) => Some(b),
            None => kde_lines_answer(ls.drop_first()),
        }
    }
}

/// What a source says, given its raw text: the standard output of the command
/// for command sources (read trimmed and lowercased), the file contents for
/// `kdeglobals` (read line by line, each line lowercased).
pub open spec fn source_answer_spec(source: ThemeSource, text: Seq<char>) -> Option<bool> {
    match source {
        ThemeSource::KdeGlobals => kde_lines_answer(lines(text)),
        _ => reply_answer(source, lowercase_of(trim_spec(text))),
    }
}

/// `kdeglobals` is read line by line: a first line (lowercased, less a
/// carriage return before its line feed) that holds `colorscheme=` and names
/// a dark or a light scheme decides, dark before light; any other first line
/// leaves the answer to the lines after it, so that words on other lines
/// never count as the colour scheme.
pub proof fn lemma_kde_reads_line_by_line(first: Seq<char>, rest: Seq<char>)
    requires
        forall|i: int| 0 <= i < first.len() ==> first[i] != '\n',
    ensures
        ({
            let line = lowercase_of(strip_cr(first));
            let whole = source_answer_spec(ThemeSource::KdeGlobals, first + seq!['\n'] + rest);
            let scheme = contains_spec(line, "colorscheme="@);
            let dark = contains_spec(line, "dark"@);
            let light = contains_spec(line, "light"@);
            &&& scheme && dark ==> whole == Some(true)
            &&& scheme && !dark && light ==> whole == Some(false)
            &&& !(scheme && (dark || light)) ==> whole == source_answer_spec(
                ThemeSource::KdeGlobals,
                rest,
            )
        }),
{
    lemma_lines_of_first_line(first, rest);
    let ls = seq![strip_cr(first)] + lines(rest);
    assert(ls[0] == strip_cr(first));
    assert(ls.drop_first() =~= lines(rest));
}

/// A `kdeglobals` of one line without a line feed says what that line
/// (lowercased) says, and nothing when the line does not name a dark or a
/// light colour scheme.
pub proof fn lemma_kde_single_line(line: Seq<char>)
    requires
        forall|i: int| 0 <= i < line.len() ==> line[i] != '\n',
    ensures
        ({
            let lowered = lowercase_of(line);
            let answer = source_answer_spec(ThemeSource::KdeGlobals, line);
            let scheme = contains_spec(lowered, "colorscheme="@);
            let dark = contains_spec(lowered, "dark"@);
            let light = contains_spec(lowered, "light"@);
            &&& line.len() > 0 && scheme && dark ==> answer == Some(true)
            &&& line.len() > 0 && scheme && !dark && light ==> answer == Some(false)
            &&& !(scheme && (dark || light)) ==> answer is None
        }),
{
    lemma_lines_of_last_line(line);
    if line.len() > 0 {
        assert(seq![line][0] == line);
        assert(seq![line].drop_first() =~= Seq::<Seq<char>>::empty());
        assert(kde_lines_answer(Seq::<Seq<char>>::empty()) is None);
    }
}

/// Text with no line at all (empty `kdeglobals`) says nothing.
pub proof fn lemma_kde_empty_says_nothing()
    ensures
        source_answer_spec(ThemeSource::KdeGlobals, Seq::<char>::empty()) is None,
{
}

/// Whether `s` holds the string literal `lit`.
fn has(s: &Vec<char>, lit: &str) -> (r: bool)
    ensures
        r == contains_spec(s@, lit@),
{
    contains(s, &chars_of(lit))
}

/// Reads the trimmed, lowercased reply of a command source.
pub fn interpret_reply(source: ThemeSource, lowered: &Vec<char>) -> (r: Option<bool>)
    ensures
        r == reply_answer(source, lowered@),
{
    match source {
        ThemeSource::PortalDbusSend => {
            if has(lowered, "uint32 1") {
                Some(true)
            } else if has(lowered, "uint32 2") || has(lowered, "uint32 0") {
                Some(false)
            } else {
                None
            }
        },
        ThemeSource::PortalBusctl => {
            if has(lowered, " 1") {
                Some(true)
            } else if has(lowered, " 2") || has(lowered, " 0") {
                Some(false)
            } else {
                None
            }
        },
        ThemeSource::GnomeColorScheme | ThemeSource::GnomeGtkTheme => {
            if has(lowered, "dark") {
                Some(true)
            } else if has(lowered, "light") {
                Some(false)
            } else {
                None
            }
        },
        ThemeSource::KdeGlobals => None,
    }
}

/// Reads one lowercased line of `kdeglobals`.
pub fn kde_line_answer(lowered: &Vec<char>) -> (r: Option<bool>)
    ensures
        r == kde_line_answer_spec(lowered@),
{
    if has(lowered, "colorscheme=") {
        if has(lowered, "dark") {
            Some(true)
        } else if has(lowered, "light") {
            Some(false)
        } else {
            None
        }
    } else {
        None
    }
}

/// What a source says, given its raw text (see `source_answer_spec`).
pub fn source_answer(source: ThemeSource, text: &str) -> (r: Option<bool>)
    ensures
        r == source_answer_spec(source, text@),
{
    let chars = chars_of(text);
    match source {
        ThemeSource::KdeGlobals => {
            let ls = split_lines(&chars);
            let ghost all = views(ls@);
            let mut i: usize = 0;
            assert(all.skip(0) =~= all);
            while i < ls.len()
                invariant
                    i <= ls.len(),
                    all == views(ls@),
                    all == lines(text@),
                    source == ThemeSource::KdeGlobals,
                    kde_lines_answer(all) == kde_lines_answer(all.skip(i as int)),
                decreases ls.len() - i,
            {
                assert(all.skip(i as int)[0] == ls@[i as int]@);
                assert(all.skip(i as int).drop_first() =~= all.skip(i + 1));
                let lowered = to_lowercase(&ls[i]);
                if let Some(b) = kde_line_answer(&lowered) {
                    assert(kde_lines_answer(all.skip(i as int)) == Some(b));
                    return Some(b);
                }
                i = i + 1;
            }
            assert(all.skip(ls.len() as int) =~= Seq::<Seq<char>>::empty());
            None
        },
        _ => {
            let lowered = to_lowercase(&trim(&chars));
            interpret_reply(source, &lowered)
        },
    }
}

/// Where the search for the colour scheme stands.
#[derive(PartialEq, Eq, Structural, Clone, Copy, Debug)]
pub enum ThemeStep {
    /// Ask this source next.
    Consult(ThemeSource),
    /// The search is over: dark (`true`) or light.
    Decided(bool),
}

/// The source asked after `s`, if any.
pub open spec fn source_after(s: ThemeSource) -> Option<ThemeSource> {
    match s {
        ThemeSource::PortalDbusSend => Some(ThemeSource::PortalBusctl),
        ThemeSource::PortalBusctl => Some(ThemeSource::GnomeColorScheme),
        ThemeSource::GnomeColorScheme => Some(ThemeSource::GnomeGtkTheme),
        ThemeSource::GnomeGtkTheme => Some(ThemeSource::KdeGlobals),
        ThemeSource::KdeGlobals => None,
    }
}

/// The step after asking `consulted`, which answered `answer`: an answer
/// ends the search, silence moves on to the next source, and when every
/// source has been silent the desktop is taken to be light.
pub open spec fn step_after(consulted: ThemeSource, answer: Option<bool>) -> ThemeStep {
    match answer {
        Some(b) => ThemeStep::Decided(b),
        None => match source_after(consulted) {
            Some(s) => ThemeStep::Consult(s),
            None => ThemeStep::Decided(false),
        },
    }
}

/// The search starts with the settings portal through `dbus-send`.
pub fn first_theme_step() -> (r: ThemeStep)
    ensures
        r == ThemeStep::Consult(ThemeSource::PortalDbusSend),
{
    ThemeStep::Consult(ThemeSource::PortalDbusSend)
}

/// The step after asking `consulted`, which answered `answer`.
pub fn next_theme_step(consulted: ThemeSource, answer: Option<bool>) -> (r: ThemeStep)
    ensures
        r == step_after(consulted, answer),
{
    match answer {
        Some(b) => ThemeStep::Decided(b),
        None => match consulted {
            ThemeSource::PortalDbusSend => ThemeStep::Consult(ThemeSource::PortalBusctl),
            ThemeSource::PortalBusctl => ThemeStep::Consult(ThemeSource::GnomeColorScheme),
            ThemeSource::GnomeColorScheme => ThemeStep::Consult(ThemeSource::GnomeGtkTheme),
            ThemeSource::GnomeGtkTheme => ThemeStep::Consult(ThemeSource::KdeGlobals),
            ThemeSource::KdeGlobals => ThemeStep::Decided(false),
        },
    }
}

/// The outcome of a search from `step` in which the sources asked answer
/// `answers`, in turn.
pub open spec fn search_outcome(step: ThemeStep, answers: Seq<Option<bool>>) -> bool
    decreases answers.len(),
{
    match step {
        ThemeStep::Decided(b) => b,
        ThemeStep::Consult(s) => if answers.len() == 0 {
            false
        } else {
            search_outcome(step_after(s, answers[0]), answers.drop_first())
        },
    }
}

/// The first answer given, or light when none is.
pub open spec fn first_given(answers: Seq<Option<bool>>) -> bool
    decreases answers.len(),
{
    if answers.len() == 0 {
        false
    } else {
        match answers[0] {
            Some(b) => b,
            None => first_given(answers.drop_first()),
        }
    }
}

/// The five sources are asked in a fixed order and the first one that
/// answers decides; when none answers the desktop counts as light.
pub proof fn lemma_first_answer_decides(answers: Seq<Option<bool>>)
    requires
        answers.len() == 5,
    ensures
        search_outcome(ThemeStep::Consult(ThemeSource::PortalDbusSend), answers) == first_given(
            answers,
        ),
{
    let a1 = answers.drop_first();
    let a2 = a1.drop_first();
    let a3 = a2.drop_first();
    let a4 = a3.drop_first();
    let a5 = a4.drop_first();
    assert(a5.len() == 0);
    reveal_with_fuel(search_outcome, 2);
    reveal_with_fuel(first_given, 2);
    assert(search_outcome(ThemeStep::Consult(ThemeSource::KdeGlobals), a4) == first_given(a4));
    assert(search_outcome(ThemeStep::Consult(ThemeSource::GnomeGtkTheme), a3) == first_given(a3));
    assert(search_outcome(ThemeStep::Consult(ThemeSource::GnomeColorScheme), a2) == first_given(
        a2,
    ));
    assert(search_outcome(ThemeStep::Consult(ThemeSource::PortalBusctl), a1) == first_given(a1));
}

/// The theme the user picked in the settings: `Some(true)` for `"dark"`,
/// `Some(false)` for `"light"`, `None` for anything else (follow the desktop).
pub fn theme_preference(mode: &str) -> (r: Option<bool>)
    ensures
        r == if mode@ == "dark"@ {
            Some(true)
        } else if mode@ == "light"@ {
            Some(false)
        } else {
            None
        },
{
    let m = chars_of(mode);
    if same_chars(&m, &chars_of("dark")) {
        Some(true)
    } else if same_chars(&m, &chars_of("light")) {
        Some(false)
    } else {
        None
    }
}

} // verus!
