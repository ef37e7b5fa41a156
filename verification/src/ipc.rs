//! The single-instance protocol: what a second launch sends to the running
//! instance, and how the running instance reacts to what it receives; also
//! the start-up flags and the tab a search applies to.
use vstd::prelude::*;
use crate::text::{chars_of, same_chars, string_of, trim, trim_spec, is_white_space};

verus! {

broadcast use vstd::string::group_string_axioms;

/// The two tabs of the window.
#[derive(PartialEq, Eq, Structural, Clone, Copy, Debug)]
pub enum Tab {
    /// The clipboard history (index 0).
    History,
    /// The emoji picker (index 1).
    Emojis,
}

/// The index the user interface uses for a tab.
pub fn tab_index(t: Tab) -> (r: i32)
    ensures
        r == match t {
            Tab::History => 0i32,
            Tab::Emojis => 1i32,
        },
{
    match t {
        Tab::History => 0,
        Tab::Emojis => 1,
    }
}

/// The placeholder of the search field on a tab.
pub open spec fn placeholder_spec(t: Tab) -> Seq<char> {
    match t {
        Tab::History => "Search history..."@,
        Tab::Emojis => "Search emojis..."@,
    }
}

/// The placeholder of the search field on a tab.
pub fn search_placeholder(t: Tab) -> (r: String)
    ensures
        r@ == placeholder_spec(t),
{
    let text = match t {
        Tab::History => "Search history...",
        Tab::Emojis => "Search emojis...",
    };
    string_of(&chars_of(text))
}

/// Whether the tab with this index is the emoji picker (searches there go
/// to the emojis, everywhere else to the history).
pub fn is_emoji_tab(active_tab: i32) -> (r: bool)
    ensures
        r == (active_tab == 1),
{
    active_tab == 1
}

/// `flag` is one of the command-line arguments.
pub open spec fn has_flag_spec(args: Seq<String>, flag: Seq<char>) -> bool {
    exists|i: int| 0 <= i < args.len() && #[trigger] args[i]@ == flag
}

/// Whether `flag` is one of the command-line arguments.
pub fn has_flag(args: &Vec<String>, flag: &str) -> (r: bool)
    ensures
        r == has_flag_spec(args@, flag@),
{
    let f = chars_of(flag);
    let mut i: usize = 0;
    while i < args.len()
        invariant
            i <= args.len(),
            f@ == flag@,
            forall|k: int| 0 <= k < i ==> args@[k]@ != flag@,
        decreases args.len() - i,
    {
        if same_chars(&chars_of(args[i].as_str()), &f) {
            assert(args@[i as int]@ == flag@);
            return true;
        }
        i = i + 1;
    }
    false
}

/// What a second launch sends to the running instance: `emoji` with
/// `--emoji`, otherwise `settings` with `--settings`, otherwise `toggle`.
pub open spec fn instance_command_spec(args: Seq<String>) -> Seq<char> {
    if has_flag_spec(args, "--emoji"@) {
        "emoji"@
    } else if has_flag_spec(args, "--settings"@) {
        "settings"@
    } else {
        "toggle"@
    }
}

/// What a second launch with these arguments sends to the running instance.
pub fn instance_command(args: &Vec<String>) -> (r: String)
    ensures
        r@ == instance_command_spec(args@),
{
    let cmd = if has_flag(args, "--emoji") {
        "emoji"
    } else if has_flag(args, "--settings") {
        "settings"
    } else {
        "toggle"
    };
    string_of(&chars_of(cmd))
}

/// The tab shown right after start-up: the emoji picker with `--emoji`.
pub fn startup_tab(args: &Vec<String>) -> (r: Tab)
    ensures
        r == if has_flag_spec(args@, "--emoji"@) {
            Tab::Emojis
        } else {
            Tab::History
        },
{
    if has_flag(args, "--emoji") {
        Tab::Emojis
    } else {
        Tab::History
    }
}

/// Whether the window is shown at start-up: not with `--background`.
pub fn shows_window_at_startup(args: &Vec<String>) -> (r: bool)
    ensures
        r == !has_flag_spec(args@, "--background"@),
{
    !has_flag(args, "--background")
}

/// How the running instance reacts to a message from a second launch.
#[derive(PartialEq, Eq, Structural, Clone, Copy, Debug)]
pub enum IpcReaction {
    /// Hide the window and reset its state.
    Hide,
    /// Open on this tab: select the first entry, remember the focused
    /// window, move the window next to the cursor and show it.
    Show(Tab),
}

/// The reaction to a received message (trimmed first): `toggle` hides a
/// visible window; `emoji` opens the emoji picker; anything else opens the
/// history.
pub open spec fn reaction_spec(window_visible: bool, received: Seq<char>) -> IpcReaction {
    let cmd = trim_spec(received);
    if window_visible && cmd == "toggle"@ {
        IpcReaction::Hide
    } else if cmd == "emoji"@ {
        IpcReaction::Show(Tab::Emojis)
    } else {
        IpcReaction::Show(Tab::History)
    }
}

/// The reaction of the running instance to a received message.
pub fn ipc_reaction(window_visible: bool, received: &str) -> (r: IpcReaction)
    ensures
        r == reaction_spec(window_visible, received@),
{
    let cmd = trim(&chars_of(received));
    if window_visible && same_chars(&cmd, &chars_of("toggle")) {
        IpcReaction::Hide
    } else if same_chars(&cmd, &chars_of("emoji")) {
        IpcReaction::Show(Tab::Emojis)
    } else {
        IpcReaction::Show(Tab::History)
    }
}

proof fn lemma_trim_of_word(w: Seq<char>)
    requires
        w.len() > 0,
        forall|i: int| 0 <= i < w.len() ==> !is_white_space(#[trigger] w[i]),
    ensures
        trim_spec(w) == w,
{
    assert(crate::text::trim_start_spec(w) == w);
    assert(crate::text::trim_end_spec(w) == w);
}

/// Launching the program again while it runs toggles or switches the
/// window: with `--emoji` the running instance opens the emoji picker;
/// without `--emoji` and `--settings` it hides a visible window and opens a
/// hidden one on the history.
pub proof fn lemma_second_launch(args: Seq<String>, window_visible: bool)
    ensures
        reaction_spec(window_visible, instance_command_spec(args)) == if has_flag_spec(
            args,
            "--emoji"@,
        ) {
            IpcReaction::Show(Tab::Emojis)
        } else if has_flag_spec(args, "--settings"@) {
            IpcReaction::Show(Tab::History)
        } else if window_visible {
            IpcReaction::Hide
        } else {
            IpcReaction::Show(Tab::History)
        },
{
    reveal_strlit("emoji");
    reveal_strlit("settings");
    reveal_strlit("toggle");
    lemma_trim_of_word("emoji"@);
    lemma_trim_of_word("settings"@);
    lemma_trim_of_word("toggle"@);
    assert("settings"@ != "toggle"@) by {
        assert("settings"@[0] != "toggle"@[0]);
    }
    assert("settings"@ != "emoji"@) by {
        assert("settings"@.len() != "emoji"@.len());
    }
    assert("emoji"@ != "toggle"@) by {
        assert("emoji"@.len() != "toggle"@.len());
    }
}

} // verus!
