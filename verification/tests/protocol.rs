use linux_clipboard::ipc::{
    has_flag, instance_command, ipc_reaction, is_emoji_tab, search_placeholder, shows_window_at_startup,
    startup_tab, tab_index, IpcReaction, Tab,
};
use linux_clipboard::ocr::{recognized_text, stage_failure, OcrStage};
use linux_clipboard::shortcuts::{
    after_conflict_check, checking_status, conflict_status, outcome_status, CheckFollowUp,
    ConflictCheck,
};

fn args(list: &[&str]) -> Vec<String> {
    list.iter().map(|s| s.to_string()).collect()
}

#[test]
fn second_launch_messages() {
    assert_eq!(instance_command(&args(&["linux-clipboard"])), "toggle");
    assert_eq!(instance_command(&args(&["linux-clipboard", "--emoji"])), "emoji");
    assert_eq!(instance_command(&args(&["linux-clipboard", "--settings"])), "settings");
    assert_eq!(instance_command(&args(&["x", "--settings", "--emoji"])), "emoji");
    assert_eq!(instance_command(&args(&["x", "--EMOJI"])), "toggle");
    assert!(has_flag(&args(&["a", "--background"]), "--background"));
    assert!(!has_flag(&args(&[]), "--background"));
}

#[test]
fn running_instance_reactions() {
    assert_eq!(ipc_reaction(true, "toggle"), IpcReaction::Hide);
    assert_eq!(ipc_reaction(true, "toggle\n"), IpcReaction::Hide);
    assert_eq!(ipc_reaction(false, "toggle"), IpcReaction::Show(Tab::History));
    assert_eq!(ipc_reaction(true, "emoji"), IpcReaction::Show(Tab::Emojis));
    assert_eq!(ipc_reaction(false, " emoji "), IpcReaction::Show(Tab::Emojis));
    assert_eq!(ipc_reaction(true, "settings"), IpcReaction::Show(Tab::History));
    assert_eq!(ipc_reaction(true, ""), IpcReaction::Show(Tab::History));
}

#[test]
fn second_launch_toggles_a_visible_window() {
    let plain = instance_command(&args(&["linux-clipboard"]));
    assert_eq!(ipc_reaction(true, &plain), IpcReaction::Hide);
    assert_eq!(ipc_reaction(false, &plain), IpcReaction::Show(Tab::History));
    let emoji = instance_command(&args(&["linux-clipboard", "--emoji"]));
    assert_eq!(ipc_reaction(true, &emoji), IpcReaction::Show(Tab::Emojis));
}

#[test]
fn start_up_flags_and_tabs() {
    assert_eq!(startup_tab(&args(&["x", "--emoji"])), Tab::Emojis);
    assert_eq!(startup_tab(&args(&["x"])), Tab::History);
    assert!(shows_window_at_startup(&args(&["x"])));
    assert!(!shows_window_at_startup(&args(&["x", "--background"])));
    assert_eq!(tab_index(Tab::History), 0);
    assert_eq!(tab_index(Tab::Emojis), 1);
    assert_eq!(search_placeholder(Tab::Emojis), "Search emojis...");
    assert_eq!(search_placeholder(Tab::History), "Search history...");
    assert!(is_emoji_tab(1));
    assert!(!is_emoji_tab(0));
    assert!(!is_emoji_tab(2));
}

#[test]
fn recognised_text_is_trimmed() {
    assert_eq!(recognized_text("  Hello\nWorld \n\n"), Ok("Hello\nWorld".to_string()));
    assert_eq!(
        recognized_text(" \n\t "),
        Err("No text recognized in selected image region".to_string())
    );
    assert_eq!(
        stage_failure(OcrStage::Initialize, "boom"),
        "Failed to initialize Tesseract (is tesseract-ocr installed?): boom"
    );
    assert_eq!(stage_failure(OcrStage::LoadImage, "x"), "Leptonica failed to load image: x");
    assert_eq!(stage_failure(OcrStage::Recognize, ""), "Tesseract text recognition failed: ");
    assert_eq!(stage_failure(OcrStage::WriteTempImage, "disk full"), "Failed to write OCR temp image: disk full");
}

#[test]
fn shortcut_set_up_statuses() {
    match after_conflict_check(ConflictCheck::Conflict("Super+V is taken".into())) {
        CheckFollowUp::ShowConflict(d) => assert_eq!(d, "Super+V is taken"),
        other => panic!("unexpected {:?}", other),
    }
    assert!(matches!(after_conflict_check(ConflictCheck::Free), CheckFollowUp::Register));
    assert!(matches!(after_conflict_check(ConflictCheck::Failed), CheckFollowUp::ReportFailure));
    assert_eq!(checking_status(), "checking");
    assert_eq!(conflict_status(), "conflict");
    assert_eq!(outcome_status(true), "ok");
    assert_eq!(outcome_status(false), "failed");
}
