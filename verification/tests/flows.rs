use linux_clipboard::ocr::{first_ocr_step, next_ocr_step, OcrJob, OcrStep, HIDE_SETTLE_MS};
use linux_clipboard::clips::ClipboardWatch;
use linux_clipboard::paste::{paste_steps, wait_after_restore, PasteOrigin, PasteStep, UNSETTLED_FOCUS_WAIT_MS};

#[test]
fn history_entry_paste_order() {
    assert_eq!(
        paste_steps(PasteOrigin::HistoryEntry),
        vec![
            PasteStep::Wait(150),
            PasteStep::RestoreFocus,
            PasteStep::SetClipboard,
            PasteStep::Wait(60),
            PasteStep::SendPasteKeys,
            PasteStep::Wait(250),
        ]
    );
}

#[test]
fn emoji_paste_order() {
    assert_eq!(
        paste_steps(PasteOrigin::Emoji),
        vec![
            PasteStep::Wait(150),
            PasteStep::SetClipboard,
            PasteStep::RestoreFocus,
            PasteStep::Wait(60),
            PasteStep::SendPasteKeys,
            PasteStep::Wait(250),
        ]
    );
}

#[test]
fn paste_keys_come_after_clipboard_and_focus() {
    for origin in [PasteOrigin::HistoryEntry, PasteOrigin::Emoji] {
        let steps = paste_steps(origin);
        let at = |s: PasteStep| steps.iter().position(|x| *x == s).unwrap();
        assert!(at(PasteStep::SetClipboard) < at(PasteStep::SendPasteKeys));
        assert!(at(PasteStep::RestoreFocus) < at(PasteStep::SendPasteKeys));
        assert_eq!(steps.iter().filter(|x| **x == PasteStep::SendPasteKeys).count(), 1);
    }
}

#[test]
fn unsettled_focus_waits_longer() {
    assert_eq!(wait_after_restore(true), 0);
    assert_eq!(wait_after_restore(false), UNSETTLED_FOCUS_WAIT_MS);
    assert_eq!(UNSETTLED_FOCUS_WAIT_MS, 100);
}

fn run(outcomes: &[bool]) -> Vec<OcrStep> {
    let mut seen = vec![];
    let mut step = first_ocr_step();
    let mut i = 0;
    while step != OcrStep::Finish {
        seen.push(step);
        step = next_ocr_step(step, outcomes.get(i).copied().unwrap_or(true));
        i += 1;
    }
    seen
}

#[test]
fn ocr_job_runs_all_steps_when_each_succeeds() {
    assert_eq!(
        run(&[true; 6]),
        vec![
            OcrStep::CheckSetting,
            OcrStep::HideWindow,
            OcrStep::Capture,
            OcrStep::Recognize,
            OcrStep::Publish,
            OcrStep::RefreshHistory,
            OcrStep::NoteScreenshot,
        ]
    );
    assert_eq!(HIDE_SETTLE_MS, 300);
}

#[test]
fn ocr_job_stops_at_the_first_failure() {
    assert_eq!(run(&[false]), vec![OcrStep::CheckSetting, OcrStep::NoteScreenshot]);
    assert_eq!(
        run(&[true, false, false]),
        vec![OcrStep::CheckSetting, OcrStep::HideWindow, OcrStep::Capture, OcrStep::NoteScreenshot]
    );
    assert_eq!(
        run(&[true, true, true, false]),
        vec![OcrStep::CheckSetting, OcrStep::HideWindow, OcrStep::Capture, OcrStep::Recognize, OcrStep::NoteScreenshot]
    );
    assert_eq!(
        run(&[true, true, true, true, false]),
        vec![OcrStep::CheckSetting, OcrStep::HideWindow, OcrStep::Capture, OcrStep::Recognize, OcrStep::Publish, OcrStep::NoteScreenshot]
    );
}

#[test]
fn ocr_job_notes_the_screenshot_before_it_stops_running() {
    let mut watch = ClipboardWatch::new();
    let mut job = OcrJob::start();
    assert!(job.running());
    job.advance(true, Some(7), &mut watch);
    job.advance(true, Some(7), &mut watch);
    job.advance(false, Some(7), &mut watch);
    assert_eq!(job.step(), OcrStep::NoteScreenshot);
    assert!(job.running());
    assert!(watch.observe(None, Some(7)).record_image);
    let mut watch = ClipboardWatch::new();
    job.advance(true, Some(42), &mut watch);
    assert_eq!(job.step(), OcrStep::Finish);
    assert!(!job.running());
    assert!(!watch.observe(None, Some(42)).record_image);
    assert!(watch.observe(None, Some(43)).record_image);
    let mut job = OcrJob::start();
    job.advance(false, None, &mut watch);
    job.advance(true, None, &mut watch);
    assert!(!job.running());
    assert!(!watch.observe(None, Some(43)).record_image);
}
