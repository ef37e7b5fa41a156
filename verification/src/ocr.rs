//! Screen-region text recognition: the order of its steps, the messages
//! of failed steps, and reading what was recognised.
use vstd::prelude::*;
use crate::clips::ClipboardWatch;
use crate::text::{chars_of, string_of, trim, trim_spec};

verus! {

broadcast use vstd::string::group_string_axioms;

/// The steps of text recognition that can fail.
#[derive(PartialEq, Eq, Structural, Clone, Copy, Debug)]
pub enum OcrStage {
    /// Writing the image to a temporary file.
    WriteTempImage,
    /// Starting Tesseract with English data.
    Initialize,
    /// Loading the image into Leptonica.
    LoadImage,
    /// Recognising the text.
    Recognize,
}

/// The start of the error message for a failed step.
pub open spec fn stage_prefix(stage: OcrStage) -> Seq<char> {
    match stage {
        OcrStage::WriteTempImage => "Failed to write OCR temp image: "@,
        OcrStage::Initialize => "Failed to initialize Tesseract (is tesseract-ocr installed?): "@,
        OcrStage::LoadImage => "Leptonica failed to load image: "@,
        OcrStage::Recognize => "Tesseract text recognition failed: "@,
    }
}

/// The error message for a failed step, given the underlying error's text.
pub fn stage_failure(stage: OcrStage, detail: &str) -> (r: String)
    ensures
        r@ == stage_prefix(stage) + detail@,
{
    let prefix = match stage {
        OcrStage::WriteTempImage => "Failed to write OCR temp image: ",
        OcrStage::Initialize => "Failed to initialize Tesseract (is tesseract-ocr installed?): ",
        OcrStage::LoadImage => "Leptonica failed to load image: ",
        OcrStage::Recognize => "Tesseract text recognition failed: ",
    };
    let mut out = chars_of(prefix);
    let mut rest = chars_of(detail);
    out.append(&mut rest);
    string_of(&out)
}

/// What recognition delivers: the recognised text trimmed, or an error when
/// nothing but white space was recognised.
pub fn recognized_text(text: &str) -> (r: Result<String, String>)
    ensures
        trim_spec(text@).len() == 0 ==> (r matches Err(e) && e@
            == "No text recognized in selected image region"@),
        trim_spec(text@).len() > 0 ==> (r matches Ok(t) && t@ == trim_spec(text@)),
{
    let t = trim(&chars_of(text));
    if t.len() == 0 {
        Err(string_of(&chars_of("No text recognized in selected image region")))
    } else {
        Ok(string_of(&t))
    }
}

/// The steps of capturing a screen region and turning its text into a
/// clipboard entry.
#[derive(PartialEq, Eq, Structural, Clone, Copy, Debug)]
pub enum OcrStep {
    /// Read whether the feature is enabled in the preferences.
    CheckSetting,
    /// Hide the main window, then wait `HIDE_SETTLE_MS` so that it is
    /// gone from the screenshot.
    HideWindow,
    /// Let the user select a region through the desktop portal.
    Capture,
    /// Recognise the text of the captured image, then remove the image.
    Recognize,
    /// Put the text on the clipboard and into the history.
    Publish,
    /// Refresh the history list.
    RefreshHistory,
    /// Mark the image on the clipboard, if any, as seen, so that a
    /// screenshot the capture left there is not recorded; this ends every
    /// run, whichever step it stopped at, and clears the running flag.
    NoteScreenshot,
    /// Done.
    Finish,
}

/// Wait after hiding the window, in milliseconds.
pub const HIDE_SETTLE_MS: u64 = 300;

/// The first step.
pub fn first_ocr_step() -> (r: OcrStep)
    ensures
        r == OcrStep::CheckSetting,
{
    OcrStep::CheckSetting
}

/// The step after `done`, which succeeded or not (for `CheckSetting`,
/// success means the feature is enabled): a failure skips to noting the
/// screenshot, hiding the window counts as done whatever came of it, and
/// noting the screenshot ends the job.
pub open spec fn ocr_step_after(done: OcrStep, succeeded: bool) -> OcrStep {
    match done {
        OcrStep::CheckSetting => if succeeded {
            OcrStep::HideWindow
        } else {
            OcrStep::NoteScreenshot
        },
        OcrStep::HideWindow => OcrStep::Capture,
        OcrStep::Capture => if succeeded {
            OcrStep::Recognize
        } else {
            OcrStep::NoteScreenshot
        },
        OcrStep::Recognize => if succeeded {
            OcrStep::Publish
        } else {
            OcrStep::NoteScreenshot
        },
        OcrStep::Publish => if succeeded {
            OcrStep::RefreshHistory
        } else {
            OcrStep::NoteScreenshot
        },
        OcrStep::RefreshHistory => OcrStep::NoteScreenshot,
        OcrStep::NoteScreenshot | OcrStep::Finish => OcrStep::Finish,
    }
}

/// The step after `done`. Each step past the check is reached only from the
/// one before it, and only when that one succeeded: the history is refreshed
/// only after text was published, which needs recognised text, which needs a
/// captured region, which needs the feature to be enabled.
pub fn next_ocr_step(done: OcrStep, succeeded: bool) -> (r: OcrStep)
    ensures
        r == ocr_step_after(done, succeeded),
        r == OcrStep::HideWindow ==> done == OcrStep::CheckSetting && succeeded,
        r == OcrStep::Capture ==> done == OcrStep::HideWindow,
        r == OcrStep::Recognize ==> done == OcrStep::Capture && succeeded,
        r == OcrStep::Publish ==> done == OcrStep::Recognize && succeeded,
        r == OcrStep::RefreshHistory ==> done == OcrStep::Publish && succeeded,
        r == OcrStep::Finish ==> done == OcrStep::NoteScreenshot || done == OcrStep::Finish,
        done != OcrStep::NoteScreenshot && done != OcrStep::Finish ==> r != OcrStep::Finish,
        r != OcrStep::CheckSetting,
{
    match done {
        OcrStep::CheckSetting => if succeeded {
            OcrStep::HideWindow
        } else {
            OcrStep::NoteScreenshot
        },
        OcrStep::HideWindow => OcrStep::Capture,
        OcrStep::Capture => if succeeded {
            OcrStep::Recognize
        } else {
            OcrStep::NoteScreenshot
        },
        OcrStep::Recognize => if succeeded {
            OcrStep::Publish
        } else {
            OcrStep::NoteScreenshot
        },
        OcrStep::Publish => if succeeded {
            OcrStep::RefreshHistory
        } else {
            OcrStep::NoteScreenshot
        },
        OcrStep::RefreshHistory => OcrStep::NoteScreenshot,
        OcrStep::NoteScreenshot | OcrStep::Finish => OcrStep::Finish,
    }
}

/// A run of the text-recognition job: its current step and the running
/// flag, which is set from the start until the screenshot has been noted.
pub struct OcrJob {
    step: OcrStep,
    running: bool,
}

impl OcrJob {
    /// The step the job is at.
    pub closed spec fn current(&self) -> OcrStep {
        self.step
    }

    /// Whether the job counts as running.
    pub closed spec fn is_running(&self) -> bool {
        self.running
    }

    /// A job that has just started: at its first step, running.
    pub fn start() -> (r: Self)
        ensures
            r.current() == OcrStep::CheckSetting,
            r.is_running(),
    {
        OcrJob { step: first_ocr_step(), running: true }
    }

    /// The step the job is at.
    pub fn step(&self) -> (r: OcrStep)
        ensures
            r == self.current(),
    {
        self.step
    }

    /// Whether the job counts as running.
    pub fn running(&self) -> (r: bool)
        ensures
            r == self.is_running(),
    {
        self.running
    }

    /// Records how the current step went and moves to the next one. At
    /// `NoteScreenshot`, the hash of the image on the clipboard
    /// (`clipboard_image`, where there is one) is first marked as seen by
    /// the clipboard watcher, and only then is the running flag cleared;
    /// no other step touches the watcher or the flag.
    pub fn advance(&mut self, succeeded: bool, clipboard_image: Option<u64>, watch: &mut ClipboardWatch)
        ensures
            final(self).current() == ocr_step_after(old(self).current(), succeeded),
            old(self).is_running() == (old(self).current() != OcrStep::Finish) ==> (final(self).is_running()
                == (final(self).current() != OcrStep::Finish)),
            old(self).current() == OcrStep::NoteScreenshot ==> {
                &&& !final(self).is_running()
                &&& final(watch).hashes() == match clipboard_image {
                    Some(h) => (old(watch).hashes().0, h),
                    None => old(watch).hashes(),
                }
            },
            old(self).current() != OcrStep::NoteScreenshot ==> {
                &&& final(self).is_running() == old(self).is_running()
                &&& final(watch).hashes() == old(watch).hashes()
            },
    {
        if self.step == OcrStep::NoteScreenshot {
            if let Some(h) = clipboard_image {
                watch.note_image(h);
            }
            self.running = false;
        }
        self.step = next_ocr_step(self.step, succeeded);
    }
}

/// From its start, a job is running at every step but the last: the flag
/// is cleared only by the step that notes the screenshot, so the watcher has
/// the screenshot's hash before the job stops counting as running.
pub proof fn lemma_running_until_screenshot_noted(done: OcrStep, succeeded: bool)
    ensures
        done != OcrStep::Finish && ocr_step_after(done, succeeded) == OcrStep::Finish ==> done
            == OcrStep::NoteScreenshot,
        ocr_step_after(done, succeeded) != OcrStep::CheckSetting,
{
}

} // verus!
