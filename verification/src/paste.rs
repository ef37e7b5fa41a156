//! The order of work when an entry is pasted: the window is already hidden,
//! and the background job waits, returns focus to the window that had it,
//! puts the content on the clipboard and types Ctrl+V.
use vstd::prelude::*;

verus! {

/// One piece of the paste job.
#[derive(PartialEq, Eq, Structural, Clone, Copy, Debug)]
pub enum PasteStep {
    /// Sleep this many milliseconds.
    Wait(u64),
    /// Give focus back to the remembered window; when that does not succeed,
    /// wait a further `UNSETTLED_FOCUS_WAIT_MS`.
    RestoreFocus,
    /// Put the content on the clipboard.
    SetClipboard,
    /// Type Ctrl+V into the focused window.
    SendPasteKeys,
}

/// What is being pasted.
#[derive(PartialEq, Eq, Structural, Clone, Copy, Debug)]
pub enum PasteOrigin {
    /// An entry of the clipboard history.
    HistoryEntry,
    /// An emoji from the picker.
    Emoji,
}

/// Extra wait after focus could not be given back, in milliseconds.
pub const UNSETTLED_FOCUS_WAIT_MS: u64 = 100;

/// The steps of the paste job. For a history entry focus goes back before
/// the clipboard is set; for an emoji the clipboard is set first. Both wait
/// 150 ms for the window to disappear, 60 ms for the clipboard to settle and
/// 250 ms after typing for the target to read the clipboard.
pub open spec fn paste_plan(origin: PasteOrigin) -> Seq<PasteStep> {
    match origin {
        PasteOrigin::HistoryEntry => seq![
            PasteStep::Wait(150),
            PasteStep::RestoreFocus,
            PasteStep::SetClipboard,
            PasteStep::Wait(60),
            PasteStep::SendPasteKeys,
            PasteStep::Wait(250),
        ],
        PasteOrigin::Emoji => seq![
            PasteStep::Wait(150),
            PasteStep::SetClipboard,
            PasteStep::RestoreFocus,
            PasteStep::Wait(60),
            PasteStep::SendPasteKeys,
            PasteStep::Wait(250),
        ],
    }
}

/// The steps of the paste job for `origin`.
pub fn paste_steps(origin: PasteOrigin) -> (r: Vec<PasteStep>)
    ensures
        r@ == paste_plan(origin),
{
    let mut v = Vec::new();
    v.push(PasteStep::Wait(150));
    match origin {
        PasteOrigin::HistoryEntry => {
            v.push(PasteStep::RestoreFocus);
            v.push(PasteStep::SetClipboard);
        },
        PasteOrigin::Emoji => {
            v.push(PasteStep::SetClipboard);
            v.push(PasteStep::RestoreFocus);
        },
    }
    v.push(PasteStep::Wait(60));
    v.push(PasteStep::SendPasteKeys);
    v.push(PasteStep::Wait(250));
    assert(v@ =~= paste_plan(origin));
    v
}

/// How long to wait after giving focus back.
pub fn wait_after_restore(succeeded: bool) -> (r: u64)
    ensures
        r == if succeeded {
            0
        } else {
            UNSETTLED_FOCUS_WAIT_MS
        },
{
    if succeeded {
        0
    } else {
        UNSETTLED_FOCUS_WAIT_MS
    }
}

/// Ctrl+V is typed exactly once, and only after the content is on the
/// clipboard and focus has been given back.
pub proof fn lemma_paste_comes_last(origin: PasteOrigin)
    ensures
        ({
            let plan = paste_plan(origin);
            exists|k: int|
                0 <= k < plan.len() && plan[k] == PasteStep::SendPasteKeys && (forall|j: int|
                    0 <= j < plan.len() && j != k ==> plan[j] != PasteStep::SendPasteKeys) && (exists|
                    a: int,
                    b: int,
                |
                    0 <= a < k && 0 <= b < k && plan[a] == PasteStep::SetClipboard && plan[b]
                        == PasteStep::RestoreFocus)
        }),
{
    let plan = paste_plan(origin);
    match origin {
        PasteOrigin::HistoryEntry => {
            assert(plan[4] == PasteStep::SendPasteKeys && plan[2] == PasteStep::SetClipboard
                && plan[1] == PasteStep::RestoreFocus);
        },
        PasteOrigin::Emoji => {
            assert(plan[4] == PasteStep::SendPasteKeys && plan[1] == PasteStep::SetClipboard
                && plan[2] == PasteStep::RestoreFocus);
        },
    }
}

} // verus!
