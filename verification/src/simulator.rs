//! Decisions behind keystroke injection and focus restoration: which
//! display server is in use, reading `xdotool` replies, remembering the
//! window to return to, and the events written to a virtual keyboard.
use vstd::prelude::*;
use crate::decimal::{decimal_chars, decimal_digits, parse_i32, parse_i32_spec, parse_u32, parse_u32_spec};
use crate::text::{
    chars_of, copy_range, lowercase_of, same_chars, split_white_space, starts_with, starts_with_spec,
    string_of, to_lowercase, trim, trim_spec, views, words,
};

verus! {

broadcast use vstd::string::group_string_axioms;

// ---------------------------------------------------------------------------
// Session type
// ---------------------------------------------------------------------------

/// Whether an already lowercased session type names Wayland.
pub fn is_wayland_name(lowered: &Vec<char>) -> (r: bool)
    ensures
        r == (lowered@ == "wayland"@),
{
    let wayland = chars_of("wayland");
    same_chars(lowered, &wayland)
}

/// Whether the session runs under X11, given the value of
/// `XDG_SESSION_TYPE` (empty when unset): everything but Wayland, in any
/// letter case, counts as X11.
pub fn is_x11(session_type: &str) -> (r: bool)
    ensures
        r == (lowercase_of(session_type@) != "wayland"@),
{
    let lowered = to_lowercase(&chars_of(session_type));
    !is_wayland_name(&lowered)
}

// ---------------------------------------------------------------------------
// Cursor position
// ---------------------------------------------------------------------------

/// The coordinate that the words `tokens` give for `prefix`: the last word
/// that starts with the prefix decides, as a later word overrides an earlier
/// one; its value is the `i32` numeral after the prefix. `None` when no word
/// starts with the prefix, or when the deciding word's remainder is not a
/// numeral (the coordinate is then unknown, not 0).
pub open spec fn coordinate_in(tokens: Seq<Seq<char>>, prefix: Seq<char>) -> Option<i32>
    decreases tokens.len(),
{
    if tokens.len() == 0 {
        None
    } else if starts_with_spec(tokens.last(), prefix) {
        parse_i32_spec(tokens.last().skip(prefix.len() as int))
    } else {
        coordinate_in(tokens.drop_last(), prefix)
    }
}

/// The cursor position that `xdotool getmouselocation` printed as `output`
/// (words such as `x:812 y:403 screen:0 window:1234`): known only when both
/// an `x:` and a `y:` coordinate can be read.
pub open spec fn mouse_location_spec(output: Seq<char>) -> Option<(i32, i32)> {
    match (coordinate_in(words(output), "x:"@), coordinate_in(words(output), "y:"@)) {
        (Some(x), Some(y)) => Some((x, y)),
        _ => None,
    }
}

/// Reads the cursor position out of what `xdotool getmouselocation` printed.
pub fn parse_mouse_location(output: &str) -> (r: Option<(i32, i32)>)
    ensures
        r == mouse_location_spec(output@),
{
    proof {
        reveal_strlit("x:");
        reveal_strlit("y:");
    }
    let tokens = split_white_space(&chars_of(output));
    let x_prefix = chars_of("x:");
    let y_prefix = chars_of("y:");
    let mut x: Option<i32> = None;
    let mut y: Option<i32> = None;
    let mut i: usize = 0;
    let ghost all = views(tokens@);
    assert(all.take(0) =~= Seq::<Seq<char>>::empty());
    while i < tokens.len()
        invariant
            i <= tokens.len(),
            all == views(tokens@),
            x_prefix@ == "x:"@,
            y_prefix@ == "y:"@,
            "x:"@.len() == 2,
            "y:"@.len() == 2,
            "x:"@[0] == 'x',
            "y:"@[0] == 'y',
            x == coordinate_in(all.take(i as int), "x:"@),
            y == coordinate_in(all.take(i as int), "y:"@),
        decreases tokens.len() - i,
    {
        let token = &tokens[i];
        assert(all[i as int] == token@);
        assert(all.take(i + 1).drop_last() =~= all.take(i as int));
        assert(all.take(i + 1).last() == token@);
        if starts_with(token, &x_prefix) {
            assert(token@.subrange(0, 2)[0] == 'x');
            assert(!starts_with_spec(token@, "y:"@)) by {
                assert(token@.subrange(0, 2)[0] != "y:"@[0]);
            }
            let rest = copy_range(token, 2, token.len());
            assert(rest@ =~= token@.skip(2));
            x = parse_i32(&rest);
        } else if starts_with(token, &y_prefix) {
            let rest = copy_range(token, 2, token.len());
            assert(rest@ =~= token@.skip(2));
            y = parse_i32(&rest);
        }
        i = i + 1;
    }
    assert(all.take(tokens.len() as int) =~= all);
    match (x, y) {
        (Some(a), Some(b)) => Some((a, b)),
        _ => None,
    }
}

/// The cursor position: known only under X11, when
/// `xdotool getmouselocation` could be run (its reply is `reply`) and its
/// reply gives both coordinates.
pub fn get_cursor_position(is_x11: bool, reply: Option<&str>) -> (r: Option<(i32, i32)>)
    ensures
        r == match reply {
            Some(out) => if is_x11 {
                mouse_location_spec(out@)
            } else {
                None
            },
            None => None,
        },
{
    match reply {
        Some(out) => if is_x11 {
            parse_mouse_location(out)
        } else {
            None
        },
        None => None,
    }
}

// ---------------------------------------------------------------------------
// Remembered window
// ---------------------------------------------------------------------------

/// The window id that `xdotool getactivewindow` printed as `output`, if the
/// trimmed reply is a `u32` numeral.
pub fn parse_window_id(output: &str) -> (r: Option<u32>)
    ensures
        r == parse_u32_spec(trim_spec(output@)),
{
    parse_u32(&trim(&chars_of(output)))
}

/// The window remembered after reading the reply of
/// `xdotool getactivewindow`: the id it names, or the one remembered before
/// (`saved`) when the trimmed reply is not a `u32` numeral.
pub open spec fn remembered_after(saved: u32, reply: Seq<char>) -> u32 {
    match parse_u32_spec(trim_spec(reply)) {
        Some(id) => id,
        None => saved,
    }
}

/// The argument for `xdotool windowactivate`: the remembered id in decimal,
/// under X11 and when a window (id other than 0) is remembered.
pub open spec fn restore_target_spec(saved: u32, is_x11: bool) -> Option<Seq<char>> {
    if is_x11 && saved != 0 {
        Some(decimal_digits(saved as nat))
    } else {
        None
    }
}

/// The window that had focus before the clipboard window was shown;
/// 0 means that none is known.
pub struct FocusMemory {
    saved_id: u32,
}

impl FocusMemory {
    /// The remembered window id (0 when none).
    pub closed spec fn saved(&self) -> u32 {
        self.saved_id
    }

    /// Nothing remembered yet.
    pub fn new() -> (r: Self)
        ensures
            r.saved() == 0,
    {
        FocusMemory { saved_id: 0 }
    }

    /// The remembered window id (0 when none).
    pub fn saved_id(&self) -> (r: u32)
        ensures
            r == self.saved(),
    {
        self.saved_id
    }

    /// Takes note of the active window from the reply of
    /// `xdotool getactivewindow`.
    pub fn remember(&mut self, output: &str)
        ensures
            final(self).saved() == remembered_after(old(self).saved(), output@),
    {
        if let Some(id) = parse_window_id(output) {
            self.saved_id = id;
        }
    }

    /// The window id to hand to `xdotool windowactivate`, if any.
    pub fn restore_target(&self, is_x11: bool) -> (r: Option<String>)
        ensures
            match r {
                Some(t) => restore_target_spec(self.saved(), is_x11) == Some(t@),
                None => restore_target_spec(self.saved(), is_x11) is None,
            },
    {
        if is_x11 && self.saved_id != 0 {
            Some(string_of(&decimal_chars(self.saved_id as u64)))
        } else {
            None
        }
    }
}

/// Focus goes back to the window noted last: once the reply naming a
/// non-zero window id has been read, restoring under X11 activates exactly
/// that id, written as the reply wrote it (up to surrounding white space).
pub proof fn lemma_restore_returns_to_remembered(saved: u32, reply: Seq<char>, id: u32)
    requires
        id != 0,
        trim_spec(reply) == decimal_digits(id as nat),
    ensures
        remembered_after(saved, reply) == id,
        restore_target_spec(remembered_after(saved, reply), true) == Some(trim_spec(reply)),
{
    crate::decimal::lemma_u32_decimal_roundtrip(id);
}

/// The result of `xdotool windowactivate`: an error when the command reported
/// failure.
pub fn focus_restore_outcome(succeeded: bool) -> (r: Result<(), String>)
    ensures
        succeeded ==> r is Ok,
        !succeeded ==> (r matches Err(e) && e@ == "Failed to focus window via xdotool"@),
{
    if succeeded {
        Ok(())
    } else {
        Err(string_of(&chars_of("Failed to focus window via xdotool")))
    }
}

// ---------------------------------------------------------------------------
// Paste keystroke
// ---------------------------------------------------------------------------

/// How Ctrl+V is sent to the focused application.
#[derive(PartialEq, Eq, Structural, Clone, Copy, Debug)]
pub enum PasteMethod {
    /// `xdotool key --clearmodifiers ctrl+v` (X11).
    Xdotool,
    /// A short-lived virtual keyboard on `/dev/uinput` (Wayland).
    VirtualKeyboard,
}

/// X11 sessions paste through `xdotool`, all others through a virtual keyboard.
pub fn paste_method(is_x11: bool) -> (r: PasteMethod)
    ensures
        r == if is_x11 {
            PasteMethod::Xdotool
        } else {
            PasteMethod::VirtualKeyboard
        },
{
    if is_x11 {
        PasteMethod::Xdotool
    } else {
        PasteMethod::VirtualKeyboard
    }
}

/// The result of `xdotool key`: an error when the command reported failure.
pub fn keystroke_outcome(succeeded: bool) -> (r: Result<(), String>)
    ensures
        succeeded ==> r is Ok,
        !succeeded ==> (r matches Err(e) && e@ == "xdotool command failed"@),
{
    if succeeded {
        Ok(())
    } else {
        Err(string_of(&chars_of("xdotool command failed")))
    }
}

// ---------------------------------------------------------------------------
// Virtual keyboard
// ---------------------------------------------------------------------------

/// Event type for synchronisation reports.
pub const EV_SYN: u16 = 0;

/// Event type for key presses and releases.
pub const EV_KEY: u16 = 1;

/// Code of the report that closes a batch of events.
pub const SYN_REPORT: u16 = 0;

/// Key code of the left Ctrl key.
pub const KEY_LEFTCTRL: u16 = 29;

/// Key code of the V key.
pub const KEY_V: u16 = 47;

/// One input event: the type, code and value fields of the kernel's
/// `struct input_event`.
#[derive(PartialEq, Eq, Structural, Clone, Copy, Debug)]
pub struct InputEvent {
    pub kind: u16,
    pub code: u16,
    pub value: i32,
}

/// The synchronisation report written after every key event.
pub fn syn_report() -> (r: InputEvent)
    ensures
        r == (InputEvent { kind: EV_SYN, code: SYN_REPORT, value: 0 }),
{
    InputEvent { kind: EV_SYN, code: SYN_REPORT, value: 0 }
}

/// A key event: `value` 1 presses the key, 0 releases it.
pub open spec fn key_event(code: u16, value: i32) -> InputEvent {
    InputEvent { kind: EV_KEY, code, value }
}

/// The key events of one Ctrl+V: press Ctrl, press V, release V, release Ctrl.
pub fn paste_key_strokes() -> (r: Vec<InputEvent>)
    ensures
        r@ == seq![
            key_event(KEY_LEFTCTRL, 1),
            key_event(KEY_V, 1),
            key_event(KEY_V, 0),
            key_event(KEY_LEFTCTRL, 0),
        ],
{
    let mut v = Vec::new();
    v.push(InputEvent { kind: EV_KEY, code: KEY_LEFTCTRL, value: 1 });
    v.push(InputEvent { kind: EV_KEY, code: KEY_V, value: 1 });
    v.push(InputEvent { kind: EV_KEY, code: KEY_V, value: 0 });
    v.push(InputEvent { kind: EV_KEY, code: KEY_LEFTCTRL, value: 0 });
    assert(v@ =~= seq![
        key_event(KEY_LEFTCTRL, 1),
        key_event(KEY_V, 1),
        key_event(KEY_V, 0),
        key_event(KEY_LEFTCTRL, 0),
    ]);
    v
}

/// The bytes of `x` in the given byte order.
pub open spec fn u16_bytes(x: u16, little_endian: bool) -> Seq<u8> {
    let lo = (x % 256) as u8;
    let hi = (x / 256) as u8;
    if little_endian {
        seq![lo, hi]
    } else {
        seq![hi, lo]
    }
}

/// The bytes of `x` in the given byte order.
pub open spec fn u32_bytes(x: u32, little_endian: bool) -> Seq<u8> {
    let b0 = (x % 256) as u8;
    let b1 = ((x / 256) % 256) as u8;
    let b2 = ((x / 65536) % 256) as u8;
    let b3 = (x / 16777216) as u8;
    if little_endian {
        seq![b0, b1, b2, b3]
    } else {
        seq![b3, b2, b1, b0]
    }
}

/// The 24 bytes of `struct input_event` for `e` on a 64-bit machine with the
/// given byte order: a zero timestamp (16 bytes), then type, code and value.
pub open spec fn event_bytes(e: InputEvent, little_endian: bool) -> Seq<u8> {
    Seq::new(16, |i: int| 0u8) + u16_bytes(e.kind, little_endian) + u16_bytes(
        e.code,
        little_endian,
    ) + u32_bytes(e.value as u32, little_endian)
}

fn push_u16(out: &mut Vec<u8>, x: u16, little_endian: bool)
    ensures
        final(out)@ == old(out)@ + u16_bytes(x, little_endian),
{
    let lo = (x % 256) as u8;
    let hi = (x / 256) as u8;
    if little_endian {
        out.push(lo);
        out.push(hi);
    } else {
        out.push(hi);
        out.push(lo);
    }
    assert(final(out)@ =~= old(out)@ + u16_bytes(x, little_endian));
}

fn push_u32(out: &mut Vec<u8>, x: u32, little_endian: bool)
    ensures
        final(out)@ == old(out)@ + u32_bytes(x, little_endian),
{
    let b0 = (x % 256) as u8;
    let b1 = ((x / 256) % 256) as u8;
    let b2 = ((x / 65536) % 256) as u8;
    let b3 = (x / 16777216) as u8;
    if little_endian {
        out.push(b0);
        out.push(b1);
        out.push(b2);
        out.push(b3);
    } else {
        out.push(b3);
        out.push(b2);
        out.push(b1);
        out.push(b0);
    }
    assert(final(out)@ =~= old(out)@ + u32_bytes(x, little_endian));
}

/// The bytes written to the virtual keyboard for `e`.
pub fn encode_event(e: InputEvent, little_endian: bool) -> (r: Vec<u8>)
    ensures
        r@ == event_bytes(e, little_endian),
        r@.len() == 24,
{
    let mut out: Vec<u8> = Vec::new();
    let mut i: usize = 0;
    while i < 16
        invariant
            i <= 16,
            out@ == Seq::new(i as nat, |k: int| 0u8),
        decreases 16 - i,
    {
        out.push(0u8);
        i = i + 1;
        assert(out@ =~= Seq::new(i as nat, |k: int| 0u8));
    }
    push_u16(&mut out, e.kind, little_endian);
    push_u16(&mut out, e.code, little_endian);
    push_u32(&mut out, e.value as u32, little_endian);
    assert(out@ =~= event_bytes(e, little_endian));
    out
}

/// The name the virtual keyboard registers under.
pub open spec fn keyboard_name() -> Seq<char> {
    "emoji-paste-helper"@
}

/// The 80-byte, zero-padded name field of `struct uinput_setup`.
pub open spec fn keyboard_name_field() -> Seq<u8> {
    Seq::new(80, |i: int| if i < keyboard_name().len() { keyboard_name()[i] as u8 } else { 0u8 })
}

/// The name field of the virtual keyboard's `struct uinput_setup`.
pub fn keyboard_name_bytes() -> (r: Vec<u8>)
    ensures
        r@ == keyboard_name_field(),
{
    proof {
        reveal_strlit("emoji-paste-helper");
    }
    let name = chars_of("emoji-paste-helper");
    let mut out: Vec<u8> = Vec::new();
    let mut i: usize = 0;
    while i < 80
        invariant
            i <= 80,
            name@ == keyboard_name(),
            name@.len() == 18,
            out@ =~= keyboard_name_field().take(i as int),
        decreases 80 - i,
    {
        if i < name.len() {
            out.push(name[i] as u8);
        } else {
            out.push(0u8);
        }
        i = i + 1;
    }
    assert(keyboard_name_field().take(80) =~= keyboard_name_field());
    out
}

/// The bus type, vendor, product and version ids of the virtual keyboard
/// (a USB device).
pub fn keyboard_ids() -> (r: [u16; 4])
    ensures
        r@ == seq![0x03u16, 0x1234u16, 0x5678u16, 0x0001u16],
{
    let r = [0x03u16, 0x1234u16, 0x5678u16, 0x0001u16];
    assert(r@ =~= seq![0x03u16, 0x1234u16, 0x5678u16, 0x0001u16]);
    r
}

/// The `ioctl` calls that make `/dev/uinput` a keyboard able to type Ctrl+V.
#[derive(PartialEq, Eq, Structural, Clone, Copy, Debug)]
pub enum DeviceStep {
    /// Allow key events (`UI_SET_EVBIT` with `EV_KEY`).
    EnableKeyEvents,
    /// Allow the left Ctrl key (`UI_SET_KEYBIT`).
    EnableLeftCtrl,
    /// Allow the V key (`UI_SET_KEYBIT`).
    EnableV,
    /// Describe the device (`UI_DEV_SETUP` with a `struct uinput_setup`).
    Describe,
    /// Create it (`UI_DEV_CREATE`).
    Create,
}

/// The set-up calls, in the order they are made.
pub fn device_steps() -> (r: Vec<DeviceStep>)
    ensures
        r@ == seq![
            DeviceStep::EnableKeyEvents,
            DeviceStep::EnableLeftCtrl,
            DeviceStep::EnableV,
            DeviceStep::Describe,
            DeviceStep::Create,
        ],
{
    let mut v = Vec::new();
    v.push(DeviceStep::EnableKeyEvents);
    v.push(DeviceStep::EnableLeftCtrl);
    v.push(DeviceStep::EnableV);
    v.push(DeviceStep::Describe);
    v.push(DeviceStep::Create);
    assert(v@ =~= seq![
        DeviceStep::EnableKeyEvents,
        DeviceStep::EnableLeftCtrl,
        DeviceStep::EnableV,
        DeviceStep::Describe,
        DeviceStep::Create,
    ]);
    v
}

/// The error reported when a set-up step fails.
pub open spec fn failure_text(step: DeviceStep) -> Seq<char> {
    match step {
        DeviceStep::EnableKeyEvents => "Failed to set EV_KEY"@,
        DeviceStep::EnableLeftCtrl => "Failed to set KEY_LEFTCTRL"@,
        DeviceStep::EnableV => "Failed to set KEY_V"@,
        DeviceStep::Describe => "Failed to setup uinput device"@,
        DeviceStep::Create => "Failed to create uinput device"@,
    }
}

/// `UI_DEV_DESTROY`, which removes the virtual keyboard again.
pub const UI_DEV_DESTROY: u64 = 0x5502;

impl DeviceStep {
    /// The `ioctl` request number of the step.
    pub fn request(&self) -> (r: u64)
        ensures
            r == match *self {
                DeviceStep::EnableKeyEvents => 0x40045564u64,
                DeviceStep::EnableLeftCtrl | DeviceStep::EnableV => 0x40045565u64,
                DeviceStep::Describe => 0x405c5503u64,
                DeviceStep::Create => 0x5501u64,
            },
    {
        match self {
            DeviceStep::EnableKeyEvents => 0x40045564,
            DeviceStep::EnableLeftCtrl | DeviceStep::EnableV => 0x40045565,
            DeviceStep::Describe => 0x405c5503,
            DeviceStep::Create => 0x5501,
        }
    }

    /// The integer argument of the step, for the steps that take one.
    pub fn int_argument(&self) -> (r: Option<i32>)
        ensures
            r == match *self {
                DeviceStep::EnableKeyEvents => Some(EV_KEY as i32),
                DeviceStep::EnableLeftCtrl => Some(KEY_LEFTCTRL as i32),
                DeviceStep::EnableV => Some(KEY_V as i32),
                _ => None,
            },
    {
        match self {
            DeviceStep::EnableKeyEvents => Some(EV_KEY as i32),
            DeviceStep::EnableLeftCtrl => Some(KEY_LEFTCTRL as i32),
            DeviceStep::EnableV => Some(KEY_V as i32),
            _ => None,
        }
    }

    /// The error reported when the step fails.
    pub fn failure_message(&self) -> (r: String)
        ensures
            r@ == failure_text(*self),
    {
        let text = match self {
            DeviceStep::EnableKeyEvents => "Failed to set EV_KEY",
            DeviceStep::EnableLeftCtrl => "Failed to set KEY_LEFTCTRL",
            DeviceStep::EnableV => "Failed to set KEY_V",
            DeviceStep::Describe => "Failed to setup uinput device",
            DeviceStep::Create => "Failed to create uinput device",
        };
        string_of(&chars_of(text))
    }
}

/// The synchronisation report, as a value.
pub open spec fn syn_event() -> InputEvent {
    InputEvent { kind: EV_SYN, code: SYN_REPORT, value: 0 }
}

/// The events written for one Ctrl+V: press Ctrl, press V, release V,
/// release Ctrl, each followed by a synchronisation report.
pub open spec fn paste_events_spec() -> Seq<InputEvent> {
    seq![
        key_event(KEY_LEFTCTRL, 1),
        syn_event(),
        key_event(KEY_V, 1),
        syn_event(),
        key_event(KEY_V, 0),
        syn_event(),
        key_event(KEY_LEFTCTRL, 0),
        syn_event(),
    ]
}

/// The events written for one Ctrl+V, in order.
pub fn paste_event_sequence() -> (r: Vec<InputEvent>)
    ensures
        r@ == paste_events_spec(),
{
    let strokes = paste_key_strokes();
    let mut out: Vec<InputEvent> = Vec::new();
    let mut i: usize = 0;
    while i < strokes.len()
        invariant
            i <= strokes.len(),
            strokes@ == seq![
                key_event(KEY_LEFTCTRL, 1),
                key_event(KEY_V, 1),
                key_event(KEY_V, 0),
                key_event(KEY_LEFTCTRL, 0),
            ],
            out@ == paste_events_spec().take(2 * i),
        decreases strokes.len() - i,
    {
        out.push(strokes[i]);
        out.push(syn_report());
        assert(paste_events_spec().take(2 * i + 2) =~= paste_events_spec().take(2 * i)
            + seq![strokes@[i as int], syn_event()]);
        i = i + 1;
    }
    assert(paste_events_spec().take(8) =~= paste_events_spec());
    out
}

/// Pause after creating the virtual keyboard and after each key event, in
/// milliseconds, so that the system picks the events up.
pub const UINPUT_PAUSE_MS: u64 = 50;

/// One thing done with `/dev/uinput` while typing Ctrl+V.
#[derive(PartialEq, Eq, Structural, Clone, Copy, Debug)]
pub enum UinputAction {
    /// A set-up `ioctl`.
    Setup(DeviceStep),
    /// Wait this many milliseconds.
    Pause(u64),
    /// Write one event.
    Write(InputEvent),
    /// Flush what was written.
    Flush,
    /// Remove the virtual keyboard (`UI_DEV_DESTROY`); its result is not
    /// looked at.
    Destroy,
}

/// Everything done with `/dev/uinput` once it is open, in order: the five
/// set-up calls, a pause, then for each key event of Ctrl+V the event, a
/// synchronisation report, a flush and a pause, and finally the removal of
/// the device.
pub open spec fn uinput_script_spec() -> Seq<UinputAction> {
    seq![
        UinputAction::Setup(DeviceStep::EnableKeyEvents),
        UinputAction::Setup(DeviceStep::EnableLeftCtrl),
        UinputAction::Setup(DeviceStep::EnableV),
        UinputAction::Setup(DeviceStep::Describe),
        UinputAction::Setup(DeviceStep::Create),
        UinputAction::Pause(UINPUT_PAUSE_MS),
        UinputAction::Write(key_event(KEY_LEFTCTRL, 1)),
        UinputAction::Write(syn_event()),
        UinputAction::Flush,
        UinputAction::Pause(UINPUT_PAUSE_MS),
        UinputAction::Write(key_event(KEY_V, 1)),
        UinputAction::Write(syn_event()),
        UinputAction::Flush,
        UinputAction::Pause(UINPUT_PAUSE_MS),
        UinputAction::Write(key_event(KEY_V, 0)),
        UinputAction::Write(syn_event()),
        UinputAction::Flush,
        UinputAction::Pause(UINPUT_PAUSE_MS),
        UinputAction::Write(key_event(KEY_LEFTCTRL, 0)),
        UinputAction::Write(syn_event()),
        UinputAction::Flush,
        UinputAction::Pause(UINPUT_PAUSE_MS),
        UinputAction::Destroy,
    ]
}

fn push_keystroke(script: &mut Vec<UinputAction>, key: InputEvent)
    ensures
        final(script)@ == old(script)@ + seq![
            UinputAction::Write(key),
            UinputAction::Write(syn_event()),
            UinputAction::Flush,
            UinputAction::Pause(UINPUT_PAUSE_MS),
        ],
{
    script.push(UinputAction::Write(key));
    script.push(UinputAction::Write(syn_report()));
    script.push(UinputAction::Flush);
    script.push(UinputAction::Pause(UINPUT_PAUSE_MS));
    assert(final(script)@ =~= old(script)@ + seq![
        UinputAction::Write(key),
        UinputAction::Write(syn_event()),
        UinputAction::Flush,
        UinputAction::Pause(UINPUT_PAUSE_MS),
    ]);
}

/// Everything done with `/dev/uinput` once it is open (see
/// `uinput_script_spec`).
pub fn uinput_script() -> (r: Vec<UinputAction>)
    ensures
        r@ == uinput_script_spec(),
{
    let mut script: Vec<UinputAction> = Vec::new();
    script.push(UinputAction::Setup(DeviceStep::EnableKeyEvents));
    script.push(UinputAction::Setup(DeviceStep::EnableLeftCtrl));
    script.push(UinputAction::Setup(DeviceStep::EnableV));
    script.push(UinputAction::Setup(DeviceStep::Describe));
    script.push(UinputAction::Setup(DeviceStep::Create));
    script.push(UinputAction::Pause(UINPUT_PAUSE_MS));
    push_keystroke(&mut script, InputEvent { kind: EV_KEY, code: KEY_LEFTCTRL, value: 1 });
    push_keystroke(&mut script, InputEvent { kind: EV_KEY, code: KEY_V, value: 1 });
    push_keystroke(&mut script, InputEvent { kind: EV_KEY, code: KEY_V, value: 0 });
    push_keystroke(&mut script, InputEvent { kind: EV_KEY, code: KEY_LEFTCTRL, value: 0 });
    script.push(UinputAction::Destroy);
    assert(script@ =~= uinput_script_spec());
    script
}

/// An outcome with its error text as characters.
pub open spec fn outcome_view(outcome: Result<(), String>) -> Result<(), Seq<char>> {
    match outcome {
        Ok(_) => Ok(()),
        Err(e) => Err(e@),
    }
}

/// An optional final result with its error text as characters.
pub open spec fn end_view(end: Option<Result<(), String>>) -> Option<Result<(), Seq<char>>> {
    match end {
        Some(r) => Some(outcome_view(r)),
        None => None,
    }
}

/// What follows an action of the script, given its outcome: `None` to go
/// on with the next action, or the result of typing Ctrl+V. A failed set-up
/// call ends it with that call's message; a failed write or flush ends it
/// with the error's text; pauses always go on; removing the device ends it
/// successfully.
pub open spec fn uinput_outcome(action: UinputAction, outcome: Result<(), Seq<char>>) -> Option<
    Result<(), Seq<char>>,
> {
    match action {
        UinputAction::Setup(step) => match outcome {
            Ok(_) => None,
            Err(_) => Some(Err(failure_text(step))),
        },
        UinputAction::Pause(_) => None,
        UinputAction::Write(_) | UinputAction::Flush => match outcome {
            Ok(_) => None,
            Err(e) => Some(Err(e)),
        },
        UinputAction::Destroy => Some(Ok(())),
    }
}

/// What follows an action of the script, given its outcome (see
/// `uinput_outcome`).
pub fn uinput_step(action: UinputAction, outcome: Result<(), String>) -> (r: Option<Result<(), String>>)
    ensures
        end_view(r) == uinput_outcome(action, outcome_view(outcome)),
{
    match action {
        UinputAction::Setup(step) => match outcome {
            Ok(_) => None,
            Err(_) => Some(Err(step.failure_message())),
        },
        UinputAction::Pause(_) => None,
        UinputAction::Write(_) | UinputAction::Flush => match outcome {
            Ok(_) => None,
            Err(e) => Some(Err(e)),
        },
        UinputAction::Destroy => Some(Ok(())),
    }
}

/// Where a run of the script that has reached action `i` ends, and with
/// what result, when action `j` has the outcome `outcomes[j]`.
pub open spec fn uinput_run_from(outcomes: Seq<Result<(), Seq<char>>>, i: nat) -> (int, Result<(), Seq<char>>)
    decreases uinput_script_spec().len() - i,
{
    if i >= uinput_script_spec().len() {
        (i as int, Ok(()))
    } else {
        match uinput_outcome(uinput_script_spec()[i as int], outcomes[i as int]) {
            Some(r) => (i as int, r),
            None => uinput_run_from(outcomes, i + 1),
        }
    }
}

/// The events written by a stretch of the script, in order.
pub open spec fn writes_of(actions: Seq<UinputAction>) -> Seq<InputEvent>
    decreases actions.len(),
{
    if actions.len() == 0 {
        seq![]
    } else {
        writes_of(actions.drop_last()) + match actions.last() {
            UinputAction::Write(e) => seq![e],
            _ => seq![],
        }
    }
}

proof fn lemma_run_goes_on(outcomes: Seq<Result<(), Seq<char>>>, i: nat, k: nat)
    requires
        i <= k <= uinput_script_spec().len(),
        forall|j: int|
            i <= j < k ==> uinput_outcome(uinput_script_spec()[j], #[trigger] outcomes[j]) is None,
    ensures
        uinput_run_from(outcomes, i) == uinput_run_from(outcomes, k),
    decreases k - i,
{
    if i < k {
        assert(uinput_outcome(uinput_script_spec()[i as int], outcomes[i as int]) is None);
        lemma_run_goes_on(outcomes, i + 1, k);
    }
}

/// The run stops at the first action whose outcome ends it, with the
/// result that action gives; nothing after it is done.
pub proof fn lemma_run_stops_at_first_end(outcomes: Seq<Result<(), Seq<char>>>, k: nat)
    requires
        k < uinput_script_spec().len(),
        forall|j: int|
            0 <= j < k ==> uinput_outcome(uinput_script_spec()[j], #[trigger] outcomes[j]) is None,
        uinput_outcome(uinput_script_spec()[k as int], outcomes[k as int]) is Some,
    ensures
        uinput_run_from(outcomes, 0) == (k as int, uinput_outcome(
            uinput_script_spec()[k as int],
            outcomes[k as int],
        ).unwrap()),
{
    lemma_run_goes_on(outcomes, 0, k);
}

/// When every call, write and flush succeeds, typing Ctrl+V succeeds: the
/// run ends with the removal of the device, and the events written are
/// exactly press Ctrl, press V, release V, release Ctrl, each followed by a
/// synchronisation report.
pub proof fn lemma_uinput_success(outcomes: Seq<Result<(), Seq<char>>>)
    requires
        outcomes.len() == uinput_script_spec().len(),
        forall|j: int| 0 <= j < outcomes.len() ==> (#[trigger] outcomes[j]) is Ok,
    ensures
        uinput_run_from(outcomes, 0) == (22int, Ok::<(), Seq<char>>(())),
        uinput_script_spec()[22] == UinputAction::Destroy,
        writes_of(uinput_script_spec()) == paste_events_spec(),
{
    let script = uinput_script_spec();
    assert forall|j: int| 0 <= j < 22 implies uinput_outcome(script[j], #[trigger] outcomes[j]) is None by {
        assert(outcomes[j] is Ok);
    }
    lemma_run_stops_at_first_end(outcomes, 22);
    lemma_script_writes();
}

proof fn lemma_writes_concat(a: Seq<UinputAction>, b: Seq<UinputAction>)
    ensures
        writes_of(a + b) == writes_of(a) + writes_of(b),
    decreases b.len(),
{
    if b.len() == 0 {
        assert(a + b =~= a);
        assert(writes_of(a) + writes_of(b) =~= writes_of(a));
    } else {
        assert((a + b).drop_last() =~= a + b.drop_last());
        assert((a + b).last() == b.last());
        lemma_writes_concat(a, b.drop_last());
        assert(writes_of(a + b) =~= writes_of(a) + writes_of(b));
    }
}

proof fn lemma_no_writes(a: Seq<UinputAction>)
    requires
        forall|j: int| 0 <= j < a.len() ==> !((#[trigger] a[j]) is Write),
    ensures
        writes_of(a) == Seq::<InputEvent>::empty(),
    decreases a.len(),
{
    if a.len() > 0 {
        assert(a.last() == a[a.len() - 1]);
        lemma_no_writes(a.drop_last());
        assert(writes_of(a) =~= Seq::<InputEvent>::empty());
    }
}

proof fn lemma_keystroke_writes(e: InputEvent)
    ensures
        writes_of(
            seq![
                UinputAction::Write(e),
                UinputAction::Write(syn_event()),
                UinputAction::Flush,
                UinputAction::Pause(UINPUT_PAUSE_MS),
            ],
        ) == seq![e, syn_event()],
{
    let w2 = seq![UinputAction::Write(e), UinputAction::Write(syn_event())];
    let rest = seq![UinputAction::Flush, UinputAction::Pause(UINPUT_PAUSE_MS)];
    assert(w2.drop_last() =~= seq![UinputAction::Write(e)]);
    assert(seq![UinputAction::Write(e)].drop_last() =~= Seq::<UinputAction>::empty());
    assert(writes_of(Seq::<UinputAction>::empty()) == Seq::<InputEvent>::empty());
    assert(writes_of(seq![UinputAction::Write(e)]) =~= seq![e]);
    assert(writes_of(w2) =~= seq![e, syn_event()]);
    lemma_no_writes(rest);
    lemma_writes_concat(w2, rest);
    assert(w2 + rest =~= seq![
        UinputAction::Write(e),
        UinputAction::Write(syn_event()),
        UinputAction::Flush,
        UinputAction::Pause(UINPUT_PAUSE_MS),
    ]);
    assert(seq![e, syn_event()] + Seq::<InputEvent>::empty() =~= seq![e, syn_event()]);
}

/// The keystroke part of the script for one key event.
spec fn keystroke_actions(e: InputEvent) -> Seq<UinputAction> {
    seq![
        UinputAction::Write(e),
        UinputAction::Write(syn_event()),
        UinputAction::Flush,
        UinputAction::Pause(UINPUT_PAUSE_MS),
    ]
}

proof fn lemma_script_writes()
    ensures
        writes_of(uinput_script_spec()) == paste_events_spec(),
{
    let setup = uinput_script_spec().take(6);
    let k1 = keystroke_actions(key_event(KEY_LEFTCTRL, 1));
    let k2 = keystroke_actions(key_event(KEY_V, 1));
    let k3 = keystroke_actions(key_event(KEY_V, 0));
    let k4 = keystroke_actions(key_event(KEY_LEFTCTRL, 0));
    let end = seq![UinputAction::Destroy];
    assert(uinput_script_spec() =~= setup + k1 + k2 + k3 + k4 + end);
    lemma_no_writes(setup);
    lemma_no_writes(end);
    lemma_keystroke_writes(key_event(KEY_LEFTCTRL, 1));
    lemma_keystroke_writes(key_event(KEY_V, 1));
    lemma_keystroke_writes(key_event(KEY_V, 0));
    lemma_keystroke_writes(key_event(KEY_LEFTCTRL, 0));
    lemma_writes_concat(setup, k1);
    lemma_writes_concat(setup + k1, k2);
    lemma_writes_concat(setup + k1 + k2, k3);
    lemma_writes_concat(setup + k1 + k2 + k3, k4);
    lemma_writes_concat(setup + k1 + k2 + k3 + k4, end);
    assert(writes_of(uinput_script_spec()) =~= paste_events_spec());
}

/// When set-up call `k` (0 to 4) is the first to fail, typing Ctrl+V fails
/// with that call's message, no later action is taken and no event is
/// written.
pub proof fn lemma_uinput_setup_failure(outcomes: Seq<Result<(), Seq<char>>>, k: nat)
    requires
        k < 5,
        outcomes.len() == uinput_script_spec().len(),
        forall|j: int| 0 <= j < k ==> (#[trigger] outcomes[j]) is Ok,
        outcomes[k as int] is Err,
    ensures
        uinput_script_spec()[k as int] matches UinputAction::Setup(step) && uinput_run_from(outcomes, 0)
            == (k as int, Err::<(), Seq<char>>(failure_text(step))),
        writes_of(uinput_script_spec().take(k + 1int)) == Seq::<InputEvent>::empty(),
{
    let script = uinput_script_spec();
    assert forall|j: int| 0 <= j < k implies uinput_outcome(script[j], #[trigger] outcomes[j]) is None by {
        assert(outcomes[j] is Ok);
    }
    lemma_run_stops_at_first_end(outcomes, k);
    lemma_no_writes(script.take(k + 1int));
}

/// Prepares the input simulator. Nothing has to be set up ahead of time:
/// the virtual keyboard is created on demand, so this always succeeds.
pub fn init_simulator() -> (r: Result<(), String>)
    ensures
        r is Ok,
{
    Ok(())
}

} // verus!
