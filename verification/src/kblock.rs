//! The interception policy and the synthetic input injector.
//!
//! The policy decides, for every keystroke the hook reports, whether the
//! key is suppressed (consumed before reaching the focused application) or
//! passed on to the next hook, and builds the window message that mirrors
//! the keystroke to the picker's own window. The injector turns a string
//! into the ordered list of Unicode key-down/key-up events that the shell
//! submits to the system input queue in one batch; every such event carries
//! the injection tag, which is what lets the policy recognize the program's
//! own keystrokes and never capture them.

use vstd::prelude::*;
use vstd::string::StrSliceExecFns;
use crate::keyboard::KeyboardLL;
use crate::keyboard::LLKHF_ALTDOWN;
use crate::keyboard::LLKHF_EXTENDED;
use crate::keyboard::LLKHF_UP;

verus! {

/// Sentinel placed in the "extra info" field of every synthesized event,
/// so the policy can tell the program's own keystrokes from real input.
pub const KEY_IGNORE_EXINFO: usize = 0xCB677E80;

pub const VK_SHIFT: u16 = 0x10;

pub const VK_CONTROL: u16 = 0x11;

pub const VK_MENU: u16 = 0x12;

pub const VK_CAPITAL: u16 = 0x14;

pub const VK_ESCAPE: u16 = 0x1B;

pub const VK_LWIN: u16 = 0x5B;

pub const VK_RWIN: u16 = 0x5C;

pub const VK_LSHIFT: u16 = 0xA0;

pub const VK_RSHIFT: u16 = 0xA1;

pub const VK_LCONTROL: u16 = 0xA2;

pub const VK_RCONTROL: u16 = 0xA3;

pub const VK_LMENU: u16 = 0xA4;

pub const VK_RMENU: u16 = 0xA5;

/// Key-down window message code.
pub const WM_KEYDOWN: u32 = 0x0100;

/// Key-up window message code.
pub const WM_KEYUP: u32 = 0x0101;

/// Whether a virtual key is one of the modifier keys the policy never
/// suppresses: shift, control, alt and the logo keys on both sides, and
/// caps lock. Suppressing any of these would corrupt every other
/// application's modifier tracking.
pub open spec fn is_modifier_vk(vk: u16) -> bool {
    ||| vk == VK_SHIFT
    ||| vk == VK_LSHIFT
    ||| vk == VK_RSHIFT
    ||| vk == VK_CONTROL
    ||| vk == VK_LCONTROL
    ||| vk == VK_RCONTROL
    ||| vk == VK_MENU
    ||| vk == VK_LMENU
    ||| vk == VK_RMENU
    ||| vk == VK_LWIN
    ||| vk == VK_RWIN
    ||| vk == VK_CAPITAL
}

/// The suppression rule. Modifier keys always pass through; escape is
/// always suppressed; every other key is suppressed exactly when no logo
/// key is held and the event does not carry the injection tag (the
/// loop-breaker: without the tag test the injector's own events would be
/// swallowed by this same policy).
pub open spec fn spec_suppresses(vk: u16, tagged: bool, win_key_down: bool) -> bool {
    if is_modifier_vk(vk) {
        false
    } else if vk == VK_ESCAPE {
        true
    } else {
        !win_key_down && !tagged
    }
}

/// What the hook callback answers the operating system.
#[derive(Clone, Copy, PartialEq, Eq, Structural, Debug)]
pub enum HookDecision {
    /// Consume the event; it reaches neither the next hook nor the focused
    /// application.
    Suppress,
    /// Hand the event to the next hook in the chain.
    PassThrough,
}

/// A window message mirroring one keystroke, sent to the picker's window
/// procedure directly.
#[derive(Clone, Copy, PartialEq, Eq, Structural, Debug)]
pub struct ForwardMessage {
    pub message: u32,
    pub wparam: usize,
    pub lparam: u32,
}

/// Everything one callback invocation decided.
#[derive(Clone, Copy, PartialEq, Eq, Debug)]
pub struct KeyOutcome {
    /// The message to forward to the picker's window, when that window was
    /// found. Forwarding is best-effort: `None` skips it and nothing else
    /// changes.
    pub forward: Option<ForwardMessage>,
    /// Suppress the keystroke or pass it on.
    pub decision: HookDecision,
    /// Whether this keystroke asks the application to quit.
    pub quit: bool,
}

/// The keystroke message's packed flags word: repeat count zero, the scan
/// code in bits 16 to 23, then the extended, context (alt-down), previous
/// state and transition bits where the message format keeps them.
pub open spec fn spec_forward_lparam(ev: KeyboardLL) -> u32 {
    let scan_part = ev.scan << 16;
    let ext_part: u32 = if ev.flags & LLKHF_EXTENDED != 0 {
        1u32 << 24
    } else {
        0u32
    };
    let ctx_part: u32 = if ev.flags & LLKHF_ALTDOWN != 0 {
        1u32 << 29
    } else {
        0u32
    };
    let prev_part: u32 = if ev.flags & LLKHF_UP != 0 {
        1u32 << 30
    } else {
        0u32
    };
    let trans_part: u32 = if ev.flags & LLKHF_UP != 0 {
        1u32 << 31
    } else {
        0u32
    };
    trans_part | prev_part | ctx_part | ext_part | scan_part
}

/// The window message mirroring a keystroke: key-up events become key-up
/// messages, everything else a key-down message; the virtual key rides in
/// `wparam` and the packed flags in `lparam`.
pub open spec fn spec_forward_message(ev: KeyboardLL) -> ForwardMessage {
    ForwardMessage {
        message: if ev.flags & LLKHF_UP != 0 {
            WM_KEYUP
        } else {
            WM_KEYDOWN
        },
        wparam: ev.vk as usize,
        lparam: spec_forward_lparam(ev),
    }
}

/// Whether a virtual key is a modifier the policy never suppresses.
pub fn is_modifier_key(vk: u16) -> (b: bool)
    ensures
        b == is_modifier_vk(vk),
{
    vk == VK_SHIFT || vk == VK_LSHIFT || vk == VK_RSHIFT || vk == VK_CONTROL || vk == VK_LCONTROL
        || vk == VK_RCONTROL || vk == VK_MENU || vk == VK_LMENU || vk == VK_RMENU || vk == VK_LWIN
        || vk == VK_RWIN || vk == VK_CAPITAL
}

/// Build the window message that mirrors one keystroke.
pub fn build_forward_message(ev: &KeyboardLL) -> (m: ForwardMessage)
    ensures
        m == spec_forward_message(*ev),
{
    let scan_part: u32 = ev.scan_code() << 16;
    let ext_part: u32 = if ev.extended() {
        1u32 << 24
    } else {
        0u32
    };
    let ctx_part: u32 = if ev.altdown() {
        1u32 << 29
    } else {
        0u32
    };
    let up = ev.up();
    let prev_part: u32 = if up {
        1u32 << 30
    } else {
        0u32
    };
    let trans_part: u32 = if up {
        1u32 << 31
    } else {
        0u32
    };
    let message: u32 = if up {
        WM_KEYUP
    } else {
        WM_KEYDOWN
    };
    ForwardMessage {
        message,
        wparam: ev.vk_code() as usize,
        lparam: trans_part | prev_part | ctx_part | ext_part | scan_part,
    }
}

/// Evaluate one keystroke: build the mirrored message when the picker's
/// window was found (`target_found`), decide suppression from the key, the
/// injection tag and the logo-key state, and raise the quit signal on
/// escape. The suppression decision does not depend on whether the window
/// was found.
pub fn evaluate_key(ev: &KeyboardLL, win_key_down: bool, target_found: bool) -> (o: KeyOutcome)
    ensures
        target_found ==> o.forward == Some(spec_forward_message(*ev)),
        !target_found ==> o.forward is None,
        o.decision == (if spec_suppresses(
            ev.vk,
            ev.extra == KEY_IGNORE_EXINFO,
            win_key_down,
        ) {
            HookDecision::Suppress
        } else {
            HookDecision::PassThrough
        }),
        o.quit == (ev.vk == VK_ESCAPE),
{
    let forward: Option<ForwardMessage> = if target_found {
        Some(build_forward_message(ev))
    } else {
        None
    };
    let vk = ev.vk_code();
    let tagged = ev.extra_info() == KEY_IGNORE_EXINFO;
    let quit = vk == VK_ESCAPE;
    let suppress: bool = if is_modifier_key(vk) {
        false
    } else if vk == VK_ESCAPE {
        true
    } else {
        !win_key_down && !tagged
    };
    KeyOutcome {
        forward,
        decision: if suppress {
            HookDecision::Suppress
        } else {
            HookDecision::PassThrough
        },
        quit,
    }
}

/// Law: a keystroke carrying the injection tag always passes through,
/// whatever the virtual key (escape aside, which the policy suppresses
/// unconditionally) and whatever the logo-key state.
pub proof fn lemma_tagged_passes_through(vk: u16, win_key_down: bool)
    requires
        vk != VK_ESCAPE,
    ensures
        !spec_suppresses(vk, true, win_key_down),
{
}

/// Law: a modifier key always passes through, whatever the tag and the
/// logo-key state.
pub proof fn lemma_modifiers_pass_through(vk: u16, tagged: bool, win_key_down: bool)
    requires
        is_modifier_vk(vk),
    ensures
        !spec_suppresses(vk, tagged, win_key_down),
{
}

/// Law: escape is suppressed whatever the tag and the logo-key state.
pub proof fn lemma_escape_suppressed(tagged: bool, win_key_down: bool)
    ensures
        spec_suppresses(VK_ESCAPE, tagged, win_key_down),
{
}

// ---------------------------------------------------------------------
// Synthetic input injection.
// ---------------------------------------------------------------------

/// Flag marking a synthesized key-release event.
pub const KEYEVENTF_KEYUP: u32 = 0x0002;

/// Flag marking a Unicode-mode synthesized event: the code unit rides in
/// the scan field and the virtual key is zero.
pub const KEYEVENTF_UNICODE: u32 = 0x0004;

/// One synthesized keyboard event, as the system input queue takes it.
#[derive(Clone, Copy, PartialEq, Eq, Structural, Debug)]
pub struct KeyboardInput {
    pub vk: u16,
    pub scan: u16,
    pub flags: u32,
    pub time: u32,
    pub extra_info: usize,
}

/// The tagged Unicode key-down event for one UTF-16 code unit.
pub open spec fn spec_key_down(unit: u16) -> KeyboardInput {
    KeyboardInput {
        vk: 0,
        scan: unit,
        flags: KEYEVENTF_UNICODE,
        time: 0,
        extra_info: KEY_IGNORE_EXINFO,
    }
}

/// The tagged Unicode key-up event for one UTF-16 code unit.
pub open spec fn spec_key_up(unit: u16) -> KeyboardInput {
    KeyboardInput {
        vk: 0,
        scan: unit,
        flags: KEYEVENTF_UNICODE | KEYEVENTF_KEYUP,
        time: 0,
        extra_info: KEY_IGNORE_EXINFO,
    }
}

/// UTF-16 encoding of one character: one code unit below 0x10000, else a
/// surrogate pair.
pub open spec fn spec_utf16_char(c: char) -> Seq<u16> {
    let u = c as u32;
    if u < 0x10000 {
        seq![u as u16]
    } else {
        seq![
            (0xD800 + (((u - 0x10000) as u32) >> 10u32)) as u16,
            (0xDC00 + (((u - 0x10000) as u32) & 0x3FF)) as u16,
        ]
    }
}

/// UTF-16 encoding of a string, character by character.
pub open spec fn spec_utf16(s: Seq<char>) -> Seq<u16>
    decreases s.len(),
{
    if s.len() == 0 {
        Seq::empty()
    } else {
        spec_utf16_char(s[0]) + spec_utf16(s.drop_first())
    }
}

proof fn lemma_utf16_snoc(s: Seq<char>, c: char)
    ensures
        spec_utf16(s.push(c)) == spec_utf16(s) + spec_utf16_char(c),
    decreases s.len(),
{
    reveal_with_fuel(spec_utf16, 2);
    if s.len() == 0 {
        assert(s.push(c).drop_first() =~= Seq::<char>::empty());
        assert(spec_utf16(s.push(c)) =~= spec_utf16_char(c));
        assert(spec_utf16(s) + spec_utf16_char(c) =~= spec_utf16_char(c));
    } else {
        lemma_utf16_snoc(s.drop_first(), c);
        assert(s.push(c).drop_first() =~= s.drop_first().push(c));
        assert(spec_utf16(s.push(c)) =~= spec_utf16(s) + spec_utf16_char(c));
    }
}

/// Encode a string to UTF-16 code units.
pub fn encode_utf16_units(s: &str) -> (units: Vec<u16>)
    ensures
        units@ == spec_utf16(s@),
{
    let n = s.unicode_len();
    let mut units: Vec<u16> = Vec::new();
    let mut i: usize = 0;
    while i < n
        invariant
            i <= n,
            n == s@.len(),
            units@ == spec_utf16(s@.subrange(0, i as int)),
        decreases n - i,
    {
        let c = s.get_char(i);
        proof {
            lemma_utf16_snoc(s@.subrange(0, i as int), c);
            assert(s@.subrange(0, i as int + 1) =~= s@.subrange(0, i as int).push(c));
        }
        let u: u32 = c as u32;
        if u < 0x10000 {
            units.push(u as u16);
            proof {
                assert(units@ =~= spec_utf16(s@.subrange(0, i as int + 1)));
            }
        } else {
            let v: u32 = u - 0x10000;
            proof {
                vstd::utf8::char_is_scalar(c);
                assert(v < 0x100000);
                assert(v < 0x100000 ==> (v >> 10u32) < 0x400) by (bit_vector);
                assert((v & 0x3FF) < 0x400) by (bit_vector);
            }
            units.push((0xD800 + (v >> 10u32)) as u16);
            units.push((0xDC00 + (v & 0x3FF)) as u16);
            proof {
                assert(units@ =~= spec_utf16(s@.subrange(0, i as int + 1)));
            }
        }
        i = i + 1;
    }
    proof {
        assert(s@.subrange(0, n as int) =~= s@);
    }
    units
}

/// The full synthetic event sequence for a list of code units: a tagged
/// key-down then a tagged key-up per unit, in order.
pub open spec fn spec_text_inputs(units: Seq<u16>) -> Seq<KeyboardInput>
    decreases units.len(),
{
    if units.len() == 0 {
        Seq::empty()
    } else {
        seq![spec_key_down(units[0]), spec_key_up(units[0])] + spec_text_inputs(
            units.drop_first(),
        )
    }
}

proof fn lemma_text_inputs_snoc(units: Seq<u16>, unit: u16)
    ensures
        spec_text_inputs(units.push(unit)) == spec_text_inputs(units) + seq![
            spec_key_down(unit),
            spec_key_up(unit),
        ],
    decreases units.len(),
{
    reveal_with_fuel(spec_text_inputs, 2);
    if units.len() == 0 {
        assert(units.push(unit).drop_first() =~= Seq::<u16>::empty());
        assert(spec_text_inputs(units.push(unit)) =~= spec_text_inputs(units) + seq![
            spec_key_down(unit),
            spec_key_up(unit),
        ]);
    } else {
        lemma_text_inputs_snoc(units.drop_first(), unit);
        assert(units.push(unit).drop_first() =~= units.drop_first().push(unit));
        assert(spec_text_inputs(units.push(unit)) =~= spec_text_inputs(units) + seq![
            spec_key_down(unit),
            spec_key_up(unit),
        ]);
    }
}

/// Law: the synthetic event sequence has exactly two events per code
/// unit — the tagged key-down for that unit at every even position, the
/// matching tagged key-up right after it, and the injection tag on every
/// single event.
pub proof fn lemma_text_inputs_shape(units: Seq<u16>)
    ensures
        spec_text_inputs(units).len() == 2 * units.len(),
        forall|i: int|
            0 <= i < units.len() ==> spec_text_inputs(units)[2 * i] == spec_key_down(
                #[trigger] units[i],
            ) && spec_text_inputs(units)[2 * i + 1] == spec_key_up(units[i]),
        forall|j: int|
            0 <= j < spec_text_inputs(units).len() ==> (#[trigger] spec_text_inputs(
                units,
            )[j]).extra_info == KEY_IGNORE_EXINFO,
    decreases units.len(),
{
    if units.len() == 0 {
    } else {
        let rest = units.drop_first();
        lemma_text_inputs_shape(rest);
        assert forall|i: int|
            0 <= i < units.len() implies spec_text_inputs(units)[2 * i] == spec_key_down(
            #[trigger] units[i],
        ) && spec_text_inputs(units)[2 * i + 1] == spec_key_up(units[i]) by {
            if i > 0 {
                assert(spec_text_inputs(rest)[2 * (i - 1)] == spec_key_down(rest[i - 1]));
                assert(spec_text_inputs(rest)[2 * (i - 1) + 1] == spec_key_up(rest[i - 1]));
                assert(rest[i - 1] == units[i]);
            }
        }
        assert forall|j: int|
            0 <= j < spec_text_inputs(units).len() implies (#[trigger] spec_text_inputs(
            units,
        )[j]).extra_info == KEY_IGNORE_EXINFO by {
            if j >= 2 {
                assert(spec_text_inputs(rest)[j - 2].extra_info == KEY_IGNORE_EXINFO);
            }
        }
    }
}

/// Law: injecting a string produces exactly two events per UTF-16 code
/// unit of the string — the tagged down/up pair for each unit, in the
/// string's own order.
pub proof fn lemma_injection_round_trip(s: Seq<char>)
    ensures
        spec_text_inputs(spec_utf16(s)).len() == 2 * spec_utf16(s).len(),
        forall|i: int|
            0 <= i < spec_utf16(s).len() ==> spec_text_inputs(spec_utf16(s))[2 * i]
                == spec_key_down(#[trigger] spec_utf16(s)[i]) && spec_text_inputs(
                spec_utf16(s),
            )[2 * i + 1] == spec_key_up(spec_utf16(s)[i]),
{
    lemma_text_inputs_shape(spec_utf16(s));
}

/// Build the synthetic events for a list of UTF-16 code units.
pub fn build_text_inputs(units: &Vec<u16>) -> (inputs: Vec<KeyboardInput>)
    ensures
        inputs@ == spec_text_inputs(units@),
{
    let mut inputs: Vec<KeyboardInput> = Vec::new();
    let mut i: usize = 0;
    while i < units.len()
        invariant
            i <= units@.len(),
            inputs@ == spec_text_inputs(units@.subrange(0, i as int)),
        decreases units@.len() - i,
    {
        let unit: u16 = units[i];
        proof {
            lemma_text_inputs_snoc(units@.subrange(0, i as int), unit);
            assert(units@.subrange(0, i as int + 1) =~= units@.subrange(0, i as int).push(unit));
        }
        inputs.push(
            KeyboardInput {
                vk: 0,
                scan: unit,
                flags: KEYEVENTF_UNICODE,
                time: 0,
                extra_info: KEY_IGNORE_EXINFO,
            },
        );
        inputs.push(
            KeyboardInput {
                vk: 0,
                scan: unit,
                flags: KEYEVENTF_UNICODE | KEYEVENTF_KEYUP,
                time: 0,
                extra_info: KEY_IGNORE_EXINFO,
            },
        );
        proof {
            assert(inputs@ =~= spec_text_inputs(units@.subrange(0, i as int + 1)));
        }
        i = i + 1;
    }
    proof {
        assert(units@.subrange(0, units@.len() as int) =~= units@);
    }
    inputs
}

/// The ordered batch of synthetic events that types `s` into the focused
/// window: two tagged events per UTF-16 code unit of `s`.
pub fn text_input_events(s: &str) -> (inputs: Vec<KeyboardInput>)
    ensures
        inputs@ == spec_text_inputs(spec_utf16(s@)),
{
    let units = encode_utf16_units(s);
    build_text_inputs(&units)
}

/// Partial submission reported by the system input queue.
#[derive(Clone, Copy, PartialEq, Eq, Structural, Debug)]
pub struct InjectionError {
    /// Events handed to the system.
    pub requested: usize,
    /// Events the system actually accepted.
    pub accepted: usize,
}

/// Interpret a batch submission's result: anything short of full
/// acceptance is an error for the caller to act on; nothing is retried
/// here.
pub fn injection_outcome(requested: usize, accepted: usize) -> (r: Result<(), InjectionError>)
    ensures
        accepted == requested ==> r is Ok,
        accepted != requested ==> r == Err::<(), InjectionError>(
            InjectionError { requested, accepted },
        ),
{
    if accepted == requested {
        Ok(())
    } else {
        Err(InjectionError { requested, accepted })
    }
}

} // verus!
