use charpick::kblock::{
    evaluate_key, injection_outcome, is_modifier_key, HookDecision, InjectionError,
    KEY_IGNORE_EXINFO, VK_CAPITAL, VK_CONTROL, VK_ESCAPE, VK_LCONTROL, VK_LMENU, VK_LSHIFT,
    VK_LWIN, VK_MENU, VK_RCONTROL, VK_RMENU, VK_RSHIFT, VK_RWIN, VK_SHIFT, WM_KEYDOWN, WM_KEYUP,
};
use charpick::keyboard::KeyboardLL;

const MODIFIERS: [u16; 12] = [
    VK_SHIFT, VK_LSHIFT, VK_RSHIFT, VK_CONTROL, VK_LCONTROL, VK_RCONTROL, VK_MENU, VK_LMENU,
    VK_RMENU, VK_LWIN, VK_RWIN, VK_CAPITAL,
];

#[test]
fn tagged_events_always_pass_through() {
    // Every virtual key except escape, tagged with the injection tag,
    // passes through whatever the logo-key state.
    for vk in 0u16..=0xFE {
        if vk == VK_ESCAPE {
            continue;
        }
        for &win_down in &[false, true] {
            let ev = KeyboardLL::new(vk, 0x1E, 0, KEY_IGNORE_EXINFO);
            let o = evaluate_key(&ev, win_down, false);
            assert_eq!(o.decision, HookDecision::PassThrough);
        }
    }
}

#[test]
fn untagged_plain_key_is_captured_unless_logo_key_held() {
    let ev = KeyboardLL::new(0x41, 0x1E, 0, 0);
    let o = evaluate_key(&ev, false, false);
    assert_eq!(o.decision, HookDecision::Suppress);
    let o = evaluate_key(&ev, true, false);
    assert_eq!(o.decision, HookDecision::PassThrough);
}

#[test]
fn modifiers_always_pass_through() {
    for &vk in &MODIFIERS {
        assert!(is_modifier_key(vk));
        for &win_down in &[false, true] {
            for &extra in &[0usize, KEY_IGNORE_EXINFO] {
                let ev = KeyboardLL::new(vk, 0x2A, 0, extra);
                let o = evaluate_key(&ev, win_down, true);
                assert_eq!(o.decision, HookDecision::PassThrough);
                assert!(!o.quit);
            }
        }
    }
}

#[test]
fn escape_is_suppressed_and_quits_once() {
    for &win_down in &[false, true] {
        for &extra in &[0usize, KEY_IGNORE_EXINFO] {
            let ev = KeyboardLL::new(VK_ESCAPE, 0x01, 0, extra);
            let o = evaluate_key(&ev, win_down, false);
            assert_eq!(o.decision, HookDecision::Suppress);
            assert!(o.quit);
        }
    }
    // No other key raises the quit signal.
    let ev = KeyboardLL::new(0x41, 0x1E, 0, 0);
    assert!(!evaluate_key(&ev, false, false).quit);
}

#[test]
fn missing_target_window_skips_forwarding_but_still_captures() {
    // Window lookup failed: no forwarding, yet a plain untagged key with
    // no logo key held is still captured.
    let ev = KeyboardLL::new(0x42, 0x30, 0, 0);
    let o = evaluate_key(&ev, false, false);
    assert!(o.forward.is_none());
    assert_eq!(o.decision, HookDecision::Suppress);
    // Same event with the window found: same decision, message attached.
    let o = evaluate_key(&ev, false, true);
    assert!(o.forward.is_some());
    assert_eq!(o.decision, HookDecision::Suppress);
}

#[test]
fn forwarded_key_down_message_payload() {
    // Key-down, not extended, no alt: lparam holds only the scan code
    // shifted into bits 16..24.
    let ev = KeyboardLL::new(0x41, 0x1E, 0, 0);
    let o = evaluate_key(&ev, false, true);
    let m = o.forward.expect("window was found");
    assert_eq!(m.message, WM_KEYDOWN);
    assert_eq!(m.wparam, 0x41usize);
    assert_eq!(m.lparam, 0x001E_0000);
}

#[test]
fn forwarded_key_up_message_payload() {
    // Key-up: transition and previous-state bits join the scan code.
    let ev = KeyboardLL::new(0x41, 0x1E, 0x80, 0);
    let o = evaluate_key(&ev, false, true);
    let m = o.forward.expect("window was found");
    assert_eq!(m.message, WM_KEYUP);
    assert_eq!(m.wparam, 0x41usize);
    assert_eq!(m.lparam, 0xC01E_0000);
}

#[test]
fn forwarded_extended_alt_message_payload() {
    // Extended key with alt held: extended bit 24 and context bit 29.
    let ev = KeyboardLL::new(0x26, 0x48, 0x21, 0);
    let o = evaluate_key(&ev, false, true);
    let m = o.forward.expect("window was found");
    assert_eq!(m.message, WM_KEYDOWN);
    assert_eq!(m.lparam, 0x2148_0000);
}

#[test]
fn keyboard_event_flag_accessors() {
    let ev = KeyboardLL::new(0x26, 0x48, 0x01 | 0x20, 7);
    assert_eq!(ev.vk_code(), 0x26);
    assert_eq!(ev.scan_code(), 0x48);
    assert!(ev.extended());
    assert!(ev.altdown());
    assert!(!ev.up());
    assert_eq!(ev.extra_info(), 7);
    let up = KeyboardLL::new(0x26, 0x48, 0x80, 0);
    assert!(up.up());
    assert!(!up.extended());
    assert!(!up.altdown());
}

#[test]
fn partial_injection_is_an_error() {
    assert!(injection_outcome(4, 4).is_ok());
    assert_eq!(
        injection_outcome(4, 3),
        Err(InjectionError {
            requested: 4,
            accepted: 3
        })
    );
    assert!(injection_outcome(0, 0).is_ok());
}
