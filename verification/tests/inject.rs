use charpick::kblock::{
    build_text_inputs, encode_utf16_units, text_input_events, KEYEVENTF_KEYUP, KEYEVENTF_UNICODE,
    KEY_IGNORE_EXINFO,
};

#[test]
fn utf16_encoding_matches_std() {
    let samples = [
        "",
        "a",
        "ab",
        "hello world",
        "ümläut",
        "ελληνικά",
        "😀",
        "a😀b",
        "𝔘𝔫𝔦𝔠𝔬𝔡𝔢",
    ];
    for s in samples {
        let expected: Vec<u16> = s.encode_utf16().collect();
        assert_eq!(encode_utf16_units(s), expected);
    }
}

#[test]
fn two_events_per_code_unit_alternating_and_tagged() {
    let s = "a😀b";
    let units: Vec<u16> = s.encode_utf16().collect();
    let inputs = text_input_events(s);
    assert_eq!(inputs.len(), 2 * units.len());
    for (i, &unit) in units.iter().enumerate() {
        let down = &inputs[2 * i];
        let up = &inputs[2 * i + 1];
        assert_eq!(down.vk, 0);
        assert_eq!(down.scan, unit);
        assert_eq!(down.flags, KEYEVENTF_UNICODE);
        assert_eq!(down.time, 0);
        assert_eq!(down.extra_info, KEY_IGNORE_EXINFO);
        assert_eq!(up.vk, 0);
        assert_eq!(up.scan, unit);
        assert_eq!(up.flags, KEYEVENTF_UNICODE | KEYEVENTF_KEYUP);
        assert_eq!(up.time, 0);
        assert_eq!(up.extra_info, KEY_IGNORE_EXINFO);
    }
}

#[test]
fn empty_string_injects_nothing() {
    assert_eq!(text_input_events("").len(), 0);
}

#[test]
fn surrogate_pair_order_is_preserved() {
    // U+1F600 encodes as the pair 0xD83D, 0xDE00, in that order.
    let inputs = text_input_events("😀");
    assert_eq!(inputs.len(), 4);
    assert_eq!(inputs[0].scan, 0xD83D);
    assert_eq!(inputs[1].scan, 0xD83D);
    assert_eq!(inputs[2].scan, 0xDE00);
    assert_eq!(inputs[3].scan, 0xDE00);
}

#[test]
fn build_from_explicit_units() {
    let units: Vec<u16> = vec![0x61, 0xD83D, 0xDE00];
    let inputs = build_text_inputs(&units);
    assert_eq!(inputs.len(), 6);
    for (i, &unit) in units.iter().enumerate() {
        assert_eq!(inputs[2 * i].scan, unit);
        assert_eq!(inputs[2 * i + 1].scan, unit);
    }
}
