use rev2mod::classifier::{decode_token, identify_character, LoadState, ScriptRequest};
use rev2mod::script::{character_from_token, ScriptFile, ScriptType, CYCLE_LEN};
use rev2mod::storage::BBScriptStorage;

/// A main script with `count` states whose token is `token`.
fn main_script(count: u32, token: &[u8]) -> Vec<u8> {
    let mut d = count.to_le_bytes().to_vec();
    let offset = 8 + (count as usize + 1) * 36;
    d.resize(offset, 0xAA);
    d.extend_from_slice(token);
    d.push(0);
    d.extend_from_slice(&[1, 2, 3]);
    d
}

fn req(slot: usize, file: ScriptFile, kind: ScriptType) -> ScriptRequest {
    ScriptRequest { slot, file, kind }
}

#[test]
fn full_cycle_requests() {
    let mut s = LoadState::new();
    let a = main_script(0, b"KYK");
    let b = main_script(3, b"MAY");
    let other: Vec<u8> = vec![9, 9, 9];
    let got = vec![
        s.classify(&a),
        s.classify(&other),
        s.classify(&b),
        s.classify(&other),
        s.classify(&other),
        s.classify(&other),
    ];
    assert_eq!(
        got,
        vec![
            req(0, ScriptFile::Ky, ScriptType::Main),
            req(1, ScriptFile::Ky, ScriptType::Effect),
            req(2, ScriptFile::May, ScriptType::Main),
            req(3, ScriptFile::May, ScriptType::Effect),
            req(4, ScriptFile::Common, ScriptType::Main),
            req(5, ScriptFile::Common, ScriptType::Effect),
        ]
    );
    assert_eq!(s.counter, 6);
}

#[test]
fn counter_and_slots_over_two_cycles() {
    let mut s = LoadState::new();
    let d: Vec<u8> = vec![];
    for i in 0..2 * CYCLE_LEN {
        assert_eq!(s.counter, i as u64);
        let r = s.classify(&d);
        assert_eq!(r.slot, i % 6);
        assert_eq!(s.counter, i as u64 + 1);
    }
}

#[test]
fn counter_at_top_keeps_slot_order() {
    let mut s = LoadState::new();
    s.counter = u64::MAX;
    let d: Vec<u8> = vec![];
    let r = s.classify(&d);
    assert_eq!(r.slot, 3);
    assert_eq!(s.counter, 4);
    assert_eq!(s.classify(&d).slot, 4);
    assert_eq!(s.classify(&d).slot, 5);
    assert_eq!(s.classify(&d).slot, 0);
}

#[test]
fn effect_slot_uses_character_across_cycles() {
    let mut s = LoadState::new();
    let other: Vec<u8> = vec![];
    let first = main_script(1, b"ZAT");
    let second = main_script(2, b"INO");
    assert_eq!(s.classify(&first).file, ScriptFile::Zato);
    assert_eq!(s.classify(&other), req(1, ScriptFile::Zato, ScriptType::Effect));
    assert_eq!(s.classify(&other), req(2, ScriptFile::Sol, ScriptType::Main));
    assert_eq!(s.classify(&other), req(3, ScriptFile::Sol, ScriptType::Effect));
    s.classify(&other);
    s.classify(&other);
    assert_eq!(s.last_character, ScriptFile::Sol);
    assert_eq!(s.classify(&second), req(0, ScriptFile::Ino, ScriptType::Main));
    assert_eq!(s.classify(&other), req(1, ScriptFile::Ino, ScriptType::Effect));
}

#[test]
fn unknown_token_gives_default() {
    let mut s = LoadState::new();
    s.last_character = ScriptFile::Millia;
    let d = main_script(0, b"XYZ");
    assert_eq!(s.classify(&d), req(0, ScriptFile::Sol, ScriptType::Main));
    assert_eq!(s.last_character, ScriptFile::Sol);
}

#[test]
fn truncated_data_gives_default() {
    let mut s = LoadState::new();
    s.counter = 2;
    s.last_character = ScriptFile::Faust;
    let short: Vec<u8> = vec![0, 0];
    assert_eq!(s.classify(&short), req(2, ScriptFile::Sol, ScriptType::Main));
    assert_eq!(identify_character(&[5, 0, 0, 0, 1, 2, 3]), ScriptFile::Sol);
}

#[test]
fn decode_token_reads_at_offset() {
    assert_eq!(decode_token(&main_script(0, b"SOL")), Some(b"SOL".to_vec()));
    assert_eq!(decode_token(&main_script(7, b"POT")), Some(b"POT".to_vec()));
    let mut d = main_script(0, b"AXL");
    d.truncate(46);
    assert_eq!(decode_token(&d), None);
    assert_eq!(decode_token(&[0, 0, 0]), None);
    assert_eq!(decode_token(&main_script(0, b"")), Some(vec![]));
    let huge = [255u8, 255, 255, 255, 0, 0];
    assert_eq!(decode_token(&huge), None);
}

#[test]
fn token_table() {
    assert_eq!(character_from_token(b"ANS"), ScriptFile::Answer);
    assert_eq!(character_from_token(b"KUM"), ScriptFile::Kum);
    assert_eq!(character_from_token(b"RAM"), ScriptFile::Ramlethal);
    assert_eq!(character_from_token(b"SOLX"), ScriptFile::Sol);
    assert_eq!(character_from_token(b"sol"), ScriptFile::Sol);
    assert_eq!(character_from_token(b""), ScriptFile::Sol);
}

#[test]
fn call_args_original_when_inactive_or_empty() {
    let mut s = LoadState::new();
    assert_eq!(s.call_args(0, true), None);
    s.store(0, Some(vec![1, 2, 3]));
    assert_eq!(s.call_args(0, false), None);
    assert_eq!(s.call_args(1, true), None);
}

#[test]
fn call_args_replacement_when_active() {
    let mut s = LoadState::new();
    s.store(3, Some(vec![7, 8, 9, 10]));
    let (buf, len) = s.call_args(3, true).unwrap();
    assert_eq!(buf, &[7, 8, 9, 10]);
    assert_eq!(len, 4);
    s.store(3, None);
    assert_eq!(s.call_args(3, true), None);
}

#[test]
fn storage_slots_map_to_fields() {
    let mut st = BBScriptStorage::new();
    for i in 0..6usize {
        st.set_script(i, Some(vec![i as u8; i + 1]));
    }
    assert_eq!(st.player_1, Some(vec![0]));
    assert_eq!(st.player_1_ef, Some(vec![1, 1]));
    assert_eq!(st.player_2, Some(vec![2, 2, 2]));
    assert_eq!(st.player_2_ef, Some(vec![3; 4]));
    assert_eq!(st.common, Some(vec![4; 5]));
    assert_eq!(st.common_ef, Some(vec![5; 6]));
    for i in 0..6usize {
        let (b, n) = st.get_script_ptr(i).unwrap();
        assert_eq!(b, vec![i as u8; i + 1].as_slice());
        assert_eq!(n as usize, i + 1);
    }
    assert_eq!(st.get_script_ptr(6), None);
}
