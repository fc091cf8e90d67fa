use base64::engine::general_purpose::STANDARD;
use base64::Engine;
use lotion::state::AppState;
use lotion::vault::{
    decrypt_data, encrypt_data, encrypt_with_nonce, get_encryption_key, new_app_secret,
    plan_app_secret, plan_for, plan_load, read_text, seal_state, settle_load, unlock_state,
    EncryptedState, LoadPlan, SecretPlan, Unlocked,
};

const KEY: [u8; 32] = [7; 32];

fn stored(data: &str, nonce: &str) -> EncryptedState {
    EncryptedState {
        data: data.into(),
        nonce: nonce.into(),
    }
}

fn some_state(focused: &str) -> Option<AppState> {
    let mut state = AppState::new();
    state.focused_window_id = Some(focused.into());
    Some(state)
}

#[test]
fn key_is_derived_from_secret_and_salt() {
    let key = get_encryption_key(b"secret", "/home/u/.config/lotion-rs");
    let hex: String = key.iter().map(|b| format!("{:02x}", b)).collect();
    assert_eq!(
        hex,
        "ca0c9ae49dda06ba75628e20e243209dd13e2a10e26888230e680b02e159281a"
    );
}

#[test]
fn encryption_matches_a_known_vector() {
    let sealed = encrypt_with_nonce(&[0u8; 16], &[0u8; 12], &[0u8; 32]).unwrap();
    let hex: String = sealed.iter().map(|b| format!("{:02x}", b)).collect();
    assert_eq!(
        hex,
        "cea7403d4d606b6e074ec5d3baf39d18d0d1c8a799996bf0265b98b5d48ab919"
    );
    assert_eq!(
        decrypt_data(&sealed, &[0u8; 12], &[0u8; 32]),
        Ok(vec![0u8; 16])
    );
}

#[test]
fn what_is_encrypted_is_decrypted() {
    let (sealed, nonce) = encrypt_data(b"some bytes", &KEY).unwrap();
    assert_eq!(nonce.len(), 12);
    assert_ne!(nonce, [0u8; 12]);
    assert_eq!(sealed.len(), 26);
    assert_eq!(
        decrypt_data(&sealed, &nonce, &KEY),
        Ok(b"some bytes".to_vec())
    );
    let (_, other) = encrypt_data(b"some bytes", &KEY).unwrap();
    assert_ne!(nonce, other);
}

#[test]
fn another_key_is_refused() {
    let (sealed, nonce) = encrypt_data(b"some bytes", &KEY).unwrap();
    assert_eq!(
        decrypt_data(&sealed, &nonce, &[8; 32]),
        Err("Decryption error: Error".to_string())
    );
    let few: [u8; 15] = [0; 15];
    assert_eq!(
        decrypt_data(&few, &nonce, &KEY),
        Err("Decryption error: Error".to_string())
    );
    assert_eq!(
        decrypt_data(b"short", &nonce, &KEY),
        Err("Decryption error: Error".to_string())
    );
}

#[test]
fn a_sealed_state_is_unlocked_by_its_key() {
    for text in ["", "{\"tabs\":{}}", "\u{e9}\u{4e2d}\u{1f600}"] {
        let sealed = seal_state(text, &KEY).unwrap();
        assert_ne!(sealed.data, text);
        assert_eq!(STANDARD.decode(&sealed.nonce).unwrap().len(), 12);
        assert_eq!(
            STANDARD.decode(&sealed.data).unwrap().len(),
            text.len() + 16
        );
        assert!(matches!(unlock_state(&sealed, &KEY), Unlocked::Text(t) if t == text));
        assert!(matches!(
            unlock_state(&sealed.clone(), &[8; 32]),
            Unlocked::Refused
        ));
    }
}

#[test]
fn a_stored_state_is_read_in_its_stored_form() {
    let sealed = encrypt_with_nonce(b"text", &[1u8; 12], &KEY).unwrap();
    let form = stored(&STANDARD.encode(sealed), "AQEBAQEBAQEBAQEB");
    assert!(matches!(unlock_state(&form, &KEY), Unlocked::Text(t) if t == "text"));
}

#[test]
fn damaged_stored_states_are_told_apart() {
    let sealed = seal_state("text", &KEY).unwrap();
    assert!(matches!(
        unlock_state(&stored("not base64!", &sealed.nonce), &KEY),
        Unlocked::BadData
    ));
    assert!(matches!(
        unlock_state(&stored("not base64!", "nor this"), &KEY),
        Unlocked::BadData
    ));
    assert!(matches!(
        unlock_state(&stored(&sealed.data, "AA=A"), &KEY),
        Unlocked::BadNonce
    ));
    assert!(matches!(
        unlock_state(&stored(&sealed.data, "AAAA"), &KEY),
        Unlocked::NonceLength
    ));
    assert!(matches!(
        unlock_state(&stored("AAAA", &sealed.nonce), &KEY),
        Unlocked::Refused
    ));
    let (bytes, nonce) = encrypt_data(&[0xff, 0xfe], &KEY).unwrap();
    let form = stored(&STANDARD.encode(bytes), &STANDARD.encode(nonce));
    assert!(matches!(unlock_state(&form, &KEY), Unlocked::NotText));
}

#[test]
fn decrypted_bytes_are_read_as_text() {
    assert!(matches!(read_text(b"abc".to_vec()), Unlocked::Text(t) if t == "abc"));
    assert!(matches!(read_text(vec![0xc3]), Unlocked::NotText));
}

#[test]
fn loading_looks_where_the_state_may_be() {
    let sealed = seal_state("text", &KEY).unwrap();
    assert!(matches!(plan_load(&None, &KEY), LoadPlan::Contents));
    assert!(
        matches!(plan_load(&Some(sealed.clone()), &KEY), LoadPlan::Decrypted(t) if t == "text")
    );
    assert!(matches!(
        plan_load(&Some(sealed.clone()), &[8; 32]),
        LoadPlan::Contents
    ));
    assert!(matches!(
        plan_load(&Some(stored("!", "AAAA")), &KEY),
        LoadPlan::Reject
    ));
    assert!(matches!(plan_for(Unlocked::BadNonce), LoadPlan::Reject));
    assert!(matches!(plan_for(Unlocked::BadData), LoadPlan::Reject));
    assert!(matches!(
        plan_for(Unlocked::NonceLength),
        LoadPlan::NonceLength
    ));
    assert!(matches!(plan_for(Unlocked::Refused), LoadPlan::Contents));
    assert!(matches!(plan_for(Unlocked::NotText), LoadPlan::Contents));
}

#[test]
fn the_first_place_that_holds_a_state_wins() {
    let decrypted = LoadPlan::Decrypted("t".into());
    let chosen = |state: Option<AppState>| state.and_then(|s| s.focused_window_id);
    assert_eq!(
        chosen(settle_load(&decrypted, some_state("d"), some_state("c"))).as_deref(),
        Some("d")
    );
    assert_eq!(
        chosen(settle_load(&decrypted, None, some_state("c"))).as_deref(),
        Some("c")
    );
    assert!(settle_load(&decrypted, None, None).is_none());
    assert_eq!(
        chosen(settle_load(&LoadPlan::Contents, None, some_state("c"))).as_deref(),
        Some("c")
    );
    assert!(settle_load(&LoadPlan::Reject, some_state("d"), some_state("c")).is_none());
}

#[test]
fn what_is_saved_is_loaded_again() {
    let sealed = AppState::save_to_disk("{}", b"secret", "/c/lotion-rs").unwrap();
    assert!(matches!(
        AppState::load_from_disk(&Some(sealed.clone()), b"secret", "/c/lotion-rs"),
        LoadPlan::Decrypted(t) if t == "{}"
    ));
    assert!(matches!(
        AppState::load_from_disk(&Some(sealed), b"secret", "/d/lotion-rs"),
        LoadPlan::Contents
    ));
    assert!(matches!(
        AppState::load_from_disk(&None, b"secret", "/c/lotion-rs"),
        LoadPlan::Contents
    ));
}

#[test]
fn the_secret_is_made_once() {
    assert!(matches!(plan_app_secret(true), SecretPlan::Load));
    let SecretPlan::Create(first) = plan_app_secret(false) else {
        panic!("no secret was made");
    };
    assert_eq!(first.len(), 32);
    assert_ne!(first, [0u8; 32]);
    assert_ne!(first, new_app_secret());
}
