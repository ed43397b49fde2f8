use leansig_ffi::{
    leansig_keypair_generate, leansig_keypair_restore, leansig_sign, leansig_verify,
    leansig_verify_with_keypair, requested_activation, signing_result, verification_result, BufferLedger, EpochInterval, KeyWindows,
    LeansigKeypair, LeansigResult, ReleaseAction, LIFETIME,
};

// A stand-in scheme for the tests: a "signature" is the epoch's four bytes
// followed by the message, and the secret key only carries its windows.
fn toy_sign(epoch: u32, message: [u8; 32]) -> Vec<u8> {
    let mut v = epoch.to_le_bytes().to_vec();
    v.extend_from_slice(&message);
    v
}

fn toy_holds(_pk: &u64, epoch: u32, message: [u8; 32], sig: &Vec<u8>) -> bool {
    *sig == toy_sign(epoch, message)
}

fn parse_sig(b: &[u8]) -> Option<Vec<u8>> {
    if b.len() == 36 {
        Some(b.to_vec())
    } else {
        None
    }
}

fn interval(start: u64, end: u64) -> EpochInterval {
    EpochInterval { start, end }
}

fn generated(seed: u64, a: u64, n: u64) -> LeansigKeypair<u64, u64> {
    leansig_keypair_generate(seed, a, n, |s: u64, a: u64, n: u64| {
        Some((s, s + 1, interval(a, a + n), interval(a, a + n.min(2))))
    })
    .ok()
    .unwrap()
}

#[test]
fn result_codes_are_stable() {
    let all = [
        LeansigResult::Success,
        LeansigResult::NullPointer,
        LeansigResult::InvalidLength,
        LeansigResult::SigningFailed,
        LeansigResult::DeserializationFailed,
        LeansigResult::VerificationFailed,
        LeansigResult::EpochNotPrepared,
    ];
    for (i, r) in all.iter().enumerate() {
        assert_eq!(r.code(), i as u32);
        assert_eq!(LeansigResult::from_code(i as u32), Some(*r));
    }
    assert_eq!(LeansigResult::from_code(7), None);
    assert!(LeansigResult::Success.is_ok());
    assert!(!LeansigResult::EpochNotPrepared.is_ok());
}

#[test]
fn activation_must_fit_the_lifetime() {
    assert_eq!(requested_activation(0, 4), Ok(interval(0, 4)));
    assert_eq!(requested_activation(0, LIFETIME), Ok(interval(0, LIFETIME)));
    assert_eq!(requested_activation(LIFETIME - 1, 2), Err(LeansigResult::SigningFailed));
    assert_eq!(requested_activation(u64::MAX, 1), Err(LeansigResult::SigningFailed));
}

#[test]
fn reported_windows_must_nest() {
    assert!(KeyWindows::from_reported(interval(0, 4), interval(0, 2)).is_some());
    assert!(KeyWindows::from_reported(interval(0, 4), interval(2, 5)).is_none());
    assert!(KeyWindows::from_reported(interval(4, 0), interval(0, 0)).is_none());
    assert!(KeyWindows::from_reported(interval(0, LIFETIME + 1), interval(0, 1)).is_none());
}

#[test]
fn concrete_generate_sign_verify() {
    let kp = generated(42, 0, 4);
    assert_eq!(kp.activation_start(), 0);
    assert_eq!(kp.activation_end(), 4);
    assert_eq!(kp.prepared_start(), 0);
    assert_eq!(kp.prepared_end(), 2);
    let msg = [0u8; 32];
    let sig = leansig_sign(&kp, 0, msg, |_sk: &u64, e: u32, m: [u8; 32]| Some(toy_sign(e, m)));
    let sig = sig.ok().unwrap();
    let pk_bytes = kp.pk.to_le_bytes();
    let parse_pk = |b: &[u8]| -> Option<u64> { b.try_into().ok().map(u64::from_le_bytes) };
    assert_eq!(leansig_verify(&pk_bytes, 0, msg, &sig, parse_pk, parse_sig, toy_holds), LeansigResult::Success);
}

#[test]
fn sign_outside_prepared_window_is_rejected() {
    let kp = generated(42, 0, 4);
    let mut called = false;
    let r = leansig_sign(&kp, 3, [0u8; 32], |_sk: &u64, e: u32, m: [u8; 32]| {
        called = true;
        Some(toy_sign(e, m))
    });
    assert_eq!(r.err(), Some(LeansigResult::EpochNotPrepared));
    assert!(!called);
    let r = leansig_sign(&kp, 2, [0u8; 32], |_sk: &u64, e: u32, m: [u8; 32]| Some(toy_sign(e, m)));
    assert_eq!(r.err(), Some(LeansigResult::EpochNotPrepared));
    let r = leansig_sign(&kp, 1, [0u8; 32], |_sk: &u64, e: u32, m: [u8; 32]| Some(toy_sign(e, m)));
    assert_eq!(r.ok(), Some(toy_sign(1, [0u8; 32])));
}

#[test]
fn scheme_signing_failure_is_reported() {
    let kp = generated(1, 0, 4);
    let r = leansig_sign(&kp, 0, [7u8; 32], |_sk: &u64, _e: u32, _m: [u8; 32]| None);
    assert_eq!(r.err(), Some(LeansigResult::SigningFailed));
}

#[test]
fn generation_failures() {
    let r: Result<LeansigKeypair<u64, u64>, LeansigResult> =
        leansig_keypair_generate(42, LIFETIME, 1, |_s: u64, _a: u64, _n: u64| None);
    assert_eq!(r.err(), Some(LeansigResult::SigningFailed));
    let r: Result<LeansigKeypair<u64, u64>, LeansigResult> =
        leansig_keypair_generate(42, 0, 4, |_s: u64, _a: u64, _n: u64| None);
    assert_eq!(r.err(), Some(LeansigResult::SigningFailed));
    let r = leansig_keypair_generate(42, 0, 4, |s: u64, _a: u64, _n: u64| {
        Some((s, s, interval(0, 4), interval(3, 6)))
    });
    assert_eq!(r.err(), Some(LeansigResult::SigningFailed));
}

#[test]
fn advancement_is_monotone_and_bounded() {
    let mut kp = generated(42, 0, 8);
    assert_eq!(kp.record_advance(interval(1, 3)), LeansigResult::Success);
    assert_eq!((kp.prepared_start(), kp.prepared_end()), (1, 3));
    // A window that moves back is not adopted.
    kp.record_advance(interval(0, 2));
    assert_eq!((kp.prepared_start(), kp.prepared_end()), (1, 3));
    // Nor one that leaves the activation interval.
    kp.record_advance(interval(7, 9));
    assert_eq!((kp.prepared_start(), kp.prepared_end()), (1, 3));
    kp.record_advance(interval(6, 8));
    assert!(kp.windows.is_exhausted());
    kp.record_advance(interval(7, 9));
    assert_eq!((kp.prepared_start(), kp.prepared_end()), (6, 8));
    assert_eq!((kp.activation_start(), kp.activation_end()), (0, 8));
}

#[test]
fn windows_advance_reports_movement() {
    let mut w = KeyWindows::from_reported(interval(0, 4), interval(0, 2)).unwrap();
    assert!(!w.advance(interval(0, 2)));
    assert!(w.advance(interval(1, 3)));
    assert!(!w.advance(interval(1, 5)));
    assert_eq!(w.prepared, interval(1, 3));
    assert!(w.check_sign_epoch(1).is_ok());
    assert_eq!(w.check_sign_epoch(0), LeansigResult::EpochNotPrepared);
    assert_eq!(w.check_sign_epoch(3), LeansigResult::EpochNotPrepared);
}

#[test]
fn restore_round_trips_windows() {
    let kp = generated(42, 0, 4);
    let pk_bytes = kp.pk.to_le_bytes();
    let sk_bytes: Vec<u8> = [kp.sk.to_le_bytes(), kp.windows.activation.end.to_le_bytes(), kp.windows.prepared.end.to_le_bytes()].concat();
    let parse_pk = |b: &[u8]| -> Option<u64> { b.try_into().ok().map(u64::from_le_bytes) };
    let parse_sk = |b: &[u8]| -> Option<(u64, EpochInterval, EpochInterval)> {
        if b.len() != 24 {
            return None;
        }
        let w = |i: usize| u64::from_le_bytes(b[i * 8..i * 8 + 8].try_into().unwrap());
        Some((w(0), interval(0, w(1)), interval(0, w(2))))
    };
    let r = leansig_keypair_restore(&pk_bytes, &sk_bytes, parse_pk, parse_sk).ok().unwrap();
    assert_eq!(r.windows, kp.windows);
    assert_eq!(r.pk, kp.pk);
    assert_eq!(r.sk, kp.sk);
    // One byte short of the canonical length.
    let r = leansig_keypair_restore(&pk_bytes, &sk_bytes[..23], parse_pk, parse_sk);
    assert_eq!(r.err(), Some(LeansigResult::DeserializationFailed));
}

#[test]
fn restore_rejects_bad_public_key() {
    let mut sk_called = false;
    let r: Result<LeansigKeypair<u64, u64>, LeansigResult> = leansig_keypair_restore(
        &[1, 2, 3],
        &[0u8; 24],
        |_b: &[u8]| None,
        |_b: &[u8]| {
            sk_called = true;
            Some((0, interval(0, 4), interval(0, 2)))
        },
    );
    assert_eq!(r.err(), Some(LeansigResult::DeserializationFailed));
    assert!(!sk_called);
    let r: Result<LeansigKeypair<u64, u64>, LeansigResult> = leansig_keypair_restore(
        &[0u8; 8],
        &[0u8; 24],
        |_b: &[u8]| Some(0u64),
        |_b: &[u8]| Some((0u64, interval(0, 4), interval(2, 6))),
    );
    assert_eq!(r.err(), Some(LeansigResult::DeserializationFailed));
}

#[test]
fn verification_outcomes() {
    let kp = generated(5, 0, 4);
    let msg = [9u8; 32];
    let sig = toy_sign(0, msg);
    assert_eq!(leansig_verify_with_keypair(&kp, 0, msg, &sig, parse_sig, toy_holds), LeansigResult::Success);
    let mut flipped = msg;
    flipped[0] ^= 1;
    assert_eq!(leansig_verify_with_keypair(&kp, 0, flipped, &sig, parse_sig, toy_holds), LeansigResult::VerificationFailed);
    let mut bad = sig.clone();
    bad[10] ^= 0x80;
    assert_eq!(leansig_verify_with_keypair(&kp, 0, msg, &bad, parse_sig, toy_holds), LeansigResult::VerificationFailed);
    assert_eq!(leansig_verify_with_keypair(&kp, 0, msg, &sig[..35], parse_sig, toy_holds), LeansigResult::DeserializationFailed);
    let no_pk = |_b: &[u8]| -> Option<u64> { None };
    assert_eq!(leansig_verify(&[0u8; 8], 0, msg, &sig, no_pk, parse_sig, toy_holds), LeansigResult::DeserializationFailed);
}

#[test]
fn buffer_ledger_release_protocol() {
    let mut l = BufferLedger::new();
    l.hand_out(0x1000, 36);
    l.hand_out(0x2000, 8);
    l.hand_out(0x3000, 0);
    assert_eq!(l.outstanding_count(), 2);
    assert_eq!(l.release(0, 36), ReleaseAction::Nothing);
    assert_eq!(l.release(0x3000, 0), ReleaseAction::Nothing);
    assert_eq!(l.release(0x1000, 35), ReleaseAction::Refuse);
    assert_eq!(l.release(0x1000, 36), ReleaseAction::Free);
    assert_eq!(l.release(0x1000, 36), ReleaseAction::Refuse);
    assert_eq!(l.release(0x4000, 4), ReleaseAction::Refuse);
    assert!(l.is_outstanding(0x2000));
    assert_eq!(l.release(0x2000, 8), ReleaseAction::Free);
    assert_eq!(l.outstanding_count(), 0);
}

#[test]
fn outcome_mapping() {
    assert_eq!(signing_result(Some(vec![1, 2, 3])), Ok(vec![1, 2, 3]));
    assert_eq!(signing_result(None), Err(LeansigResult::SigningFailed));
    assert_eq!(verification_result(true, true, true), LeansigResult::Success);
    assert_eq!(verification_result(true, true, false), LeansigResult::VerificationFailed);
    assert_eq!(verification_result(false, true, true), LeansigResult::DeserializationFailed);
    assert_eq!(verification_result(true, false, true), LeansigResult::DeserializationFailed);
}
