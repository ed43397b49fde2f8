use vstd::prelude::*;

use crate::result::LeansigResult;
use crate::window::{advance_admits, requested_activation, EpochInterval, KeyWindows, LIFETIME};

verus! {

/// A keypair: public key `pk` and secret key `sk` of the signature scheme,
/// with the epoch windows of the secret key.
pub struct LeansigKeypair<P, S> {
    pub pk: P,
    pub sk: S,
    pub windows: KeyWindows,
}

/// What a signing attempt reports: the signature's bytes, or a failure of
/// the scheme's encoding.
pub open spec fn signing_outcome(out: Option<Vec<u8>>) -> Result<Vec<u8>, LeansigResult> {
    match out {
        Some(bytes) => Ok(bytes),
        None => Err(LeansigResult::SigningFailed),
    }
}

/// What a verification reports, from whether the public key and the
/// signature parsed and whether the binding holds.
pub open spec fn verification_outcome(pk_parsed: bool, sig_parsed: bool, holds: bool) -> LeansigResult {
    if !pk_parsed || !sig_parsed {
        LeansigResult::DeserializationFailed
    } else if holds {
        LeansigResult::Success
    } else {
        LeansigResult::VerificationFailed
    }
}

/// The result of a signing attempt that passed the epoch check, from what
/// the scheme returned.
pub fn signing_result(out: Option<Vec<u8>>) -> (r: Result<Vec<u8>, LeansigResult>)
    ensures
        r == signing_outcome(out),
{
    match out {
        Some(bytes) => Ok(bytes),
        None => Err(LeansigResult::SigningFailed),
    }
}

/// The result of a verification, from whether the public key and the
/// signature parsed and whether the binding holds.
pub fn verification_result(pk_parsed: bool, sig_parsed: bool, holds: bool) -> (r: LeansigResult)
    ensures
        r == verification_outcome(pk_parsed, sig_parsed, holds),
{
    if !pk_parsed || !sig_parsed {
        LeansigResult::DeserializationFailed
    } else if holds {
        LeansigResult::Success
    } else {
        LeansigResult::VerificationFailed
    }
}

/// The whole signing protocol at `epoch`, given what the scheme would return.
pub open spec fn sign_protocol(w: KeyWindows, epoch: u32, out: Option<Vec<u8>>) -> Result<
    Vec<u8>,
    LeansigResult,
> {
    if w.prepared.has(epoch as int) {
        signing_outcome(out)
    } else {
        Err(LeansigResult::EpochNotPrepared)
    }
}

/// The windows after one step of advancement with `reported` as the
/// prepared interval the key gives.
pub open spec fn advance_spec(w: KeyWindows, reported: EpochInterval) -> KeyWindows {
    if advance_admits(w, reported) {
        KeyWindows { activation: w.activation, prepared: reported }
    } else {
        w
    }
}

impl<P, S> LeansigKeypair<P, S> {
    /// The keypair is well formed when its windows are.
    pub open spec fn wf(&self) -> bool {
        self.windows.wf()
    }

    /// Builds a keypair from keys and the windows that the secret key
    /// reports; `None` where those windows break the invariant.
    pub fn from_parts(pk: P, sk: S, activation: EpochInterval, prepared: EpochInterval) -> (r:
        Option<LeansigKeypair<P, S>>)
        ensures
            r is Some <==> (KeyWindows { activation, prepared }).wf(),
            r matches Some(kp) ==> kp.pk == pk && kp.sk == sk && kp.windows.activation
                == activation && kp.windows.prepared == prepared && kp.wf(),
    {
        match KeyWindows::from_reported(activation, prepared) {
            Some(windows) => Some(LeansigKeypair { pk, sk, windows }),
            None => None,
        }
    }

    /// Start of the activation interval.
    pub fn activation_start(&self) -> (e: u64)
        ensures
            e == self.windows.activation.start,
    {
        self.windows.activation_start()
    }

    /// End (exclusive) of the activation interval.
    pub fn activation_end(&self) -> (e: u64)
        ensures
            e == self.windows.activation.end,
    {
        self.windows.activation_end()
    }

    /// Start of the prepared interval.
    pub fn prepared_start(&self) -> (e: u64)
        ensures
            e == self.windows.prepared.start,
    {
        self.windows.prepared_start()
    }

    /// End (exclusive) of the prepared interval.
    pub fn prepared_end(&self) -> (e: u64)
        ensures
            e == self.windows.prepared.end,
    {
        self.windows.prepared_end()
    }

    /// Records one step of advancement of the secret key, whose prepared
    /// interval is now `reported`. The keys are untouched; the windows move
    /// as `KeyWindows::advance` says. Always succeeds.
    pub fn record_advance(&mut self, reported: EpochInterval) -> (r: LeansigResult)
        requires
            old(self).wf(),
        ensures
            final(self).wf(),
            final(self).pk == old(self).pk,
            final(self).sk == old(self).sk,
            final(self).windows == advance_spec(old(self).windows, reported),
            r == LeansigResult::Success,
    {
        let _ = self.windows.advance(reported);
        LeansigResult::Success
    }
}

/// Generates a keypair. The activation interval asked for must lie in the
/// epoch domain; `key_gen` then runs the scheme's key generation from `seed`
/// and reports the keys with their windows, or `None` where it could not
/// complete. Every failure is `SigningFailed`, the generation-failure code.
pub fn leansig_keypair_generate<P, S, F>(
    seed: u64,
    activation_epoch: u64,
    num_active_epochs: u64,
    key_gen: F,
) -> (r: Result<LeansigKeypair<P, S>, LeansigResult>) where
    F: FnOnce(u64, u64, u64) -> Option<(P, S, EpochInterval, EpochInterval)>,

    requires
        activation_epoch + num_active_epochs <= LIFETIME ==> call_requires(
            key_gen,
            (seed, activation_epoch, num_active_epochs),
        ),
    ensures
        activation_epoch + num_active_epochs > LIFETIME ==> r == Err::<
            LeansigKeypair<P, S>,
            LeansigResult,
        >(LeansigResult::SigningFailed),
        r is Ok ==> activation_epoch + num_active_epochs <= LIFETIME,
        r matches Ok(kp) ==> kp.wf(),
        r matches Err(e) ==> e == LeansigResult::SigningFailed,
        activation_epoch + num_active_epochs <= LIFETIME ==> exists|
            out: Option<(P, S, EpochInterval, EpochInterval)>,
        |
            #[trigger] call_ensures(key_gen, (seed, activation_epoch, num_active_epochs), out)
                && match out {
                Some(
                    (pk, sk, a, p),
                ) => if (KeyWindows { activation: a, prepared: p }).wf() {
                    r matches Ok(kp) && kp.pk == pk && kp.sk == sk && kp.windows.activation == a
                        && kp.windows.prepared == p
                } else {
                    r is Err
                },
                None => r is Err,
            },
{
    match requested_activation(activation_epoch, num_active_epochs) {
        Err(e) => Err(e),
        Ok(_) => {
            let out = key_gen(seed, activation_epoch, num_active_epochs);
            let ghost reported = out;
            let r = match out {
                Some((pk, sk, activation, prepared)) => {
                    match LeansigKeypair::from_parts(pk, sk, activation, prepared) {
                        Some(kp) => Ok(kp),
                        None => Err(LeansigResult::SigningFailed),
                    }
                },
                None => Err(LeansigResult::SigningFailed),
            };
            proof {
                assert(call_ensures(key_gen, (seed, activation_epoch, num_active_epochs), reported));
            }
            r
        },
    }
}

/// Restores a keypair from serialized keys. `parse_pk` and `parse_sk` decode
/// the canonical encodings; the secret key's decoder also reports its
/// windows. Either key failing to parse, or secret-key windows that break the
/// invariant, give `DeserializationFailed`. The two keys are not checked
/// against each other.
pub fn leansig_keypair_restore<P, S, FP, FS>(
    pk_bytes: &[u8],
    sk_bytes: &[u8],
    parse_pk: FP,
    parse_sk: FS,
) -> (r: Result<LeansigKeypair<P, S>, LeansigResult>) where
    FP: FnOnce(&[u8]) -> Option<P>,
    FS: FnOnce(&[u8]) -> Option<(S, EpochInterval, EpochInterval)>,

    requires
        call_requires(parse_pk, (pk_bytes,)),
        call_requires(parse_sk, (sk_bytes,)),
    ensures
        r matches Ok(kp) ==> kp.wf(),
        r matches Err(e) ==> e == LeansigResult::DeserializationFailed,
        exists|op: Option<P>| #[trigger]
            call_ensures(parse_pk, (pk_bytes,), op) && match op {
                None => r is Err,
                Some(pk) => exists|os: Option<(S, EpochInterval, EpochInterval)>| #[trigger]
                    call_ensures(parse_sk, (sk_bytes,), os) && restored(pk, os, r),
            },
{
    let op = parse_pk(pk_bytes);
    let ghost parsed_pk = op;
    let r = match op {
        None => Err(LeansigResult::DeserializationFailed),
        Some(pk) => {
            let os = parse_sk(sk_bytes);
            let ghost parsed_sk = os;
            let r = match os {
                None => Err(LeansigResult::DeserializationFailed),
                Some((sk, activation, prepared)) => {
                    match LeansigKeypair::from_parts(pk, sk, activation, prepared) {
                        Some(kp) => Ok(kp),
                        None => Err(LeansigResult::DeserializationFailed),
                    }
                },
            };
            proof {
                assert(call_ensures(parse_sk, (sk_bytes,), parsed_sk));
            }
            r
        },
    };
    proof {
        assert(call_ensures(parse_pk, (pk_bytes,), parsed_pk));
    }
    r
}

/// `r` is what restoring gives from public key `pk` and what the secret-key
/// decoder reported.
pub open spec fn restored<P, S>(
    pk: P,
    os: Option<(S, EpochInterval, EpochInterval)>,
    r: Result<LeansigKeypair<P, S>, LeansigResult>,
) -> bool {
    match os {
        None => r is Err,
        Some((sk, a, p)) => if (KeyWindows { activation: a, prepared: p }).wf() {
            r matches Ok(kp) && kp.pk == pk && kp.sk == sk && kp.windows.activation == a
                && kp.windows.prepared == p
        } else {
            r is Err
        },
    }
}

/// Signs a 32-byte message at `epoch`. The epoch is checked against the
/// prepared interval first, and only inside it is `scheme_sign` run; a
/// failure of the scheme gives `SigningFailed`. On success the signature's
/// canonical bytes are handed back as the scheme produced them.
pub fn leansig_sign<P, S, F>(kp: &LeansigKeypair<P, S>, epoch: u32, message: [u8; 32], scheme_sign: F) -> (r:
    Result<Vec<u8>, LeansigResult>) where F: FnOnce(&S, u32, [u8; 32]) -> Option<Vec<u8>>
    requires
        kp.wf(),
        call_requires(scheme_sign, (&kp.sk, epoch, message)),
    ensures
        !kp.windows.prepared.has(epoch as int) ==> r == Err::<Vec<u8>, LeansigResult>(
            LeansigResult::EpochNotPrepared,
        ),
        r is Ok ==> kp.windows.prepared.has(epoch as int),
        kp.windows.prepared.has(epoch as int) ==> exists|out: Option<Vec<u8>>| #[trigger]
            call_ensures(scheme_sign, (&kp.sk, epoch, message), out) && r == sign_protocol(
                kp.windows,
                epoch,
                out,
            ),
{
    let check = kp.windows.check_sign_epoch(epoch);
    if !check.is_ok() {
        return Err(check);
    }
    let out = scheme_sign(&kp.sk, epoch, message);
    let ghost produced = out;
    let r = signing_result(out);
    proof {
        assert(call_ensures(scheme_sign, (&kp.sk, epoch, message), produced));
    }
    r
}

/// Verifies a signature from its bytes against serialized public-key bytes.
/// `parse_pk` and `parse_sig` decode the canonical encodings and `holds`
/// checks the cryptographic binding of key, epoch, message and signature.
pub fn leansig_verify<P, G, FP, FG, FV>(
    pk_bytes: &[u8],
    epoch: u32,
    message: [u8; 32],
    sig_bytes: &[u8],
    parse_pk: FP,
    parse_sig: FG,
    holds: FV,
) -> (r: LeansigResult) where
    FP: FnOnce(&[u8]) -> Option<P>,
    FG: FnOnce(&[u8]) -> Option<G>,
    FV: FnOnce(&P, u32, [u8; 32], &G) -> bool,

    requires
        call_requires(parse_pk, (pk_bytes,)),
        call_requires(parse_sig, (sig_bytes,)),
        forall|pk: &P, sig: &G| #[trigger] call_requires(holds, (pk, epoch, message, sig)),
    ensures
        exists|op: Option<P>| #[trigger]
            call_ensures(parse_pk, (pk_bytes,), op) && match op {
                None => r == LeansigResult::DeserializationFailed,
                Some(pk) => verified_with(&pk, epoch, message, sig_bytes, parse_sig, holds, r),
            },
{
    let op = parse_pk(pk_bytes);
    let ghost parsed_pk = op;
    let r = match op {
        None => verification_result(false, true, false),
        Some(pk) => check_signature(&pk, epoch, message, sig_bytes, parse_sig, holds),
    };
    proof {
        assert(call_ensures(parse_pk, (pk_bytes,), parsed_pk));
    }
    r
}

/// Verifies a signature from its bytes against the public key of an open
/// keypair; otherwise as `leansig_verify`.
pub fn leansig_verify_with_keypair<P, S, G, FG, FV>(
    kp: &LeansigKeypair<P, S>,
    epoch: u32,
    message: [u8; 32],
    sig_bytes: &[u8],
    parse_sig: FG,
    holds: FV,
) -> (r: LeansigResult) where
    FG: FnOnce(&[u8]) -> Option<G>,
    FV: FnOnce(&P, u32, [u8; 32], &G) -> bool,

    requires
        call_requires(parse_sig, (sig_bytes,)),
        forall|pk: &P, sig: &G| #[trigger] call_requires(holds, (pk, epoch, message, sig)),
    ensures
        verified_with(&kp.pk, epoch, message, sig_bytes, parse_sig, holds, r),
{
    check_signature(&kp.pk, epoch, message, sig_bytes, parse_sig, holds)
}

/// `r` is what verifying against public key `pk` gives, for some outcome of
/// the signature decoder and of the binding check.
pub open spec fn verified_with<P, G, FG, FV>(
    pk: &P,
    epoch: u32,
    message: [u8; 32],
    sig_bytes: &[u8],
    parse_sig: FG,
    holds: FV,
    r: LeansigResult,
) -> bool where FG: FnOnce(&[u8]) -> Option<G>, FV: FnOnce(&P, u32, [u8; 32], &G) -> bool {
    exists|og: Option<G>| #[trigger]
        call_ensures(parse_sig, (sig_bytes,), og) && match og {
            None => r == verification_outcome(true, false, false),
            Some(sig) => exists|b: bool| #[trigger]
                call_ensures(holds, (pk, epoch, message, &sig), b) && r == verification_outcome(
                    true,
                    true,
                    b,
                ),
        }
}

fn check_signature<P, G, FG, FV>(
    pk: &P,
    epoch: u32,
    message: [u8; 32],
    sig_bytes: &[u8],
    parse_sig: FG,
    holds: FV,
) -> (r: LeansigResult) where
    FG: FnOnce(&[u8]) -> Option<G>,
    FV: FnOnce(&P, u32, [u8; 32], &G) -> bool,

    requires
        call_requires(parse_sig, (sig_bytes,)),
        forall|p: &P, sig: &G| #[trigger] call_requires(holds, (p, epoch, message, sig)),
    ensures
        verified_with(pk, epoch, message, sig_bytes, parse_sig, holds, r),
{
    let og = parse_sig(sig_bytes);
    let ghost parsed_sig = og;
    let r = match og {
        None => verification_result(true, false, false),
        Some(sig) => {
            let b = holds(pk, epoch, message, &sig);
            proof {
                assert(call_ensures(holds, (pk, epoch, message, &sig), b));
            }
            verification_result(true, true, b)
        },
    };
    proof {
        assert(call_ensures(parse_sig, (sig_bytes,), parsed_sig));
    }
    r
}

/// The windows after advancing with each prepared interval of `reports` in
/// turn.
pub open spec fn advance_all(w: KeyWindows, reports: Seq<EpochInterval>) -> KeyWindows
    decreases reports.len(),
{
    if reports.len() == 0 {
        w
    } else {
        advance_all(advance_spec(w, reports[0]), reports.drop_first())
    }
}

/// Over any sequence of advancements the activation interval stays fixed,
/// the prepared interval stays inside it, its start never decreases, and
/// once it has reached the activation interval's end it stays there.
pub proof fn lemma_advance_monotone(w: KeyWindows, reports: Seq<EpochInterval>)
    requires
        w.wf(),
    ensures
        advance_all(w, reports).wf(),
        advance_all(w, reports).activation == w.activation,
        w.prepared.start <= advance_all(w, reports).prepared.start,
        w.prepared.end <= advance_all(w, reports).prepared.end,
        advance_all(w, reports).prepared.end <= w.activation.end,
        w.exhausted() ==> advance_all(w, reports).exhausted(),
    decreases reports.len(),
{
    if reports.len() > 0 {
        lemma_advance_monotone(advance_spec(w, reports[0]), reports.drop_first());
    }
}

/// Signing succeeds only at an epoch of the prepared interval; at any other
/// epoch it gives `EpochNotPrepared` and no bytes, whatever the scheme would
/// have returned.
pub proof fn lemma_sign_needs_prepared_epoch(w: KeyWindows, epoch: u32, out: Option<Vec<u8>>)
    ensures
        sign_protocol(w, epoch, out) is Ok ==> w.prepared.has(epoch as int),
        !w.prepared.has(epoch as int) ==> sign_protocol(w, epoch, out) == Err::<
            Vec<u8>,
            LeansigResult,
        >(LeansigResult::EpochNotPrepared),
{
}

/// Restoring from the serialized keys of a keypair gives back its activation
/// and prepared intervals, wherever the secret key's encoding round-trips,
/// that is where its decoder reports the windows the key had.
pub proof fn lemma_restore_keeps_windows<P, S>(
    kp: LeansigKeypair<P, S>,
    pk: P,
    sk: S,
    r: Result<LeansigKeypair<P, S>, LeansigResult>,
)
    requires
        kp.wf(),
        restored(pk, Some((sk, kp.windows.activation, kp.windows.prepared)), r),
    ensures
        r matches Ok(k) && k.windows == kp.windows,
{
}

} // verus!
