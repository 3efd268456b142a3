use vstd::prelude::*;
use crate::hexcode::{is_hex, hex_bytes, hex_decode};

verus! {

/// Whether the Ed25519 scheme accepts `sig` as a signature of `msg` under
/// the 32-byte public key `key`. Verification is a pure function of the
/// three byte strings; its definition is the scheme itself, so it is left
/// unstated and everything downstream is proved for either outcome.
pub uninterp spec fn ed25519_verifies(key: Seq<u8>, msg: Seq<u8>, sig: Seq<u8>) -> bool;

/// The fixed public key against which every request's signature is checked.
/// Loaded once at startup and never changed afterwards.
pub struct PublicKey {
    bytes: Vec<u8>,
}

impl View for PublicKey {
    type V = Seq<u8>;

    closed spec fn view(&self) -> Seq<u8> {
        self.bytes@
    }
}

impl PublicKey {
    /// A well-formed key holds exactly 32 bytes.
    pub open spec fn wf(&self) -> bool {
        self@.len() == 32
    }

    /// Loads the key from the hex-encoded form configuration supplies:
    /// accepted exactly when the text is well-formed hexadecimal for 32 bytes.
    pub fn from_hex_bytes(s: &[u8]) -> (r: Option<PublicKey>)
        ensures
            r is Some <==> (is_hex(s@) && hex_bytes(s@).len() == 32),
            r matches Some(k) ==> k.wf() && k@ == hex_bytes(s@),
    {
        match hex_decode(s) {
            Some(v) => if v.len() == 32 {
                Some(PublicKey { bytes: v })
            } else {
                None
            },
            None => None,
        }
    }
}

/// Relies on ed25519_dalek: `PublicKey::from_bytes` and `Signature::try_from`
/// parse the key and the signature, and `Verifier::verify` checks the
/// signature against the message. A key or signature the scheme cannot
/// parse verifies nothing, so refusal to parse reads as `false`.
#[verifier::external_body]
fn ed25519_verify(key: &[u8], msg: &[u8], sig: &[u8]) -> (r: bool)
    requires
        key@.len() == 32,
        sig@.len() == 64,
    ensures
        r == ed25519_verifies(key@, msg@, sig@),
{
    let pk = match ed25519_dalek::PublicKey::from_bytes(key) {
        Ok(pk) => pk,
        Err(_) => return false,
    };
    let parsed = match ed25519_dalek::Signature::try_from(sig) {
        Ok(parsed) => parsed,
        Err(_) => return false,
    };
    ed25519_dalek::Verifier::verify(&pk, msg, &parsed).is_ok()
}

/// The Signature Verifier: checks `signature` against the canonical signed
/// message, the timestamp bytes followed by the body bytes with nothing
/// between them.
pub fn verify(key: &PublicKey, timestamp: &[u8], body: &[u8], signature: &[u8]) -> (r: bool)
    requires
        key.wf(),
        signature@.len() == 64,
    ensures
        r == ed25519_verifies(key@, timestamp@ + body@, signature@),
{
    let mut msg: Vec<u8> = Vec::new();
    let mut i: usize = 0;
    while i < timestamp.len()
        invariant
            i <= timestamp@.len(),
            msg@ == timestamp@.take(i as int),
        decreases timestamp@.len() - i,
    {
        proof {
            assert(timestamp@.take(i + 1) =~= timestamp@.take(i as int).push(timestamp@[i as int]));
        }
        msg.push(timestamp[i]);
        i += 1;
    }
    proof {
        assert(timestamp@.take(timestamp@.len() as int) =~= timestamp@);
        assert(timestamp@ + body@.take(0) =~= timestamp@);
    }
    let mut j: usize = 0;
    while j < body.len()
        invariant
            j <= body@.len(),
            msg@ == timestamp@ + body@.take(j as int),
        decreases body@.len() - j,
    {
        proof {
            assert(timestamp@ + body@.take(j + 1) =~= (timestamp@ + body@.take(j as int)).push(
                body@[j as int],
            ));
        }
        msg.push(body[j]);
        j += 1;
    }
    proof {
        assert(timestamp@ + body@.take(body@.len() as int) =~= timestamp@ + body@);
    }
    ed25519_verify(key.bytes.as_slice(), msg.as_slice(), signature)
}

} // verus!
