//! The cryptographic boundary of the run attestation verifier: the digest
//! over the run message, recovery of the signer's compressed public key,
//! and the well-formedness check that rules out signatures the recovery
//! primitive does not accept.

use vstd::prelude::*;

use crate::types::HashValue;
use crate::types::PublicKey;

verus! {

/// The value of a byte sequence read as a big-endian unsigned integer.
pub open spec fn be_val(s: Seq<u8>) -> nat
    decreases s.len(),
{
    if s.len() == 0 {
        0
    } else {
        be_val(s.drop_last()) * 256 + s.last() as nat
    }
}

/// 256 raised to the given power.
pub open spec fn pow256(n: nat) -> nat
    decreases n,
{
    if n == 0 {
        1
    } else {
        256 * pow256((n - 1) as nat)
    }
}

proof fn lemma_be_val_bound(s: Seq<u8>)
    ensures
        be_val(s) < pow256(s.len()),
    decreases s.len(),
{
    if s.len() > 0 {
        lemma_be_val_bound(s.drop_last());
    }
}

proof fn lemma_be_val_append(a: Seq<u8>, b: Seq<u8>)
    ensures
        be_val(a + b) == be_val(a) * pow256(b.len()) + be_val(b),
    decreases b.len(),
{
    if b.len() == 0 {
        assert(a + b =~= a);
        assert(pow256(0) == 1);
        assert(be_val(b) == 0);
        assert(be_val(a) * pow256(b.len()) == be_val(a)) by (nonlinear_arith)
            requires
                pow256(b.len()) == 1,
        ;
    } else {
        assert((a + b).drop_last() =~= a + b.drop_last());
        assert((a + b).last() == b.last());
        lemma_be_val_append(a, b.drop_last());
        assert(be_val(a + b) == (be_val(a) * pow256((b.len() - 1) as nat) + be_val(b.drop_last()))
            * 256 + b.last());
        assert((be_val(a) * pow256((b.len() - 1) as nat) + be_val(b.drop_last())) * 256 == be_val(a)
            * pow256(b.len()) + be_val(b.drop_last()) * 256) by (nonlinear_arith)
            requires
                pow256(b.len()) == 256 * pow256((b.len() - 1) as nat),
        ;
        assert(be_val(b) == be_val(b.drop_last()) * 256 + b.last());
    }
}

/// The group order of the secp256k1 curve.
pub open spec fn secp256k1_order() -> nat {
    0xFFFFFFFFFFFFFFFFFFFFFFFFFFFFFFFEBAAEDCE6AF48A03BBFD25E8CD0364141nat
}

/// The high 128 bits of the secp256k1 group order.
pub const ORDER_HI: u128 = 0xFFFFFFFFFFFFFFFFFFFFFFFFFFFFFFFE;

/// The low 128 bits of the secp256k1 group order.
pub const ORDER_LO: u128 = 0xBAAEDCE6AF48A03BBFD25E8CD0364141;

/// A 32-byte scalar is canonical when its value lies below the group order;
/// the recovery primitive accepts only such scalars.
pub open spec fn scalar_canonical(s: Seq<u8>) -> bool {
    be_val(s) < secp256k1_order()
}

/// The recovery-id byte values the recovery primitive accepts: the raw ids
/// 0 to 3, or the same shifted by 27 as signing conventions do.
pub open spec fn recovery_byte_ok(b: u8) -> bool {
    b <= 3 || (27 <= b && b <= 30)
}

/// A detached 65-byte signature is well formed when both scalars are
/// canonical and the trailing recovery byte is one the primitive accepts.
pub open spec fn signature_well_formed(sig: Seq<u8>) -> bool {
    &&& sig.len() == 65
    &&& scalar_canonical(sig.subrange(0, 32))
    &&& scalar_canonical(sig.subrange(32, 64))
    &&& recovery_byte_ok(sig[64])
}

/// Reads 16 bytes of `sig`, starting at `start`, as a big-endian integer.
fn be_u128_of(sig: &[u8; 65], start: usize) -> (r: u128)
    requires
        start + 16 <= 65,
    ensures
        r == be_val(sig@.subrange(start as int, start as int + 16)),
{
    let mut acc: u128 = 0;
    let mut i: usize = 0;
    while i < 16
        invariant
            start + 16 <= 65,
            i <= 16,
            acc == be_val(sig@.subrange(start as int, start as int + i)),
            acc < pow256(i as nat),
        decreases 16 - i,
    {
        let ghost pre = sig@.subrange(start as int, start as int + i);
        let ghost cur = sig@.subrange(start as int, start as int + i + 1);
        proof {
            assert(cur.drop_last() =~= pre);
            assert(cur.last() == sig@[start as int + i]);
            assert(acc * 256 + 255 < 256 * pow256(i as nat)) by (nonlinear_arith)
                requires
                    acc < pow256(i as nat),
            ;
            lemma_pow256_le(i as nat, 15);
            lemma_pow256_16();
        }
        acc = acc * 256 + (sig[start + i] as u128);
        i += 1;
    }
    acc
}

proof fn lemma_pow256_le(a: nat, b: nat)
    requires
        a <= b,
    ensures
        pow256(a) <= pow256(b),
    decreases b,
{
    if a < b {
        lemma_pow256_le(a, (b - 1) as nat);
        assert(pow256(b) == 256 * pow256((b - 1) as nat));
    }
}

proof fn lemma_pow256_16()
    ensures
        pow256(16) == 0x100000000000000000000000000000000nat,
{
    reveal_with_fuel(pow256, 17);
}

proof fn lemma_scalar_halves(s: Seq<u8>)
    requires
        s.len() == 32,
    ensures
        be_val(s) == be_val(s.subrange(0, 16)) * 0x100000000000000000000000000000000nat + be_val(
            s.subrange(16, 32),
        ),
{
    assert(s =~= s.subrange(0, 16) + s.subrange(16, 32));
    lemma_be_val_append(s.subrange(0, 16), s.subrange(16, 32));
    lemma_pow256_16();
}

proof fn lemma_halves_order(hi: u128, lo: u128)
    requires
        lo < 0x100000000000000000000000000000000nat,
    ensures
        (hi * 0x100000000000000000000000000000000nat + lo < secp256k1_order()) <==> (hi < ORDER_HI
            || (hi == ORDER_HI && lo < ORDER_LO)),
{
    assert(secp256k1_order() == ORDER_HI * 0x100000000000000000000000000000000nat + ORDER_LO);
}

/// Checks that a detached signature has the shape the recovery primitive
/// accepts: canonical scalars and a valid recovery byte.
pub fn check_signature_form(sig: &[u8; 65]) -> (r: bool)
    ensures
        r == signature_well_formed(sig@),
{
    let rb = sig[64];
    if !(rb <= 3 || (rb >= 27 && rb <= 30)) {
        return false;
    }
    let r_hi = be_u128_of(sig, 0);
    let r_lo = be_u128_of(sig, 16);
    let s_hi = be_u128_of(sig, 32);
    let s_lo = be_u128_of(sig, 48);
    proof {
        lemma_scalar_halves(sig@.subrange(0, 32));
        lemma_scalar_halves(sig@.subrange(32, 64));
        assert(sig@.subrange(0, 32).subrange(0, 16) =~= sig@.subrange(0, 16));
        assert(sig@.subrange(0, 32).subrange(16, 32) =~= sig@.subrange(16, 32));
        assert(sig@.subrange(32, 64).subrange(0, 16) =~= sig@.subrange(32, 48));
        assert(sig@.subrange(32, 64).subrange(16, 32) =~= sig@.subrange(48, 64));
        lemma_be_val_bound(sig@.subrange(16, 32));
        lemma_be_val_bound(sig@.subrange(48, 64));
        lemma_pow256_16();
        lemma_halves_order(r_hi, r_lo);
        lemma_halves_order(s_hi, s_lo);
    }
    let r_ok = r_hi < ORDER_HI || (r_hi == ORDER_HI && r_lo < ORDER_LO);
    let s_ok = s_hi < ORDER_HI || (s_hi == ORDER_HI && s_lo < ORDER_LO);
    r_ok && s_ok
}

/// The SHA-256 digest of a byte sequence.
pub uninterp spec fn sha2_256_digest(input: Seq<u8>) -> Seq<u8>;

/// Relies on ink_env's `hash_bytes` with the `Sha2x256` hasher: the 32-byte
/// digest is a function of the input bytes alone.
#[verifier::external_body]
pub(crate) fn sha2_256(input: &[u8]) -> (r: [u8; 32])
    ensures
        r@ == sha2_256_digest(input@),
{
    let mut output = [0u8; 32];
    ink::env::hash_bytes::<ink::env::hash::Sha2x256>(input, &mut output);
    output
}

/// The compressed public key that signed a digest, recovered from a
/// detached signature, or nothing when recovery fails.
pub uninterp spec fn recovered_signer(sig: Seq<u8>, digest: Seq<u8>) -> Option<Seq<u8>>;

/// Relies on ink_env's `ecdsa_recover`: for a well-formed signature the
/// recovered compressed key is a function of the signature and the digest
/// alone, and a failed recovery is reported as an error. Signatures that are
/// not well formed are ruled out by `requires`, because the off-chain engine
/// treats them as fatal rather than returning an error.
#[verifier::external_body]
pub(crate) fn recover_signer(sig: &[u8; 65], digest: &[u8; 32]) -> (r: Option<PublicKey>)
    requires
        signature_well_formed(sig@),
    ensures
        match r {
            Some(key) => recovered_signer(sig@, digest@) == Some(key@),
            None => recovered_signer(sig@, digest@) is None,
        },
{
    let mut output = [0u8; 33];
    match ink::env::ecdsa_recover(sig, digest, &mut output) {
        Ok(()) => Some(output),
        Err(_) => None,
    }
}

/// The 8 bytes of a 64-bit run id, most significant first.
pub open spec fn u64_be_bytes(v: u64) -> Seq<u8> {
    seq![
        ((v >> 56) & 0xff) as u8,
        ((v >> 48) & 0xff) as u8,
        ((v >> 40) & 0xff) as u8,
        ((v >> 32) & 0xff) as u8,
        ((v >> 24) & 0xff) as u8,
        ((v >> 16) & 0xff) as u8,
        ((v >> 8) & 0xff) as u8,
        (v & 0xff) as u8,
    ]
}

/// The run message whose digest the attestation signature covers: the
/// workflow content hash followed by the run id in big-endian bytes.
pub open spec fn run_message(workflow: Seq<u8>, run_id: u64) -> Seq<u8> {
    workflow + u64_be_bytes(run_id)
}

/// Builds the run message for a workflow content hash and a run id.
pub fn build_run_message(workflow: &HashValue, run_id: u64) -> (r: Vec<u8>)
    ensures
        r@ == run_message(workflow@, run_id),
{
    let mut msg: Vec<u8> = Vec::new();
    let mut i: usize = 0;
    while i < 32
        invariant
            i <= 32,
            msg@ =~= workflow@.subrange(0, i as int),
        decreases 32 - i,
    {
        msg.push(workflow[i]);
        i += 1;
    }
    proof {
        assert(msg@ =~= workflow@);
    }
    msg.push(((run_id >> 56) & 0xff) as u8);
    msg.push(((run_id >> 48) & 0xff) as u8);
    msg.push(((run_id >> 40) & 0xff) as u8);
    msg.push(((run_id >> 32) & 0xff) as u8);
    msg.push(((run_id >> 24) & 0xff) as u8);
    msg.push(((run_id >> 16) & 0xff) as u8);
    msg.push(((run_id >> 8) & 0xff) as u8);
    msg.push((run_id & 0xff) as u8);
    proof {
        assert(msg@ =~= run_message(workflow@, run_id));
    }
    msg
}

} // verus!
