//! Recognition of the two magic signatures that identify a JPEG XL stream:
//! the 2-byte raw codestream marker and the 12-byte boxed-container marker.
//!
//! The check is decided on the first bytes of the stream alone. With fewer
//! bytes than the shortest signature no decision is made; once enough bytes
//! are present to rule out both signatures, the stream is rejected.

use vstd::prelude::*;

verus! {

/// The 2-byte raw codestream signature.
pub open spec fn codestream_signature() -> Seq<u8> {
    seq![0xffu8, 0x0au8]
}

/// The 12-byte boxed-container signature.
pub open spec fn container_signature() -> Seq<u8> {
    seq![0x00u8, 0x00u8, 0x00u8, 0x0cu8, 0x4au8, 0x58u8, 0x4cu8, 0x20u8, 0x0du8, 0x0au8, 0x87u8, 0x0au8]
}

/// Outcome of inspecting the first bytes of a stream. `NeedMore` carries the
/// number of bytes still missing before a decision is certain; it is always
/// positive.
#[derive(Clone, Copy, Debug, PartialEq, Eq, Structural)]
pub enum SignatureCheck {
    NeedMore(usize),
    Valid,
    Invalid,
}

/// The first `n` bytes of `p` agree with the container signature.
pub open spec fn agrees_with_container(p: Seq<u8>, n: int) -> bool {
    forall|i: int| 0 <= i < n ==> p[i] == container_signature()[i]
}

/// `p` begins with the full codestream signature.
pub open spec fn starts_with_codestream(p: Seq<u8>) -> bool {
    p.len() >= 2 && p[0] == 0xffu8 && p[1] == 0x0au8
}

/// `p` begins with the full container signature.
pub open spec fn starts_with_container(p: Seq<u8>) -> bool {
    p.len() >= 12 && agrees_with_container(p, 12)
}

/// What inspecting the prefix `p` decides. With fewer than 2 bytes nothing is
/// decided yet. With at least 2 bytes, the codestream signature decides
/// validity at once; otherwise the bytes must agree with the container
/// signature, which is accepted in full at 12 bytes and leaves the check
/// undecided before that.
pub open spec fn signature_status(p: Seq<u8>) -> SignatureCheck {
    if p.len() < 2 {
        SignatureCheck::NeedMore((2 - p.len()) as usize)
    } else if starts_with_codestream(p) {
        SignatureCheck::Valid
    } else if p.len() >= 12 {
        if agrees_with_container(p, 12) {
            SignatureCheck::Valid
        } else {
            SignatureCheck::Invalid
        }
    } else {
        if agrees_with_container(p, p.len() as int) {
            SignatureCheck::NeedMore((12 - p.len()) as usize)
        } else {
            SignatureCheck::Invalid
        }
    }
}

/// One byte of the container signature.
fn container_signature_byte(i: usize) -> (r: u8)
    requires
        i < 12,
    ensures
        r == container_signature()[i as int],
{
    match i {
        0 => 0x00,
        1 => 0x00,
        2 => 0x00,
        3 => 0x0c,
        4 => 0x4a,
        5 => 0x58,
        6 => 0x4c,
        7 => 0x20,
        8 => 0x0d,
        9 => 0x0a,
        10 => 0x87,
        _ => 0x0a,
    }
}

/// Inspects the first bytes of a stream and decides whether they carry a
/// valid signature, cannot yet be decided, or must be rejected.
pub fn check_signature(p: &Vec<u8>) -> (r: SignatureCheck)
    ensures
        r == signature_status(p@),
{
    if p.len() < 2 {
        return SignatureCheck::NeedMore(2 - p.len());
    }
    if p[0] == 0xff && p[1] == 0x0a {
        return SignatureCheck::Valid;
    }
    let n = if p.len() < 12 {
        p.len()
    } else {
        12
    };
    let mut i: usize = 0;
    while i < n
        invariant
            0 <= i <= n,
            n == if p@.len() < 12 { p@.len() as int } else { 12int },
            agrees_with_container(p@, i as int),
            p@.len() >= 2,
            !starts_with_codestream(p@),
        decreases n - i,
    {
        if p[i] != container_signature_byte(i) {
            proof {
                let n0: int = if p@.len() < 12 {
                    p@.len() as int
                } else {
                    12int
                };
                assert(!agrees_with_container(p@, n0)) by {
                    if agrees_with_container(p@, n0) {
                        assert(p@[i as int] == container_signature()[i as int]);
                    }
                }
            }
            return SignatureCheck::Invalid;
        }
        i += 1;
    }
    if p.len() >= 12 {
        SignatureCheck::Valid
    } else {
        SignatureCheck::NeedMore(12 - p.len())
    }
}

/// Any input shorter than the shortest valid signature is never rejected:
/// the check only asks for more data, and the amount it asks for is positive.
pub proof fn lemma_short_input_needs_more(p: Seq<u8>)
    requires
        p.len() < 2,
    ensures
        signature_status(p) is NeedMore,
        signature_status(p)->NeedMore_0 > 0,
{
}

/// Whenever the check asks for more data, the suggested amount is positive.
pub proof fn lemma_need_more_is_positive(p: Seq<u8>)
    ensures
        signature_status(p) is NeedMore ==> signature_status(p)->NeedMore_0 > 0,
{
}

/// Once at least 2 bytes are present, an input whose first bytes match
/// neither the codestream signature nor a prefix of the container signature
/// is rejected.
pub proof fn lemma_mismatch_is_invalid(p: Seq<u8>)
    requires
        p.len() >= 2,
        !starts_with_codestream(p),
        !agrees_with_container(p, if p.len() < 12 { p.len() as int } else { 12int }),
    ensures
        signature_status(p) == SignatureCheck::Invalid,
{
}

/// The check accepts exactly the streams that begin with one of the two
/// signatures, once enough bytes are present to decide.
pub proof fn lemma_valid_iff_signature(p: Seq<u8>)
    ensures
        signature_status(p) == SignatureCheck::Valid <==> (starts_with_codestream(p)
            || starts_with_container(p)),
{
}

} // verus!
