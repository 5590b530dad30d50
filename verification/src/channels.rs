//! Classification of extra channels: the ordered sequence of channel kind
//! tags reported by the image metadata is searched for the first channel
//! tagged alpha and the first tagged black; all others are ignored. The
//! found index is the channel's position in any per-pixel extra-sample
//! layout and is kept for assembling CMYK inputs later.

use vstd::prelude::*;

verus! {

/// The kind tag of one extra channel.
#[derive(Clone, Copy, Debug, PartialEq, Eq, Structural)]
pub enum ChannelKind {
    Alpha,
    Black,
    Other,
}

/// Which extra channel (if any) carries the alpha samples and which carries
/// the black (K) samples.
#[derive(Clone, Copy, Debug, PartialEq, Eq)]
pub struct ChannelClassification {
    pub alpha_index: Option<usize>,
    pub black_index: Option<usize>,
}

/// `r` names the first index of `kinds` tagged `k`, or nothing when no
/// channel carries that tag.
pub open spec fn is_first_of_kind(kinds: Seq<ChannelKind>, k: ChannelKind, r: Option<usize>) -> bool {
    match r {
        Some(i) => i < kinds.len() && kinds[i as int] == k && (forall|j: int|
            0 <= j < i ==> kinds[j] != k),
        None => forall|j: int| 0 <= j < kinds.len() ==> kinds[j] != k,
    }
}

/// Finds the first channel tagged alpha and the first tagged black in the
/// ordered extra-channel descriptor sequence; every other tag is ignored.
pub fn classify_channels(kinds: &Vec<ChannelKind>) -> (r: ChannelClassification)
    ensures
        is_first_of_kind(kinds@, ChannelKind::Alpha, r.alpha_index),
        is_first_of_kind(kinds@, ChannelKind::Black, r.black_index),
{
    let mut alpha: Option<usize> = None;
    let mut black: Option<usize> = None;
    let n = kinds.len();
    let mut i: usize = 0;
    while i < n
        invariant
            i <= n,
            n == kinds@.len(),
            is_first_of_kind(kinds@.subrange(0, i as int), ChannelKind::Alpha, alpha),
            is_first_of_kind(kinds@.subrange(0, i as int), ChannelKind::Black, black),
        decreases n - i,
    {
        let ghost pre = kinds@.subrange(0, i as int);
        let ghost post = kinds@.subrange(0, i as int + 1);
        proof {
            assert(forall|j: int| 0 <= j < i ==> post[j] == pre[j]);
            assert(post[i as int] == kinds@[i as int]);
        }
        match kinds[i] {
            ChannelKind::Alpha => {
                if alpha.is_none() {
                    alpha = Some(i);
                }
            },
            ChannelKind::Black => {
                if black.is_none() {
                    black = Some(i);
                }
            },
            ChannelKind::Other => {},
        }
        i += 1;
    }
    proof {
        assert(kinds@.subrange(0, n as int) =~= kinds@);
    }
    ChannelClassification { alpha_index: alpha, black_index: black }
}

} // verus!
