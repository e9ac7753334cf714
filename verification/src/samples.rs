//! Layout of stereo sample buffers: interleaving two channels into one
//! buffer, and filling an output device buffer from looping channel buffers.
//! The sample type is generic; the player instantiates it with `f32`.

use vstd::prelude::*;
use vstd::arithmetic::div_mod::lemma_fundamental_div_mod_converse;

verus! {

/// `left` and `right` interleaved frame by frame: `l0 r0 l1 r1 ...`.
pub open spec fn interleaved<T>(left: Seq<T>, right: Seq<T>) -> Seq<T> {
    Seq::new(2 * left.len(), |k: int| if k % 2 == 0 { left[k / 2] } else { right[k / 2] })
}

/// A device buffer of `len` samples with `channels` samples per frame: frame
/// `f` plays position `f % n` of the channel buffers (of length `n`); its
/// first sample comes from `left`, the others from `right`.
pub open spec fn looped_frames<T>(len: nat, left: Seq<T>, right: Seq<T>, channels: nat) -> Seq<T> {
    Seq::new(
        len,
        |k: int|
            if k % (channels as int) == 0 {
                left[(k / (channels as int)) % (left.len() as int)]
            } else {
                right[(k / (channels as int)) % (left.len() as int)]
            },
    )
}

/// Interleaves two channels of equal length into one stereo buffer.
pub fn interleave_stereo<T: Copy>(left: &Vec<T>, right: &Vec<T>) -> (s: Vec<T>)
    requires
        left@.len() == right@.len(),
        2 * left@.len() <= usize::MAX,
    ensures
        s@ == interleaved(left@, right@),
        s@.len() == 2 * left@.len(),
        forall|i: int|
            0 <= i < left@.len() ==> s@[2 * i] == left@[i] && #[trigger] s@[2 * i + 1] == right@[i],
{
    let n = left.len();
    let mut s: Vec<T> = Vec::new();
    for i in 0..n
        invariant
            n == left@.len(),
            n == right@.len(),
            s@.len() == 2 * i,
            forall|k: int| 0 <= k < 2 * i ==> #[trigger] s@[k] == interleaved(left@, right@)[k],
    {
        s.push(left[i]);
        s.push(right[i]);
        proof {
            assert forall|k: int| 0 <= k < 2 * (i + 1) implies #[trigger] s@[k] == interleaved(
                left@,
                right@,
            )[k] by {
                if k == 2 * i {
                    lemma_fundamental_div_mod_converse(k, 2, i as int, 0);
                } else if k == 2 * i + 1 {
                    lemma_fundamental_div_mod_converse(k, 2, i as int, 1);
                }
            }
        }
    }
    assert(s@ =~= interleaved(left@, right@));
    proof {
        lemma_interleaved_frames(left@, right@);
    }
    s
}

/// Fills a device buffer of `len` samples, `channels` per frame, from
/// channel buffers that loop from their start.
pub fn looped_device_frames<T: Copy>(len: usize, left: &Vec<T>, right: &Vec<T>, channels: usize) -> (out: Vec<T>)
    requires
        channels > 0,
        left@.len() > 0,
        right@.len() == left@.len(),
    ensures
        out@ == looped_frames(len as nat, left@, right@, channels as nat),
        out@.len() == len,
        forall|k: int|
            0 <= k < len ==> #[trigger] out@[k] == if k % (channels as int) == 0 {
                left@[(k / (channels as int)) % (left@.len() as int)]
            } else {
                right@[(k / (channels as int)) % (left@.len() as int)]
            },
{
    let n = left.len();
    let mut out: Vec<T> = Vec::new();
    let mut ch: usize = 0;
    let mut clock: usize = 0;
    let ghost mut frame: int = 0;
    let ghost mut laps: int = 0;
    for k in 0..len
        invariant
            n == left@.len(),
            n == right@.len(),
            n > 0,
            channels > 0,
            ch < channels,
            clock < n,
            frame >= 0,
            laps >= 0,
            k == frame * channels + ch,
            frame == laps * n + clock,
            out@.len() == k,
            forall|j: int| 0 <= j < k ==> #[trigger] out@[j] == looped_frames(
                len as nat,
                left@,
                right@,
                channels as nat,
            )[j],
    {
        proof {
            lemma_fundamental_div_mod_converse(k as int, channels as int, frame, ch as int);
            lemma_fundamental_div_mod_converse(frame, n as int, laps, clock as int);
        }
        if ch == 0 {
            out.push(left[clock]);
        } else {
            out.push(right[clock]);
        }
        if ch + 1 == channels {
            ch = 0;
            proof {
                frame = frame + 1;
            }
            if clock + 1 == n {
                clock = 0;
                proof {
                    laps = laps + 1;
                    assert(frame == laps * n + clock) by (nonlinear_arith)
                        requires
                            frame == (laps - 1) * n + n,
                            clock == 0,
                    ;
                }
            } else {
                clock = clock + 1;
            }
            proof {
                assert(k + 1 == frame * channels + ch) by (nonlinear_arith)
                    requires
                        k == (frame - 1) * channels + (channels - 1),
                        ch == 0,
                ;
            }
        } else {
            ch = ch + 1;
        }
    }
    assert(out@ =~= looped_frames(len as nat, left@, right@, channels as nat));
    proof {
        lemma_looped_frames_channels(len as nat, left@, right@, channels as nat);
    }
    out
}

/// Sample `k` of a device buffer is the left channel's sample for the first
/// slot of each frame and the right channel's for the others, both taken at
/// the frame number modulo the channel buffers' length.
pub proof fn lemma_looped_frames_channels<T>(len: nat, left: Seq<T>, right: Seq<T>, channels: nat)
    requires
        channels > 0,
        left.len() > 0,
        right.len() == left.len(),
    ensures
        looped_frames(len, left, right, channels).len() == len,
        forall|k: int|
            0 <= k < len ==> #[trigger] looped_frames(len, left, right, channels)[k] == if k % (
            channels as int) == 0 {
                left[(k / (channels as int)) % (left.len() as int)]
            } else {
                right[(k / (channels as int)) % (left.len() as int)]
            },
{
}

/// Each frame of an interleaved buffer holds the left sample, then the right
/// one, and the buffer holds exactly the frames of the two channels.
pub proof fn lemma_interleaved_frames<T>(left: Seq<T>, right: Seq<T>)
    requires
        left.len() == right.len(),
    ensures
        interleaved(left, right).len() == 2 * left.len(),
        forall|i: int|
            0 <= i < left.len() ==> interleaved(left, right)[2 * i] == left[i] && #[trigger] interleaved(
                left,
                right,
            )[2 * i + 1] == right[i],
{
    assert forall|i: int| 0 <= i < left.len() implies interleaved(left, right)[2 * i] == left[i]
        && #[trigger] interleaved(left, right)[2 * i + 1] == right[i] by {
        lemma_fundamental_div_mod_converse(2 * i, 2, i, 0);
        lemma_fundamental_div_mod_converse(2 * i + 1, 2, i, 1);
    }
}

/// The device buffer repeats with the period of the channel buffers: the
/// sample `n * channels` positions later is the same.
pub proof fn lemma_looped_frames_periodic<T>(len: nat, left: Seq<T>, right: Seq<T>, channels: nat, k: int)
    requires
        channels > 0,
        left.len() > 0,
        0 <= k,
        k + left.len() * channels < len,
    ensures
        looped_frames(len, left, right, channels)[k + left.len() * channels] == looped_frames(
            len,
            left,
            right,
            channels,
        )[k],
{
    let c = channels as int;
    let n = left.len() as int;
    let f = k / c;
    let r = k % c;
    let q = f / n;
    let p = f % n;
    vstd::arithmetic::div_mod::lemma_fundamental_div_mod(k, c);
    vstd::arithmetic::div_mod::lemma_fundamental_div_mod(f, n);
    assert(k + n * c == (f + n) * c + r) by (nonlinear_arith)
        requires
            k == c * f + r,
    ;
    vstd::arithmetic::div_mod::lemma_mod_pos_bound(k, c);
    vstd::arithmetic::div_mod::lemma_mod_pos_bound(f, n);
    assert(f >= 0) by (nonlinear_arith)
        requires
            k >= 0,
            c > 0,
            f == k / c,
    ;
    lemma_fundamental_div_mod_converse(k + n * c, c, f + n, r);
    assert(f + n == (q + 1) * n + p) by (nonlinear_arith)
        requires
            f == n * q + p,
    ;
    lemma_fundamental_div_mod_converse(f + n, n, q + 1, p);
}

} // verus!
