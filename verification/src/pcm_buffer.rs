//! PCM buffer geometry: which sample regions a buffer layout exposes, whether regions
//! overlap, and splitting sample data into per-channel vectors.

use vstd::prelude::*;
use vstd::arithmetic::div_mod::{lemma_fundamental_div_mod, lemma_fundamental_div_mod_converse};

verus! {

/// The integer fields of a PCM buffer's memory layout, as reported by the bridge.
#[derive(Debug, Clone, Copy, PartialEq, Eq, Structural)]
pub struct PCMBufferLayoutInfo {
    /// Distance, in samples, between consecutive frames of one channel.
    pub stride: u32,
    pub channel_count: u32,
    pub frame_length: u32,
    pub frame_capacity: u32,
    /// Number of buffers in the underlying `AudioBufferList`.
    pub buffer_count: u32,
    /// Smallest byte size among those buffers.
    pub minimum_buffer_byte_size: u32,
    pub interleaved: bool,
}

/// The sample regions a layout exposes: `region_count` regions of `samples_per_region`
/// samples each; interleaved data is one region shared by `interleaved_channel_count`
/// channels.
#[derive(Debug, Clone, Copy, PartialEq, Eq, Structural)]
pub struct ChannelGeometry {
    pub region_count: usize,
    pub samples_per_region: usize,
    pub interleaved_channel_count: Option<usize>,
}

/// The frames that hold valid data: the frame length, capped by the capacity.
pub open spec fn valid_frames(layout: PCMBufferLayoutInfo) -> int {
    if layout.frame_length <= layout.frame_capacity {
        layout.frame_length as int
    } else {
        layout.frame_capacity as int
    }
}

/// The geometry a layout exposes for samples of `sample_size` bytes, if it is usable.
///
/// Interleaved data must sit in one buffer whose stride equals the (non-zero) channel
/// count; it exposes the valid frames' samples, capped by what the smallest buffer holds
/// and rounded down to whole frames. Deinterleaved data must have one buffer per channel
/// and stride 1; each channel exposes the valid frames, capped by the smallest buffer.
pub open spec fn channel_geometry_spec(layout: PCMBufferLayoutInfo, sample_size: usize) -> Option<
    ChannelGeometry,
> {
    let frames = valid_frames(layout);
    let limit = layout.minimum_buffer_byte_size as int / sample_size as int;
    if layout.interleaved {
        if layout.buffer_count != 1 || layout.stride != layout.channel_count || layout.stride
            == 0 {
            None
        } else if frames * layout.stride > usize::MAX {
            None
        } else {
            let samples = if frames * layout.stride <= limit {
                frames * layout.stride
            } else {
                limit
            };
            Some(
                ChannelGeometry {
                    region_count: 1,
                    samples_per_region: (samples - samples % (layout.stride as int)) as usize,
                    interleaved_channel_count: Some(layout.channel_count as usize),
                },
            )
        }
    } else {
        if layout.buffer_count != layout.channel_count || layout.stride != 1 {
            None
        } else {
            Some(
                ChannelGeometry {
                    region_count: layout.channel_count as usize,
                    samples_per_region: (if frames <= limit {
                        frames
                    } else {
                        limit
                    }) as usize,
                    interleaved_channel_count: None,
                },
            )
        }
    }
}

/// Computes the regions a layout exposes for samples of `sample_size` bytes, or `None`
/// when the layout is not one the sample views support.
pub fn channel_geometry(layout: &PCMBufferLayoutInfo, sample_size: usize) -> (r: Option<
    ChannelGeometry,
>)
    requires
        sample_size > 0,
    ensures
        r == channel_geometry_spec(*layout, sample_size),
{
    let channel_count = layout.channel_count as usize;
    let buffer_count = layout.buffer_count as usize;
    let stride = layout.stride as usize;
    let frames: usize = if layout.frame_length <= layout.frame_capacity {
        layout.frame_length as usize
    } else {
        layout.frame_capacity as usize
    };
    let byte_limit = (layout.minimum_buffer_byte_size as usize) / sample_size;
    if layout.interleaved {
        if buffer_count != 1 || stride != channel_count || stride == 0 {
            return None;
        }
        let total = frames.checked_mul(stride);
        match total {
            None => None,
            Some(total) => {
                let samples = if total <= byte_limit {
                    total
                } else {
                    byte_limit
                };
                assert(samples % stride <= samples) by (nonlinear_arith)
                    requires
                        stride > 0,
                ;
                Some(
                    ChannelGeometry {
                        region_count: 1,
                        samples_per_region: samples - samples % stride,
                        interleaved_channel_count: Some(channel_count),
                    },
                )
            },
        }
    } else {
        if buffer_count != channel_count || stride != 1 {
            return None;
        }
        let samples = if frames <= byte_limit {
            frames
        } else {
            byte_limit
        };
        Some(
            ChannelGeometry {
                region_count: channel_count,
                samples_per_region: samples,
                interleaved_channel_count: None,
            },
        )
    }
}

/// Whether the byte ranges `[start, start + length)` of the regions starting at `starts`
/// are pairwise disjoint.
pub open spec fn regions_disjoint_spec(starts: Seq<usize>, length: usize) -> bool {
    forall|i: int, j: int|
        0 <= i < starts.len() && 0 <= j < starts.len() && i != j ==> #[trigger] starts[i]
            + length <= #[trigger] starts[j] || starts[j] + length <= starts[i]
}

/// Returns whether regions of `length` bytes starting at `starts` never overlap.
pub fn regions_are_disjoint(starts: &Vec<usize>, length: usize) -> (r: bool)
    requires
        forall|i: int| 0 <= i < starts@.len() ==> #[trigger] starts@[i] + length <= usize::MAX,
    ensures
        r == regions_disjoint_spec(starts@, length),
{
    let n = starts.len();
    let mut i: usize = 0;
    while i < n
        invariant
            n == starts@.len(),
            i <= n,
            forall|i: int| 0 <= i < starts@.len() ==> #[trigger] starts@[i] + length <= usize::MAX,
            forall|a: int, b: int|
                0 <= a < i && 0 <= b < n && a != b ==> #[trigger] starts@[a] + length
                    <= #[trigger] starts@[b] || starts@[b] + length <= starts@[a],
        decreases n - i,
    {
        let mut j: usize = 0;
        while j < n
            invariant
                n == starts@.len(),
                i < n,
                j <= n,
                forall|i: int| 0 <= i < starts@.len() ==> #[trigger] starts@[i] + length <= usize::MAX,
                forall|a: int, b: int|
                    0 <= a < i && 0 <= b < n && a != b ==> #[trigger] starts@[a] + length
                        <= #[trigger] starts@[b] || starts@[b] + length <= starts@[a],
                forall|b: int|
                    0 <= b < j && i != b ==> starts@[i as int] + length <= #[trigger] starts@[b]
                        || starts@[b] + length <= starts@[i as int],
            decreases n - j,
        {
            if i != j {
                let a = starts[i];
                let b = starts[j];
                if !(a + length <= b || b + length <= a) {
                    assert(!regions_disjoint_spec(starts@, length)) by {
                        assert(starts@[i as int] == a && starts@[j as int] == b);
                    }
                    return false;
                }
            }
            j = j + 1;
        }
        i = i + 1;
    }
    true
}

/// Every region a layout exposes stays inside the memory it describes: its bytes fit in
/// the smallest buffer, and it holds no more than the valid frames (of every channel,
/// for interleaved data).
pub proof fn lemma_channel_geometry_stays_in_bounds(layout: PCMBufferLayoutInfo, sample_size: usize)
    requires
        sample_size > 0,
        channel_geometry_spec(layout, sample_size) is Some,
    ensures
        ({
            let g = channel_geometry_spec(layout, sample_size)->0;
            &&& g.samples_per_region * sample_size <= layout.minimum_buffer_byte_size
            &&& layout.interleaved ==> g.samples_per_region <= valid_frames(layout) * layout.channel_count
            &&& !layout.interleaved ==> g.samples_per_region <= valid_frames(layout)
            &&& !layout.interleaved ==> g.region_count == layout.channel_count
            &&& layout.interleaved ==> g.region_count == 1
        }),
{
    let g = channel_geometry_spec(layout, sample_size)->0;
    let bytes = layout.minimum_buffer_byte_size as int;
    let size = sample_size as int;
    let limit = bytes / size;
    lemma_fundamental_div_mod(bytes, size);
    assert(limit * size <= bytes) by (nonlinear_arith)
        requires
            bytes == size * limit + bytes % size,
            0 <= bytes % size,
    ;
    let n = g.samples_per_region as int;
    if layout.interleaved {
        let cc = layout.stride as int;
        let frames = valid_frames(layout);
        let t = if frames * cc <= limit {
            frames * cc
        } else {
            limit
        };
        lemma_fundamental_div_mod(t, cc);
        assert(0 <= n <= t) by (nonlinear_arith)
            requires
                t >= 0,
                cc > 0,
                t == cc * (t / cc) + t % cc,
                0 <= t % cc < cc,
                n == t - t % cc,
        ;
        assert(n * size <= limit * size) by (nonlinear_arith)
            requires
                n <= limit,
                size > 0,
        ;
    } else {
        assert(n <= limit);
        assert(n * size <= limit * size) by (nonlinear_arith)
            requires
                n <= limit,
                size > 0,
        ;
    }
}

/// Which layouts are usable and how much of each one is exposed: a deinterleaved layout
/// (one buffer per channel, stride 1) exposes, per channel, every valid frame (the frame
/// length capped by the capacity) that fits in the smallest buffer; an interleaved layout
/// (one buffer whose stride is the non-zero channel count) exposes the most whole frames
/// that are valid and fit in the buffer. Any other layout is refused.
pub proof fn lemma_channel_geometry_exposes_every_fitting_frame(
    layout: PCMBufferLayoutInfo,
    sample_size: usize,
)
    requires
        sample_size > 0,
    ensures
        ({
            let frames: int = if layout.frame_length <= layout.frame_capacity {
                layout.frame_length as int
            } else {
                layout.frame_capacity as int
            };
            let cc = layout.channel_count as int;
            let bytes = layout.minimum_buffer_byte_size as int;
            let size = sample_size as int;
            let usable = if layout.interleaved {
                layout.buffer_count == 1 && layout.stride == layout.channel_count && layout.stride
                    != 0 && frames * cc <= usize::MAX
            } else {
                layout.buffer_count == layout.channel_count && layout.stride == 1
            };
            let g = channel_geometry_spec(layout, sample_size)->0;
            let n = g.samples_per_region as int;
            &&& (channel_geometry_spec(layout, sample_size) is Some <==> usable)
            &&& (usable && !layout.interleaved) ==> {
                &&& g.region_count == layout.channel_count
                &&& g.interleaved_channel_count is None
                &&& n == if frames <= bytes / size {
                    frames
                } else {
                    bytes / size
                }
            }
            &&& (usable && layout.interleaved) ==> {
                &&& g.region_count == 1
                &&& g.interleaved_channel_count == Some(layout.channel_count as usize)
                &&& n % cc == 0
                &&& n <= frames * cc
                &&& n * size <= bytes
                &&& (n == frames * cc || (n + cc) * size > bytes)
            }
        }),
{
    let frames = valid_frames(layout);
    let bytes = layout.minimum_buffer_byte_size as int;
    let size = sample_size as int;
    let limit = bytes / size;
    let g = channel_geometry_spec(layout, sample_size)->0;
    let n = g.samples_per_region as int;
    lemma_fundamental_div_mod(bytes, size);
    assert(limit * size <= bytes < (limit + 1) * size) by (nonlinear_arith)
        requires
            bytes == size * limit + bytes % size,
            0 <= bytes % size < size,
    ;
    if layout.interleaved && channel_geometry_spec(layout, sample_size) is Some {
        let cc = layout.stride as int;
        let total = frames * cc;
        let t = if total <= limit {
            total
        } else {
            limit
        };
        assert(t >= 0) by (nonlinear_arith)
            requires
                frames >= 0,
                cc > 0,
                limit >= 0,
                t == total || t == limit,
                total == frames * cc,
        ;
        lemma_fundamental_div_mod(t, cc);
        let q = t / cc;
        let r = t % cc;
        assert(n == q * cc && q >= 0) by (nonlinear_arith)
            requires
                t == cc * q + r,
                0 <= r < cc,
                n == t - r,
                t >= 0,
                cc > 0,
        ;
        lemma_fundamental_div_mod_converse(n, cc, q, 0);
        assert(n <= t);
        assert(n * size <= limit * size) by (nonlinear_arith)
            requires
                n <= limit,
                size > 0,
        ;
        if total <= limit {
            lemma_fundamental_div_mod_converse(total, cc, frames, 0);
            assert(n == total);
        } else {
            assert((n + cc) * size >= (limit + 1) * size) by (nonlinear_arith)
                requires
                    n + cc > limit,
                    size > 0,
            ;
        }
    }
}

/// Interleaved geometry always exposes whole frames: its sample count is a multiple of
/// the (non-zero) channel count, so splitting such a region gives every channel the same
/// number of samples, one per exposed frame.
pub proof fn lemma_interleaved_geometry_splits_evenly<T>(
    layout: PCMBufferLayoutInfo,
    sample_size: usize,
    samples: Seq<T>,
)
    requires
        sample_size > 0,
        channel_geometry_spec(layout, sample_size) is Some,
        channel_geometry_spec(layout, sample_size)->0.interleaved_channel_count is Some,
        samples.len() == channel_geometry_spec(layout, sample_size)->0.samples_per_region,
    ensures
        ({
            let g = channel_geometry_spec(layout, sample_size)->0;
            let cc = g.interleaved_channel_count->0 as int;
            &&& cc > 0
            &&& g.samples_per_region as int % cc == 0
            &&& forall|c: int|
                0 <= c < cc ==> #[trigger] interleaved_channel(samples, cc, c).len()
                    == g.samples_per_region as int / cc
        }),
{
    let g = channel_geometry_spec(layout, sample_size)->0;
    let cc = layout.stride as int;
    let frames = valid_frames(layout);
    let limit = layout.minimum_buffer_byte_size as int / sample_size as int;
    let s = if frames * cc <= limit {
        frames * cc
    } else {
        limit
    };
    let n = s - s % cc;
    let m = s / cc;
    assert(cc > 0);
    lemma_fundamental_div_mod(s, cc);
    assert(0 <= n <= s) by (nonlinear_arith)
        requires
            s >= 0,
            cc > 0,
            s == cc * m + s % cc,
            0 <= s % cc < cc,
            n == s - s % cc,
            m == s / cc,
    ;
    assert(s <= usize::MAX);
    assert(g.samples_per_region as int == n);
    assert(n == m * cc) by (nonlinear_arith)
        requires
            s == cc * m + s % cc,
            n == s - s % cc,
    ;
    lemma_fundamental_div_mod_converse(n, cc, m, 0);
    assert forall|c: int| 0 <= c < cc implies #[trigger] interleaved_channel(samples, cc, c).len()
        == n / cc by {
        if n > 0 {
            assert(m >= 1) by (nonlinear_arith)
                requires
                    n == m * cc,
                    n > 0,
                    cc > 0,
            ;
            assert(n - c - 1 == (m - 1) * cc + (cc - c - 1)) by (nonlinear_arith)
                requires
                    n == m * cc,
            ;
            lemma_fundamental_div_mod_converse(n - c - 1, cc, m - 1, cc - c - 1);
        }
    }
}

/// Whether byte address `x` lies in the region of `length` bytes starting at `start`.
pub open spec fn in_region(start: usize, length: usize, x: int) -> bool {
    start <= x < start + length
}

/// Two regions of `length` bytes count as overlapping exactly when some byte address lies
/// in both of them.
pub proof fn lemma_regions_disjoint_means_no_shared_byte(starts: Seq<usize>, length: usize)
    ensures
        regions_disjoint_spec(starts, length) <==> !(exists|i: int, j: int, x: int|
            0 <= i < starts.len() && 0 <= j < starts.len() && i != j && #[trigger] in_region(
                starts[i],
                length,
                x,
            ) && #[trigger] in_region(starts[j], length, x)),
{
    if regions_disjoint_spec(starts, length) {
        if exists|i: int, j: int, x: int|
            0 <= i < starts.len() && 0 <= j < starts.len() && i != j && #[trigger] in_region(
                starts[i],
                length,
                x,
            ) && #[trigger] in_region(starts[j], length, x) {
            let (i, j, x) = choose|i: int, j: int, x: int|
                0 <= i < starts.len() && 0 <= j < starts.len() && i != j && #[trigger] in_region(
                    starts[i],
                    length,
                    x,
                ) && #[trigger] in_region(starts[j], length, x);
            assert(starts[i] + length <= starts[j] || starts[j] + length <= starts[i]);
        }
    } else {
        let (i, j) = choose|i: int, j: int|
            !(0 <= i < starts.len() && 0 <= j < starts.len() && i != j ==> #[trigger] starts[i]
                + length <= #[trigger] starts[j] || starts[j] + length <= starts[i]);
        let x: int = if starts[i] <= starts[j] {
            starts[j] as int
        } else {
            starts[i] as int
        };
        assert(in_region(starts[i], length, x) && in_region(starts[j], length, x));
    }
}

/// Borrowed sample data of a PCM buffer.
#[derive(Debug, PartialEq, Eq)]
pub enum PCMChannelData<'a, T> {
    /// One slice per channel.
    Deinterleaved(Vec<&'a [T]>),
    /// One slice holding the frames of all channels, channel by channel within a frame.
    Interleaved { channel_count: usize, samples: &'a [T] },
}

/// Mutably borrowed sample data of a PCM buffer.
#[derive(Debug, PartialEq, Eq)]
pub enum PCMChannelDataMut<'a, T> {
    /// One slice per channel.
    Deinterleaved(Vec<&'a mut [T]>),
    /// One slice holding the frames of all channels, channel by channel within a frame.
    Interleaved { channel_count: usize, samples: &'a mut [T] },
}

/// The number of samples that belong to `channel` in interleaved data of `len` samples
/// and `channel_count` channels: the indices `channel, channel + channel_count, ...`
/// below `len`.
pub open spec fn interleaved_channel_len(len: int, channel_count: int, channel: int) -> int {
    if channel < len {
        (len - channel - 1) / channel_count + 1
    } else {
        0
    }
}

/// The samples of `channel` in interleaved data.
pub open spec fn interleaved_channel<T>(samples: Seq<T>, channel_count: int, channel: int) -> Seq<
    T,
> {
    Seq::new(
        interleaved_channel_len(samples.len() as int, channel_count, channel) as nat,
        |k: int| samples[channel + k * channel_count],
    )
}

/// The per-channel sample sequences of the data: each deinterleaved slice as it is, or
/// for interleaved data, channel `c` takes every `channel_count`-th sample from index `c`.
pub open spec fn channels_of<T>(data: PCMChannelData<'_, T>) -> Seq<Seq<T>> {
    match data {
        PCMChannelData::Deinterleaved(channels) => Seq::new(
            channels@.len(),
            |i: int| channels@[i]@,
        ),
        PCMChannelData::Interleaved { channel_count, samples } => Seq::new(
            channel_count as nat,
            |c: int| interleaved_channel(samples@, channel_count as int, c),
        ),
    }
}

fn copy_slice<T: Copy>(s: &[T]) -> (r: Vec<T>)
    ensures
        r@ == s@,
{
    let mut r: Vec<T> = Vec::new();
    let mut i: usize = 0;
    while i < s.len()
        invariant
            i <= s@.len(),
            r@ == s@.subrange(0, i as int),
        decreases s@.len() - i,
    {
        r.push(s[i]);
        i = i + 1;
    }
    assert(r@ =~= s@);
    r
}

fn take_channel<T: Copy>(samples: &[T], channel_count: usize, channel: usize) -> (r: Vec<T>)
    requires
        channel < channel_count,
    ensures
        r@ == interleaved_channel(samples@, channel_count as int, channel as int),
{
    let mut r: Vec<T> = Vec::new();
    let ghost len = samples@.len() as int;
    let ghost cc = channel_count as int;
    let ghost c = channel as int;
    let mut index: usize = channel;
    let mut k: usize = 0;
    let mut done = channel >= samples.len();
    while !done
        invariant
            channel < channel_count,
            len == samples@.len(),
            cc == channel_count,
            c == channel,
            !done ==> index == c + k * cc && index < len && k <= index,
            done ==> len <= c + k * cc,
            r@.len() == k,
            forall|m: int| 0 <= m < k ==> #[trigger] r@[m] == samples@[c + m * cc],
            k > 0 ==> c + (k - 1) * cc < len,
        decreases len - k,
    {
        r.push(samples[index]);
        proof {
            assert((k + 1) * cc == k * cc + cc) by (nonlinear_arith);
            assert(k * cc >= k) by (nonlinear_arith)
                requires
                    cc >= 1,
                    k >= 0,
            ;
        }
        k = k + 1;
        if samples.len() - index > channel_count {
            index = index + channel_count;
        } else {
            done = true;
        }
    }
    proof {
        if c < len {
            assert(interleaved_channel_len(len, cc, c) == k) by (nonlinear_arith)
                requires
                    c + (k - 1) * cc < len,
                    len <= c + k * cc,
                    k > 0,
                    cc > 0,
                    c < len,
                    interleaved_channel_len(len, cc, c) == (len - c - 1) / cc + 1,
            ;
        } else {
            assert(k == 0);
        }
        assert(r@ =~= interleaved_channel(samples@, cc, c));
    }
    r
}

/// Splitting interleaved data loses and moves no sample: sample `i` is sample
/// `i / channel_count` of channel `i % channel_count`.
pub proof fn lemma_interleaved_split_keeps_every_sample<T>(samples: Seq<T>, channel_count: int, i: int)
    requires
        channel_count > 0,
        0 <= i < samples.len(),
    ensures
        ({
            let c = i % channel_count;
            let k = i / channel_count;
            &&& 0 <= c < channel_count
            &&& 0 <= k < interleaved_channel(samples, channel_count, c).len()
            &&& interleaved_channel(samples, channel_count, c)[k] == samples[i]
        }),
{
    let cc = channel_count;
    let len = samples.len() as int;
    let c = i % cc;
    let k = i / cc;
    lemma_fundamental_div_mod(i, cc);
    assert(0 <= c < cc);
    assert(k >= 0 && c + k * cc == i) by (nonlinear_arith)
        requires
            i == cc * k + c,
            0 <= c < cc,
            i >= 0,
            cc > 0,
    ;
    let q = (len - c - 1) / cc;
    let r = (len - c - 1) % cc;
    lemma_fundamental_div_mod(len - c - 1, cc);
    assert(k <= q) by (nonlinear_arith)
        requires
            len - c - 1 == cc * q + r,
            0 <= r < cc,
            c + k * cc == i,
            i < len,
            cc > 0,
    ;
    assert(interleaved_channel_len(len, cc, c) == q + 1);
}

/// Copies the data into one vector of samples per channel.
pub fn split_channels<T: Copy>(data: &PCMChannelData<'_, T>) -> (r: Vec<Vec<T>>)
    ensures
        r@.len() == channels_of(*data).len(),
        forall|i: int| 0 <= i < r@.len() ==> #[trigger] r@[i]@ == channels_of(*data)[i],
{
    let mut r: Vec<Vec<T>> = Vec::new();
    match data {
        PCMChannelData::Deinterleaved(channels) => {
            let mut i: usize = 0;
            while i < channels.len()
                invariant
                    i <= channels@.len(),
                    r@.len() == i,
                    forall|m: int| 0 <= m < i ==> #[trigger] r@[m]@ == channels@[m]@,
                decreases channels@.len() - i,
            {
                r.push(copy_slice(channels[i]));
                i = i + 1;
            }
        },
        PCMChannelData::Interleaved { channel_count, samples } => {
            let mut c: usize = 0;
            while c < *channel_count
                invariant
                    c <= *channel_count,
                    r@.len() == c,
                    forall|m: int|
                        0 <= m < c ==> #[trigger] r@[m]@ == interleaved_channel(
                            samples@,
                            *channel_count as int,
                            m,
                        ),
                decreases *channel_count - c,
            {
                r.push(take_channel(samples, *channel_count, c));
                c = c + 1;
            }
        },
    }
    r
}

} // verus!
