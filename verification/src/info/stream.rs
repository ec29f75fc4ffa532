//! Facts of a stream: rates, durations, layouts, codecs and formats.

use crate::text::{same_text, trim, trim_string};
use vstd::prelude::*;
use vstd::string::*;

verus! {

/// A rate or time base as a fraction.
#[derive(Debug, Clone, Copy, PartialEq, Eq, Structural)]
pub struct Rational {
    pub num: i64,
    pub den: i64,
}

/// The `i`-th nominal frame rate.
pub open spec fn nominal_rate(i: int) -> Rational {
    if i == 0 {
        Rational { num: 10, den: 1 }
    } else if i == 1 {
        Rational { num: 12, den: 1 }
    } else if i == 2 {
        Rational { num: 25, den: 2 }
    } else if i == 3 {
        Rational { num: 15, den: 1 }
    } else if i == 4 {
        Rational { num: 24_000, den: 1_001 }
    } else if i == 5 {
        Rational { num: 24, den: 1 }
    } else if i == 6 {
        Rational { num: 25, den: 1 }
    } else if i == 7 {
        Rational { num: 30_000, den: 1_001 }
    } else if i == 8 {
        Rational { num: 30, den: 1 }
    } else if i == 9 {
        Rational { num: 50, den: 1 }
    } else if i == 10 {
        Rational { num: 60_000, den: 1_001 }
    } else {
        Rational { num: 60, den: 1 }
    }
}

/// Distance of an integer from zero.
pub open spec fn magnitude(n: int) -> int {
    if n < 0 {
        -n
    } else {
        n
    }
}

/// Whether a rate is within 100 parts per million of a nominal one.
pub open spec fn near(rate: Rational, nominal: Rational) -> bool {
    magnitude(rate.num * nominal.den - nominal.num * rate.den) * 1_000_000 <= nominal.num
        * magnitude(rate.den as int) * 100
}

/// The first nominal rate from index `from` on that a rate is near, else the rate.
pub open spec fn canonical_from(rate: Rational, from: nat) -> Rational
    decreases 12 - from,
{
    if from >= 12 {
        rate
    } else if near(rate, nominal_rate(from as int)) {
        nominal_rate(from as int)
    } else {
        canonical_from(rate, from + 1)
    }
}

fn nominal(i: usize) -> (r: Rational)
    requires
        i < 12,
    ensures
        r == nominal_rate(i as int),
        0 < r.num <= 60_000,
        0 < r.den <= 1_001,
{
    if i == 0 {
        Rational { num: 10, den: 1 }
    } else if i == 1 {
        Rational { num: 12, den: 1 }
    } else if i == 2 {
        Rational { num: 25, den: 2 }
    } else if i == 3 {
        Rational { num: 15, den: 1 }
    } else if i == 4 {
        Rational { num: 24_000, den: 1_001 }
    } else if i == 5 {
        Rational { num: 24, den: 1 }
    } else if i == 6 {
        Rational { num: 25, den: 1 }
    } else if i == 7 {
        Rational { num: 30_000, den: 1_001 }
    } else if i == 8 {
        Rational { num: 30, den: 1 }
    } else if i == 9 {
        Rational { num: 50, den: 1 }
    } else if i == 10 {
        Rational { num: 60_000, den: 1_001 }
    } else {
        Rational { num: 60, den: 1 }
    }
}

fn is_near(rate: Rational, target: Rational) -> (r: bool)
    requires
        0 < target.num <= 60_000,
        0 < target.den <= 1_001,
    ensures
        r == near(rate, target),
{
    let a: i128 = rate.num as i128;
    let b: i128 = rate.den as i128;
    let n: i128 = target.num as i128;
    let d: i128 = target.den as i128;
    assert(-0x1_0000_0000_0000_0000_0000 <= a * d <= 0x1_0000_0000_0000_0000_0000)
        by (nonlinear_arith)
        requires
            -0x8000_0000_0000_0000 <= a <= 0x7fff_ffff_ffff_ffff,
            0 < d <= 1_001,
    ;
    assert(-0x1_0000_0000_0000_0000_0000 <= n * b <= 0x1_0000_0000_0000_0000_0000)
        by (nonlinear_arith)
        requires
            -0x8000_0000_0000_0000 <= b <= 0x7fff_ffff_ffff_ffff,
            0 < n <= 60_000,
    ;
    let cross: i128 = a * d - n * b;
    let error: i128 = if cross < 0 {
        -cross
    } else {
        cross
    };
    let span: i128 = if b < 0 {
        -b
    } else {
        b
    };
    assert(0 <= n * span <= 0x1_0000_0000_0000_0000_0000) by (nonlinear_arith)
        requires
            0 <= span <= 0x8000_0000_0000_0000,
            0 < n <= 60_000,
    ;
    error * 1_000_000 <= n * span * 100
}

/// Snaps a rate to the nominal one that it was meant for. Containers quantize
/// rates; anything outside the tolerance stays exact.
pub fn canonicalize_frame_rate(frame_rate: Rational) -> (r: Rational)
    ensures
        r == canonical_from(frame_rate, 0),
{
    let mut i: usize = 0;
    while i < 12
        invariant
            i <= 12,
            canonical_from(frame_rate, 0) == canonical_from(frame_rate, i as nat),
        decreases 12 - i,
    {
        let candidate = nominal(i);
        if is_near(frame_rate, candidate) {
            return candidate;
        }
        i = i + 1;
    }
    frame_rate
}

proof fn lemma_nominal_rates_apart(i: int, j: int)
    requires
        0 <= j < i < 12,
    ensures
        !near(nominal_rate(i), nominal_rate(j)),
{
    let (a, b) = (nominal_rate(i).num, nominal_rate(i).den);
    let (n, d) = (nominal_rate(j).num, nominal_rate(j).den);
    // Times 2002 every nominal rate is an integer, and they differ by 48 at least.
    let v = nominal_rate_times_2002(i);
    let w = nominal_rate_times_2002(j);
    assert(2002 * a == v * b);
    assert(2002 * n == w * d);
    assert(v - w >= 48 && w <= 120_000);
    assert(2002 * (a * d - n * b) == (v - w) * (b * d)) by (nonlinear_arith)
        requires
            2002 * a == v * b,
            2002 * n == w * d,
    ;
    assert(2002 * (n * b) == w * (b * d)) by (nonlinear_arith)
        requires
            2002 * n == w * d,
    ;
    assert(b * d > 0) by (nonlinear_arith)
        requires
            b > 0,
            d > 0,
    ;
    assert((v - w) * (b * d) >= 48 * (b * d) && w * (b * d) <= 120_000 * (b * d))
        by (nonlinear_arith)
        requires
            v - w >= 48,
            w <= 120_000,
            b * d > 0,
    ;
}

/// A nominal rate times 2002, the least number that makes all of them integers.
spec fn nominal_rate_times_2002(i: int) -> int {
    if i == 0 {
        20_020
    } else if i == 1 {
        24_024
    } else if i == 2 {
        25_025
    } else if i == 3 {
        30_030
    } else if i == 4 {
        48_000
    } else if i == 5 {
        48_048
    } else if i == 6 {
        50_050
    } else if i == 7 {
        60_000
    } else if i == 8 {
        60_060
    } else if i == 9 {
        100_100
    } else if i == 10 {
        120_000
    } else {
        120_120
    }
}

proof fn lemma_nominal_found(i: int, from: nat)
    requires
        0 <= from <= i < 12,
    ensures
        canonical_from(nominal_rate(i), from) == nominal_rate(i),
    decreases i - from,
{
    let rate = nominal_rate(i);
    if from == i {
        assert(rate.num * rate.den - rate.num * rate.den == 0);
        assert(rate.num * magnitude(rate.den as int) >= 0) by (nonlinear_arith)
            requires
                rate.num > 0,
                magnitude(rate.den as int) >= 0,
        ;
    } else {
        lemma_nominal_rates_apart(i, from as int);
        lemma_nominal_found(i, from + 1);
    }
}

proof fn lemma_canonical_cases(rate: Rational, from: nat)
    requires
        from <= 12,
    ensures
        canonical_from(rate, from) == rate || exists|i: int|
            0 <= i < 12 && canonical_from(rate, from) == #[trigger] nominal_rate(i),
    decreases 12 - from,
{
    if from < 12 && !near(rate, nominal_rate(from as int)) {
        lemma_canonical_cases(rate, from + 1);
    }
}

/// Snapping a rate that was snapped before changes nothing.
pub proof fn canonical_rates_are_stable(rate: Rational)
    ensures
        canonical_from(canonical_from(rate, 0), 0) == canonical_from(rate, 0),
{
    lemma_canonical_cases(rate, 0);
    if canonical_from(rate, 0) != rate {
        let i = choose|i: int|
            0 <= i < 12 && canonical_from(rate, 0) == #[trigger] nominal_rate(i);
        lemma_nominal_found(i, 0);
    }
}

/// A frame rate and whether the container proved it.
pub fn map_rational(numerator: i32, denominator: i32) -> (r: (Rational, bool))
    ensures
        r == (if numerator <= 0 || denominator <= 0 {
            (Rational { num: 0, den: 1 }, false)
        } else {
            (
                canonical_from(Rational { num: numerator as i64, den: denominator as i64 }, 0),
                true,
            )
        }),
        r.1 <==> numerator > 0 && denominator > 0,
        !r.1 ==> r.0.num == 0 && r.0.den == 1,
{
    if numerator <= 0 || denominator <= 0 {
        (Rational { num: 0, den: 1 }, false)
    } else {
        (
            canonicalize_frame_rate(Rational { num: numerator as i64, den: denominator as i64 }),
            true,
        )
    }
}

/// Nanoseconds of a stream that lasts some ticks of its time base.
pub open spec fn nanos_of_ticks(ticks: i64, numerator: i32, denominator: i32) -> Option<u64> {
    if ticks <= 0 || numerator <= 0 || denominator <= 0 {
        None
    } else {
        let nanos = ticks * numerator * 1_000_000_000 / (denominator as int);
        if nanos > u64::MAX {
            Some(u64::MAX)
        } else {
            Some(nanos as u64)
        }
    }
}

/// Nanoseconds that a stream lasts, where its duration and time base say so.
pub fn duration_from_stream_ticks(ticks: i64, numerator: i32, denominator: i32) -> (r: Option<u64>)
    ensures
        r == nanos_of_ticks(ticks, numerator, denominator),
{
    if ticks <= 0 || numerator <= 0 || denominator <= 0 {
        return None;
    }
    let t: u128 = ticks as u128;
    let n: u128 = numerator as u128;
    let d: u128 = denominator as u128;
    assert(t * n <= 0x7fff_ffff_ffff_ffff * 0x7fff_ffff) by (nonlinear_arith)
        requires
            t <= 0x7fff_ffff_ffff_ffff,
            n <= 0x7fff_ffff,
    ;
    assert(t * n == ticks * numerator);
    let scaled: u128 = t * n * 1_000_000_000;
    let nanos: u128 = scaled / d;
    assert(nanos == ticks * numerator * 1_000_000_000 / (denominator as int));
    if nanos > u64::MAX as u128 {
        Some(u64::MAX)
    } else {
        Some(nanos as u64)
    }
}

/// Speaker positions that layouts are made of.
#[derive(Debug, Clone, Copy, PartialEq, Eq, Structural)]
pub enum AudioChannelPosition {
    FrontLeft,
    FrontRight,
    FrontCenter,
    LowFrequencyEffects,
    BackLeft,
    BackRight,
    FrontLeftOfCenter,
    FrontRightOfCenter,
    BackCenter,
    SideLeft,
    SideRight,
    TopCenter,
    TopFrontLeft,
    TopFrontCenter,
    TopFrontRight,
    TopBackLeft,
    TopBackCenter,
    TopBackRight,
    WideLeft,
    WideRight,
    LowFrequencyEffects2,
    TopSideLeft,
    TopSideRight,
}

/// An exact signal layout.
#[derive(Debug, Clone, PartialEq, Eq)]
pub enum AudioChannelLayout {
    /// One signal that belongs to no speaker.
    Mono,
    /// One signal per speaker, in the order of native channel masks.
    Speakers(Vec<AudioChannelPosition>),
}

/// What is known of the channels of a stream.
#[derive(Debug, Clone, PartialEq, Eq)]
pub enum ChannelLayout {
    Exact(AudioChannelLayout),
    Unspecified(u8),
    Unsupported(u8),
}

/// The speaker that a bit of a native channel mask stands for.
pub open spec fn speaker_of_bit(bit: int) -> Option<AudioChannelPosition> {
    if bit == 0 {
        Some(AudioChannelPosition::FrontLeft)
    } else if bit == 1 {
        Some(AudioChannelPosition::FrontRight)
    } else if bit == 2 {
        Some(AudioChannelPosition::FrontCenter)
    } else if bit == 3 {
        Some(AudioChannelPosition::LowFrequencyEffects)
    } else if bit == 4 {
        Some(AudioChannelPosition::BackLeft)
    } else if bit == 5 {
        Some(AudioChannelPosition::BackRight)
    } else if bit == 6 {
        Some(AudioChannelPosition::FrontLeftOfCenter)
    } else if bit == 7 {
        Some(AudioChannelPosition::FrontRightOfCenter)
    } else if bit == 8 {
        Some(AudioChannelPosition::BackCenter)
    } else if bit == 9 {
        Some(AudioChannelPosition::SideLeft)
    } else if bit == 10 {
        Some(AudioChannelPosition::SideRight)
    } else if bit == 11 {
        Some(AudioChannelPosition::TopCenter)
    } else if bit == 12 {
        Some(AudioChannelPosition::TopFrontLeft)
    } else if bit == 13 {
        Some(AudioChannelPosition::TopFrontCenter)
    } else if bit == 14 {
        Some(AudioChannelPosition::TopFrontRight)
    } else if bit == 15 {
        Some(AudioChannelPosition::TopBackLeft)
    } else if bit == 16 {
        Some(AudioChannelPosition::TopBackCenter)
    } else if bit == 17 {
        Some(AudioChannelPosition::TopBackRight)
    } else if bit == 31 {
        Some(AudioChannelPosition::WideLeft)
    } else if bit == 32 {
        Some(AudioChannelPosition::WideRight)
    } else if bit == 35 {
        Some(AudioChannelPosition::LowFrequencyEffects2)
    } else if bit == 36 {
        Some(AudioChannelPosition::TopSideLeft)
    } else if bit == 37 {
        Some(AudioChannelPosition::TopSideRight)
    } else {
        None
    }
}

fn speaker(bit: u32) -> (r: Option<AudioChannelPosition>)
    ensures
        r == speaker_of_bit(bit as int),
{
    if bit == 0 {
        Some(AudioChannelPosition::FrontLeft)
    } else if bit == 1 {
        Some(AudioChannelPosition::FrontRight)
    } else if bit == 2 {
        Some(AudioChannelPosition::FrontCenter)
    } else if bit == 3 {
        Some(AudioChannelPosition::LowFrequencyEffects)
    } else if bit == 4 {
        Some(AudioChannelPosition::BackLeft)
    } else if bit == 5 {
        Some(AudioChannelPosition::BackRight)
    } else if bit == 6 {
        Some(AudioChannelPosition::FrontLeftOfCenter)
    } else if bit == 7 {
        Some(AudioChannelPosition::FrontRightOfCenter)
    } else if bit == 8 {
        Some(AudioChannelPosition::BackCenter)
    } else if bit == 9 {
        Some(AudioChannelPosition::SideLeft)
    } else if bit == 10 {
        Some(AudioChannelPosition::SideRight)
    } else if bit == 11 {
        Some(AudioChannelPosition::TopCenter)
    } else if bit == 12 {
        Some(AudioChannelPosition::TopFrontLeft)
    } else if bit == 13 {
        Some(AudioChannelPosition::TopFrontCenter)
    } else if bit == 14 {
        Some(AudioChannelPosition::TopFrontRight)
    } else if bit == 15 {
        Some(AudioChannelPosition::TopBackLeft)
    } else if bit == 16 {
        Some(AudioChannelPosition::TopBackCenter)
    } else if bit == 17 {
        Some(AudioChannelPosition::TopBackRight)
    } else if bit == 31 {
        Some(AudioChannelPosition::WideLeft)
    } else if bit == 32 {
        Some(AudioChannelPosition::WideRight)
    } else if bit == 35 {
        Some(AudioChannelPosition::LowFrequencyEffects2)
    } else if bit == 36 {
        Some(AudioChannelPosition::TopSideLeft)
    } else if bit == 37 {
        Some(AudioChannelPosition::TopSideRight)
    } else {
        None
    }
}

/// Whether a bit of a mask is set.
pub open spec fn bit_set(mask: u64, bit: int) -> bool {
    (mask >> bit) & 1 == 1
}

/// Number of set bits among the first `n`.
pub open spec fn bits_below(mask: u64, n: nat) -> nat
    decreases n,
{
    if n == 0 {
        0
    } else if bit_set(mask, n - 1) {
        bits_below(mask, (n - 1) as nat) + 1
    } else {
        bits_below(mask, (n - 1) as nat)
    }
}

/// Speakers of the set bits among the first `n`, where each has one.
pub open spec fn speakers_below(mask: u64, n: nat) -> Option<Seq<AudioChannelPosition>>
    decreases n,
{
    if n == 0 {
        Some(seq![])
    } else {
        match speakers_below(mask, (n - 1) as nat) {
            None => None,
            Some(found) => if !bit_set(mask, n - 1) {
                Some(found)
            } else {
                match speaker_of_bit(n - 1) {
                    Some(position) => Some(found.push(position)),
                    None => None,
                }
            },
        }
    }
}

/// Mathematical reading of a signal layout: mono, or its speakers.
pub open spec fn layout_view(layout: AudioChannelLayout) -> Option<Seq<AudioChannelPosition>> {
    match layout {
        AudioChannelLayout::Mono => None,
        AudioChannelLayout::Speakers(positions) => Some(positions@),
    }
}

/// The layout of a native channel mask, where it has as many channels as reported
/// and each of them is a known speaker. Front center alone is mono.
pub fn exact_signal_layout_from_ffmpeg_mask(mask: u64, reported_channels: u8) -> (r: Option<
    AudioChannelLayout,
>)
    ensures
        match r {
            Some(layout) => {
                &&& reported_channels > 0
                &&& bits_below(mask, 64) == reported_channels
                &&& if mask == 4 {
                    layout_view(layout) is None
                } else {
                    layout_view(layout) is Some && layout_view(layout) == speakers_below(mask, 64)
                }
            },
            None => reported_channels == 0 || bits_below(mask, 64) != reported_channels || (mask
                != 4 && speakers_below(mask, 64) is None),
        },
{
    let mut positions: Vec<AudioChannelPosition> = Vec::new();
    let mut known = true;
    let mut count: u32 = 0;
    let mut i: u32 = 0;
    while i < 64
        invariant
            i <= 64,
            count <= i,
            count == bits_below(mask, i as nat),
            known == (speakers_below(mask, i as nat) is Some),
            known ==> speakers_below(mask, i as nat) == Some(positions@),
        decreases 64 - i,
    {
        if (mask >> i) & 1 == 1 {
            count = count + 1;
            match speaker(i) {
                Some(position) => {
                    positions.push(position);
                },
                None => {
                    known = false;
                },
            }
        }
        i = i + 1;
    }
    if reported_channels == 0 || reported_channels as u32 != count {
        return None;
    }
    if mask == 4 {
        return Some(AudioChannelLayout::Mono);
    }
    if !known {
        return None;
    }
    Some(AudioChannelLayout::Speakers(positions))
}

/// Mathematical reading of a channel layout: the exact layout, if it is known.
pub open spec fn is_exact(layout: ChannelLayout, mask: u64) -> bool {
    layout matches ChannelLayout::Exact(exact) && (if mask == 4 {
        layout_view(exact) is None
    } else {
        layout_view(exact) is Some && layout_view(exact) == speakers_below(mask, 64)
    })
}

/// The channel layout of a stream, from what its decoder reports.
pub fn map_channel_layout(empty: bool, native_order: bool, mask: u64, reported_channels: u8) -> (r:
    ChannelLayout)
    ensures
        if empty {
            r == ChannelLayout::Unspecified(reported_channels)
        } else if native_order && reported_channels > 0 && bits_below(mask, 64)
            == reported_channels && (mask == 4 || speakers_below(mask, 64) is Some) {
            is_exact(r, mask)
        } else {
            r == ChannelLayout::Unsupported(reported_channels)
        },
{
    if empty {
        ChannelLayout::Unspecified(reported_channels)
    } else if !native_order {
        ChannelLayout::Unsupported(reported_channels)
    } else {
        match exact_signal_layout_from_ffmpeg_mask(mask, reported_channels) {
            Some(layout) => ChannelLayout::Exact(layout),
            None => ChannelLayout::Unsupported(reported_channels),
        }
    }
}

/// A label of a stream, where it holds more than white space.
pub fn normalized_stream_metadata(value: Option<&str>) -> (r: Option<String>)
    ensures
        match value {
            Some(text) => if trim(text@).len() == 0 {
                r is None
            } else {
                r matches Some(label) && label@ == trim(text@)
            },
            None => r is None,
        },
{
    match value {
        Some(text) => {
            let trimmed = trim_string(text);
            if trimmed.as_str().is_empty() {
                None
            } else {
                Some(trimmed)
            }
        },
        None => None,
    }
}

/// Flavours of ProRes.
#[derive(Debug, Clone, Copy, PartialEq, Eq, Structural)]
pub enum ProResVariant {
    Standard,
}

/// Video codecs that are told apart.
#[derive(Debug, Clone, PartialEq, Eq)]
pub enum VideoCodec {
    H264,
    H265,
    Av1,
    Vp9,
    ProRes(ProResVariant),
    DnxHd,
    Cineform,
    Raw,
    Other(String),
}

/// Whether a codec is the one that an identifier names.
pub open spec fn is_video_codec(codec: VideoCodec, name: Seq<char>) -> bool {
    if name == "H264"@ {
        codec == VideoCodec::H264
    } else if name == "HEVC"@ {
        codec == VideoCodec::H265
    } else if name == "AV1"@ {
        codec == VideoCodec::Av1
    } else if name == "VP9"@ {
        codec == VideoCodec::Vp9
    } else if name == "PRORES"@ {
        codec == VideoCodec::ProRes(ProResVariant::Standard)
    } else if name == "DNXHD"@ {
        codec == VideoCodec::DnxHd
    } else if name == "CFHD"@ {
        codec == VideoCodec::Cineform
    } else if name == "RAWVIDEO"@ {
        codec == VideoCodec::Raw
    } else {
        codec matches VideoCodec::Other(text) && text@ == name
    }
}

/// The video codec that an FFmpeg codec identifier names.
pub fn map_video_codec(name: &str) -> (r: VideoCodec)
    ensures
        is_video_codec(r, name@),
{
    if same_text(name, "H264") {
        VideoCodec::H264
    } else if same_text(name, "HEVC") {
        VideoCodec::H265
    } else if same_text(name, "AV1") {
        VideoCodec::Av1
    } else if same_text(name, "VP9") {
        VideoCodec::Vp9
    } else if same_text(name, "PRORES") {
        VideoCodec::ProRes(ProResVariant::Standard)
    } else if same_text(name, "DNXHD") {
        VideoCodec::DnxHd
    } else if same_text(name, "CFHD") {
        VideoCodec::Cineform
    } else if same_text(name, "RAWVIDEO") {
        VideoCodec::Raw
    } else {
        VideoCodec::Other(name.to_owned())
    }
}

/// Audio codecs that are told apart.
#[derive(Debug, Clone, PartialEq, Eq)]
pub enum AudioCodec {
    Aac,
    Mp3,
    Flac,
    Opus,
    Vorbis,
    Pcm { bit_depth: u16 },
    Other(String),
}

/// Whether a codec is the one that an identifier names.
pub open spec fn is_audio_codec(codec: AudioCodec, name: Seq<char>) -> bool {
    if name == "AAC"@ {
        codec == AudioCodec::Aac
    } else if name == "MP3"@ {
        codec == AudioCodec::Mp3
    } else if name == "FLAC"@ {
        codec == AudioCodec::Flac
    } else if name == "OPUS"@ {
        codec == AudioCodec::Opus
    } else if name == "VORBIS"@ {
        codec == AudioCodec::Vorbis
    } else if name == "PCM_S16LE"@ {
        codec == (AudioCodec::Pcm { bit_depth: 16 })
    } else if name == "PCM_S24LE"@ {
        codec == (AudioCodec::Pcm { bit_depth: 24 })
    } else if name == "PCM_S32LE"@ {
        codec == (AudioCodec::Pcm { bit_depth: 32 })
    } else {
        codec matches AudioCodec::Other(text) && text@ == name
    }
}

/// The audio codec that an FFmpeg codec identifier names.
pub fn map_audio_codec(name: &str) -> (r: AudioCodec)
    ensures
        is_audio_codec(r, name@),
{
    if same_text(name, "AAC") {
        AudioCodec::Aac
    } else if same_text(name, "MP3") {
        AudioCodec::Mp3
    } else if same_text(name, "FLAC") {
        AudioCodec::Flac
    } else if same_text(name, "OPUS") {
        AudioCodec::Opus
    } else if same_text(name, "VORBIS") {
        AudioCodec::Vorbis
    } else if same_text(name, "PCM_S16LE") {
        AudioCodec::Pcm { bit_depth: 16 }
    } else if same_text(name, "PCM_S24LE") {
        AudioCodec::Pcm { bit_depth: 24 }
    } else if same_text(name, "PCM_S32LE") {
        AudioCodec::Pcm { bit_depth: 32 }
    } else {
        AudioCodec::Other(name.to_owned())
    }
}

/// Pixel formats that are known exactly.
#[derive(Debug, Clone, Copy, PartialEq, Eq, Structural)]
pub enum PixelFormat {
    Yuv420p,
    Yuv422p,
    Yuv444p,
    Yuv420p10le,
    Yuv422p10le,
    Yuv444p10le,
    Rgb24,
    Rgba,
    Nv12,
    P010,
    /// Sixteen bit samples behind a filter whose rows read red, green and green, blue.
    BayerRggb16le,
}

/// The pixel format that an FFmpeg identifier names.
pub open spec fn named_pixel_format(name: Seq<char>) -> Option<PixelFormat> {
    if name == "YUV420P"@ {
        Some(PixelFormat::Yuv420p)
    } else if name == "YUV422P"@ {
        Some(PixelFormat::Yuv422p)
    } else if name == "YUV444P"@ {
        Some(PixelFormat::Yuv444p)
    } else if name == "YUV420P10LE"@ {
        Some(PixelFormat::Yuv420p10le)
    } else if name == "YUV422P10LE"@ {
        Some(PixelFormat::Yuv422p10le)
    } else if name == "YUV444P10LE"@ {
        Some(PixelFormat::Yuv444p10le)
    } else if name == "RGB24"@ {
        Some(PixelFormat::Rgb24)
    } else if name == "RGBA"@ {
        Some(PixelFormat::Rgba)
    } else if name == "NV12"@ {
        Some(PixelFormat::Nv12)
    } else if name == "P010LE"@ {
        Some(PixelFormat::P010)
    } else if name == "BAYER_RGGB16LE"@ {
        Some(PixelFormat::BayerRggb16le)
    } else {
        None
    }
}

/// The pixel format that an FFmpeg identifier names.
pub fn map_pixel_format(name: &str) -> (r: Option<PixelFormat>)
    ensures
        r == named_pixel_format(name@),
{
    if same_text(name, "YUV420P") {
        Some(PixelFormat::Yuv420p)
    } else if same_text(name, "YUV422P") {
        Some(PixelFormat::Yuv422p)
    } else if same_text(name, "YUV444P") {
        Some(PixelFormat::Yuv444p)
    } else if same_text(name, "YUV420P10LE") {
        Some(PixelFormat::Yuv420p10le)
    } else if same_text(name, "YUV422P10LE") {
        Some(PixelFormat::Yuv422p10le)
    } else if same_text(name, "YUV444P10LE") {
        Some(PixelFormat::Yuv444p10le)
    } else if same_text(name, "RGB24") {
        Some(PixelFormat::Rgb24)
    } else if same_text(name, "RGBA") {
        Some(PixelFormat::Rgba)
    } else if same_text(name, "NV12") {
        Some(PixelFormat::Nv12)
    } else if same_text(name, "P010LE") {
        Some(PixelFormat::P010)
    } else if same_text(name, "BAYER_RGGB16LE") {
        Some(PixelFormat::BayerRggb16le)
    } else {
        None
    }
}

/// Codec profiles that are told apart.
#[derive(Debug, Clone, Copy, PartialEq, Eq, Structural)]
pub enum VideoCodecProfile {
    Unknown,
    H264Constrained,
    H264Intra,
    H264Baseline,
    H264ConstrainedBaseline,
    H264Main,
    H264Extended,
    H264High,
    H264High10,
    H264High10Intra,
    H264High422,
    H264High422Intra,
    H264High444,
    H264High444Predictive,
    H264High444Intra,
    H264Cavlc444,
    HevcMain,
    HevcMain10,
    HevcMainStillPicture,
    HevcRangeExtensions,
    Other,
}

/// The profile that an FFmpeg profile identifier names.
pub open spec fn named_profile(name: Seq<char>) -> VideoCodecProfile {
    if name == "Unknown"@ || name == "Reserved"@ {
        VideoCodecProfile::Unknown
    } else if name == "H264(Constrained)"@ {
        VideoCodecProfile::H264Constrained
    } else if name == "H264(Intra)"@ {
        VideoCodecProfile::H264Intra
    } else if name == "H264(Baseline)"@ {
        VideoCodecProfile::H264Baseline
    } else if name == "H264(ConstrainedBaseline)"@ {
        VideoCodecProfile::H264ConstrainedBaseline
    } else if name == "H264(Main)"@ {
        VideoCodecProfile::H264Main
    } else if name == "H264(Extended)"@ {
        VideoCodecProfile::H264Extended
    } else if name == "H264(High)"@ {
        VideoCodecProfile::H264High
    } else if name == "H264(High10)"@ {
        VideoCodecProfile::H264High10
    } else if name == "H264(High10Intra)"@ {
        VideoCodecProfile::H264High10Intra
    } else if name == "H264(High422)"@ {
        VideoCodecProfile::H264High422
    } else if name == "H264(High422Intra)"@ {
        VideoCodecProfile::H264High422Intra
    } else if name == "H264(High444)"@ {
        VideoCodecProfile::H264High444
    } else if name == "H264(High444Predictive)"@ {
        VideoCodecProfile::H264High444Predictive
    } else if name == "H264(High444Intra)"@ {
        VideoCodecProfile::H264High444Intra
    } else if name == "H264(CAVLC444)"@ {
        VideoCodecProfile::H264Cavlc444
    } else if name == "HEVC(Main)"@ {
        VideoCodecProfile::HevcMain
    } else if name == "HEVC(Main10)"@ {
        VideoCodecProfile::HevcMain10
    } else if name == "HEVC(MainStillPicture)"@ {
        VideoCodecProfile::HevcMainStillPicture
    } else if name == "HEVC(Rext)"@ {
        VideoCodecProfile::HevcRangeExtensions
    } else {
        VideoCodecProfile::Other
    }
}

/// The profile that an FFmpeg profile identifier names.
pub fn map_video_codec_profile(name: &str) -> (r: VideoCodecProfile)
    ensures
        r == named_profile(name@),
{
    if same_text(name, "Unknown") || same_text(name, "Reserved") {
        VideoCodecProfile::Unknown
    } else if same_text(name, "H264(Constrained)") {
        VideoCodecProfile::H264Constrained
    } else if same_text(name, "H264(Intra)") {
        VideoCodecProfile::H264Intra
    } else if same_text(name, "H264(Baseline)") {
        VideoCodecProfile::H264Baseline
    } else if same_text(name, "H264(ConstrainedBaseline)") {
        VideoCodecProfile::H264ConstrainedBaseline
    } else if same_text(name, "H264(Main)") {
        VideoCodecProfile::H264Main
    } else if same_text(name, "H264(Extended)") {
        VideoCodecProfile::H264Extended
    } else if same_text(name, "H264(High)") {
        VideoCodecProfile::H264High
    } else if same_text(name, "H264(High10)") {
        VideoCodecProfile::H264High10
    } else if same_text(name, "H264(High10Intra)") {
        VideoCodecProfile::H264High10Intra
    } else if same_text(name, "H264(High422)") {
        VideoCodecProfile::H264High422
    } else if same_text(name, "H264(High422Intra)") {
        VideoCodecProfile::H264High422Intra
    } else if same_text(name, "H264(High444)") {
        VideoCodecProfile::H264High444
    } else if same_text(name, "H264(High444Predictive)") {
        VideoCodecProfile::H264High444Predictive
    } else if same_text(name, "H264(High444Intra)") {
        VideoCodecProfile::H264High444Intra
    } else if same_text(name, "H264(CAVLC444)") {
        VideoCodecProfile::H264Cavlc444
    } else if same_text(name, "HEVC(Main)") {
        VideoCodecProfile::HevcMain
    } else if same_text(name, "HEVC(Main10)") {
        VideoCodecProfile::HevcMain10
    } else if same_text(name, "HEVC(MainStillPicture)") {
        VideoCodecProfile::HevcMainStillPicture
    } else if same_text(name, "HEVC(Rext)") {
        VideoCodecProfile::HevcRangeExtensions
    } else {
        VideoCodecProfile::Other
    }
}

/// The standard frame rates: those of film, of both television systems, and their
/// fractions.
pub open spec fn is_standard_rate(rate: Rational) -> bool {
    ||| rate.den == 1 && (rate.num == 10 || rate.num == 12 || rate.num == 15 || rate.num == 24
        || rate.num == 25 || rate.num == 30 || rate.num == 50 || rate.num == 60)
    ||| rate.den == 2 && rate.num == 25
    ||| rate.den == 1001 && (rate.num == 24000 || rate.num == 30000 || rate.num == 60000)
}

/// Whether a rate with a positive denominator lies within a ten thousandth of another.
pub open spec fn within_a_ten_thousandth(rate: Rational, standard: Rational) -> bool {
    let off = rate.num * standard.den - standard.num * rate.den;
    -(standard.num * rate.den) <= 10_000 * off <= standard.num * rate.den
}

proof fn lemma_canonical_near(rate: Rational, from: nat)
    requires
        from <= 12,
        rate.den > 0,
    ensures
        ({
            let r = canonical_from(rate, from);
            ||| is_standard_rate(r) && within_a_ten_thousandth(rate, r)
            ||| r == rate && forall|i: int|
                from <= i < 12 ==> !within_a_ten_thousandth(rate, #[trigger] nominal_rate(i))
        }),
    decreases 12 - from,
{
    if from < 12 {
        let n = nominal_rate(from as int);
        assert(near(rate, n) == within_a_ten_thousandth(rate, n)) by {
            let off = rate.num * n.den - n.num * rate.den;
            let span = n.num * rate.den;
            assert(n.num * magnitude(rate.den as int) == span);
        }
        lemma_canonical_near(rate, from + 1);
    }
}

/// A rate is taken for the standard one that it lies next to, and for itself where it lies
/// next to none: what comes out is a standard rate within a ten thousandth, or the rate as
/// it was, and then no standard rate is that near.
pub proof fn rates_snap_to_standards(rate: Rational, standard: Rational)
    requires
        rate.den > 0,
        is_standard_rate(standard),
    ensures
        ({
            let r = canonical_from(rate, 0);
            ||| is_standard_rate(r) && within_a_ten_thousandth(rate, r)
            ||| r == rate && !within_a_ten_thousandth(rate, standard)
        }),
        within_a_ten_thousandth(rate, standard) ==> is_standard_rate(canonical_from(rate, 0)),
        canonical_from(standard, 0) == standard,
{
    lemma_canonical_near(rate, 0);
    let k: int = if standard.den == 2 {
        2
    } else if standard.den == 1001 {
        if standard.num == 24000 {
            4
        } else if standard.num == 30000 {
            7
        } else {
            10
        }
    } else if standard.num == 10 {
        0
    } else if standard.num == 12 {
        1
    } else if standard.num == 15 {
        3
    } else if standard.num == 24 {
        5
    } else if standard.num == 25 {
        6
    } else if standard.num == 30 {
        8
    } else if standard.num == 50 {
        9
    } else {
        11
    };
    assert(nominal_rate(k) == standard);
    lemma_nominal_found(k, 0);
}

/// A duration is as many whole nanoseconds as fit into the ticks: the ticks hold the
/// nanoseconds of the result, and not one more. It is known exactly where the ticks and the
/// time base are positive.
pub proof fn durations_are_exact(ticks: i64, numerator: i32, denominator: i32)
    ensures
        nanos_of_ticks(ticks, numerator, denominator) is Some <==> ticks > 0 && numerator > 0
            && denominator > 0,
        nanos_of_ticks(ticks, numerator, denominator) matches Some(nanos) ==> {
            &&& nanos * denominator <= ticks * numerator * 1_000_000_000
            &&& nanos < u64::MAX ==> ticks * numerator * 1_000_000_000 < (nanos + 1) * denominator
        },
{
    if ticks > 0 && numerator > 0 && denominator > 0 {
        let total = ticks * numerator * 1_000_000_000;
        let d = denominator as int;
        vstd::arithmetic::div_mod::lemma_fundamental_div_mod(total, d);
        vstd::arithmetic::div_mod::lemma_mod_bound(total, d);
        let q = total / d;
        let nanos = nanos_of_ticks(ticks, numerator, denominator).unwrap();
        assert(q * d <= total < (q + 1) * d) by (nonlinear_arith)
            requires
                total == d * q + total % d,
                0 <= total % d < d,
        ;
        assert(nanos <= q);
        assert(nanos * d <= q * d) by (nonlinear_arith)
            requires
                nanos <= q,
                d > 0,
        ;
    }
}

/// The bit of a native channel mask that a speaker has.
pub open spec fn native_bit(position: AudioChannelPosition) -> int {
    match position {
        AudioChannelPosition::FrontLeft => 0,
        AudioChannelPosition::FrontRight => 1,
        AudioChannelPosition::FrontCenter => 2,
        AudioChannelPosition::LowFrequencyEffects => 3,
        AudioChannelPosition::BackLeft => 4,
        AudioChannelPosition::BackRight => 5,
        AudioChannelPosition::FrontLeftOfCenter => 6,
        AudioChannelPosition::FrontRightOfCenter => 7,
        AudioChannelPosition::BackCenter => 8,
        AudioChannelPosition::SideLeft => 9,
        AudioChannelPosition::SideRight => 10,
        AudioChannelPosition::TopCenter => 11,
        AudioChannelPosition::TopFrontLeft => 12,
        AudioChannelPosition::TopFrontCenter => 13,
        AudioChannelPosition::TopFrontRight => 14,
        AudioChannelPosition::TopBackLeft => 15,
        AudioChannelPosition::TopBackCenter => 16,
        AudioChannelPosition::TopBackRight => 17,
        AudioChannelPosition::WideLeft => 31,
        AudioChannelPosition::WideRight => 32,
        AudioChannelPosition::LowFrequencyEffects2 => 35,
        AudioChannelPosition::TopSideLeft => 36,
        AudioChannelPosition::TopSideRight => 37,
    }
}

/// Every speaker has one bit of a native mask, and every bit at most one speaker.
pub proof fn bits_and_speakers_correspond(bit: int, position: AudioChannelPosition)
    ensures
        speaker_of_bit(bit) == Some(position) <==> bit == native_bit(position),
{
}

/// The layout of a mask has a signal for each speaker whose bit is set and for no other, in
/// the order of the bits, and as many as the mask has bits; a mask with a bit that no
/// speaker has gives no layout.
pub proof fn layouts_list_the_set_bits(mask: u64, n: nat, position: AudioChannelPosition)
    ensures
        match speakers_below(mask, n) {
            Some(found) => {
                &&& found.len() == bits_below(mask, n)
                &&& found.contains(position) <==> native_bit(position) < n && bit_set(
                    mask,
                    native_bit(position),
                )
                &&& forall|i: int, j: int|
                    0 <= i < j < found.len() ==> native_bit(#[trigger] found[i]) < native_bit(
                        #[trigger] found[j],
                    )
                &&& forall|i: int| 0 <= i < found.len() ==> native_bit(#[trigger] found[i]) < n
            },
            None => exists|bit: int|
                0 <= bit < n && bit_set(mask, bit) && #[trigger] speaker_of_bit(bit) is None,
        },
    decreases n,
{
    if n > 0 {
        let m = (n - 1) as nat;
        layouts_list_the_set_bits(mask, m, position);
        bits_and_speakers_correspond(m as int, position);
        match speakers_below(mask, m) {
            Some(before) => {
                if bit_set(mask, m as int) {
                    match speaker_of_bit(m as int) {
                        Some(last) => {
                            let found = before.push(last);
                            bits_and_speakers_correspond(m as int, last);
                            if before.contains(position) {
                                let i = choose|i: int| 0 <= i < before.len() && before[i]
                                    == position;
                                assert(found[i] == position);
                            }
                            if found.contains(position) {
                                let i = choose|i: int| 0 <= i < found.len() && found[i] == position;
                                if i < before.len() {
                                    assert(before[i] == position);
                                }
                            }
                            if last == position {
                                assert(found[before.len() as int] == position);
                            }
                        },
                        None => {},
                    }
                }
            },
            None => {
                let bit = choose|bit: int|
                    0 <= bit < m && bit_set(mask, bit) && #[trigger] speaker_of_bit(bit) is None;
                assert(speaker_of_bit(bit) is None);
            },
        }
    }
}

/// The identifier of a pixel format.
pub open spec fn pixel_format_identifier(format: PixelFormat) -> Seq<char> {
    match format {
        PixelFormat::Yuv420p => "YUV420P"@,
        PixelFormat::Yuv422p => "YUV422P"@,
        PixelFormat::Yuv444p => "YUV444P"@,
        PixelFormat::Yuv420p10le => "YUV420P10LE"@,
        PixelFormat::Yuv422p10le => "YUV422P10LE"@,
        PixelFormat::Yuv444p10le => "YUV444P10LE"@,
        PixelFormat::Rgb24 => "RGB24"@,
        PixelFormat::Rgba => "RGBA"@,
        PixelFormat::Nv12 => "NV12"@,
        PixelFormat::P010 => "P010LE"@,
        PixelFormat::BayerRggb16le => "BAYER_RGGB16LE"@,
    }
}

/// A pixel format is found by its identifier and by no other text: what is found has exactly
/// the identifier that was read, and every format is found by its own.
pub proof fn pixel_formats_have_one_identifier(name: Seq<char>, format: PixelFormat)
    ensures
        named_pixel_format(name) == Some(format) <==> name == pixel_format_identifier(format),
{
    reveal_strlit("YUV420P");
    assert("YUV420P"@.len() == 7);
    reveal_strlit("YUV422P");
    assert("YUV422P"@.len() == 7);
    reveal_strlit("YUV444P");
    assert("YUV444P"@.len() == 7);
    reveal_strlit("YUV420P10LE");
    assert("YUV420P10LE"@.len() == 11);
    reveal_strlit("YUV422P10LE");
    assert("YUV422P10LE"@.len() == 11);
    reveal_strlit("YUV444P10LE");
    assert("YUV444P10LE"@.len() == 11);
    reveal_strlit("RGB24");
    assert("RGB24"@.len() == 5);
    reveal_strlit("RGBA");
    assert("RGBA"@.len() == 4);
    reveal_strlit("NV12");
    assert("NV12"@.len() == 4);
    reveal_strlit("P010LE");
    assert("P010LE"@.len() == 6);
    reveal_strlit("BAYER_RGGB16LE");
    assert("BAYER_RGGB16LE"@.len() == 14);
    assert("YUV420P"@[5] != "YUV422P"@[5]);
    assert("YUV420P"@[4] != "YUV444P"@[4]);
    assert("YUV422P"@[4] != "YUV444P"@[4]);
    assert("YUV420P10LE"@[5] != "YUV422P10LE"@[5]);
    assert("YUV420P10LE"@[4] != "YUV444P10LE"@[4]);
    assert("YUV422P10LE"@[4] != "YUV444P10LE"@[4]);
    assert("RGBA"@[0] != "NV12"@[0]);
}

/// The identifier of a profile that is told apart.
pub open spec fn profile_identifier(profile: VideoCodecProfile) -> Option<Seq<char>> {
    match profile {
        VideoCodecProfile::H264Constrained => Some("H264(Constrained)"@),
        VideoCodecProfile::H264Intra => Some("H264(Intra)"@),
        VideoCodecProfile::H264Baseline => Some("H264(Baseline)"@),
        VideoCodecProfile::H264ConstrainedBaseline => Some("H264(ConstrainedBaseline)"@),
        VideoCodecProfile::H264Main => Some("H264(Main)"@),
        VideoCodecProfile::H264Extended => Some("H264(Extended)"@),
        VideoCodecProfile::H264High => Some("H264(High)"@),
        VideoCodecProfile::H264High10 => Some("H264(High10)"@),
        VideoCodecProfile::H264High10Intra => Some("H264(High10Intra)"@),
        VideoCodecProfile::H264High422 => Some("H264(High422)"@),
        VideoCodecProfile::H264High422Intra => Some("H264(High422Intra)"@),
        VideoCodecProfile::H264High444 => Some("H264(High444)"@),
        VideoCodecProfile::H264High444Predictive => Some("H264(High444Predictive)"@),
        VideoCodecProfile::H264High444Intra => Some("H264(High444Intra)"@),
        VideoCodecProfile::H264Cavlc444 => Some("H264(CAVLC444)"@),
        VideoCodecProfile::HevcMain => Some("HEVC(Main)"@),
        VideoCodecProfile::HevcMain10 => Some("HEVC(Main10)"@),
        VideoCodecProfile::HevcMainStillPicture => Some("HEVC(MainStillPicture)"@),
        VideoCodecProfile::HevcRangeExtensions => Some("HEVC(Rext)"@),
        _ => None,
    }
}

/// A profile is found by its identifier and by no other text; a text that is no identifier
/// is another profile, unless it says that nothing is known.
pub proof fn profiles_have_one_identifier(name: Seq<char>, profile: VideoCodecProfile)
    ensures
        profile_identifier(profile) matches Some(identifier) ==> (named_profile(name) == profile
            <==> name == identifier),
        named_profile(name) is Unknown <==> name == "Unknown"@ || name == "Reserved"@,
        named_profile(name) is Other <==> name != "Unknown"@ && name != "Reserved"@ && forall|
            known: VideoCodecProfile,
        |
            #![trigger profile_identifier(known)]
            profile_identifier(known) != Some(name),
{
    reveal_strlit("Unknown");
    assert("Unknown"@.len() == 7);
    reveal_strlit("Reserved");
    assert("Reserved"@.len() == 8);
    reveal_strlit("H264(Constrained)");
    assert("H264(Constrained)"@.len() == 17);
    reveal_strlit("H264(Intra)");
    assert("H264(Intra)"@.len() == 11);
    reveal_strlit("H264(Baseline)");
    assert("H264(Baseline)"@.len() == 14);
    reveal_strlit("H264(ConstrainedBaseline)");
    assert("H264(ConstrainedBaseline)"@.len() == 25);
    reveal_strlit("H264(Main)");
    assert("H264(Main)"@.len() == 10);
    reveal_strlit("H264(Extended)");
    assert("H264(Extended)"@.len() == 14);
    reveal_strlit("H264(High)");
    assert("H264(High)"@.len() == 10);
    reveal_strlit("H264(High10)");
    assert("H264(High10)"@.len() == 12);
    reveal_strlit("H264(High10Intra)");
    assert("H264(High10Intra)"@.len() == 17);
    reveal_strlit("H264(High422)");
    assert("H264(High422)"@.len() == 13);
    reveal_strlit("H264(High422Intra)");
    assert("H264(High422Intra)"@.len() == 18);
    reveal_strlit("H264(High444)");
    assert("H264(High444)"@.len() == 13);
    reveal_strlit("H264(High444Predictive)");
    assert("H264(High444Predictive)"@.len() == 23);
    reveal_strlit("H264(High444Intra)");
    assert("H264(High444Intra)"@.len() == 18);
    reveal_strlit("H264(CAVLC444)");
    assert("H264(CAVLC444)"@.len() == 14);
    reveal_strlit("HEVC(Main)");
    assert("HEVC(Main)"@.len() == 10);
    reveal_strlit("HEVC(Main10)");
    assert("HEVC(Main10)"@.len() == 12);
    reveal_strlit("HEVC(MainStillPicture)");
    assert("HEVC(MainStillPicture)"@.len() == 22);
    reveal_strlit("HEVC(Rext)");
    assert("HEVC(Rext)"@.len() == 10);
    assert("H264(Constrained)"@[5] != "H264(High10Intra)"@[5]);
    assert("H264(Baseline)"@[5] != "H264(Extended)"@[5]);
    assert("H264(Baseline)"@[5] != "H264(CAVLC444)"@[5]);
    assert("H264(Main)"@[5] != "H264(High)"@[5]);
    assert("H264(Main)"@[1] != "HEVC(Main)"@[1]);
    assert("H264(Main)"@[1] != "HEVC(Rext)"@[1]);
    assert("H264(Extended)"@[5] != "H264(CAVLC444)"@[5]);
    assert("H264(High)"@[1] != "HEVC(Main)"@[1]);
    assert("H264(High)"@[1] != "HEVC(Rext)"@[1]);
    assert("H264(High10)"@[1] != "HEVC(Main10)"@[1]);
    assert("H264(High422)"@[10] != "H264(High444)"@[10]);
    assert("H264(High422Intra)"@[10] != "H264(High444Intra)"@[10]);
    assert("HEVC(Main)"@[5] != "HEVC(Rext)"@[5]);
    if profile_identifier(named_profile(name)) is Some {
        assert(profile_identifier(named_profile(name)) == Some(name));
    }
}

/// The identifier of a video codec; what is not told apart keeps its own.
pub open spec fn video_codec_identifier(codec: VideoCodec) -> Option<Seq<char>> {
    match codec {
        VideoCodec::H264 => Some("H264"@),
        VideoCodec::H265 => Some("HEVC"@),
        VideoCodec::Av1 => Some("AV1"@),
        VideoCodec::Vp9 => Some("VP9"@),
        VideoCodec::ProRes(_) => Some("PRORES"@),
        VideoCodec::DnxHd => Some("DNXHD"@),
        VideoCodec::Cineform => Some("CFHD"@),
        VideoCodec::Raw => Some("RAWVIDEO"@),
        VideoCodec::Other(text) => Some(text@),
    }
}

/// A video codec is what its identifier says: whatever an identifier names has that very
/// identifier, so no identifier names two codecs that are told apart, and a codec is another
/// one only where no known one has the identifier.
pub proof fn video_codecs_keep_their_identifiers(codec: VideoCodec, known: VideoCodec, name: Seq<char>)
    requires
        is_video_codec(codec, name),
    ensures
        video_codec_identifier(codec) == Some(name),
        !(known is Other) && video_codec_identifier(known) == Some(name) ==> codec == known,
{
    reveal_strlit("H264");
    assert("H264"@.len() == 4);
    reveal_strlit("HEVC");
    assert("HEVC"@.len() == 4);
    reveal_strlit("AV1");
    assert("AV1"@.len() == 3);
    reveal_strlit("VP9");
    assert("VP9"@.len() == 3);
    reveal_strlit("PRORES");
    assert("PRORES"@.len() == 6);
    reveal_strlit("DNXHD");
    assert("DNXHD"@.len() == 5);
    reveal_strlit("CFHD");
    assert("CFHD"@.len() == 4);
    reveal_strlit("RAWVIDEO");
    assert("RAWVIDEO"@.len() == 8);
    assert("H264"@[1] != "HEVC"@[1]);
    assert("H264"@[0] != "CFHD"@[0]);
    assert("HEVC"@[0] != "CFHD"@[0]);
    assert("AV1"@[0] != "VP9"@[0]);
}

/// The identifier of a audio codec; what is not told apart keeps its own.
pub open spec fn audio_codec_identifier(codec: AudioCodec) -> Option<Seq<char>> {
    match codec {
        AudioCodec::Aac => Some("AAC"@),
        AudioCodec::Mp3 => Some("MP3"@),
        AudioCodec::Flac => Some("FLAC"@),
        AudioCodec::Opus => Some("OPUS"@),
        AudioCodec::Vorbis => Some("VORBIS"@),
        AudioCodec::Pcm { bit_depth } => if bit_depth == 16 {
            Some("PCM_S16LE"@)
        } else if bit_depth == 24 {
            Some("PCM_S24LE"@)
        } else if bit_depth == 32 {
            Some("PCM_S32LE"@)
        } else {
            None
        },
        AudioCodec::Other(text) => Some(text@),
    }
}

/// A audio codec is what its identifier says: whatever an identifier names has that very
/// identifier, so no identifier names two codecs that are told apart, and a codec is another
/// one only where no known one has the identifier.
pub proof fn audio_codecs_keep_their_identifiers(codec: AudioCodec, known: AudioCodec, name: Seq<char>)
    requires
        is_audio_codec(codec, name),
    ensures
        audio_codec_identifier(codec) == Some(name),
        !(known is Other) && audio_codec_identifier(known) == Some(name) ==> codec == known,
{
    reveal_strlit("AAC");
    reveal_strlit("MP3");
    reveal_strlit("FLAC");
    reveal_strlit("OPUS");
    reveal_strlit("VORBIS");
    reveal_strlit("PCM_S16LE");
    reveal_strlit("PCM_S24LE");
    reveal_strlit("PCM_S32LE");
    assert("AAC"@[0] != "MP3"@[0]);
    assert("FLAC"@[0] != "OPUS"@[0]);
    assert("PCM_S16LE"@[5] != "PCM_S24LE"@[5]);
    assert("PCM_S16LE"@[5] != "PCM_S32LE"@[5]);
    assert("PCM_S24LE"@[5] != "PCM_S32LE"@[5]);

}

} // verus!
