//! Channel-map lowering of native audio layouts.

use crate::info::stream::AudioChannelLayout;
use crate::text::{decimal, push_decimal};
use vstd::prelude::*;
use vstd::string::*;

verus! {

impl AudioChannelLayout {
    /// Number of channels.
    pub open spec fn spec_channel_count(&self) -> nat {
        match *self {
            AudioChannelLayout::Mono => 1,
            AudioChannelLayout::Speakers(positions) => positions@.len(),
        }
    }

    /// Number of channels.
    pub fn channel_count(&self) -> (r: usize)
        ensures
            r == self.spec_channel_count(),
    {
        match self {
            AudioChannelLayout::Mono => 1,
            AudioChannelLayout::Speakers(positions) => positions.len(),
        }
    }
}

/// The mappings of the first channels, each to itself.
pub open spec fn channel_maps(count: nat) -> Seq<char>
    decreases count,
{
    if count == 0 {
        seq![]
    } else {
        let channel = (count - 1) as nat;
        channel_maps(channel) + ("|c"@ + decimal(channel) + "=c"@ + decimal(channel))
    }
}

/// The `pan` filter that hands every channel on in its place.
pub open spec fn identity_pan(count: nat) -> Seq<char> {
    "pan="@ + decimal(count) + "c"@ + channel_maps(count)
}

/// The `pan` filter that hands every channel of a layout on in its place. Conversion of
/// channels is no part of decoding a window.
pub fn identity_pan_filter(layout: &AudioChannelLayout) -> (filter: String)
    ensures
        filter@ == identity_pan(layout.spec_channel_count()),
{
    let count: usize = layout.channel_count();
    let mut filter = "pan=".to_owned();
    push_decimal(&mut filter, count as u64);
    filter.append("c");
    let ghost head = filter@;
    let mut channel: usize = 0;
    assert(filter@ =~= head + channel_maps(0));
    while channel < count
        invariant
            channel <= count,
            filter@ == head + channel_maps(channel as nat),
        decreases count - channel,
    {
        filter.append("|c");
        push_decimal(&mut filter, channel as u64);
        filter.append("=c");
        push_decimal(&mut filter, channel as u64);
        channel += 1;
        assert(filter@ =~= head + channel_maps(channel as nat));
    }
    filter
}

/// The stream selector of an absolute container index.
pub fn ffmpeg_stream_map(stream_index: u32) -> (selector: String)
    ensures
        selector@ == "0:"@ + decimal(stream_index as nat),
{
    let mut selector = "0:".to_owned();
    push_decimal(&mut selector, stream_index as u64);
    selector
}

/// Of the mappings of a number of channels, the ones of the first few come first, and each
/// hands its channel on in its place.
pub proof fn channels_map_to_themselves(count: nat, channel: nat)
    requires
        channel < count,
    ensures
        channel_maps(channel).len() <= channel_maps(channel + 1).len() <= channel_maps(count).len(),
        channel_maps(count).subrange(
            channel_maps(channel).len() as int,
            channel_maps(channel + 1).len() as int,
        ) == "|c"@ + decimal(channel) + "=c"@ + decimal(channel),
        identity_pan(count).subrange(
            0,
            identity_pan(count).len() - channel_maps(count).len(),
        ) == "pan="@ + decimal(count) + "c"@,
    decreases count,
{
    let head = "pan="@ + decimal(count) + "c"@;
    assert(identity_pan(count).subrange(0, head.len() as int) =~= head);
    let last = (count - 1) as nat;
    let piece = "|c"@ + decimal(channel) + "=c"@ + decimal(channel);
    if channel == last {
        assert(channel_maps(count).subrange(
            channel_maps(channel).len() as int,
            channel_maps(count).len() as int,
        ) =~= piece);
    } else {
        channels_map_to_themselves(last, channel);
        assert(channel_maps(count).subrange(
            channel_maps(channel).len() as int,
            channel_maps(channel + 1).len() as int,
        ) =~= channel_maps(last).subrange(
            channel_maps(channel).len() as int,
            channel_maps(channel + 1).len() as int,
        ));
    }
}

} // verus!
