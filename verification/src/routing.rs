use vstd::prelude::*;

use crate::filter_type::FilterType;

verus! {

/// Number of equaliser bands on every channel.
pub const BAND_COUNT: usize = 6;

/// Number of channels filtered when the audio layout does not name its main input.
pub const DEFAULT_CHANNELS: usize = 2;

/// What a band does to a sample: `None` passes it through unchanged, `Some(t)`
/// runs it through a filter of type `t`.
pub open spec fn spec_band_filter(active: bool, filter_type: int) -> Option<FilterType> {
    if active {
        Some(FilterType::spec_from_index(filter_type))
    } else {
        None
    }
}

/// Decides, from a band's `active` switch and type parameter, whether the band
/// filters and with which response.
pub fn band_filter(active: bool, filter_type: i32) -> (r: Option<FilterType>)
    ensures
        r == spec_band_filter(active, filter_type as int),
        !active ==> r == None::<FilterType>,
        active && filter_type == 0 ==> r == Some(FilterType::LowShelf),
        active && filter_type == 1 ==> r == Some(FilterType::HighShelf),
        active && filter_type == 2 ==> r == Some(FilterType::Peaking),
        active && filter_type == 3 ==> r == Some(FilterType::LowPass),
        active && filter_type == 4 ==> r == Some(FilterType::HighPass),
        active && !(0 <= filter_type <= 4) ==> r == Some(FilterType::Peaking),
{
    if active {
        Some(FilterType::from_index(filter_type))
    } else {
        None
    }
}

/// A band that is switched off passes every sample through, and a band that is
/// switched on always filters, with the response its type index documents:
/// 0 low shelf, 1 high shelf, 2 peaking, 3 low pass, 4 high pass, any other
/// index peaking.
pub proof fn lemma_band_routing_table(active: bool, filter_type: int)
    ensures
        !active ==> spec_band_filter(active, filter_type) == None::<FilterType>,
        active ==> spec_band_filter(active, filter_type) is Some,
        active && filter_type == 0 ==> spec_band_filter(active, filter_type) == Some(FilterType::LowShelf),
        active && filter_type == 1 ==> spec_band_filter(active, filter_type) == Some(FilterType::HighShelf),
        active && filter_type == 2 ==> spec_band_filter(active, filter_type) == Some(FilterType::Peaking),
        active && filter_type == 3 ==> spec_band_filter(active, filter_type) == Some(FilterType::LowPass),
        active && filter_type == 4 ==> spec_band_filter(active, filter_type) == Some(FilterType::HighPass),
        active && !(0 <= filter_type <= 4) ==> spec_band_filter(active, filter_type) == Some(FilterType::Peaking),
{
}

/// An active band filters with exactly the type that its index selects.
pub proof fn lemma_active_band_uses_selected_type(filter_type: int)
    ensures
        spec_band_filter(true, filter_type) == Some(FilterType::spec_from_index(filter_type)),
{
}

/// Number of channels for which filters are set up: the main input's channel
/// count, or two where the layout gives none.
pub fn input_channel_count(main_input_channels: Option<u32>) -> (n: usize)
    ensures
        n == match main_input_channels {
            Some(c) => c as int,
            None => DEFAULT_CHANNELS as int,
        },
{
    match main_input_channels {
        Some(c) => c as usize,
        None => DEFAULT_CHANNELS,
    }
}

/// Number of leading channels of a buffer that are filtered: those that have a
/// filter bank, and no more than the buffer holds.
pub fn channels_to_process(buffer_channels: usize, filter_channels: usize) -> (n: usize)
    ensures
        n <= buffer_channels,
        n <= filter_channels,
        n == buffer_channels || n == filter_channels,
{
    if buffer_channels <= filter_channels {
        buffer_channels
    } else {
        filter_channels
    }
}

} // verus!
