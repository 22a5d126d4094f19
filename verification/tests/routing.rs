use my_eq::bank::FilterBank;
use my_eq::filter_type::FilterType;
use my_eq::routing::{band_filter, channels_to_process, input_channel_count, BAND_COUNT};

#[test]
fn type_index_selects_documented_type() {
    assert_eq!(FilterType::from_index(0), FilterType::LowShelf);
    assert_eq!(FilterType::from_index(1), FilterType::HighShelf);
    assert_eq!(FilterType::from_index(2), FilterType::Peaking);
    assert_eq!(FilterType::from_index(3), FilterType::LowPass);
    assert_eq!(FilterType::from_index(4), FilterType::HighPass);
}

#[test]
fn unknown_type_index_is_peaking() {
    assert_eq!(FilterType::from_index(5), FilterType::Peaking);
    assert_eq!(FilterType::from_index(-1), FilterType::Peaking);
    assert_eq!(FilterType::from_index(i32::MAX), FilterType::Peaking);
    assert_eq!(FilterType::from_index(i32::MIN), FilterType::Peaking);
}

#[test]
fn documented_indices_give_distinct_types() {
    for i in 0..5 {
        for j in 0..5 {
            if i != j {
                assert_ne!(FilterType::from_index(i), FilterType::from_index(j));
            }
        }
    }
}

#[test]
fn inactive_band_passes_through() {
    for t in -2..7 {
        assert_eq!(band_filter(false, t), None);
    }
}

#[test]
fn active_band_filters_with_its_type() {
    assert_eq!(band_filter(true, 0), Some(FilterType::LowShelf));
    assert_eq!(band_filter(true, 1), Some(FilterType::HighShelf));
    assert_eq!(band_filter(true, 4), Some(FilterType::HighPass));
    assert_eq!(band_filter(true, 9), Some(FilterType::Peaking));
}

#[test]
fn channel_count_follows_layout() {
    assert_eq!(input_channel_count(Some(1)), 1);
    assert_eq!(input_channel_count(Some(2)), 2);
    assert_eq!(input_channel_count(Some(8)), 8);
}

#[test]
fn channel_count_defaults_to_stereo() {
    assert_eq!(input_channel_count(None), 2);
}

#[test]
fn only_channels_with_filters_are_processed() {
    assert_eq!(channels_to_process(2, 2), 2);
    assert_eq!(channels_to_process(4, 2), 2);
    assert_eq!(channels_to_process(1, 2), 1);
    assert_eq!(channels_to_process(3, 0), 0);
    assert_eq!(channels_to_process(0, 5), 0);
}

#[test]
fn six_bands_per_channel() {
    assert_eq!(BAND_COUNT, 6);
}

#[test]
fn new_bank_starts_every_band_from_prototype() {
    let mut bank: FilterBank<u32> = FilterBank::new(2, 7);
    assert_eq!(bank.num_channels(), 2);
    for c in 0..2 {
        for b in 0..BAND_COUNT {
            assert_eq!(*bank.filter_mut(c, b), 7);
        }
    }
}

#[test]
fn empty_bank_has_no_channels() {
    let bank: FilterBank<u32> = FilterBank::empty();
    assert_eq!(bank.num_channels(), 0);
    let bank: FilterBank<u32> = FilterBank::new(0, 1);
    assert_eq!(bank.num_channels(), 0);
}

#[test]
fn updating_one_filter_leaves_the_others() {
    let mut bank: FilterBank<u32> = FilterBank::new(2, 0);
    *bank.filter_mut(1, 3) = 42;
    for c in 0..2 {
        for b in 0..BAND_COUNT {
            let expected = if c == 1 && b == 3 { 42 } else { 0 };
            assert_eq!(*bank.filter_mut(c, b), expected);
        }
    }
    assert_eq!(bank.num_channels(), 2);
}
