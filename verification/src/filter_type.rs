use vstd::prelude::*;

verus! {

/// The response shape of one equaliser band.
#[derive(Clone, Copy, Debug, PartialEq, Eq, Structural)]
pub enum FilterType {
    LowShelf,
    HighShelf,
    Peaking,
    LowPass,
    HighPass,
}

impl FilterType {
    /// The type that a band's integer type parameter selects:
    /// 0 low shelf, 1 high shelf, 2 peaking, 3 low pass, 4 high pass.
    /// Any other value falls back to peaking.
    pub open spec fn spec_from_index(index: int) -> FilterType {
        if index == 0 {
            FilterType::LowShelf
        } else if index == 1 {
            FilterType::HighShelf
        } else if index == 3 {
            FilterType::LowPass
        } else if index == 4 {
            FilterType::HighPass
        } else {
            FilterType::Peaking
        }
    }

    /// Maps a band's type parameter to its filter type.
    pub fn from_index(index: i32) -> (t: FilterType)
        ensures
            t == Self::spec_from_index(index as int),
            index == 0 ==> t == FilterType::LowShelf,
            index == 1 ==> t == FilterType::HighShelf,
            index == 2 ==> t == FilterType::Peaking,
            index == 3 ==> t == FilterType::LowPass,
            index == 4 ==> t == FilterType::HighPass,
            !(0 <= index <= 4) ==> t == FilterType::Peaking,
    {
        match index {
            0 => FilterType::LowShelf,
            1 => FilterType::HighShelf,
            2 => FilterType::Peaking,
            3 => FilterType::LowPass,
            4 => FilterType::HighPass,
            _ => FilterType::Peaking,
        }
    }
}

/// The documented type indices 0 to 4 select each of the five filter types
/// exactly once: distinct indices select distinct types, and every type is
/// selected by one of them.
pub proof fn lemma_type_indices_select_each_type_once(t: FilterType)
    ensures
        exists|i: int| 0 <= i <= 4 && #[trigger] FilterType::spec_from_index(i) == t,
        forall|i: int, j: int|
            0 <= i <= 4 && 0 <= j <= 4 && #[trigger] FilterType::spec_from_index(i)
                == #[trigger] FilterType::spec_from_index(j) ==> i == j,
{
    let w: int = match t {
        FilterType::LowShelf => 0,
        FilterType::HighShelf => 1,
        FilterType::Peaking => 2,
        FilterType::LowPass => 3,
        FilterType::HighPass => 4,
    };
    assert(FilterType::spec_from_index(w) == t);
}

/// The documented table of type indices: 0 low shelf, 1 high shelf, 2 peaking,
/// 3 low pass, 4 high pass.
pub proof fn lemma_type_index_table()
    ensures
        FilterType::spec_from_index(0) == FilterType::LowShelf,
        FilterType::spec_from_index(1) == FilterType::HighShelf,
        FilterType::spec_from_index(2) == FilterType::Peaking,
        FilterType::spec_from_index(3) == FilterType::LowPass,
        FilterType::spec_from_index(4) == FilterType::HighPass,
{
}

/// A type index outside 0 to 4 selects a peaking filter.
pub proof fn lemma_unknown_index_is_peaking(i: int)
    requires
        !(0 <= i <= 4),
    ensures
        FilterType::spec_from_index(i) == FilterType::Peaking,
{
}

} // verus!
