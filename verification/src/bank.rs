use vstd::prelude::*;

use crate::routing::BAND_COUNT;

verus! {

/// The filters of a multi-channel equaliser: for every channel, one filter per band.
pub struct FilterBank<F> {
    channels: Vec<Vec<F>>,
}

impl<F> View for FilterBank<F> {
    type V = Seq<Seq<F>>;

    /// Channel by channel, the band filters in band order.
    closed spec fn view(&self) -> Seq<Seq<F>> {
        self.channels@.map_values(|c: Vec<F>| c@)
    }
}

impl<F> FilterBank<F> {
    /// Every channel holds exactly one filter per band.
    pub open spec fn wf(&self) -> bool {
        forall|c: int| 0 <= c < self@.len() ==> (#[trigger] self@[c]).len() == BAND_COUNT
    }

    /// A bank with no channels.
    pub fn empty() -> (b: FilterBank<F>)
        ensures
            b.wf(),
            b@.len() == 0,
    {
        let b = FilterBank { channels: Vec::new() };
        assert(b@ =~= Seq::<Seq<F>>::empty());
        b
    }

    /// Number of channels that have filters.
    pub fn num_channels(&self) -> (n: usize)
        ensures
            n == self@.len(),
    {
        self.channels.len()
    }

    /// The filter of `band` on `channel`, to be used or updated in place; every
    /// other filter stays as it was.
    pub fn filter_mut(&mut self, channel: usize, band: usize) -> (f: &mut F)
        requires
            old(self).wf(),
            channel < old(self)@.len(),
            band < BAND_COUNT,
        ensures
            *f == old(self)@[channel as int][band as int],
            final(self)@ == old(self)@.update(
                channel as int,
                old(self)@[channel as int].update(band as int, *final(f)),
            ),
    {
        let ghost c = channel as int;
        assert(self.channels@[c]@ == self@[c]);
        let row = &mut self.channels[channel];
        proof {
            assert(row@.len() == BAND_COUNT);
        }
        &mut row[band]
    }
}

/// Replacing one band filter in place keeps one filter per band on every channel.
pub proof fn lemma_replacing_a_filter_keeps_shape<F>(
    before: FilterBank<F>,
    after: FilterBank<F>,
    channel: int,
    band: int,
    filter: F,
)
    requires
        before.wf(),
        0 <= channel < before@.len(),
        0 <= band < BAND_COUNT,
        after@ == before@.update(channel, before@[channel].update(band, filter)),
    ensures
        after.wf(),
        after@.len() == before@.len(),
{
    assert forall|c: int| 0 <= c < after@.len() implies (#[trigger] after@[c]).len() == BAND_COUNT by {
        if c != channel {
            assert(after@[c] == before@[c]);
        }
    }
}

impl<F: Copy> FilterBank<F> {
    /// A bank for `num_channels` channels whose every band filter starts as `prototype`.
    pub fn new(num_channels: usize, prototype: F) -> (b: FilterBank<F>)
        ensures
            b.wf(),
            b@.len() == num_channels,
            forall|c: int, k: int|
                0 <= c < num_channels && 0 <= k < BAND_COUNT ==> #[trigger] b@[c][k] == prototype,
    {
        let mut channels: Vec<Vec<F>> = Vec::new();
        let mut c: usize = 0;
        while c < num_channels
            invariant
                c <= num_channels,
                channels@.len() == c,
                forall|i: int| 0 <= i < c ==> (#[trigger] channels@[i])@.len() == BAND_COUNT,
                forall|i: int, k: int|
                    0 <= i < c && 0 <= k < BAND_COUNT ==> #[trigger] channels@[i]@[k] == prototype,
            decreases num_channels - c,
        {
            let mut row: Vec<F> = Vec::new();
            let mut k: usize = 0;
            while k < BAND_COUNT
                invariant
                    k <= BAND_COUNT,
                    row@.len() == k,
                    forall|j: int| 0 <= j < k ==> #[trigger] row@[j] == prototype,
                decreases BAND_COUNT - k,
            {
                row.push(prototype);
                k = k + 1;
            }
            channels.push(row);
            c = c + 1;
        }
        FilterBank { channels }
    }
}

} // verus!
