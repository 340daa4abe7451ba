//! An ordered, fixed-size sequence of equalizer bands, each a record of a
//! payload (the band's design and filter state) and a bypass flag.
//!
//! A sample runs through the bands that are not bypassed, in band order;
//! `next_active` walks that order without allocating.

use vstd::prelude::*;

verus! {

/// The number of bands in an equalizer.
pub const NUM_BANDS: usize = 32;

/// One band: what it computes with, and whether it is left out of the chain.
#[derive(Copy, Clone, Debug)]
pub struct Band<K> {
    pub payload: K,
    pub bypass: bool,
}

/// `NUM_BANDS` band records, indexed by position.
pub struct Bands<K> {
    bands: Vec<Band<K>>,
}

/// The smallest band index in `from..flags.len()` whose flag is clear, if any.
pub open spec fn first_active(flags: Seq<bool>, from: int) -> Option<int>
    decreases flags.len() - from,
{
    if from < 0 || from >= flags.len() {
        None
    } else if !flags[from] {
        Some(from)
    } else {
        first_active(flags, from + 1)
    }
}

impl<K: Copy> Bands<K> {
    /// The band records in order.
    pub closed spec fn records(&self) -> Seq<Band<K>> {
        self.bands@
    }

    /// The bypass flags, one per band.
    pub open spec fn bypassed(&self) -> Seq<bool> {
        self.records().map_values(|b: Band<K>| b.bypass)
    }

    /// The payloads, one per band.
    pub open spec fn payloads(&self) -> Seq<K> {
        self.records().map_values(|b: Band<K>| b.payload)
    }

    pub open spec fn wf(&self) -> bool {
        self.records().len() == NUM_BANDS
    }

    /// A chain of `NUM_BANDS` bands that all start from `init` and are all bypassed.
    pub fn new(init: K) -> (r: Self)
        ensures
            r.wf(),
            forall|i: int| 0 <= i < NUM_BANDS ==> r.payloads()[i] == init && r.bypassed()[i],
    {
        let mut bands: Vec<Band<K>> = Vec::new();
        let mut n: usize = 0;
        while n < NUM_BANDS
            invariant
                n <= NUM_BANDS,
                bands@.len() == n,
                forall|i: int| 0 <= i < n ==> bands@[i] == (Band { payload: init, bypass: true }),
            decreases NUM_BANDS - n,
        {
            bands.push(Band { payload: init, bypass: true });
            n = n + 1;
        }
        Bands { bands }
    }

    /// Whether band `idx` is left out of the chain.
    pub fn is_bypassed(&self, idx: usize) -> (r: bool)
        requires
            self.wf(),
            idx < NUM_BANDS,
        ensures
            r == self.bypassed()[idx as int],
    {
        self.bands[idx].bypass
    }

    /// Puts band `idx` into the chain or takes it out; nothing else changes.
    pub fn set_bypass(&mut self, idx: usize, bypass: bool)
        requires
            old(self).wf(),
            idx < NUM_BANDS,
        ensures
            final(self).wf(),
            final(self).bypassed() == old(self).bypassed().update(idx as int, bypass),
            final(self).payloads() == old(self).payloads(),
    {
        let mut b = self.bands[idx];
        b.bypass = bypass;
        self.bands.set(idx, b);
        proof {
            assert(self.bypassed() =~= old(self).bypassed().update(idx as int, bypass));
            assert(self.payloads() =~= old(self).payloads());
        }
    }

    /// Sets the bypass flag of every band to `bypass`; the payloads stay.
    pub fn bypass_all(&mut self, bypass: bool)
        requires
            old(self).wf(),
        ensures
            final(self).wf(),
            forall|i: int| 0 <= i < NUM_BANDS ==> final(self).bypassed()[i] == bypass,
            final(self).payloads() == old(self).payloads(),
    {
        let mut idx: usize = 0;
        while idx < NUM_BANDS
            invariant
                self.wf(),
                idx <= NUM_BANDS,
                forall|i: int| 0 <= i < idx ==> self.bypassed()[i] == bypass,
                self.payloads() == old(self).payloads(),
            decreases NUM_BANDS - idx,
        {
            self.set_bypass(idx, bypass);
            idx = idx + 1;
        }
    }

    /// The payload of band `idx`.
    pub fn band(&self, idx: usize) -> (r: K)
        requires
            self.wf(),
            idx < NUM_BANDS,
        ensures
            r == self.payloads()[idx as int],
    {
        self.bands[idx].payload
    }

    /// Replaces the payload of band `idx`; its bypass flag and the other bands stay.
    pub fn set_band(&mut self, idx: usize, payload: K)
        requires
            old(self).wf(),
            idx < NUM_BANDS,
        ensures
            final(self).wf(),
            final(self).payloads() == old(self).payloads().update(idx as int, payload),
            final(self).bypassed() == old(self).bypassed(),
    {
        let mut b = self.bands[idx];
        b.payload = payload;
        self.bands.set(idx, b);
        proof {
            assert(self.payloads() =~= old(self).payloads().update(idx as int, payload));
            assert(self.bypassed() =~= old(self).bypassed());
        }
    }

    /// The first band at or after `from` that is in the chain: the next band a
    /// sample runs through.
    pub fn next_active(&self, from: usize) -> (r: Option<usize>)
        requires
            self.wf(),
        ensures
            r matches Some(i) ==> first_active(self.bypassed(), from as int) == Some(i as int),
            r is None ==> first_active(self.bypassed(), from as int) is None,
    {
        let mut idx: usize = from;
        while idx < NUM_BANDS
            invariant
                self.wf(),
                from <= idx,
                first_active(self.bypassed(), from as int) == first_active(self.bypassed(), idx as int),
            decreases NUM_BANDS - idx,
        {
            if !self.bands[idx].bypass {
                return Some(idx);
            }
            idx = idx + 1;
        }
        None
    }
}

} // verus!
