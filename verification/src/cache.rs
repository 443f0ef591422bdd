//! Icon cache: memoizes rendered icons per battery state.
//!
//! The keyspace is the 202 possible states (percentage 0..=100, charging or
//! not), so the map never grows past that; entries are never evicted. A
//! cache is tied to the font it was created for: every stored entry is
//! exactly the pipeline's output for its key, so a hit returns the same
//! bytes a render would, without rendering. A render counter makes the
//! memoization observable.

use vstd::prelude::*;
use vstd::set_lib::lemma_len_subset;
use std::collections::HashMap;
use crate::icon::{icon_bytes, BatteryIconGenerator, IconError};

verus! {

/// The cache key for a battery state: percentages interleaved with the
/// charging flag.
pub open spec fn cache_key(p: int, charging: bool) -> int {
    2 * p + if charging {
        1int
    } else {
        0int
    }
}

/// Memoized icons for one generator's font.
pub struct IconCache {
    map: HashMap<u64, Vec<u8>>,
    renders: u64,
    font: Ghost<Seq<u8>>,
}

impl IconCache {
    /// The cached icon bytes, by key.
    pub closed spec fn cached(&self) -> Map<u64, Seq<u8>> {
        self.map@.map_values(|v: Vec<u8>| v@)
    }

    /// How many times the cache has had the renderer run.
    pub closed spec fn renders(&self) -> u64 {
        self.renders
    }

    /// The font bytes of the generator the cache serves.
    pub closed spec fn font(&self) -> Seq<u8> {
        self.font@
    }

    /// Every entry lies in the finite keyspace and holds exactly the
    /// pipeline's output for its key; the renderer ran at most once per
    /// entry.
    pub closed spec fn wf(&self) -> bool {
        &&& self.map@.dom().finite()
        &&& forall|k: u64| #[trigger] self.map@.dom().contains(k) ==> k < 202
        &&& forall|k: u64| #[trigger]
            self.map@.dom().contains(k) ==> self.map@[k]@ == icon_bytes(
                self.font@,
                (k / 2) as int,
                k % 2 == 1,
            )
        &&& self.renders as int <= self.map@.dom().len()
    }

    /// An empty cache for the given generator's font.
    pub fn new(generator: &BatteryIconGenerator) -> (r: Self)
        ensures
            r.wf(),
            r.font() == generator.font_bytes(),
            r.cached() == Map::<u64, Seq<u8>>::empty(),
            r.renders() == 0,
    {
        let r = IconCache {
            map: HashMap::new(),
            renders: 0,
            font: Ghost(generator.font_bytes()),
        };
        proof {
            assert(r.cached() =~= Map::<u64, Seq<u8>>::empty());
        }
        r
    }

    /// How many times the cache has had the renderer run.
    pub fn render_count(&self) -> (r: u64)
        ensures
            r == self.renders(),
    {
        self.renders
    }

    /// The key set is a subset of the finite keyspace.
    proof fn lemma_dom_bounded(&self)
        requires
            self.wf(),
        ensures
            self.map@.dom().len() <= 202,
    {
        assert(self.map@.dom() <= Set::<u64>::range(0, 202));
        lemma_len_subset(self.map@.dom(), Set::<u64>::range(0, 202));
        <u64 as vstd::set_lib::FiniteRange>::range_properties(0, 202);
    }

    /// The cache never holds more entries than the keyspace has states.
    pub proof fn lemma_cache_bounded(&self)
        requires
            self.wf(),
        ensures
            self.cached().len() <= 202,
    {
        self.lemma_dom_bounded();
        assert(self.cached().dom() =~= self.map@.dom());
    }

    /// An owned copy of a byte vector.
    fn copy_bytes(v: &Vec<u8>) -> (r: Vec<u8>)
        ensures
            r@ == v@,
    {
        let mut out: Vec<u8> = Vec::new();
        let mut i: usize = 0;
        while i < v.len()
            invariant
                i <= v@.len(),
                out@ == v@.subrange(0, i as int),
            decreases v@.len() - i,
        {
            out.push(v[i]);
            proof {
                assert(out@ =~= v@.subrange(0, i + 1));
            }
            i = i + 1;
        }
        proof {
            assert(v@.subrange(0, v@.len() as int) =~= v@);
        }
        out
    }

    /// Returns the icon for a battery state: on a hit the stored bytes, with
    /// no render and no change; on a miss the freshly rendered bytes, stored
    /// under the key, with the render counter stepped. Every in-range
    /// percentage succeeds, and the bytes are exactly the pipeline's output
    /// for the state.
    pub fn get_or_render(
        &mut self,
        generator: &BatteryIconGenerator,
        percentage: u32,
        charging: bool,
    ) -> (r: Result<Vec<u8>, IconError>)
        requires
            old(self).wf(),
            generator.wf(),
            generator.font_bytes() == old(self).font(),
        ensures
            final(self).wf(),
            final(self).font() == old(self).font(),
            percentage > 100 <==> (r matches Err(e) && e == IconError::PercentageOutOfRange),
            percentage > 100 ==> *final(self) == *old(self),
            percentage <= 100 ==> r is Ok && r->Ok_0@ == icon_bytes(
                old(self).font(),
                percentage as int,
                charging,
            ),
            percentage <= 100 && old(self).cached().contains_key(
                cache_key(percentage as int, charging) as u64,
            ) ==> *final(self) == *old(self),
            percentage <= 100 && !old(self).cached().contains_key(
                cache_key(percentage as int, charging) as u64,
            ) ==> final(self).cached() == old(self).cached().insert(
                cache_key(percentage as int, charging) as u64,
                r->Ok_0@,
            ) && final(self).renders() == old(self).renders() + 1,
    {
        if percentage > 100 {
            return Err(IconError::PercentageOutOfRange);
        }
        let key: u64 = percentage as u64 * 2 + if charging {
            1
        } else {
            0
        };
        let hit = match self.map.get(&key) {
            Some(v) => Some(Self::copy_bytes(v)),
            None => None,
        };
        match hit {
            Some(bytes) => {
                proof {
                    assert(self.cached().contains_key(key));
                    assert(bytes@ == self.cached()[key]);
                    assert((key / 2) as int == percentage as int);
                    assert((key % 2 == 1) == charging);
                }
                Ok(bytes)
            },
            None => {
                proof {
                    assert(!self.cached().contains_key(key));
                }
                match generator.generate_icon(percentage, charging) {
                    Ok(bytes) => {
                        let stored = Self::copy_bytes(&bytes);
                        proof {
                            self.lemma_dom_bounded();
                        }
                        self.map.insert(key, stored);
                        self.renders = self.renders + 1;
                        proof {
                            assert(self.map@.dom() =~= old(self).map@.dom().insert(key));
                            vstd::set::axiom_set_insert_len(old(self).map@.dom(), key);
                            assert(self.cached() =~= old(self).cached().insert(key, bytes@));
                        }
                        Ok(bytes)
                    },
                    Err(e) => Err(e),
                }
            },
        }
    }
}

} // verus!
