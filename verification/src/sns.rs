//! Links from an identity to its handles on outside platforms.

use vstd::prelude::*;

verus! {

/// One link: the handle that the identity goes by on a platform.
#[derive(Clone, Debug, PartialEq, Eq)]
pub struct SnsLink {
    pub platform: String,
    pub handle: String,
}

/// The links of one identity, at most one per platform.
///
/// As a value it is a finite map from platform name to handle; `@` gives that
/// map. The links are kept in the order in which their platforms were first
/// linked, and `==` compares them in that order.
#[derive(Debug, PartialEq, Eq)]
pub struct SnsLinks {
    entries: Vec<SnsLink>,
}

impl View for SnsLinks {
    type V = Map<Seq<char>, Seq<char>>;

    closed spec fn view(&self) -> Map<Seq<char>, Seq<char>> {
        Map::new(
            |platform: Seq<char>| self.position(platform) is Some,
            |platform: Seq<char>| self.entries[self.position(platform)->0].handle@,
        )
    }
}

impl Clone for SnsLinks {
    fn clone(&self) -> (copy: Self)
        ensures
            copy@ == self@,
    {
        proof {
            use_type_invariant(self);
        }
        let mut entries: Vec<SnsLink> = Vec::new();
        let mut i: usize = 0;
        while i < self.entries.len()
            invariant
                i <= self.entries.len(),
                entries@ == self.entries@.take(i as int),
            decreases self.entries.len() - i,
        {
            let link = SnsLink {
                platform: self.entries[i].platform.clone(),
                handle: self.entries[i].handle.clone(),
            };
            entries.push(link);
            assert(entries@ =~= self.entries@.take(i + 1));
            i += 1;
        }
        assert(entries@ =~= self.entries@);
        SnsLinks { entries }
    }
}

impl SnsLinks {
    #[verifier::type_invariant]
    closed spec fn one_link_per_platform(self) -> bool {
        forall|i: int, j: int|
            0 <= i < j < self.entries.len() ==> self.entries[i].platform@
                != self.entries[j].platform@
    }

    /// Where the link of `platform` is kept, if there is one.
    closed spec fn position(self, platform: Seq<char>) -> Option<int> {
        if exists|i: int| 0 <= i < self.entries.len() && self.entries[i].platform@ == platform {
            Some(choose|i: int| 0 <= i < self.entries.len() && self.entries[i].platform@ == platform)
        } else {
            None
        }
    }

    /// With one link per platform, the map holds exactly the links kept.
    proof fn lemma_view_is_entries(self)
        requires
            self.one_link_per_platform(),
        ensures
            forall|i: int|
                0 <= i < self.entries.len() ==> self.position(
                    (#[trigger] self.entries[i]).platform@,
                ) == Some(i) && self@.contains_key(self.entries[i].platform@)
                    && self@[self.entries[i].platform@] == self.entries[i].handle@,
            forall|q: Seq<char>| #[trigger]
                self@.contains_key(q) ==> self.position(q) is Some && 0 <= self.position(q)->0
                    < self.entries.len() && self.entries[self.position(q)->0].platform@ == q,
    {
    }

    /// The links in the order in which they are kept.
    pub closed spec fn links(self) -> Seq<SnsLink> {
        self.entries@
    }

    /// No links at all.
    pub fn new() -> (links: SnsLinks)
        ensures
            links@ == Map::<Seq<char>, Seq<char>>::empty(),
    {
        SnsLinks { entries: Vec::new() }
    }

    fn find(&self, platform: &String) -> (r: Option<usize>)
        ensures
            match r {
                Some(i) => i < self.entries.len() && self.entries[i as int].platform@ == platform@
                    && self.position(platform@) == Some(i as int),
                None => self.position(platform@) is None,
            },
    {
        let mut i: usize = 0;
        while i < self.entries.len()
            invariant
                i <= self.entries.len(),
                forall|j: int| 0 <= j < i ==> self.entries[j].platform@ != platform@,
            decreases self.entries.len() - i,
        {
            if self.entries[i].platform == *platform {
                proof {
                    use_type_invariant(self);
                    self.lemma_view_is_entries();
                }
                return Some(i);
            }
            i += 1;
        }
        None
    }

    /// The handle linked for `platform`, if any.
    pub fn get(&self, platform: &String) -> (handle: Option<&String>)
        ensures
            match handle {
                Some(h) => self@.contains_key(platform@) && self@[platform@] == h@,
                None => !self@.contains_key(platform@),
            },
    {
        match self.find(platform) {
            Some(i) => Some(&self.entries[i].handle),
            None => None,
        }
    }

    /// With one link per platform, the map has as many entries as links are
    /// kept.
    proof fn lemma_size_is_entries(self)
        requires
            self.one_link_per_platform(),
        ensures
            self@.dom().finite(),
            self@.len() == self.entries.len(),
    {
        let platforms = self.entries@.map_values(|link: SnsLink| link.platform@);
        self.lemma_view_is_entries();
        assert forall|q: Seq<char>| self@.dom().contains(q) <==> platforms.to_set().contains(
            q,
        ) by {
            if self@.dom().contains(q) {
                assert(platforms[self.position(q)->0] == q);
            }
            if platforms.contains(q) {
                let i = platforms.index_of(q);
                assert(self.entries[i].platform@ == q);
            }
        }
        assert(self@.dom() =~= platforms.to_set());
        vstd::seq_lib::seq_to_set_is_finite(platforms);
        platforms.unique_seq_to_set();
    }

    /// The number of links, which is the size of the map. Every entry of the
    /// map is one of the links.
    pub fn len(&self) -> (n: usize)
        ensures
            n == self.links().len(),
            self@.dom().finite(),
            n == self@.len(),
            forall|platform: Seq<char>| #[trigger]
                self@.contains_key(platform) ==> exists|i: int|
                    0 <= i < n && self.links()[i].platform@ == platform,
    {
        proof {
            use_type_invariant(self);
            self.lemma_view_is_entries();
            self.lemma_size_is_entries();
        }
        self.entries.len()
    }

    /// The `i`-th link. Each link kept is an entry of the map, so walking the
    /// indices below `len()` visits the map.
    pub fn link(&self, i: usize) -> (link: &SnsLink)
        requires
            i < self.links().len(),
        ensures
            *link == self.links()[i as int],
            self@.contains_key(link.platform@),
            self@[link.platform@] == link.handle@,
    {
        proof {
            use_type_invariant(self);
            self.lemma_view_is_entries();
        }
        &self.entries[i]
    }

    /// Links `platform` to `handle`, in place of whatever it was linked to.
    pub fn insert(&mut self, platform: String, handle: String)
        ensures
            final(self)@ == old(self)@.insert(platform@, handle@),
    {
        proof {
            use_type_invariant(&*self);
        }
        let found = self.find(&platform);
        let mut entries: Vec<SnsLink> = Vec::new();
        core::mem::swap(&mut self.entries, &mut entries);
        match found {
            Some(i) => {
                entries[i].handle = handle;
            },
            None => {
                entries.push(SnsLink { platform, handle });
            },
        }
        self.entries = entries;
        proof {
            old(self).lemma_view_is_entries();
            self.lemma_view_is_entries();
            let grown = old(self)@.insert(platform@, handle@);
            assert forall|q: Seq<char>| self@.contains_key(q) implies grown.contains_key(q)
                && grown[q] == self@[q] by {
                let k = self.position(q)->0;
                if found is Some && k == found->0 {
                } else if found is None && k == old(self).entries.len() {
                } else {
                    assert(old(self).entries[k].platform@ == q);
                }
            }
            assert forall|q: Seq<char>| grown.contains_key(q) implies self@.contains_key(q) by {
                if q == platform@ {
                    if found is Some {
                        assert(self.entries[found->0 as int].platform@ == q);
                    } else {
                        assert(self.entries[old(self).entries.len() as int].platform@ == q);
                    }
                } else {
                    let k = old(self).position(q)->0;
                    assert(self.entries[k].platform@ == q);
                }
            }
            assert(self@ =~= grown);
        }
    }

    /// Drops the link of `platform`; without one, nothing changes.
    pub fn remove(&mut self, platform: &String)
        ensures
            final(self)@ == old(self)@.remove(platform@),
    {
        proof {
            use_type_invariant(&*self);
        }
        let found = self.find(platform);
        let mut entries: Vec<SnsLink> = Vec::new();
        core::mem::swap(&mut self.entries, &mut entries);
        match found {
            Some(i) => {
                entries.remove(i);
            },
            None => {},
        }
        self.entries = entries;
        proof {
            old(self).lemma_view_is_entries();
            self.lemma_view_is_entries();
            let shrunk = old(self)@.remove(platform@);
            assert forall|q: Seq<char>| self@.contains_key(q) implies shrunk.contains_key(q)
                && shrunk[q] == self@[q] by {
                let k = self.position(q)->0;
                if found is Some && k >= found->0 {
                    assert(old(self).entries[k + 1].platform@ == q);
                } else {
                    assert(old(self).entries[k].platform@ == q);
                }
            }
            assert forall|q: Seq<char>| shrunk.contains_key(q) implies self@.contains_key(q) by {
                let k = old(self).position(q)->0;
                if found is Some && k > found->0 {
                    assert(self.entries[k - 1].platform@ == q);
                } else {
                    assert(self.entries[k].platform@ == q);
                }
            }
            assert(self@ =~= shrunk);
        }
    }
}

} // verus!
