//! The texture cache: one entry per source image path, reference-counted
//! and never evicted, so a path is decoded and uploaded at most once.
//!
//! Decoding an image file and uploading it to the GPU happen outside this
//! crate; the cache is handed the resulting handle and pixel size and is
//! only responsible for the deduplication-by-path bookkeeping.

use crate::texture_info::TextureInfo;
use crate::vector2::Vector2;
use vstd::prelude::*;

verus! {

pub struct TextureFactory {
    textures: Vec<(String, TextureInfo)>,
}

impl TextureFactory {
    /// Paths are pairwise distinct.
    pub closed spec fn wf(&self) -> bool {
        forall|i: int, j: int|
            0 <= i < j < self.textures@.len() ==> (#[trigger] self.textures@[i].0@) != (
            #[trigger] self.textures@[j].0@)
    }

    /// The cache seen as a map from source paths to texture records.
    pub closed spec fn cache(&self) -> Map<Seq<char>, TextureInfo> {
        Map::new(
            |p: Seq<char>|
                exists|i: int| 0 <= i < self.textures@.len() && self.textures@[i].0@ == p,
            |p: Seq<char>|
                {
                    let i = choose|i: int|
                        0 <= i < self.textures@.len() && self.textures@[i].0@ == p;
                    self.textures@[i].1
                },
        )
    }

    /// Each slot is the cache entry of its own path.
    proof fn lemma_cache_at(&self, x: int)
        requires
            self.wf(),
            0 <= x < self.textures@.len(),
        ensures
            self.cache().contains_key(self.textures@[x].0@),
            self.cache()[self.textures@[x].0@] == self.textures@[x].1,
    {
        let p = self.textures@[x].0@;
        assert(self.cache().contains_key(p));
        let xd = choose|xd: int| 0 <= xd < self.textures@.len() && self.textures@[xd].0@ == p;
        if xd < x {
            assert(self.textures@[xd].0@ != self.textures@[x].0@);
        } else if x < xd {
            assert(self.textures@[x].0@ != self.textures@[xd].0@);
        }
    }

    pub fn new() -> (f: TextureFactory)
        ensures
            f.wf(),
            f.cache() == Map::<Seq<char>, TextureInfo>::empty(),
    {
        let f = TextureFactory { textures: Vec::new() };
        proof {
            assert(f.cache() =~= Map::<Seq<char>, TextureInfo>::empty());
        }
        f
    }

    /// The cache slot holding `path`, if any.
    fn find(&self, path: &String) -> (r: Option<usize>)
        requires
            self.wf(),
        ensures
            match r {
                Some(i) => i < self.textures@.len() && self.textures@[i as int].0@ == path@,
                None => !self.cache().contains_key(path@),
            },
    {
        let n: usize = self.textures.len();
        let mut i: usize = 0;
        while i < n
            invariant
                self.wf(),
                n == self.textures@.len(),
                i <= n,
                forall|j: int| 0 <= j < i ==> (#[trigger] self.textures@[j].0@) != path@,
            decreases n - i,
        {
            if self.textures[i].0 == *path {
                return Some(i);
            }
            i += 1;
        }
        None
    }

    /// Take another reference to an already-cached path: its reference
    /// count goes up by one (capped at the counter's maximum) and its
    /// record is returned. An uncached path is left for the caller to
    /// decode and register.
    pub fn acquire_cached(&mut self, path: &String) -> (r: Option<TextureInfo>)
        requires
            old(self).wf(),
        ensures
            final(self).wf(),
            match r {
                Some(info) => {
                    let prior = old(self).cache()[path@];
                    &&& old(self).cache().contains_key(path@)
                    &&& info == (TextureInfo {
                        life_count: if prior.life_count < u32::MAX {
                            (prior.life_count + 1) as u32
                        } else {
                            prior.life_count
                        },
                        ..prior
                    })
                    &&& final(self).cache() == old(self).cache().insert(path@, info)
                },
                None => {
                    &&& !old(self).cache().contains_key(path@)
                    &&& *final(self) == *old(self)
                },
            },
    {
        let ghost old_self = *self;
        let slot = self.find(path);
        match slot {
            Some(i) => {
                let mut info = self.textures[i].1;
                if info.life_count < u32::MAX {
                    info.life_count = info.life_count + 1;
                }
                let path_owned: String = self.textures[i].0.clone();
                self.textures.set(i, (path_owned, info));
                proof {
                    let n = old_self.textures@.len() as int;
                    assert(forall|j: int|
                        0 <= j < n && j != i ==> self.textures@[j] == old_self.textures@[j]);
                    assert(self.textures@[i as int].0@ == old_self.textures@[i as int].0@);
                    assert(self.wf());
                    old_self.lemma_cache_at(i as int);
                    self.lemma_cache_at(i as int);
                    assert forall|p: Seq<char>|
                        self.cache().contains_key(p) == old_self.cache().insert(
                            path@,
                            info,
                        ).contains_key(p) by {
                        if self.cache().contains_key(p) {
                            let x = choose|x: int|
                                0 <= x < self.textures@.len() && self.textures@[x].0@ == p;
                            old_self.lemma_cache_at(x);
                        }
                        if old_self.cache().contains_key(p) {
                            let x = choose|x: int|
                                0 <= x < old_self.textures@.len() && old_self.textures@[x].0@
                                    == p;
                            self.lemma_cache_at(x);
                        }
                    }
                    assert forall|p: Seq<char>| #[trigger]
                        self.cache().contains_key(p) implies self.cache()[p]
                        == old_self.cache().insert(path@, info)[p] by {
                        let x = choose|x: int|
                            0 <= x < self.textures@.len() && self.textures@[x].0@ == p;
                        self.lemma_cache_at(x);
                        if p == path@ {
                            if x < i as int {
                                assert(self.textures@[x].0@ != self.textures@[i as int].0@);
                            } else if (i as int) < x {
                                assert(self.textures@[i as int].0@ != self.textures@[x].0@);
                            }
                            assert(x == i as int);
                        } else {
                            assert(x != i as int);
                            old_self.lemma_cache_at(x);
                        }
                    }
                    assert(self.cache() =~= old_self.cache().insert(path@, info));
                }
                Some(info)
            },
            None => None,
        }
    }

    /// Enter a freshly decoded texture into the cache under its path, with
    /// a reference count of one. The path must not be cached yet.
    pub fn register_texture(&mut self, path: &String, id: u32, size: Vector2)
        requires
            old(self).wf(),
            !old(self).cache().contains_key(path@),
        ensures
            final(self).wf(),
            final(self).cache() == old(self).cache().insert(
                path@,
                TextureInfo { id, size, life_count: 1 },
            ),
    {
        let ghost old_self = *self;
        let info = TextureInfo { id, size, life_count: 1 };
        self.textures.push((path.clone(), info));
        proof {
            let n = old_self.textures@.len() as int;
            assert forall|j: int| 0 <= j < n implies (#[trigger] old_self.textures@[j].0@)
                != path@ by {
                if old_self.textures@[j].0@ == path@ {
                    old_self.lemma_cache_at(j);
                }
            }
            assert(self.wf());
            self.lemma_cache_at(n);
            assert forall|p: Seq<char>|
                self.cache().contains_key(p) == old_self.cache().insert(
                    path@,
                    info,
                ).contains_key(p) by {
                if self.cache().contains_key(p) {
                    let x = choose|x: int|
                        0 <= x < self.textures@.len() && self.textures@[x].0@ == p;
                    if x < n {
                        old_self.lemma_cache_at(x);
                    }
                }
                if old_self.cache().contains_key(p) {
                    let x = choose|x: int|
                        0 <= x < old_self.textures@.len() && old_self.textures@[x].0@ == p;
                    self.lemma_cache_at(x);
                }
            }
            assert forall|p: Seq<char>| #[trigger] self.cache().contains_key(p) implies self.cache(
            )[p] == old_self.cache().insert(path@, info)[p] by {
                let x = choose|x: int|
                    0 <= x < self.textures@.len() && self.textures@[x].0@ == p;
                self.lemma_cache_at(x);
                if p == path@ {
                    if x < n {
                        assert(self.textures@[x].0@ != self.textures@[n].0@);
                    }
                    assert(x == n);
                } else {
                    assert(x != n);
                    old_self.lemma_cache_at(x);
                }
            }
            assert(self.cache() =~= old_self.cache().insert(path@, info));
        }
    }
}

} // verus!
