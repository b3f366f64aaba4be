//! The particle store: the depth-sorted sequence of stars, the rotating
//! first index that stands in for re-sorting, and the per-frame simulation
//! step.

use vstd::prelude::*;

use vstd::arithmetic::div_mod::lemma_mod_division_less_than_divisor;
use vstd::arithmetic::div_mod::lemma_mod_sub_multiples_vanish;
use vstd::arithmetic::div_mod::lemma_small_mod;
use crate::conf::Config;
use crate::star::Star;

verus! {

/// Upper bound on the number of stars a field may hold; keeps index
/// arithmetic inside `usize` on every platform.
pub const MAX_STARS: usize = 100_000_000;

/// Whether a star at depth `z` crosses the near plane this frame.
pub open spec fn recycles(cfg: Config, z: int) -> bool {
    z - cfg.step < cfg.near
}

/// Depth after one frame: the star advances by `step` toward the viewer
/// and, if it crosses the near plane, wraps its overshoot back in from the
/// far plane as `far - (near - (z - step))` — the sub-frame remainder is
/// preserved rather than snapped to either plane.
pub open spec fn step_depth(cfg: Config, z: int) -> int {
    if recycles(cfg, z) {
        cfg.far - (cfg.near - (z - cfg.step))
    } else {
        z - cfg.step
    }
}

/// One frame keeps every depth inside `[near, far)`: because the step never
/// exceeds `far - near`, a star that crosses the near plane wraps to a depth
/// at least `far - step >= near`, and one that does not stays below `far`.
pub proof fn lemma_step_depth_in_range(cfg: Config, z: int)
    requires
        cfg.wf(),
        cfg.near <= z < cfg.far,
    ensures
        cfg.near <= step_depth(cfg, z) < cfg.far,
{
}

/// Physical slot of logical position `k` under rotation origin `first` in a
/// store of `n` slots.
pub open spec fn rot(first: int, n: int, k: int) -> int {
    (k + first) % n
}

/// The two shapes a rotated index takes, and its bounds.
proof fn lemma_rot_shape(first: int, n: int, k: int)
    requires
        0 <= first < n,
        0 <= k < n,
    ensures
        rot(first, n, k) == if k + first < n {
            k + first
        } else {
            k + first - n
        },
        0 <= rot(first, n, k) < n,
{
    if k + first < n {
        lemma_small_mod((k + first) as nat, n as nat);
    } else {
        lemma_mod_sub_multiples_vanish(k + first, n);
        lemma_small_mod((k + first - n) as nat, n as nat);
    }
}

/// The ordered collection of stars plus the rotation origin: `stars[first]`
/// is the logically farthest star, and logical traversal order wraps around
/// from there.
pub struct StarField {
    pub stars: Vec<Star>,
    pub first: usize,
}

/// What one frame of simulation does to the store: every depth steps by
/// `step_depth`, positions are untouched, and `first` moves to the
/// lowest-numbered recycled slot — or stays put when nothing recycled.
pub open spec fn advanced(cfg: Config, pre: StarField, post: StarField) -> bool {
    &&& post.stars@.len() == pre.stars@.len()
    &&& forall|i: int|
        0 <= i < pre.stars@.len() ==> (#[trigger] post.stars@[i]).position
            == pre.stars@[i].position
    &&& forall|i: int|
        0 <= i < pre.stars@.len() ==> (#[trigger] post.stars@[i]).z == step_depth(
            cfg,
            pre.stars@[i].z as int,
        )
    &&& (forall|i: int|
        0 <= i < pre.stars@.len() ==> !recycles(cfg, (#[trigger] pre.stars@[i]).z as int))
        ==> post.first == pre.first
    &&& (exists|i: int|
        0 <= i < pre.stars@.len() && recycles(cfg, (#[trigger] pre.stars@[i]).z as int)) ==> (
    post.first < pre.stars@.len() && recycles(cfg, pre.stars@[post.first as int].z as int) && (
    forall|j: int| 0 <= j < post.first ==> !recycles(cfg, (#[trigger] pre.stars@[j]).z as int)))
}

impl StarField {
    /// Structural invariant: bounded size and an in-range rotation origin.
    pub open spec fn basic_inv(self) -> bool {
        &&& self.stars@.len() <= MAX_STARS
        &&& (self.stars@.len() == 0 ==> self.first == 0)
        &&& (self.stars@.len() > 0 ==> self.first < self.stars@.len())
    }

    /// Full invariant: structurally sound and every star well formed.
    pub open spec fn wf(self, cfg: Config) -> bool {
        &&& self.basic_inv()
        &&& forall|i: int| 0 <= i < self.stars@.len() ==> self.stars@[i].wf(cfg)
    }

    /// Physical order: descending by depth, farthest at slot 0.
    pub open spec fn sorted_desc(self) -> bool {
        forall|i: int, j: int|
            0 <= i <= j < self.stars@.len() ==> self.stars@[i].z >= self.stars@[j].z
    }

    /// Builds the store from freshly generated stars: sorts them once,
    /// descending by depth, and starts the rotation at slot 0. The sorted
    /// sequence is a permutation of the input.
    pub fn new(cfg: &Config, stars: Vec<Star>) -> (field: StarField)
        requires
            cfg.wf(),
            stars@.len() <= MAX_STARS,
            forall|i: int| 0 <= i < stars@.len() ==> stars@[i].wf(*cfg),
        ensures
            field.wf(*cfg),
            field.sorted_desc(),
            logically_sorted(field),
            field.first == 0,
            field.stars@.len() == stars@.len(),
            field.stars@.to_multiset() == stars@.to_multiset(),
    {
        let n = stars.len();
        let mut out: Vec<Star> = Vec::new();
        let mut i: usize = 0;
        proof {
            assert(out@ =~= stars@.subrange(0, 0));
        }
        while i < n
            invariant
                cfg.wf(),
                n == stars@.len(),
                n <= MAX_STARS,
                forall|k: int| 0 <= k < n ==> stars@[k].wf(*cfg),
                i <= n,
                out@.len() == i,
                forall|k: int| 0 <= k < out@.len() ==> out@[k].wf(*cfg),
                forall|a: int, b: int|
                    0 <= a <= b < out@.len() ==> out@[a].z >= out@[b].z,
                out@.to_multiset() == stars@.subrange(0, i as int).to_multiset(),
            decreases n - i,
        {
            let s = stars[i];
            let mut pos: usize = 0;
            while pos < out.len() && out[pos].z >= s.z
                invariant
                    pos <= out@.len(),
                    forall|k: int| 0 <= k < pos ==> out@[k].z >= s.z,
                decreases out@.len() - pos,
            {
                pos = pos + 1;
            }
            let ghost pre = out@;
            out.insert(pos, s);
            proof {
                broadcast use vstd::seq_lib::group_to_multiset_ensures;

                assert(stars@.subrange(0, (i + 1) as int)
                    == stars@.subrange(0, i as int).push(stars@[i as int]));
                assert(out@.to_multiset()
                    == stars@.subrange(0, (i + 1) as int).to_multiset());
                assert forall|a: int, b: int| 0 <= a <= b < out@.len() implies
                    out@[a].z >= out@[b].z by {
                    if pos < pre.len() {
                        assert(pre[pos as int].z < s.z);
                    }
                }
            }
            i = i + 1;
        }
        proof {
            assert(stars@.subrange(0, n as int) =~= stars@);
        }
        let field = StarField { stars: out, first: 0 };
        proof {
            // With the rotation origin at slot 0, logical and physical
            // order coincide.
            assert forall|a: int, b: int| 0 <= a <= b < field.stars@.len() implies
                field.stars@[rot(0, field.stars@.len() as int, a)].z >= field.stars@[rot(
                0,
                field.stars@.len() as int,
                b,
            )].z by {
                lemma_rot_shape(0, field.stars@.len() as int, a);
                lemma_rot_shape(0, field.stars@.len() as int, b);
            }
        }
        field
    }

    /// Maps the logical position `i` (0 = farthest) to the physical storage
    /// slot, rotating by the current first index instead of re-sorting.
    pub fn logical_index(&self, i: usize) -> (idx: usize)
        requires
            self.basic_inv(),
            i < self.stars@.len(),
        ensures
            idx == (i + self.first) % (self.stars@.len() as int),
            idx < self.stars@.len(),
    {
        proof {
            lemma_mod_division_less_than_divisor(
                i + self.first,
                self.stars@.len() as int,
            );
        }
        (i + self.first) % self.stars.len()
    }

    /// Advances every star one frame toward the viewer, recycling stars
    /// that cross the near plane back in from the far plane, and keeps
    /// every depth inside `[near, far)`. Physical slots are visited in
    /// reverse order, so when stars recycle this frame `first` ends at the
    /// lowest-numbered recycled slot — after recycling, the farthest of
    /// them, the rotation origin for the next traversal. Positions are
    /// untouched.
    pub fn advance(&mut self, cfg: &Config)
        requires
            cfg.wf(),
            old(self).wf(*cfg),
        ensures
            final(self).wf(*cfg),
            advanced(*cfg, *old(self), *final(self)),
    {
        let n = self.stars.len();
        let mut i: usize = n;
        while i > 0
            invariant
                cfg.wf(),
                old(self).wf(*cfg),
                i <= n,
                n == self.stars@.len(),
                n == old(self).stars@.len(),
                forall|k: int| 0 <= k < i ==> self.stars@[k] == old(self).stars@[k],
                forall|k: int| i <= k < n ==>
                    self.stars@[k].position == old(self).stars@[k].position,
                forall|k: int| i <= k < n ==>
                    self.stars@[k].z == step_depth(*cfg, old(self).stars@[k].z as int),
                forall|k: int| i <= k < n ==> self.stars@[k].wf(*cfg),
                (forall|k: int| i <= k < n ==> !recycles(*cfg, old(self).stars@[k].z as int))
                    ==> self.first == old(self).first,
                (exists|k: int| i <= k < n && recycles(*cfg, old(self).stars@[k].z as int))
                    ==> i <= self.first < n
                        && recycles(*cfg, old(self).stars@[self.first as int].z as int)
                        && (forall|j: int| i <= j < self.first
                            ==> !recycles(*cfg, old(self).stars@[j].z as int)),
            decreases i,
        {
            i = i - 1;
            let s = self.stars[i];
            let z_moved = s.z - cfg.step;
            if z_moved < cfg.near {
                let z_wrapped = cfg.far - (cfg.near - z_moved);
                self.stars.set(i, Star { position: s.position, z: z_wrapped });
                self.first = i;
            } else {
                self.stars.set(i, Star { position: s.position, z: z_moved });
            }
        }
    }
}


/// Traversal order: walking the store from `first`, wrapping around, visits
/// depths farthest to nearest.
pub open spec fn logically_sorted(field: StarField) -> bool {
    forall|i: int, j: int|
        0 <= i <= j < field.stars@.len() ==> field.stars@[rot(
            field.first as int,
            field.stars@.len() as int,
            i,
        )].z >= field.stars@[rot(field.first as int, field.stars@.len() as int, j)].z
}

/// Why the store never re-sorts: when at most one star crosses the near
/// plane in a frame — the steady state, since one step is tiny against the
/// depth range — the simulation step keeps the logical traversal sorted
/// farthest to nearest. Survivors all travel by the same step, so their
/// order stands; the one recycled star was the logical nearest, re-enters
/// above every survivor, and `first` moves exactly to its slot. (When
/// several stars recycle at once, `first` still lands on a recycled slot,
/// but the traversal may briefly be imperfect; that best-effort policy only
/// affects draw order.)
pub proof fn lemma_advance_keeps_logical_order(cfg: Config, pre: StarField, post: StarField)
    requires
        cfg.wf(),
        pre.wf(cfg),
        logically_sorted(pre),
        advanced(cfg, pre, post),
        forall|a: int, b: int|
            (0 <= a < pre.stars@.len() && 0 <= b < pre.stars@.len() && recycles(
                cfg,
                (#[trigger] pre.stars@[a]).z as int,
            ) && recycles(cfg, (#[trigger] pre.stars@[b]).z as int)) ==> a == b,
    ensures
        logically_sorted(post),
{
    let n = pre.stars@.len() as int;
    if n > 0 {
        let f = pre.first as int;
        if exists|a: int| 0 <= a < n && recycles(cfg, (#[trigger] pre.stars@[a]).z as int) {
            let r = post.first as int;
            // The recycled slot is unique, so it is exactly `r`.
            assert forall|q: int| 0 <= q < n && q != r implies !recycles(
                cfg,
                (#[trigger] pre.stars@[q]).z as int,
            ) by {
                assert(recycles(cfg, pre.stars@[r].z as int));
            }
            // `r` sits at the end of the old traversal: the logical nearest
            // star is the unique one below the recycling threshold.
            let k0 = if r >= f {
                r - f
            } else {
                r - f + n
            };
            lemma_rot_shape(f, n, k0);
            lemma_rot_shape(f, n, n - 1);
            let last = rot(f, n, n - 1);
            assert(rot(f, n, k0) == r);
            assert(pre.stars@[last].z <= pre.stars@[r].z);
            assert(recycles(cfg, pre.stars@[last].z as int));
            assert(last == r);
            assert forall|i: int, j: int| 0 <= i <= j < n implies post.stars@[rot(r, n, i)].z
                >= post.stars@[rot(r, n, j)].z by {
                lemma_rot_shape(r, n, i);
                lemma_rot_shape(r, n, j);
                let pi = rot(r, n, i);
                let pj = rot(r, n, j);
                assert(post.stars@[pi].z == step_depth(cfg, pre.stars@[pi].z as int));
                assert(post.stars@[pj].z == step_depth(cfg, pre.stars@[pj].z as int));
                if i < j {
                    if i == 0 {
                        // The recycled star leads the new traversal and
                        // re-enters above every survivor.
                        assert(pi == r);
                        assert(pj != r);
                        assert(pre.stars@[r].z >= cfg.near);
                        assert(pre.stars@[pj].z < cfg.far);
                    } else {
                        // Both are survivors; their old logical order, one
                        // position earlier, carries over.
                        assert(pi != r && pj != r);
                        lemma_rot_shape(f, n, i - 1);
                        lemma_rot_shape(f, n, j - 1);
                        assert(rot(f, n, i - 1) == pi);
                        assert(rot(f, n, j - 1) == pj);
                        assert(pre.stars@[pi].z >= pre.stars@[pj].z);
                    }
                }
            }
        } else {
            // No recycle: the origin stands and every depth shrinks by the
            // same step.
            assert forall|i: int, j: int| 0 <= i <= j < n implies post.stars@[rot(
                post.first as int,
                n,
                i,
            )].z >= post.stars@[rot(post.first as int, n, j)].z by {
                lemma_rot_shape(f, n, i);
                lemma_rot_shape(f, n, j);
                let pi = rot(f, n, i);
                let pj = rot(f, n, j);
                assert(pre.stars@[pi].z >= pre.stars@[pj].z);
                assert(post.stars@[pi].z == step_depth(cfg, pre.stars@[pi].z as int));
                assert(post.stars@[pj].z == step_depth(cfg, pre.stars@[pj].z as int));
            }
        }
    }
}

} // verus!
