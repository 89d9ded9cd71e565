//! Memoisation of voxel source queries over one extraction.
//!
//! On construction the cache eagerly loads the (N+1)³ regular voxels of the
//! block.  On first demand it loads a halo of six (N+1)² slabs one step
//! outside the block (needed by gradient stencils at the block boundary).
//! On entry to the transition phase it loads, for each active face, the high
//! resolution voxels of the face that are not already regular voxels.
//!
//! Two ghost multisets record every address handed to the oracle, and the
//! cache's well-formedness ties their multiplicities to the cache contents:
//! an address the cache holds has been queried exactly once, any other
//! regular address not at all.  That is the cache determinism guarantee: the
//! oracle is never called twice for an address the cache holds.

use vstd::multiset::Multiset;
use vstd::prelude::*;

use crate::traits::VoxelData;
use crate::transition_sides::{TransitionSide, TransitionSides};
use crate::voxel_coordinates::{HighResolutionVoxelIndex, RegularVoxelIndex};
use crate::voxel_source::VoxelSource;

verus! {

broadcast use vstd::multiset::group_multiset_axioms;

/// Whether (x, y, z) is a regular voxel of the block itself.
pub open spec fn is_block_addr(n: int, x: int, y: int, z: int) -> bool {
    0 <= x <= n && 0 <= y <= n && 0 <= z <= n
}

/// Position of a block voxel in the flat block cache (x-major).
pub open spec fn block_position(n: int, x: int, y: int, z: int) -> int {
    (n + 1) * (n + 1) * x + (n + 1) * y + z
}

/// Whether (x, y, z) is a halo voxel: exactly one coordinate one step
/// outside the block, the two others within it.
pub open spec fn is_halo_addr(n: int, x: int, y: int, z: int) -> bool {
    halo_slab(n, x, y, z) >= 0
}

/// Which of the six halo slabs (x, y, z) belongs to, or -1 if none:
/// 0 and 1 are x = -1 and x = n+1, then likewise for y and z.
pub open spec fn halo_slab(n: int, x: int, y: int, z: int) -> int {
    if x == -1 && 0 <= y <= n && 0 <= z <= n {
        0
    } else if x == n + 1 && 0 <= y <= n && 0 <= z <= n {
        1
    } else if y == -1 && 0 <= x <= n && 0 <= z <= n {
        2
    } else if y == n + 1 && 0 <= x <= n && 0 <= z <= n {
        3
    } else if z == -1 && 0 <= x <= n && 0 <= y <= n {
        4
    } else if z == n + 1 && 0 <= x <= n && 0 <= y <= n {
        5
    } else {
        -1
    }
}

/// The in-slab coordinates of a halo voxel: the two block-range coordinates.
pub open spec fn halo_ab(n: int, x: int, y: int, z: int) -> (int, int) {
    let slab = halo_slab(n, x, y, z);
    if slab == 0 || slab == 1 {
        (y, z)
    } else if slab == 2 || slab == 3 {
        (x, z)
    } else {
        (x, y)
    }
}

/// Position of a halo voxel in the flat halo cache (slab-major).
pub open spec fn halo_position(n: int, x: int, y: int, z: int) -> int {
    let slab = halo_slab(n, x, y, z);
    let ab = halo_ab(n, x, y, z);
    slab * (n + 1) * (n + 1) + (n + 1) * ab.0 + ab.1
}

/// The halo address of slab `slab` at in-slab coordinates (a, b).
pub open spec fn halo_addr_of(n: int, slab: int, a: int, b: int) -> (int, int, int) {
    if slab == 0 {
        (-1, a, b)
    } else if slab == 1 {
        (n + 1, a, b)
    } else if slab == 2 {
        (a, -1, b)
    } else if slab == 3 {
        (a, n + 1, b)
    } else if slab == 4 {
        (a, b, -1)
    } else {
        (a, b, n + 1)
    }
}

/// Whether (x, y, z) is an address the cache can serve: a block voxel or a
/// halo voxel.
pub open spec fn regular_addr_valid(n: int, x: int, y: int, z: int) -> bool {
    is_block_addr(n, x, y, z) || is_halo_addr(n, x, y, z)
}

/// Whether (side, gu, gv) is a high resolution face address the cache holds
/// once the side is loaded: on the face (w = 0, both coordinates within the
/// doubled grid) and not on the regular grid (odd gu or gv).
pub open spec fn is_t_addr(n: int, side: int, gu: int, gv: int) -> bool {
    &&& 0 <= side < 6
    &&& 0 <= gu <= 2 * n
    &&& 0 <= gv <= 2 * n
    &&& (gu % 2 == 1 || gv % 2 == 1)
}

/// A value placed at one offset of a flat array, with a later offset,
/// determines and is determined by its coordinates: flattening as
/// `a * stride + b` with `b` within the stride is injective.
pub proof fn lemma_flat_pair_injective(stride: int, a1: int, b1: int, a2: int, b2: int)
    requires
        stride >= 1,
        0 <= b1 < stride,
        0 <= b2 < stride,
        a1 * stride + b1 == a2 * stride + b2,
    ensures
        a1 == a2,
        b1 == b2,
{
    vstd::arithmetic::div_mod::lemma_fundamental_div_mod_converse(
        a1 * stride + b1,
        stride,
        a1,
        b1,
    );
    vstd::arithmetic::div_mod::lemma_fundamental_div_mod_converse(
        a2 * stride + b2,
        stride,
        a2,
        b2,
    );
}

/// A flat offset stays below the array size.
pub proof fn lemma_flat_pair_bound(stride: int, a: int, b: int, bound: int)
    requires
        0 <= a < bound,
        0 <= b < stride,
    ensures
        0 <= a * stride + b,
        a * stride + b < bound * stride,
        a * stride + b + 1 <= bound * stride,
        stride * a == a * stride,
{
    assert(0 <= a * stride + b && a * stride + b + 1 <= bound * stride && stride * a == a * stride)
        by (nonlinear_arith)
        requires
            0 <= a < bound,
            0 <= b < stride,
    ;
}

/// Block positions determine their coordinates.
pub proof fn lemma_block_position_injective(
    n: int,
    x1: int,
    y1: int,
    z1: int,
    x2: int,
    y2: int,
    z2: int,
)
    requires
        n >= 1,
        is_block_addr(n, x1, y1, z1),
        is_block_addr(n, x2, y2, z2),
        block_position(n, x1, y1, z1) == block_position(n, x2, y2, z2),
    ensures
        x1 == x2 && y1 == y2 && z1 == z2,
{
    let s = n + 1;
    lemma_flat_pair_bound(s, y1, z1, s);
    lemma_flat_pair_bound(s, y2, z2, s);
    lemma_flat_pair_injective(s * s, x1, s * y1 + z1, x2, s * y2 + z2);
    lemma_flat_pair_injective(s, y1, z1, y2, z2);
}

/// Block positions stay within the block cache.
pub proof fn lemma_block_position_bound(n: int, x: int, y: int, z: int)
    requires
        n >= 1,
        is_block_addr(n, x, y, z),
    ensures
        0 <= block_position(n, x, y, z),
        block_position(n, x, y, z) < (n + 1) * (n + 1) * (n + 1),
{
    let s = n + 1;
    lemma_flat_pair_bound(s, y, z, s);
    lemma_flat_pair_bound(s * s, x, s * y + z, s);
    assert(s * (s * s) == s * s * s) by (nonlinear_arith);
}

/// A halo address is the address of its own slab coordinates.
pub proof fn lemma_halo_roundtrip(n: int, x: int, y: int, z: int)
    requires
        n >= 1,
        is_halo_addr(n, x, y, z),
    ensures
        !is_block_addr(n, x, y, z),
        0 <= halo_slab(n, x, y, z) < 6,
        0 <= halo_ab(n, x, y, z).0 <= n,
        0 <= halo_ab(n, x, y, z).1 <= n,
        halo_addr_of(n, halo_slab(n, x, y, z), halo_ab(n, x, y, z).0, halo_ab(n, x, y, z).1) == (
            x,
            y,
            z,
        ),
{
}

/// The address of slab coordinates is a halo address with those coordinates.
pub proof fn lemma_halo_addr_of_valid(n: int, slab: int, a: int, b: int)
    requires
        n >= 1,
        0 <= slab < 6,
        0 <= a <= n,
        0 <= b <= n,
    ensures
        ({
            let addr = halo_addr_of(n, slab, a, b);
            &&& is_halo_addr(n, addr.0, addr.1, addr.2)
            &&& !is_block_addr(n, addr.0, addr.1, addr.2)
            &&& halo_slab(n, addr.0, addr.1, addr.2) == slab
            &&& halo_ab(n, addr.0, addr.1, addr.2) == (a, b)
            &&& halo_position(n, addr.0, addr.1, addr.2) == slab * (n + 1) * (n + 1) + (n + 1) * a
                + b
        }),
{
    assert(slab * ((n + 1) * (n + 1)) == slab * (n + 1) * (n + 1)) by (nonlinear_arith);
}

/// Halo positions determine their addresses.
pub proof fn lemma_halo_position_injective(
    n: int,
    x1: int,
    y1: int,
    z1: int,
    x2: int,
    y2: int,
    z2: int,
)
    requires
        n >= 1,
        is_halo_addr(n, x1, y1, z1),
        is_halo_addr(n, x2, y2, z2),
        halo_position(n, x1, y1, z1) == halo_position(n, x2, y2, z2),
    ensures
        x1 == x2 && y1 == y2 && z1 == z2,
{
    let s = n + 1;
    let slab1 = halo_slab(n, x1, y1, z1);
    let slab2 = halo_slab(n, x2, y2, z2);
    let ab1 = halo_ab(n, x1, y1, z1);
    let ab2 = halo_ab(n, x2, y2, z2);
    lemma_halo_roundtrip(n, x1, y1, z1);
    lemma_halo_roundtrip(n, x2, y2, z2);
    lemma_flat_pair_bound(s, ab1.0, ab1.1, s);
    lemma_flat_pair_bound(s, ab2.0, ab2.1, s);
    assert(slab1 * s * s == slab1 * (s * s)) by (nonlinear_arith);
    assert(slab2 * s * s == slab2 * (s * s)) by (nonlinear_arith);
    lemma_flat_pair_injective(s * s, slab1, s * ab1.0 + ab1.1, slab2, s * ab2.0 + ab2.1);
    lemma_flat_pair_injective(s, ab1.0, ab1.1, ab2.0, ab2.1);
}

/// Halo positions stay within the halo cache.
pub proof fn lemma_halo_position_bound(n: int, x: int, y: int, z: int)
    requires
        n >= 1,
        is_halo_addr(n, x, y, z),
    ensures
        0 <= halo_position(n, x, y, z),
        halo_position(n, x, y, z) < 6 * (n + 1) * (n + 1),
{
    let s = n + 1;
    let slab = halo_slab(n, x, y, z);
    let ab = halo_ab(n, x, y, z);
    lemma_halo_roundtrip(n, x, y, z);
    lemma_flat_pair_bound(s, ab.0, ab.1, s);
    lemma_flat_pair_bound(s * s, slab, s * ab.0 + ab.1, 6);
    assert(slab * (s * s) == slab * s * s) by (nonlinear_arith);
    assert(6 * (s * s) == 6 * s * s) by (nonlinear_arith);
}

/// The regular voxel index of halo slab `slab` at in-slab coordinates
/// (a, b).
fn halo_voxel_index(subs: usize, slab: usize, a: usize, b: usize) -> (r: RegularVoxelIndex)
    requires
        slab < 6,
        a <= subs,
        b <= subs,
        crate::voxel_coordinates::fits_subdivisions(subs as int),
    ensures
        ({
            let addr = halo_addr_of(subs as int, slab as int, a as int, b as int);
            r.x == addr.0 && r.y == addr.1 && r.z == addr.2
        }),
{
    proof {
        crate::voxel_coordinates::lemma_fits_consequences(subs as int);
    }
    if slab == 0 {
        RegularVoxelIndex { x: -1, y: a as isize, z: b as isize }
    } else if slab == 1 {
        RegularVoxelIndex { x: subs as isize + 1, y: a as isize, z: b as isize }
    } else if slab == 2 {
        RegularVoxelIndex { x: a as isize, y: -1, z: b as isize }
    } else if slab == 3 {
        RegularVoxelIndex { x: a as isize, y: subs as isize + 1, z: b as isize }
    } else if slab == 4 {
        RegularVoxelIndex { x: a as isize, y: b as isize, z: -1 }
    } else {
        RegularVoxelIndex { x: a as isize, y: b as isize, z: subs as isize + 1 }
    }
}

/// Memoises queries against a voxel source over one extraction.
pub struct PreCachingVoxelSource<V: VoxelData, S: VoxelSource<V>> {
    inner_source: S,
    block_subdivisions: usize,
    regular_cache: Vec<V>,
    regular_cache_extended: Vec<V>,
    regular_cache_extended_loaded: bool,
    transition_cache: Vec<Option<V>>,
    transition_cache_loaded: bool,
    transition_cache_slices: Vec<usize>,
    queried_regular: Ghost<Multiset<(int, int, int)>>,
    queried_transition: Ghost<Multiset<(int, int, int)>>,
}

impl<V: VoxelData, S: VoxelSource<V>> PreCachingVoxelSource<V, S> {
    /// The block's subdivision count.
    pub closed spec fn subs(self) -> int {
        self.block_subdivisions as int
    }

    /// Whether the halo has been loaded.
    pub closed spec fn extended_loaded(self) -> bool {
        self.regular_cache_extended_loaded
    }

    /// Whether the transition faces have been loaded.
    pub closed spec fn transition_loaded(self) -> bool {
        self.transition_cache_loaded
    }

    /// Which data values the underlying source can return.
    pub closed spec fn source_may_yield(self, data: V) -> bool {
        self.inner_source.may_yield(data)
    }

    /// The cached value of the block voxel (x, y, z).
    pub closed spec fn block_value(self, x: int, y: int, z: int) -> V {
        self.regular_cache[block_position(self.subs(), x, y, z)]
    }

    /// The cached value of the halo voxel (x, y, z).
    pub closed spec fn halo_value(self, x: int, y: int, z: int) -> V {
        self.regular_cache_extended[halo_position(self.subs(), x, y, z)]
    }

    /// The cached value of any regular voxel address, block or halo.
    pub open spec fn regular_value(self, x: int, y: int, z: int) -> V {
        if is_block_addr(self.subs(), x, y, z) {
            self.block_value(x, y, z)
        } else {
            self.halo_value(x, y, z)
        }
    }

    /// How often the oracle has been asked for the regular voxel (x, y, z):
    /// once as soon as the cache holds it, never otherwise.
    pub closed spec fn expected_regular_queries(self, x: int, y: int, z: int) -> int {
        let n = self.subs();
        if is_block_addr(n, x, y, z) && block_position(n, x, y, z) < self.regular_cache.len() {
            1
        } else if is_halo_addr(n, x, y, z) && halo_position(n, x, y, z)
            < self.regular_cache_extended.len() {
            1
        } else {
            0
        }
    }

    /// The ghost record of regular oracle queries.
    pub closed spec fn regular_queries(self) -> Multiset<(int, int, int)> {
        self.queried_regular@
    }

    /// The ghost record of transition oracle queries on held addresses.
    pub closed spec fn transition_queries(self) -> Multiset<(int, int, int)> {
        self.queried_transition@
    }

    /// The source's predicates, as the cache presents them.
    pub closed spec fn source_frame(self, other: Self) -> bool {
        &&& forall|v: V|
            self.inner_source.may_yield(v) == other.inner_source.may_yield(v)
        &&& forall|idx: HighResolutionVoxelIndex|
            self.inner_source.admits_transition_index(idx)
                == other.inner_source.admits_transition_index(idx)
    }

    /// Every value held in the regular caches could have been returned by
    /// the source, and the ghost query log matches the cache contents.
    pub closed spec fn regular_caches_wf(self) -> bool {
        let n = self.subs();
        &&& self.regular_cache.len() <= (n + 1) * (n + 1) * (n + 1)
        &&& self.regular_cache_extended.len() <= 6 * (n + 1) * (n + 1)
        &&& (forall|i: int|
            0 <= i < self.regular_cache.len() ==> self.inner_source.may_yield(
                #[trigger] self.regular_cache[i],
            ))
        &&& (forall|i: int|
            0 <= i < self.regular_cache_extended.len() ==> self.inner_source.may_yield(
                #[trigger] self.regular_cache_extended[i],
            ))
        &&& (forall|x: int, y: int, z: int|
            #[trigger] self.regular_queries().count((x, y, z))
                == self.expected_regular_queries(x, y, z))
    }

    /// Basic shape of the cache.
    pub closed spec fn shape_wf(self) -> bool {
        let n = self.subs();
        &&& crate::voxel_coordinates::fits_subdivisions(n)
        &&& self.inner_source.wf()
        &&& self.regular_cache.len() == (n + 1) * (n + 1) * (n + 1)
        &&& self.regular_cache_extended.len() == if self.regular_cache_extended_loaded {
            6 * (n + 1) * (n + 1)
        } else {
            0int
        }
        &&& forall|idx: HighResolutionVoxelIndex|
            idx.valid_for(n) ==> #[trigger] self.inner_source.admits_transition_index(idx)
    }

    /// Everything the cache promises between calls.
    pub open spec fn wf(self) -> bool {
        &&& self.shape_wf()
        &&& self.regular_caches_wf()
        &&& self.transition_wf()
    }

    /// The doubled-resolution stride of one face slab.
    pub open spec fn t_stride(self) -> int {
        2 * self.subs() + 1
    }

    /// Whether the given side's face slab has been materialised.
    pub closed spec fn side_loaded(self, side: int) -> bool {
        self.transition_cache_slices[side] != usize::MAX
    }

    /// Which slab of the transition cache the given side occupies.
    pub closed spec fn slice_of(self, side: int) -> int {
        self.transition_cache_slices[side] as int
    }

    /// Position of a face voxel in the flat transition cache.
    pub open spec fn t_position(self, side: int, gu: int, gv: int) -> int {
        self.slice_of(side) * (self.t_stride() * self.t_stride()) + self.t_stride() * gu + gv
    }

    /// The slot of a face voxel in the transition cache.
    pub closed spec fn t_slot(self, side: int, gu: int, gv: int) -> Option<V> {
        self.transition_cache[self.t_position(side, gu, gv)]
    }

    /// The cached value of a face voxel.
    pub open spec fn transition_value(self, side: int, gu: int, gv: int) -> V {
        self.t_slot(side, gu, gv)->Some_0
    }

    /// How often the oracle has been asked for a held face address: once as
    /// soon as the cache holds it, never otherwise.
    pub closed spec fn expected_transition_queries(self, side: int, gu: int, gv: int) -> int {
        let n = self.subs();
        if is_t_addr(n, side, gu, gv) && self.side_loaded(side) && 0 <= self.t_position(
            side,
            gu,
            gv,
        ) < self.transition_cache.len() && self.t_slot(side, gu, gv) is Some {
            1
        } else {
            0
        }
    }

    /// Every value held in the transition cache could have been returned by
    /// the source, loaded slabs are laid out without overlap, and the ghost
    /// query log matches the cache contents.
    pub closed spec fn transition_wf(self) -> bool {
        let n = self.subs();
        let s2 = self.t_stride() * self.t_stride();
        &&& self.transition_cache_slices.len() == 6
        &&& (!self.transition_cache_loaded ==> self.transition_cache.len() == 0 && forall|
            side: int,
        |
            0 <= side < 6 ==> !self.side_loaded(side))
        &&& (forall|side: int|
            0 <= side < 6 && #[trigger] self.side_loaded(side) ==> 0 <= self.slice_of(side) < 6 && (
            self.slice_of(side) + 1) * s2 <= self.transition_cache.len())
        &&& (forall|s1: int, s2_: int|
            0 <= s1 < 6 && 0 <= s2_ < 6 && s1 != s2_ && #[trigger] self.side_loaded(s1)
                && #[trigger] self.side_loaded(s2_) ==> self.slice_of(s1) != self.slice_of(s2_))
        &&& (forall|i: int|
            0 <= i < self.transition_cache.len() && (#[trigger] self.transition_cache[i]) is Some
                ==> self.inner_source.may_yield(self.transition_cache[i]->Some_0))
        &&& (self.transition_cache_loaded ==> forall|side: int, gu: int, gv: int|
            is_t_addr(n, side, gu, gv) && #[trigger] self.side_loaded(side) ==> (
            #[trigger] self.t_slot(side, gu, gv)) is Some)
        &&& (forall|side: int, gu: int, gv: int|
            #[trigger] self.transition_queries().count((side, gu, gv))
                == self.expected_transition_queries(side, gu, gv))
    }

    /// Fetch one regular voxel from the oracle, recording the query.
    fn from_source(&mut self, x: isize, y: isize, z: isize) -> (r: V)
        requires
            old(self).inner_source.wf(),
        ensures
            final(self).inner_source.wf(),
            old(self).inner_source.may_yield(r),
            final(self).source_frame(*old(self)),
            final(self).queried_regular@ == old(self).queried_regular@.insert(
                (x as int, y as int, z as int),
            ),
            final(self).queried_transition@ == old(self).queried_transition@,
            final(self).block_subdivisions == old(self).block_subdivisions,
            final(self).regular_cache == old(self).regular_cache,
            final(self).regular_cache_extended == old(self).regular_cache_extended,
            final(self).regular_cache_extended_loaded == old(self).regular_cache_extended_loaded,
            final(self).transition_cache == old(self).transition_cache,
            final(self).transition_cache_loaded == old(self).transition_cache_loaded,
            final(self).transition_cache_slices == old(self).transition_cache_slices,
    {
        let r = self.inner_source.get_density(&RegularVoxelIndex { x, y, z });
        self.queried_regular = Ghost(
            self.queried_regular@.insert((x as int, y as int, z as int)),
        );
        r
    }

    /// The state fields that the block load does not touch.
    pub closed spec fn pre_transition_untouched(self, other: Self) -> bool {
        &&& self.block_subdivisions == other.block_subdivisions
        &&& self.regular_cache_extended == other.regular_cache_extended
        &&& self.regular_cache_extended_loaded == other.regular_cache_extended_loaded
        &&& self.transition_cache == other.transition_cache
        &&& self.transition_cache_loaded == other.transition_cache_loaded
        &&& self.transition_cache_slices == other.transition_cache_slices
        &&& self.queried_transition@ == other.queried_transition@
    }

    /// Creates the cache over `source` and eagerly loads the (N+1)³ regular
    /// voxels of the block, querying each address exactly once.
    pub fn new(source: S, block_subdivisions: usize) -> (r: Self)
        requires
            source.wf(),
            crate::voxel_coordinates::fits_subdivisions(block_subdivisions as int),
            forall|idx: HighResolutionVoxelIndex|
                idx.valid_for(block_subdivisions as int) ==> #[trigger] source.admits_transition_index(
                    idx,
                ),
        ensures
            r.wf(),
            r.subs() == block_subdivisions as int,
            !r.extended_loaded(),
            !r.transition_loaded(),
            forall|v: V| r.source_may_yield(v) == source.may_yield(v),
    {
        let mut slices: Vec<usize> = Vec::new();
        slices.push(usize::MAX);
        slices.push(usize::MAX);
        slices.push(usize::MAX);
        slices.push(usize::MAX);
        slices.push(usize::MAX);
        slices.push(usize::MAX);
        let mut object = Self {
            inner_source: source,
            block_subdivisions,
            regular_cache: Vec::new(),
            regular_cache_extended: Vec::new(),
            regular_cache_extended_loaded: false,
            transition_cache: Vec::new(),
            transition_cache_loaded: false,
            transition_cache_slices: slices,
            queried_regular: Ghost(Multiset::empty()),
            queried_transition: Ghost(Multiset::empty()),
        };
        object.load_regular_block_voxels();
        object
    }

    /// Loads every regular voxel of the block, in x-major order.
    #[verifier::rlimit(100)]
    fn load_regular_block_voxels(&mut self)
        requires
            old(self).inner_source.wf(),
            crate::voxel_coordinates::fits_subdivisions(old(self).subs()),
            old(self).regular_cache.len() == 0,
            old(self).regular_cache_extended.len() == 0,
            !old(self).regular_cache_extended_loaded,
            old(self).transition_cache.len() == 0,
            !old(self).transition_cache_loaded,
            old(self).transition_cache_slices.len() == 6,
            forall|side: int|
                0 <= side < 6 ==> old(self).transition_cache_slices[side] == usize::MAX,
            old(self).queried_regular@ == Multiset::<(int, int, int)>::empty(),
            old(self).queried_transition@ == Multiset::<(int, int, int)>::empty(),
            forall|idx: HighResolutionVoxelIndex|
                idx.valid_for(old(self).subs()) ==> #[trigger] old(
                    self,
                ).inner_source.admits_transition_index(idx),
        ensures
            final(self).wf(),
            final(self).pre_transition_untouched(*old(self)),
            final(self).source_frame(*old(self)),
    {
        let subs = self.block_subdivisions;
        let ghost n = subs as int;
        proof {
            crate::voxel_coordinates::lemma_fits_consequences(n);
        }
        let mut x: usize = 0;
        while x <= subs
            invariant
                self.block_subdivisions == subs,
                crate::voxel_coordinates::fits_subdivisions(n),
                n == subs as int,
                x <= subs + 1,
                self.inner_source.wf(),
                self.source_frame(*old(self)),
                self.pre_transition_untouched(*old(self)),
                self.regular_cache_extended.len() == 0,
                !self.regular_cache_extended_loaded,
                self.transition_cache.len() == 0,
                !self.transition_cache_loaded,
                self.queried_transition@ == Multiset::<(int, int, int)>::empty(),
                self.regular_cache.len() == (n + 1) * (n + 1) * x,
                forall|i: int|
                    0 <= i < self.regular_cache.len() ==> self.inner_source.may_yield(
                        #[trigger] self.regular_cache[i],
                    ),
                forall|a: int, b: int, c: int|
                    #[trigger] self.regular_queries().count((a, b, c))
                        == self.expected_regular_queries(a, b, c),
            decreases subs + 1 - x,
        {
            let mut y: usize = 0;
            while y <= subs
                invariant
                    self.block_subdivisions == subs,
                    crate::voxel_coordinates::fits_subdivisions(n),
                    n == subs as int,
                    x <= subs,
                    y <= subs + 1,
                    self.inner_source.wf(),
                    self.source_frame(*old(self)),
                    self.pre_transition_untouched(*old(self)),
                    self.regular_cache_extended.len() == 0,
                    !self.regular_cache_extended_loaded,
                    self.transition_cache.len() == 0,
                    !self.transition_cache_loaded,
                    self.queried_transition@ == Multiset::<(int, int, int)>::empty(),
                    self.regular_cache.len() == (n + 1) * (n + 1) * x + (n + 1) * y,
                    forall|i: int|
                        0 <= i < self.regular_cache.len() ==> self.inner_source.may_yield(
                            #[trigger] self.regular_cache[i],
                        ),
                    forall|a: int, b: int, c: int|
                        #[trigger] self.regular_queries().count((a, b, c))
                            == self.expected_regular_queries(a, b, c),
                decreases subs + 1 - y,
            {
                let mut z: usize = 0;
                while z <= subs
                    invariant
                        self.block_subdivisions == subs,
                        crate::voxel_coordinates::fits_subdivisions(n),
                        n == subs as int,
                        x <= subs,
                        y <= subs,
                        z <= subs + 1,
                        self.inner_source.wf(),
                        self.source_frame(*old(self)),
                        self.pre_transition_untouched(*old(self)),
                        self.regular_cache_extended.len() == 0,
                        !self.regular_cache_extended_loaded,
                        self.transition_cache.len() == 0,
                        !self.transition_cache_loaded,
                        self.queried_transition@ == Multiset::<(int, int, int)>::empty(),
                        self.regular_cache.len() == (n + 1) * (n + 1) * x + (n + 1) * y + z,
                        forall|i: int|
                            0 <= i < self.regular_cache.len() ==> self.inner_source.may_yield(
                                #[trigger] self.regular_cache[i],
                            ),
                        forall|a: int, b: int, c: int|
                            #[trigger] self.regular_queries().count((a, b, c))
                                == self.expected_regular_queries(a, b, c),
                    decreases subs + 1 - z,
                {
                    proof {
                        lemma_block_position_bound(n, x as int, y as int, z as int);
                    }
                    let ghost prev = *self;
                    let v = self.from_source(x as isize, y as isize, z as isize);
                    self.regular_cache.push(v);
                    proof {
                        let key = (x as int, y as int, z as int);
                        assert(self.queried_regular@ == prev.queried_regular@.insert(key));
                        assert(self.regular_cache@ == prev.regular_cache@.push(v));
                        assert forall|a: int, b: int, c: int|
                            #[trigger] self.regular_queries().count((a, b, c))
                                == self.expected_regular_queries(a, b, c) by {
                            assert(prev.regular_queries().count((a, b, c))
                                == prev.expected_regular_queries(a, b, c));
                            if a == key.0 && b == key.1 && c == key.2 {
                                assert(prev.expected_regular_queries(a, b, c) == 0);
                                assert(self.regular_queries().count((a, b, c))
                                    == prev.regular_queries().count((a, b, c)) + 1);
                                assert(self.expected_regular_queries(a, b, c) == 1);
                            } else {
                                assert(self.regular_queries().count((a, b, c))
                                    == prev.regular_queries().count((a, b, c)));
                                if is_block_addr(n, a, b, c) && block_position(n, a, b, c)
                                    == prev.regular_cache.len() {
                                    lemma_block_position_injective(
                                        n,
                                        a,
                                        b,
                                        c,
                                        x as int,
                                        y as int,
                                        z as int,
                                    );
                                }
                                assert(self.expected_regular_queries(a, b, c)
                                    == prev.expected_regular_queries(a, b, c));
                            }
                        }
                    }
                    z = z + 1;
                }
                proof {
                    assert((n + 1) * (y as int + 1) == (n + 1) * (y as int) + (n + 1))
                        by (nonlinear_arith);
                }
                y = y + 1;
            }
            proof {
                assert((n + 1) * (n + 1) * (x as int + 1) == (n + 1) * (n + 1) * (x as int) + (n
                    + 1) * (n + 1)) by (nonlinear_arith);
            }
            x = x + 1;
        }
        proof {
            assert(self.shape_wf());
            assert(self.regular_caches_wf());
            assert(self.transition_cache_slices.len() == 6);
            assert forall|side: int| 0 <= side < 6 implies !self.side_loaded(side) by {
                assert(self.transition_cache_slices[side] == usize::MAX);
            }
            assert(self.transition_cache.len() == 0);
            assert forall|side: int, gu: int, gv: int|
                #[trigger] self.transition_queries().count((side, gu, gv))
                    == self.expected_transition_queries(side, gu, gv) by {
                assert(self.queried_transition@.count((side, gu, gv)) == 0);
                assert(self.expected_transition_queries(side, gu, gv) == 0);
            }
            assert(self.transition_wf());
        }
    }

    /// The regular query log only reads the lengths of the caches, the
    /// ghost record, and the subdivision count: states agreeing on those
    /// agree on the log.
    proof fn lemma_regular_log_congruent(s1: Self, s2: Self)
        requires
            forall|a: int, b: int, c: int|
                #[trigger] s1.regular_queries().count((a, b, c)) == s1.expected_regular_queries(
                    a,
                    b,
                    c,
                ),
            s2.queried_regular@ == s1.queried_regular@,
            s2.block_subdivisions == s1.block_subdivisions,
            s2.regular_cache.len() == s1.regular_cache.len(),
            s2.regular_cache_extended.len() == s1.regular_cache_extended.len(),
        ensures
            forall|a: int, b: int, c: int|
                #[trigger] s2.regular_queries().count((a, b, c)) == s2.expected_regular_queries(
                    a,
                    b,
                    c,
                ),
    {
        assert forall|a: int, b: int, c: int|
            #[trigger] s2.regular_queries().count((a, b, c)) == s2.expected_regular_queries(
                a,
                b,
                c,
            ) by {
            assert(s1.regular_queries().count((a, b, c)) == s1.expected_regular_queries(a, b, c));
        }
    }

    /// The regular-cache invariants only read the regular fields and the
    /// source's `may_yield` predicate: states agreeing on those agree on the
    /// invariants.
    proof fn lemma_regular_caches_wf_congruent(s1: Self, s2: Self)
        requires
            s1.regular_caches_wf(),
            s2.block_subdivisions == s1.block_subdivisions,
            s2.regular_cache == s1.regular_cache,
            s2.regular_cache_extended == s1.regular_cache_extended,
            s2.queried_regular@ == s1.queried_regular@,
            forall|v: V|
                s2.inner_source.may_yield(v) == s1.inner_source.may_yield(v),
        ensures
            s2.regular_caches_wf(),
    {
        assert forall|i: int|
            0 <= i < s2.regular_cache.len() implies s2.inner_source.may_yield(
            #[trigger] s2.regular_cache[i],
        ) by {
            assert(s1.inner_source.may_yield(s1.regular_cache[i]));
        }
        assert forall|i: int|
            0 <= i < s2.regular_cache_extended.len() implies s2.inner_source.may_yield(
            #[trigger] s2.regular_cache_extended[i],
        ) by {
            assert(s1.inner_source.may_yield(s1.regular_cache_extended[i]));
        }
        Self::lemma_regular_log_congruent(s1, s2);
    }

    /// The transition invariants only read the transition fields, the
    /// subdivision count and the source's `may_yield` predicate: states
    /// agreeing on those agree on the invariants.
    proof fn lemma_transition_wf_congruent(s1: Self, s2: Self)
        requires
            s1.transition_wf(),
            s2.block_subdivisions == s1.block_subdivisions,
            s2.transition_cache == s1.transition_cache,
            s2.transition_cache_loaded == s1.transition_cache_loaded,
            s2.transition_cache_slices == s1.transition_cache_slices,
            s2.queried_transition@ == s1.queried_transition@,
            forall|v: V|
                s2.inner_source.may_yield(v) == s1.inner_source.may_yield(v),
        ensures
            s2.transition_wf(),
    {
        assert forall|side: int|
            0 <= side < 6 && #[trigger] s2.side_loaded(side) implies 0 <= s2.slice_of(side) < 6
            && (s2.slice_of(side) + 1) * (s2.t_stride() * s2.t_stride())
            <= s2.transition_cache.len() by {
            assert(s1.side_loaded(side));
        }
        if !s2.transition_cache_loaded {
            assert forall|side: int| 0 <= side < 6 implies !s2.side_loaded(side) by {
                assert(!s1.side_loaded(side));
            }
        }
        assert forall|sa: int, sb: int|
            0 <= sa < 6 && 0 <= sb < 6 && sa != sb && #[trigger] s2.side_loaded(sa)
                && #[trigger] s2.side_loaded(sb) implies s2.slice_of(sa) != s2.slice_of(sb) by {
            assert(s1.side_loaded(sa) && s1.side_loaded(sb));
        }
        assert forall|i: int|
            0 <= i < s2.transition_cache.len() && (#[trigger] s2.transition_cache[i]) is Some
            implies s2.inner_source.may_yield(s2.transition_cache[i]->Some_0) by {
            assert(s1.transition_cache[i] is Some);
            assert(s1.inner_source.may_yield(s1.transition_cache[i]->Some_0));
        }
        if s2.transition_cache_loaded {
            assert forall|side: int, gu: int, gv: int|
                is_t_addr(s2.subs(), side, gu, gv) && #[trigger] s2.side_loaded(side) implies (
            #[trigger] s2.t_slot(side, gu, gv)) is Some by {
                assert(s1.side_loaded(side));
                assert(s1.t_slot(side, gu, gv) is Some);
            }
        }
        assert forall|side: int, gu: int, gv: int|
            #[trigger] s2.transition_queries().count((side, gu, gv))
                == s2.expected_transition_queries(side, gu, gv) by {
            assert(s1.transition_queries().count((side, gu, gv))
                == s1.expected_transition_queries(side, gu, gv));
        }
    }

    /// The transition half of the state is untouched.
    pub closed spec fn transition_untouched(self, other: Self) -> bool {
        &&& self.block_subdivisions == other.block_subdivisions
        &&& self.transition_cache == other.transition_cache
        &&& self.transition_cache_loaded == other.transition_cache_loaded
        &&& self.transition_cache_slices == other.transition_cache_slices
        &&& self.queried_transition@ == other.queried_transition@
    }

    /// The block cache is untouched.
    pub closed spec fn block_cache_untouched(self, other: Self) -> bool {
        self.regular_cache == other.regular_cache
    }

    /// Loads the six halo slabs of regular-spaced voxels one step outside
    /// the block, once; each halo address is queried exactly once, ever.
    pub fn load_regular_extended_voxels(&mut self)
        requires
            old(self).wf(),
        ensures
            final(self).wf(),
            final(self).subs() == old(self).subs(),
            final(self).extended_loaded(),
            final(self).source_frame(*old(self)),
            final(self).transition_untouched(*old(self)),
            final(self).block_cache_untouched(*old(self)),
            old(self).extended_loaded() ==> *final(self) == *old(self),
    {
        if self.regular_cache_extended_loaded {
            return ;
        }
        let ghost s0 = *self;
        self.regular_cache_extended_loaded = true;
        let subs = self.block_subdivisions;
        let ghost n = subs as int;
        proof {
            crate::voxel_coordinates::lemma_fits_consequences(n);
            Self::lemma_transition_wf_congruent(s0, *self);
            Self::lemma_regular_log_congruent(s0, *self);
        }
        let mut slab: usize = 0;
        while slab < 6
            invariant
                self.block_subdivisions == subs,
                crate::voxel_coordinates::fits_subdivisions(n),
                n == subs as int,
                slab <= 6,
                self.inner_source.wf(),
                self.source_frame(*old(self)),
                self.transition_untouched(*old(self)),
                self.block_cache_untouched(*old(self)),
                self.regular_cache_extended_loaded,
                self.regular_cache.len() == (n + 1) * (n + 1) * (n + 1),
                self.transition_wf(),
                forall|idx: HighResolutionVoxelIndex|
                    idx.valid_for(n) ==> #[trigger] self.inner_source.admits_transition_index(idx),
                self.regular_cache_extended.len() == slab * (n + 1) * (n + 1),
                forall|i: int|
                    0 <= i < self.regular_cache.len() ==> self.inner_source.may_yield(
                        #[trigger] self.regular_cache[i],
                    ),
                forall|i: int|
                    0 <= i < self.regular_cache_extended.len() ==> self.inner_source.may_yield(
                        #[trigger] self.regular_cache_extended[i],
                    ),
                forall|a: int, b: int, c: int|
                    #[trigger] self.regular_queries().count((a, b, c))
                        == self.expected_regular_queries(a, b, c),
            decreases 6 - slab,
        {
            let mut a: usize = 0;
            while a <= subs
                invariant
                    self.block_subdivisions == subs,
                    crate::voxel_coordinates::fits_subdivisions(n),
                    n == subs as int,
                    slab < 6,
                    a <= subs + 1,
                    self.inner_source.wf(),
                    self.source_frame(*old(self)),
                    self.transition_untouched(*old(self)),
                    self.block_cache_untouched(*old(self)),
                    self.regular_cache_extended_loaded,
                    self.regular_cache.len() == (n + 1) * (n + 1) * (n + 1),
                    self.transition_wf(),
                    forall|idx: HighResolutionVoxelIndex|
                        idx.valid_for(n) ==> #[trigger] self.inner_source.admits_transition_index(
                            idx,
                        ),
                    self.regular_cache_extended.len() == slab * (n + 1) * (n + 1) + (n + 1) * a,
                    forall|i: int|
                        0 <= i < self.regular_cache.len() ==> self.inner_source.may_yield(
                            #[trigger] self.regular_cache[i],
                        ),
                    forall|i: int|
                        0 <= i < self.regular_cache_extended.len() ==> self.inner_source.may_yield(
                            #[trigger] self.regular_cache_extended[i],
                        ),
                    forall|a_: int, b_: int, c_: int|
                        #[trigger] self.regular_queries().count((a_, b_, c_))
                            == self.expected_regular_queries(a_, b_, c_),
                decreases subs + 1 - a,
            {
                let mut b: usize = 0;
                while b <= subs
                    invariant
                        self.block_subdivisions == subs,
                        crate::voxel_coordinates::fits_subdivisions(n),
                        n == subs as int,
                        slab < 6,
                        a <= subs,
                        b <= subs + 1,
                        self.inner_source.wf(),
                        self.source_frame(*old(self)),
                        self.transition_untouched(*old(self)),
                        self.block_cache_untouched(*old(self)),
                        self.regular_cache_extended_loaded,
                        self.regular_cache.len() == (n + 1) * (n + 1) * (n + 1),
                        self.transition_wf(),
                        forall|idx: HighResolutionVoxelIndex|
                            idx.valid_for(n)
                                ==> #[trigger] self.inner_source.admits_transition_index(idx),
                        self.regular_cache_extended.len() == slab * (n + 1) * (n + 1) + (n + 1) * a
                            + b,
                        forall|i: int|
                            0 <= i < self.regular_cache.len() ==> self.inner_source.may_yield(
                                #[trigger] self.regular_cache[i],
                            ),
                        forall|i: int|
                            0 <= i < self.regular_cache_extended.len()
                                ==> self.inner_source.may_yield(
                                #[trigger] self.regular_cache_extended[i],
                            ),
                        forall|a_: int, b_: int, c_: int|
                            #[trigger] self.regular_queries().count((a_, b_, c_))
                                == self.expected_regular_queries(a_, b_, c_),
                    decreases subs + 1 - b,
                {
                    let idx = halo_voxel_index(subs, slab, a, b);
                    proof {
                        lemma_halo_addr_of_valid(n, slab as int, a as int, b as int);
                        lemma_halo_position_bound(n, idx.x as int, idx.y as int, idx.z as int);
                    }
                    let ghost prev = *self;
                    let v = self.from_source(idx.x, idx.y, idx.z);
                    self.regular_cache_extended.push(v);
                    proof {
                        let key = (idx.x as int, idx.y as int, idx.z as int);
                        assert(self.queried_regular@ == prev.queried_regular@.insert(key));
                        assert(self.regular_cache_extended@ == prev.regular_cache_extended@.push(
                            v,
                        ));
                        assert(halo_position(n, key.0, key.1, key.2)
                            == prev.regular_cache_extended.len());
                        assert forall|a_: int, b_: int, c_: int|
                            #[trigger] self.regular_queries().count((a_, b_, c_))
                                == self.expected_regular_queries(a_, b_, c_) by {
                            assert(prev.regular_queries().count((a_, b_, c_))
                                == prev.expected_regular_queries(a_, b_, c_));
                            if a_ == key.0 && b_ == key.1 && c_ == key.2 {
                                assert(prev.expected_regular_queries(a_, b_, c_) == 0);
                                assert(self.regular_queries().count((a_, b_, c_))
                                    == prev.regular_queries().count((a_, b_, c_)) + 1);
                                assert(self.expected_regular_queries(a_, b_, c_) == 1);
                            } else {
                                assert(self.regular_queries().count((a_, b_, c_))
                                    == prev.regular_queries().count((a_, b_, c_)));
                                if is_halo_addr(n, a_, b_, c_) && halo_position(n, a_, b_, c_)
                                    == prev.regular_cache_extended.len() {
                                    lemma_halo_position_injective(
                                        n,
                                        a_,
                                        b_,
                                        c_,
                                        key.0,
                                        key.1,
                                        key.2,
                                    );
                                }
                                assert(self.expected_regular_queries(a_, b_, c_)
                                    == prev.expected_regular_queries(a_, b_, c_));
                            }
                        }
                        Self::lemma_transition_wf_congruent(prev, *self);
                    }
                    b = b + 1;
                }
                proof {
                    assert((n + 1) * (a as int + 1) == (n + 1) * (a as int) + (n + 1))
                        by (nonlinear_arith);
                }
                a = a + 1;
            }
            proof {
                assert((slab as int + 1) * (n + 1) * (n + 1) == slab as int * (n + 1) * (n + 1) + (
                n + 1) * (n + 1)) by (nonlinear_arith);
            }
            slab = slab + 1;
        }
    }

    /// Returns the voxel data at a regular voxel address, from the block
    /// cache or the halo (loading the halo on first use): the value the
    /// oracle returned for that address, queried at most once, ever.
    pub fn get_density(&mut self, voxel_index: &RegularVoxelIndex) -> (r: V)
        requires
            old(self).wf(),
            regular_addr_valid(
                old(self).subs(),
                voxel_index.x as int,
                voxel_index.y as int,
                voxel_index.z as int,
            ),
        ensures
            final(self).wf(),
            final(self).subs() == old(self).subs(),
            final(self).source_frame(*old(self)),
            final(self).transition_untouched(*old(self)),
            final(self).block_cache_untouched(*old(self)),
            final(self).extended_loaded() == (old(self).extended_loaded() || is_halo_addr(
                old(self).subs(),
                voxel_index.x as int,
                voxel_index.y as int,
                voxel_index.z as int,
            )),
            r == final(self).regular_value(
                voxel_index.x as int,
                voxel_index.y as int,
                voxel_index.z as int,
            ),
            final(self).source_may_yield(r),
            old(self).extended_loaded() || is_block_addr(
                old(self).subs(),
                voxel_index.x as int,
                voxel_index.y as int,
                voxel_index.z as int,
            ) ==> *final(self) == *old(self),
    {
        let x = voxel_index.x;
        let y = voxel_index.y;
        let z = voxel_index.z;
        let subs = self.block_subdivisions;
        let ghost n = subs as int;
        proof {
            crate::voxel_coordinates::lemma_fits_consequences(n);
        }
        let face_size: usize = (subs + 1) * (subs + 1);
        if x == -1 {
            proof {
                lemma_flat_pair_bound(n + 1, y as int, z as int, n + 1);
                lemma_flat_pair_bound(
                    (n + 1) * (n + 1),
                    0,
                    (n + 1) * (y as int) + (z as int),
                    6,
                );
                assert(6 * ((n + 1) * (n + 1)) == 6 * (n + 1) * (n + 1)) by (nonlinear_arith);
                assert(0 * ((n + 1) * (n + 1)) == 0 * (n + 1) * (n + 1)) by (nonlinear_arith);
            }
            let index: usize = 0 * face_size + (subs + 1) * (y as usize) + (z as usize);
            self.load_regular_extended_voxels();
            proof {
                lemma_halo_position_bound(n, x as int, y as int, z as int);
            }
            self.regular_cache_extended[index]
        } else if x == subs as isize + 1 {
            proof {
                lemma_flat_pair_bound(n + 1, y as int, z as int, n + 1);
                lemma_flat_pair_bound(
                    (n + 1) * (n + 1),
                    1,
                    (n + 1) * (y as int) + (z as int),
                    6,
                );
                assert(6 * ((n + 1) * (n + 1)) == 6 * (n + 1) * (n + 1)) by (nonlinear_arith);
                assert(1 * ((n + 1) * (n + 1)) == 1 * (n + 1) * (n + 1)) by (nonlinear_arith);
            }
            let index: usize = 1 * face_size + (subs + 1) * (y as usize) + (z as usize);
            self.load_regular_extended_voxels();
            proof {
                lemma_halo_position_bound(n, x as int, y as int, z as int);
            }
            self.regular_cache_extended[index]
        } else if y == -1 {
            proof {
                lemma_flat_pair_bound(n + 1, x as int, z as int, n + 1);
                lemma_flat_pair_bound(
                    (n + 1) * (n + 1),
                    2,
                    (n + 1) * (x as int) + (z as int),
                    6,
                );
                assert(6 * ((n + 1) * (n + 1)) == 6 * (n + 1) * (n + 1)) by (nonlinear_arith);
                assert(2 * ((n + 1) * (n + 1)) == 2 * (n + 1) * (n + 1)) by (nonlinear_arith);
            }
            let index: usize = 2 * face_size + (subs + 1) * (x as usize) + (z as usize);
            self.load_regular_extended_voxels();
            proof {
                lemma_halo_position_bound(n, x as int, y as int, z as int);
            }
            self.regular_cache_extended[index]
        } else if y == subs as isize + 1 {
            proof {
                lemma_flat_pair_bound(n + 1, x as int, z as int, n + 1);
                lemma_flat_pair_bound(
                    (n + 1) * (n + 1),
                    3,
                    (n + 1) * (x as int) + (z as int),
                    6,
                );
                assert(6 * ((n + 1) * (n + 1)) == 6 * (n + 1) * (n + 1)) by (nonlinear_arith);
                assert(3 * ((n + 1) * (n + 1)) == 3 * (n + 1) * (n + 1)) by (nonlinear_arith);
            }
            let index: usize = 3 * face_size + (subs + 1) * (x as usize) + (z as usize);
            self.load_regular_extended_voxels();
            proof {
                lemma_halo_position_bound(n, x as int, y as int, z as int);
            }
            self.regular_cache_extended[index]
        } else if z == -1 {
            proof {
                lemma_flat_pair_bound(n + 1, x as int, y as int, n + 1);
                lemma_flat_pair_bound(
                    (n + 1) * (n + 1),
                    4,
                    (n + 1) * (x as int) + (y as int),
                    6,
                );
                assert(6 * ((n + 1) * (n + 1)) == 6 * (n + 1) * (n + 1)) by (nonlinear_arith);
                assert(4 * ((n + 1) * (n + 1)) == 4 * (n + 1) * (n + 1)) by (nonlinear_arith);
            }
            let index: usize = 4 * face_size + (subs + 1) * (x as usize) + (y as usize);
            self.load_regular_extended_voxels();
            proof {
                lemma_halo_position_bound(n, x as int, y as int, z as int);
            }
            self.regular_cache_extended[index]
        } else if z == subs as isize + 1 {
            proof {
                lemma_flat_pair_bound(n + 1, x as int, y as int, n + 1);
                lemma_flat_pair_bound(
                    (n + 1) * (n + 1),
                    5,
                    (n + 1) * (x as int) + (y as int),
                    6,
                );
                assert(6 * ((n + 1) * (n + 1)) == 6 * (n + 1) * (n + 1)) by (nonlinear_arith);
                assert(5 * ((n + 1) * (n + 1)) == 5 * (n + 1) * (n + 1)) by (nonlinear_arith);
            }
            let index: usize = 5 * face_size + (subs + 1) * (x as usize) + (y as usize);
            self.load_regular_extended_voxels();
            proof {
                lemma_halo_position_bound(n, x as int, y as int, z as int);
            }
            self.regular_cache_extended[index]
        } else {
            proof {
                lemma_block_position_bound(n, x as int, y as int, z as int);
                lemma_flat_pair_bound(n + 1, y as int, z as int, n + 1);
            }
            let index: usize = face_size * (x as usize) + (subs + 1) * (y as usize) + (z as usize);
            self.regular_cache[index]
        }
    }

    /// The regular half of the state is untouched.
    pub closed spec fn regular_state_untouched(self, other: Self) -> bool {
        &&& self.block_subdivisions == other.block_subdivisions
        &&& self.regular_cache == other.regular_cache
        &&& self.regular_cache_extended == other.regular_cache_extended
        &&& self.regular_cache_extended_loaded == other.regular_cache_extended_loaded
        &&& self.queried_regular@ == other.queried_regular@
    }

    /// Positions in the transition cache determine side and face
    /// coordinates, for sides whose slabs are laid out without overlap.
    proof fn lemma_t_position_injective(
        self,
        s1: int,
        gu1: int,
        gv1: int,
        s2: int,
        gu2: int,
        gv2: int,
    )
        requires
            self.subs() >= 1,
            0 <= s1 < 6,
            0 <= s2 < 6,
            self.side_loaded(s1),
            self.side_loaded(s2),
            0 <= self.slice_of(s1) < 6,
            0 <= self.slice_of(s2) < 6,
            s1 != s2 ==> self.slice_of(s1) != self.slice_of(s2),
            0 <= gu1 <= 2 * self.subs(),
            0 <= gv1 <= 2 * self.subs(),
            0 <= gu2 <= 2 * self.subs(),
            0 <= gv2 <= 2 * self.subs(),
            self.t_position(s1, gu1, gv1) == self.t_position(s2, gu2, gv2),
        ensures
            s1 == s2 && gu1 == gu2 && gv1 == gv2,
    {
        let st = self.t_stride();
        lemma_flat_pair_bound(st, gu1, gv1, st);
        lemma_flat_pair_bound(st, gu2, gv2, st);
        lemma_flat_pair_injective(
            st * st,
            self.slice_of(s1),
            st * gu1 + gv1,
            self.slice_of(s2),
            st * gu2 + gv2,
        );
        lemma_flat_pair_injective(st, gu1, gv1, gu2, gv2);
    }

    /// Positions in the transition cache stay within the loaded slab.
    proof fn lemma_t_position_bound(self, side: int, gu: int, gv: int)
        requires
            self.subs() >= 1,
            0 <= side < 6,
            0 <= self.slice_of(side),
            0 <= gu <= 2 * self.subs(),
            0 <= gv <= 2 * self.subs(),
        ensures
            (self.slice_of(side)) * (self.t_stride() * self.t_stride()) <= self.t_position(
                side,
                gu,
                gv,
            ),
            self.t_position(side, gu, gv) < (self.slice_of(side) + 1) * (self.t_stride()
                * self.t_stride()),
    {
        let st = self.t_stride();
        lemma_flat_pair_bound(st, gu, gv, st);
        assert((self.slice_of(side)) * (st * st) <= (self.slice_of(side)) * (st * st) + (st * gu
            + gv) && (self.slice_of(side)) * (st * st) + (st * gu + gv) < (self.slice_of(side) + 1)
            * (st * st)) by (nonlinear_arith)
            requires
                0 <= st * gu + gv < st * st,
                0 <= self.slice_of(side),
        ;
    }

    /// Position of a face voxel in the flat transition cache.
    fn transition_cache_index(&self, voxel_index: &HighResolutionVoxelIndex) -> (r: usize)
        requires
            crate::voxel_coordinates::fits_subdivisions(self.subs()),
            self.transition_cache_slices.len() == 6,
            self.side_loaded(voxel_index.cell.side.index_spec()),
            0 <= self.slice_of(voxel_index.cell.side.index_spec()) < 6,
            voxel_index.cell.cell_u < self.block_subdivisions,
            voxel_index.cell.cell_v < self.block_subdivisions,
            0 <= 2 * voxel_index.cell.cell_u + voxel_index.delta.u <= 2 * self.subs(),
            0 <= 2 * voxel_index.cell.cell_v + voxel_index.delta.v <= 2 * self.subs(),
            -8 <= voxel_index.delta.u <= 8,
            -8 <= voxel_index.delta.v <= 8,
        ensures
            r == self.t_position(
                voxel_index.cell.side.index_spec(),
                2 * voxel_index.cell.cell_u + voxel_index.delta.u,
                2 * voxel_index.cell.cell_v + voxel_index.delta.v,
            ),
    {
        let subs = self.block_subdivisions;
        let ghost n = subs as int;
        proof {
            crate::voxel_coordinates::lemma_fits_consequences(n);
        }
        let side = voxel_index.cell.side.index();
        let cache_slice = self.transition_cache_slices[side];
        let size_per_face: usize = (2 * subs + 1) * (2 * subs + 1);
        proof {
            let st = 2 * n + 1;
            let gu = 2 * voxel_index.cell.cell_u + voxel_index.delta.u;
            let gv = 2 * voxel_index.cell.cell_v + voxel_index.delta.v;
            lemma_flat_pair_bound(st, gu, gv, st);
            lemma_flat_pair_bound(st * st, cache_slice as int, st * gu + gv, 6);
            assert(6 * (st * st) == 6 * st * st) by (nonlinear_arith);
            crate::voxel_coordinates::lemma_fits_consequences(n);
        }
        let slice_shift: usize = cache_slice * size_per_face;
        let global_du: usize = (2 * (voxel_index.cell.cell_u as isize) + voxel_index.delta.u)
            as usize;
        let global_dv: usize = (2 * (voxel_index.cell.cell_v as isize) + voxel_index.delta.v)
            as usize;
        let index_in_slice: usize = (2 * subs + 1) * global_du + global_dv;
        slice_shift + index_in_slice
    }

    /// Fetches one high resolution face voxel from the oracle and stores it,
    /// recording the query.
    fn cache_transition_voxel(&mut self, voxel_index: &HighResolutionVoxelIndex)
        requires
            old(self).inner_source.wf(),
            old(self).inner_source.admits_transition_index(*voxel_index),
            crate::voxel_coordinates::fits_subdivisions(old(self).subs()),
            old(self).transition_cache_slices.len() == 6,
            old(self).side_loaded(voxel_index.cell.side.index_spec()),
            0 <= old(self).slice_of(voxel_index.cell.side.index_spec()) < 6,
            voxel_index.cell.cell_u < old(self).block_subdivisions,
            voxel_index.cell.cell_v < old(self).block_subdivisions,
            0 <= 2 * voxel_index.cell.cell_u + voxel_index.delta.u <= 2 * old(self).subs(),
            0 <= 2 * voxel_index.cell.cell_v + voxel_index.delta.v <= 2 * old(self).subs(),
            -8 <= voxel_index.delta.u <= 8,
            -8 <= voxel_index.delta.v <= 8,
            0 <= old(self).t_position(
                voxel_index.cell.side.index_spec(),
                2 * voxel_index.cell.cell_u + voxel_index.delta.u,
                2 * voxel_index.cell.cell_v + voxel_index.delta.v,
            ) < old(self).transition_cache.len(),
        ensures
            final(self).inner_source.wf(),
            final(self).source_frame(*old(self)),
            final(self).regular_state_untouched(*old(self)),
            final(self).transition_cache_loaded == old(self).transition_cache_loaded,
            final(self).transition_cache_slices == old(self).transition_cache_slices,
            ({
                let side = voxel_index.cell.side.index_spec();
                let gu = 2 * voxel_index.cell.cell_u + voxel_index.delta.u;
                let gv = 2 * voxel_index.cell.cell_v + voxel_index.delta.v;
                let pos = old(self).t_position(side, gu, gv);
                &&& final(self).transition_cache.len() == old(self).transition_cache.len()
                &&& (final(self).transition_cache[pos]) is Some
                &&& old(self).inner_source.may_yield(final(self).transition_cache[pos]->Some_0)
                &&& (forall|i: int|
                    0 <= i < old(self).transition_cache.len() && i != pos
                        ==> final(self).transition_cache[i] == old(self).transition_cache[i])
                &&& final(self).queried_transition@ == old(self).queried_transition@.insert(
                    (side, gu, gv),
                )
            }),
    {
        let d = self.inner_source.get_transition_density(voxel_index);
        let ghost side = voxel_index.cell.side.index_spec();
        let ghost gu = 2 * voxel_index.cell.cell_u + voxel_index.delta.u;
        let ghost gv = 2 * voxel_index.cell.cell_v + voxel_index.delta.v;
        self.queried_transition = Ghost(self.queried_transition@.insert((side, gu, gv)));
        let cache_index = self.transition_cache_index(voxel_index);
        self.transition_cache[cache_index] = Some(d);
    }

    /// Whether (side, gu, gv) comes before the loading frontier
    /// (side_bound, gu_bound, gv_bound) in loading order.
    pub open spec fn t_lex_lt(
        side: int,
        gu: int,
        gv: int,
        side_bound: int,
        gu_bound: int,
        gv_bound: int,
    ) -> bool {
        ||| side < side_bound
        ||| (side == side_bound && gu < gu_bound)
        ||| (side == side_bound && gu == gu_bound && gv < gv_bound)
    }

    /// During loading, exactly the held face addresses before the frontier
    /// hold a value.
    pub closed spec fn t_filled_upto(self, side_bound: int, gu_bound: int, gv_bound: int) -> bool {
        forall|s: int, gu: int, gv: int|
            is_t_addr(self.subs(), s, gu, gv) && self.side_loaded(s) ==> ((#[trigger] self.t_slot(
                s,
                gu,
                gv,
            )) is Some == Self::t_lex_lt(s, gu, gv, side_bound, gu_bound, gv_bound))
    }

    /// Loads, for each side in `transition_sides`, the high resolution
    /// voxels of that face that are not already regular voxels, querying
    /// each such address exactly once; runs at most once.
    pub fn load_transition_voxels(&mut self, transition_sides: TransitionSides)
        requires
            old(self).wf(),
        ensures
            final(self).wf(),
            final(self).subs() == old(self).subs(),
            final(self).transition_loaded(),
            final(self).extended_loaded() == old(self).extended_loaded(),
            final(self).source_frame(*old(self)),
            final(self).regular_state_untouched(*old(self)),
            old(self).transition_loaded() ==> *final(self) == *old(self),
            !old(self).transition_loaded() ==> forall|side: int|
                0 <= side < 6 ==> final(self).side_loaded(side) == transition_sides.has_index(
                    side,
                ),
    {
        if self.transition_cache_loaded {
            return ;
        }
        let ghost s0 = *self;
        self.transition_cache_loaded = true;
        let subs = self.block_subdivisions;
        let ghost n = subs as int;
        proof {
            crate::voxel_coordinates::lemma_fits_consequences(n);
            Self::lemma_regular_caches_wf_congruent(s0, *self);
            assert forall|a: int, b: int, c: int|
                self.queried_transition@.count((a, b, c)) == 0 by {
                assert(s0.transition_queries().count((a, b, c))
                    == s0.expected_transition_queries(a, b, c));
                if 0 <= a < 6 {
                    assert(!s0.side_loaded(a));
                }
            }
            assert forall|i: int|
                0 <= i < 6 implies #[trigger] self.transition_cache_slices[i] == usize::MAX by {
                assert(!s0.side_loaded(i));
            }
        }
        let mut num_transitions: usize = 0;
        let mut side_index: usize = 0;
        while side_index < 6
            invariant
                self.block_subdivisions == subs,
                crate::voxel_coordinates::fits_subdivisions(n),
                n == subs as int,
                side_index <= 6,
                num_transitions <= side_index,
                self.inner_source.wf(),
                self.source_frame(*old(self)),
                self.regular_state_untouched(*old(self)),
                self.regular_caches_wf(),
                forall|idx: HighResolutionVoxelIndex|
                    idx.valid_for(n) ==> #[trigger] self.inner_source.admits_transition_index(idx),
                self.transition_cache_loaded,
                self.transition_cache.len() == 0,
                self.transition_cache_slices.len() == 6,
                forall|a: int, b: int, c: int|
                    self.queried_transition@.count((a, b, c)) == 0,
                forall|i: int|
                    0 <= i < side_index ==> ((#[trigger] self.transition_cache_slices[i]
                        != usize::MAX) == transition_sides.has_index(i)),
                forall|i: int|
                    0 <= i < side_index && #[trigger] self.transition_cache_slices[i] != usize::MAX
                        ==> self.transition_cache_slices[i] < num_transitions,
                forall|i: int, j: int|
                    0 <= i < side_index && 0 <= j < side_index && i != j
                        && #[trigger] self.transition_cache_slices[i] != usize::MAX
                        && #[trigger] self.transition_cache_slices[j] != usize::MAX
                        ==> self.transition_cache_slices[i] != self.transition_cache_slices[j],
                forall|i: int|
                    side_index <= i < 6 ==> #[trigger] self.transition_cache_slices[i]
                        == usize::MAX,
            decreases 6 - side_index,
        {
            if transition_sides.contains(TransitionSide::from_index(side_index)) {
                let ghost before = *self;
                self.transition_cache_slices[side_index] = num_transitions;
                num_transitions = num_transitions + 1;
                proof {
                    Self::lemma_regular_caches_wf_congruent(before, *self);
                }
            }
            side_index = side_index + 1;
        }
        let size_per_face: usize = (2 * subs + 1) * (2 * subs + 1);
        proof {
            assert(num_transitions * ((2 * n + 1) * (2 * n + 1)) <= 6 * ((2 * n + 1) * (2 * n
                + 1)) && 6 * ((2 * n + 1) * (2 * n + 1)) == 6 * (2 * n + 1) * (2 * n + 1))
                by (nonlinear_arith)
                requires
                    num_transitions <= 6,
                    n >= 1,
            ;
        }
        let total: usize = num_transitions * size_per_face;
        let mut i: usize = 0;
        while i < total
            invariant
                self.block_subdivisions == subs,
                n == subs as int,
                i <= total,
                self.inner_source.wf(),
                self.source_frame(*old(self)),
                self.regular_state_untouched(*old(self)),
                self.regular_caches_wf(),
                forall|idx: HighResolutionVoxelIndex|
                    idx.valid_for(n) ==> #[trigger] self.inner_source.admits_transition_index(idx),
                self.transition_cache_loaded,
                self.transition_cache_slices.len() == 6,
                forall|i_: int|
                    0 <= i_ < 6 ==> ((#[trigger] self.transition_cache_slices[i_] != usize::MAX)
                        == transition_sides.has_index(i_)),
                forall|i_: int|
                    0 <= i_ < 6 && #[trigger] self.transition_cache_slices[i_] != usize::MAX
                        ==> self.transition_cache_slices[i_] < num_transitions,
                forall|i_: int, j: int|
                    0 <= i_ < 6 && 0 <= j < 6 && i_ != j && #[trigger] self.transition_cache_slices[i_]
                        != usize::MAX && #[trigger] self.transition_cache_slices[j] != usize::MAX
                        ==> self.transition_cache_slices[i_] != self.transition_cache_slices[j],
                num_transitions <= 6,
                total == num_transitions * ((2 * n + 1) * (2 * n + 1)),
                self.transition_cache.len() == i,
                forall|i_: int|
                    0 <= i_ < self.transition_cache.len() ==> (#[trigger] self.transition_cache[i_])
                        is None,
                forall|a: int, b: int, c: int|
                    self.queried_transition@.count((a, b, c)) == 0,
            decreases total - i,
        {
            let ghost before = *self;
            self.transition_cache.push(None);
            i = i + 1;
            proof {
                Self::lemma_regular_caches_wf_congruent(before, *self);
            }
        }
        self.fill_transition_faces(transition_sides, num_transitions);
    }

    /// Walks each active face in doubled-grid order and fetches every face
    /// voxel that is not on the regular grid.
    #[verifier::rlimit(100)]
    fn fill_transition_faces(&mut self, transition_sides: TransitionSides, count: usize)
        requires
            old(self).shape_wf(),
            old(self).regular_caches_wf(),
            old(self).transition_cache_loaded,
            old(self).transition_cache_slices.len() == 6,
            count <= 6,
            forall|i: int|
                0 <= i < 6 ==> ((#[trigger] old(self).transition_cache_slices[i] != usize::MAX)
                    == transition_sides.has_index(i)),
            forall|i: int|
                0 <= i < 6 && #[trigger] old(self).transition_cache_slices[i] != usize::MAX ==> old(
                    self,
                ).transition_cache_slices[i] < count,
            forall|i: int, j: int|
                0 <= i < 6 && 0 <= j < 6 && i != j && #[trigger] old(self).transition_cache_slices[i]
                    != usize::MAX && #[trigger] old(self).transition_cache_slices[j] != usize::MAX
                    ==> old(self).transition_cache_slices[i] != old(
                    self,
                ).transition_cache_slices[j],
            old(self).transition_cache.len() == count * ((2 * old(self).subs() + 1) * (2 * old(
                self,
            ).subs() + 1)),
            forall|i: int|
                0 <= i < old(self).transition_cache.len() ==> (#[trigger] old(
                    self,
                ).transition_cache[i]) is None,
            forall|a: int, b: int, c: int|
                old(self).queried_transition@.count((a, b, c)) == 0,
        ensures
            final(self).wf(),
            final(self).transition_loaded(),
            final(self).subs() == old(self).subs(),
            final(self).extended_loaded() == old(self).extended_loaded(),
            final(self).source_frame(*old(self)),
            final(self).regular_state_untouched(*old(self)),
            forall|side: int|
                0 <= side < 6 ==> final(self).side_loaded(side) == old(self).side_loaded(side),
    {
        let subs = self.block_subdivisions;
        let ghost n = subs as int;
        let ghost st = 2 * n + 1;
        proof {
            crate::voxel_coordinates::lemma_fits_consequences(n);
            assert forall|s: int, gu: int, gv: int|
                is_t_addr(n, s, gu, gv) && self.side_loaded(s) implies ((#[trigger] self.t_slot(
                s,
                gu,
                gv,
            )) is Some == Self::t_lex_lt(s, gu, gv, 0, 0, 0)) by {
                self.lemma_t_position_bound(s, gu, gv);
                assert((self.slice_of(s) + 1) * (st * st) <= count * (st * st))
                    by (nonlinear_arith)
                    requires
                        self.slice_of(s) + 1 <= count,
                        st >= 0,
                ;
                assert(self.transition_cache[self.t_position(s, gu, gv)] is None);
            }
            assert(self.t_filled_upto(0, 0, 0));
        }
        let mut side_index: usize = 0;
        while side_index < 6
            invariant
                self.block_subdivisions == subs,
                n == subs as int,
                st == 2 * n + 1,
                crate::voxel_coordinates::fits_subdivisions(n),
                side_index <= 6,
                count <= 6,
                self.inner_source.wf(),
                self.source_frame(*old(self)),
                self.regular_state_untouched(*old(self)),
                forall|idx: HighResolutionVoxelIndex|
                    idx.valid_for(n) ==> #[trigger] self.inner_source.admits_transition_index(idx),
                self.transition_cache_loaded,
                self.transition_cache_slices == old(self).transition_cache_slices,
                self.transition_cache_slices.len() == 6,
                self.transition_cache.len() == count * (st * st),
                forall|i: int|
                    0 <= i < 6 && #[trigger] self.side_loaded(i) ==> 0 <= self.slice_of(i) < count,
                forall|i: int, j: int|
                    0 <= i < 6 && 0 <= j < 6 && i != j && #[trigger] self.side_loaded(i)
                        && #[trigger] self.side_loaded(j) ==> self.slice_of(i) != self.slice_of(j),
                forall|i: int|
                    0 <= i < self.transition_cache.len() && (#[trigger] self.transition_cache[i])
                        is Some ==> self.inner_source.may_yield(self.transition_cache[i]->Some_0),
                forall|side: int, gu: int, gv: int|
                    #[trigger] self.transition_queries().count((side, gu, gv))
                        == self.expected_transition_queries(side, gu, gv),
                self.t_filled_upto(side_index as int, 0, 0),
            decreases 6 - side_index,
        {
            let slice = self.transition_cache_slices[side_index];
            if slice != usize::MAX {
                let side = TransitionSide::from_index(side_index);
                let mut gu: usize = 0;
                while gu <= 2 * subs
                    invariant
                        self.block_subdivisions == subs,
                        n == subs as int,
                        st == 2 * n + 1,
                        crate::voxel_coordinates::fits_subdivisions(n),
                        side_index < 6,
                        count <= 6,
                        gu <= 2 * subs + 1,
                        side.index_spec() == side_index as int,
                        self.side_loaded(side_index as int),
                        self.inner_source.wf(),
                        self.source_frame(*old(self)),
                        self.regular_state_untouched(*old(self)),
                        forall|idx: HighResolutionVoxelIndex|
                            idx.valid_for(n)
                                ==> #[trigger] self.inner_source.admits_transition_index(idx),
                        self.transition_cache_loaded,
                        self.transition_cache_slices == old(self).transition_cache_slices,
                        self.transition_cache_slices.len() == 6,
                        self.transition_cache.len() == count * (st * st),
                        forall|i: int|
                            0 <= i < 6 && #[trigger] self.side_loaded(i) ==> 0 <= self.slice_of(i)
                                < count,
                        forall|i: int, j: int|
                            0 <= i < 6 && 0 <= j < 6 && i != j && #[trigger] self.side_loaded(i)
                                && #[trigger] self.side_loaded(j) ==> self.slice_of(i)
                                != self.slice_of(j),
                        forall|i: int|
                            0 <= i < self.transition_cache.len()
                                && (#[trigger] self.transition_cache[i]) is Some
                                ==> self.inner_source.may_yield(
                                self.transition_cache[i]->Some_0,
                            ),
                        forall|side_: int, gu_: int, gv_: int|
                            #[trigger] self.transition_queries().count((side_, gu_, gv_))
                                == self.expected_transition_queries(side_, gu_, gv_),
                        self.t_filled_upto(side_index as int, gu as int, 0),
                    decreases 2 * subs + 1 - gu,
                {
                    let mut gv: usize = 0;
                    while gv <= 2 * subs
                        invariant
                            self.block_subdivisions == subs,
                            n == subs as int,
                            st == 2 * n + 1,
                            crate::voxel_coordinates::fits_subdivisions(n),
                            side_index < 6,
                            count <= 6,
                            gu <= 2 * subs,
                            gv <= 2 * subs + 1,
                            side.index_spec() == side_index as int,
                            self.side_loaded(side_index as int),
                            self.inner_source.wf(),
                            self.source_frame(*old(self)),
                            self.regular_state_untouched(*old(self)),
                            forall|idx: HighResolutionVoxelIndex|
                                idx.valid_for(n)
                                    ==> #[trigger] self.inner_source.admits_transition_index(idx),
                            self.transition_cache_loaded,
                            self.transition_cache_slices == old(self).transition_cache_slices,
                            self.transition_cache_slices.len() == 6,
                            self.transition_cache.len() == count * (st * st),
                            forall|i: int|
                                0 <= i < 6 && #[trigger] self.side_loaded(i) ==> 0
                                    <= self.slice_of(i) < count,
                            forall|i: int, j: int|
                                0 <= i < 6 && 0 <= j < 6 && i != j && #[trigger] self.side_loaded(
                                    i,
                                ) && #[trigger] self.side_loaded(j) ==> self.slice_of(i)
                                    != self.slice_of(j),
                            forall|i: int|
                                0 <= i < self.transition_cache.len()
                                    && (#[trigger] self.transition_cache[i]) is Some
                                    ==> self.inner_source.may_yield(
                                    self.transition_cache[i]->Some_0,
                                ),
                            forall|side_: int, gu_: int, gv_: int|
                                #[trigger] self.transition_queries().count((side_, gu_, gv_))
                                    == self.expected_transition_queries(side_, gu_, gv_),
                            self.t_filled_upto(side_index as int, gu as int, gv as int),
                        decreases 2 * subs + 1 - gv,
                    {
                        if gu % 2 == 1 || gv % 2 == 1 {
                            let mut cu: usize = gu / 2;
                            if cu > subs - 1 {
                                cu = subs - 1;
                            }
                            let mut cv: usize = gv / 2;
                            if cv > subs - 1 {
                                cv = subs - 1;
                            }
                            let du: isize = gu as isize - 2 * (cu as isize);
                            let dv: isize = gv as isize - 2 * (cv as isize);
                            let voxel_index = HighResolutionVoxelIndex::from(
                                side,
                                cu,
                                cv,
                                du,
                                dv,
                                0,
                            );
                            let ghost prev = *self;
                            proof {
                                assert(gu as int == 2 * (gu as int / 2) + gu as int % 2);
                                assert(gv as int == 2 * (gv as int / 2) + gv as int % 2);
                                self.lemma_t_position_bound(
                                    side_index as int,
                                    gu as int,
                                    gv as int,
                                );
                                assert((self.slice_of(side_index as int) + 1) * (st * st) <= count
                                    * (st * st)) by (nonlinear_arith)
                                    requires
                                        self.slice_of(side_index as int) + 1 <= count,
                                        st >= 0,
                                ;
                            }
                            self.cache_transition_voxel(&voxel_index);
                            proof {
                                let si = side_index as int;
                                let gui = gu as int;
                                let gvi = gv as int;
                                let pos = prev.t_position(si, gui, gvi);
                                assert forall|s_: int, gu_: int, gv_: int|
                                    is_t_addr(n, s_, gu_, gv_) && self.side_loaded(s_) implies ((
                                #[trigger] self.t_slot(s_, gu_, gv_)) is Some == Self::t_lex_lt(
                                    s_,
                                    gu_,
                                    gv_,
                                    si,
                                    gui,
                                    gvi + 1,
                                )) by {
                                    if s_ == si && gu_ == gui && gv_ == gvi {
                                    } else {
                                        assert(prev.side_loaded(s_) && prev.side_loaded(si));
                                        assert(0 <= prev.slice_of(s_) < count && 0 <= prev.slice_of(
                                            si,
                                        ) < count);
                                        if prev.t_position(s_, gu_, gv_) == prev.t_position(
                                            si,
                                            gui,
                                            gvi,
                                        ) {
                                            prev.lemma_t_position_injective(
                                                s_,
                                                gu_,
                                                gv_,
                                                si,
                                                gui,
                                                gvi,
                                            );
                                        }
                                        prev.lemma_t_position_bound(s_, gu_, gv_);
                                        assert((prev.slice_of(s_) + 1) * (st * st) <= count * (st
                                            * st)) by (nonlinear_arith)
                                            requires
                                                prev.slice_of(s_) + 1 <= count,
                                                st >= 0,
                                        ;
                                        assert(prev.t_slot(s_, gu_, gv_) is Some
                                            == Self::t_lex_lt(s_, gu_, gv_, si, gui, gvi));
                                        assert(self.t_slot(s_, gu_, gv_) == prev.t_slot(
                                            s_,
                                            gu_,
                                            gv_,
                                        ));
                                    }
                                }
                                assert(self.t_filled_upto(si, gui, gvi + 1));
                                assert forall|i: int|
                                    0 <= i < 6 && #[trigger] self.side_loaded(i) implies 0
                                    <= self.slice_of(i) < count by {
                                    assert(prev.side_loaded(i));
                                }
                                assert forall|i: int, j: int|
                                    0 <= i < 6 && 0 <= j < 6 && i != j
                                        && #[trigger] self.side_loaded(i)
                                        && #[trigger] self.side_loaded(j) implies self.slice_of(i)
                                    != self.slice_of(j) by {
                                    assert(prev.side_loaded(i) && prev.side_loaded(j));
                                }
                                assert forall|side_: int, gu_: int, gv_: int|
                                    #[trigger] self.transition_queries().count((side_, gu_, gv_))
                                        == self.expected_transition_queries(side_, gu_, gv_) by {
                                    assert(prev.transition_queries().count((side_, gu_, gv_))
                                        == prev.expected_transition_queries(side_, gu_, gv_));
                                    if side_ == si && gu_ == gui && gv_ == gvi {
                                        assert(prev.expected_transition_queries(side_, gu_, gv_)
                                            == 0);
                                        assert(self.expected_transition_queries(side_, gu_, gv_)
                                            == 1);
                                    } else {
                                        if is_t_addr(n, side_, gu_, gv_) && self.side_loaded(side_)
                                            && 0 <= self.t_position(side_, gu_, gv_)
                                            < self.transition_cache.len() {
                                            prev.lemma_t_position_bound(side_, gu_, gv_);
                                            assert(prev.side_loaded(side_) && prev.side_loaded(si));
                                            assert(0 <= prev.slice_of(side_) < count && 0
                                                <= prev.slice_of(si) < count);
                                            if prev.t_position(side_, gu_, gv_) == prev.t_position(
                                                si,
                                                gui,
                                                gvi,
                                            ) {
                                                prev.lemma_t_position_injective(
                                                    side_,
                                                    gu_,
                                                    gv_,
                                                    si,
                                                    gui,
                                                    gvi,
                                                );
                                            }
                                        }
                                        assert(self.expected_transition_queries(side_, gu_, gv_)
                                            == prev.expected_transition_queries(side_, gu_, gv_));
                                    }
                                }
                            }
                        }
                        gv = gv + 1;
                    }
                    proof {
                        assert forall|s_: int, gu_: int, gv_: int|
                            is_t_addr(n, s_, gu_, gv_) && self.side_loaded(s_) implies ((
                        #[trigger] self.t_slot(s_, gu_, gv_)) is Some == Self::t_lex_lt(
                            s_,
                            gu_,
                            gv_,
                            side_index as int,
                            gu as int + 1,
                            0,
                        )) by {
                            assert(self.t_slot(s_, gu_, gv_) is Some == Self::t_lex_lt(
                                s_,
                                gu_,
                                gv_,
                                side_index as int,
                                gu as int,
                                gv as int,
                            ));
                        }
                    }
                    gu = gu + 1;
                }
                proof {
                    assert forall|s_: int, gu_: int, gv_: int|
                        is_t_addr(n, s_, gu_, gv_) && self.side_loaded(s_) implies ((
                    #[trigger] self.t_slot(s_, gu_, gv_)) is Some == Self::t_lex_lt(
                        s_,
                        gu_,
                        gv_,
                        side_index as int + 1,
                        0,
                        0,
                    )) by {
                        assert(self.t_slot(s_, gu_, gv_) is Some == Self::t_lex_lt(
                            s_,
                            gu_,
                            gv_,
                            side_index as int,
                            gu as int,
                            0,
                        ));
                    }
                }
            } else {
                proof {
                    assert forall|s_: int, gu_: int, gv_: int|
                        is_t_addr(n, s_, gu_, gv_) && self.side_loaded(s_) implies ((
                    #[trigger] self.t_slot(s_, gu_, gv_)) is Some == Self::t_lex_lt(
                        s_,
                        gu_,
                        gv_,
                        side_index as int + 1,
                        0,
                        0,
                    )) by {
                        assert(self.t_slot(s_, gu_, gv_) is Some == Self::t_lex_lt(
                            s_,
                            gu_,
                            gv_,
                            side_index as int,
                            0,
                            0,
                        ));
                        if s_ == side_index as int {
                            assert(!self.side_loaded(s_));
                        }
                    }
                }
            }
            side_index = side_index + 1;
        }
        proof {
            Self::lemma_regular_caches_wf_congruent(*old(self), *self);
            assert forall|side: int, gu: int, gv: int|
                is_t_addr(n, side, gu, gv) && #[trigger] self.side_loaded(side) implies (
            #[trigger] self.t_slot(side, gu, gv)) is Some by {
                assert(self.t_slot(side, gu, gv) is Some == Self::t_lex_lt(side, gu, gv, 6, 0, 0));
            }
            assert forall|side: int|
                0 <= side < 6 && #[trigger] self.side_loaded(side) implies 0 <= self.slice_of(side)
                < 6 && (self.slice_of(side) + 1) * (self.t_stride() * self.t_stride())
                <= self.transition_cache.len() by {
                assert((self.slice_of(side) + 1) * (st * st) <= count * (st * st))
                    by (nonlinear_arith)
                    requires
                        self.slice_of(side) + 1 <= count,
                        st >= 0,
                ;
            }
            assert(self.shape_wf());
            assert(self.regular_caches_wf());
            assert(self.transition_wf());
        }
    }

    /// Returns the voxel data at a high resolution face voxel.  Face voxels
    /// the cache holds (on an active face, within its range, odd in U or V)
    /// are served from the cache without touching the oracle; positions used
    /// only for gradients (off the face or outside its range) are resolved
    /// against the oracle on each call.  Never called for voxels on the
    /// regular grid: those are served by `get_density`.
    pub fn get_transition_density(&mut self, index: &HighResolutionVoxelIndex) -> (r: V)
        requires
            old(self).wf(),
            index.valid_for(old(self).subs()),
            !(index.delta.u % 2 == 0 && index.delta.v % 2 == 0 && index.delta.w == 0),
            (index.delta.w == 0 && 0 <= 2 * index.cell.cell_u + index.delta.u <= 2 * old(
                self,
            ).subs() && 0 <= 2 * index.cell.cell_v + index.delta.v <= 2 * old(self).subs()) ==> old(
                self,
            ).side_loaded(index.cell.side.index_spec()),
        ensures
            final(self).wf(),
            final(self).subs() == old(self).subs(),
            final(self).source_may_yield(r),
            final(self).source_frame(*old(self)),
            final(self).regular_state_untouched(*old(self)),
            final(self).transition_untouched(*old(self)),
            final(self).transition_loaded() == old(self).transition_loaded(),
            ({
                let side = index.cell.side.index_spec();
                let gu = 2 * index.cell.cell_u + index.delta.u;
                let gv = 2 * index.cell.cell_v + index.delta.v;
                (index.delta.w == 0 && 0 <= gu <= 2 * old(self).subs() && 0 <= gv <= 2 * old(
                    self,
                ).subs()) ==> (*final(self) == *old(self) && r == old(self).transition_value(
                    side,
                    gu,
                    gv,
                ))
            }),
    {
        let c = index.cell;
        let d = index.delta;
        let subs = self.block_subdivisions;
        let ghost n = subs as int;
        proof {
            crate::voxel_coordinates::lemma_fits_consequences(n);
        }
        let gu: isize = (c.cell_u as isize) * 2 + d.u;
        let gv: isize = (c.cell_v as isize) * 2 + d.v;
        if (d.w != 0) || (gu < 0) || (gu > 2 * subs as isize) || (gv < 0) || (gv > 2
            * subs as isize) {
            // Out of the block face: we don't cache these.
            let ghost before = *self;
            let r = self.inner_source.get_transition_density(index);
            proof {
                Self::lemma_regular_caches_wf_congruent(before, *self);
                Self::lemma_transition_wf_congruent(before, *self);
            }
            r
        } else {
            proof {
                self.lemma_t_position_bound(c.side.index_spec(), gu as int, gv as int);
                assert((self.slice_of(c.side.index_spec()) + 1) * (self.t_stride()
                    * self.t_stride()) <= self.transition_cache.len());
            }
            let cache_index = self.transition_cache_index(index);
            let slot = &self.transition_cache[cache_index];
            proof {
                assert(self.t_slot(c.side.index_spec(), gu as int, gv as int) is Some);
            }
            match slot {
                Some(v) => *v,
                None => {
                    proof {
                        assert(false);
                    }
                    self.inner_source.get_transition_density(index)
                },
            }
        }
    }

    /// What the source-frame predicate means to callers: the source's
    /// predicates are unchanged.
    pub proof fn lemma_source_frame_consequences(self, other: Self)
        requires
            self.source_frame(other),
        ensures
            forall|v: V| self.source_may_yield(v) == other.source_may_yield(v),
    {
    }

    /// What an untouched regular half means to callers: every regular
    /// address keeps its value, and the loading state and query log stay.
    pub proof fn lemma_regular_state_untouched_consequences(self, other: Self)
        requires
            self.regular_state_untouched(other),
        ensures
            self.subs() == other.subs(),
            self.extended_loaded() == other.extended_loaded(),
            self.regular_queries() == other.regular_queries(),
            forall|x: int, y: int, z: int|
                #[trigger] self.regular_value(x, y, z) == other.regular_value(x, y, z),
    {
    }

    /// What an untouched transition half means to callers: the loaded sides
    /// and every held face value stay.
    pub proof fn lemma_transition_untouched_consequences(self, other: Self)
        requires
            self.transition_untouched(other),
        ensures
            self.subs() == other.subs(),
            self.transition_loaded() == other.transition_loaded(),
            self.transition_queries() == other.transition_queries(),
            forall|side: int| #[trigger] self.side_loaded(side) == other.side_loaded(side),
            forall|side: int, gu: int, gv: int|
                #[trigger] self.transition_value(side, gu, gv) == other.transition_value(
                    side,
                    gu,
                    gv,
                ),
    {
        assert forall|side: int| #[trigger] self.side_loaded(side) == other.side_loaded(
            side,
        ) by {
            assert(self.transition_cache_slices@ == other.transition_cache_slices@);
        }
    }

    /// What an untouched block cache means to callers: block voxels keep
    /// their values.
    pub proof fn lemma_block_cache_untouched_consequences(self, other: Self)
        requires
            self.block_cache_untouched(other),
            self.subs() == other.subs(),
        ensures
            forall|x: int, y: int, z: int|
                is_block_addr(self.subs(), x, y, z) ==> #[trigger] self.regular_value(x, y, z)
                    == other.regular_value(x, y, z),
    {
    }

    /// Every value the cache serves could have been returned by the
    /// oracle.
    pub proof fn lemma_wf_values_may_yield(self)
        requires
            self.wf(),
        ensures
            forall|x: int, y: int, z: int|
                regular_addr_valid(self.subs(), x, y, z) && (is_block_addr(self.subs(), x, y, z)
                    || self.extended_loaded()) ==> self.source_may_yield(
                    #[trigger] self.regular_value(x, y, z),
                ),
            forall|side: int, gu: int, gv: int|
                is_t_addr(self.subs(), side, gu, gv) && self.side_loaded(side)
                    && self.transition_loaded() ==> self.source_may_yield(
                    #[trigger] self.transition_value(side, gu, gv),
                ),
    {
        let n = self.subs();
        assert forall|x: int, y: int, z: int|
            regular_addr_valid(n, x, y, z) && (is_block_addr(n, x, y, z)
                || self.extended_loaded()) implies self.source_may_yield(
            #[trigger] self.regular_value(x, y, z),
        ) by {
            if is_block_addr(n, x, y, z) {
                lemma_block_position_bound(n, x, y, z);
                assert(self.inner_source.may_yield(
                    self.regular_cache[block_position(n, x, y, z)],
                ));
            } else {
                lemma_halo_position_bound(n, x, y, z);
                assert(self.inner_source.may_yield(
                    self.regular_cache_extended[halo_position(n, x, y, z)],
                ));
            }
        }
        assert forall|side: int, gu: int, gv: int|
            is_t_addr(n, side, gu, gv) && self.side_loaded(side)
                && self.transition_loaded() implies self.source_may_yield(
            #[trigger] self.transition_value(side, gu, gv),
        ) by {
            self.lemma_t_position_bound(side, gu, gv);
            let s2 = self.t_stride() * self.t_stride();
            assert((self.slice_of(side) + 1) * s2 <= self.transition_cache.len());
            assert(self.t_slot(side, gu, gv) is Some);
            assert(self.inner_source.may_yield(
                self.transition_cache[self.t_position(side, gu, gv)]->Some_0,
            ));
        }
    }

    /// Every untouched-state predicate holds of a state and itself.
    pub proof fn lemma_untouched_reflexive(self)
        ensures
            self.transition_untouched(self),
            self.regular_state_untouched(self),
            self.block_cache_untouched(self),
            self.source_frame(self),
    {
    }

    /// Cache determinism: the oracle is called at most once for every
    /// regular voxel address, and at most once for every face address the
    /// cache holds, over the cache's whole lifetime.
    pub proof fn lemma_oracle_queried_at_most_once(cache: Self)
        requires
            cache.wf(),
        ensures
            forall|x: int, y: int, z: int|
                #[trigger] cache.regular_queries().count((x, y, z)) <= 1,
            forall|side: int, gu: int, gv: int|
                #[trigger] cache.transition_queries().count((side, gu, gv)) <= 1,
    {
        assert forall|x: int, y: int, z: int|
            #[trigger] cache.regular_queries().count((x, y, z)) <= 1 by {
            assert(cache.regular_queries().count((x, y, z)) == cache.expected_regular_queries(
                x,
                y,
                z,
            ));
        }
        assert forall|side: int, gu: int, gv: int|
            #[trigger] cache.transition_queries().count((side, gu, gv)) <= 1 by {
            assert(cache.transition_queries().count((side, gu, gv))
                == cache.expected_transition_queries(side, gu, gv));
        }
    }
}

} // verus!
