//! The record store: the physical groups of a geometry, the mesh settings,
//! and the pairs that outlive a session.

use vstd::prelude::*;

verus! {

/// What a physical group is, whether of volumes or of surfaces: a display
/// name, a numeric tag kept as text, and the list of member ids kept as
/// text. A group with an empty list is a placeholder.
pub struct PhysGroup {
    pub name: Seq<char>,
    pub phys_id: Seq<char>,
    pub ids: Seq<char>,
}

/// What survives between sessions of a group: its name and its tag.
pub struct PairView {
    pub name: Seq<char>,
    pub phys_id: Seq<char>,
}

/// The whole store as plain values.
pub struct Store {
    pub geometry_file: Seq<char>,
    pub volumes: Seq<PhysGroup>,
    pub surfaces: Seq<PhysGroup>,
    pub max_size: Seq<char>,
}

/// A physical group of volumes. Every field is text because each is copied
/// into the script as it stands.
#[derive(Debug)]
pub struct VolPhys {
    pub name: String,
    pub phys_id: String,
    pub vol_ids: String,
}

/// A physical group of surfaces.
#[derive(Debug)]
pub struct SurfPhys {
    pub name: String,
    pub phys_id: String,
    pub surf_ids: String,
}

/// The mesh settings. An empty `max_size` leaves the size unset.
#[derive(Debug)]
pub struct MeshPara {
    pub max_size: String,
}

/// The record store of one session.
#[derive(Debug)]
pub struct GmshPara {
    /// File name of the geometry, such as `part.step`.
    pub geometry_file: String,
    pub vol_phy_list: Vec<VolPhys>,
    pub surf_phy_list: Vec<SurfPhys>,
    pub mesh_paras: MeshPara,
}

/// A name and a tag, as kept between sessions.
#[derive(Debug)]
pub struct PhysPair {
    pub name: String,
    pub phys_id: String,
}

/// The pairs of both kinds of group, each list in the order of the store.
#[derive(Debug)]
pub struct PhysPairList {
    pub vol_pairs: Vec<PhysPair>,
    pub sur_pairs: Vec<PhysPair>,
}

impl View for VolPhys {
    type V = PhysGroup;

    open spec fn view(&self) -> PhysGroup {
        PhysGroup { name: self.name@, phys_id: self.phys_id@, ids: self.vol_ids@ }
    }
}

impl View for SurfPhys {
    type V = PhysGroup;

    open spec fn view(&self) -> PhysGroup {
        PhysGroup { name: self.name@, phys_id: self.phys_id@, ids: self.surf_ids@ }
    }
}

impl View for PhysPair {
    type V = PairView;

    open spec fn view(&self) -> PairView {
        PairView { name: self.name@, phys_id: self.phys_id@ }
    }
}

/// The groups that a list of volume records stands for, in order.
pub open spec fn vol_groups(list: Seq<VolPhys>) -> Seq<PhysGroup> {
    Seq::new(list.len(), |i: int| list[i]@)
}

/// The groups that a list of surface records stands for, in order.
pub open spec fn surf_groups(list: Seq<SurfPhys>) -> Seq<PhysGroup> {
    Seq::new(list.len(), |i: int| list[i]@)
}

/// The pairs that a list of stored pairs stands for, in order.
pub open spec fn pair_views(list: Seq<PhysPair>) -> Seq<PairView> {
    Seq::new(list.len(), |i: int| list[i]@)
}

impl View for GmshPara {
    type V = Store;

    open spec fn view(&self) -> Store {
        Store {
            geometry_file: self.geometry_file@,
            volumes: vol_groups(self.vol_phy_list@),
            surfaces: surf_groups(self.surf_phy_list@),
            max_size: self.mesh_paras.max_size@,
        }
    }
}

impl Clone for VolPhys {
    fn clone(&self) -> (out: Self)
        ensures
            out@ == self@,
    {
        VolPhys {
            name: self.name.clone(),
            phys_id: self.phys_id.clone(),
            vol_ids: self.vol_ids.clone(),
        }
    }
}

impl Clone for SurfPhys {
    fn clone(&self) -> (out: Self)
        ensures
            out@ == self@,
    {
        SurfPhys {
            name: self.name.clone(),
            phys_id: self.phys_id.clone(),
            surf_ids: self.surf_ids.clone(),
        }
    }
}

impl Clone for MeshPara {
    fn clone(&self) -> (out: Self)
        ensures
            out.max_size@ == self.max_size@,
    {
        MeshPara { max_size: self.max_size.clone() }
    }
}

impl Clone for PhysPair {
    fn clone(&self) -> (out: Self)
        ensures
            out@ == self@,
    {
        PhysPair { name: self.name.clone(), phys_id: self.phys_id.clone() }
    }
}

/// The groups that stored pairs give rise to: each keeps its name and its
/// tag and has no members yet.
pub open spec fn blank_groups(pairs: Seq<PairView>) -> Seq<PhysGroup> {
    Seq::new(
        pairs.len(),
        |i: int| PhysGroup { name: pairs[i].name, phys_id: pairs[i].phys_id, ids: Seq::empty() },
    )
}

/// The pairs that are kept of groups: the name and the tag of each, without
/// its members.
pub open spec fn group_pairs(groups: Seq<PhysGroup>) -> Seq<PairView> {
    Seq::new(groups.len(), |i: int| PairView { name: groups[i].name, phys_id: groups[i].phys_id })
}

/// The store that a session starts from when the given pairs were kept from
/// an earlier one: no geometry yet, no size set.
pub open spec fn loaded_store(vol_pairs: Seq<PairView>, sur_pairs: Seq<PairView>) -> Store {
    Store {
        geometry_file: Seq::empty(),
        volumes: blank_groups(vol_pairs),
        surfaces: blank_groups(sur_pairs),
        max_size: Seq::empty(),
    }
}

impl GmshPara {
    /// The store at the start of a session. Each pair that was kept becomes
    /// a group without members, in the order in which the pairs were kept;
    /// with no pairs the store is empty.
    pub fn new(cache: &PhysPairList) -> (store: GmshPara)
        ensures
            store@ == loaded_store(pair_views(cache.vol_pairs@), pair_views(cache.sur_pairs@)),
    {
        let mut vol_phy_list: Vec<VolPhys> = Vec::new();
        let mut i: usize = 0;
        while i < cache.vol_pairs.len()
            invariant
                i <= cache.vol_pairs.len(),
                vol_groups(vol_phy_list@) == blank_groups(pair_views(cache.vol_pairs@).take(i as int)),
            decreases cache.vol_pairs.len() - i,
        {
            let pair = &cache.vol_pairs[i];
            let ghost prev = vol_phy_list@;
            let ghost pairs = pair_views(cache.vol_pairs@);
            vol_phy_list.push(
                VolPhys {
                    name: pair.name.clone(),
                    phys_id: pair.phys_id.clone(),
                    vol_ids: String::new(),
                },
            );
            i += 1;
            proof {
                assert(vol_groups(prev).len() == i - 1);
                assert forall|j: int| 0 <= j < i implies vol_groups(vol_phy_list@)[j]
                    == blank_groups(pairs.take(i as int))[j] by {
                    if j < i - 1 {
                        assert(vol_groups(prev)[j] == blank_groups(pairs.take(i - 1))[j]);
                    }
                }
                assert(vol_groups(vol_phy_list@) =~= blank_groups(pairs.take(i as int)));
            }
        }
        assert(pair_views(cache.vol_pairs@).take(i as int) =~= pair_views(cache.vol_pairs@));
        let mut surf_phy_list: Vec<SurfPhys> = Vec::new();
        let mut k: usize = 0;
        while k < cache.sur_pairs.len()
            invariant
                k <= cache.sur_pairs.len(),
                surf_groups(surf_phy_list@) == blank_groups(
                    pair_views(cache.sur_pairs@).take(k as int),
                ),
            decreases cache.sur_pairs.len() - k,
        {
            let pair = &cache.sur_pairs[k];
            let ghost prev = surf_phy_list@;
            let ghost pairs = pair_views(cache.sur_pairs@);
            surf_phy_list.push(
                SurfPhys {
                    name: pair.name.clone(),
                    phys_id: pair.phys_id.clone(),
                    surf_ids: String::new(),
                },
            );
            k += 1;
            proof {
                assert(surf_groups(prev).len() == k - 1);
                assert forall|j: int| 0 <= j < k implies surf_groups(surf_phy_list@)[j]
                    == blank_groups(pairs.take(k as int))[j] by {
                    if j < k - 1 {
                        assert(surf_groups(prev)[j] == blank_groups(pairs.take(k - 1))[j]);
                    }
                }
                assert(surf_groups(surf_phy_list@) =~= blank_groups(pairs.take(k as int)));
            }
        }
        assert(pair_views(cache.sur_pairs@).take(k as int) =~= pair_views(cache.sur_pairs@));
        GmshPara {
            geometry_file: String::new(),
            vol_phy_list,
            surf_phy_list,
            mesh_paras: MeshPara { max_size: String::new() },
        }
    }

    /// The pairs to keep for the next session: the name and the tag of every
    /// group, volumes and surfaces apart, in the order of the store.
    pub fn save_cache(&self) -> (cache: PhysPairList)
        ensures
            pair_views(cache.vol_pairs@) == group_pairs(self@.volumes),
            pair_views(cache.sur_pairs@) == group_pairs(self@.surfaces),
    {
        let mut vol_pairs: Vec<PhysPair> = Vec::new();
        let mut i: usize = 0;
        while i < self.vol_phy_list.len()
            invariant
                i <= self.vol_phy_list.len(),
                pair_views(vol_pairs@) == group_pairs(self@.volumes.take(i as int)),
            decreases self.vol_phy_list.len() - i,
        {
            let g = &self.vol_phy_list[i];
            let ghost prev = vol_pairs@;
            vol_pairs.push(PhysPair { name: g.name.clone(), phys_id: g.phys_id.clone() });
            i += 1;
            proof {
                assert(pair_views(prev).len() == i - 1);
                assert forall|j: int| 0 <= j < i implies pair_views(vol_pairs@)[j] == group_pairs(
                    self@.volumes.take(i as int),
                )[j] by {
                    if j < i - 1 {
                        assert(pair_views(prev)[j] == group_pairs(self@.volumes.take(i - 1))[j]);
                    }
                }
                assert(pair_views(vol_pairs@) =~= group_pairs(self@.volumes.take(i as int)));
            }
        }
        assert(self@.volumes.take(i as int) =~= self@.volumes);
        let mut sur_pairs: Vec<PhysPair> = Vec::new();
        let mut k: usize = 0;
        while k < self.surf_phy_list.len()
            invariant
                k <= self.surf_phy_list.len(),
                pair_views(sur_pairs@) == group_pairs(self@.surfaces.take(k as int)),
            decreases self.surf_phy_list.len() - k,
        {
            let g = &self.surf_phy_list[k];
            let ghost prev = sur_pairs@;
            sur_pairs.push(PhysPair { name: g.name.clone(), phys_id: g.phys_id.clone() });
            k += 1;
            proof {
                assert(pair_views(prev).len() == k - 1);
                assert forall|j: int| 0 <= j < k implies pair_views(sur_pairs@)[j] == group_pairs(
                    self@.surfaces.take(k as int),
                )[j] by {
                    if j < k - 1 {
                        assert(pair_views(prev)[j] == group_pairs(self@.surfaces.take(k - 1))[j]);
                    }
                }
                assert(pair_views(sur_pairs@) =~= group_pairs(self@.surfaces.take(k as int)));
            }
        }
        assert(self@.surfaces.take(k as int) =~= self@.surfaces);
        PhysPairList { vol_pairs, sur_pairs }
    }
}

/// Keeping the pairs of a store and starting a session from them gives back
/// every group in its place, with its name and its tag, and without
/// members.
pub proof fn kept_pairs_restore_groups(groups: Seq<PhysGroup>)
    ensures
        blank_groups(group_pairs(groups)).len() == groups.len(),
        forall|i: int|
            0 <= i < groups.len() ==> #[trigger] blank_groups(group_pairs(groups))[i] == (PhysGroup {
                name: groups[i].name,
                phys_id: groups[i].phys_id,
                ids: Seq::empty(),
            }),
{
}

/// Starting a session from kept pairs and keeping the pairs of its store
/// gives the same pairs in the same order.
pub proof fn loaded_groups_keep_pairs(pairs: Seq<PairView>)
    ensures
        group_pairs(blank_groups(pairs)) == pairs,
{
    assert(group_pairs(blank_groups(pairs)) =~= pairs);
}

} // verus!
