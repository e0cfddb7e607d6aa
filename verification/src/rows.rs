//! The cells of the three lists as they are shown: one row for each group,
//! and below the groups the row that stands for a new one.

use vstd::prelude::*;
use vstd::string::*;
use crate::gmsh_ctl::surf_groups;
use crate::gmsh_ctl::vol_groups;
use crate::gmsh_ctl::MeshPara;
use crate::gmsh_ctl::PhysGroup;
use crate::gmsh_ctl::SurfPhys;
use crate::gmsh_ctl::VolPhys;
use crate::session::size_label;
use crate::session::texts;

verus! {

/// The texts of the cells of a list of rows.
pub open spec fn cells(rows: Seq<Vec<String>>) -> Seq<Seq<Seq<char>>> {
    Seq::new(rows.len(), |i: int| texts(rows[i]@))
}

/// The row of a group: its name, its tag and its members.
pub open spec fn group_row(g: PhysGroup) -> Seq<Seq<char>> {
    seq![g.name, g.phys_id, g.ids]
}

/// The row below the groups, which invites to add one.
pub open spec fn add_row() -> Seq<Seq<char>> {
    seq!["Enter"@, "To"@, "Add"@]
}

/// The rows of a list of groups: one for each group, in order, and the
/// inviting row below them.
pub open spec fn group_rows(groups: Seq<PhysGroup>) -> Seq<Seq<Seq<char>>> {
    Seq::new(
        groups.len() + 1,
        |i: int|
            if i < groups.len() {
                group_row(groups[i])
            } else {
                add_row()
            },
    )
}

/// The inviting row.
fn make_add_row() -> (row: Vec<String>)
    ensures
        texts(row@) == add_row(),
{
    let mut row: Vec<String> = Vec::new();
    row.push(String::from_str("Enter"));
    row.push(String::from_str("To"));
    row.push(String::from_str("Add"));
    assert(texts(row@) =~= add_row());
    row
}

/// The rows of the list of volumes.
pub fn vol_rows(vol_list: &Vec<VolPhys>) -> (rows: Vec<Vec<String>>)
    ensures
        cells(rows@) == group_rows(vol_groups(vol_list@)),
{
    let ghost groups = vol_groups(vol_list@);
    let mut rows: Vec<Vec<String>> = Vec::new();
    let mut i: usize = 0;
    while i < vol_list.len()
        invariant
            i <= vol_list.len(),
            groups == vol_groups(vol_list@),
            rows@.len() == i,
            forall|j: int| 0 <= j < i ==> texts(#[trigger] rows@[j]@) == group_row(groups[j]),
        decreases vol_list.len() - i,
    {
        let g = &vol_list[i];
        let mut row: Vec<String> = Vec::new();
        row.push(g.name.clone());
        row.push(g.phys_id.clone());
        row.push(g.vol_ids.clone());
        assert(texts(row@) =~= group_row(groups[i as int]));
        rows.push(row);
        i += 1;
    }
    rows.push(make_add_row());
    assert(cells(rows@) =~= group_rows(groups));
    rows
}

/// The rows of the list of surfaces.
pub fn surf_rows(surf_list: &Vec<SurfPhys>) -> (rows: Vec<Vec<String>>)
    ensures
        cells(rows@) == group_rows(surf_groups(surf_list@)),
{
    let ghost groups = surf_groups(surf_list@);
    let mut rows: Vec<Vec<String>> = Vec::new();
    let mut i: usize = 0;
    while i < surf_list.len()
        invariant
            i <= surf_list.len(),
            groups == surf_groups(surf_list@),
            rows@.len() == i,
            forall|j: int| 0 <= j < i ==> texts(#[trigger] rows@[j]@) == group_row(groups[j]),
        decreases surf_list.len() - i,
    {
        let g = &surf_list[i];
        let mut row: Vec<String> = Vec::new();
        row.push(g.name.clone());
        row.push(g.phys_id.clone());
        row.push(g.surf_ids.clone());
        assert(texts(row@) =~= group_row(groups[i as int]));
        rows.push(row);
        i += 1;
    }
    rows.push(make_add_row());
    assert(cells(rows@) =~= group_rows(groups));
    rows
}

/// The one row of the mesh settings: the label of the size and the size.
pub fn mesh_rows(mesh_para: &MeshPara) -> (rows: Vec<Vec<String>>)
    ensures
        cells(rows@) == seq![seq![size_label(), mesh_para.max_size@]],
{
    let mut row: Vec<String> = Vec::new();
    row.push(String::from_str("MaxSize"));
    row.push(mesh_para.max_size.clone());
    assert(texts(row@) =~= seq![size_label(), mesh_para.max_size@]);
    let mut rows: Vec<Vec<String>> = Vec::new();
    rows.push(row);
    assert(cells(rows@) =~= seq![seq![size_label(), mesh_para.max_size@]]);
    rows
}

} // verus!
