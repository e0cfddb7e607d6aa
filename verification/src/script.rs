//! The text of the script that the meshing program reads.
//!
//! The text is a fixed frame around the store: the import of the geometry,
//! the healing sequence, one line for each group that has members, the
//! size directive where a size is set, and the meshing command.

use vstd::prelude::*;
use vstd::string::*;
use crate::gmsh_ctl::surf_groups;
use crate::gmsh_ctl::vol_groups;
use crate::gmsh_ctl::GmshPara;
use crate::gmsh_ctl::PhysGroup;
use crate::gmsh_ctl::Store;
use crate::gmsh_ctl::SurfPhys;
use crate::gmsh_ctl::VolPhys;
use crate::text::file_stem;
use crate::text::path_file_stem;

verus! {

/// The import of the geometry file.
pub open spec fn import_text(geometry_file: Seq<char>) -> Seq<char> {
    "SetFactory(\"OpenCASCADE\");\nv()=ShapeFromFile(\""@ + geometry_file + "\");\n"@
}

/// The healing sequence, which does not depend on the store.
pub open spec fn heal_text() -> Seq<char> {
    "/* Heal the step file */\nBooleanFragments{ Volume{:}; Surface {:}; Delete; }{}\nCoherence;\n"@
}

/// The heading of the volume groups.
pub open spec fn volume_heading() -> Seq<char> {
    "/* Physical Volume Grouping */\n"@
}

/// The heading of the surface groups.
pub open spec fn surface_heading() -> Seq<char> {
    "/* Physical Surface Grouping */\n"@
}

/// The heading of the mesh settings.
pub open spec fn mesh_heading() -> Seq<char> {
    "/* Mesh Setting */\n"@
}

/// The start of a line that groups volumes.
pub open spec fn volume_opening() -> Seq<char> {
    "Physical Volume(\""@
}

/// The start of a line that groups surfaces.
pub open spec fn surface_opening() -> Seq<char> {
    "Physical Surface(\""@
}

/// The command that runs the mesher in three dimensions.
pub open spec fn mesh_command() -> Seq<char> {
    "Mesh 3;\n"@
}

/// The line of one group: the name in quotes, the tag, and the members in
/// braces.
pub open spec fn group_line(opening: Seq<char>, g: PhysGroup) -> Seq<char> {
    opening + g.name + "\","@ + g.phys_id + ")={"@ + g.ids + "};\n"@
}

/// What one group adds to the script: its line, or nothing where it has no
/// members.
pub open spec fn group_entry(opening: Seq<char>, g: PhysGroup) -> Seq<char> {
    if g.ids.len() == 0 {
        Seq::empty()
    } else {
        group_line(opening, g)
    }
}

/// The entries of the groups, in their order.
pub open spec fn group_lines(opening: Seq<char>, groups: Seq<PhysGroup>) -> Seq<char>
    decreases groups.len(),
{
    if groups.len() == 0 {
        Seq::empty()
    } else {
        group_lines(opening, groups.drop_last()) + group_entry(opening, groups.last())
    }
}

/// The size directive, or nothing where no size is set.
pub open spec fn size_directive(max_size: Seq<char>) -> Seq<char> {
    if max_size.len() == 0 {
        Seq::empty()
    } else {
        "Mesh.MeshSizeMax="@ + max_size + ";\n"@
    }
}

/// The script that shows and meshes the geometry.
pub open spec fn script_text(s: Store) -> Seq<char> {
    import_text(s.geometry_file) + heal_text() + volume_heading() + group_lines(
        volume_opening(),
        s.volumes,
    ) + surface_heading() + group_lines(surface_opening(), s.surfaces) + mesh_heading()
        + size_directive(s.max_size) + mesh_command()
}

/// The directives that choose the export format and save the mesh: the
/// small-field format, physical groups only, elements tagged by the tag of
/// their group.
pub open spec fn export_text(file_name: Seq<char>) -> Seq<char> {
    "Mesh.Format=31;\nMesh.BdfFieldFormat=1;\nMesh.SaveAll=0;\nMesh.SaveElementTagType=2;\nSave \""@
        + file_name + "\";"@
}

/// The name of the script file that belongs to a geometry of the given stem.
pub open spec fn script_name(stem: Seq<char>) -> Seq<char> {
    stem + "_temp.geo"@
}

/// The name of the mesh file that the export writes.
pub open spec fn export_name(stem: Seq<char>) -> Seq<char> {
    stem + ".nas"@
}

/// The script that meshes the geometry and then saves the mesh.
pub open spec fn export_script_text(s: Store, stem: Seq<char>) -> Seq<char> {
    script_text(s) + export_text(export_name(stem))
}

/// Whether a group has members, and so a line in the script.
pub open spec fn has_members(g: PhysGroup) -> bool {
    g.ids.len() > 0
}

/// The entries of two runs of groups, one after the other, are the entries
/// of the first followed by those of the second.
pub proof fn group_lines_of_concat(opening: Seq<char>, a: Seq<PhysGroup>, b: Seq<PhysGroup>)
    ensures
        group_lines(opening, a + b) == group_lines(opening, a) + group_lines(opening, b),
    decreases b.len(),
{
    if b.len() == 0 {
        assert(a + b =~= a);
        assert(group_lines(opening, a) + group_lines(opening, b) =~= group_lines(opening, a));
    } else {
        assert((a + b).drop_last() =~= a + b.drop_last());
        assert((a + b).last() == b.last());
        group_lines_of_concat(opening, a, b.drop_last());
        assert(group_lines(opening, a + b) =~= group_lines(opening, a) + group_lines(opening, b));
    }
}

/// A group without members adds nothing to the script, wherever in the
/// list it stands.
pub proof fn placeholder_adds_nothing(
    opening: Seq<char>,
    groups: Seq<PhysGroup>,
    at: int,
    g: PhysGroup,
)
    requires
        0 <= at <= groups.len(),
        g.ids.len() == 0,
    ensures
        group_lines(opening, groups.insert(at, g)) == group_lines(opening, groups),
{
    let head = groups.take(at);
    let tail = groups.skip(at);
    assert(groups.insert(at, g) =~= head.push(g) + tail);
    assert(groups =~= head + tail);
    group_lines_of_concat(opening, head.push(g), tail);
    group_lines_of_concat(opening, head, tail);
    assert(head.push(g).drop_last() =~= head);
    assert(group_lines(opening, head.push(g)) =~= group_lines(opening, head));
}

/// The lines of the groups are the lines of those among them that have
/// members: every group without members is left out, and the others keep
/// their order.
pub proof fn group_lines_skip_placeholders(opening: Seq<char>, groups: Seq<PhysGroup>)
    ensures
        group_lines(opening, groups) == group_lines(
            opening,
            groups.filter(|g: PhysGroup| has_members(g)),
        ),
    decreases groups.len(),
{
    reveal(Seq::filter);
    let keep = |g: PhysGroup| has_members(g);
    if groups.len() > 0 {
        group_lines_skip_placeholders(opening, groups.drop_last());
        let kept = groups.drop_last().filter(keep);
        if has_members(groups.last()) {
            assert(kept.push(groups.last()).drop_last() =~= kept);
        }
    }
}

/// The script of a store is the script of the same store without the
/// groups that have no members.
pub proof fn script_skips_placeholders(s: Store)
    ensures
        script_text(s) == script_text(
            Store {
                volumes: s.volumes.filter(|g: PhysGroup| has_members(g)),
                surfaces: s.surfaces.filter(|g: PhysGroup| has_members(g)),
                ..s
            },
        ),
{
    group_lines_skip_placeholders(volume_opening(), s.volumes);
    group_lines_skip_placeholders(surface_opening(), s.surfaces);
}

/// Every group with members has its own line in the script, made of its
/// name, its tag and its members.
pub proof fn group_with_members_has_line(opening: Seq<char>, groups: Seq<PhysGroup>, at: int)
    requires
        0 <= at < groups.len(),
        has_members(groups[at]),
    ensures
        group_lines(opening, groups) == group_lines(opening, groups.take(at)) + group_line(
            opening,
            groups[at],
        ) + group_lines(opening, groups.skip(at + 1)),
{
    let head = groups.take(at + 1);
    assert(groups =~= head + groups.skip(at + 1));
    group_lines_of_concat(opening, head, groups.skip(at + 1));
    assert(head.drop_last() =~= groups.take(at));
    assert(head.last() == groups[at]);
}

/// The size directive is left out exactly when no size is set.
pub proof fn size_directive_iff_set(max_size: Seq<char>)
    ensures
        size_directive(max_size).len() == 0 <==> max_size.len() == 0,
        max_size.len() == 0 ==> size_directive(max_size) == Seq::<char>::empty(),
        max_size.len() > 0 ==> size_directive(max_size) == "Mesh.MeshSizeMax="@ + max_size
            + ";\n"@,
{
}

/// Appends the entry of one group to `out`.
pub fn push_group_entry(out: &mut String, opening: &str, name: &str, phys_id: &str, ids: &str)
    ensures
        final(out)@ == old(out)@ + group_entry(
            opening@,
            PhysGroup { name: name@, phys_id: phys_id@, ids: ids@ },
        ),
{
    if ids.is_empty() {
        assert(out@ =~= old(out)@ + Seq::<char>::empty());
        return ;
    }
    out.append(opening);
    out.append(name);
    out.append("\",");
    out.append(phys_id);
    out.append(")={");
    out.append(ids);
    out.append("};\n");
    assert(out@ =~= old(out)@ + (opening@ + name@ + "\","@ + phys_id@ + ")={"@ + ids@ + "};\n"@));
}

/// Appends the size directive to `out`.
pub fn push_size_directive(out: &mut String, max_size: &str)
    ensures
        final(out)@ == old(out)@ + size_directive(max_size@),
{
    if max_size.is_empty() {
        assert(out@ =~= old(out)@ + Seq::<char>::empty());
        return ;
    }
    out.append("Mesh.MeshSizeMax=");
    out.append(max_size);
    out.append(";\n");
    assert(out@ =~= old(out)@ + ("Mesh.MeshSizeMax="@ + max_size@ + ";\n"@));
}

/// Appends the entries of the volume groups to `out`, in the order of the
/// list.
pub fn push_volume_lines(out: &mut String, list: &Vec<VolPhys>)
    ensures
        final(out)@ == old(out)@ + group_lines(volume_opening(), vol_groups(list@)),
{
    let ghost groups = vol_groups(list@);
    let mut i: usize = 0;
    assert(out@ =~= old(out)@ + group_lines(volume_opening(), groups.take(0)));
    while i < list.len()
        invariant
            i <= list.len(),
            groups == vol_groups(list@),
            out@ == old(out)@ + group_lines(volume_opening(), groups.take(i as int)),
        decreases list.len() - i,
    {
        let g = &list[i];
        push_group_entry(
            out,
            "Physical Volume(\"",
            g.name.as_str(),
            g.phys_id.as_str(),
            g.vol_ids.as_str(),
        );
        proof {
            let next = groups.take(i + 1);
            assert(next.drop_last() =~= groups.take(i as int));
            assert(next.last() == list[i as int]@);
            assert(out@ =~= old(out)@ + group_lines(volume_opening(), next));
        }
        i += 1;
    }
    assert(groups.take(i as int) =~= groups);
}

/// Appends the entries of the surface groups to `out`, in the order of the
/// list.
pub fn push_surface_lines(out: &mut String, list: &Vec<SurfPhys>)
    ensures
        final(out)@ == old(out)@ + group_lines(surface_opening(), surf_groups(list@)),
{
    let ghost groups = surf_groups(list@);
    let mut i: usize = 0;
    assert(out@ =~= old(out)@ + group_lines(surface_opening(), groups.take(0)));
    while i < list.len()
        invariant
            i <= list.len(),
            groups == surf_groups(list@),
            out@ == old(out)@ + group_lines(surface_opening(), groups.take(i as int)),
        decreases list.len() - i,
    {
        let g = &list[i];
        push_group_entry(
            out,
            "Physical Surface(\"",
            g.name.as_str(),
            g.phys_id.as_str(),
            g.surf_ids.as_str(),
        );
        proof {
            let next = groups.take(i + 1);
            assert(next.drop_last() =~= groups.take(i as int));
            assert(next.last() == list[i as int]@);
            assert(out@ =~= old(out)@ + group_lines(surface_opening(), next));
        }
        i += 1;
    }
    assert(groups.take(i as int) =~= groups);
}

/// A script and the name of the file it is to be written to.
#[derive(Debug)]
pub struct MeshScript {
    pub file_name: String,
    pub content: String,
}

impl GmshPara {
    /// The script that shows and meshes the geometry of this store.
    pub fn script(&self) -> (text: String)
        ensures
            text@ == script_text(self@),
    {
        let mut out = String::from_str("SetFactory(\"OpenCASCADE\");\nv()=ShapeFromFile(\"");
        out.append(self.geometry_file.as_str());
        out.append("\");\n");
        out.append(
            "/* Heal the step file */\nBooleanFragments{ Volume{:}; Surface {:}; Delete; }{}\nCoherence;\n",
        );
        out.append("/* Physical Volume Grouping */\n");
        push_volume_lines(&mut out, &self.vol_phy_list);
        out.append("/* Physical Surface Grouping */\n");
        push_surface_lines(&mut out, &self.surf_phy_list);
        out.append("/* Mesh Setting */\n");
        push_size_directive(&mut out, self.mesh_paras.max_size.as_str());
        out.append("Mesh 3;\n");
        assert(out@ =~= script_text(self@));
        out
    }

    /// The script of this store and the name of its file, for a geometry
    /// whose file stem is `stem`.
    pub fn mesh_script_for(&self, stem: &str) -> (job: MeshScript)
        ensures
            job.file_name@ == script_name(stem@),
            job.content@ == script_text(self@),
    {
        let mut file_name = String::from_str(stem);
        file_name.append("_temp.geo");
        MeshScript { file_name, content: self.script() }
    }

    /// The script that also saves the mesh beside the geometry, and the name
    /// of the script's file, for a geometry whose file stem is `stem`.
    pub fn export_script_for(&self, stem: &str) -> (job: MeshScript)
        ensures
            job.file_name@ == script_name(stem@),
            job.content@ == export_script_text(self@, stem@),
    {
        let mut file_name = String::from_str(stem);
        file_name.append("_temp.geo");
        let mut content = self.script();
        content.append(
            "Mesh.Format=31;\nMesh.BdfFieldFormat=1;\nMesh.SaveAll=0;\nMesh.SaveElementTagType=2;\nSave \"",
        );
        content.append(stem);
        content.append(".nas");
        content.append("\";");
        assert(content@ =~= export_script_text(self@, stem@));
        MeshScript { file_name, content }
    }

    /// The script to hand to the mesher for the geometry of this store, or
    /// nothing where the geometry's path has no file stem to name the script
    /// after.
    pub fn apply_mesh(&self) -> (job: Option<MeshScript>)
        ensures
            match path_file_stem(self.geometry_file@) {
                Some(stem) => job matches Some(j) && j.file_name@ == script_name(stem)
                    && j.content@ == script_text(self@),
                None => job is None,
            },
    {
        match file_stem(self.geometry_file.as_str()) {
            Some(stem) => Some(self.mesh_script_for(stem.as_str())),
            None => None,
        }
    }

    /// As `apply_mesh`, with a script that also saves the mesh to a file
    /// named after the geometry.
    pub fn apply_mesh_and_save_to_nas(&self) -> (job: Option<MeshScript>)
        ensures
            match path_file_stem(self.geometry_file@) {
                Some(stem) => job matches Some(j) && j.file_name@ == script_name(stem)
                    && j.content@ == export_script_text(self@, stem),
                None => job is None,
            },
    {
        match file_stem(self.geometry_file.as_str()) {
            Some(stem) => Some(self.export_script_for(stem.as_str())),
            None => None,
        }
    }
}

} // verus!
