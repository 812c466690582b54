//! What a load gives back of a save.
use vstd::prelude::*;

use crate::app::AppView;
use crate::config::{PairView, ProjectView, SketchRecView};
use crate::doc::{first_named, first_named_is_least};
use crate::project::{kept_vars, named_rows, placed_rows, row_of, row_of_is_least};

verus! {

/// Whether no name stands in a list twice.
pub open spec fn names_differ(names: Seq<Seq<char>>) -> bool {
    forall|i: int, j: int|
        0 <= i < j < names.len() ==> #[trigger] names[i] != #[trigger] names[j]
}

/// Whether rows have different keys, and name places that the tables have.
pub open spec fn rows_fit(rows: Seq<(u64, u64)>, styles: nat, ltypes: nat) -> bool {
    &&& forall|i: int|
        0 <= i < rows.len() ==> (#[trigger] rows[i]).0 < styles && rows[i].1 < ltypes
    &&& forall|i: int, j: int|
        0 <= i < j < rows.len() ==> (#[trigger] rows[i]).0 != (#[trigger] rows[j]).0
}

proof fn named_at(names: Seq<Seq<char>>, i: int)
    requires
        names_differ(names),
        0 <= i < names.len(),
    ensures
        first_named(names, names[i]) == Some(i),
{
    first_named_is_least(names, names[i]);
    if let Some(k) = first_named(names, names[i]) {
        if k < i {
            assert(names[k] != names[i]);
        } else if i < k {
            assert(names[i] != names[k]);
        }
    }
}

/// The line types of wall centre lines are saved by name and looked up by name: they come back as
/// they were, in a drawing whose styles and line types have different names.
pub proof fn centre_lines_come_back(
    rows: Seq<(u64, u64)>,
    styles: Seq<Seq<char>>,
    ltypes: Seq<Seq<char>>,
)
    requires
        names_differ(styles),
        names_differ(ltypes),
        rows_fit(rows, styles.len(), ltypes.len()),
    ensures
        placed_rows(named_rows(rows, styles, ltypes), styles, ltypes) == rows,
    decreases rows.len(),
{
    if rows.len() == 0 {
        assert(placed_rows(named_rows(rows, styles, ltypes), styles, ltypes) =~= rows);
    } else {
        let rest = rows.drop_last();
        assert forall|i: int| 0 <= i < rest.len() implies (#[trigger] rest[i]).0 < styles.len()
            && rest[i].1 < ltypes.len() by {
            assert(rest[i] == rows[i]);
        }
        assert forall|i: int, j: int| 0 <= i < j < rest.len() implies (#[trigger] rest[i]).0 != (
        #[trigger] rest[j]).0 by {
            assert(rest[i] == rows[i] && rest[j] == rows[j]);
        }
        centre_lines_come_back(rest, styles, ltypes);
        let (s, l) = rows.last();
        assert(rows[rows.len() - 1] == (s, l));
        let pair = PairView { key: styles[s as int], value: ltypes[l as int] };
        let pairs = named_rows(rest, styles, ltypes).push(pair);
        assert(named_rows(rows, styles, ltypes) == pairs);
        assert(pairs.drop_last() =~= named_rows(rest, styles, ltypes));
        assert(pairs.last() == pair);
        named_at(styles, s as int);
        named_at(ltypes, l as int);
        row_of_is_least(rest, s);
        if let Some(k) = row_of(rest, s) {
            assert(rows[k].0 != rows[rows.len() - 1].0);
        }
        assert(rest.push((s, l)) =~= rows);
    }
}

/// Project data that was saved and is loaded into the same drawing comes back: the variables but
/// for the last answer, the line types of wall centre lines, the fixtures, and the 3D model with
/// its furniture and materials.
pub proof fn saved_project_comes_back(
    s: AppView,
    saved: Seq<SketchRecView>,
    open_rsm: Seq<u8>,
    with_geometry: bool,
    p: ProjectView,
    t: AppView,
)
    requires
        p.cfg == s.config(saved, open_rsm, with_geometry),
        p.data == s.factory.data,
        p.furniture_lib == s.factory.furniture_lib,
        p.textures == Some(s.factory.textures),
        t.doc == s.plan(),
        names_differ(s.plan().wall_styles),
        names_differ(s.plan().linetypes),
        rows_fit(
            s.project.centerlines,
            s.plan().wall_styles.len(),
            s.plan().linetypes.len(),
        ),
    ensures
        t.project_installed(p).project.vars == kept_vars(s.project.vars),
        t.project_installed(p).project.centerlines == s.project.centerlines,
        t.project_installed(p).light.luminaires == s.light.luminaires,
        t.project_installed(p).factory.data == s.factory.data,
        t.project_installed(p).factory.furniture_lib == s.factory.furniture_lib,
        t.project_installed(p).factory.textures == s.factory.textures,
        t.project_installed(p).doc == s.plan(),
{
    reveal(AppView::project_installed);
    reveal(AppView::said);
    centre_lines_come_back(
        s.project.centerlines,
        s.plan().wall_styles,
        s.plan().linetypes,
    );
}

} // verus!
