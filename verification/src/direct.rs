//! Reading and writing at once, without the waiting window; what a save takes along; and moving
//! plan objects to the layer that rooms are read from.
use vstd::prelude::*;

use crate::app::{AppView, CadApp, CanvasView, Gestures, GesturesView};
use crate::config::{Project, SimluxConfig, SketchRec, StoredResults};
use crate::copying::{group_views, opt_view, views, Duplicate};
use crate::doc::{
    first_named, Color, DObject, DObjectView, DocView, Document, Layer, LayerView, Style,
};
use crate::factory::FactoryView;
use crate::files::{can_embed, may_embed, ExtraDataStore, FileView};
use crate::groups::picked_handles;
use crate::paths::{format_of, path_format, Format};
use crate::project::base64_fits;
use crate::text::{cat3, cat5, dec, dec_text};

verus! {

/// What is said of a path in a format that cannot be opened.
pub open spec fn unknown_format(path: Seq<char>) -> Seq<char> {
    "unknown extension on '"@ + path + "': expected .dxf, .dwg or .rsm"@
}

/// Which reader a path asks for, or what is wrong with it.
pub fn open_route(path: &str) -> (r: Result<Format, String>)
    ensures
        match r {
            Ok(f) => format_of(path@) == Some(f),
            Err(e) => format_of(path@) is None && e@ == unknown_format(path@),
        },
{
    match path_format(path) {
        Some(f) => Ok(f),
        None => Err(
            cat3("unknown extension on '", path, "': expected .dxf, .dwg or .rsm"),
        ),
    }
}

impl AppView {
    /// After a document has been put in place of the active one, on its model tab.
    pub open spec fn document_opened(self, d: DocView, path: Seq<char>) -> AppView {
        AppView {
            doc: DocView { active_layout: None, ..d },
            selection: Seq::empty(),
            selection_prev: Seq::empty(),
            selected: None,
            gestures: GesturesView {
                layout_selection: Seq::empty(),
                layout_move_last: None,
                layout_grip_drag: None,
                ..self.gestures
            },
            canvas: CanvasView {
                intersections: Seq::empty(),
                index_dirty: true,
                view_dirty: true,
                fit_due: true,
                ..self.canvas
            },
            files: FileView { current_file: Some(path), ..self.files },
            ..self
        }
    }

    /// After the project data found beside a drawing has been taken.
    pub open spec fn sidecar_loaded(self, loaded: Result<Option<Project>, String>) -> AppView {
        match loaded {
            Ok(Some(p)) => self.project_installed(p@),
            Ok(None) => self,
            Err(e) => self.said("  ! SIMLUX load: "@ + e@),
        }
    }

    /// After the project data has been written beside a drawing, or not.
    pub open spec fn sidecar_written(
        self,
        solids: nat,
        walls: nat,
        outcome: Result<String, String>,
    ) -> AppView {
        match outcome {
            Ok(p) => {
                let s = self.said("  SIMLUX setup → '"@ + p@ + "'"@);
                if solids > 0 {
                    s.said(
                        "  3D Factory: "@ + dec(solids) + " solid(s), "@ + dec(walls)
                            + " wall(s) saved"@,
                    )
                } else {
                    s
                }
            },
            Err(e) => self.said("  ! SIMLUX save: "@ + e@),
        }
    }

    /// With a given current file.
    pub open spec fn filed_under(self, path: Seq<char>) -> AppView {
        AppView { files: FileView { current_file: Some(path), ..self.files }, ..self }
    }
}

impl Gestures {
    fn leave_layout(&mut self)
        ensures
            final(self)@ == (GesturesView {
                layout_selection: Seq::empty(),
                layout_move_last: None,
                layout_grip_drag: None,
                ..old(self)@
            }),
    {
        self.layout_selection.clear();
        self.layout_move_last = None;
        self.layout_grip_drag = None;
    }
}

impl CadApp {
    fn place_document(&mut self, doc: Document, path: &str)
        ensures
            final(self)@ == old(self)@.document_opened(doc@, path@),
    {
        self.doc = doc;
        self.doc.active_layout = None;
        self.selection.clear();
        self.selection_prev.clear();
        self.selected = None;
        self.gestures.leave_layout();
        self.canvas.forget_drawing();
        self.files.current_file = Some(String::from_str(path));
    }

    /// Reports a file that could not be read.
    pub fn open_read_failed(&mut self, path: &str, e: &str)
        ensures
            final(self)@ == old(self)@.said("  ! open '"@ + path@ + "' failed: "@ + e@),
    {
        let line = crate::text::cat4("  ! open '", path, "' failed: ", e);
        self.say(line);
    }

    /// Reports a drawing that could not be converted to a format that is read.
    pub fn open_convert_failed(&mut self, path: &str, e: &str)
        ensures
            final(self)@ == old(self)@.said("  ! DWG convert '"@ + path@ + "': "@ + e@),
    {
        let line = crate::text::cat4("  ! DWG convert '", path, "': ", e);
        self.say(line);
    }

    /// Takes a drawing that was read at once, with the project data found beside it; or reports
    /// why there is none.
    pub fn do_open_now(
        &mut self,
        path: &str,
        parsed: Result<Document, String>,
        sidecar: Result<Option<Project>, String>,
    )
        ensures
            final(self)@ == old(self)@.opened_now(path@, parsed, sidecar),
    {
        match parsed {
            Ok(d) => {
                self.place_document(d, path);
                self.load_simlux_sidecar(sidecar);
                let line = self.opened_text(path);
                self.say(line);
            },
            Err(e) => {
                let line = crate::text::cat4("  ! open '", path, "': ", e.as_str());
                self.say(line);
            },
        }
    }

    /// Takes the project data that was found beside a drawing, if any.
    pub fn load_simlux_sidecar(&mut self, loaded: Result<Option<Project>, String>)
        ensures
            final(self)@ == old(self)@.sidecar_loaded(loaded),
    {
        match loaded {
            Ok(Some(p)) => self.install_simlux_config(p),
            Ok(None) => {},
            Err(e) => self.say(crate::text::cat2("  ! SIMLUX load: ", e.as_str())),
        }
    }

    /// Reports how the writing of project data beside a drawing went.
    pub fn write_simlux_sidecar(&mut self, cfg: &SimluxConfig, outcome: Result<String, String>)
        ensures
            final(self)@ == old(self)@.sidecar_written(
                cfg@.factory.features.len(),
                cfg@.factory.walls.len(),
                outcome,
            ),
    {
        match outcome {
            Ok(p) => {
                self.say(cat3("  SIMLUX setup → '", p.as_str(), "'"));
                let solids: usize = cfg.factory.features.len();
                if solids > 0 {
                    self.say(
                        cat5(
                            "  3D Factory: ",
                            dec_text(solids as u64).as_str(),
                            " solid(s), ",
                            dec_text(cfg.factory.walls.len() as u64).as_str(),
                            " wall(s) saved",
                        ),
                    );
                }
            },
            Err(e) => self.say(crate::text::cat2("  ! SIMLUX save: ", e.as_str())),
        }
    }

    fn file_under(&mut self, path: &str)
        ensures
            final(self)@ == old(self)@.filed_under(path@),
    {
        self.files.current_file = Some(String::from_str(path));
    }

    /// Which writer a path asks for. Only the two formats that are written without another program
    /// can be; any other is reported.
    pub fn save_route(&mut self, path: &str) -> (r: Option<Format>)
        ensures
            match r {
                Some(f) => (f == Format::Dxf || f == Format::Rsm) && format_of(path@) == Some(f)
                    && final(self)@ == old(self)@,
                None => format_of(path@) != Some(Format::Dxf) && format_of(path@) != Some(
                    Format::Rsm,
                ) && final(self)@ == old(self)@.said(
                    "  ! save '"@ + path@ + "': unknown extension (expected .dxf, .dwg or .rsm)"@,
                ),
            },
    {
        match path_format(path) {
            Some(Format::Dxf) => Some(Format::Dxf),
            Some(Format::Rsm) => Some(Format::Rsm),
            _ => {
                self.say(
                    cat3(
                        "  ! save '",
                        path,
                        "': unknown extension (expected .dxf, .dwg or .rsm)",
                    ),
                );
                None
            },
        }
    }

    /// Takes a drawing that was written at once, and how the project data beside it went; or
    /// reports why it was not written.
    pub fn do_save_now(
        &mut self,
        path: &str,
        wrote: Result<u64, String>,
        cfg: &SimluxConfig,
        sidecar: Result<String, String>,
    )
        ensures
            final(self)@ == old(self)@.written_now(
                path@,
                wrote,
                cfg@.factory.features.len(),
                cfg@.factory.walls.len(),
                sidecar,
            ),
    {
        match wrote {
            Ok(n) => {
                self.file_under(path);
                self.write_simlux_sidecar(cfg, sidecar);
                self.say(cat5("  saved '", path, "'  (", dec_text(n).as_str(), " bytes)"));
            },
            Err(e) => self.say(crate::text::cat4("  ! save '", path, "': ", e.as_str())),
        }
    }
}

/// What a save hands to its worker: the drawing, its project data, where that is to be kept, and
/// the results that go inside.
pub struct SaveJob {
    pub doc: Document,
    pub cfg: SimluxConfig,
    pub store: ExtraDataStore,
    pub results: Option<StoredResults>,
}

impl CadApp {
    /// What a save at a path hands to its worker. It is the drawing itself that is saved, also
    /// while a sketch is open; results go inside only where the format carries them.
    pub fn save_job(
        &self,
        path: &str,
        saved: Vec<SketchRec>,
        open_rsm: &Vec<u8>,
        build: &str,
    ) -> (r: SaveJob)
        requires
            base64_fits(open_rsm@.len()),
        ensures
            r.doc@ == self@.plan(),
            r.cfg@ == self@.config(views(saved@), open_rsm@, false),
            r.store == self@.files.extra_store,
            opt_view(r.results) == if can_embed(self@.files.extra_store, path@) {
                self@.stored_results(build@)
            } else {
                None
            },
    {
        let store = self.files.extra_store;
        let results = if may_embed(store, path) {
            self.current_stored_results(build)
        } else {
            None
        };
        SaveJob {
            doc: self.plan_doc().duplicate(),
            cfg: self.build_simlux_config_lite(saved, open_rsm),
            store: store,
            results: results,
        }
    }
}

/// A save never writes an open sketch in place of the drawing.
pub proof fn open_sketch_is_never_saved_as_the_drawing(s: AppView)
    requires
        s.factory.session is Some,
    ensures
        s.plan() == s.factory.session->0.saved_doc,
{
}

/// Objects with the layer of the selected ones changed.
pub open spec fn relayered(d: Seq<DObjectView>, sel: Seq<usize>, layer: u32) -> Seq<DObjectView> {
    Seq::new(
        d.len(),
        |i: int|
            if exists|k: int| 0 <= k < sel.len() && (#[trigger] sel[k]) == i {
                DObjectView { style: Style { layer: layer, ..d[i].style }, ..d[i] }
            } else {
                d[i]
            },
    )
}

impl DocView {
    /// The layer of a name: the one there is, or a new one at the end.
    pub open spec fn layer_or_new(self, name: Seq<char>) -> int {
        match first_named(self.layer_names(), name) {
            Some(i) => i,
            None => self.layers.len() as int,
        }
    }

    /// The document with a layer of a name.
    pub open spec fn with_layer(self, name: Seq<char>) -> DocView {
        match first_named(self.layer_names(), name) {
            Some(_) => self,
            None => DocView {
                layers: self.layers.push(LayerView { name: name, color: Color::Aci(7) }),
                ..self
            },
        }
    }

    /// The document with the selected objects on the layer of a name.
    pub open spec fn moved_to_layer(self, name: Seq<char>, sel: Seq<usize>) -> DocView {
        DocView {
            dobjects: relayered(self.dobjects, sel, self.layer_or_new(name) as u32),
            ..self.with_layer(name)
        }
    }
}

impl Document {
    fn move_to_layer(&mut self, name: &str, sel: &Vec<usize>) -> (n: usize)
        requires
            old(self).layers.len() < u32::MAX,
        ensures
            final(self)@ == old(self)@.moved_to_layer(name@, sel@),
            n == picked_handles(old(self)@.dobjects, sel@).len(),
    {
        broadcast use group_views;

        let found = self.find_layer(name);
        let lid: u32 = match found {
            Some(i) => i as u32,
            None => self.layers.len() as u32,
        };
        assert(self@.layers.len() == self.layers.len());
        assert(lid == self@.layer_or_new(name@) as u32);
        if found.is_none() {
            self.layers.push(Layer { name: String::from_str(name), color: Color::Aci(7) });
        }
        assert(self@ == old(self)@.with_layer(name@));
        let n: usize = relayer(&mut self.dobjects, sel, lid);
        n
    }
}

fn relayer(d: &mut Vec<DObject>, sel: &Vec<usize>, lid: u32) -> (n: usize)
    ensures
        views(final(d)@) == relayered(views(old(d)@), sel@, lid),
        n == picked_handles(views(old(d)@), sel@).len(),
{
    let ghost before = views(d@);
    let mut n: usize = 0;
    let mut k: usize = 0;
    proof {
        assert(views(d@) =~= relayered(before, sel@.subrange(0, 0), lid));
    }
    while k < sel.len()
        invariant
            k <= sel.len(),
            n <= k,
            before.len() == d.len(),
            before == views(old(d)@),
            views(d@) == relayered(before, sel@.subrange(0, k as int), lid),
            n == picked_handles(before, sel@.subrange(0, k as int)).len(),
        decreases sel.len() - k,
    {
        let ghost now = views(d@);
        let ghost front = sel@.subrange(0, k as int);
        let ghost more = sel@.subrange(0, k + 1);
        assert(more.drop_last() =~= front);
        let i: usize = sel[k];
        if i < d.len() {
            d[i].style.layer = lid;
            n += 1;
            assert(views(d@) =~= now.update(
                i as int,
                DObjectView {
                    style: Style { layer: lid, ..now[i as int].style },
                    ..now[i as int]
                },
            ));
        }
        assert(views(d@) =~= relayered(before, more, lid)) by {
            assert(more[k as int] == i);
            assert forall|j: int| 0 <= j < before.len() implies views(d@)[j] == relayered(
                before,
                more,
                lid,
            )[j] by {
                assert(now[j] == relayered(before, front, lid)[j]);
                if exists|q: int| 0 <= q < front.len() && (#[trigger] front[q]) == j {
                    let q = choose|q: int| 0 <= q < front.len() && (#[trigger] front[q]) == j;
                    assert(more[q] == j);
                }
                if exists|q: int| 0 <= q < more.len() && (#[trigger] more[q]) == j {
                    let q = choose|q: int| 0 <= q < more.len() && (#[trigger] more[q]) == j;
                    if q < k {
                        assert(front[q] == j);
                    }
                }
            }
        }
        k += 1;
    }
    assert(sel@.subrange(0, k as int) =~= sel@);
    n
}

impl AppView {
    /// With a given status line of the 3D window.
    pub open spec fn with_status(self, status: Seq<char>) -> AppView {
        AppView { factory: FactoryView { status: status, ..self.factory }, ..self }
    }

    /// After the selected objects have been moved to the layer, and the layer taken for a room.
    pub open spec fn moved_to_simlux(self) -> AppView {
        let s = self.doc_recorded();
        AppView {
            doc: self.doc.moved_to_layer("SIMLUX"@, self.selection),
            factory: FactoryView {
                data: s.factory.data.layer_imported("SIMLUX"@, s.factory.default_room_height),
                ..s.factory
            },
            canvas: CanvasView { index_dirty: true, view_dirty: true, ..s.canvas },
            ..s
        }.said(
            "  moved "@ + dec(picked_handles(self.doc.dobjects, self.selection).len())
                + " object(s) to layer 'SIMLUX' (now used for 3D)"@,
        )
    }

    /// After the selection has been asked to move to the layer: not while a sketch is open, whose
    /// objects are not the plan's, and not without a selection.
    pub open spec fn simlux_shifted(self) -> AppView {
        if self.factory.session is Some {
            self.said(
                "  ! SIMLUX: finish the sketch first — this moves objects in the PLAN"@,
            ).with_status("finish the sketch first — SIMLUX layers are the plan's"@)
        } else if self.selection.len() == 0 {
            self.said("  ! SIMLUX: select geometry first, then Move"@)
        } else {
            self.moved_to_simlux()
        }
    }
}

impl CadApp {
    /// Sets the status line of the 3D window.
    pub fn set_status(&mut self, status: String)
        ensures
            final(self)@ == old(self)@.with_status(status@),
    {
        self.factory.status = status;
    }

    /// Moves the selected objects to the layer SIMLUX, which is made where there is none, and
    /// takes the layer for a room. One undo step.
    pub fn shift_selection_to_simlux_layer(&mut self)
        requires
            old(self)@.doc.layers.len() < u32::MAX,
        ensures
            final(self)@ == old(self)@.simlux_shifted(),
    {
        if self.factory.session.is_some() {
            self.say(
                String::from_str(
                    "  ! SIMLUX: finish the sketch first — this moves objects in the PLAN",
                ),
            );
            self.set_status(
                String::from_str("finish the sketch first — SIMLUX layers are the plan's"),
            );
        } else if self.selection.len() == 0 {
            self.say(String::from_str("  ! SIMLUX: select geometry first, then Move"));
        } else {
            self.move_to_simlux();
        }
    }

    fn put_on_simlux(&mut self) -> (n: usize)
        requires
            old(self)@.doc.layers.len() < u32::MAX,
        ensures
            n == picked_handles(old(self)@.doc.dobjects, old(self)@.selection).len(),
            final(self)@ == (AppView {
                doc: old(self)@.doc.moved_to_layer("SIMLUX"@, old(self)@.selection),
                factory: FactoryView {
                    data: old(self)@.factory.data.layer_imported(
                        "SIMLUX"@,
                        old(self)@.factory.default_room_height,
                    ),
                    ..old(self)@.factory
                },
                canvas: CanvasView { index_dirty: true, view_dirty: true, ..old(self)@.canvas },
                ..old(self)@
            }),
    {
        assert(self@.doc.layers.len() == self.doc.layers.len());
        let n: usize = self.doc.move_to_layer("SIMLUX", &self.selection);
        self.factory.data.import_layer("SIMLUX", self.factory.default_room_height);
        self.canvas.index_dirty = true;
        self.canvas.view_dirty = true;
        n
    }

    fn move_to_simlux(&mut self)
        requires
            old(self)@.doc.layers.len() < u32::MAX,
        ensures
            final(self)@ == old(self)@.moved_to_simlux(),
    {
        self.snapshot_doc();
        let n: usize = self.put_on_simlux();
        self.say(
            cat3(
                "  moved ",
                dec_text(n as u64).as_str(),
                " object(s) to layer 'SIMLUX' (now used for 3D)",
            ),
        );
    }
}

/// A drawing that is opened is the one that was read, shown as its model with nothing selected and
/// the whole of it in view, under the path it was read from.
pub proof fn opened_drawing_is_the_one_read(s: AppView, d: DocView, path: Seq<char>)
    ensures
        ({
            let t = s.document_opened(d, path);
            &&& t.doc.dobjects == d.dobjects
            &&& t.doc.layers == d.layers
            &&& t.doc.units == d.units
            &&& t.doc.pens == d.pens
            &&& t.doc.active_layout is None
            &&& t.selection.len() == 0 && t.selection_prev.len() == 0 && t.selected is None
            &&& t.gestures.layout_selection.len() == 0
            &&& t.canvas.fit_due && t.canvas.index_dirty && t.canvas.view_dirty
            &&& t.canvas.intersections.len() == 0
            &&& t.files.current_file == Some(path)
            &&& t.light == s.light && t.factory == s.factory && t.undo == s.undo
        }),
{
}

/// A drawing that was written under a path is filed under it, and nothing else changes.
pub proof fn written_drawing_has_its_path(s: AppView, path: Seq<char>)
    ensures
        s.filed_under(path).files.current_file == Some(path),
        s.filed_under(path).doc == s.doc,
        s.filed_under(path).files.unsaved == s.files.unsaved,
        s.filed_under(path).undo == s.undo,
{
}

/// Objects that are moved to a layer by its name are on a layer of that name, the first one if there
/// was one; they keep their place and their other style. No other object changes, and no layer but
/// a new one.
pub proof fn moved_objects_are_on_the_layer(d: DocView, name: Seq<char>, sel: Seq<usize>, i: int)
    requires
        d.layers.len() < u32::MAX,
        0 <= i < d.dobjects.len(),
    ensures
        ({
            let e = d.moved_to_layer(name, sel);
            let a = d.dobjects[i];
            let b = e.dobjects[i];
            &&& e.dobjects.len() == d.dobjects.len()
            &&& b.geom == a.geom && b.handle == a.handle
            &&& b.style == (Style { layer: b.style.layer, ..a.style })
            &&& sel.contains(i as usize) && i <= usize::MAX ==> {
                &&& b.style.layer < e.layers.len()
                &&& e.layers[b.style.layer as int].name == name
                &&& forall|j: int|
                    0 <= j < b.style.layer ==> (#[trigger] e.layers[j]).name != name
            }
            &&& !(exists|k: int| 0 <= k < sel.len() && (#[trigger] sel[k]) == i) ==> b == a
            &&& d.layers.len() <= e.layers.len() <= d.layers.len() + 1
            &&& forall|j: int|
                0 <= j < d.layers.len() ==> e.layers[j] == #[trigger] d.layers[j]
            &&& (exists|j: int| 0 <= j < d.layers.len() && (#[trigger] d.layers[j]).name == name)
                ==> e.layers == d.layers
        }),
{
    let names = d.layer_names();
    crate::doc::first_named_is_least(names, name);
    assert(forall|j: int| 0 <= j < d.layers.len() ==> names[j] == (#[trigger] d.layers[j]).name);
    let e = d.moved_to_layer(name, sel);
    if exists|j: int| 0 <= j < d.layers.len() && (#[trigger] d.layers[j]).name == name {
        let j = choose|j: int| 0 <= j < d.layers.len() && (#[trigger] d.layers[j]).name == name;
        assert(names[j] == name);
    }
    if sel.contains(i as usize) && i <= usize::MAX {
        let k = choose|k: int| 0 <= k < sel.len() && sel[k] == i as usize;
        assert(sel[k] == i);
        match first_named(names, name) {
            Some(at) => {
                assert(d.layers[at].name == name);
                assert forall|j: int| 0 <= j < at implies (#[trigger] e.layers[j]).name != name by {
                    assert(names[j] != name);
                }
            },
            None => {
                assert forall|j: int| 0 <= j < d.layers.len() implies (#[trigger] e.layers[j]).name
                    != name by {
                    assert(names[j] != name);
                }
            },
        }
    }
}

/// Moving the selection to the layer that the model is made of is one step, which undo takes back.
/// While a sketch is open, and without a selection, nothing moves. The layer then is a room.
pub proof fn selection_moves_to_simlux(s: AppView)
    ensures
        ({
            let t = s.simlux_shifted();
            &&& s.factory.session is Some || s.selection.len() == 0 ==> t.doc == s.doc && t.undo
                == s.undo && t.factory.data == s.factory.data && t.files == s.files
            &&& s.factory.session is None && s.selection.len() > 0 ==> {
                &&& t.doc == s.doc.moved_to_layer("SIMLUX"@, s.selection)
                &&& t.files.unsaved
                &&& t.canvas.index_dirty && t.canvas.view_dirty
                &&& s.undo.undo_min_steps >= 1 ==> t.undone().doc == s.doc
                &&& crate::project::room_of_layer(t.factory.data.rooms, "SIMLUX"@) is Some
            }
            &&& t.selection == s.selection
            &&& t.light == s.light
        }),
{
    reveal(AppView::said);
    if s.undo.undo_min_steps >= 1 {
        crate::undo::pushed_step_stays(
            s.undo.undo_stack,
            crate::undo::StepView::Doc(s.doc),
            s.undo.undo_budget_bytes as nat,
            s.undo.undo_min_steps as nat,
        );
    }
    crate::project::layer_becomes_one_room(
        s.factory.data,
        "SIMLUX"@,
        s.factory.default_room_height,
    );
}

/// Project data from beside a drawing is loaded where there is some that could be read, and otherwise
/// nothing changes but what is said.
pub proof fn data_beside_is_loaded(s: AppView, loaded: Result<Option<Project>, String>)
    ensures
        ({
            let t = s.sidecar_loaded(loaded);
            match loaded {
                Ok(Some(p)) => crate::loading::copy_is_there(t, p@) && t.doc == s.doc && t.files == s.files,
                Ok(None) => t == s,
                Err(_) => t.project == s.project && t.light == s.light && t.factory == s.factory
                    && t.doc == s.doc && t.files == s.files && t.history.len() == s.history.len() + 1,
            }
        }),
{
    reveal(AppView::said);
    if let Ok(Some(p)) = loaded {
        crate::project::installed_project_is_there(s, p@);
    }
}

/// Writing the project data beside a drawing changes nothing but what is said.
pub proof fn writing_beside_changes_nothing(
    s: AppView,
    solids: nat,
    walls: nat,
    outcome: Result<String, String>,
)
    ensures
        ({
            let t = s.sidecar_written(solids, walls, outcome);
            &&& t.doc == s.doc && t.files == s.files && t.factory == s.factory && t.light == s.light
                && t.undo == s.undo
            &&& t.history.len() == s.history.len() + if outcome is Ok && solids > 0 {
                2nat
            } else {
                1nat
            }
        }),
{
    reveal(AppView::said);
}

/// A layer that is made is the last one, white, and of the name it was made for; opening a drawing
/// drops the gestures that were under way in a layout.
pub proof fn made_layer_is_the_last(d: DocView, name: Seq<char>, s: AppView, e: DocView, path: Seq<char>)
    ensures
        (forall|j: int| 0 <= j < d.layers.len() ==> (#[trigger] d.layers[j]).name != name)
            ==> d.with_layer(name).layers.len() == d.layers.len() + 1
            && d.with_layer(name).layers.last().name == name && d.with_layer(name).layers.last().color
            == Color::Aci(7),
        s.document_opened(e, path).gestures.layout_move_last is None,
        s.document_opened(e, path).gestures.layout_grip_drag is None,
{
    let names = d.layer_names();
    crate::doc::first_named_is_least(names, name);
    match first_named(names, name) {
        Some(i) => {
            assert(d.layers[i].name == name);
        },
        None => {},
    }
}

impl AppView {
    /// After a drawing has been opened at once, with the project data from beside it.
    pub open spec fn opened_now(
        self,
        path: Seq<char>,
        parsed: Result<Document, String>,
        sidecar: Result<Option<Project>, String>,
    ) -> AppView {
        match parsed {
            Ok(d) => {
                let s = self.document_opened(d@, path).sidecar_loaded(sidecar);
                s.said(s.opened_line(path))
            },
            Err(e) => self.said("  ! open '"@ + path + "': "@ + e@),
        }
    }

    /// After a drawing has been saved at once, with the project data beside it.
    pub open spec fn written_now(
        self,
        path: Seq<char>,
        wrote: Result<u64, String>,
        solids: nat,
        walls: nat,
        sidecar: Result<String, String>,
    ) -> AppView {
        match wrote {
            Ok(n) => self.filed_under(path).sidecar_written(solids, walls, sidecar).said(
                "  saved '"@ + path + "'  ("@ + dec(n as nat) + " bytes)"@,
            ),
            Err(e) => self.said("  ! save '"@ + path + "': "@ + e@),
        }
    }
}

/// A drawing that was opened at once is there, under its path, with the project data that came with
/// it; one that could not be opened leaves the drawing that is there.
pub proof fn opened_at_once_is_there(
    s: AppView,
    path: Seq<char>,
    parsed: Result<Document, String>,
    sidecar: Result<Option<Project>, String>,
)
    ensures
        ({
            let t = s.opened_now(path, parsed, sidecar);
            match parsed {
                Ok(d) => {
                    &&& t.doc.dobjects == d@.dobjects && t.doc.layers == d@.layers && t.doc.units
                        == d@.units
                    &&& t.files.current_file == Some(path)
                    &&& t.selection.len() == 0
                    &&& sidecar matches Ok(Some(p)) ==> crate::loading::copy_is_there(t, p@)
                    &&& sidecar matches Ok(None) ==> t.factory == s.factory && t.light == s.light
                },
                Err(_) => t.doc == s.doc && t.files == s.files && t.selection == s.selection
                    && t.factory == s.factory && t.light == s.light && t.history.len()
                    == s.history.len() + 1,
            }
        }),
{
    let a = match parsed {
        Ok(d) => s.document_opened(d@, path),
        Err(_) => s,
    };
    data_beside_is_loaded(a, sidecar);
    if let Ok(Some(p)) = sidecar {
        crate::project::installed_project_is_there(a, p@);
    }
    reveal(AppView::said);
}

/// A drawing that was saved at once is filed under its path; one that could not be saved stays where
/// it was. Nothing of the project changes.
pub proof fn written_at_once_has_its_path(
    s: AppView,
    path: Seq<char>,
    wrote: Result<u64, String>,
    solids: nat,
    walls: nat,
    sidecar: Result<String, String>,
)
    ensures
        ({
            let t = s.written_now(path, wrote, solids, walls, sidecar);
            &&& wrote is Ok ==> t.files.current_file == Some(path)
            &&& wrote is Err ==> t.files == s.files
            &&& t.doc == s.doc && t.factory == s.factory && t.light == s.light && t.undo == s.undo
            &&& t.files.unsaved == s.files.unsaved
        }),
{
    reveal(AppView::said);
}

} // verus!
