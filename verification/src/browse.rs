//! What happens in the file browser: listing a directory, moving about, picking a file, cancelling
//! and confirming.
use vstd::multiset::Multiset;
use vstd::prelude::*;

use crate::app::{AppView, CadApp};
use crate::copying::{copy_text, group_views, opt_view, views, Duplicate};
use crate::dialog::{
    lists, DialogState, DialogView, DlgView, FileDialog, FileDialogMode, ImageSlot, PlotFormat,
    SavePurpose,
};
use crate::files::{BusyKind, ExtraDataStore, FileView};
use crate::paths::{join_path, joined_path, parent_dir, parent_of, file_name, file_name_of};
use crate::sorting::{insert_sorted, texts_sorted};
use crate::text::{
    begins_with, cat2, cat3, ends_in, lower_ends_with, lower_is, lowered, same, starts_with, trim,
    trimmed,
};

verus! {

/// An entry of a directory, as the system lists it.
pub struct DirEntry {
    pub name: String,
    pub is_dir: bool,
    pub hidden: bool,
}

/// The model of a [`DirEntry`].
pub struct EntryView {
    pub name: Seq<char>,
    pub is_dir: bool,
    pub hidden: bool,
}

impl View for DirEntry {
    type V = EntryView;

    open spec fn view(&self) -> EntryView {
        EntryView { name: self.name@, is_dir: self.is_dir, hidden: self.hidden }
    }
}

/// Whether an entry is shown at all: not where it is hidden, or its name begins with a dot.
pub open spec fn shown(e: EntryView) -> bool {
    !e.hidden && !begins_with(e.name, "."@)
}

/// The names of the directories that are shown.
pub open spec fn dir_names(e: Seq<EntryView>) -> Multiset<Seq<char>>
    decreases e.len(),
{
    if e.len() == 0 {
        Multiset::empty()
    } else {
        let rest = dir_names(e.drop_last());
        if shown(e.last()) && e.last().is_dir {
            rest.insert(e.last().name)
        } else {
            rest
        }
    }
}

/// The names of the files that are shown: those that the browser lists.
pub open spec fn listed_names(e: Seq<EntryView>, mode: FileDialogMode, ext: Seq<char>) -> Multiset<
    Seq<char>,
>
    decreases e.len(),
{
    if e.len() == 0 {
        Multiset::empty()
    } else {
        let rest = listed_names(e.drop_last(), mode, ext);
        if shown(e.last()) && !e.last().is_dir && lists(mode, ext, e.last().name) {
            rest.insert(e.last().name)
        } else {
            rest
        }
    }
}

/// Lists a directory: the names of its directories and of the files the browser shows, each in
/// order.
pub fn list_directory(entries: &Vec<DirEntry>, mode: FileDialogMode, ext: &str) -> (r: (
    Vec<String>,
    Vec<String>,
))
    ensures
        texts_sorted(views(r.0@)),
        texts_sorted(views(r.1@)),
        views(r.0@).to_multiset() == dir_names(views(entries@)),
        views(r.1@).to_multiset() == listed_names(views(entries@), mode, ext@),
{
    let ghost all = views(entries@);
    let mut dirs: Vec<String> = Vec::new();
    let mut files: Vec<String> = Vec::new();
    let mut i: usize = 0;
    proof {
        broadcast use group_views;

        assert(views(dirs@) =~= Seq::<Seq<char>>::empty());
        assert(views(files@) =~= Seq::<Seq<char>>::empty());
        assert(Seq::<Seq<char>>::empty().to_multiset() =~= Multiset::empty()) by {
            broadcast use vstd::seq_lib::group_to_multiset_ensures;

        }
    }
    while i < entries.len()
        invariant
            i <= entries.len(),
            all == views(entries@),
            texts_sorted(views(dirs@)),
            texts_sorted(views(files@)),
            views(dirs@).to_multiset() == dir_names(all.subrange(0, i as int)),
            views(files@).to_multiset() == listed_names(
                all.subrange(0, i as int),
                mode,
                ext@,
            ),
        decreases entries.len() - i,
    {
        assert(all.subrange(0, i + 1).drop_last() =~= all.subrange(0, i as int));
        assert(all.subrange(0, i + 1).last() == entries@[i as int]@);
        let e: &DirEntry = &entries[i];
        if !e.hidden && !starts_with(e.name.as_str(), ".") {
            if e.is_dir {
                insert_sorted(&mut dirs, e.name.clone());
            } else if CadApp::dialog_lists(mode, ext, e.name.as_str()) {
                insert_sorted(&mut files, e.name.clone());
            }
        }
        i += 1;
    }
    assert(all.subrange(0, i as int) =~= all);
    (dirs, files)
}

/// The filter that goes with a picked name: the native format's or DXF's where the name ends so.
pub open spec fn ext_for(name: Seq<char>, ext: Seq<char>) -> Seq<char> {
    if ends_in(lowered(name), ".rsm"@) {
        ".rsm"@
    } else if ends_in(lowered(name), ".dxf"@) {
        ".dxf"@
    } else {
        ext
    }
}

impl DlgView {
    /// With a file named, and the filter that goes with its name.
    pub open spec fn preselected(self, name: Seq<char>) -> DlgView {
        DlgView { filename: name, ext: ext_for(name, self.ext), ..self }
    }

    /// After a click on a file of the list. A folder pick takes the folder that the file is in:
    /// there a name would be that of a new subfolder.
    pub open spec fn picked(self, name: Seq<char>) -> DlgView {
        if self.mode == FileDialogMode::PickFolder {
            DlgView { filename: Seq::empty(), ..self }
        } else {
            self.preselected(name)
        }
    }

    /// After another directory has been gone to, with a file of it picked where one is named.
    pub open spec fn navigated(self, target: Seq<char>, file: Option<Seq<char>>) -> DlgView {
        let d = DlgView { dir: target, path_buf: target, error: None, ..self };
        match file {
            Some(name) => d.preselected(name),
            None => d,
        }
    }

    /// After another filter has been chosen. Opening, a name that it does not fit is cleared.
    pub open spec fn refiltered(self, ext: Seq<char>) -> DlgView {
        DlgView {
            ext: ext,
            filename: if self.mode == FileDialogMode::Open && ext != self.ext && !ends_in(
                lowered(self.filename),
                ext,
            ) {
                Seq::empty()
            } else {
                self.filename
            },
            ..self
        }
    }
}

/// What a typed path turned out to name.
#[derive(Clone, Copy, Debug, PartialEq, Eq, Structural)]
pub enum PathKind {
    Dir,
    File,
    Missing,
}

impl DlgView {
    /// After a typed path has been gone to.
    pub open spec fn gone_to(self, kind: PathKind) -> DlgView {
        let p = trimmed(self.path_buf);
        match kind {
            PathKind::Dir => self.navigated(p, None),
            PathKind::File => self.navigated(parent_dir(p), Some(file_name(p))),
            PathKind::Missing => DlgView { error: Some("not found: "@ + p), ..self },
        }
    }
}

impl Duplicate for FileDialog {
    fn duplicate(&self) -> (r: Self) {
        FileDialog {
            mode: self.mode,
            dir: self.dir.clone(),
            ext: self.ext.clone(),
            filename: self.filename.clone(),
            path_buf: self.path_buf.clone(),
            error: copy_text(&self.error),
            embed_extra: self.embed_extra,
        }
    }
}

impl FileDialog {
    /// Takes a click on a file of the list, and says whether it confirms the browser: a double
    /// click does, and any click in a folder pick.
    pub fn pick(&mut self, name: String, double: bool) -> (confirm: bool)
        ensures
            final(self)@ == old(self)@.picked(name@),
            confirm == (double || old(self)@.mode == FileDialogMode::PickFolder),
    {
        if self.mode == FileDialogMode::PickFolder {
            self.filename = String::new();
            true
        } else {
            self.preselect(name);
            double
        }
    }

    fn preselect(&mut self, name: String)
        ensures
            final(self)@ == old(self)@.preselected(name@),
    {
        if lower_ends_with(name.as_str(), ".rsm") {
            self.ext = String::from_str(".rsm");
        } else if lower_ends_with(name.as_str(), ".dxf") {
            self.ext = String::from_str(".dxf");
        }
        self.filename = name;
    }

    /// Goes to another directory.
    pub fn navigate(&mut self, target: String, file: Option<String>)
        ensures
            final(self)@ == old(self)@.navigated(target@, opt_view(file)),
    {
        self.path_buf = target.clone();
        self.dir = target;
        self.error = None;
        if let Some(name) = file {
            self.preselect(name);
        }
    }

    /// Says why the directory could not be listed.
    pub fn unreadable(&mut self, why: &str)
        ensures
            final(self)@ == (DlgView {
                error: Some("cannot read directory: "@ + why@),
                ..old(self)@
            }),
    {
        self.error = Some(cat2("cannot read directory: ", why));
    }

    /// Chooses another filter.
    pub fn set_filter(&mut self, ext: String)
        ensures
            final(self)@ == old(self)@.refiltered(ext@),
    {
        if self.mode == FileDialogMode::Open && !same(self.ext.as_str(), ext.as_str())
            && !lower_ends_with(self.filename.as_str(), ext.as_str()) {
            self.filename = String::new();
        }
        self.ext = ext;
    }

    /// Goes to the path that was typed, given what it names.
    pub fn go(&mut self, kind: PathKind)
        ensures
            final(self)@ == old(self)@.gone_to(kind),
    {
        let p = String::from_str(trim(self.path_buf.as_str()));
        match kind {
            PathKind::Dir => self.navigate(p, None),
            PathKind::File => {
                let dir = String::from_str(parent_of(p.as_str()));
                let name = String::from_str(file_name_of(p.as_str()));
                self.navigate(dir, Some(name));
            },
            PathKind::Missing => {
                self.error = Some(cat2("not found: ", p.as_str()));
            },
        }
    }
}

/// A text with every `|` written as ` / `.
pub open spec fn bars_spaced(s: Seq<char>) -> Seq<char>
    decreases s.len(),
{
    if s.len() == 0 {
        Seq::empty()
    } else if s.last() == '|' {
        bars_spaced(s.drop_last()) + " / "@
    } else {
        bars_spaced(s.drop_last()).push(s.last())
    }
}

/// What is shown for a directory with nothing in it.
pub open spec fn nothing_here(ext: Seq<char>) -> Seq<char> {
    if ext.len() == 0 {
        "(no folders here)"@
    } else {
        "(no folders or "@ + bars_spaced(ext) + " files here)"@
    }
}

fn space_bars(s: &str) -> (r: String)
    ensures
        r@ == bars_spaced(s@),
{
    let n: usize = s.unicode_len();
    let mut r = String::new();
    let mut i: usize = 0;
    while i < n
        invariant
            i <= n,
            n == s@.len(),
            r@ == bars_spaced(s@.subrange(0, i as int)),
        decreases n - i,
    {
        assert(s@.subrange(0, i + 1).drop_last() =~= s@.subrange(0, i as int));
        if s.get_char(i) == '|' {
            r.append(" / ");
        } else {
            let ghost before = r@;
            let one = s.substring_char(i, i + 1);
            r.append(one);
            assert(r@ =~= before.push(s@[i as int]));
        }
        i += 1;
    }
    assert(s@.subrange(0, i as int) =~= s@);
    r
}

/// What to show for a directory with nothing in it.
pub fn empty_listing(ext: &str) -> (r: String)
    ensures
        r@ == nothing_here(ext@),
{
    if ext.unicode_len() == 0 {
        String::from_str("(no folders here)")
    } else {
        cat3("(no folders or ", space_bars(ext).as_str(), " files here)")
    }
}

/// What a confirmed browser asks for. `Nothing` is also the answer where the request has been
/// taken over already: an open and a save of a drawing are armed at once.
pub enum DialogAction {
    Nothing,
    LoadBlocks(String),
    ReportImage(String, ImageSlot),
    TraceImage(String),
    RasterUnderlay(String),
    ImportScene(String),
    ImportFurniture(String),
    LoadTexture(String),
    LoadPhotometry(String),
    LoadEnvironment(String),
    RunPlot(String),
    SavePlotTable(String),
    LoadPlotTable(String),
    WriteBlock(String, usize),
    ScanPhotometry(String),
    LoadTextureSet(usize, String),
    RunRadiance(String),
    ExportRadiance(String),
}

/// The model of a [`DialogAction`].
pub enum DialogActionView {
    Nothing,
    LoadBlocks(Seq<char>),
    ReportImage(Seq<char>, ImageSlot),
    TraceImage(Seq<char>),
    RasterUnderlay(Seq<char>),
    ImportScene(Seq<char>),
    ImportFurniture(Seq<char>),
    LoadTexture(Seq<char>),
    LoadPhotometry(Seq<char>),
    LoadEnvironment(Seq<char>),
    RunPlot(Seq<char>),
    SavePlotTable(Seq<char>),
    LoadPlotTable(Seq<char>),
    WriteBlock(Seq<char>, usize),
    ScanPhotometry(Seq<char>),
    LoadTextureSet(usize, Seq<char>),
    RunRadiance(Seq<char>),
    ExportRadiance(Seq<char>),
}

impl View for DialogAction {
    type V = DialogActionView;

    open spec fn view(&self) -> DialogActionView {
        match self {
            DialogAction::Nothing => DialogActionView::Nothing,
            DialogAction::LoadBlocks(p) => DialogActionView::LoadBlocks(p@),
            DialogAction::ReportImage(p, s) => DialogActionView::ReportImage(p@, *s),
            DialogAction::TraceImage(p) => DialogActionView::TraceImage(p@),
            DialogAction::RasterUnderlay(p) => DialogActionView::RasterUnderlay(p@),
            DialogAction::ImportScene(p) => DialogActionView::ImportScene(p@),
            DialogAction::ImportFurniture(p) => DialogActionView::ImportFurniture(p@),
            DialogAction::LoadTexture(p) => DialogActionView::LoadTexture(p@),
            DialogAction::LoadPhotometry(p) => DialogActionView::LoadPhotometry(p@),
            DialogAction::LoadEnvironment(p) => DialogActionView::LoadEnvironment(p@),
            DialogAction::RunPlot(p) => DialogActionView::RunPlot(p@),
            DialogAction::SavePlotTable(p) => DialogActionView::SavePlotTable(p@),
            DialogAction::LoadPlotTable(p) => DialogActionView::LoadPlotTable(p@),
            DialogAction::WriteBlock(p, n) => DialogActionView::WriteBlock(p@, *n),
            DialogAction::ScanPhotometry(p) => DialogActionView::ScanPhotometry(p@),
            DialogAction::LoadTextureSet(i, p) => DialogActionView::LoadTextureSet(*i, p@),
            DialogAction::RunRadiance(p) => DialogActionView::RunRadiance(p@),
            DialogAction::ExportRadiance(p) => DialogActionView::ExportRadiance(p@),
        }
    }
}

/// A text without the dots it begins with.
pub open spec fn without_lead_dots(s: Seq<char>) -> Seq<char>
    decreases s.len(),
{
    if s.len() > 0 && s[0] == '.' {
        without_lead_dots(s.drop_first())
    } else {
        s
    }
}

/// The format that a plot is written in, by the browser's filter.
pub open spec fn plot_format_of(ext: Seq<char>) -> PlotFormat {
    let e = lowered(without_lead_dots(ext));
    if e == "svg"@ {
        PlotFormat::Svg
    } else if e == "png"@ {
        PlotFormat::Png
    } else {
        PlotFormat::Pdf
    }
}

/// The extension of a plot format.
pub open spec fn plot_ext(f: PlotFormat) -> Seq<char> {
    match f {
        PlotFormat::Pdf => ".pdf"@,
        PlotFormat::Svg => ".svg"@,
        PlotFormat::Png => ".png"@,
    }
}

/// A name with an extension, which is added where the name does not end in it in either case of
/// letters.
pub open spec fn with_ext(name: Seq<char>, ext: Seq<char>) -> Seq<char> {
    if ends_in(lowered(name), ext) {
        name
    } else {
        name + ext
    }
}

/// The name a drawing is saved under: a name in one of the two native formats is kept, any other
/// gets the chosen extension.
pub open spec fn save_name(name: Seq<char>, ext: Seq<char>) -> Seq<char> {
    if ends_in(lowered(name), ".dxf"@) || ends_in(lowered(name), ".rsm"@) {
        name
    } else {
        name + ext
    }
}

fn cut_lead_dots(s: &str) -> (r: &str)
    ensures
        r@ == without_lead_dots(s@),
{
    let n: usize = s.unicode_len();
    let mut lo: usize = 0;
    assert(s@.subrange(0, n as int) =~= s@);
    while lo < n && s.get_char(lo) == '.'
        invariant
            lo <= n,
            n == s@.len(),
            without_lead_dots(s@) == without_lead_dots(s@.subrange(lo as int, n as int)),
        ensures
            lo <= n,
            without_lead_dots(s@) == s@.subrange(lo as int, n as int),
        decreases n - lo,
    {
        assert(s@.subrange(lo as int, n as int).drop_first() =~= s@.subrange(lo + 1, n as int));
        lo += 1;
    }
    s.substring_char(lo, n)
}

fn format_for_plot(ext: &str) -> (r: PlotFormat)
    ensures
        r == plot_format_of(ext@),
{
    let e = cut_lead_dots(ext);
    if lower_is(e, "svg") {
        PlotFormat::Svg
    } else if lower_is(e, "png") {
        PlotFormat::Png
    } else {
        PlotFormat::Pdf
    }
}

fn ext_of_plot(f: PlotFormat) -> (r: &'static str)
    ensures
        r@ == plot_ext(f),
{
    match f {
        PlotFormat::Pdf => ".pdf",
        PlotFormat::Svg => ".svg",
        PlotFormat::Png => ".png",
    }
}

fn name_with_ext(name: &str, ext: &str) -> (r: String)
    ensures
        r@ == with_ext(name@, ext@),
{
    if lower_ends_with(name, ext) {
        String::from_str(name)
    } else {
        cat2(name, ext)
    }
}

fn name_to_save(name: &str, ext: &str) -> (r: String)
    ensures
        r@ == save_name(name@, ext@),
{
    if lower_ends_with(name, ".dxf") || lower_ends_with(name, ".rsm") {
        String::from_str(name)
    } else {
        cat2(name, ext)
    }
}

impl DialogView {
    /// After the browser has been closed by an answer: the directory is remembered.
    pub open spec fn answered(self, dir: Seq<char>) -> DialogView {
        DialogView {
            file_dialog: None,
            file_dialog_dir: Some(dir),
            file_preview: None,
            ..self
        }
    }

    /// After the browser has been cancelled.
    pub open spec fn cancelled(self, dir: Seq<char>) -> DialogView {
        DialogView { plotstyle_pst_io: None, plot_pdf_browse: false, ..self.answered(dir) }
    }

    /// After the browser has been confirmed without a name, which it needs.
    pub open spec fn unnamed(self, d: DlgView) -> DialogView {
        DialogView {
            file_dialog: Some(DlgView { error: Some("enter or pick a file name"@), ..d }),
            file_dialog_dir: Some(d.dir),
            ..self
        }
    }

    /// After the place for a plot has been chosen.
    pub open spec fn plot_chosen(self, d: DlgView, name: Seq<char>) -> DialogView {
        let f = plot_format_of(d.ext);
        DialogView {
            plot_pdf_browse: false,
            plot_format: f,
            plot_pdf_path: joined_path(d.dir, with_ext(name, plot_ext(f))),
            plot_run_after_save: false,
            ..self.answered(d.dir)
        }
    }

    /// After the place for a table of plot styles has been chosen; an editor that was left for it
    /// comes back.
    pub open spec fn table_chosen(self, d: DlgView) -> DialogView {
        DialogView {
            plotstyle_pst_io: None,
            plotstyle_open: self.plotstyle_open || self.plotstyle_return_after_sub,
            plotstyle_return_after_sub: false,
            ..self.answered(d.dir)
        }
    }

    /// After the marks of whoever asked for this kind of answer have been taken.
    pub open spec fn marks_taken(self, mode: FileDialogMode) -> DialogView {
        match mode {
            FileDialogMode::Open => DialogView { illuminaire_wants_blocks: false, ..self },
            FileDialogMode::ImportImage => DialogView { report_wants_images: None, ..self },
            FileDialogMode::ImportObj => DialogView { scene_import_pending: false, ..self },
            FileDialogMode::Save => DialogView { wblock_subdoc: None, ..self },
            FileDialogMode::PickFolder => if self.report_wants_dir {
                DialogView { report_wants_dir: false, ..self }
            } else if self.photometry_wants_folder {
                DialogView { photometry_wants_folder: false, ..self }
            } else {
                DialogView { texset_target: None, ..self }
            },
            _ => self,
        }
    }

    /// What the answer is for, in the modes that neither open nor save a drawing.
    pub open spec fn answer_action(self, mode: FileDialogMode, path: Seq<char>)
        -> DialogActionView {
        match mode {
            FileDialogMode::Open => if self.illuminaire_wants_blocks {
                DialogActionView::LoadBlocks(path)
            } else {
                DialogActionView::Nothing
            },
            FileDialogMode::Save => match self.wblock_subdoc {
                Some(n) if self.purpose == SavePurpose::Block => DialogActionView::WriteBlock(
                    path,
                    n,
                ),
                _ => DialogActionView::Nothing,
            },
            FileDialogMode::ImportImage => match self.report_wants_images {
                Some(slot) => DialogActionView::ReportImage(path, slot),
                None => DialogActionView::TraceImage(path),
            },
            FileDialogMode::ImportRaster => DialogActionView::RasterUnderlay(path),
            FileDialogMode::ImportObj => if self.scene_import_pending {
                DialogActionView::ImportScene(path)
            } else {
                DialogActionView::ImportFurniture(path)
            },
            FileDialogMode::ImportTexture => DialogActionView::LoadTexture(path),
            FileDialogMode::ImportIes => DialogActionView::LoadPhotometry(path),
            FileDialogMode::ImportHdri => DialogActionView::LoadEnvironment(path),
            FileDialogMode::PickFolder => if self.report_wants_dir {
                DialogActionView::Nothing
            } else if self.photometry_wants_folder {
                DialogActionView::ScanPhotometry(path)
            } else if self.texset_target is Some {
                DialogActionView::LoadTextureSet(self.texset_target->0, path)
            } else if self.rad_run_after_pick {
                DialogActionView::RunRadiance(path)
            } else {
                DialogActionView::ExportRadiance(path)
            },
        }
    }
}

/// The path that a confirmed browser names.
pub open spec fn answer_path(d: DlgView) -> Seq<char> {
    let name = trimmed(d.filename);
    if d.mode == FileDialogMode::Save {
        joined_path(d.dir, save_name(name, d.ext))
    } else if d.mode == FileDialogMode::PickFolder && name.len() == 0 {
        d.dir
    } else {
        joined_path(d.dir, name)
    }
}

/// In a folder pick, a click on a file answers with the folder that the file is in, whatever the
/// field for a subfolder held.
pub proof fn clicked_file_takes_its_folder(d: DlgView, name: Seq<char>)
    requires
        d.mode == FileDialogMode::PickFolder,
    ensures
        answer_path(d.picked(name)) == d.dir,
{
}

/// Where the project data of a drawing is kept after it has been saved from the browser. A DWG
/// cannot carry it.
pub open spec fn store_chosen(d: DlgView) -> ExtraDataStore {
    if d.ext == ".dwg"@ {
        ExtraDataStore::Sidecar
    } else if d.embed_extra {
        ExtraDataStore::Embedded
    } else {
        ExtraDataStore::Sidecar
    }
}

impl DialogState {
    fn answer(&mut self, dir: String)
        ensures
            final(self)@ == old(self)@.answered(dir@),
    {
        self.file_dialog = None;
        self.file_dialog_dir = Some(dir);
        self.file_preview = None;
    }

    fn cancel(&mut self, dir: String)
        ensures
            final(self)@ == old(self)@.cancelled(dir@),
    {
        self.answer(dir);
        self.plotstyle_pst_io = None;
        self.plot_pdf_browse = false;
    }

    fn complain(&mut self, d: FileDialog)
        ensures
            final(self)@ == old(self)@.unnamed(d@),
    {
        let mut d = d;
        self.file_dialog_dir = Some(d.dir.clone());
        d.error = Some(String::from_str("enter or pick a file name"));
        self.file_dialog = Some(d);
    }

    fn choose_plot(&mut self, d: &FileDialog, name: &str) -> (r: DialogAction)
        ensures
            final(self)@ == old(self)@.plot_chosen(d@, name@),
            r@ == if old(self)@.plot_run_after_save {
                DialogActionView::RunPlot(final(self)@.plot_pdf_path)
            } else {
                DialogActionView::Nothing
            },
    {
        let f = format_for_plot(d.ext.as_str());
        let file = name_with_ext(name, ext_of_plot(f));
        let path = join_path(d.dir.as_str(), file.as_str());
        let run = self.plot_run_after_save;
        self.answer(d.dir.clone());
        self.plot_pdf_browse = false;
        self.plot_format = f;
        self.plot_pdf_path = path.clone();
        self.plot_run_after_save = false;
        if run {
            DialogAction::RunPlot(path)
        } else {
            DialogAction::Nothing
        }
    }

    fn choose_table(&mut self, d: &FileDialog)
        ensures
            final(self)@ == old(self)@.table_chosen(d@),
    {
        self.answer(d.dir.clone());
        self.plotstyle_pst_io = None;
        if self.plotstyle_return_after_sub {
            self.plotstyle_open = true;
            self.plotstyle_return_after_sub = false;
        }
    }

    fn take_marks(&mut self, mode: FileDialogMode)
        ensures
            final(self)@ == old(self)@.marks_taken(mode),
    {
        match mode {
            FileDialogMode::Open => {
                self.illuminaire_wants_blocks = false;
            },
            FileDialogMode::ImportImage => {
                self.report_wants_images = None;
            },
            FileDialogMode::ImportObj => {
                self.scene_import_pending = false;
            },
            FileDialogMode::Save => {
                self.wblock_subdoc = None;
            },
            FileDialogMode::PickFolder => {
                if self.report_wants_dir {
                    self.report_wants_dir = false;
                } else if self.photometry_wants_folder {
                    self.photometry_wants_folder = false;
                } else {
                    self.texset_target = None;
                }
            },
            _ => {},
        }
    }

    fn action_for(&self, mode: FileDialogMode, path: String) -> (r: DialogAction)
        ensures
            r@ == self@.answer_action(mode, path@),
    {
        match mode {
            FileDialogMode::Open => if self.illuminaire_wants_blocks {
                DialogAction::LoadBlocks(path)
            } else {
                DialogAction::Nothing
            },
            FileDialogMode::Save => match self.wblock_subdoc {
                Some(n) => if self.purpose == SavePurpose::Block {
                    DialogAction::WriteBlock(path, n)
                } else {
                    DialogAction::Nothing
                },
                None => DialogAction::Nothing,
            },
            FileDialogMode::ImportImage => match self.report_wants_images {
                Some(slot) => DialogAction::ReportImage(path, slot),
                None => DialogAction::TraceImage(path),
            },
            FileDialogMode::ImportRaster => DialogAction::RasterUnderlay(path),
            FileDialogMode::ImportObj => if self.scene_import_pending {
                DialogAction::ImportScene(path)
            } else {
                DialogAction::ImportFurniture(path)
            },
            FileDialogMode::ImportTexture => DialogAction::LoadTexture(path),
            FileDialogMode::ImportIes => DialogAction::LoadPhotometry(path),
            FileDialogMode::ImportHdri => DialogAction::LoadEnvironment(path),
            FileDialogMode::PickFolder => self.folder_action(path),
        }
    }

    fn folder_action(&self, path: String) -> (r: DialogAction)
        ensures
            r@ == self@.answer_action(FileDialogMode::PickFolder, path@),
    {
        if self.report_wants_dir {
            DialogAction::Nothing
        } else if self.photometry_wants_folder {
            DialogAction::ScanPhotometry(path)
        } else {
            match self.texset_target {
                Some(i) => DialogAction::LoadTextureSet(i, path),
                None => if self.rad_run_after_pick {
                    DialogAction::RunRadiance(path)
                } else {
                    DialogAction::ExportRadiance(path)
                },
            }
        }
    }
}

impl AppView {
    /// With a given state of the browser.
    pub open spec fn with_dialog(self, d: DialogView) -> AppView {
        AppView { dialog: d, ..self }
    }

    /// With a given directory for reports.
    pub open spec fn reports_to(self, dir: Seq<char>) -> AppView {
        AppView { report: crate::report::ReportView { out_dir: dir, ..self.report }, ..self }
    }

    /// After the answer of a browser has been taken over.
    pub open spec fn answer_taken(self, d: DlgView, now: u64) -> AppView {
        let s = self.with_dialog(self.dialog.answered(d.dir).marks_taken(d.mode));
        let path = answer_path(d);
        match d.mode {
            FileDialogMode::Open => if self.dialog.illuminaire_wants_blocks {
                s
            } else {
                s.open_armed(path, now)
            },
            FileDialogMode::Save => if self.dialog.purpose == SavePurpose::Drawing {
                s.stored_in(store_chosen(d)).save_armed(path, now)
            } else if self.dialog.wblock_subdoc is Some {
                s
            } else {
                s.save_armed(path, now)
            },
            FileDialogMode::PickFolder => if self.dialog.report_wants_dir {
                s.reports_to(path)
            } else {
                s
            },
            _ => s,
        }
    }

    /// After the browser has been confirmed. A place for a plot, and one for a table of plot
    /// styles, come before what the browser was opened as.
    pub open spec fn dialog_confirmed(self, now: u64) -> AppView {
        match self.dialog.file_dialog {
            None => self,
            Some(d) => {
                let name = trimmed(d.filename);
                if name.len() == 0 && d.mode != FileDialogMode::PickFolder {
                    self.with_dialog(self.dialog.unnamed(d))
                } else if self.dialog.plot_pdf_browse {
                    self.with_dialog(self.dialog.plot_chosen(d, name))
                } else if self.dialog.plotstyle_pst_io is Some {
                    self.with_dialog(self.dialog.table_chosen(d))
                } else {
                    self.answer_taken(d, now)
                }
            },
        }
    }

    /// What the confirmed browser asks for.
    pub open spec fn confirm_action(self) -> DialogActionView {
        match self.dialog.file_dialog {
            None => DialogActionView::Nothing,
            Some(d) => {
                let name = trimmed(d.filename);
                if name.len() == 0 && d.mode != FileDialogMode::PickFolder {
                    DialogActionView::Nothing
                } else if self.dialog.plot_pdf_browse {
                    if self.dialog.plot_run_after_save {
                        DialogActionView::RunPlot(self.dialog.plot_chosen(d, name).plot_pdf_path)
                    } else {
                        DialogActionView::Nothing
                    }
                } else if self.dialog.plotstyle_pst_io is Some {
                    let path = joined_path(d.dir, with_ext(name, ".pst"@));
                    if self.dialog.plotstyle_pst_io->0 {
                        DialogActionView::SavePlotTable(path)
                    } else {
                        DialogActionView::LoadPlotTable(path)
                    }
                } else {
                    self.dialog.answer_action(d.mode, answer_path(d))
                }
            },
        }
    }

    /// After the browser has been cancelled: who asked for it is forgotten, and a close that
    /// waited for the save does not go on.
    pub open spec fn dialog_cancelled(self) -> AppView {
        match self.dialog.file_dialog {
            None => self,
            Some(d) => AppView {
                dialog: self.dialog.cancelled(d.dir),
                files: FileView { close_after_save: false, ..self.files },
                ..self
            }.said("  file: cancelled"@),
        }
    }
}

fn path_of_answer(d: &FileDialog) -> (r: String)
    ensures
        r@ == answer_path(d@),
{
    let name = trim(d.filename.as_str());
    if d.mode == FileDialogMode::Save {
        let file = name_to_save(name, d.ext.as_str());
        join_path(d.dir.as_str(), file.as_str())
    } else if d.mode == FileDialogMode::PickFolder && name.unicode_len() == 0 {
        d.dir.clone()
    } else {
        join_path(d.dir.as_str(), name)
    }
}

fn store_of_answer(d: &FileDialog) -> (r: ExtraDataStore)
    ensures
        r == store_chosen(d@),
{
    if !same(d.ext.as_str(), ".dwg") && d.embed_extra {
        ExtraDataStore::Embedded
    } else {
        ExtraDataStore::Sidecar
    }
}

impl CadApp {
    fn dialog_copy(&self) -> (r: Option<FileDialog>)
        ensures
            opt_view(r) == self@.dialog.file_dialog,
    {
        match &self.dialog.file_dialog {
            Some(d) => Some(d.duplicate()),
            None => None,
        }
    }

    fn cancel_in(&mut self, dir: String)
        ensures
            final(self)@ == (AppView {
                dialog: old(self)@.dialog.cancelled(dir@),
                files: FileView { close_after_save: false, ..old(self)@.files },
                ..old(self)@
            }).said("  file: cancelled"@),
    {
        self.dialog.cancel(dir);
        self.files.close_after_save = false;
        self.say(String::from_str("  file: cancelled"));
    }

    /// Cancels the browser.
    pub fn cancel_file_dialog(&mut self)
        ensures
            final(self)@ == old(self)@.dialog_cancelled(),
    {
        if let Some(d) = self.dialog_copy() {
            self.cancel_in(d.dir);
        }
    }

    fn complain_unnamed(&mut self, d: FileDialog)
        ensures
            final(self)@ == old(self)@.with_dialog(old(self)@.dialog.unnamed(d@)),
    {
        self.dialog.complain(d);
    }

    fn answer_plot(&mut self, d: &FileDialog, name: &str) -> (r: DialogAction)
        ensures
            final(self)@ == old(self)@.with_dialog(old(self)@.dialog.plot_chosen(d@, name@)),
            r@ == if old(self)@.dialog.plot_run_after_save {
                DialogActionView::RunPlot(
                    old(self)@.dialog.plot_chosen(d@, name@).plot_pdf_path,
                )
            } else {
                DialogActionView::Nothing
            },
    {
        self.dialog.choose_plot(d, name)
    }

    fn answer_table(&mut self, d: &FileDialog, name: &str, save: bool) -> (r: DialogAction)
        ensures
            final(self)@ == old(self)@.with_dialog(old(self)@.dialog.table_chosen(d@)),
            r@ == if save {
                DialogActionView::SavePlotTable(joined_path(d@.dir, with_ext(name@, ".pst"@)))
            } else {
                DialogActionView::LoadPlotTable(joined_path(d@.dir, with_ext(name@, ".pst"@)))
            },
    {
        let file = name_with_ext(name, ".pst");
        let path = join_path(d.dir.as_str(), file.as_str());
        self.dialog.choose_table(d);
        if save {
            DialogAction::SavePlotTable(path)
        } else {
            DialogAction::LoadPlotTable(path)
        }
    }

    fn close_answered(&mut self, dir: String, mode: FileDialogMode)
        ensures
            final(self)@ == old(self)@.with_dialog(
                old(self)@.dialog.answered(dir@).marks_taken(mode),
            ),
    {
        self.dialog.answer(dir);
        self.dialog.take_marks(mode);
    }

    fn report_to(&mut self, dir: String)
        ensures
            final(self)@ == old(self)@.reports_to(dir@),
    {
        self.report.out_dir = dir;
    }

    fn answer_plain(&mut self, d: FileDialog, now: u64) -> (r: DialogAction)
        ensures
            final(self)@ == old(self)@.answer_taken(d@, now),
            r@ == old(self)@.dialog.answer_action(d@.mode, answer_path(d@)),
    {
        let path = path_of_answer(&d);
        let store = store_of_answer(&d);
        let action = self.dialog.action_for(d.mode, path.clone());
        let blocks = self.dialog.illuminaire_wants_blocks;
        let drawing = self.dialog.purpose == SavePurpose::Drawing;
        let block_waits = self.dialog.wblock_subdoc.is_some();
        let for_report = self.dialog.report_wants_dir;
        let mode = d.mode;
        self.close_answered(d.dir, mode);
        match mode {
            FileDialogMode::Open => {
                if !blocks {
                    self.do_open(path.as_str(), now);
                }
            },
            FileDialogMode::Save => {
                self.answer_save(path.as_str(), store, drawing, block_waits, now);
            },
            FileDialogMode::PickFolder => {
                if for_report {
                    self.report_to(path);
                }
            },
            _ => {},
        }
        action
    }

    fn answer_save(
        &mut self,
        path: &str,
        store: ExtraDataStore,
        drawing: bool,
        block_waits: bool,
        now: u64,
    )
        ensures
            final(self)@ == if drawing {
                old(self)@.stored_in(store).save_armed(path@, now)
            } else if block_waits {
                old(self)@
            } else {
                old(self)@.save_armed(path@, now)
            },
    {
        if drawing {
            self.set_store(store);
            self.do_save(path, now);
        } else if !block_waits {
            self.do_save(path, now);
        }
    }

    /// Confirms the browser: takes its answer over where that can be done here, and says what it
    /// asks for. Without a name it complains and stays open.
    pub fn confirm_file_dialog(&mut self, now: u64) -> (r: DialogAction)
        ensures
            final(self)@ == old(self)@.dialog_confirmed(now),
            r@ == old(self)@.confirm_action(),
    {
        match self.dialog_copy() {
            None => DialogAction::Nothing,
            Some(d) => self.confirm_taken(d, now),
        }
    }

    fn confirm_taken(&mut self, d: FileDialog, now: u64) -> (r: DialogAction)
        ensures
            ({
                let name = trimmed(d@.filename);
                let s = old(self)@;
                if name.len() == 0 && d@.mode != FileDialogMode::PickFolder {
                    final(self)@ == s.with_dialog(s.dialog.unnamed(d@)) && r@
                        == DialogActionView::Nothing
                } else if s.dialog.plot_pdf_browse {
                    final(self)@ == s.with_dialog(s.dialog.plot_chosen(d@, name)) && r@ == if
                    s.dialog.plot_run_after_save {
                        DialogActionView::RunPlot(s.dialog.plot_chosen(d@, name).plot_pdf_path)
                    } else {
                        DialogActionView::Nothing
                    }
                } else if s.dialog.plotstyle_pst_io is Some {
                    final(self)@ == s.with_dialog(s.dialog.table_chosen(d@)) && r@ == if
                    s.dialog.plotstyle_pst_io->0 {
                        DialogActionView::SavePlotTable(
                            joined_path(d@.dir, with_ext(name, ".pst"@)),
                        )
                    } else {
                        DialogActionView::LoadPlotTable(
                            joined_path(d@.dir, with_ext(name, ".pst"@)),
                        )
                    }
                } else {
                    final(self)@ == s.answer_taken(d@, now) && r@ == s.dialog.answer_action(
                        d@.mode,
                        answer_path(d@),
                    )
                }
            }),
    {
        let name = String::from_str(trim(d.filename.as_str()));
        if name.as_str().unicode_len() == 0 && d.mode != FileDialogMode::PickFolder {
            self.complain_unnamed(d);
            return DialogAction::Nothing;
        }
        if self.dialog.plot_pdf_browse {
            return self.answer_plot(&d, name.as_str());
        }
        match self.dialog.plotstyle_pst_io {
            Some(save) => self.answer_table(&d, name.as_str(), save),
            None => self.answer_plain(d, now),
        }
    }

    /// Whether the browser offers to keep the project data inside the file: for a drawing that is
    /// saved, and for nothing else.
    pub fn offers_embedding(&self) -> (r: bool)
        ensures
            r == (self@.dialog.file_dialog is Some && self@.dialog.file_dialog->0.mode
                == FileDialogMode::Save && self@.dialog.purpose == SavePurpose::Drawing
                && self@.dialog.plotstyle_pst_io is None && !self@.dialog.plot_pdf_browse
                && self@.dialog.wblock_subdoc is None),
    {
        let saving = match &self.dialog.file_dialog {
            Some(d) => d.mode == FileDialogMode::Save,
            None => false,
        };
        saving && self.dialog.purpose == SavePurpose::Drawing
            && self.dialog.plotstyle_pst_io.is_none() && !self.dialog.plot_pdf_browse
            && self.dialog.wblock_subdoc.is_none()
    }
}

proof fn answers_close(dv: DialogView, d: DlgView, name: Seq<char>, mode: FileDialogMode)
    ensures
        dv.answered(d.dir).marks_taken(mode).file_dialog is None,
        dv.answered(d.dir).marks_taken(mode).file_dialog_dir == Some(d.dir),
        dv.plot_chosen(d, name).file_dialog is None,
        dv.plot_chosen(d, name).file_dialog_dir == Some(d.dir),
        dv.table_chosen(d).file_dialog is None,
        dv.table_chosen(d).file_dialog_dir == Some(d.dir),
        dv.cancelled(d.dir).file_dialog is None,
        dv.cancelled(d.dir).file_dialog_dir == Some(d.dir),
{
}

proof fn answer_keeps_dialog(s: AppView, d: DlgView, now: u64)
    ensures
        s.answer_taken(d, now).dialog == s.dialog.answered(d.dir).marks_taken(d.mode),
{
    reveal(AppView::said);
}

/// A confirmed browser closes, but for the one that lacks a name, and so does a cancelled one; its
/// directory is where the next one starts. A cancelled save does not close the application.
pub proof fn answering_closes_the_browser(s: AppView, now: u64)
    requires
        s.dialog.file_dialog is Some,
    ensures
        trimmed(s.dialog.file_dialog->0.filename).len() > 0 || s.dialog.file_dialog->0.mode
            == FileDialogMode::PickFolder ==> {
            &&& s.dialog_confirmed(now).dialog.file_dialog is None
            &&& s.dialog_confirmed(now).dialog.file_dialog_dir == Some(
                s.dialog.file_dialog->0.dir,
            )
        },
        s.dialog_cancelled().dialog.file_dialog is None,
        s.dialog_cancelled().dialog.file_dialog_dir == Some(s.dialog.file_dialog->0.dir),
        !s.dialog_cancelled().files.close_after_save,
{
    let d = s.dialog.file_dialog->0;
    answers_close(s.dialog, d, trimmed(d.filename), d.mode);
    answer_keeps_dialog(s, d, now);
    reveal(AppView::said);
}

impl AppView {
    /// With no prompt above the command line.
    pub open spec fn prompt_cleared(self) -> AppView {
        AppView {
            cmds: crate::commands::CmdView { current_prompt: Seq::empty(), ..self.cmds },
            ..self
        }
    }

    /// With the table of plot styles bound to a file, or to none.
    pub open spec fn table_bound(self, file: Option<Seq<char>>) -> AppView {
        AppView { dialog: DialogView { plotstyle_edit_file: file, ..self.dialog }, ..self }
    }

    /// With the message line of the lighting panel set.
    pub open spec fn light_told(self, msg: Seq<char>) -> AppView {
        AppView { light: crate::light::LightView { last_msg: msg, ..self.light }, ..self }
    }
}

impl CadApp {
    /// Ends the prompt above the command line.
    pub fn clear_prompt(&mut self)
        ensures
            final(self)@ == old(self)@.prompt_cleared(),
    {
        self.cmds.current_prompt = String::new();
    }

    /// Sets the message line of the lighting panel.
    pub fn tell_light(&mut self, msg: String)
        ensures
            final(self)@ == old(self)@.light_told(msg@),
    {
        self.light.last_msg = msg;
    }

    /// Takes over that a block was written to a file of its own, or was not.
    pub fn block_written(&mut self, path: &str, n: usize, ok: bool)
        ensures
            final(self)@ == (if ok {
                old(self)@.said(
                    "  wblock: wrote "@ + crate::text::dec(n as nat) + " dobject(s) to '"@ + path@
                        + "'"@,
                )
            } else {
                old(self)@
            }).prompt_cleared(),
    {
        if ok {
            self.say(
                crate::text::cat5(
                    "  wblock: wrote ",
                    crate::text::dec_text(n as u64).as_str(),
                    " dobject(s) to '",
                    path,
                    "'",
                ),
            );
        }
        self.clear_prompt();
    }

    fn bind_table(&mut self, file: Option<String>)
        ensures
            final(self)@ == old(self)@.table_bound(opt_view(file)),
    {
        self.dialog.plotstyle_edit_file = file;
    }

    /// Takes over that the table of plot styles was saved, which binds it to the file, or was not.
    pub fn plot_table_saved(&mut self, path: &str, outcome: Result<(), String>)
        ensures
            final(self)@ == match outcome {
                Ok(_) => old(self)@.table_bound(Some(path@)).said(
                    "  plot table saved → "@ + path@,
                ),
                Err(e) => old(self)@.said("  ! plot table save failed: "@ + e@),
            },
    {
        match outcome {
            Ok(_) => {
                self.bind_table(Some(String::from_str(path)));
                self.say(cat2("  plot table saved → ", path));
            },
            Err(e) => self.say(cat2("  ! plot table save failed: ", e.as_str())),
        }
    }

    fn take_table(&mut self, t: crate::table::Table<crate::doc::Color>)
        ensures
            final(self)@ == (AppView {
                doc: crate::doc::DocView { plot_colors: t@, ..old(self)@.doc },
                ..old(self)@
            }),
    {
        self.doc.plot_colors = t;
    }

    /// Takes over a table of plot styles that was loaded. It is bound to no file, so that saving
    /// it does not overwrite the one that was edited before.
    pub fn plot_table_loaded(
        &mut self,
        path: &str,
        outcome: Result<crate::table::Table<crate::doc::Color>, String>,
    )
        ensures
            final(self)@ == match outcome {
                Ok(t) => (AppView {
                    doc: crate::doc::DocView { plot_colors: t@, ..old(self)@.doc },
                    ..old(self)@
                }).table_bound(None).said("  plot table loaded ← "@ + path@),
                Err(e) => old(self)@.said("  ! plot table load failed: "@ + e@),
            },
    {
        match outcome {
            Ok(t) => {
                self.take_table(t);
                self.bind_table(None);
                self.say(cat2("  plot table loaded ← ", path));
            },
            Err(e) => self.say(cat2("  ! plot table load failed: ", e.as_str())),
        }
    }

    /// Takes over what was said when a photometric file was loaded.
    pub fn photometry_loaded(&mut self, msg: String)
        ensures
            final(self)@ == old(self)@.light_told(msg@).said("  "@ + msg@),
    {
        let line = cat2("  ", msg.as_str());
        self.tell_light(msg);
        self.say(line);
    }

    fn take_scan(&mut self, dir: String, found: Vec<String>)
        ensures
            final(self)@ == (AppView {
                light: crate::light::LightView {
                    lib_folder: dir@,
                    lib_scanned: views(found@),
                    ..old(self)@.light
                },
                ..old(self)@
            }),
    {
        self.light.lib_folder = dir;
        self.light.lib_scanned = found;
    }

    /// Takes over which photometric files a folder holds.
    pub fn photometry_scanned(&mut self, dir: String, found: Vec<String>)
        ensures
            final(self)@ == (AppView {
                light: crate::light::LightView {
                    lib_folder: dir@,
                    lib_scanned: views(found@),
                    ..old(self)@.light
                },
                ..old(self)@
            }).said(
                "  illuminaire: "@ + crate::text::dec(found@.len())
                    + " photometry file(s) found"@,
            ),
    {
        let n: usize = found.len();
        self.take_scan(dir, found);
        self.say(
            cat3(
                "  illuminaire: ",
                crate::text::dec_text(n as u64).as_str(),
                " photometry file(s) found",
            ),
        );
    }

    fn show_factory(&mut self)
        ensures
            final(self)@ == (AppView {
                factory: crate::factory::FactoryView { open: true, ..old(self)@.factory },
                ..old(self)@
            }),
    {
        self.factory.open = true;
    }

    /// Takes over what was said when an environment picture was loaded, and shows the model in it.
    pub fn environment_loaded(&mut self, outcome: Result<String, String>)
        ensures
            final(self)@ == match outcome {
                Ok(msg) => ({
                    let s = old(self)@.said("  "@ + msg@).with_status(msg@);
                    AppView {
                        factory: crate::factory::FactoryView { open: true, ..s.factory },
                        ..s
                    }
                }),
                Err(e) => old(self)@.with_status("environment: "@ + e@).said(
                    "  ! environment: "@ + e@,
                ),
            },
    {
        match outcome {
            Ok(msg) => {
                self.say(cat2("  ", msg.as_str()));
                self.set_status(msg);
                self.show_factory();
            },
            Err(e) => {
                self.set_status(cat2("environment: ", e.as_str()));
                self.say(cat2("  ! environment: ", e.as_str()));
            },
        }
    }
}

/// The folders that are listed are those that are not hidden, and the files those that are not hidden
/// and that the browser is for.
pub proof fn listed_are_shown_and_asked_for(
    e: Seq<EntryView>,
    mode: FileDialogMode,
    ext: Seq<char>,
    name: Seq<char>,
)
    ensures
        dir_names(e).contains(name) <==> exists|i: int|
            0 <= i < e.len() && (#[trigger] e[i]).name == name && e[i].is_dir && !e[i].hidden
                && !begins_with(name, "."@),
        listed_names(e, mode, ext).contains(name) <==> exists|i: int|
            0 <= i < e.len() && (#[trigger] e[i]).name == name && !e[i].is_dir && !e[i].hidden
                && !begins_with(name, "."@) && lists(mode, ext, name),
    decreases e.len(),
{
    if e.len() > 0 {
        let front = e.drop_last();
        let n = e.len() - 1;
        listed_are_shown_and_asked_for(front, mode, ext, name);
        assert(forall|i: int| 0 <= i < n ==> front[i] == #[trigger] e[i]);
        if exists|i: int|
            0 <= i < front.len() && (#[trigger] front[i]).name == name && front[i].is_dir
                && !front[i].hidden && !begins_with(name, "."@) {
            let i = choose|i: int|
                0 <= i < front.len() && (#[trigger] front[i]).name == name && front[i].is_dir
                    && !front[i].hidden && !begins_with(name, "."@);
            assert(e[i].name == name);
        }
        if exists|i: int|
            0 <= i < front.len() && (#[trigger] front[i]).name == name && !front[i].is_dir
                && !front[i].hidden && !begins_with(name, "."@) && lists(mode, ext, name) {
            let i = choose|i: int|
                0 <= i < front.len() && (#[trigger] front[i]).name == name && !front[i].is_dir
                    && !front[i].hidden && !begins_with(name, "."@) && lists(mode, ext, name);
            assert(e[i].name == name);
        }
        if exists|i: int|
            0 <= i < e.len() && (#[trigger] e[i]).name == name && e[i].is_dir && !e[i].hidden
                && !begins_with(name, "."@) {
            let i = choose|i: int|
                0 <= i < e.len() && (#[trigger] e[i]).name == name && e[i].is_dir && !e[i].hidden
                    && !begins_with(name, "."@);
            if i < n {
                assert(front[i].name == name);
            }
        }
        if exists|i: int|
            0 <= i < e.len() && (#[trigger] e[i]).name == name && !e[i].is_dir && !e[i].hidden
                && !begins_with(name, "."@) && lists(mode, ext, name) {
            let i = choose|i: int|
                0 <= i < e.len() && (#[trigger] e[i]).name == name && !e[i].is_dir && !e[i].hidden
                    && !begins_with(name, "."@) && lists(mode, ext, name);
            if i < n {
                assert(front[i].name == name);
            }
        }
        assert(e[n] == e.last());
    }
}

/// A folder that is entered is where the browser then is, without an error, and a path that leads to
/// a file leads to its folder with the file named. One that leads nowhere leaves the browser where it
/// is, and says so.
pub proof fn typed_path_is_gone_to(d: DlgView, kind: PathKind)
    ensures
        ({
            let t = d.gone_to(kind);
            let p = trimmed(d.path_buf);
            &&& t.mode == d.mode && t.embed_extra == d.embed_extra
            &&& kind == PathKind::Dir ==> t.dir == p && t.path_buf == p && t.error is None
                && t.filename == d.filename
            &&& kind == PathKind::File ==> t.dir == parent_dir(p) && t.filename == file_name(p)
                && t.error is None
            &&& kind == PathKind::Missing ==> t.dir == d.dir && t.filename == d.filename && t.error
                is Some
        }),
{
}

/// A file that is picked is named, and the kind of file follows its name where that says it. Another
/// kind of file forgets a name that it does not list, in opening only.
pub proof fn picked_file_is_named(d: DlgView, name: Seq<char>, ext: Seq<char>)
    ensures
        d.mode != FileDialogMode::PickFolder ==> d.picked(name).filename == name,
        d.picked(name).dir == d.dir,
        d.mode != FileDialogMode::PickFolder && ends_in(lowered(name), ".rsm"@) ==> d.picked(name).ext
            == ".rsm"@,
        d.mode != FileDialogMode::PickFolder && ends_in(lowered(name), ".dxf"@) && !ends_in(
            lowered(name),
            ".rsm"@,
        ) ==> d.picked(name).ext == ".dxf"@,
        d.refiltered(ext).ext == ext,
        d.mode != FileDialogMode::Open ==> d.refiltered(ext).filename == d.filename,
        d.mode == FileDialogMode::Open && ends_in(lowered(d.filename), ext) ==> d.refiltered(
            ext,
        ).filename == d.filename,
        d.mode == FileDialogMode::Open && ext != d.ext && !ends_in(lowered(d.filename), ext)
            ==> d.refiltered(ext).filename.len() == 0,
{
}

proof fn added_tail_ends(name: Seq<char>, ext: Seq<char>)
    requires
        lowered(ext) == ext,
    ensures
        ends_in(lowered(name + ext), ext),
{
    let p = lowered(name + ext);
    assert(p.subrange(p.len() - ext.len(), p.len() as int) =~= lowered(ext));
}

/// A name that is given an extension has it, keeps its beginning, and gets it no second time.
pub proof fn extension_is_added_once(name: Seq<char>, ext: Seq<char>)
    requires
        lowered(ext) == ext,
    ensures
        ends_in(lowered(with_ext(name, ext)), ext),
        with_ext(with_ext(name, ext), ext) == with_ext(name, ext),
        begins_with(with_ext(name, ext), name),
        ext == ".dxf"@ || ext == ".rsm"@ ==> save_name(save_name(name, ext), ext) == save_name(name, ext),
        ext == ".dxf"@ || ext == ".rsm"@ ==> ends_in(lowered(save_name(name, ext)), ".dxf"@) || ends_in(
            lowered(save_name(name, ext)),
            ".rsm"@,
        ),
        begins_with(save_name(name, ext), name),
{
    added_tail_ends(name, ext);
    assert((name + ext).subrange(0, name.len() as int) =~= name);
    assert(name.subrange(0, name.len() as int) =~= name);
}

/// A file that is saved or opened from the browser lies in the folder that it shows, under the name
/// that was typed, without white space around it.
pub proof fn answer_lies_in_the_folder(d: DlgView)
    requires
        trimmed(d.filename).len() > 0,
        !trimmed(d.filename).contains('/'),
        !d.ext.contains('/'),
    ensures
        d.dir.len() > 0 && d.dir.last() != '/' ==> parent_dir(answer_path(d)) == d.dir,
        d.mode != FileDialogMode::Save ==> file_name(answer_path(d)) == trimmed(d.filename),
        d.mode == FileDialogMode::Save ==> begins_with(file_name(answer_path(d)), trimmed(d.filename)),
{
    let name = trimmed(d.filename);
    let saved = save_name(name, d.ext);
    assert(!saved.contains('/')) by {
        if saved.contains('/') {
            let i = choose|i: int| 0 <= i < saved.len() && saved[i] == '/';
            if i < name.len() {
                assert(name[i] == '/');
            } else {
                assert(d.ext[i - name.len()] == '/');
            }
        }
    }
    assert(saved.subrange(0, name.len() as int) =~= name);
    crate::paths::joined_path_comes_apart(d.dir, name);
    crate::paths::joined_path_comes_apart(d.dir, saved);
}

/// A drawing that is confirmed for opening is armed to be loaded from its path, and one for saving to
/// be saved to its path, with its project data where the browser says; a DWG never carries it.
pub proof fn confirmed_drawing_is_armed(s: AppView, now: u64)
    requires
        s.dialog.file_dialog is Some,
        trimmed(s.dialog.file_dialog->0.filename).len() > 0,
        !s.dialog.plot_pdf_browse,
        s.dialog.plotstyle_pst_io is None,
    ensures
        ({
            let d = s.dialog.file_dialog->0;
            let t = s.dialog_confirmed(now);
            &&& d.mode == FileDialogMode::Open && !s.dialog.illuminaire_wants_blocks
                ==> (t.files.busy matches Some(b) && b.kind == BusyKind::Load && b.path == answer_path(
                d,
            ))
            &&& d.mode == FileDialogMode::Save && s.dialog.purpose == SavePurpose::Drawing
                && s.files.extra_choice is None ==> t.files.extra_store == store_chosen(d) && (
            t.files.busy matches Some(b) && b.kind == BusyKind::Save && b.path == answer_path(d))
            &&& d.ext == ".dwg"@ ==> store_chosen(d) == ExtraDataStore::Sidecar
            &&& d.ext != ".dwg"@ ==> (store_chosen(d) == ExtraDataStore::Embedded <==> d.embed_extra)
            &&& d.mode != FileDialogMode::Open && d.mode != FileDialogMode::Save ==> t.files == s.files
            &&& t.doc == s.doc && t.undo == s.undo && t.light == s.light && t.factory == s.factory
        }),
{
    reveal(AppView::said);
}

/// Confirming without a name keeps the browser open and says why; nothing is done.
pub proof fn nameless_browser_stays(s: AppView, now: u64)
    requires
        s.dialog.file_dialog is Some,
        trimmed(s.dialog.file_dialog->0.filename).len() == 0,
        s.dialog.file_dialog->0.mode != FileDialogMode::PickFolder,
    ensures
        s.dialog_confirmed(now).dialog.file_dialog matches Some(d) && d.error is Some && d.dir
            == s.dialog.file_dialog->0.dir && d.mode == s.dialog.file_dialog->0.mode,
        s.confirm_action() == DialogActionView::Nothing,
        s.dialog_confirmed(now).files == s.files,
{
}

/// The path of a plot that was browsed for ends as its format does, and the plot is run where that
/// was asked for.
pub proof fn plot_goes_to_its_path(s: AppView, now: u64)
    requires
        s.dialog.file_dialog is Some,
        trimmed(s.dialog.file_dialog->0.filename).len() > 0,
        s.dialog.plot_pdf_browse,
    ensures
        ({
            let t = s.dialog_confirmed(now);
            &&& !t.dialog.plot_pdf_browse
            &&& s.dialog.plot_run_after_save ==> s.confirm_action() == DialogActionView::RunPlot(
                t.dialog.plot_pdf_path,
            )
            &&& !s.dialog.plot_run_after_save ==> s.confirm_action() == DialogActionView::Nothing
            &&& t.files == s.files
        }),
{
}

/// The format of a plot goes by the extension, with or without its dot, and is PDF for all others.
pub proof fn plot_format_has_its_extension(f: PlotFormat)
    ensures
        plot_format_of(plot_ext(f)) == f,
{
    reveal_strlit(".pdf");
    reveal_strlit(".svg");
    reveal_strlit(".png");
    reveal_strlit("svg");
    reveal_strlit("png");
    let e = plot_ext(f);
    let rest = e.drop_first();
    assert(e[0] == '.');
    assert(rest[0] != '.');
    assert(without_lead_dots(rest) == rest);
    assert(without_lead_dots(e) == rest);
    match f {
        PlotFormat::Svg => {
            assert(lowered(rest) =~= "svg"@);
        },
        PlotFormat::Png => {
            assert(lowered(rest) =~= "png"@);
            assert("png"@[0] == 'p' && "svg"@[0] == 's');
        },
        PlotFormat::Pdf => {
            assert(lowered(rest)[0] == 'p' && lowered(rest)[1] == 'd');
            assert("png"@[1] == 'n' && "svg"@[0] == 's');
        },
    }
}

/// What was picked is handed on for what the browser was opened for, with its path.
pub proof fn picked_file_is_handed_on(d: DialogView, path: Seq<char>)
    ensures
        d.answer_action(FileDialogMode::ImportTexture, path) == DialogActionView::LoadTexture(path),
        d.answer_action(FileDialogMode::ImportIes, path) == DialogActionView::LoadPhotometry(path),
        d.answer_action(FileDialogMode::ImportHdri, path) == DialogActionView::LoadEnvironment(path),
        d.answer_action(FileDialogMode::ImportRaster, path) == DialogActionView::RasterUnderlay(path),
        d.report_wants_images matches Some(slot) ==> d.answer_action(FileDialogMode::ImportImage, path)
            == DialogActionView::ReportImage(path, slot),
        d.report_wants_images is None ==> d.answer_action(FileDialogMode::ImportImage, path)
            == DialogActionView::TraceImage(path),
        d.texset_target matches Some(i) ==> !d.report_wants_dir && !d.photometry_wants_folder
            ==> d.answer_action(FileDialogMode::PickFolder, path) == DialogActionView::LoadTextureSet(
            i,
            path,
        ),
        d.marks_taken(FileDialogMode::ImportImage).report_wants_images is None,
        !d.marks_taken(FileDialogMode::ImportObj).scene_import_pending,
        !d.marks_taken(FileDialogMode::Open).illuminaire_wants_blocks,
        d.marks_taken(FileDialogMode::Save).wblock_subdoc is None,
        d.report_wants_dir ==> !d.marks_taken(FileDialogMode::PickFolder).report_wants_dir,
{
}

/// Answering and cancelling drop the preview; cancelling also gives up the plot and the plot table it
/// may have been for. The table's own window comes back where it was left for the browser.
pub proof fn answered_browser_is_over(d: DialogView, b: DlgView, name: Seq<char>)
    ensures
        d.answered(b.dir).file_preview is None,
        d.cancelled(b.dir).file_preview is None,
        d.cancelled(b.dir).plotstyle_pst_io is None,
        !d.cancelled(b.dir).plot_pdf_browse,
        d.plot_chosen(b, name).plot_format == plot_format_of(b.ext),
        d.table_chosen(b).plotstyle_pst_io is None,
        d.plotstyle_return_after_sub || d.plotstyle_open ==> d.table_chosen(b).plotstyle_open,
        !d.plotstyle_return_after_sub ==> d.table_chosen(b).plotstyle_open == d.plotstyle_open,
        !d.table_chosen(b).plotstyle_return_after_sub,
{
}

/// The path of a plot is in the folder that was browsed, under its name and with the extension of the
/// plot's format.
pub proof fn plot_path_has_its_format(d: DialogView, b: DlgView, name: Seq<char>)
    requires
        name.len() > 0,
        !name.contains('/'),
        b.dir.len() > 0,
        b.dir.last() != '/',
    ensures
        ({
            let t = d.plot_chosen(b, name);
            &&& parent_dir(t.plot_pdf_path) == b.dir
            &&& begins_with(file_name(t.plot_pdf_path), name)
            &&& ends_in(lowered(file_name(t.plot_pdf_path)), plot_ext(t.plot_format))
        }),
{
    reveal_strlit(".pdf");
    reveal_strlit(".svg");
    reveal_strlit(".png");
    let ext = plot_ext(plot_format_of(b.ext));
    let n = with_ext(name, ext);
    assert(lowered(ext) =~= ext);
    extension_is_added_once(name, ext);
    assert(!n.contains('/')) by {
        if n.contains('/') {
            let i = choose|i: int| 0 <= i < n.len() && n[i] == '/';
            if i < name.len() {
                assert(name[i] == '/');
            } else {
                assert(ext[i - name.len()] == '/');
            }
        }
    }
    crate::paths::joined_path_comes_apart(b.dir, n);
}

/// A folder that was picked for the reports is where they go, and nothing else of the report changes.
pub proof fn reports_go_to_the_picked_folder(s: AppView, now: u64)
    requires
        s.dialog.file_dialog is Some,
        s.dialog.file_dialog->0.mode == FileDialogMode::PickFolder,
        s.dialog.report_wants_dir,
        !s.dialog.plot_pdf_browse,
        s.dialog.plotstyle_pst_io is None,
    ensures
        s.dialog_confirmed(now).report.out_dir == answer_path(s.dialog.file_dialog->0),
        s.dialog_confirmed(now).report.title == s.report.title,
        s.dialog_confirmed(now).report.logos == s.report.logos,
        trimmed(s.dialog.file_dialog->0.filename).len() == 0 ==> s.dialog_confirmed(now).report.out_dir
            == s.dialog.file_dialog->0.dir,
        s.confirm_action() == DialogActionView::Nothing,
{
}

/// Ending a prompt ends it alone, and binding a plot table to a file binds it alone.
pub proof fn prompts_end_alone(s: AppView, file: Option<Seq<char>>)
    ensures
        s.prompt_cleared().cmds.current_prompt.len() == 0,
        s.prompt_cleared().cmds.cmd == s.cmds.cmd,
        s.prompt_cleared().cmds.tool == s.cmds.tool,
        s.prompt_cleared().doc == s.doc,
        s.table_bound(file).dialog.plotstyle_edit_file == file,
        s.table_bound(file).dialog.file_dialog == s.dialog.file_dialog,
        s.table_bound(file).doc == s.doc,
{
}

} // verus!
