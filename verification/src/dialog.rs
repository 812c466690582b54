//! The file browser: what it lists, what it is called, and what its answer is for.
use vstd::prelude::*;

use crate::app::{AppView, CadApp};
use crate::copying::opt_view;
use crate::files::ExtraDataStore;
use crate::text::{ends_in, lower_ends_with, lowered};

verus! {

/// What the browser is opened for.
#[derive(Clone, Copy, Debug, PartialEq, Eq, Structural)]
pub enum FileDialogMode {
    Open,
    Save,
    ImportImage,
    ImportRaster,
    ImportTexture,
    ImportHdri,
    ImportObj,
    ImportIes,
    PickFolder,
}

/// The three lists of pictures that a report has.
#[derive(Clone, Copy, Debug, PartialEq, Eq, Structural)]
pub enum ImageSlot {
    Render,
    Logo,
    Cover,
}

/// What a plot is written as.
#[derive(Clone, Copy, Debug, PartialEq, Eq, Structural)]
pub enum PlotFormat {
    Pdf,
    Svg,
    Png,
}

/// The open browser: where it stands, its filter, its two text fields, what it complains of, and
/// whether a saved drawing takes its project data inside.
pub struct FileDialog {
    pub mode: FileDialogMode,
    pub dir: String,
    pub ext: String,
    pub filename: String,
    pub path_buf: String,
    pub error: Option<String>,
    pub embed_extra: bool,
}

/// The model of a [`FileDialog`].
pub struct DlgView {
    pub mode: FileDialogMode,
    pub dir: Seq<char>,
    pub ext: Seq<char>,
    pub filename: Seq<char>,
    pub path_buf: Seq<char>,
    pub error: Option<Seq<char>>,
    pub embed_extra: bool,
}

impl View for FileDialog {
    type V = DlgView;

    open spec fn view(&self) -> DlgView {
        DlgView {
            mode: self.mode,
            dir: self.dir@,
            ext: self.ext@,
            filename: self.filename@,
            path_buf: self.path_buf@,
            error: opt_view(self.error),
            embed_extra: self.embed_extra,
        }
    }
}

/// What a saved file is: a drawing, or a block written out of one.
#[derive(Clone, Copy, Debug, PartialEq, Eq, Structural)]
pub enum SavePurpose {
    Drawing,
    Block,
}

/// The browser and the marks that say who asked for it. `cwd` is the working directory where the
/// system gave one; `plotstyle_pst_io` is set while a table of plot styles is saved (true) or
/// loaded (false); `wblock_subdoc` is the number of objects of a block that waits to be written.
pub struct DialogState {
    pub file_dialog: Option<FileDialog>,
    pub file_dialog_dir: Option<String>,
    pub cwd: Option<String>,
    pub file_preview: Option<String>,
    pub purpose: SavePurpose,
    pub plotstyle_pst_io: Option<bool>,
    pub plotstyle_edit_file: Option<String>,
    pub plotstyle_return_after_sub: bool,
    pub plotstyle_open: bool,
    pub plot_pdf_browse: bool,
    pub plot_format: PlotFormat,
    pub plot_pdf_path: String,
    pub plot_run_after_save: bool,
    pub wblock_subdoc: Option<usize>,
    pub illuminaire_wants_blocks: bool,
    pub report_wants_images: Option<ImageSlot>,
    pub report_wants_dir: bool,
    pub scene_import_pending: bool,
    pub photometry_wants_folder: bool,
    pub texset_target: Option<usize>,
    pub rad_run_after_pick: bool,
}

/// The model of a [`DialogState`].
pub struct DialogView {
    pub file_dialog: Option<DlgView>,
    pub file_dialog_dir: Option<Seq<char>>,
    pub cwd: Option<Seq<char>>,
    pub file_preview: Option<Seq<char>>,
    pub purpose: SavePurpose,
    pub plotstyle_pst_io: Option<bool>,
    pub plotstyle_edit_file: Option<Seq<char>>,
    pub plotstyle_return_after_sub: bool,
    pub plotstyle_open: bool,
    pub plot_pdf_browse: bool,
    pub plot_format: PlotFormat,
    pub plot_pdf_path: Seq<char>,
    pub plot_run_after_save: bool,
    pub wblock_subdoc: Option<usize>,
    pub illuminaire_wants_blocks: bool,
    pub report_wants_images: Option<ImageSlot>,
    pub report_wants_dir: bool,
    pub scene_import_pending: bool,
    pub photometry_wants_folder: bool,
    pub texset_target: Option<usize>,
    pub rad_run_after_pick: bool,
}

impl View for DialogState {
    type V = DialogView;

    open spec fn view(&self) -> DialogView {
        DialogView {
            file_dialog: opt_view(self.file_dialog),
            file_dialog_dir: opt_view(self.file_dialog_dir),
            cwd: opt_view(self.cwd),
            file_preview: opt_view(self.file_preview),
            purpose: self.purpose,
            plotstyle_pst_io: self.plotstyle_pst_io,
            plotstyle_edit_file: opt_view(self.plotstyle_edit_file),
            plotstyle_return_after_sub: self.plotstyle_return_after_sub,
            plotstyle_open: self.plotstyle_open,
            plot_pdf_browse: self.plot_pdf_browse,
            plot_format: self.plot_format,
            plot_pdf_path: self.plot_pdf_path@,
            plot_run_after_save: self.plot_run_after_save,
            wblock_subdoc: self.wblock_subdoc,
            illuminaire_wants_blocks: self.illuminaire_wants_blocks,
            report_wants_images: self.report_wants_images,
            report_wants_dir: self.report_wants_dir,
            scene_import_pending: self.scene_import_pending,
            photometry_wants_folder: self.photometry_wants_folder,
            texset_target: self.texset_target,
            rad_run_after_pick: self.rad_run_after_pick,
        }
    }
}

impl DialogView {
    /// No browser open, and nobody waiting for one.
    pub open spec fn fresh() -> DialogView {
        DialogView {
            file_dialog: None,
            file_dialog_dir: None,
            cwd: None,
            file_preview: None,
            purpose: SavePurpose::Drawing,
            plotstyle_pst_io: None,
            plotstyle_edit_file: None,
            plotstyle_return_after_sub: false,
            plotstyle_open: false,
            plot_pdf_browse: false,
            plot_format: PlotFormat::Pdf,
            plot_pdf_path: Seq::empty(),
            plot_run_after_save: false,
            wblock_subdoc: None,
            illuminaire_wants_blocks: false,
            report_wants_images: None,
            report_wants_dir: false,
            scene_import_pending: false,
            photometry_wants_folder: false,
            texset_target: None,
            rad_run_after_pick: false,
        }
    }
}

impl DialogState {
    /// No browser open, and nobody waiting for one.
    pub fn new() -> (r: DialogState)
        ensures
            r@ == DialogView::fresh(),
    {
        DialogState {
            file_dialog: None,
            file_dialog_dir: None,
            cwd: None,
            file_preview: None,
            purpose: SavePurpose::Drawing,
            plotstyle_pst_io: None,
            plotstyle_edit_file: None,
            plotstyle_return_after_sub: false,
            plotstyle_open: false,
            plot_pdf_browse: false,
            plot_format: PlotFormat::Pdf,
            plot_pdf_path: String::new(),
            plot_run_after_save: false,
            wblock_subdoc: None,
            illuminaire_wants_blocks: false,
            report_wants_images: None,
            report_wants_dir: false,
            scene_import_pending: false,
            photometry_wants_folder: false,
            texset_target: None,
            rad_run_after_pick: false,
        }
    }
}

/// Whether the text from `i` to `j` is one of the alternatives of a filter, which have `|` between
/// them.
pub open spec fn is_alternative(ext: Seq<char>, i: int, j: int) -> bool {
    &&& 0 <= i <= j <= ext.len()
    &&& i == 0 || ext[i - 1] == '|'
    &&& j == ext.len() || ext[j] == '|'
    &&& forall|k: int| i <= k < j ==> ext[k] != '|'
}

/// Whether a name ends in one of the alternatives of a filter that is not empty.
pub open spec fn matches_filter(name: Seq<char>, ext: Seq<char>) -> bool {
    exists|i: int, j: int|
        #![trigger ext.subrange(i, j)]
        is_alternative(ext, i, j) && i < j && ends_in(name, ext.subrange(i, j))
}

/// Whether the browser lists a file, by its mode, its filter and the file's name. A folder pick
/// lists the files that its filter names, to show what is in a folder; without a filter it lists
/// none.
pub open spec fn lists(mode: FileDialogMode, ext: Seq<char>, name: Seq<char>) -> bool {
    let l = lowered(name);
    match mode {
        FileDialogMode::Open => ends_in(l, ".dxf"@) || ends_in(l, ".rsm"@) || ends_in(l, ".dwg"@)
            || ends_in(l, ".pst"@),
        FileDialogMode::ImportImage
        | FileDialogMode::ImportRaster
        | FileDialogMode::ImportTexture => ends_in(l, ".png"@) || ends_in(l, ".jpg"@) || ends_in(
            l,
            ".jpeg"@,
        ) || ends_in(l, ".bmp"@) || ends_in(l, ".tif"@) || ends_in(l, ".tiff"@),
        FileDialogMode::ImportHdri => ends_in(l, ".hdr"@) || ends_in(l, ".exr"@),
        FileDialogMode::ImportObj => ends_in(l, ".obj"@) || ends_in(l, ".3ds"@) || ends_in(
            l,
            ".fbx"@,
        ) || ends_in(l, ".glb"@) || ends_in(l, ".gltf"@),
        FileDialogMode::ImportIes => ends_in(l, ".ies"@) || ends_in(l, ".ldt"@),
        FileDialogMode::Save => ext.len() > 0 && ends_in(l, ext),
        FileDialogMode::PickFolder => matches_filter(l, ext),
    }
}

fn filter_matches(name: &str, ext: &str) -> (r: bool)
    ensures
        r == matches_filter(lowered(name@), ext@),
{
    let n: usize = ext.unicode_len();
    let ghost low = lowered(name@);
    let mut i: usize = 0;
    let mut j: usize = 0;
    while j < n
        invariant
            i <= j <= n,
            n == ext@.len(),
            low == lowered(name@),
            i == 0 || ext@[i - 1] == '|',
            forall|k: int| i <= k < j ==> ext@[k] != '|',
            no_match_before(low, ext@, i as int),
        decreases n - j,
    {
        if ext.get_char(j) == '|' {
            if i < j && lower_ends_with(name, ext.substring_char(i, j)) {
                assert(is_alternative(ext@, i as int, j as int));
                return true;
            }
            proof {
                no_match_in_part(low, ext@, i as int, j as int);
            }
            i = j + 1;
        }
        j += 1;
    }
    if i < n && lower_ends_with(name, ext.substring_char(i, n)) {
        assert(is_alternative(ext@, i as int, n as int));
        return true;
    }
    proof {
        no_match_in_part(low, ext@, i as int, n as int);
    }
    false
}

/// Whether no alternative that starts before `i` matches.
spec fn no_match_before(low: Seq<char>, ext: Seq<char>, i: int) -> bool {
    forall|a: int, b: int|
        #![trigger ext.subrange(a, b)]
        is_alternative(ext, a, b) && a < b && a < i ==> !ends_in(low, ext.subrange(a, b))
}

proof fn no_match_in_part(low: Seq<char>, ext: Seq<char>, i: int, j: int)
    requires
        is_alternative(ext, i, j),
        i < j ==> !ends_in(low, ext.subrange(i, j)),
        no_match_before(low, ext, i),
    ensures
        no_match_before(low, ext, j + 1),
{
    assert forall|a: int, b: int|
        #![trigger ext.subrange(a, b)]
        is_alternative(ext, a, b) && a < b && a < j + 1 implies !ends_in(
        low,
        ext.subrange(a, b),
    ) by {
        if a >= i {
            if a > i {
                assert(ext[a - 1] == '|');
                assert(i <= a - 1 < j);
                assert(false);
            }
            if b > j {
                assert(ext[j] == '|');
                assert(ext[j] != '|');
            } else if b < j {
                assert(ext[b] == '|');
                assert(ext[b] != '|');
            }
        }
    }
}

/// What the folder browser is called, by who asked for it.
pub open spec fn folder_title(d: DialogView) -> Seq<char> {
    if d.report_wants_dir {
        "Choose where the report goes"@
    } else if d.photometry_wants_folder {
        "Choose the folder your .ies / .ldt files are in"@
    } else if d.texset_target is Some {
        "Choose a PBR texture-set folder"@
    } else {
        "Choose output folder  ·  Radiance render"@
    }
}

/// What the browser is called.
pub open spec fn dialog_title(d: DialogView, mode: FileDialogMode) -> Seq<char> {
    match mode {
        FileDialogMode::Open => if d.plotstyle_pst_io == Some(false) {
            "Load Plot Style Table  ·  .pst"@
        } else {
            "Open  .dxf / .rsm / .dwg"@
        },
        FileDialogMode::Save => if d.plotstyle_pst_io == Some(true) {
            "Save Plot Style Table  ·  .pst"@
        } else {
            "Save As"@
        },
        FileDialogMode::ImportImage => "Open Image  ·  raster → vector"@,
        FileDialogMode::ImportRaster => "Open Image  ·  raster underlay"@,
        FileDialogMode::ImportObj => "Import furniture  ·  OBJ / 3DS / FBX / glTF"@,
        FileDialogMode::ImportTexture => "Load texture  ·  PNG / JPG image"@,
        FileDialogMode::ImportHdri => "Load environment  ·  HDR / EXR"@,
        FileDialogMode::ImportIes => "Import light file  ·  IES / EULUMDAT"@,
        FileDialogMode::PickFolder => folder_title(d),
    }
}

impl AppView {
    /// The directory a browser starts in: the last one used, else the working directory, else the
    /// root.
    pub open spec fn start_dir(self) -> Seq<char> {
        match self.dialog.file_dialog_dir {
            Some(d) => d,
            None => match self.dialog.cwd {
                Some(d) => d,
                None => "/"@,
            },
        }
    }

    /// After the browser has been opened.
    pub open spec fn dialog_opened(self, mode: FileDialogMode, ext: Seq<char>) -> AppView {
        AppView {
            dialog: DialogView {
                purpose: if mode == FileDialogMode::Save {
                    SavePurpose::Drawing
                } else {
                    self.dialog.purpose
                },
                file_dialog: Some(
                    DlgView {
                        mode: mode,
                        dir: self.start_dir(),
                        ext: ext,
                        filename: Seq::empty(),
                        path_buf: self.start_dir(),
                        error: None,
                        embed_extra: mode == FileDialogMode::Save && self.files.extra_store
                            == ExtraDataStore::Embedded,
                    },
                ),
                ..self.dialog
            },
            ..self
        }
    }
}

impl CadApp {
    /// Whether the browser lists a file.
    pub fn dialog_lists(mode: FileDialogMode, ext: &str, name: &str) -> (r: bool)
        ensures
            r == lists(mode, ext@, name@),
    {
        match mode {
            FileDialogMode::Open => lower_ends_with(name, ".dxf") || lower_ends_with(name, ".rsm")
                || lower_ends_with(name, ".dwg") || lower_ends_with(name, ".pst"),
            FileDialogMode::ImportImage
            | FileDialogMode::ImportRaster
            | FileDialogMode::ImportTexture => lower_ends_with(name, ".png") || lower_ends_with(
                name,
                ".jpg",
            ) || lower_ends_with(name, ".jpeg") || lower_ends_with(name, ".bmp")
                || lower_ends_with(name, ".tif") || lower_ends_with(name, ".tiff"),
            FileDialogMode::ImportHdri => lower_ends_with(name, ".hdr") || lower_ends_with(
                name,
                ".exr",
            ),
            FileDialogMode::ImportObj => lower_ends_with(name, ".obj") || lower_ends_with(
                name,
                ".3ds",
            ) || lower_ends_with(name, ".fbx") || lower_ends_with(name, ".glb")
                || lower_ends_with(name, ".gltf"),
            FileDialogMode::ImportIes => lower_ends_with(name, ".ies") || lower_ends_with(
                name,
                ".ldt",
            ),
            FileDialogMode::Save => ext.unicode_len() > 0 && lower_ends_with(name, ext),
            FileDialogMode::PickFolder => filter_matches(name, ext),
        }
    }

    /// What the folder browser is called.
    pub fn folder_dialog_title(&self) -> (r: &'static str)
        ensures
            r@ == folder_title(self@.dialog),
    {
        if self.dialog.report_wants_dir {
            "Choose where the report goes"
        } else if self.dialog.photometry_wants_folder {
            "Choose the folder your .ies / .ldt files are in"
        } else if self.dialog.texset_target.is_some() {
            "Choose a PBR texture-set folder"
        } else {
            "Choose output folder  ·  Radiance render"
        }
    }

    /// What the browser is called.
    pub fn file_dialog_title(&self, mode: FileDialogMode) -> (r: &'static str)
        ensures
            r@ == dialog_title(self@.dialog, mode),
    {
        let loads = match self.dialog.plotstyle_pst_io {
            Some(save) => !save,
            None => false,
        };
        let saves = match self.dialog.plotstyle_pst_io {
            Some(save) => save,
            None => false,
        };
        match mode {
            FileDialogMode::Open => if loads {
                "Load Plot Style Table  ·  .pst"
            } else {
                "Open  .dxf / .rsm / .dwg"
            },
            FileDialogMode::Save => if saves {
                "Save Plot Style Table  ·  .pst"
            } else {
                "Save As"
            },
            FileDialogMode::ImportImage => "Open Image  ·  raster → vector",
            FileDialogMode::ImportRaster => "Open Image  ·  raster underlay",
            FileDialogMode::ImportObj => "Import furniture  ·  OBJ / 3DS / FBX / glTF",
            FileDialogMode::ImportTexture => "Load texture  ·  PNG / JPG image",
            FileDialogMode::ImportHdri => "Load environment  ·  HDR / EXR",
            FileDialogMode::ImportIes => "Import light file  ·  IES / EULUMDAT",
            FileDialogMode::PickFolder => self.folder_dialog_title(),
        }
    }

    fn start_dir_text(&self) -> (r: String)
        ensures
            r@ == self@.start_dir(),
    {
        match &self.dialog.file_dialog_dir {
            Some(d) => d.clone(),
            None => match &self.dialog.cwd {
                Some(d) => d.clone(),
                None => String::from_str("/"),
            },
        }
    }

    /// Opens the browser, for the first time in the working directory and later where it was left.
    pub fn open_file_dialog(&mut self, mode: FileDialogMode, ext: &str)
        ensures
            final(self)@ == old(self)@.dialog_opened(mode, ext@),
    {
        let dir = self.start_dir_text();
        let embed = self.files.extra_store == ExtraDataStore::Embedded;
        self.dialog.open(mode, ext, dir, embed);
    }
}

impl DialogState {
    fn open(&mut self, mode: FileDialogMode, ext: &str, dir: String, embed: bool)
        ensures
            final(self)@ == (DialogView {
                purpose: if mode == FileDialogMode::Save {
                    SavePurpose::Drawing
                } else {
                    old(self)@.purpose
                },
                file_dialog: Some(
                    DlgView {
                        mode: mode,
                        dir: dir@,
                        ext: ext@,
                        filename: Seq::empty(),
                        path_buf: dir@,
                        error: None,
                        embed_extra: mode == FileDialogMode::Save && embed,
                    },
                ),
                ..old(self)@
            }),
    {
        let save = mode == FileDialogMode::Save;
        if save {
            self.purpose = SavePurpose::Drawing;
        }
        self.file_dialog = Some(
            FileDialog {
                mode: mode,
                dir: dir.clone(),
                ext: String::from_str(ext),
                filename: String::new(),
                path_buf: dir,
                error: None,
                embed_extra: save && embed,
            },
        );
    }
}

/// A browser opens for what it was asked for, where the last one was, with nothing named and no
/// error. Saving starts out as the saving of the drawing.
pub proof fn browser_opens_as_asked(s: AppView, mode: FileDialogMode, ext: Seq<char>)
    ensures
        ({
            let t = s.dialog_opened(mode, ext);
            &&& t.dialog.file_dialog matches Some(d) && d.mode == mode && d.ext == ext && d.filename.len()
                == 0 && d.error is None && d.path_buf == d.dir && (s.dialog.file_dialog_dir is Some
                ==> d.dir == s.dialog.file_dialog_dir->0) && (s.dialog.file_dialog_dir is None
                && s.dialog.cwd is Some ==> d.dir == s.dialog.cwd->0) && (d.embed_extra <==> mode
                == FileDialogMode::Save && s.files.extra_store == ExtraDataStore::Embedded)
            &&& mode == FileDialogMode::Save ==> t.dialog.purpose == SavePurpose::Drawing
            &&& mode != FileDialogMode::Save ==> t.dialog.purpose == s.dialog.purpose
            &&& t.doc == s.doc && t.files == s.files && t.undo == s.undo
        }),
{
}

/// Whether a browser lists a file does not depend on capitals in its name.
pub proof fn listing_ignores_capitals(mode: FileDialogMode, ext: Seq<char>, a: Seq<char>, b: Seq<char>)
    requires
        lowered(a) == lowered(b),
    ensures
        lists(mode, ext, a) == lists(mode, ext, b),
{
}

/// Drawings are listed to be opened, images to be read, and for saving what ends as the file would.
pub proof fn drawings_are_listed(stem: Seq<char>, ext: Seq<char>)
    ensures
        ext == ".dxf"@ || ext == ".rsm"@ || ext == ".dwg"@ ==> lists(
            FileDialogMode::Open,
            Seq::empty(),
            stem + ext,
        ),
        ext == ".png"@ || ext == ".jpg"@ || ext == ".jpeg"@ || ext == ".bmp"@ ==> lists(
            FileDialogMode::ImportImage,
            Seq::empty(),
            stem + ext,
        ) && lists(FileDialogMode::ImportTexture, Seq::empty(), stem + ext),
        ext == ".ies"@ || ext == ".ldt"@ ==> lists(FileDialogMode::ImportIes, Seq::empty(), stem + ext),
        ext == ".hdr"@ || ext == ".exr"@ ==> lists(FileDialogMode::ImportHdri, Seq::empty(), stem + ext),
        ext.len() > 0 && lowered(ext) == ext ==> lists(FileDialogMode::Save, ext, stem + ext),
{
    reveal_strlit(".dxf");
    reveal_strlit(".rsm");
    reveal_strlit(".dwg");
    reveal_strlit(".png");
    reveal_strlit(".jpg");
    reveal_strlit(".jpeg");
    reveal_strlit(".bmp");
    reveal_strlit(".ies");
    reveal_strlit(".ldt");
    reveal_strlit(".hdr");
    reveal_strlit(".exr");
    let p = lowered(stem + ext);
    assert(p.subrange(p.len() - ext.len(), p.len() as int) =~= lowered(ext));
    assert(lowered(".dxf"@) =~= ".dxf"@);
    assert(lowered(".rsm"@) =~= ".rsm"@);
    assert(lowered(".dwg"@) =~= ".dwg"@);
    assert(lowered(".png"@) =~= ".png"@);
    assert(lowered(".jpg"@) =~= ".jpg"@);
    assert(lowered(".jpeg"@) =~= ".jpeg"@);
    assert(lowered(".bmp"@) =~= ".bmp"@);
    assert(lowered(".ies"@) =~= ".ies"@);
    assert(lowered(".ldt"@) =~= ".ldt"@);
    assert(lowered(".hdr"@) =~= ".hdr"@);
    assert(lowered(".exr"@) =~= ".exr"@);
}

} // verus!
