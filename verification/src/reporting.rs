//! Opening, filling and writing the lighting report.
use vstd::prelude::*;

use crate::app::{AppView, CadApp};
use crate::copying::{copy_all, duplicate_all, group_views, opt_view, views};
use crate::dialog::{FileDialogMode, ImageSlot};
use crate::light::{CalcMode, LightMaterial, LitRoom, LitRoomView, Luminaire, LuminaireView};
use crate::paths::{file_stem, file_stem_of, parent_dir, parent_of};
use crate::pictures::{decoded_wf, render_wf, Decoded, RenderShown};
use crate::report::{
    gathered, rows_sorted, Album, AlbumView, ReportImage, ReportImageView, ReportState, ReportView,
    ScheduleRow,
};
use crate::text::{blank, cat2, cat4, is_blank};

verus! {

/// What the report says of one room: its name, whether it was computed the quick way, the record of
/// its grids, the record of the standard's grid where it holds any value, its fixtures, and its
/// fittings.
pub struct RoomInput {
    pub name: String,
    pub express: bool,
    pub grid: u64,
    pub standard_grid: Option<u64>,
    pub fixtures: Vec<Luminaire>,
    pub schedule: Vec<ScheduleRow>,
}

/// What the report is made from. `surfaces` are the records of the surfaces that were calculated, and
/// `unassigned` counts the fixtures without a fitting.
pub struct ReportInput {
    pub rooms: Vec<RoomInput>,
    pub surfaces: Vec<u64>,
    pub plane_height: i64,
    pub eye_height: i64,
    pub room_height: i64,
    pub maintenance: u32,
    pub materials: Vec<LightMaterial>,
    pub unassigned: usize,
}

/// Whether a part of the report is what a calculated room gives.
pub open spec fn room_input_of(
    r: RoomInput,
    room: LitRoomView,
    mode: Option<CalcMode>,
    profiles: Seq<crate::light::ProfileView>,
) -> bool {
    &&& r.name@ == room.name
    &&& r.express == (mode == Some(CalcMode::Express))
    &&& r.grid == room.record
    &&& r.standard_grid == if room.has_standard_grid {
        Some(room.record)
    } else {
        None
    }
    &&& views(r.fixtures@) == room.fixtures
    &&& rows_sorted(views(r.schedule@))
    &&& views(r.schedule@).to_multiset() == gathered(profiles, room.fixtures).to_multiset()
}

/// How many fixtures have no fitting.
pub open spec fn unassigned_count(l: Seq<LuminaireView>) -> nat
    decreases l.len(),
{
    if l.len() == 0 {
        0
    } else {
        unassigned_count(l.drop_last()) + if is_blank(l.last().profile) {
            1nat
        } else {
            0nat
        }
    }
}

fn count_unassigned(l: &Vec<Luminaire>) -> (n: usize)
    ensures
        n == unassigned_count(views(l@)),
{
    let ghost all = views(l@);
    let mut n: usize = 0;
    let mut i: usize = 0;
    while i < l.len()
        invariant
            i <= l.len(),
            n <= i,
            all == views(l@),
            n == unassigned_count(all.subrange(0, i as int)),
        decreases l.len() - i,
    {
        assert(all.subrange(0, i + 1).drop_last() =~= all.subrange(0, i as int));
        assert(all.subrange(0, i + 1).last() == l@[i as int]@);
        if blank(l[i].profile.as_str()) {
            n += 1;
        }
        i += 1;
    }
    assert(all.subrange(0, i as int) =~= all);
    n
}

impl AppView {
    /// The name a report goes by: that of the drawing, or that it has none.
    pub open spec fn report_name(self) -> Seq<char> {
        match self.files.current_file {
            Some(p) => file_stem(p),
            None => "Untitled"@,
        }
    }

    /// With the report dialog filled in where it was blank, and open.
    pub open spec fn report_filled(self) -> AppView {
        AppView {
            report: ReportView {
                title: if is_blank(self.report.title) {
                    self.report_name()
                } else {
                    self.report.title
                },
                file_stem: if is_blank(self.report.file_stem) {
                    self.report_name() + "-lighting"@
                } else {
                    self.report.file_stem
                },
                out_dir: if is_blank(self.report.out_dir) && self.files.current_file is Some {
                    parent_dir(self.files.current_file->0)
                } else {
                    self.report.out_dir
                },
                open: true,
                ..self.report
            },
            ..self
        }
    }

    /// After the report dialog has been asked for.
    pub open spec fn report_opened(self) -> AppView {
        if !self.light.has_grid {
            self.light_told("Nothing to report — press Calculate first."@)
        } else {
            self.report_filled()
        }
    }
}

impl ReportState {
    fn fill(&mut self, name: String, dir: Option<String>)
        ensures
            final(self)@ == (ReportView {
                title: if is_blank(old(self)@.title) {
                    name@
                } else {
                    old(self)@.title
                },
                file_stem: if is_blank(old(self)@.file_stem) {
                    name@ + "-lighting"@
                } else {
                    old(self)@.file_stem
                },
                out_dir: if is_blank(old(self)@.out_dir) && dir is Some {
                    dir->0@
                } else {
                    old(self)@.out_dir
                },
                open: true,
                ..old(self)@
            }),
    {
        if blank(self.file_stem.as_str()) {
            self.file_stem = cat2(name.as_str(), "-lighting");
        }
        if blank(self.title.as_str()) {
            self.title = name;
        }
        if blank(self.out_dir.as_str()) {
            if let Some(d) = dir {
                self.out_dir = d;
            }
        }
        self.open = true;
    }
}

impl CadApp {
    /// What the report is made from; nothing before anything has been calculated.
    pub fn report_input(&self) -> (r: Option<ReportInput>)
        ensures
            match r {
                None => self@.light.rooms.len() == 0,
                Some(inp) => {
                    &&& self@.light.rooms.len() > 0
                    &&& inp.rooms@.len() == self@.light.rooms.len()
                    &&& forall|i: int|
                        0 <= i < inp.rooms@.len() ==> room_input_of(
                            #[trigger] inp.rooms@[i],
                            self@.light.rooms[i],
                            self@.light.results_mode,
                            self@.light.profiles,
                        )
                    &&& inp.surfaces@ == self@.light.surfaces
                    &&& inp.plane_height == self@.light.plane_height
                    &&& inp.eye_height == self@.light.eye_height
                    &&& inp.room_height == self@.light.room_height
                    &&& inp.maintenance == self@.light.maintenance
                    &&& views(inp.materials@) == self@.light.materials
                    &&& inp.unassigned == unassigned_count(self@.light.luminaires)
                },
            },
    {
        if self.light.rooms.len() == 0 {
            return None;
        }
        let express = match self.light.results_mode {
            Some(CalcMode::Express) => true,
            _ => false,
        };
        let mut rooms: Vec<RoomInput> = Vec::new();
        let mut i: usize = 0;
        while i < self.light.rooms.len()
            invariant
                i <= self.light.rooms.len(),
                rooms.len() == i,
                express == (self@.light.results_mode == Some(CalcMode::Express)),
                forall|k: int|
                    0 <= k < i ==> room_input_of(
                        #[trigger] rooms@[k],
                        self@.light.rooms[k],
                        self@.light.results_mode,
                        self@.light.profiles,
                    ),
            decreases self.light.rooms.len() - i,
        {
            let room: &LitRoom = &self.light.rooms[i];
            assert(self@.light.rooms[i as int] == room@);
            rooms.push(
                RoomInput {
                    name: room.name.clone(),
                    express: express,
                    grid: room.record,
                    standard_grid: if room.has_standard_grid {
                        Some(room.record)
                    } else {
                        None
                    },
                    fixtures: duplicate_all(&room.fixtures),
                    schedule: self.schedule_for(&room.fixtures),
                },
            );
            i += 1;
        }
        Some(
            ReportInput {
                rooms: rooms,
                surfaces: copy_all(&self.light.surfaces),
                plane_height: self.light.plane_height,
                eye_height: self.light.eye_height,
                room_height: self.light.room_height,
                maintenance: self.light.maintenance,
                materials: duplicate_all(&self.light.materials),
                unassigned: count_unassigned(&self.light.luminaires),
            },
        )
    }

    /// The name a report goes by.
    pub fn report_default_name(&self) -> (r: String)
        ensures
            r@ == self@.report_name(),
    {
        match &self.files.current_file {
            Some(p) => String::from_str(file_stem_of(p.as_str())),
            None => String::from_str("Untitled"),
        }
    }

    fn drawing_dir(&self) -> (r: Option<String>)
        ensures
            opt_view(r) == match self@.files.current_file {
                Some(p) => Some(parent_dir(p)),
                None => None,
            },
    {
        match &self.files.current_file {
            Some(p) => Some(String::from_str(parent_of(p.as_str()))),
            None => None,
        }
    }

    fn fill_report(&mut self)
        ensures
            final(self)@ == old(self)@.report_filled(),
    {
        let name = self.report_default_name();
        let dir = self.drawing_dir();
        self.report.fill(name, dir);
    }

    /// Opens the report dialog, filled in with what can be known without asking.
    pub fn export_light_report(&mut self)
        ensures
            final(self)@ == old(self)@.report_opened(),
    {
        if !self.light.has_grid {
            self.tell_light(String::from_str("Nothing to report — press Calculate first."));
        } else {
            self.fill_report();
        }
    }
}

/// What the report dialog asked for in a frame.
#[derive(Clone, Copy, Debug)]
pub struct ReportAction {
    pub browse_dir: bool,
    pub add_images: bool,
    pub add_logos: bool,
    pub add_cover: bool,
    pub remove_image: Option<usize>,
    pub remove_logo: Option<usize>,
    pub remove_cover: Option<usize>,
    pub capture_render: bool,
    pub save: bool,
}

impl AppView {
    /// After the browser has been opened for the directory that reports go to.
    pub open spec fn asked_report_dir(self) -> AppView {
        AppView {
            dialog: crate::dialog::DialogView { report_wants_dir: true, ..self.dialog },
            ..self
        }.dialog_opened(FileDialogMode::PickFolder, Seq::empty())
    }

    /// After the browser has been opened for a picture of one of the lists.
    pub open spec fn asked_report_image(self, slot: ImageSlot) -> AppView {
        AppView {
            dialog: crate::dialog::DialogView { report_wants_images: Some(slot), ..self.dialog },
            ..self
        }.dialog_opened(FileDialogMode::ImportImage, Seq::empty())
    }

    /// With a given state of the report dialog.
    pub open spec fn with_report(self, r: ReportView) -> AppView {
        AppView { report: r, ..self }
    }

    /// After the browsers that the dialog asked for have been opened; the last one stays.
    pub open spec fn report_browsed(self, act: ReportAction) -> AppView {
        let a = if act.browse_dir {
            self.asked_report_dir()
        } else {
            self
        };
        let b = if act.add_images {
            a.asked_report_image(ImageSlot::Render)
        } else {
            a
        };
        let c = if act.add_logos {
            b.asked_report_image(ImageSlot::Logo)
        } else {
            b
        };
        if act.add_cover {
            c.asked_report_image(ImageSlot::Cover)
        } else {
            c
        }
    }

    /// After the pictures that the dialog asked for have been removed.
    pub open spec fn report_pruned(self, act: ReportAction) -> AppView {
        let a = match act.remove_image {
            Some(i) => self.with_report(self.report.render_removed(i as int)),
            None => self,
        };
        let b = match act.remove_logo {
            Some(i) => a.with_report(a.report.logo_removed(i as int)),
            None => a,
        };
        match act.remove_cover {
            Some(i) => b.with_report(b.report.cover_removed(i as int)),
            None => b,
        }
    }

    /// After what the dialog asked for has been carried out.
    pub open spec fn report_acted(self, act: ReportAction, shown: RenderShown, noun: Seq<char>)
        -> AppView {
        let s = self.report_browsed(act).report_pruned(act);
        if act.capture_render {
            s.render_captured(shown, noun)
        } else {
            s
        }
    }
}

impl CadApp {
    fn ask_report_dir(&mut self)
        ensures
            final(self)@ == old(self)@.asked_report_dir(),
    {
        self.dialog.report_wants_dir = true;
        let none = "";
        proof {
            reveal_strlit("");
            assert(none@ =~= Seq::<char>::empty());
        }
        self.open_file_dialog(FileDialogMode::PickFolder, none);
    }

    fn ask_report_image(&mut self, slot: ImageSlot)
        ensures
            final(self)@ == old(self)@.asked_report_image(slot),
    {
        self.dialog.report_wants_images = Some(slot);
        let none = "";
        proof {
            reveal_strlit("");
            assert(none@ =~= Seq::<char>::empty());
        }
        self.open_file_dialog(FileDialogMode::ImportImage, none);
    }

    fn browse_for_report(&mut self, act: ReportAction)
        ensures
            final(self)@ == old(self)@.report_browsed(act),
    {
        if act.browse_dir {
            self.ask_report_dir();
        }
        if act.add_images {
            self.ask_report_image(ImageSlot::Render);
        }
        if act.add_logos {
            self.ask_report_image(ImageSlot::Logo);
        }
        if act.add_cover {
            self.ask_report_image(ImageSlot::Cover);
        }
    }

    /// Drops a render from the report. Nothing names a render by its place, so nothing else moves.
    pub fn report_remove_image(&mut self, i: usize)
        ensures
            final(self)@ == old(self)@.with_report(old(self)@.report.render_removed(i as int)),
    {
        self.report.remove_render(i);
    }

    fn report_remove_logo(&mut self, i: usize)
        ensures
            final(self)@ == old(self)@.with_report(old(self)@.report.logo_removed(i as int)),
    {
        self.report.remove_logo(i);
    }

    fn report_remove_cover(&mut self, i: usize)
        ensures
            final(self)@ == old(self)@.with_report(old(self)@.report.cover_removed(i as int)),
    {
        self.report.remove_cover(i);
    }

    fn prune_report(&mut self, act: ReportAction)
        ensures
            final(self)@ == old(self)@.report_pruned(act),
    {
        if let Some(i) = act.remove_image {
            self.report_remove_image(i);
        }
        if let Some(i) = act.remove_logo {
            self.report_remove_logo(i);
        }
        if let Some(i) = act.remove_cover {
            self.report_remove_cover(i);
        }
    }

    /// Carries out what the report dialog asked for. It returns whether the report is to be
    /// written.
    pub fn apply_report_action(&mut self, act: ReportAction, shown: RenderShown, noun: &str) -> (r:
        bool)
        requires
            render_wf(shown),
        ensures
            final(self)@ == old(self)@.report_acted(act, shown, noun@),
            r == act.save,
    {
        self.browse_for_report(act);
        self.prune_report(act);
        if act.capture_render {
            self.report_capture_render(shown, noun);
        }
        act.save
    }

    /// Reports that the settings a practice keeps could not be saved, where that is so.
    pub fn save_report_prefs(&mut self, outcome: Result<(), String>)
        ensures
            final(self)@ == match outcome {
                Ok(_) => old(self)@,
                Err(e) => old(self)@.said("  ! report settings not saved — "@ + e@),
            },
    {
        match outcome {
            Ok(_) => {},
            Err(e) => self.say(cat2("  ! report settings not saved — ", e.as_str())),
        }
    }

    /// Whether the dialog is shown. One that is open closes where there is nothing to report.
    pub fn report_shown(&mut self) -> (r: bool)
        ensures
            r == (old(self)@.report.open && old(self)@.light.rooms.len() > 0),
            final(self)@ == old(self)@.with_report(ReportView { open: r, ..old(self)@.report }),
    {
        let shown = self.report.open && self.light.rooms.len() > 0;
        self.report.open = shown;
        shown
    }

    /// Takes over whether the dialog is still open. It returns whether its settings are to be kept
    /// now, which is when it closes.
    pub fn report_frame_done(&mut self, open: bool) -> (r: bool)
        ensures
            r == (old(self)@.report.open && !open),
            final(self)@ == old(self)@.with_report(
                ReportView { open: open, ..old(self)@.report },
            ),
    {
        let closes = self.report.open && !open;
        self.report.open = open;
        closes
    }
}

impl AppView {
    /// After the report has been written, or not.
    pub open spec fn report_written_to(self, path: Seq<char>, outcome: Result<(), String>)
        -> AppView {
        match outcome {
            Ok(_) => {
                let msg = "Report written to "@ + path;
                let s = self.said("  "@ + msg).light_told(msg);
                s.with_report(ReportView { open: false, ..s.report })
            },
            Err(e) => {
                let msg = "Could not write "@ + path + ": "@ + e@;
                self.said("  ! "@ + msg).light_told(msg)
            },
        }
    }
}

impl CadApp {
    fn close_report(&mut self)
        ensures
            final(self)@ == old(self)@.with_report(
                ReportView { open: false, ..old(self)@.report },
            ),
    {
        self.report.open = false;
    }

    /// Takes over that the report was written, which closes the dialog, or was not.
    pub fn report_written(&mut self, path: &str, outcome: Result<(), String>)
        ensures
            final(self)@ == old(self)@.report_written_to(path@, outcome),
    {
        match outcome {
            Ok(_) => {
                let msg = cat2("Report written to ", path);
                self.say(cat2("  ", msg.as_str()));
                self.tell_light(msg);
                self.close_report();
            },
            Err(e) => {
                let msg = cat4("Could not write ", path, ": ", e.as_str());
                self.say(cat2("  ! ", msg.as_str()));
                self.tell_light(msg);
            },
        }
    }
}

/// A picture of a section of the report: its bytes and what is written under it.
pub struct SectionPicture {
    pub bytes: Vec<u8>,
    pub caption: String,
}

/// The model of a [`SectionPicture`].
pub struct SectionPictureView {
    pub bytes: Seq<u8>,
    pub caption: Seq<char>,
}

impl View for SectionPicture {
    type V = SectionPictureView;

    open spec fn view(&self) -> SectionPictureView {
        SectionPictureView { bytes: self.bytes@, caption: self.caption@ }
    }
}

/// The renders that could be read.
pub open spec fn readable(images: Seq<ReportImageView>) -> Seq<SectionPictureView>
    decreases images.len(),
{
    if images.len() == 0 {
        Seq::empty()
    } else {
        let rest = readable(images.drop_last());
        match images.last().jpeg {
            Some(j) => rest.push(
                SectionPictureView { bytes: j.bytes, caption: images.last().caption },
            ),
            None => rest,
        }
    }
}

/// The title of a room's section: the room's name, or the report's title where it has none.
pub open spec fn section_title(name: Seq<char>, title: Seq<char>) -> Seq<char> {
    if is_blank(name) {
        title
    } else {
        name
    }
}

/// One room's section of a report in one page: its title and its pictures.
pub struct Section {
    pub title: String,
    pub images: Vec<SectionPicture>,
}

fn readable_pictures(images: &Vec<ReportImage>) -> (r: Vec<SectionPicture>)
    ensures
        views(r@) == readable(views(images@)),
{
    broadcast use group_views;

    let ghost all = views(images@);
    let mut out: Vec<SectionPicture> = Vec::new();
    let mut i: usize = 0;
    while i < images.len()
        invariant
            i <= images.len(),
            all == views(images@),
            views(out@) == readable(all.subrange(0, i as int)),
        decreases images.len() - i,
    {
        assert(all.subrange(0, i + 1).drop_last() =~= all.subrange(0, i as int));
        assert(all.subrange(0, i + 1).last() == images@[i as int]@);
        if let Some(j) = &images[i].jpeg {
            out.push(
                SectionPicture { bytes: copy_all(&j.bytes), caption: images[i].caption.clone() },
            );
        }
        i += 1;
    }
    assert(all.subrange(0, i as int) =~= all);
    out
}

impl CadApp {
    /// The sections of a report in one page: one for each room in their order, with the renders on
    /// the last one, since they belong to the report and not to a room.
    pub fn report_sections(&self) -> (r: Vec<Section>)
        ensures
            r@.len() == self@.light.rooms.len(),
            forall|i: int|
                0 <= i < r@.len() ==> (#[trigger] r@[i]).title@ == section_title(
                    self@.light.rooms[i].name,
                    self@.report.title,
                ) && views(r@[i].images@) == if i == r@.len() - 1 {
                    readable(self@.report.renders.images)
                } else {
                    Seq::empty()
                },
    {
        let n: usize = self.light.rooms.len();
        let mut out: Vec<Section> = Vec::new();
        let mut i: usize = 0;
        while i < n
            invariant
                i <= n,
                n == self.light.rooms.len(),
                out.len() == i,
                forall|k: int|
                    0 <= k < i ==> (#[trigger] out@[k]).title@ == section_title(
                        self@.light.rooms[k].name,
                        self@.report.title,
                    ) && views(out@[k].images@) == if k == n - 1 {
                        readable(self@.report.renders.images)
                    } else {
                        Seq::empty()
                    },
            decreases n - i,
        {
            let name: &String = &self.light.rooms[i].name;
            assert(self@.light.rooms[i as int].name == name@);
            let title = if blank(name.as_str()) {
                self.report.title.clone()
            } else {
                name.clone()
            };
            let images = if i == n - 1 {
                readable_pictures(&self.report.renders.images)
            } else {
                let none: Vec<SectionPicture> = Vec::new();
                assert(views(none@) =~= Seq::<SectionPictureView>::empty());
                none
            };
            out.push(Section { title: title, images: images });
            i += 1;
        }
        out
    }
}

/// A logo that a practice keeps: where it is, what is written under it, and what reading it gave.
pub struct LogoFile {
    pub path: String,
    pub caption: String,
    pub decoded: Result<Decoded, String>,
}

impl AlbumView {
    /// With the caption of the last picture set.
    pub open spec fn last_captioned(self, caption: Seq<char>) -> AlbumView {
        if self.images.len() == 0 {
            self
        } else {
            AlbumView {
                images: self.images.update(
                    self.images.len() - 1,
                    ReportImageView { caption: caption, ..self.images.last() },
                ),
                ..self
            }
        }
    }
}

impl AppView {
    /// After one logo has been read again. One that cannot be read stays in the list without a
    /// picture, so that the setting is not lost with the file.
    #[verifier::opaque]
    pub open spec fn logo_read(self, f: LogoFile, noun: Seq<char>) -> AppView {
        let s = self.picture_added(f.path@, f.decoded, ImageSlot::Logo, noun);
        if s.report.logos.images.len() == self.report.logos.images.len() {
            s.with_picture(
                ImageSlot::Logo,
                ReportImageView { caption: f.caption@, path: f.path@, jpeg: None },
            )
        } else {
            s.with_report(
                ReportView { logos: s.report.logos.last_captioned(f.caption@), ..s.report },
            )
        }
    }

    /// After the first `n` logos have been read again.
    pub open spec fn logos_read(self, files: Seq<LogoFile>, n: int, noun: Seq<char>) -> AppView
        decreases n,
    {
        if n <= 0 {
            self
        } else {
            self.logos_read(files, n - 1, noun).logo_read(files[n - 1], noun)
        }
    }

    /// With no logo in the list.
    pub open spec fn logos_forgotten(self) -> AppView {
        self.with_report(ReportView { logos: AlbumView::empty(), ..self.report })
    }

    /// After the settings that a practice keeps have been read.
    pub open spec fn prefs_loaded(self, files: Seq<LogoFile>, noun: Seq<char>) -> AppView {
        let s = self.logos_forgotten().logos_read(files, files.len() as int, noun);
        s.with_report(ReportView { prefs_loaded: true, ..s.report })
    }
}

impl Album {
    fn caption_last(&mut self, caption: String)
        ensures
            final(self)@ == old(self)@.last_captioned(caption@),
    {
        let n: usize = self.images.len();
        if n > 0 {
            let ghost before = views(self.images@);
            self.images[n - 1].caption = caption;
            assert(views(self.images@) =~= before.update(
                n - 1,
                ReportImageView { caption: caption@, ..before[n - 1] },
            ));
        }
    }
}

impl CadApp {
    fn forget_logos(&mut self)
        ensures
            final(self)@ == old(self)@.logos_forgotten(),
    {
        self.report.logos = Album::new();
    }

    fn caption_logo(&mut self, caption: String)
        ensures
            final(self)@ == old(self)@.with_report(
                ReportView {
                    logos: old(self)@.report.logos.last_captioned(caption@),
                    ..old(self)@.report
                },
            ),
    {
        self.report.logos.caption_last(caption);
    }

    fn logo_count(&self) -> (n: usize)
        ensures
            n == self@.report.logos.images.len(),
    {
        self.report.logos.images.len()
    }

    fn keep_unread_logo(&mut self, path: String, caption: String)
        ensures
            final(self)@ == old(self)@.with_picture(
                ImageSlot::Logo,
                ReportImageView { caption: caption@, path: path@, jpeg: None },
            ),
    {
        self.report.add_image(
            ImageSlot::Logo,
            ReportImage { caption: caption, path: path, jpeg: None },
        );
    }

    fn read_logo(&mut self, f: LogoFile, noun: &str)
        requires
            decoded_wf(f.decoded),
        ensures
            final(self)@ == old(self)@.logo_read(f, noun@),
    {
        reveal(AppView::logo_read);
        let before: usize = self.logo_count();
        let LogoFile { path, caption, decoded } = f;
        let _preview = self.report_add_image(path.as_str(), decoded, ImageSlot::Logo, noun);
        if self.logo_count() == before {
            self.keep_unread_logo(path, caption);
        } else {
            self.caption_logo(caption);
        }
    }

    fn mark_prefs_loaded(&mut self)
        ensures
            final(self)@ == old(self)@.with_report(
                ReportView { prefs_loaded: true, ..old(self)@.report },
            ),
    {
        self.report.prefs_loaded = true;
    }

    fn read_logos(&mut self, files: Vec<LogoFile>, noun: &str)
        requires
            forall|i: int| 0 <= i < files@.len() ==> decoded_wf((#[trigger] files@[i]).decoded),
        ensures
            final(self)@ == old(self)@.logos_read(files@, files@.len() as int, noun@),
    {
        let ghost all = files@;
        let mut rev = reversed(files);
        while rev.len() > 0
            invariant
                rev@.len() <= all.len(),
                forall|i: int| 0 <= i < all.len() ==> decoded_wf((#[trigger] all[i]).decoded),
                forall|i: int|
                    0 <= i < rev@.len() ==> #[trigger] rev@[i] == all[all.len() - 1 - i],
                self@ == old(self)@.logos_read(all, all.len() - rev@.len(), noun@),
            decreases rev.len(),
        {
            let ghost n = rev@.len();
            if let Some(f) = rev.pop() {
                assert(f == all[all.len() - n]);
                self.read_logo(f, noun);
            }
        }
    }

    /// Takes the logos that a practice keeps, as they were read again. The list keeps its length
    /// and order, so the places that the header and the footer name still hold.
    pub fn load_report_prefs(&mut self, files: Vec<LogoFile>, noun: &str)
        requires
            forall|i: int| 0 <= i < files@.len() ==> decoded_wf((#[trigger] files@[i]).decoded),
        ensures
            final(self)@ == old(self)@.prefs_loaded(files@, noun@),
    {
        self.forget_logos();
        self.read_logos(files, noun);
        self.mark_prefs_loaded();
    }
}

proof fn one_more_logo(s: AppView, f: LogoFile, noun: Seq<char>)
    ensures
        ({
            let old = s.report.logos.images;
            let new = s.logo_read(f, noun).report.logos.images;
            &&& new.len() == old.len() + 1
            &&& new.subrange(0, old.len() as int) == old
            &&& new.last().path == f.path@
            &&& new.last().caption == f.caption@
        }),
{
    reveal(AppView::logo_read);
    reveal(AppView::said);
    let old_images = s.report.logos.images;
    let new_images = s.logo_read(f, noun).report.logos.images;
    assert(new_images.subrange(0, old_images.len() as int) =~= old_images);
}

proof fn logos_in_places(s: AppView, files: Seq<LogoFile>, n: int, noun: Seq<char>)
    requires
        0 <= n <= files.len(),
        s.report.logos.images.len() == 0,
    ensures
        ({
            let logos = s.logos_read(files, n, noun).report.logos.images;
            &&& logos.len() == n
            &&& forall|i: int|
                0 <= i < n ==> (#[trigger] logos[i]).path == files[i].path@ && logos[i].caption
                    == files[i].caption@
        }),
    decreases n,
{
    if n > 0 {
        logos_in_places(s, files, n - 1, noun);
        let before = s.logos_read(files, n - 1, noun);
        one_more_logo(before, files[n - 1], noun);
        let logos = s.logos_read(files, n, noun).report.logos.images;
        assert forall|i: int| 0 <= i < n - 1 implies (#[trigger] logos[i])
            == before.report.logos.images[i] by {
            assert(logos.subrange(0, n - 1)[i] == logos[i]);
        }
    }
}

/// The logos that a practice keeps come back in their places with their captions, those that could
/// not be read too.
pub proof fn logos_keep_their_places(s: AppView, files: Seq<LogoFile>, noun: Seq<char>)
    ensures
        ({
            let logos = s.prefs_loaded(files, noun).report.logos.images;
            &&& logos.len() == files.len()
            &&& forall|i: int|
                0 <= i < files.len() ==> (#[trigger] logos[i]).path == files[i].path@
                    && logos[i].caption == files[i].caption@
        }),
{
    logos_in_places(s.logos_forgotten(), files, files.len() as int, noun);
}

fn reversed(files: Vec<LogoFile>) -> (r: Vec<LogoFile>)
    ensures
        r@.len() == files@.len(),
        forall|i: int| 0 <= i < r@.len() ==> #[trigger] r@[i] == files@[files@.len() - 1 - i],
{
    let ghost all = files@;
    let mut rest = files;
    let mut out: Vec<LogoFile> = Vec::new();
    while rest.len() > 0
        invariant
            rest@.len() + out@.len() == all.len(),
            rest@ == all.subrange(0, rest@.len() as int),
            forall|i: int| 0 <= i < out@.len() ==> #[trigger] out@[i] == all[all.len() - 1 - i],
        decreases rest.len(),
    {
        let ghost n = rest@.len();
        if let Some(f) = rest.pop() {
            assert(f == all[n - 1]);
            out.push(f);
            assert(rest@ =~= all.subrange(0, n - 1));
        }
    }
    out
}

/// Opening the report fills in what was left blank and keeps what was typed; without results it
/// does not open.
pub proof fn opened_report_keeps_what_was_typed(s: AppView)
    ensures
        s.light.has_grid ==> {
            let t = s.report_opened();
            &&& t.report.open
            &&& !is_blank(s.report.title) ==> t.report.title == s.report.title
            &&& !is_blank(s.report.file_stem) ==> t.report.file_stem == s.report.file_stem
            &&& !is_blank(s.report.out_dir) ==> t.report.out_dir == s.report.out_dir
            &&& s.files.current_file matches Some(p) ==> {
                &&& is_blank(s.report.title) ==> t.report.title == file_stem(p)
                &&& is_blank(s.report.file_stem) ==> t.report.file_stem == file_stem(p)
                    + "-lighting"@
                &&& is_blank(s.report.out_dir) ==> t.report.out_dir == parent_dir(p)
            }
            &&& t.report.renders == s.report.renders && t.report.logos == s.report.logos
                && t.report.covers == s.report.covers
        },
        !s.light.has_grid ==> s.report_opened().report == s.report,
        s.report_opened().doc == s.doc,
        s.report_opened().files == s.files,
        s.report_opened().light.rooms == s.light.rooms,
{
}

/// The report's window closes once the report has been written, and stays open, with all that was
/// entered, where that failed.
pub proof fn report_closes_once_written(s: AppView, path: Seq<char>, outcome: Result<(), String>)
    ensures
        outcome is Ok ==> !s.report_written_to(path, outcome).report.open,
        outcome is Err ==> s.report_written_to(path, outcome).report == s.report,
        s.report_written_to(path, outcome).report.title == s.report.title,
        s.report_written_to(path, outcome).report.renders == s.report.renders,
        s.report_written_to(path, outcome).history.len() == s.history.len() + 1,
        s.report_written_to(path, outcome).doc == s.doc,
        s.report_written_to(path, outcome).files == s.files,
{
    reveal(AppView::said);
}

/// Whether a picture of a section is one of a list's, with its bytes and its caption.
pub open spec fn is_picture_of(p: SectionPictureView, i: ReportImageView) -> bool {
    &&& i.jpeg is Some
    &&& (i.jpeg->0).bytes == p.bytes
    &&& i.caption == p.caption
}

/// The pictures of a section are those that could be read, in their order, each with its caption.
pub proof fn section_shows_the_readable_pictures(images: Seq<ReportImageView>, i: int)
    requires
        0 <= i < images.len(),
    ensures
        readable(images).len() <= images.len(),
        images[i].jpeg matches Some(j) ==> readable(images).contains(
            SectionPictureView { bytes: j.bytes, caption: images[i].caption },
        ),
        (forall|m: int| 0 <= m < images.len() ==> (#[trigger] images[m]).jpeg is Some)
            ==> readable(images).len() == images.len() && readable(images)[i].caption
            == images[i].caption && readable(images)[i].bytes == (images[i].jpeg->0).bytes,
    decreases images.len(),
{
    let front = images.drop_last();
    let rest = readable(front);
    let all = readable(images);
    let n = images.len() - 1;
    if n > 0 {
        section_shows_the_readable_pictures(
            front,
            if i < n {
                i
            } else {
                0
            },
        );
    }
    if i < n {
        assert(front[i] == images[i]);
        match images[i].jpeg {
            Some(j) => {
                let p = SectionPictureView { bytes: j.bytes, caption: images[i].caption };
                let k = choose|k: int| 0 <= k < rest.len() && rest[k] == p;
                assert(all[k] == p);
            },
            None => {},
        }
    } else {
        match images[n].jpeg {
            Some(j) => {
                assert(all.last() == SectionPictureView { bytes: j.bytes, caption: images[n].caption });
            },
            None => {},
        }
    }
    if forall|m: int| 0 <= m < images.len() ==> (#[trigger] images[m]).jpeg is Some {
        assert(images[n].jpeg is Some);
        assert forall|m: int| 0 <= m < front.len() implies (#[trigger] front[m]).jpeg is Some by {
            assert(images[m].jpeg is Some);
        }
    }
}

/// The count of fixtures without a type is that of the fixtures whose profile is blank.
pub proof fn fixtures_without_a_type_are_counted(l: Seq<LuminaireView>)
    ensures
        unassigned_count(l) <= l.len(),
        unassigned_count(l) == 0 <==> forall|i: int|
            0 <= i < l.len() ==> !is_blank((#[trigger] l[i]).profile),
        unassigned_count(l) == l.len() <==> forall|i: int|
            0 <= i < l.len() ==> is_blank((#[trigger] l[i]).profile),
    decreases l.len(),
{
    if l.len() > 0 {
        let front = l.drop_last();
        fixtures_without_a_type_are_counted(front);
        assert(forall|i: int| 0 <= i < front.len() ==> front[i] == #[trigger] l[i]);
        if forall|i: int| 0 <= i < l.len() ==> !is_blank((#[trigger] l[i]).profile) {
            assert(forall|i: int| 0 <= i < front.len() ==> !is_blank((#[trigger] front[i]).profile));
            assert(!is_blank(l[l.len() - 1].profile));
        }
        if forall|i: int| 0 <= i < l.len() ==> is_blank((#[trigger] l[i]).profile) {
            assert(forall|i: int| 0 <= i < front.len() ==> is_blank((#[trigger] front[i]).profile));
            assert(is_blank(l[l.len() - 1].profile));
        }
    }
}

/// Each picture of a section is one of the list's that could be read, at its place or behind it.
pub proof fn section_pictures_are_of_the_list(images: Seq<ReportImageView>, k: int)
    requires
        0 <= k < readable(images).len(),
    ensures
        exists|m: int|
            k <= m < images.len() && #[trigger] is_picture_of(readable(images)[k], images[m]),
    decreases images.len(),
{
    let front = images.drop_last();
    let rest = readable(front);
    let all = readable(images);
    let n = images.len() - 1;
    readable_are_no_more(front);
    if k < rest.len() {
        section_pictures_are_of_the_list(front, k);
        let m = choose|m: int| k <= m < front.len() && #[trigger] is_picture_of(rest[k], front[m]);
        assert(all[k] == rest[k]);
        assert(is_picture_of(all[k], images[m]));
    } else {
        assert(is_picture_of(all[k], images[n]));
    }
}

proof fn readable_are_no_more(images: Seq<ReportImageView>)
    ensures
        readable(images).len() <= images.len(),
    decreases images.len(),
{
    if images.len() > 0 {
        readable_are_no_more(images.drop_last());
    }
}

/// A browser that the report opens is for what was asked; without such a question it stays as it is.
pub proof fn report_browser_is_for_what_was_asked(s: AppView, act: ReportAction)
    ensures
        ({
            let a = s.report_browsed(act);
            &&& a.report == s.report && a.doc == s.doc
            &&& act.browse_dir ==> a.dialog.report_wants_dir
            &&& act.browse_dir && !act.add_images && !act.add_logos && !act.add_cover
                ==> (a.dialog.file_dialog matches Some(d) && d.mode == FileDialogMode::PickFolder)
            &&& act.add_cover ==> a.dialog.report_wants_images == Some(ImageSlot::Cover)
            &&& act.add_logos && !act.add_cover ==> a.dialog.report_wants_images == Some(ImageSlot::Logo)
            &&& act.add_images && !act.add_logos && !act.add_cover ==> a.dialog.report_wants_images
                == Some(ImageSlot::Render)
            &&& act.add_images || act.add_logos || act.add_cover ==> (a.dialog.file_dialog matches Some(d)
                && d.mode == FileDialogMode::ImportImage)
            &&& !act.browse_dir && !act.add_images && !act.add_logos && !act.add_cover ==> a == s
        }),
{
}

/// Each removal from the report removes what it says, and nothing else.
pub proof fn report_actions_do_what_they_say(s: AppView, act: ReportAction)
    ensures
        ({
            let b = s.report_pruned(act);
            &&& act.remove_image is None ==> b.report.renders == s.report.renders
            &&& act.remove_logo is None ==> b.report.logos == s.report.logos && b.report.header_image
                == s.report.header_image && b.report.footer_image == s.report.footer_image
            &&& act.remove_cover is None ==> b.report.covers == s.report.covers && b.report.cover_image
                == s.report.cover_image
            &&& act.remove_image matches Some(i) ==> i < s.report.renders.images.len()
                ==> b.report.renders.images == s.report.renders.images.remove(i as int)
            &&& act.remove_logo matches Some(i) ==> i < s.report.logos.images.len()
                ==> b.report.logos.images == s.report.logos.images.remove(i as int)
            &&& act.remove_cover matches Some(i) ==> i < s.report.covers.images.len()
                ==> b.report.covers.images == s.report.covers.images.remove(i as int)
            &&& b.report.title == s.report.title && b.dialog == s.dialog && b.doc == s.doc
        }),
        !act.capture_render ==> s.report_acted(act, RenderShown::NoJob, Seq::empty()).report
            == s.report_pruned(act).report,
{
}

/// A section is headed by its room's name, or by the report's title where the room has none.
pub proof fn sections_are_headed(name: Seq<char>, title: Seq<char>)
    ensures
        !is_blank(name) ==> section_title(name, title) == name,
        is_blank(name) ==> section_title(name, title) == title,
{
}

/// A logo that could not be read keeps its place without a picture.
pub proof fn unread_logo_has_no_picture(s: AppView, f: LogoFile, noun: Seq<char>)
    ensures
        f.decoded is Err ==> s.logo_read(f, noun).report.logos.images.len()
            == s.report.logos.images.len() + 1 && s.logo_read(f, noun).report.logos.images.last().jpeg
            is None && s.logo_read(f, noun).report.logos.images.last().path == f.path@,
        s.logo_read(f, noun).report.renders == s.report.renders,
        s.logo_read(f, noun).report.covers == s.report.covers,
{
    reveal(AppView::logo_read);
    reveal(AppView::said);
}

} // verus!
