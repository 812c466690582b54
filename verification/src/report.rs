//! The lighting report: what it says of each room, the pictures in it, and where it goes.
use vstd::prelude::*;

use crate::app::CadApp;
use crate::copying::{group_views, opt_view, views, Duplicate};
use crate::dialog::ImageSlot;
use crate::light::{Luminaire, LuminaireView, Profile, ProfileView};
use crate::paths::file_stem;
use crate::sorting::{text_first, text_le};
use crate::text::{blank, is_blank, same};

verus! {

/// A picture as it goes into a report.
pub struct Jpeg {
    pub bytes: Vec<u8>,
    pub w: u32,
    pub h: u32,
}

/// The model of a [`Jpeg`].
pub struct JpegView {
    pub bytes: Seq<u8>,
    pub w: u32,
    pub h: u32,
}

impl View for Jpeg {
    type V = JpegView;

    open spec fn view(&self) -> JpegView {
        JpegView { bytes: self.bytes@, w: self.w, h: self.h }
    }
}

/// A picture of a report: where it came from, what is written under it, and the picture itself
/// where it could be read.
pub struct ReportImage {
    pub caption: String,
    pub path: String,
    pub jpeg: Option<Jpeg>,
}

/// The model of a [`ReportImage`].
pub struct ReportImageView {
    pub caption: Seq<char>,
    pub path: Seq<char>,
    pub jpeg: Option<JpegView>,
}

impl View for ReportImage {
    type V = ReportImageView;

    open spec fn view(&self) -> ReportImageView {
        ReportImageView {
            caption: self.caption@,
            path: self.path@,
            jpeg: opt_view(self.jpeg),
        }
    }
}

/// One of the lists of pictures, with the preview of each where there is one.
pub struct Album {
    pub images: Vec<ReportImage>,
    pub tex: Vec<Option<u64>>,
}

/// The model of an [`Album`].
pub struct AlbumView {
    pub images: Seq<ReportImageView>,
    pub tex: Seq<Option<u64>>,
}

impl View for Album {
    type V = AlbumView;

    open spec fn view(&self) -> AlbumView {
        AlbumView { images: views(self.images@), tex: self.tex@ }
    }
}

/// The report dialog: the texts, the three lists of pictures, and which pictures stand in the
/// header, the footer and on the cover. Header and footer name a logo by its place, the cover a
/// cover picture.
pub struct ReportState {
    pub open: bool,
    pub title: String,
    pub file_stem: String,
    pub out_dir: String,
    pub renders: Album,
    pub logos: Album,
    pub covers: Album,
    pub header_image: Option<usize>,
    pub footer_image: Option<usize>,
    pub cover_image: Option<usize>,
    pub prefs_loaded: bool,
    pub tex_dirty: bool,
}

/// The model of a [`ReportState`].
pub struct ReportView {
    pub open: bool,
    pub title: Seq<char>,
    pub file_stem: Seq<char>,
    pub out_dir: Seq<char>,
    pub renders: AlbumView,
    pub logos: AlbumView,
    pub covers: AlbumView,
    pub header_image: Option<usize>,
    pub footer_image: Option<usize>,
    pub cover_image: Option<usize>,
    pub prefs_loaded: bool,
    pub tex_dirty: bool,
}

impl View for ReportState {
    type V = ReportView;

    open spec fn view(&self) -> ReportView {
        ReportView {
            open: self.open,
            title: self.title@,
            file_stem: self.file_stem@,
            out_dir: self.out_dir@,
            renders: self.renders@,
            logos: self.logos@,
            covers: self.covers@,
            header_image: self.header_image,
            footer_image: self.footer_image,
            cover_image: self.cover_image,
            prefs_loaded: self.prefs_loaded,
            tex_dirty: self.tex_dirty,
        }
    }
}

impl AlbumView {
    /// A list without pictures.
    pub open spec fn empty() -> AlbumView {
        AlbumView { images: Seq::empty(), tex: Seq::empty() }
    }

    /// A list with one preview for each picture.
    pub open spec fn wf(self) -> bool {
        self.images.len() == self.tex.len()
    }

    /// The list with one more picture, without a preview yet.
    pub open spec fn added(self, i: ReportImageView) -> AlbumView {
        AlbumView { images: self.images.push(i), tex: self.tex.push(None) }
    }

    /// The list without one picture.
    pub open spec fn removed(self, i: int) -> AlbumView {
        AlbumView {
            images: self.images.remove(i),
            tex: if i < self.tex.len() {
                self.tex.remove(i)
            } else {
                self.tex
            },
        }
    }
}

impl ReportView {
    /// The report dialog as the application starts with it.
    pub open spec fn fresh() -> ReportView {
        ReportView {
            open: false,
            title: Seq::empty(),
            file_stem: Seq::empty(),
            out_dir: Seq::empty(),
            renders: AlbumView::empty(),
            logos: AlbumView::empty(),
            covers: AlbumView::empty(),
            header_image: None,
            footer_image: None,
            cover_image: None,
            prefs_loaded: false,
            tex_dirty: false,
        }
    }

    /// One of the three lists.
    pub open spec fn album(self, slot: ImageSlot) -> AlbumView {
        match slot {
            ImageSlot::Render => self.renders,
            ImageSlot::Logo => self.logos,
            ImageSlot::Cover => self.covers,
        }
    }

    /// With a picture added to one of the three lists.
    pub open spec fn with_image(self, slot: ImageSlot, i: ReportImageView) -> ReportView {
        match slot {
            ImageSlot::Render => ReportView { renders: self.renders.added(i), ..self },
            ImageSlot::Logo => ReportView { logos: self.logos.added(i), ..self },
            ImageSlot::Cover => ReportView { covers: self.covers.added(i), ..self },
        }
    }

    /// Without one of the renders, where there is such a one. Nothing names a render by its place.
    pub open spec fn render_removed(self, i: int) -> ReportView {
        if i < self.renders.images.len() {
            ReportView { renders: self.renders.removed(i), ..self }
        } else {
            self
        }
    }

    /// Without one of the logos, where there is such a one.
    pub open spec fn logo_removed(self, i: int) -> ReportView {
        if i < self.logos.images.len() {
            ReportView {
                logos: self.logos.removed(i),
                header_image: repointed(self.header_image, i),
                footer_image: repointed(self.footer_image, i),
                ..self
            }
        } else {
            self
        }
    }

    /// Without one of the cover pictures, where there is such a one.
    pub open spec fn cover_removed(self, i: int) -> ReportView {
        if i < self.covers.images.len() {
            ReportView {
                covers: self.covers.removed(i),
                cover_image: repointed(self.cover_image, i),
                ..self
            }
        } else {
            self
        }
    }
}

/// A place in a list after item `i` has gone: the same item, or none where it was that one.
pub open spec fn repointed(cur: Option<usize>, i: int) -> Option<usize> {
    match cur {
        Some(c) => if c == i {
            None
        } else if c > i {
            Some((c - 1) as usize)
        } else {
            Some(c)
        },
        None => None,
    }
}

fn repoint(cur: Option<usize>, i: usize) -> (r: Option<usize>)
    ensures
        r == repointed(cur, i as int),
{
    match cur {
        Some(c) => if c == i {
            None
        } else if c > i {
            Some(c - 1)
        } else {
            Some(c)
        },
        None => None,
    }
}

impl Album {
    /// A list without pictures.
    pub fn new() -> (r: Album)
        ensures
            r@ == AlbumView::empty(),
    {
        broadcast use group_views;

        Album { images: Vec::new(), tex: Vec::new() }
    }

    fn add_image(&mut self, i: ReportImage)
        ensures
            final(self)@ == old(self)@.added(i@),
    {
        broadcast use group_views;

        self.images.push(i);
        self.tex.push(None);
    }

    fn remove_image(&mut self, i: usize)
        requires
            i < old(self).images.len(),
        ensures
            final(self)@ == old(self)@.removed(i as int),
    {
        broadcast use group_views;

        self.images.remove(i);
        if i < self.tex.len() {
            self.tex.remove(i);
        }
    }
}

impl ReportState {
    /// The report dialog as the application starts with it.
    pub fn new() -> (r: ReportState)
        ensures
            r@ == ReportView::fresh(),
    {
        ReportState {
            open: false,
            title: String::new(),
            file_stem: String::new(),
            out_dir: String::new(),
            renders: Album::new(),
            logos: Album::new(),
            covers: Album::new(),
            header_image: None,
            footer_image: None,
            cover_image: None,
            prefs_loaded: false,
            tex_dirty: false,
        }
    }

    pub(crate) fn add_image(&mut self, slot: ImageSlot, i: ReportImage)
        ensures
            final(self)@ == old(self)@.with_image(slot, i@),
    {
        match slot {
            ImageSlot::Render => self.renders.add_image(i),
            ImageSlot::Logo => self.logos.add_image(i),
            ImageSlot::Cover => self.covers.add_image(i),
        }
    }

    pub(crate) fn remove_render(&mut self, i: usize)
        ensures
            final(self)@ == old(self)@.render_removed(i as int),
    {
        assert(self@.renders.images.len() == self.renders.images.len());
        if i < self.renders.images.len() {
            self.renders.remove_image(i);
        }
    }

    pub(crate) fn remove_logo(&mut self, i: usize)
        ensures
            final(self)@ == old(self)@.logo_removed(i as int),
    {
        assert(self@.logos.images.len() == self.logos.images.len());
        if i < self.logos.images.len() {
            self.logos.remove_image(i);
            self.header_image = repoint(self.header_image, i);
            self.footer_image = repoint(self.footer_image, i);
        }
    }

    pub(crate) fn remove_cover(&mut self, i: usize)
        ensures
            final(self)@ == old(self)@.cover_removed(i as int),
    {
        assert(self@.covers.images.len() == self.covers.images.len());
        if i < self.covers.images.len() {
            self.covers.remove_image(i);
            self.cover_image = repoint(self.cover_image, i);
        }
    }
}

/// Removing a picture leaves what names another picture naming the same one, and leaves the other
/// two lists alone.
pub proof fn removal_keeps_named_pictures(r: ReportView, i: int, c: usize)
    requires
        0 <= i,
        c != i,
    ensures
        r.header_image == Some(c) && c < r.logos.images.len() ==> {
            let after = r.logo_removed(i);
            &&& after.header_image is Some
            &&& after.header_image->0 < after.logos.images.len()
            &&& after.logos.images[after.header_image->0 as int] == r.logos.images[c as int]
        },
        r.footer_image == Some(c) && c < r.logos.images.len() ==> {
            let after = r.logo_removed(i);
            &&& after.footer_image is Some
            &&& after.footer_image->0 < after.logos.images.len()
            &&& after.logos.images[after.footer_image->0 as int] == r.logos.images[c as int]
        },
        r.cover_image == Some(c) && c < r.covers.images.len() ==> {
            let after = r.cover_removed(i);
            &&& after.cover_image is Some
            &&& after.cover_image->0 < after.covers.images.len()
            &&& after.covers.images[after.cover_image->0 as int] == r.covers.images[c as int]
        },
        r.render_removed(i).logos == r.logos && r.render_removed(i).covers == r.covers,
        r.render_removed(i).header_image == r.header_image && r.render_removed(i).footer_image
            == r.footer_image && r.render_removed(i).cover_image == r.cover_image,
{
}

/// Adding and removing pictures keeps one preview for each picture.
pub proof fn previews_stay_parallel(r: ReportView, slot: ImageSlot, image: ReportImageView, i: int)
    requires
        r.renders.wf() && r.logos.wf() && r.covers.wf(),
        0 <= i,
    ensures
        r.with_image(slot, image).album(slot).wf(),
        r.render_removed(i).renders.wf(),
        r.logo_removed(i).logos.wf(),
        r.cover_removed(i).covers.wf(),
{
}

/// What fittings without a profile are listed as.
pub open spec fn unassigned_label() -> Seq<char> {
    "— no fitting assigned —"@
}

/// The type that a fixture is listed under: its profile, or that it has none.
pub open spec fn fitting_type(profile: Seq<char>) -> Seq<char> {
    if is_blank(profile) {
        unassigned_label()
    } else {
        profile
    }
}

/// A line of the schedule: a type of fitting, how many of it there are, and what its photometric
/// file says of it.
pub struct ScheduleRow {
    pub profile: String,
    pub count: u64,
    pub manufacturer: String,
    pub catalogue: String,
    pub lamp: String,
    pub watts: u64,
    pub lumens: u64,
    pub size: (u64, u64, u64),
}

/// The model of a [`ScheduleRow`].
pub struct RowView {
    pub profile: Seq<char>,
    pub count: u64,
    pub manufacturer: Seq<char>,
    pub catalogue: Seq<char>,
    pub lamp: Seq<char>,
    pub watts: u64,
    pub lumens: u64,
    pub size: (u64, u64, u64),
}

impl View for ScheduleRow {
    type V = RowView;

    open spec fn view(&self) -> RowView {
        RowView {
            profile: self.profile@,
            count: self.count,
            manufacturer: self.manufacturer@,
            catalogue: self.catalogue@,
            lamp: self.lamp@,
            watts: self.watts,
            lumens: self.lumens,
            size: self.size,
        }
    }
}

/// The first profile of a name.
pub open spec fn profile_named(p: Seq<ProfileView>, name: Seq<char>) -> Option<ProfileView>
    decreases p.len(),
{
    if p.len() == 0 {
        None
    } else if p[0].name == name {
        Some(p[0])
    } else {
        profile_named(p.drop_first(), name)
    }
}

/// The first line for a fixture: one of its type, with what its photometric file says.
pub open spec fn new_row(profiles: Seq<ProfileView>, profile: Seq<char>) -> RowView {
    match profile_named(profiles, profile) {
        Some(p) => RowView {
            profile: fitting_type(profile),
            count: 1,
            manufacturer: p.manufacturer,
            catalogue: p.catalogue,
            lamp: p.lamp,
            watts: p.watts,
            lumens: p.lumens,
            size: (p.length, p.width, p.height),
        },
        None => RowView {
            profile: fitting_type(profile),
            count: 1,
            manufacturer: Seq::empty(),
            catalogue: Seq::empty(),
            lamp: Seq::empty(),
            watts: 0,
            lumens: 0,
            size: (0, 0, 0),
        },
    }
}

/// The place of a type among lines.
pub open spec fn row_index(rows: Seq<RowView>, t: Seq<char>) -> Option<int>
    decreases rows.len(),
{
    if rows.len() == 0 {
        None
    } else if rows[0].profile == t {
        Some(0)
    } else {
        match row_index(rows.drop_first(), t) {
            Some(i) => Some(i + 1),
            None => None,
        }
    }
}

proof fn row_index_is_least(rows: Seq<RowView>, t: Seq<char>)
    ensures
        match row_index(rows, t) {
            Some(i) => 0 <= i < rows.len() && rows[i].profile == t && forall|j: int|
                0 <= j < i ==> (#[trigger] rows[j]).profile != t,
            None => forall|j: int| 0 <= j < rows.len() ==> (#[trigger] rows[j]).profile != t,
        },
    decreases rows.len(),
{
    if rows.len() > 0 && rows[0].profile != t {
        let rest = rows.drop_first();
        row_index_is_least(rest, t);
        assert forall|j: int| 0 < j < rows.len() implies (#[trigger] rows[j]) == rest[j - 1] by {}
    }
}

/// The lines for some fixtures, one for each type, in the order in which the types come up.
pub open spec fn gathered(profiles: Seq<ProfileView>, l: Seq<LuminaireView>) -> Seq<RowView>
    decreases l.len(),
{
    if l.len() == 0 {
        Seq::empty()
    } else {
        let rows = gathered(profiles, l.drop_last());
        let p = l.last().profile;
        match row_index(rows, fitting_type(p)) {
            Some(i) => rows.update(
                i,
                RowView { count: (rows[i].count + 1) as u64, ..rows[i] },
            ),
            None => rows.push(new_row(profiles, p)),
        }
    }
}

/// Whether a line comes before another: the type there is more of first, and of equally many the
/// one whose name comes first.
pub open spec fn row_le(a: RowView, b: RowView) -> bool {
    a.count > b.count || a.count == b.count && text_le(a.profile, b.profile)
}

/// Whether lines stand in order.
pub open spec fn rows_sorted(s: Seq<RowView>) -> bool {
    forall|i: int, j: int| 0 <= i <= j < s.len() ==> row_le(#[trigger] s[i], #[trigger] s[j])
}

fn row_first(a: &ScheduleRow, b: &ScheduleRow) -> (r: bool)
    ensures
        r == row_le(a@, b@),
{
    a.count > b.count || a.count == b.count && text_first(a.profile.as_str(), b.profile.as_str())
}

proof fn row_le_laws(a: RowView, b: RowView, c: RowView)
    ensures
        row_le(a, b) || row_le(b, a),
        row_le(a, b) && row_le(b, c) ==> row_le(a, c),
{
    crate::sorting::text_le_total(a.profile, b.profile);
    if text_le(a.profile, b.profile) && text_le(b.profile, c.profile) {
        crate::sorting::text_le_transitive(a.profile, b.profile, c.profile);
    }
}

fn insert_row(v: &mut Vec<ScheduleRow>, x: ScheduleRow)
    requires
        rows_sorted(views(old(v)@)),
    ensures
        rows_sorted(views(final(v)@)),
        views(final(v)@).to_multiset() == views(old(v)@).to_multiset().insert(x@),
{
    let ghost before = views(v@);
    let mut i: usize = 0;
    while i < v.len() && row_first(&v[i], &x)
        invariant
            i <= v.len(),
            before == views(v@),
            v@ == old(v)@,
            forall|k: int| 0 <= k < i ==> row_le(#[trigger] before[k], x@),
        ensures
            i <= v.len(),
            forall|k: int| 0 <= k < i ==> row_le(#[trigger] before[k], x@),
            i < v.len() ==> !row_le(before[i as int], x@),
        decreases v.len() - i,
    {
        assert(before[i as int] == v@[i as int]@);
        i += 1;
    }
    let ghost t = x@;
    v.insert(i, x);
    let ghost after = views(v@);
    assert(after =~= before.insert(i as int, t));
    assert forall|a: int, b: int| 0 <= a <= b < after.len() implies row_le(
        #[trigger] after[a],
        #[trigger] after[b],
    ) by {
        let pa = if a < i {
            a
        } else {
            a - 1
        };
        let pb = if b < i {
            b
        } else {
            b - 1
        };
        if a != i && b != i {
            assert(after[a] == before[pa] && after[b] == before[pb]);
        } else if a == i && b == i {
            row_le_laws(t, t, t);
        } else if b == i {
            assert(after[a] == before[a]);
        } else {
            assert(after[b] == before[pb]);
            assert(row_le(before[i as int], before[pb]));
            row_le_laws(before[i as int], t, t);
            row_le_laws(t, before[i as int], before[pb]);
        }
    }
    proof {
        vstd::seq_lib::to_multiset_insert(before, i as int, t);
    }
}

proof fn gathered_counts(profiles: Seq<ProfileView>, l: Seq<LuminaireView>)
    requires
        l.len() <= u64::MAX,
    ensures
        gathered(profiles, l).len() <= l.len(),
        forall|i: int|
            0 <= i < gathered(profiles, l).len() ==> 1 <= (#[trigger] gathered(
                profiles,
                l,
            )[i]).count <= l.len(),
    decreases l.len(),
{
    if l.len() > 0 {
        gathered_counts(profiles, l.drop_last());
        let rows = gathered(profiles, l.drop_last());
        row_index_is_least(rows, fitting_type(l.last().profile));
    }
}

/// Every type of fitting has one line.
pub proof fn schedule_lists_each_type_once(
    profiles: Seq<ProfileView>,
    l: Seq<LuminaireView>,
    i: int,
    j: int,
)
    requires
        0 <= i < gathered(profiles, l).len(),
        0 <= j < gathered(profiles, l).len(),
        gathered(profiles, l)[i].profile == gathered(profiles, l)[j].profile,
    ensures
        i == j,
    decreases l.len(),
{
    if l.len() > 0 {
        let front = l.drop_last();
        let rows = gathered(profiles, front);
        let t = fitting_type(l.last().profile);
        row_index_is_least(rows, t);
        let all = gathered(profiles, l);
        if i < rows.len() && j < rows.len() {
            assert(rows[i].profile == all[i].profile && rows[j].profile == all[j].profile);
            schedule_lists_each_type_once(profiles, front, i, j);
        } else if i < rows.len() {
            assert(rows[i].profile == all[i].profile);
        } else if j < rows.len() {
            assert(rows[j].profile == all[j].profile);
        }
    }
}

/// How many fixtures are of a type.
pub open spec fn type_count(l: Seq<LuminaireView>, t: Seq<char>) -> nat
    decreases l.len(),
{
    if l.len() == 0 {
        0
    } else {
        type_count(l.drop_last(), t) + if fitting_type(l.last().profile) == t {
            1nat
        } else {
            0nat
        }
    }
}

/// The line of a type counts the fixtures of that type, and a type without a line has none.
pub proof fn schedule_counts_each_type(
    profiles: Seq<ProfileView>,
    l: Seq<LuminaireView>,
    t: Seq<char>,
)
    requires
        l.len() <= u64::MAX,
    ensures
        match row_index(gathered(profiles, l), t) {
            Some(i) => gathered(profiles, l)[i].count == type_count(l, t),
            None => type_count(l, t) == 0,
        },
    decreases l.len(),
{
    if l.len() > 0 {
        let front = l.drop_last();
        let rows = gathered(profiles, front);
        let all = gathered(profiles, l);
        let p = fitting_type(l.last().profile);
        schedule_counts_each_type(profiles, front, t);
        gathered_counts(profiles, front);
        gathered_counts(profiles, l);
        row_index_is_least(rows, p);
        row_index_is_least(rows, t);
        row_index_is_least(all, t);
        if p == t {
            let k = match row_index(rows, p) {
                Some(k) => k,
                None => rows.len() as int,
            };
            assert(all[k].profile == t);
            let i = row_index(all, t)->0;
            schedule_lists_each_type_once(profiles, l, i, k);
        } else {
            match row_index(rows, t) {
                Some(m) => {
                    assert(all[m].profile == t);
                    let i = row_index(all, t)->0;
                    schedule_lists_each_type_once(profiles, l, i, m);
                },
                None => {
                    if row_index(all, t) is Some {
                        let i = row_index(all, t)->0;
                        if i < rows.len() {
                            assert(rows[i].profile == all[i].profile);
                        }
                    }
                },
            }
        }
    }
}

fn find_profile(p: &Vec<Profile>, name: &str) -> (r: Option<usize>)
    ensures
        match r {
            Some(i) => i < p.len() && profile_named(views(p@), name@) == Some(p@[i as int]@),
            None => profile_named(views(p@), name@) is None,
        },
{
    let ghost all = views(p@);
    let mut i: usize = 0;
    assert(all.subrange(0, all.len() as int) =~= all);
    while i < p.len()
        invariant
            i <= p.len(),
            all == views(p@),
            profile_named(all, name@) == profile_named(
                all.subrange(i as int, all.len() as int),
                name@,
            ),
        decreases p.len() - i,
    {
        let ghost tail = all.subrange(i as int, all.len() as int);
        assert(tail[0] == p@[i as int]@);
        assert(tail.drop_first() =~= all.subrange(i + 1, all.len() as int));
        if same(p[i].name.as_str(), name) {
            return Some(i);
        }
        i += 1;
    }
    None
}

fn type_of(profile: &str) -> (r: String)
    ensures
        r@ == fitting_type(profile@),
{
    if blank(profile) {
        String::from_str("— no fitting assigned —")
    } else {
        String::from_str(profile)
    }
}

fn first_row(profiles: &Vec<Profile>, profile: &str) -> (r: ScheduleRow)
    ensures
        r@ == new_row(views(profiles@), profile@),
{
    let name = type_of(profile);
    match find_profile(profiles, profile) {
        Some(i) => {
            let p: &Profile = &profiles[i];
            ScheduleRow {
                profile: name,
                count: 1,
                manufacturer: p.manufacturer.clone(),
                catalogue: p.catalogue.clone(),
                lamp: p.lamp.clone(),
                watts: p.watts,
                lumens: p.lumens,
                size: (p.length, p.width, p.height),
            }
        },
        None => ScheduleRow {
            profile: name,
            count: 1,
            manufacturer: String::new(),
            catalogue: String::new(),
            lamp: String::new(),
            watts: 0,
            lumens: 0,
            size: (0, 0, 0),
        },
    }
}

fn find_row(rows: &Vec<ScheduleRow>, t: &str) -> (r: Option<usize>)
    ensures
        match r {
            Some(i) => row_index(views(rows@), t@) == Some(i as int) && i < rows.len(),
            None => row_index(views(rows@), t@) is None,
        },
{
    let ghost all = views(rows@);
    let mut i: usize = 0;
    while i < rows.len()
        invariant
            i <= rows.len(),
            all == views(rows@),
            forall|j: int| 0 <= j < i ==> (#[trigger] all[j]).profile != t@,
        decreases rows.len() - i,
    {
        if same(rows[i].profile.as_str(), t) {
            proof {
                row_index_is_least(all, t@);
            }
            assert(all[i as int].profile == t@);
            return Some(i);
        }
        i += 1;
    }
    proof {
        row_index_is_least(all, t@);
    }
    None
}

fn gather(profiles: &Vec<Profile>, l: &Vec<Luminaire>) -> (r: Vec<ScheduleRow>)
    ensures
        views(r@) == gathered(views(profiles@), views(l@)),
{
    broadcast use group_views;

    let ghost all = views(l@);
    let ghost ps = views(profiles@);
    let mut rows: Vec<ScheduleRow> = Vec::new();
    let mut i: usize = 0;
    while i < l.len()
        invariant
            i <= l.len(),
            all == views(l@),
            ps == views(profiles@),
            views(rows@) == gathered(ps, all.subrange(0, i as int)),
        decreases l.len() - i,
    {
        let ghost front = all.subrange(0, i as int);
        proof {
            assert(all.subrange(0, i + 1).drop_last() =~= front);
            assert(all.subrange(0, i + 1).last() == l@[i as int]@);
            gathered_counts(ps, front);
        }
        let t = type_of(l[i].profile.as_str());
        match find_row(&rows, t.as_str()) {
            Some(k) => {
                let ghost before = views(rows@);
                assert(before[k as int].count <= front.len());
                let c: u64 = rows[k].count;
                assert(c == before[k as int].count);
                rows[k].count = c + 1;
                assert(views(rows@) =~= before.update(
                    k as int,
                    RowView { count: (before[k as int].count + 1) as u64, ..before[k as int] },
                ));
            },
            None => {
                rows.push(first_row(profiles, l[i].profile.as_str()));
            },
        }
        i += 1;
    }
    assert(all.subrange(0, i as int) =~= all);
    rows
}

impl CadApp {
    /// The fittings of a room, gathered by type: the type there is most of first, and of equally
    /// many the one whose name comes first.
    pub fn schedule_for(&self, fixtures: &Vec<Luminaire>) -> (r: Vec<ScheduleRow>)
        ensures
            rows_sorted(views(r@)),
            views(r@).to_multiset() == gathered(
                self@.light.profiles,
                views(fixtures@),
            ).to_multiset(),
    {
        broadcast use group_views;

        let mut rows = gather(&self.light.profiles, fixtures);
        let ghost all = views(rows@);
        let mut out: Vec<ScheduleRow> = Vec::new();
        let ghost total = all.to_multiset();
        assert(views(out@).to_multiset() =~= vstd::multiset::Multiset::empty()) by {
            broadcast use vstd::seq_lib::group_to_multiset_ensures;

        }
        assert(total =~= views(rows@).to_multiset().add(views(out@).to_multiset()));
        while rows.len() > 0
            invariant
                rows_sorted(views(out@)),
                total == views(rows@).to_multiset().add(views(out@).to_multiset()),
            decreases rows.len(),
        {
            let ghost before = views(rows@);
            let ghost kept = views(out@);
            if let Some(x) = rows.pop() {
                proof {
                    assert(views(rows@) =~= before.drop_last());
                    assert(before =~= before.drop_last().push(x@));
                    before.drop_last().to_multiset_ensures();
                }
                insert_row(&mut out, x);
                assert(total =~= views(rows@).to_multiset().add(views(out@).to_multiset()));
            }
        }
        assert(views(rows@).to_multiset() =~= vstd::multiset::Multiset::empty()) by {
            broadcast use vstd::seq_lib::group_to_multiset_ensures;

        }
        assert(total =~= views(out@).to_multiset());
        out
    }
}

/// A picture that is added is the last of its list; the other pictures and lists stay, and so does
/// what the header, the footer and the cover show.
pub proof fn added_picture_is_the_last(r: ReportView, slot: ImageSlot, image: ReportImageView)
    ensures
        ({
            let t = r.with_image(slot, image);
            &&& t.album(slot).images.len() == r.album(slot).images.len() + 1
            &&& t.album(slot).images.last() == image
            &&& t.album(slot).images.drop_last() == r.album(slot).images
            &&& forall|other: ImageSlot| other != slot ==> t.album(other) == #[trigger] r.album(other)
            &&& t.header_image == r.header_image && t.footer_image == r.footer_image && t.cover_image
                == r.cover_image
            &&& t.title == r.title && t.out_dir == r.out_dir && t.file_stem == r.file_stem
        }),
{
    assert(r.with_image(slot, image).album(slot).images.drop_last() =~= r.album(slot).images);
}

/// Removing a picture removes that one, and the others keep their order. A header, footer or cover
/// that showed it shows none; where there is no such picture, nothing changes.
pub proof fn removed_picture_is_gone(r: ReportView, i: int, k: int)
    requires
        0 <= i,
        0 <= k,
    ensures
        ({
            let a = r.render_removed(i).renders.images;
            let b = r.logo_removed(i).logos.images;
            let c = r.cover_removed(i).covers.images;
            let from = |k: int|
                if k < i {
                    k
                } else {
                    k + 1
                };
            &&& i < r.renders.images.len() ==> a.len() == r.renders.images.len() - 1 && (k < a.len()
                ==> a[k] == r.renders.images[from(k)])
            &&& i < r.logos.images.len() ==> b.len() == r.logos.images.len() - 1 && (k < b.len()
                ==> b[k] == r.logos.images[from(k)])
            &&& i < r.covers.images.len() ==> c.len() == r.covers.images.len() - 1 && (k < c.len()
                ==> c[k] == r.covers.images[from(k)])
            &&& i >= r.renders.images.len() ==> r.render_removed(i) == r
            &&& i >= r.logos.images.len() ==> r.logo_removed(i) == r
            &&& i >= r.covers.images.len() ==> r.cover_removed(i) == r
            &&& i < r.logos.images.len() && i <= usize::MAX && r.header_image == Some(i as usize)
                ==> r.logo_removed(i).header_image is None
            &&& i < r.logos.images.len() && i <= usize::MAX && r.footer_image == Some(i as usize)
                ==> r.logo_removed(i).footer_image is None
            &&& i < r.covers.images.len() && i <= usize::MAX && r.cover_image == Some(i as usize)
                ==> r.cover_removed(i).cover_image is None
        }),
{
}

proof fn profile_named_is_first(p: Seq<ProfileView>, name: Seq<char>)
    ensures
        match profile_named(p, name) {
            Some(q) => q.name == name && p.contains(q),
            None => forall|i: int| 0 <= i < p.len() ==> (#[trigger] p[i]).name != name,
        },
    decreases p.len(),
{
    if p.len() > 0 {
        if p[0].name != name {
            let rest = p.drop_first();
            profile_named_is_first(rest, name);
            match profile_named(rest, name) {
                Some(q) => {
                    let i = choose|i: int| 0 <= i < rest.len() && rest[i] == q;
                    assert(p[i + 1] == q);
                },
                None => {
                    assert forall|i: int| 0 <= i < p.len() implies (#[trigger] p[i]).name != name by {
                        if i > 0 {
                            assert(rest[i - 1] == p[i]);
                        }
                    }
                },
            }
        } else {
            assert(p.contains(p[0]));
        }
    }
}

/// A line of the schedule is of a type that a fixture has, and says of it what the profile of that
/// name says; without such a profile it says nothing but how many there are.
pub proof fn schedule_line_is_of_its_profile(profiles: Seq<ProfileView>, l: Seq<LuminaireView>, i: int)
    requires
        0 <= i < gathered(profiles, l).len(),
    ensures
        ({
            let row = gathered(profiles, l)[i];
            exists|k: int|
                0 <= k < l.len() && fitting_type((#[trigger] l[k]).profile) == row.profile && ({
                    ||| exists|q: ProfileView|
                        #[trigger] profiles.contains(q) && q.name == l[k].profile && row.manufacturer
                            == q.manufacturer && row.catalogue == q.catalogue && row.lamp == q.lamp
                            && row.watts == q.watts && row.lumens == q.lumens && row.size == (
                            q.length,
                            q.width,
                            q.height,
                        )
                    ||| (forall|j: int|
                        0 <= j < profiles.len() ==> (#[trigger] profiles[j]).name != l[k].profile)
                        && row.manufacturer.len() == 0 && row.watts == 0 && row.lumens == 0
                })
        }),
    decreases l.len(),
{
    let front = l.drop_last();
    let rows = gathered(profiles, front);
    let n = l.len() - 1;
    if l.len() > 0 {
        let p = l[n].profile;
        row_index_is_least(rows, fitting_type(p));
        profile_named_is_first(profiles, p);
        if i < rows.len() {
            schedule_line_is_of_its_profile(profiles, front, i);
            let row = rows[i];
            let k = choose|k: int|
                0 <= k < front.len() && fitting_type((#[trigger] front[k]).profile) == row.profile && ({
                    ||| exists|q: ProfileView|
                        #[trigger] profiles.contains(q) && q.name == front[k].profile
                            && row.manufacturer == q.manufacturer && row.catalogue == q.catalogue
                            && row.lamp == q.lamp && row.watts == q.watts && row.lumens == q.lumens
                            && row.size == (q.length, q.width, q.height)
                    ||| (forall|j: int|
                        0 <= j < profiles.len() ==> (#[trigger] profiles[j]).name
                            != front[k].profile) && row.manufacturer.len() == 0 && row.watts == 0
                        && row.lumens == 0
                });
            assert(l[k] == front[k]);
        } else {
            assert(fitting_type(l[n].profile) == gathered(profiles, l)[i].profile);
        }
    }
}

} // verus!
