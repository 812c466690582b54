//! The pictures of a report: laid on white paper, made small enough to print, and encoded.
use vstd::prelude::*;

use crate::app::{AppView, CadApp};
use crate::copying::opt_view;
use crate::dialog::ImageSlot;
use crate::paths::{file_stem, file_stem_of};
use crate::report::{Jpeg, JpegView, ReportImage, ReportImageView, ReportView};
use crate::single::{share_grows, share_is_bounded, single_share, single_share_of};
use crate::text::{cat4, cat5, dec, dec_text};

verus! {

/// The widest and the highest a picture in a report is, in pixels.
pub const MAX_SIDE: u32 = 1600;

/// How well a picture in a report is kept, of a hundred.
pub const JPEG_QUALITY: u8 = 88;

/// Pixels of three bytes each.
pub struct Rgb8 {
    pub w: u32,
    pub h: u32,
    pub bytes: Vec<u8>,
}

/// The model of an [`Rgb8`].
pub struct Rgb8View {
    pub w: u32,
    pub h: u32,
    pub bytes: Seq<u8>,
}

impl View for Rgb8 {
    type V = Rgb8View;

    open spec fn view(&self) -> Rgb8View {
        Rgb8View { w: self.w, h: self.h, bytes: self.bytes@ }
    }
}

impl Rgb8View {
    /// A picture with three bytes for each of its pixels.
    pub open spec fn wf(self) -> bool {
        self.bytes.len() == self.w * self.h * 3
    }
}

/// One channel of a pixel over white paper, by how opaque the pixel is.
pub open spec fn over_white(c: u8, a: u8) -> u8 {
    ((c * a + 255 * (255 - a)) / 255) as u8
}

/// Pixels of four bytes over white paper, as pixels of three.
pub open spec fn on_white(rgba: Seq<u8>) -> Seq<u8>
    decreases rgba.len(),
{
    if rgba.len() < 4 {
        Seq::empty()
    } else {
        let n = rgba.len() / 4 * 4;
        let p = rgba.subrange(n - 4, n as int);
        on_white(rgba.subrange(0, n - 4)) + seq![
            over_white(p[0], p[3]),
            over_white(p[1], p[3]),
            over_white(p[2], p[3]),
        ]
    }
}

/// Pixels of four bytes without their fourth.
pub open spec fn without_alpha(rgba: Seq<u8>) -> Seq<u8>
    decreases rgba.len(),
{
    if rgba.len() < 4 {
        Seq::empty()
    } else {
        let n = rgba.len() / 4 * 4;
        let p = rgba.subrange(n - 4, n as int);
        without_alpha(rgba.subrange(0, n - 4)) + seq![p[0], p[1], p[2]]
    }
}

fn blend(c: u8, a: u8) -> (r: u8)
    ensures
        r == over_white(c, a),
{
    proof {
        over_white_is_a_byte(c, a);
    }
    let x: u32 = (c as u32 * a as u32 + 255 * (255 - a as u32)) / 255;
    x as u8
}

proof fn over_white_is_a_byte(c: u8, a: u8)
    ensures
        0 <= c * a <= 255 * a,
        0 <= (c * a + 255 * (255 - a)) / 255 <= 255,
{
    assert(0 <= c * a <= 255 * a) by (nonlinear_arith)
        requires
            0 <= c <= 255,
            0 <= a,
    ;
}

/// An opaque pixel keeps its colour on white paper, and one that is not there at all shows the
/// paper.
pub proof fn paper_shows_through(c: u8)
    ensures
        over_white(c, 255) == c,
        over_white(c, 0) == 255,
{
}

proof fn pixels_step(rgba: Seq<u8>, i: int)
    requires
        0 <= i,
        4 * i + 4 <= rgba.len(),
    ensures
        ({
            let front = rgba.subrange(0, 4 * i);
            let more = rgba.subrange(0, 4 * i + 4);
            &&& on_white(more) == on_white(front) + seq![
                over_white(rgba[4 * i], rgba[4 * i + 3]),
                over_white(rgba[4 * i + 1], rgba[4 * i + 3]),
                over_white(rgba[4 * i + 2], rgba[4 * i + 3]),
            ]
            &&& without_alpha(more) == without_alpha(front) + seq![
                rgba[4 * i],
                rgba[4 * i + 1],
                rgba[4 * i + 2],
            ]
        }),
{
    let front = rgba.subrange(0, 4 * i);
    let more = rgba.subrange(0, 4 * i + 4);
    assert(more.len() / 4 * 4 == more.len());
    assert(more.subrange(0, more.len() - 4) =~= front);
}

proof fn pixels_cut(rgba: Seq<u8>)
    ensures
        on_white(rgba) == on_white(rgba.subrange(0, (rgba.len() / 4 * 4) as int)),
        without_alpha(rgba) == without_alpha(rgba.subrange(0, (rgba.len() / 4 * 4) as int)),
{
    let n = rgba.len() / 4 * 4;
    let cut = rgba.subrange(0, n as int);
    if rgba.len() >= 4 {
        assert(cut.len() / 4 * 4 == n);
        assert(cut.subrange(n - 4, n as int) =~= rgba.subrange(n - 4, n as int));
        assert(cut.subrange(0, n - 4) =~= rgba.subrange(0, n - 4));
    }
}

/// How many bytes pixels of four bytes leave, as pixels of three.
pub proof fn three_of_four(rgba: Seq<u8>)
    ensures
        on_white(rgba).len() == rgba.len() / 4 * 3,
        without_alpha(rgba).len() == rgba.len() / 4 * 3,
    decreases rgba.len(),
{
    if rgba.len() >= 4 {
        let n = rgba.len() / 4 * 4;
        three_of_four(rgba.subrange(0, n - 4));
    }
}

/// Lays pixels of four bytes on white paper.
pub fn lay_on_white(rgba: &Vec<u8>) -> (r: Vec<u8>)
    ensures
        r@ == on_white(rgba@),
{
    let n: usize = rgba.len() / 4;
    let mut out: Vec<u8> = Vec::new();
    let mut i: usize = 0;
    while i < n
        invariant
            i <= n,
            n == rgba.len() / 4,
            out@ == on_white(rgba@.subrange(0, 4 * i)),
        decreases n - i,
    {
        let a: u8 = rgba[4 * i + 3];
        let ghost before = out@;
        out.push(blend(rgba[4 * i], a));
        out.push(blend(rgba[4 * i + 1], a));
        out.push(blend(rgba[4 * i + 2], a));
        proof {
            pixels_step(rgba@, i as int);
            assert(out@ =~= before + seq![
                over_white(rgba@[4 * i], rgba@[4 * i + 3]),
                over_white(rgba@[4 * i + 1], rgba@[4 * i + 3]),
                over_white(rgba@[4 * i + 2], rgba@[4 * i + 3]),
            ]);
        }
        i += 1;
    }
    proof {
        pixels_cut(rgba@);
    }
    out
}

/// Drops the fourth byte of pixels of four.
pub fn drop_alpha(rgba: &Vec<u8>) -> (r: Vec<u8>)
    ensures
        r@ == without_alpha(rgba@),
{
    let n: usize = rgba.len() / 4;
    let mut out: Vec<u8> = Vec::new();
    let mut i: usize = 0;
    while i < n
        invariant
            i <= n,
            n == rgba.len() / 4,
            out@ == without_alpha(rgba@.subrange(0, 4 * i)),
        decreases n - i,
    {
        let ghost before = out@;
        out.push(rgba[4 * i]);
        out.push(rgba[4 * i + 1]);
        out.push(rgba[4 * i + 2]);
        proof {
            pixels_step(rgba@, i as int);
            assert(out@ =~= before + seq![rgba@[4 * i], rgba@[4 * i + 1], rgba@[4 * i + 2]]);
        }
        i += 1;
    }
    proof {
        pixels_cut(rgba@);
    }
    out
}

/// What [`resize_rgb`] makes of pixels: the picture at another size.
pub uninterp spec fn resized_rgb(rgb: Seq<u8>, w: u32, h: u32, nw: u32, nh: u32) -> Seq<u8>;

/// What [`encode_jpeg`] makes of pixels: the file's bytes, or why there are none.
pub uninterp spec fn jpeg_encoded(rgb: Seq<u8>, w: u32, h: u32, quality: u8) -> Result<
    Seq<u8>,
    Seq<char>,
>;

/// Calls `imageops::resize` of the `image` crate with its triangle filter, on a picture made by
/// `RgbImage::from_raw`. It is trusted to depend on the pixels and the two sizes alone, and to
/// give three bytes for every pixel of the new size.
#[verifier::external_body]
fn resize_rgb(rgb: Vec<u8>, w: u32, h: u32, nw: u32, nh: u32) -> (r: Vec<u8>)
    requires
        rgb@.len() == w * h * 3,
        1 <= nw <= MAX_SIDE,
        1 <= nh <= MAX_SIDE,
    ensures
        r@ == resized_rgb(rgb@, w, h, nw, nh),
        r@.len() == nw * nh * 3,
{
    let src = image::RgbImage::from_raw(w, h, rgb).expect("the buffer holds the picture");
    image::imageops::resize(&src, nw, nh, image::imageops::FilterType::Triangle).into_raw()
}

/// The encoder's answer on a picture, as it is handed on.
pub open spec fn encoded_view(r: Result<Vec<u8>, String>) -> Result<Seq<u8>, Seq<char>> {
    match r {
        Ok(b) => Ok(b@),
        Err(e) => Err(e@),
    }
}

/// Calls `encode` of the `image` crate's `JpegEncoder` for pixels of three bytes. It is trusted to
/// depend on the pixels, the size and the quality alone, and to fail exactly where a side is zero
/// or does not fit into sixteen bits.
#[verifier::external_body]
fn encode_jpeg(rgb: &Vec<u8>, w: u32, h: u32, quality: u8) -> (r: Result<Vec<u8>, String>)
    requires
        rgb@.len() == w * h * 3,
    ensures
        encoded_view(r) == jpeg_encoded(rgb@, w, h, quality),
        (r is Ok) == (w >= 1 && w <= 65535 && h >= 1 && h <= 65535),
{
    let mut out: Vec<u8> = Vec::new();
    let mut enc = image::codecs::jpeg::JpegEncoder::new_with_quality(&mut out, quality);
    match enc.encode(rgb, w, h, image::ExtendedColorType::Rgb8) {
        Ok(()) => Ok(out),
        Err(e) => Err(e.to_string()),
    }
}

/// A side of a picture of `w` by `h` pixels that is made to fit: in proportion, as single precision
/// gives it, and never nothing.
pub open spec fn fitted_side(side: u32, w: u32, h: u32) -> nat {
    let most = if w > h {
        w
    } else {
        h
    };
    let s = single_share(side as nat, MAX_SIDE as nat, most as nat);
    if s < 1 {
        1
    } else {
        s
    }
}

/// A picture as it goes into a report: at its own size, or made to fit.
pub open spec fn fitted(p: Rgb8View) -> Rgb8View {
    if p.w > MAX_SIDE || p.h > MAX_SIDE {
        let nw = fitted_side(p.w, p.w, p.h) as u32;
        let nh = fitted_side(p.h, p.w, p.h) as u32;
        Rgb8View { w: nw, h: nh, bytes: resized_rgb(p.bytes, p.w, p.h, nw, nh) }
    } else {
        p
    }
}

/// A picture that has been made to fit is no wider and no higher than a report shows, and keeps
/// its longer side the longer one.
pub proof fn fitted_pictures_fit(p: Rgb8View)
    requires
        p.wf(),
    ensures
        fitted(p).w <= MAX_SIDE && fitted(p).h <= MAX_SIDE,
        p.w <= MAX_SIDE && p.h <= MAX_SIDE ==> fitted(p) == p,
        p.w >= p.h ==> fitted(p).w >= fitted(p).h,
        p.w <= p.h ==> fitted(p).w <= fitted(p).h,
        p.w > 0 && p.h > 0 ==> fitted(p).w > 0 && fitted(p).h > 0,
{
    if p.w > MAX_SIDE || p.h > MAX_SIDE {
        let most = if p.w > p.h {
            p.w
        } else {
            p.h
        };
        share_is_bounded(p.w as nat, MAX_SIDE as nat, most as nat);
        share_is_bounded(p.h as nat, MAX_SIDE as nat, most as nat);
        if p.w >= p.h {
            share_grows(p.h as nat, p.w as nat, MAX_SIDE as nat, most as nat);
        }
        if p.w <= p.h {
            share_grows(p.w as nat, p.h as nat, MAX_SIDE as nat, most as nat);
        }
    }
}

fn fit_side(side: u32, w: u32, h: u32) -> (r: u32)
    requires
        w > MAX_SIDE || h > MAX_SIDE,
        side == w || side == h,
    ensures
        r == fitted_side(side, w, h),
        1 <= r <= MAX_SIDE,
{
    let most: u32 = if w > h {
        w
    } else {
        h
    };
    let s: u32 = single_share_of(side, MAX_SIDE, most);
    if s < 1 {
        1
    } else {
        s
    }
}

fn fit(p: Rgb8) -> (r: Rgb8)
    requires
        p@.wf(),
    ensures
        r@ == fitted(p@),
        r@.wf(),
        r.w <= MAX_SIDE && r.h <= MAX_SIDE,
{
    if p.w > MAX_SIDE || p.h > MAX_SIDE {
        let nw: u32 = fit_side(p.w, p.w, p.h);
        let nh: u32 = fit_side(p.h, p.w, p.h);
        Rgb8 { w: nw, h: nh, bytes: resize_rgb(p.bytes, p.w, p.h, nw, nh) }
    } else {
        p
    }
}

/// The picture that a report keeps of pixels, given what the encoder made of them.
pub open spec fn picture_entry(path: Seq<char>, w: u32, h: u32, bytes: Seq<u8>) -> ReportImageView {
    ReportImageView {
        caption: Seq::empty(),
        path: path,
        jpeg: Some(JpegView { bytes: bytes, w: w, h: h }),
    }
}

impl AppView {
    /// With a picture added to one of the lists of the report.
    pub open spec fn with_picture(self, slot: ImageSlot, i: ReportImageView) -> AppView {
        AppView { report: self.report.with_image(slot, i), ..self }
    }

    /// After the encoder's answer on a picture has been taken: it joins its list, or the failure
    /// is reported.
    pub open spec fn picture_taken(
        self,
        path: Seq<char>,
        w: u32,
        h: u32,
        encoded: Result<Seq<u8>, Seq<char>>,
        slot: ImageSlot,
        noun: Seq<char>,
    ) -> AppView {
        match encoded {
            Ok(bytes) => self.with_picture(slot, picture_entry(path, w, h, bytes)).said(
                "  report: added "@ + noun + " "@ + file_stem(path) + (" ("@ + dec(w as nat) + "×"@
                    + dec(h as nat) + ")"@),
            ),
            Err(e) => self.said("  ! report: could not encode "@ + path + " — "@ + e),
        }
    }

    /// After a picture has been offered to the report.
    pub open spec fn picture_pushed(
        self,
        path: Seq<char>,
        p: Rgb8View,
        slot: ImageSlot,
        noun: Seq<char>,
    ) -> AppView {
        let f = fitted(p);
        self.picture_taken(
            path,
            f.w,
            f.h,
            jpeg_encoded(f.bytes, f.w, f.h, JPEG_QUALITY),
            slot,
            noun,
        )
    }
}

impl CadApp {
    fn keep_picture(&mut self, slot: ImageSlot, i: ReportImage)
        ensures
            final(self)@ == old(self)@.with_picture(slot, i@),
    {
        self.report.add_image(slot, i);
    }

    /// Takes the encoder's answer on a picture of a given size. `noun` is what the list calls a
    /// picture.
    pub fn take_picture(
        &mut self,
        path: String,
        w: u32,
        h: u32,
        encoded: Result<Vec<u8>, String>,
        slot: ImageSlot,
        noun: &str,
    )
        ensures
            final(self)@ == old(self)@.picture_taken(
                path@,
                w,
                h,
                encoded_view(encoded),
                slot,
                noun@,
            ),
    {
        match encoded {
            Ok(bytes) => {
                let tail = cat5(
                    " (",
                    dec_text(w as u64).as_str(),
                    "×",
                    dec_text(h as u64).as_str(),
                    ")",
                );
                let line = cat5(
                    "  report: added ",
                    noun,
                    " ",
                    file_stem_of(path.as_str()),
                    tail.as_str(),
                );
                self.keep_picture(
                    slot,
                    ReportImage {
                        caption: String::new(),
                        path: path,
                        jpeg: Some(Jpeg { bytes: bytes, w: w, h: h }),
                    },
                );
                self.say(line);
            },
            Err(e) => {
                let line = cat4(
                    "  ! report: could not encode ",
                    path.as_str(),
                    " — ",
                    e.as_str(),
                );
                self.say(line);
            },
        }
    }

    /// Takes pixels into the report: made to fit, encoded, and added to a list. What it returns is
    /// the picture as it was kept, for a preview.
    pub fn report_push_image(&mut self, path: String, p: Rgb8, slot: ImageSlot, noun: &str) -> (r:
        Rgb8)
        requires
            p@.wf(),
        ensures
            final(self)@ == old(self)@.picture_pushed(path@, p@, slot, noun@),
            r@ == fitted(p@),
    {
        let f = fit(p);
        let encoded = encode_jpeg(&f.bytes, f.w, f.h, JPEG_QUALITY);
        self.take_picture(path, f.w, f.h, encoded, slot, noun);
        f
    }
}

/// A file that was read as a picture: its size and its pixels of four bytes, or why not.
pub struct Decoded {
    pub w: u32,
    pub h: u32,
    pub rgba: Vec<u8>,
}

impl AppView {
    /// After a file has been offered to the report as a picture.
    pub open spec fn picture_added(
        self,
        path: Seq<char>,
        decoded: Result<Decoded, String>,
        slot: ImageSlot,
        noun: Seq<char>,
    ) -> AppView {
        match decoded {
            Ok(d) => self.picture_pushed(
                path,
                Rgb8View { w: d.w, h: d.h, bytes: on_white(d.rgba@) },
                slot,
                noun,
            ),
            Err(e) => self.said("  ! report: could not read "@ + path + " — "@ + e@),
        }
    }
}

/// Whether a decoded file holds four bytes for each pixel.
pub open spec fn decoded_wf(d: Result<Decoded, String>) -> bool {
    match d {
        Ok(d) => d.rgba@.len() == d.w * d.h * 4,
        Err(_) => true,
    }
}

impl CadApp {
    /// Takes a file into the report as a picture, laid on white paper.
    pub fn report_add_image(
        &mut self,
        path: &str,
        decoded: Result<Decoded, String>,
        slot: ImageSlot,
        noun: &str,
    ) -> (r: Option<Rgb8>)
        requires
            decoded_wf(decoded),
        ensures
            final(self)@ == old(self)@.picture_added(path@, decoded, slot, noun@),
            match decoded {
                Ok(d) => opt_view(r) == Some(
                    fitted(Rgb8View { w: d.w, h: d.h, bytes: on_white(d.rgba@) }),
                ),
                Err(_) => r is None,
            },
    {
        match decoded {
            Ok(d) => {
                let bytes = lay_on_white(&d.rgba);
                proof {
                    three_of_four(d.rgba@);
                    pixel_bytes(d.w, d.h);
                }
                let p = Rgb8 { w: d.w, h: d.h, bytes: bytes };
                Some(self.report_push_image(String::from_str(path), p, slot, noun))
            },
            Err(e) => {
                self.say(cat4("  ! report: could not read ", path, " — ", e.as_str()));
                None
            },
        }
    }
}

proof fn pixel_bytes(w: u32, h: u32)
    by (nonlinear_arith)
    ensures
        (w * h * 4) / 4 * 3 == w * h * 3,
{
}

/// What the path tracer shows: its size and its pixels of four bytes.
pub enum RenderShown {
    NoJob,
    NoFrame,
    Frame(Decoded),
}

impl AppView {
    /// With the previews of the report marked as out of date.
    pub open spec fn previews_dirty(self) -> AppView {
        AppView { report: ReportView { tex_dirty: true, ..self.report }, ..self }
    }

    /// After the current render has been taken into the report.
    pub open spec fn render_captured(self, shown: RenderShown, noun: Seq<char>) -> AppView {
        match shown {
            RenderShown::NoJob => self.light_told("No render to capture — start one first."@),
            RenderShown::NoFrame => self.light_told("The render has not produced a frame yet."@),
            RenderShown::Frame(d) => self.picture_pushed(
                "render"@,
                Rgb8View { w: d.w, h: d.h, bytes: without_alpha(d.rgba@) },
                ImageSlot::Render,
                noun,
            ).previews_dirty(),
        }
    }
}

/// Whether a render holds four bytes for each pixel.
pub open spec fn render_wf(r: RenderShown) -> bool {
    match r {
        RenderShown::Frame(d) => d.rgba@.len() == d.w * d.h * 4,
        _ => true,
    }
}

impl CadApp {
    fn mark_previews(&mut self)
        ensures
            final(self)@ == old(self)@.previews_dirty(),
    {
        self.report.tex_dirty = true;
    }

    /// Takes the current render into the report.
    pub fn report_capture_render(&mut self, shown: RenderShown, noun: &str)
        requires
            render_wf(shown),
        ensures
            final(self)@ == old(self)@.render_captured(shown, noun@),
    {
        match shown {
            RenderShown::NoJob => self.tell_light(
                String::from_str("No render to capture — start one first."),
            ),
            RenderShown::NoFrame => self.tell_light(
                String::from_str("The render has not produced a frame yet."),
            ),
            RenderShown::Frame(d) => {
                let bytes = drop_alpha(&d.rgba);
                proof {
                    three_of_four(d.rgba@);
                    pixel_bytes(d.w, d.h);
                }
                let p = Rgb8 { w: d.w, h: d.h, bytes: bytes };
                let _kept = self.report_push_image(
                    String::from_str("render"),
                    p,
                    ImageSlot::Render,
                    noun,
                );
                self.mark_previews();
            },
        }
    }
}

/// A pixel on white paper is no darker than its colour, the lighter the less opaque it is, and the
/// lighter the lighter its colour is.
pub proof fn paper_lightens(c: u8, d: u8, a: u8, b: u8)
    ensures
        c <= over_white(c, a) <= 255,
        a <= b ==> over_white(c, b) <= over_white(c, a),
        c <= d ==> over_white(c, a) <= over_white(d, a),
        over_white(255, a) == 255,
{
    let ci = c as int;
    let di = d as int;
    let ai = a as int;
    let bi = b as int;
    assert(ci * ai + 255 * (255 - ai) >= 255 * ci) by (nonlinear_arith)
        requires
            0 <= ci <= 255,
            0 <= ai <= 255,
    ;
    assert(ci * ai <= 255 * ai) by (nonlinear_arith)
        requires
            0 <= ci <= 255,
            0 <= ai,
    ;
    assert(ci * bi <= 255 * bi) by (nonlinear_arith)
        requires
            0 <= ci <= 255,
            0 <= bi,
    ;
    assert(di * ai <= 255 * ai) by (nonlinear_arith)
        requires
            0 <= di <= 255,
            0 <= ai,
    ;
    if a <= b {
        assert(ci * bi + 255 * (255 - bi) <= ci * ai + 255 * (255 - ai)) by (nonlinear_arith)
            requires
                0 <= ci <= 255,
                ai <= bi,
        ;
    }
    if c <= d {
        assert(ci * ai <= di * ai) by (nonlinear_arith)
            requires
                ci <= di,
                0 <= ai,
        ;
    }
}

/// Each pixel of a picture is laid on paper, or loses its opacity, at its place.
pub proof fn pixels_keep_their_places(rgba: Seq<u8>, i: int, j: int)
    requires
        0 <= i < rgba.len() / 4,
        0 <= j < 3,
    ensures
        on_white(rgba).len() == rgba.len() / 4 * 3,
        on_white(rgba)[3 * i + j] == over_white(rgba[4 * i + j], rgba[4 * i + 3]),
        without_alpha(rgba)[3 * i + j] == rgba[4 * i + j],
    decreases rgba.len(),
{
    three_of_four(rgba);
    let n = rgba.len() / 4 * 4;
    let front = rgba.subrange(0, n - 4);
    three_of_four(front);
    let m = rgba.len() / 4;
    assert(front.len() / 4 == m - 1);
    if i < m - 1 {
        pixels_keep_their_places(front, i, j);
    }
}

/// A picture that was encoded joins its list with its bytes, its size and where it came from, and no
/// caption yet; one that could not be encoded leaves the lists.
pub proof fn encoded_picture_joins_its_list(
    s: AppView,
    path: Seq<char>,
    w: u32,
    h: u32,
    encoded: Result<Seq<u8>, Seq<char>>,
    slot: ImageSlot,
    noun: Seq<char>,
)
    ensures
        ({
            let t = s.picture_taken(path, w, h, encoded, slot, noun);
            &&& encoded is Err ==> t.report == s.report
            &&& encoded matches Ok(bytes) ==> {
                let a = t.report.album(slot).images;
                &&& a.len() == s.report.album(slot).images.len() + 1
                &&& a.last().path == path && a.last().caption.len() == 0
                &&& a.last().jpeg matches Some(k) && k.bytes == bytes && k.w == w && k.h == h
                &&& forall|i: int|
                    0 <= i < a.len() - 1 ==> a[i] == #[trigger] s.report.album(slot).images[i]
            }
            &&& t.history.len() == s.history.len() + 1
            &&& t.doc == s.doc && t.light == s.light
        }),
{
    reveal(AppView::said);
}

/// A picture that could not be read joins no list, and a render is captured only where it has a
/// frame; then the previews are to be made anew.
pub proof fn unread_picture_joins_no_list(
    s: AppView,
    path: Seq<char>,
    decoded: Result<Decoded, String>,
    slot: ImageSlot,
    shown: RenderShown,
    noun: Seq<char>,
)
    ensures
        decoded is Err ==> s.picture_added(path, decoded, slot, noun).report == s.report,
        shown is Frame ==> s.render_captured(shown, noun).report.tex_dirty,
        !(shown is Frame) ==> s.render_captured(shown, noun).report == s.report,
        s.render_captured(shown, noun).report.logos == s.report.logos,
        s.render_captured(shown, noun).report.covers == s.report.covers,
{
    reveal(AppView::said);
}

/// A picture that fits is added in its own size, and a larger one in the size that it is made to fit
/// in.
pub proof fn added_picture_has_its_size(
    s: AppView,
    path: Seq<char>,
    d: Decoded,
    slot: ImageSlot,
    noun: Seq<char>,
)
    requires
        d.w <= MAX_SIDE,
        d.h <= MAX_SIDE,
        jpeg_encoded(on_white(d.rgba@), d.w, d.h, JPEG_QUALITY) is Ok,
    ensures
        ({
            let t = s.picture_added(path, Ok(d), slot, noun);
            let a = t.report.album(slot).images;
            &&& a.len() == s.report.album(slot).images.len() + 1
            &&& a.last().jpeg matches Some(j) && j.w == d.w && j.h == d.h
            &&& a.last().path == path
        }),
{
    reveal(AppView::said);
}

/// A picture that has been made to fit keeps its proportion: each of its sides is less than two pixels
/// off the share that it has of the longer one, unless that is less than a pixel.
pub proof fn fitted_pictures_keep_their_proportion(p: Rgb8View)
    requires
        p.w > MAX_SIDE || p.h > MAX_SIDE,
    ensures
        ({
            let most = if p.w > p.h {
                p.w as int
            } else {
                p.h as int
            };
            let f = fitted(p);
            &&& f.w == 1 || f.w * most < p.w * 1_600 + most
            &&& p.w * 1_600 < (f.w + 2) * most
            &&& f.h == 1 || f.h * most < p.h * 1_600 + most
            &&& p.h * 1_600 < (f.h + 2) * most
        }),
{
    let most = (if p.w > p.h {
        p.w
    } else {
        p.h
    }) as nat;
    crate::single::share_is_near(p.w as nat, MAX_SIDE as nat, most);
    crate::single::share_is_near(p.h as nat, MAX_SIDE as nat, most);
    share_is_bounded(p.w as nat, MAX_SIDE as nat, most);
    share_is_bounded(p.h as nat, MAX_SIDE as nat, most);
    let f = fitted(p);
    let sw = crate::single::single_share(p.w as nat, MAX_SIDE as nat, most) as int;
    let sh = crate::single::single_share(p.h as nat, MAX_SIDE as nat, most) as int;
    let m = most as int;
    assert((f.w + 2) * m >= (sw + 2) * m) by (nonlinear_arith)
        requires
            f.w >= sw,
            m >= 0,
    ;
    assert((f.h + 2) * m >= (sh + 2) * m) by (nonlinear_arith)
        requires
            f.h >= sh,
            m >= 0,
    ;
}

} // verus!
