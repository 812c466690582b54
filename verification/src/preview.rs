//! The preview of a drawing in the file browser.
use vstd::prelude::*;

use crate::app::{AppView, CadApp};
use crate::copying::views;
use crate::dialog::DialogView;
use crate::doc::{DObject, DObjectView, DocView, Document, Pt};
use crate::text::{cat2, cat4, dec, dec_text, ends_in, lower_ends_with, lowered, same};

verus! {

/// What a file can be previewed as.
#[derive(Clone, Copy, Debug, PartialEq, Eq, Structural)]
pub enum PreviewKind {
    Dxf,
    Rsm,
    Unsupported,
}

/// What a file can be previewed as, by its name.
pub open spec fn preview_kind(path: Seq<char>) -> PreviewKind {
    if ends_in(lowered(path), ".dxf"@) {
        PreviewKind::Dxf
    } else if ends_in(lowered(path), ".rsm"@) {
        PreviewKind::Rsm
    } else {
        PreviewKind::Unsupported
    }
}

/// The box around the first `n` of some objects.
pub open spec fn box_around(d: Seq<DObjectView>, n: int) -> Option<(Pt, Pt)>
    decreases n,
{
    if n <= 0 {
        None
    } else {
        let a = d[n - 1].geom.lo;
        let b = d[n - 1].geom.hi;
        match box_around(d, n - 1) {
            None => Some((a, b)),
            Some((lo, hi)) => Some(
                (
                    Pt {
                        x: if a.x < lo.x {
                            a.x
                        } else {
                            lo.x
                        },
                        y: if a.y < lo.y {
                            a.y
                        } else {
                            lo.y
                        },
                    },
                    Pt {
                        x: if b.x > hi.x {
                            b.x
                        } else {
                            hi.x
                        },
                        y: if b.y > hi.y {
                            b.y
                        } else {
                            hi.y
                        },
                    },
                ),
            ),
        }
    }
}

fn find_box(d: &Vec<DObject>) -> (r: Option<(Pt, Pt)>)
    ensures
        r == box_around(views(d@), d@.len() as int),
{
    let ghost all = views(d@);
    let mut r: Option<(Pt, Pt)> = None;
    let mut n: usize = 0;
    while n < d.len()
        invariant
            n <= d.len(),
            all == views(d@),
            r == box_around(all, n as int),
        decreases d.len() - n,
    {
        assert(all[n as int] == d@[n as int]@);
        let a: Pt = d[n].geom.lo;
        let b: Pt = d[n].geom.hi;
        r = match r {
            None => Some((a, b)),
            Some((lo, hi)) => Some(
                (
                    Pt {
                        x: if a.x < lo.x {
                            a.x
                        } else {
                            lo.x
                        },
                        y: if a.y < lo.y {
                            a.y
                        } else {
                            lo.y
                        },
                    },
                    Pt {
                        x: if b.x > hi.x {
                            b.x
                        } else {
                            hi.x
                        },
                        y: if b.y > hi.y {
                            b.y
                        } else {
                            hi.y
                        },
                    },
                ),
            ),
        };
        n += 1;
    }
    r
}

/// What a preview shows: the box around the drawing, where there is anything in it, and a line
/// about it.
pub struct Preview {
    pub bounds: Option<(Pt, Pt)>,
    pub info: String,
}

/// What is said of a drawing in a preview.
pub open spec fn preview_line(d: DocView) -> Seq<char> {
    dec(d.dobjects.len()) + " object(s) · "@ + dec(d.layers.len()) + " layer(s)"@
}

impl CadApp {
    /// What the preview of a file has to be made from, where the file is not the one previewed
    /// already.
    pub fn preview_due(&self, path: &str) -> (r: Option<PreviewKind>)
        ensures
            r == if self@.dialog.file_preview == Some(path@) {
                None
            } else {
                Some(preview_kind(path@))
            },
    {
        if let Some(p) = &self.dialog.file_preview {
            if same(p.as_str(), path) {
                return None;
            }
        }
        Some(
            if lower_ends_with(path, ".dxf") {
                PreviewKind::Dxf
            } else if lower_ends_with(path, ".rsm") {
                PreviewKind::Rsm
            } else {
                PreviewKind::Unsupported
            },
        )
    }

    /// Takes what reading a file for its preview gave; the preview is then that file's.
    pub fn update_file_preview(&mut self, path: &str, parsed: &Result<Document, String>) -> (r:
        Preview)
        ensures
            final(self)@ == (AppView {
                dialog: DialogView { file_preview: Some(path@), ..old(self)@.dialog },
                ..old(self)@
            }),
            match *parsed {
                Ok(d) => r.bounds == box_around(d@.dobjects, d@.dobjects.len() as int) && r.info@
                    == preview_line(d@),
                Err(e) => r.bounds is None && r.info@ == "cannot preview: "@ + e@,
            },
    {
        self.dialog.file_preview = Some(String::from_str(path));
        match parsed {
            Ok(d) => Preview {
                bounds: find_box(&d.dobjects),
                info: cat4(
                    dec_text(d.dobjects.len() as u64).as_str(),
                    " object(s) · ",
                    dec_text(d.layers.len() as u64).as_str(),
                    " layer(s)",
                ),
            },
            Err(e) => Preview { bounds: None, info: cat2("cannot preview: ", e.as_str()) },
        }
    }
}

/// The box of a preview holds the box of every object.
pub proof fn preview_box_holds_all(d: Seq<DObjectView>, n: int, i: int)
    requires
        0 <= i < n <= d.len(),
    ensures
        box_around(d, n) matches Some((lo, hi)) && lo.x <= d[i].geom.lo.x && lo.y
            <= d[i].geom.lo.y && hi.x >= d[i].geom.hi.x && hi.y >= d[i].geom.hi.y,
    decreases n,
{
    if i < n - 1 {
        preview_box_holds_all(d, n - 1, i);
    }
}

/// The box of a preview reaches no farther than the objects do: on each of its sides lies one.
pub proof fn preview_box_is_tight(d: Seq<DObjectView>, n: int)
    requires
        0 < n <= d.len(),
    ensures
        box_around(d, n) matches Some((lo, hi)) && (exists|i: int|
            0 <= i < n && (#[trigger] d[i]).geom.lo.x == lo.x) && (exists|i: int|
            0 <= i < n && (#[trigger] d[i]).geom.lo.y == lo.y) && (exists|i: int|
            0 <= i < n && (#[trigger] d[i]).geom.hi.x == hi.x) && (exists|i: int|
            0 <= i < n && (#[trigger] d[i]).geom.hi.y == hi.y),
    decreases n,
{
    assert(d[n - 1].geom.lo == d[n - 1].geom.lo);
    if n > 1 {
        preview_box_is_tight(d, n - 1);
        let (lo, hi) = box_around(d, n - 1)->0;
        let a = choose|i: int| 0 <= i < n - 1 && (#[trigger] d[i]).geom.lo.x == lo.x;
        let b = choose|i: int| 0 <= i < n - 1 && (#[trigger] d[i]).geom.lo.y == lo.y;
        let c = choose|i: int| 0 <= i < n - 1 && (#[trigger] d[i]).geom.hi.x == hi.x;
        let e = choose|i: int| 0 <= i < n - 1 && (#[trigger] d[i]).geom.hi.y == hi.y;
        assert(d[a].geom.lo.x == lo.x && d[b].geom.lo.y == lo.y && d[c].geom.hi.x == hi.x
            && d[e].geom.hi.y == hi.y);
    }
}

/// A file is previewed as what its extension says, in capitals or not.
pub proof fn preview_goes_by_the_extension(stem: Seq<char>, ext: Seq<char>)
    ensures
        lowered(ext) == ".dxf"@ ==> preview_kind(stem + ext) == PreviewKind::Dxf,
        lowered(ext) == ".rsm"@ ==> preview_kind(stem + ext) == PreviewKind::Rsm,
        lowered(ext) == ".dwg"@ ==> preview_kind(stem + ext) == PreviewKind::Unsupported,
{
    reveal_strlit(".dxf");
    reveal_strlit(".rsm");
    reveal_strlit(".dwg");
    let p = lowered(stem + ext);
    let e = lowered(ext);
    assert(p.subrange(p.len() - ext.len(), p.len() as int) =~= e);
    assert(".dxf"@[2] == 'x' && ".rsm"@[1] == 'r' && ".dwg"@[1] == 'd' && ".dwg"@[2] == 'w');
    assert(".dxf"@[1] == 'd');
}

} // verus!
