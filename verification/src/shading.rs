//! The numbers of a material's nodes, of its pattern and of its coat, and what may be set of them.
//!
//! Fractions and strengths are millionths.
use vstd::prelude::*;

use crate::app::{AppView, CadApp};
use crate::copying::{group_views, views};
use crate::factory::{Coat, FactoryView, Finish, Rgb, Texture, TextureView};

verus! {

/// The node that a material's surface is made of.
#[derive(Clone, Copy, Debug, PartialEq, Eq, Structural)]
pub struct Principled {
    pub base: Rgb,
    pub metallic: u32,
    pub roughness: u32,
    pub ior: u32,
    pub alpha: u32,
    pub emission: Rgb,
    pub emission_strength: u32,
}

/// A pattern: its two colours, its grain along each axis, and its surface. Where the roughness at
/// its two ends is the same, the roughness of the material counts instead.
#[derive(Clone, Copy, Debug, PartialEq, Eq, Structural)]
pub struct Pattern {
    pub pattern: u32,
    pub col_a: Rgb,
    pub col_b: Rgb,
    pub grain_x: u32,
    pub grain_y: u32,
    pub grain_z: u32,
    pub contrast: u32,
    pub detail: u32,
    pub rough_a: u32,
    pub rough_b: u32,
    pub relief: u32,
}

/// A node of a material. A map of normals has the image it reads and its strength.
#[derive(Clone, Copy, Debug, PartialEq, Eq, Structural)]
pub enum NodeKind {
    Principled(Principled),
    Flat(Rgb),
    Value(u32),
    Procedural(Pattern),
    NormalMap(Option<usize>, u32),
    ImageTex,
    Output,
}

/// An edit of a pattern.
#[derive(Clone, Copy, Debug, PartialEq, Eq, Structural)]
pub enum PatternEdit {
    Pattern(u32),
    ColorA(Rgb),
    ColorB(Rgb),
    GrainX(u32),
    GrainY(u32),
    GrainZ(u32),
    Contrast(u32),
    Detail(u32),
    RoughA(u32),
    RoughB(u32),
    Uniform,
    Relief(u32),
}

/// An edit of a node. One that is for another kind of node leaves it as it is.
#[derive(Clone, Copy, Debug, PartialEq, Eq, Structural)]
pub enum NodeEdit {
    BaseColor(Rgb),
    Metallic(u32),
    Roughness(u32),
    Ior(u32),
    Alpha(u32),
    Emission(Rgb),
    EmissionStrength(u32),
    Color(Rgb),
    Value(u32),
    Pattern(PatternEdit),
    Image(Option<usize>),
    Strength(u32),
}

/// An edit of the coat of a material.
#[derive(Clone, Copy, Debug, PartialEq, Eq, Structural)]
pub enum CoatEdit {
    Clearcoat(u32),
    Rough(u32),
    Sheen(u32),
    Tint(Rgb),
}

/// A number kept within bounds.
pub open spec fn held(v: u32, lo: u32, hi: u32) -> u32 {
    if v < lo {
        lo
    } else if v > hi {
        hi
    } else {
        v
    }
}

fn hold(v: u32, lo: u32, hi: u32) -> (r: u32)
    ensures
        r == held(v, lo, hi),
{
    if v < lo {
        lo
    } else if v > hi {
        hi
    } else {
        v
    }
}

/// A pattern after an edit.
pub open spec fn pattern_edited(p: Pattern, e: PatternEdit) -> Pattern {
    match e {
        PatternEdit::Pattern(k) => Pattern { pattern: k, ..p },
        PatternEdit::ColorA(c) => Pattern { col_a: c, ..p },
        PatternEdit::ColorB(c) => Pattern { col_b: c, ..p },
        PatternEdit::GrainX(v) => Pattern { grain_x: held(v, 100_000, 400_000_000), ..p },
        PatternEdit::GrainY(v) => Pattern { grain_y: held(v, 100_000, 400_000_000), ..p },
        PatternEdit::GrainZ(v) => Pattern { grain_z: held(v, 100_000, 400_000_000), ..p },
        PatternEdit::Contrast(v) => Pattern { contrast: held(v, 200_000, 4_000_000), ..p },
        PatternEdit::Detail(v) => Pattern { detail: held(v, 1_000_000, 8_000_000), ..p },
        PatternEdit::RoughA(v) => Pattern { rough_a: held(v, 20_000, 1_000_000), ..p },
        PatternEdit::RoughB(v) => Pattern { rough_b: held(v, 20_000, 1_000_000), ..p },
        PatternEdit::Uniform => Pattern { rough_a: 500_000, rough_b: 500_000, ..p },
        PatternEdit::Relief(v) => Pattern { relief: held(v, 0, 1_500_000), ..p },
    }
}

/// Edits a pattern.
pub fn mf_edit_procedural(p: Pattern, e: PatternEdit) -> (r: Pattern)
    ensures
        r == pattern_edited(p, e),
{
    match e {
        PatternEdit::Pattern(k) => Pattern { pattern: k, ..p },
        PatternEdit::ColorA(c) => Pattern { col_a: c, ..p },
        PatternEdit::ColorB(c) => Pattern { col_b: c, ..p },
        PatternEdit::GrainX(v) => Pattern { grain_x: hold(v, 100_000, 400_000_000), ..p },
        PatternEdit::GrainY(v) => Pattern { grain_y: hold(v, 100_000, 400_000_000), ..p },
        PatternEdit::GrainZ(v) => Pattern { grain_z: hold(v, 100_000, 400_000_000), ..p },
        PatternEdit::Contrast(v) => Pattern { contrast: hold(v, 200_000, 4_000_000), ..p },
        PatternEdit::Detail(v) => Pattern { detail: hold(v, 1_000_000, 8_000_000), ..p },
        PatternEdit::RoughA(v) => Pattern { rough_a: hold(v, 20_000, 1_000_000), ..p },
        PatternEdit::RoughB(v) => Pattern { rough_b: hold(v, 20_000, 1_000_000), ..p },
        PatternEdit::Uniform => Pattern { rough_a: 500_000, rough_b: 500_000, ..p },
        PatternEdit::Relief(v) => Pattern { relief: hold(v, 0, 1_500_000), ..p },
    }
}

/// The node of a surface after an edit.
pub open spec fn principled_edited(p: Principled, e: NodeEdit) -> Principled {
    match e {
        NodeEdit::BaseColor(c) => Principled { base: c, ..p },
        NodeEdit::Metallic(v) => Principled { metallic: held(v, 0, 1_000_000), ..p },
        NodeEdit::Roughness(v) => Principled { roughness: held(v, 0, 1_000_000), ..p },
        NodeEdit::Ior(v) => Principled { ior: held(v, 1_000_000, 3_000_000), ..p },
        NodeEdit::Alpha(v) => Principled { alpha: held(v, 0, 1_000_000), ..p },
        NodeEdit::Emission(c) => Principled { emission: c, ..p },
        NodeEdit::EmissionStrength(v) => Principled {
            emission_strength: held(v, 0, 20_000_000),
            ..p
        },
        _ => p,
    }
}

fn edit_principled(p: Principled, e: NodeEdit) -> (r: Principled)
    ensures
        r == principled_edited(p, e),
{
    match e {
        NodeEdit::BaseColor(c) => Principled { base: c, ..p },
        NodeEdit::Metallic(v) => Principled { metallic: hold(v, 0, 1_000_000), ..p },
        NodeEdit::Roughness(v) => Principled { roughness: hold(v, 0, 1_000_000), ..p },
        NodeEdit::Ior(v) => Principled { ior: hold(v, 1_000_000, 3_000_000), ..p },
        NodeEdit::Alpha(v) => Principled { alpha: hold(v, 0, 1_000_000), ..p },
        NodeEdit::Emission(c) => Principled { emission: c, ..p },
        NodeEdit::EmissionStrength(v) => Principled {
            emission_strength: hold(v, 0, 20_000_000),
            ..p
        },
        _ => p,
    }
}

/// A node after an edit.
pub open spec fn node_edited(k: NodeKind, e: NodeEdit) -> NodeKind {
    match k {
        NodeKind::Principled(p) => NodeKind::Principled(principled_edited(p, e)),
        NodeKind::Flat(_) => match e {
            NodeEdit::Color(c) => NodeKind::Flat(c),
            _ => k,
        },
        NodeKind::Value(_) => match e {
            NodeEdit::Value(v) => NodeKind::Value(held(v, 0, 1_000_000)),
            _ => k,
        },
        NodeKind::Procedural(p) => match e {
            NodeEdit::Pattern(pe) => NodeKind::Procedural(pattern_edited(p, pe)),
            _ => k,
        },
        NodeKind::NormalMap(map, strength) => match e {
            NodeEdit::Image(m) => NodeKind::NormalMap(m, strength),
            NodeEdit::Strength(v) => NodeKind::NormalMap(map, held(v, 0, 2_000_000)),
            _ => k,
        },
        NodeKind::ImageTex => k,
        NodeKind::Output => k,
    }
}

/// Edits a node.
pub fn edit_node(k: NodeKind, e: NodeEdit) -> (r: NodeKind)
    ensures
        r == node_edited(k, e),
{
    match k {
        NodeKind::Principled(p) => NodeKind::Principled(edit_principled(p, e)),
        NodeKind::Flat(_) => match e {
            NodeEdit::Color(c) => NodeKind::Flat(c),
            _ => k,
        },
        NodeKind::Value(_) => match e {
            NodeEdit::Value(v) => NodeKind::Value(hold(v, 0, 1_000_000)),
            _ => k,
        },
        NodeKind::Procedural(p) => match e {
            NodeEdit::Pattern(pe) => NodeKind::Procedural(mf_edit_procedural(p, pe)),
            _ => k,
        },
        NodeKind::NormalMap(map, strength) => match e {
            NodeEdit::Image(m) => NodeKind::NormalMap(m, strength),
            NodeEdit::Strength(v) => NodeKind::NormalMap(map, hold(v, 0, 2_000_000)),
            _ => k,
        },
        NodeKind::ImageTex => k,
        NodeKind::Output => k,
    }
}

/// The node whose numbers are shown below those of the edited one: what the main node has its
/// base colour from.
pub fn inline_source(node: u32, main: Option<u32>, source: Option<u32>) -> (r: Option<u32>)
    ensures
        r == if main == Some(node) {
            source
        } else {
            None
        },
{
    match main {
        Some(m) => if m == node {
            source
        } else {
            None
        },
        None => None,
    }
}

/// A coat after an edit.
pub open spec fn coat_edited(c: Coat, e: CoatEdit) -> Coat {
    match e {
        CoatEdit::Clearcoat(v) => Coat { clearcoat: held(v, 0, 1_000_000), ..c },
        CoatEdit::Rough(v) => Coat { rough: held(v, 10_000, 1_000_000), ..c },
        CoatEdit::Sheen(v) => Coat { sheen: held(v, 0, 1_000_000), ..c },
        CoatEdit::Tint(t) => Coat { tint: t, ..c },
    }
}

fn set_coat(t: &mut Texture, e: CoatEdit)
    ensures
        final(t)@ == (TextureView {
            finish: Finish { coat: coat_edited(old(t)@.finish.coat, e), ..old(t)@.finish },
            ..old(t)@
        }),
{
    match e {
        CoatEdit::Clearcoat(v) => {
            t.finish.coat.clearcoat = hold(v, 0, 1_000_000);
        },
        CoatEdit::Rough(v) => {
            t.finish.coat.rough = hold(v, 10_000, 1_000_000);
        },
        CoatEdit::Sheen(v) => {
            t.finish.coat.sheen = hold(v, 0, 1_000_000);
        },
        CoatEdit::Tint(c) => {
            t.finish.coat.tint = c;
        },
    }
}

impl AppView {
    /// With the finish of a material changed, where there is such a material.
    pub open spec fn finished(self, i: usize, f: spec_fn(Finish) -> Finish) -> AppView {
        if i < self.factory.textures.len() {
            let t = self.factory.textures[i as int];
            self.with_factory(
                FactoryView {
                    textures: self.factory.textures.update(
                        i as int,
                        TextureView { finish: f(t.finish), ..t },
                    ),
                    ..self.factory
                },
            )
        } else {
            self
        }
    }
}

impl CadApp {
    /// Edits the coat of a material.
    pub fn edit_coat(&mut self, i: usize, e: CoatEdit)
        ensures
            final(self)@ == old(self)@.finished(
                i,
                |f: Finish| Finish { coat: coat_edited(f.coat, e), ..f },
            ),
    {
        broadcast use group_views;

        if i < self.factory.textures.len() {
            let ghost before = self.factory.textures@;
            set_coat(&mut self.factory.textures[i], e);
            assert(self.factory.textures@ =~= before.update(
                i as int,
                self.factory.textures@[i as int],
            ));
            assert(views(before)[i as int] == before[i as int]@);
        }
    }

    /// Binds the map of a material's roughness, or none.
    pub fn bind_rough_map(&mut self, i: usize, map: Option<usize>)
        ensures
            final(self)@ == old(self)@.finished(i, |f: Finish| Finish { rough_map: map, ..f }),
    {
        broadcast use group_views;

        if i < self.factory.textures.len() {
            let ghost before = self.factory.textures@;
            self.factory.textures[i].finish.rough_map = map;
            assert(self.factory.textures@ =~= before.update(
                i as int,
                self.factory.textures@[i as int],
            ));
            assert(views(before)[i as int] == before[i as int]@);
        }
    }

    /// Whether the roughness of a material's varnish and the tint of its fuzz can be set: where
    /// there is any varnish, and any fuzz.
    pub fn coat_rows(&self, i: usize) -> (r: (bool, bool))
        ensures
            r.0 == (i < self@.factory.textures.len()
                && self@.factory.textures[i as int].finish.coat.clearcoat > 0),
            r.1 == (i < self@.factory.textures.len()
                && self@.factory.textures[i as int].finish.coat.sheen > 0),
    {
        if i < self.factory.textures.len() {
            assert(self@.factory.textures[i as int] == self.factory.textures@[i as int]@);
            let c = self.factory.textures[i].finish.coat;
            (c.clearcoat > 0, c.sheen > 0)
        } else {
            (false, false)
        }
    }
}

/// An edit changes no node into one of another kind, and an output or an image not at all.
pub proof fn edits_keep_the_kind(k: NodeKind, e: NodeEdit)
    ensures
        k is Principled ==> node_edited(k, e) is Principled,
        k is Flat ==> node_edited(k, e) is Flat,
        k is Value ==> node_edited(k, e) is Value,
        k is Procedural ==> node_edited(k, e) is Procedural,
        k is NormalMap ==> node_edited(k, e) is NormalMap,
        k is ImageTex || k is Output ==> node_edited(k, e) == k,
{
}

/// A repeated edit changes nothing more.
pub proof fn edits_settle(k: NodeKind, e: NodeEdit)
    ensures
        node_edited(node_edited(k, e), e) == node_edited(k, e),
{
}

/// A uniform finish is the same at both ends of the pattern, and only the finish changes.
pub proof fn uniform_finish_is_even(p: Pattern)
    ensures
        pattern_edited(p, PatternEdit::Uniform).rough_a == pattern_edited(
            p,
            PatternEdit::Uniform,
        ).rough_b,
        pattern_edited(p, PatternEdit::Uniform) == (Pattern {
            rough_a: 500_000,
            rough_b: 500_000,
            ..p
        }),
{
}

/// Whether a value took what it was set to, within bounds.
pub open spec fn took(r: u32, v: u32, lo: u32, hi: u32) -> bool {
    &&& lo <= r <= hi
    &&& lo <= v <= hi ==> r == v
    &&& v < lo ==> r == lo
    &&& v > hi ==> r == hi
}

/// What is set of a node reads back from it, within its bounds, as far as the node has such a thing.
pub proof fn node_edit_reads_back(k: NodeKind, e: NodeEdit)
    ensures
        match (node_edited(k, e), e) {
            (NodeKind::Principled(p), NodeEdit::BaseColor(c)) => p.base == c,
            (NodeKind::Principled(p), NodeEdit::Metallic(v)) => took(p.metallic, v, 0, 1_000_000),
            (NodeKind::Principled(p), NodeEdit::Roughness(v)) => took(p.roughness, v, 0, 1_000_000),
            (NodeKind::Principled(p), NodeEdit::Ior(v)) => took(p.ior, v, 1_000_000, 3_000_000),
            (NodeKind::Principled(p), NodeEdit::Alpha(v)) => took(p.alpha, v, 0, 1_000_000),
            (NodeKind::Principled(p), NodeEdit::Emission(c)) => p.emission == c,
            (NodeKind::Principled(p), NodeEdit::EmissionStrength(v)) => took(
                p.emission_strength,
                v,
                0,
                20_000_000,
            ),
            (NodeKind::Flat(c), NodeEdit::Color(d)) => c == d,
            (NodeKind::Value(r), NodeEdit::Value(v)) => took(r, v, 0, 1_000_000),
            (NodeKind::NormalMap(m, _), NodeEdit::Image(n)) => m == n,
            (NodeKind::NormalMap(_, r), NodeEdit::Strength(v)) => took(r, v, 0, 2_000_000),
            (NodeKind::Procedural(p), NodeEdit::Pattern(e)) => match e {
                PatternEdit::Pattern(v) => p.pattern == v,
                PatternEdit::ColorA(c) => p.col_a == c,
                PatternEdit::ColorB(c) => p.col_b == c,
                PatternEdit::GrainX(v) => took(p.grain_x, v, 100_000, 400_000_000),
                PatternEdit::GrainY(v) => took(p.grain_y, v, 100_000, 400_000_000),
                PatternEdit::GrainZ(v) => took(p.grain_z, v, 100_000, 400_000_000),
                PatternEdit::Contrast(v) => took(p.contrast, v, 200_000, 4_000_000),
                PatternEdit::Detail(v) => took(p.detail, v, 1_000_000, 8_000_000),
                PatternEdit::RoughA(v) => took(p.rough_a, v, 20_000, 1_000_000),
                PatternEdit::RoughB(v) => took(p.rough_b, v, 20_000, 1_000_000),
                PatternEdit::Uniform => p.rough_a == p.rough_b,
                PatternEdit::Relief(v) => took(p.relief, v, 0, 1_500_000),
            },
            (r, _) => r == k,
        },
        k matches NodeKind::NormalMap(m, s) ==> (node_edited(k, e) matches NodeKind::NormalMap(n, t)
            && (e is Image || m == n) && (e is Strength || s == t)),
{
}

/// An edit of a principled node leaves everything that it is not of.
pub proof fn principled_edit_is_narrow(p: Principled, e: NodeEdit)
    ensures
        ({
            let r = principled_edited(p, e);
            &&& !(e is BaseColor) ==> r.base == p.base
            &&& !(e is Metallic) ==> r.metallic == p.metallic
            &&& !(e is Roughness) ==> r.roughness == p.roughness
            &&& !(e is Ior) ==> r.ior == p.ior
            &&& !(e is Alpha) ==> r.alpha == p.alpha
            &&& !(e is Emission) ==> r.emission == p.emission
            &&& !(e is EmissionStrength) ==> r.emission_strength == p.emission_strength
        }),
{
}

/// An edit of a pattern leaves everything that it is not of.
pub proof fn pattern_edit_is_narrow(p: Pattern, e: PatternEdit)
    ensures
        ({
            let r = pattern_edited(p, e);
            &&& !(e is Pattern) ==> r.pattern == p.pattern
            &&& !(e is ColorA) ==> r.col_a == p.col_a
            &&& !(e is ColorB) ==> r.col_b == p.col_b
            &&& !(e is GrainX) ==> r.grain_x == p.grain_x
            &&& !(e is GrainY) ==> r.grain_y == p.grain_y
            &&& !(e is GrainZ) ==> r.grain_z == p.grain_z
            &&& !(e is Contrast) ==> r.contrast == p.contrast
            &&& !(e is Detail) ==> r.detail == p.detail
            &&& !(e is RoughA) && !(e is Uniform) ==> r.rough_a == p.rough_a
            &&& !(e is RoughB) && !(e is Uniform) ==> r.rough_b == p.rough_b
            &&& !(e is Relief) ==> r.relief == p.relief
        }),
{
}

/// What is set of a coat reads back from it, within its bounds, and the rest of the coat stays.
pub proof fn coat_edit_reads_back(c: Coat, e: CoatEdit)
    ensures
        ({
            let r = coat_edited(c, e);
            &&& e matches CoatEdit::Clearcoat(v) ==> took(r.clearcoat, v, 0, 1_000_000)
            &&& e matches CoatEdit::Rough(v) ==> took(r.rough, v, 10_000, 1_000_000)
            &&& e matches CoatEdit::Sheen(v) ==> took(r.sheen, v, 0, 1_000_000)
            &&& e matches CoatEdit::Tint(t) ==> r.tint == t
            &&& !(e is Clearcoat) ==> r.clearcoat == c.clearcoat
            &&& !(e is Rough) ==> r.rough == c.rough
            &&& !(e is Sheen) ==> r.sheen == c.sheen
            &&& !(e is Tint) ==> r.tint == c.tint
        }),
{
}

} // verus!
