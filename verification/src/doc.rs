//! The drawing document: its objects, layers, named styles, layouts and unit.
//!
//! Coordinates are whole numbers of millionths of a drawing unit, and a drawing unit is a whole
//! number of nanometres, so that every length here is exact.
use vstd::prelude::*;

use crate::copying::{copy_all, duplicate_all, group_views, views, Duplicate};
use crate::table::Table;
use crate::text::same;

verus! {

/// A point of a drawing, in millionths of a drawing unit.
#[derive(Clone, Copy, Debug, PartialEq, Eq, Structural)]
pub struct Pt {
    pub x: i64,
    pub y: i64,
}

/// What an object of a drawing is. The kinds that have no properties of their own here are told
/// apart by a number.
#[derive(Clone, Copy, Debug, PartialEq, Eq, Structural)]
pub enum GeomKind {
    Line,
    Circle,
    Arc,
    Ellipse,
    EllipseArc,
    Point,
    Polyline,
    Hatch,
    Spline,
    Wall,
    Text,
    Dimension,
    BlockRef,
    Other(u32),
}

/// What a kind of object has besides its place.
///
/// `size` is the measure that the kind has, in millionths: the radius of a circle, the size of a
/// point, the scale of a hatch or a block, the width of a spline, the thickness of a wall, the
/// height of a text. `style` is the number of its named style: that of a point, a wall, a text or a
/// dimension, the degree of a spline, the definition of a block. `flag` says that a polyline is
/// closed, that a text is bold, that a hatch has a pattern. `slant` is how far a text leans, in
/// millionths of a radian. `label` is the content of a text or the name of a pattern, `font` the
/// font that a text asks for itself, and `params` the values of a block's parameters.
pub struct Traits {
    pub size: i64,
    pub style: u32,
    pub flag: bool,
    pub slant: i64,
    pub label: String,
    pub font: String,
    pub params: Vec<i64>,
}

/// The model of [`Traits`].
#[verifier::ext_equal]
pub struct TraitsView {
    pub size: i64,
    pub style: u32,
    pub flag: bool,
    pub slant: i64,
    pub label: Seq<char>,
    pub font: Seq<char>,
    pub params: Seq<i64>,
}

impl View for Traits {
    type V = TraitsView;

    open spec fn view(&self) -> TraitsView {
        TraitsView {
            size: self.size,
            style: self.style,
            flag: self.flag,
            slant: self.slant,
            label: self.label@,
            font: self.font@,
            params: self.params@,
        }
    }
}

impl Duplicate for Traits {
    fn duplicate(&self) -> (r: Self) {
        Traits {
            size: self.size,
            style: self.style,
            flag: self.flag,
            slant: self.slant,
            label: self.label.clone(),
            font: self.font.clone(),
            params: copy_all(&self.params),
        }
    }
}

/// The shape of an object: what it is, the points that define it, the corners of its bounding box
/// and the angle it is turned by, in millionths of a degree.
///
/// The points of a line are its ends; the first point of a circle is its centre, and that of a
/// block reference is where the block is inserted.
pub struct Geom {
    pub kind: GeomKind,
    pub pts: Vec<Pt>,
    pub lo: Pt,
    pub hi: Pt,
    pub turn: i64,
    pub traits: Traits,
}

/// The model of a [`Geom`].
#[verifier::ext_equal]
pub struct GeomView {
    pub kind: GeomKind,
    pub pts: Seq<Pt>,
    pub lo: Pt,
    pub hi: Pt,
    pub turn: i64,
    pub traits: TraitsView,
}

impl View for Geom {
    type V = GeomView;

    open spec fn view(&self) -> GeomView {
        GeomView {
            kind: self.kind,
            pts: self.pts@,
            lo: self.lo,
            hi: self.hi,
            turn: self.turn,
            traits: self.traits@,
        }
    }
}

impl Duplicate for Geom {
    fn duplicate(&self) -> (r: Self) {
        Geom {
            kind: self.kind,
            pts: copy_all(&self.pts),
            lo: self.lo,
            hi: self.hi,
            turn: self.turn,
            traits: self.traits.duplicate(),
        }
    }
}

/// A colour as it is assigned to an object or a layer: taken over from the layer or the block, one
/// of the indexed colours, or an entry of the drawing's table of true colours.
#[derive(Clone, Copy, Debug, PartialEq, Eq, Structural)]
pub enum Color {
    ByLayer,
    ByBlock,
    Aci(u8),
    TrueColorRef(u16),
}

/// How thick a line is drawn: as the layer, the block or the application says, or a number of
/// hundredths of a millimetre.
#[derive(Clone, Copy, Debug, PartialEq, Eq, Structural)]
pub enum Lineweight {
    ByLayer,
    ByBlock,
    Default,
    Custom(u32),
}

/// How an object is drawn. The scale of its line type is in millionths.
#[derive(Clone, Copy, Debug, PartialEq, Eq, Structural)]
pub struct Style {
    pub layer: u32,
    pub color: Color,
    pub linetype: u32,
    pub ltscale: i64,
    pub lineweight: Lineweight,
    pub visible: bool,
}

/// An object of a drawing.
pub struct DObject {
    pub handle: u64,
    pub geom: Geom,
    pub style: Style,
}

/// The model of a [`DObject`].
#[verifier::ext_equal]
pub struct DObjectView {
    pub handle: u64,
    pub geom: GeomView,
    pub style: Style,
}

impl View for DObject {
    type V = DObjectView;

    open spec fn view(&self) -> DObjectView {
        DObjectView { handle: self.handle, geom: self.geom@, style: self.style }
    }
}

impl Duplicate for DObject {
    fn duplicate(&self) -> (r: Self) {
        DObject { handle: self.handle, geom: self.geom.duplicate(), style: self.style }
    }
}

/// A layer: its name and the colour that objects on it take over.
pub struct Layer {
    pub name: String,
    pub color: Color,
}

/// The model of a [`Layer`].
#[verifier::ext_equal]
pub struct LayerView {
    pub name: Seq<char>,
    pub color: Color,
}

impl View for Layer {
    type V = LayerView;

    open spec fn view(&self) -> LayerView {
        LayerView { name: self.name@, color: self.color }
    }
}

impl Duplicate for Layer {
    fn duplicate(&self) -> (r: Self) {
        Layer { name: self.name.clone(), color: self.color }
    }
}

/// A pen: a colour, a line type and a line weight under a name.
pub struct Pen {
    pub name: String,
    pub color: Color,
    pub linetype: u32,
    pub lineweight: Lineweight,
}

/// The model of a [`Pen`].
#[verifier::ext_equal]
pub struct PenView {
    pub name: Seq<char>,
    pub color: Color,
    pub linetype: u32,
    pub lineweight: Lineweight,
}

impl View for Pen {
    type V = PenView;

    open spec fn view(&self) -> PenView {
        PenView {
            name: self.name@,
            color: self.color,
            linetype: self.linetype,
            lineweight: self.lineweight,
        }
    }
}

impl Duplicate for Pen {
    fn duplicate(&self) -> (r: Self) {
        Pen {
            name: self.name.clone(),
            color: self.color,
            linetype: self.linetype,
            lineweight: self.lineweight,
        }
    }
}

/// Where a drawing's unit comes from.
#[derive(Clone, Copy, Debug, PartialEq, Eq, Structural)]
pub enum UnitSource {
    Assumed,
    Declared,
    User,
}

/// What one drawing unit measures.
#[derive(Clone, Copy, Debug, PartialEq, Eq, Structural)]
pub struct Units {
    pub nm_per_unit: u64,
    pub source: UnitSource,
}

/// Zoom and pan of a view, as the raw bits that the renderer keeps them in.
#[derive(Clone, Copy, Debug, PartialEq, Eq, Structural)]
pub struct Camera {
    pub zoom: u32,
    pub pan_x: u32,
    pub pan_y: u32,
}

/// A drawing document. `plot_colors` holds, by indexed colour, the colour it is plotted in where
/// that is another one.
pub struct Document {
    pub dobjects: Vec<DObject>,
    pub layers: Vec<Layer>,
    pub linetypes: Vec<String>,
    pub wall_styles: Vec<String>,
    pub truecolors: Vec<u32>,
    pub pens: Vec<Pen>,
    pub plot_colors: Table<Color>,
    pub current_color: Color,
    pub layouts: Vec<Camera>,
    pub active_layout: Option<usize>,
    pub units: Units,
    pub next_handle: u64,
}

/// The model of a [`Document`].
#[verifier::ext_equal]
pub struct DocView {
    pub dobjects: Seq<DObjectView>,
    pub layers: Seq<LayerView>,
    pub linetypes: Seq<Seq<char>>,
    pub wall_styles: Seq<Seq<char>>,
    pub truecolors: Seq<u32>,
    pub pens: Seq<PenView>,
    pub plot_colors: Map<u64, Color>,
    pub current_color: Color,
    pub layouts: Seq<Camera>,
    pub active_layout: Option<usize>,
    pub units: Units,
    pub next_handle: u64,
}

impl View for Document {
    type V = DocView;

    open spec fn view(&self) -> DocView {
        DocView {
            dobjects: views(self.dobjects@),
            layers: views(self.layers@),
            linetypes: views(self.linetypes@),
            wall_styles: views(self.wall_styles@),
            truecolors: self.truecolors@,
            pens: views(self.pens@),
            plot_colors: self.plot_colors@,
            current_color: self.current_color,
            layouts: self.layouts@,
            active_layout: self.active_layout,
            units: self.units,
            next_handle: self.next_handle,
        }
    }
}

impl Duplicate for Document {
    fn duplicate(&self) -> (r: Self) {
        Document {
            dobjects: duplicate_all(&self.dobjects),
            layers: duplicate_all(&self.layers),
            linetypes: duplicate_all(&self.linetypes),
            wall_styles: duplicate_all(&self.wall_styles),
            truecolors: copy_all(&self.truecolors),
            pens: duplicate_all(&self.pens),
            plot_colors: self.plot_colors.duplicate(),
            current_color: self.current_color,
            layouts: copy_all(&self.layouts),
            active_layout: self.active_layout,
            units: self.units,
            next_handle: self.next_handle,
        }
    }
}

/// The first place in a list of names that holds `name`.
pub open spec fn first_named(names: Seq<Seq<char>>, name: Seq<char>) -> Option<int>
    decreases names.len(),
{
    if names.len() == 0 {
        None
    } else if names[0] == name {
        Some(0)
    } else {
        match first_named(names.drop_first(), name) {
            Some(i) => Some(i + 1),
            None => None,
        }
    }
}

/// `first_named` is the least index that holds the name.
pub proof fn first_named_is_least(names: Seq<Seq<char>>, name: Seq<char>)
    ensures
        match first_named(names, name) {
            Some(i) => 0 <= i < names.len() && names[i] == name && forall|j: int|
                0 <= j < i ==> names[j] != name,
            None => forall|j: int| 0 <= j < names.len() ==> names[j] != name,
        },
    decreases names.len(),
{
    if names.len() > 0 && names[0] != name {
        first_named_is_least(names.drop_first(), name);
        let rest = names.drop_first();
        assert forall|j: int| 0 < j < names.len() implies names[j] == rest[j - 1] by {}
    }
}

/// Looks a name up in a list of names.
pub fn find_name(names: &Vec<String>, name: &str) -> (r: Option<usize>)
    ensures
        match r {
            Some(i) => first_named(views(names@), name@) == Some(i as int) && i < names.len(),
            None => first_named(views(names@), name@) is None,
        },
{
    let mut i: usize = 0;
    while i < names.len()
        invariant
            i <= names.len(),
            forall|j: int| 0 <= j < i ==> views(names@)[j] != name@,
        decreases names.len() - i,
    {
        if same(names[i].as_str(), name) {
            proof {
                first_named_is_least(views(names@), name@);
            }
            assert(views(names@)[i as int] == name@);
            return Some(i);
        }
        i += 1;
    }
    proof {
        first_named_is_least(views(names@), name@);
    }
    None
}

impl DocView {
    /// The names of the layers.
    pub open spec fn layer_names(self) -> Seq<Seq<char>> {
        self.layers.map_values(|l: LayerView| l.name)
    }

    /// A document whose next handle is above every handle in it, and whose handles differ.
    pub open spec fn wf(self) -> bool {
        &&& forall|i: int|
            0 <= i < self.dobjects.len() ==> (#[trigger] self.dobjects[i]).handle
                < self.next_handle
        &&& self.handles_apart()
    }

    /// Whether no two objects share a handle.
    pub open spec fn handles_apart(self) -> bool {
        forall|i: int, j: int|
            0 <= i < j < self.dobjects.len() ==> (#[trigger] self.dobjects[i]).handle != (
            #[trigger] self.dobjects[j]).handle
    }

    /// The document with one more object, under the next free handle.
    pub open spec fn pushed(self, geom: GeomView, style: Style) -> DocView {
        DocView {
            dobjects: self.dobjects.push(
                DObjectView { handle: self.next_handle, geom: geom, style: style },
            ),
            next_handle: (self.next_handle + 1) as u64,
            ..self
        }
    }
}

/// A document stays well formed when an object is pushed.
pub proof fn pushed_is_wf(d: DocView, geom: GeomView, style: Style)
    requires
        d.wf(),
        d.next_handle < u64::MAX,
    ensures
        d.pushed(geom, style).wf(),
{
}

impl Document {
    /// An empty document, with the unit that is assumed for one: a metre.
    pub fn new() -> (r: Document)
        ensures
            r@ == (DocView {
                dobjects: Seq::empty(),
                layers: Seq::empty(),
                linetypes: Seq::empty(),
                wall_styles: Seq::empty(),
                truecolors: Seq::empty(),
                pens: Seq::empty(),
                plot_colors: Map::empty(),
                current_color: Color::ByLayer,
                layouts: Seq::empty(),
                active_layout: None,
                units: (Units { nm_per_unit: 1_000_000_000, source: UnitSource::Assumed }),
                next_handle: 1,
            }),
            r@.wf(),
    {
        broadcast use group_views;

        Document {
            dobjects: Vec::new(),
            layers: Vec::new(),
            linetypes: Vec::new(),
            wall_styles: Vec::new(),
            truecolors: Vec::new(),
            pens: Vec::new(),
            plot_colors: Table::new(),
            current_color: Color::ByLayer,
            layouts: Vec::new(),
            active_layout: None,
            units: Units { nm_per_unit: 1_000_000_000, source: UnitSource::Assumed },
            next_handle: 1,
        }
    }

    /// Adds an object under a fresh handle.
    pub fn push(&mut self, geom: Geom, style: Style)
        requires
            old(self).next_handle < u64::MAX,
        ensures
            final(self)@ == old(self)@.pushed(geom@, style),
    {
        broadcast use group_views;

        let h: u64 = self.next_handle;
        self.dobjects.push(DObject { handle: h, geom: geom, style: style });
        self.next_handle = h + 1;
    }

    /// The layer of a name, where there is one.
    pub fn find_layer(&self, name: &str) -> (r: Option<usize>)
        ensures
            match r {
                Some(i) => first_named(self@.layer_names(), name@) == Some(i as int) && i
                    < self.layers.len(),
                None => first_named(self@.layer_names(), name@) is None,
            },
    {
        let ghost names = self@.layer_names();
        let mut i: usize = 0;
        while i < self.layers.len()
            invariant
                i <= self.layers.len(),
                names == self@.layer_names(),
                forall|j: int| 0 <= j < i ==> names[j] != name@,
            decreases self.layers.len() - i,
        {
            if same(self.layers[i].name.as_str(), name) {
                proof {
                    first_named_is_least(names, name@);
                }
                assert(names[i as int] == name@);
                return Some(i);
            }
            i += 1;
        }
        proof {
            first_named_is_least(names, name@);
        }
        None
    }
}

/// An object that is added is the last, as it was given, with a handle that no object had. The others
/// and the rest of the drawing stay.
pub proof fn pushed_object_is_the_last(d: DocView, geom: GeomView, style: Style)
    requires
        d.wf(),
        d.next_handle < u64::MAX,
    ensures
        ({
            let e = d.pushed(geom, style);
            &&& e.dobjects.len() == d.dobjects.len() + 1
            &&& e.dobjects.last().geom == geom && e.dobjects.last().style == style
            &&& forall|i: int|
                0 <= i < d.dobjects.len() ==> e.dobjects[i] == #[trigger] d.dobjects[i]
                    && d.dobjects[i].handle != e.dobjects.last().handle
            &&& e.layers == d.layers && e.units == d.units && e.pens == d.pens
        }),
{
}

} // verus!
