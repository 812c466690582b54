//! The colour picker and the pens: who asked for a colour, and what the answer changes.
use vstd::prelude::*;

use crate::app::{AppView, CadApp};
use crate::copying::{copy_all, group_views, opt_view, views};
use crate::doc::{Color, DObjectView, DocView, Document, LayerView, PenView, Style};
use crate::edits::PropEdit;
use crate::inspect::{kind_label, kind_name};
use crate::text::{
    cat2, cat3, cat4, cat5, dec, dec_text, hex_byte, hex_byte_text, parse_unsigned, trim, trimmed,
    unsigned,
};

verus! {

/// Which of a dimension style's colours is picked.
#[derive(Clone, Copy, Debug, PartialEq, Eq, Structural)]
pub enum DimColorSlot {
    DimLine,
    ExtLine,
    Text,
}

/// Which of a wall style's colours is picked.
#[derive(Clone, Copy, Debug, PartialEq, Eq, Structural)]
pub enum WallColorSlot {
    Fill,
    Face,
}

/// Who asked for a colour.
#[derive(Clone, Copy, Debug, PartialEq, Eq, Structural)]
pub enum AciPickRequest {
    Layer(u32),
    Dobject(usize),
    DobjectMany,
    DimStyleForm(DimColorSlot),
    WallStyleForm(WallColorSlot),
    BlockForm,
    ScriptParam(usize),
    CurrentColor,
    PlotStyleColor,
}

/// The colours in the form for a dimension style.
#[derive(Clone, Copy, Debug, PartialEq, Eq, Structural)]
pub struct DimForm {
    pub color: Option<u8>,
    pub ext_color: Option<u8>,
    pub text_color: Option<u8>,
}

/// The colours in the form for a wall style.
#[derive(Clone, Copy, Debug, PartialEq, Eq, Structural)]
pub struct WallForm {
    pub fill: Option<u8>,
    pub face: Option<u8>,
}

/// The colour in the form for a block.
#[derive(Clone, Copy, Debug, PartialEq, Eq, Structural)]
pub struct BlockForm {
    pub color: Option<u8>,
}

/// The form for the parameters of a script: their names and their values.
pub struct ScriptForm {
    pub names: Vec<String>,
    pub values: Vec<String>,
}

/// The model of a [`ScriptForm`].
pub struct ScriptFormView {
    pub names: Seq<Seq<char>>,
    pub values: Seq<Seq<char>>,
}

impl View for ScriptForm {
    type V = ScriptFormView;

    open spec fn view(&self) -> ScriptFormView {
        ScriptFormView { names: views(self.names@), values: views(self.values@) }
    }
}

/// The state of the property windows.
///
/// `edit_gesture` says that a drag or an entry in a field has been recorded already, and
/// `script_preview_due` that the preview of a script has to be made again.
pub struct PropsState {
    pub edit_gesture: bool,
    pub aci_request: Option<AciPickRequest>,
    pub aci_many: Vec<usize>,
    pub manual_entry: String,
    pub plotstyle_sel: Vec<u8>,
    pub dim_form: Option<DimForm>,
    pub wall_form: Option<WallForm>,
    pub block_form: Option<BlockForm>,
    pub script_form: Option<ScriptForm>,
    pub script_preview_due: bool,
}

/// The model of a [`PropsState`].
pub struct PropsView {
    pub edit_gesture: bool,
    pub aci_request: Option<AciPickRequest>,
    pub aci_many: Seq<usize>,
    pub manual_entry: Seq<char>,
    pub plotstyle_sel: Seq<u8>,
    pub dim_form: Option<DimForm>,
    pub wall_form: Option<WallForm>,
    pub block_form: Option<BlockForm>,
    pub script_form: Option<ScriptFormView>,
    pub script_preview_due: bool,
}

impl View for PropsState {
    type V = PropsView;

    open spec fn view(&self) -> PropsView {
        PropsView {
            edit_gesture: self.edit_gesture,
            aci_request: self.aci_request,
            aci_many: self.aci_many@,
            manual_entry: self.manual_entry@,
            plotstyle_sel: self.plotstyle_sel@,
            dim_form: self.dim_form,
            wall_form: self.wall_form,
            block_form: self.block_form,
            script_form: opt_view(self.script_form),
            script_preview_due: self.script_preview_due,
        }
    }
}

impl PropsView {
    /// The property windows as the application starts with them.
    pub open spec fn fresh() -> PropsView {
        PropsView {
            edit_gesture: false,
            aci_request: None,
            aci_many: Seq::empty(),
            manual_entry: Seq::empty(),
            plotstyle_sel: Seq::empty(),
            dim_form: None,
            wall_form: None,
            block_form: None,
            script_form: None,
            script_preview_due: false,
        }
    }
}

impl PropsState {
    /// The property windows as the application starts with them.
    pub fn new() -> (r: PropsState)
        ensures
            r@ == PropsView::fresh(),
    {
        PropsState {
            edit_gesture: false,
            aci_request: None,
            aci_many: Vec::new(),
            manual_entry: String::new(),
            plotstyle_sel: Vec::new(),
            dim_form: None,
            wall_form: None,
            block_form: None,
            script_form: None,
            script_preview_due: false,
        }
    }
}

impl AppView {
    /// What the picker says it is picking a colour for.
    pub open spec fn picker_subject(self, req: AciPickRequest) -> Seq<char> {
        match req {
            AciPickRequest::Layer(id) => if id < self.doc.layers.len() {
                self.doc.layers[id as int].name
            } else {
                "layer #"@ + dec(id as nat)
            },
            AciPickRequest::Dobject(ix) => (if ix < self.doc.dobjects.len() {
                kind_name(self.doc.dobjects[ix as int].geom.kind)
            } else {
                "dobject"@
            }) + " #"@ + dec(ix as nat),
            AciPickRequest::DobjectMany => dec(self.props.aci_many.len()) + " dobjects"@,
            AciPickRequest::DimStyleForm(DimColorSlot::DimLine) => "dimension dim line"@,
            AciPickRequest::DimStyleForm(DimColorSlot::ExtLine) => "dimension extension lines"@,
            AciPickRequest::DimStyleForm(DimColorSlot::Text) => "dimension text"@,
            AciPickRequest::WallStyleForm(WallColorSlot::Fill) => "wall fill"@,
            AciPickRequest::WallStyleForm(WallColorSlot::Face) => "wall faces"@,
            AciPickRequest::BlockForm => "block instance"@,
            AciPickRequest::ScriptParam(ix) => match self.props.script_form {
                Some(f) if ix < f.names.len() => f.names[ix as int],
                _ => "script parameter #"@ + dec(ix as nat),
            },
            AciPickRequest::CurrentColor => "current color"@,
            AciPickRequest::PlotStyleColor => "plot color ("@ + dec(
                self.props.plotstyle_sel.len(),
            ) + " styles)"@,
        }
    }

    /// The title of the picker.
    pub open spec fn picker_title(self) -> Option<Seq<char>> {
        match self.props.aci_request {
            Some(req) => Some("ACI color — "@ + self.picker_subject(req)),
            None => None,
        }
    }
}

/// What the picker says of the colour under the pointer, an indexed one and its channels.
pub open spec fn hover_readout(at: Option<(u8, u8, u8, u8)>) -> Seq<char> {
    match at {
        Some((aci, r, g, b)) => "Hover: ACI "@ + dec(aci as nat) + "   RGB "@ + dec(r as nat) + ","@
            + dec(g as nat) + ","@ + dec(b as nat) + "   #"@ + hex_byte(r) + hex_byte(g) + hex_byte(
            b,
        ),
        None => "(hover a circle for ACI / RGB)"@,
    }
}

/// What the picker says of the colour under the pointer, an indexed one and its channels.
pub fn hover_text(at: Option<(u8, u8, u8, u8)>) -> (t: String)
    ensures
        t@ == hover_readout(at),
{
    match at {
        Some((aci, r, g, b)) => {
            let head = cat3("Hover: ACI ", dec_text(aci as u64).as_str(), "   RGB ");
            let channels = cat5(
                dec_text(r as u64).as_str(),
                ",",
                dec_text(g as u64).as_str(),
                ",",
                dec_text(b as u64).as_str(),
            );
            let code = cat4(
                "   #",
                hex_byte_text(r).as_str(),
                hex_byte_text(g).as_str(),
                hex_byte_text(b).as_str(),
            );
            let t = cat3(head.as_str(), channels.as_str(), code.as_str());
            assert(t@ =~= hover_readout(at));
            t
        },
        None => String::from_str("(hover a circle for ACI / RGB)"),
    }
}

/// The indexed colour that an entry names: a number up to two hundred and fifty-five.
pub open spec fn entered_color(text: Seq<char>) -> Option<u8> {
    match unsigned(trimmed(text), 255) {
        Some(n) => Some(n as u8),
        None => None,
    }
}

impl CadApp {
    fn layer_subject(&self, id: u32) -> (r: String)
        ensures
            r@ == self@.picker_subject(AciPickRequest::Layer(id)),
    {
        if (id as u64) < self.doc.layers.len() as u64 {
            assert(self@.doc.layers[id as int] == self.doc.layers@[id as int]@);
            self.doc.layers[id as usize].name.clone()
        } else {
            cat2("layer #", dec_text(id as u64).as_str())
        }
    }

    fn object_subject(&self, ix: usize) -> (r: String)
        ensures
            r@ == self@.picker_subject(AciPickRequest::Dobject(ix)),
    {
        let n = dec_text(ix as u64);
        if ix < self.doc.dobjects.len() {
            assert(self@.doc.dobjects[ix as int] == self.doc.dobjects@[ix as int]@);
            cat3(kind_label(self.doc.dobjects[ix].geom.kind), " #", n.as_str())
        } else {
            cat3("dobject", " #", n.as_str())
        }
    }

    fn param_subject(&self, ix: usize) -> (r: String)
        ensures
            r@ == self@.picker_subject(AciPickRequest::ScriptParam(ix)),
    {
        if let Some(f) = &self.props.script_form {
            assert(self@.props.script_form == Some(f@));
            if ix < f.names.len() {
                assert(f@.names[ix as int] == f.names@[ix as int]@);
                return f.names[ix].clone();
            }
        }
        cat2("script parameter #", dec_text(ix as u64).as_str())
    }

    fn form_subject(&self, req: AciPickRequest) -> (r: Option<&'static str>)
        ensures
            r is Some ==> r->0@ == self@.picker_subject(req),
            r is None <==> req is Layer || req is Dobject || req is DobjectMany || req is ScriptParam
                || req is PlotStyleColor,
    {
        match req {
            AciPickRequest::DimStyleForm(slot) => match slot {
                DimColorSlot::DimLine => Some("dimension dim line"),
                DimColorSlot::ExtLine => Some("dimension extension lines"),
                DimColorSlot::Text => Some("dimension text"),
            },
            AciPickRequest::WallStyleForm(slot) => match slot {
                WallColorSlot::Fill => Some("wall fill"),
                WallColorSlot::Face => Some("wall faces"),
            },
            AciPickRequest::BlockForm => Some("block instance"),
            AciPickRequest::CurrentColor => Some("current color"),
            _ => None,
        }
    }

    fn subject(&self, req: AciPickRequest) -> (r: String)
        ensures
            r@ == self@.picker_subject(req),
    {
        if let Some(t) = self.form_subject(req) {
            return String::from_str(t);
        }
        match req {
            AciPickRequest::Layer(id) => self.layer_subject(id),
            AciPickRequest::Dobject(ix) => self.object_subject(ix),
            AciPickRequest::DobjectMany => cat2(
                dec_text(self.props.aci_many.len() as u64).as_str(),
                " dobjects",
            ),
            AciPickRequest::ScriptParam(ix) => self.param_subject(ix),
            _ => cat3(
                "plot color (",
                dec_text(self.props.plotstyle_sel.len() as u64).as_str(),
                " styles)",
            ),
        }
    }

    /// The title of the picker, while a colour is asked for.
    pub fn aci_picker_title(&self) -> (r: Option<String>)
        ensures
            opt_view(r) == self@.picker_title(),
    {
        match self.props.aci_request {
            Some(req) => {
                let s = self.subject(req);
                Some(cat2("ACI color — ", s.as_str()))
            },
            None => None,
        }
    }

    /// Takes the number that was typed. It returns the colour, and clears the entry; an entry that
    /// names no colour stays to be corrected.
    pub fn enter_aci(&mut self) -> (r: Option<u8>)
        ensures
            r == entered_color(old(self)@.props.manual_entry),
            final(self)@ == (AppView {
                props: PropsView {
                    manual_entry: if r is Some {
                        Seq::empty()
                    } else {
                        old(self)@.props.manual_entry
                    },
                    ..old(self)@.props
                },
                ..old(self)@
            }),
    {
        let n: Option<u64> = parse_unsigned(trim(self.props.manual_entry.as_str()), 255);
        match n {
            Some(v) => {
                self.props.manual_entry = String::new();
                Some(v as u8)
            },
            None => None,
        }
    }
}

impl DocView {
    /// With the colour of a layer set, where there is such a layer.
    pub open spec fn layer_colored(self, id: u32, c: Color) -> DocView {
        if id < self.layers.len() {
            DocView {
                layers: self.layers.update(
                    id as int,
                    LayerView { color: c, ..self.layers[id as int] },
                ),
                ..self
            }
        } else {
            self
        }
    }

    /// With the colour of an object set, where there is such an object.
    pub open spec fn object_colored(self, ix: usize, c: Color) -> DocView {
        if ix < self.dobjects.len() {
            let o = self.dobjects[ix as int];
            DocView {
                dobjects: self.dobjects.update(
                    ix as int,
                    DObjectView { style: Style { color: c, ..o.style }, ..o },
                ),
                ..self
            }
        } else {
            self
        }
    }

    /// With the colour that some indexed colours are plotted in set.
    pub open spec fn plotted_in(self, sel: Seq<u8>, c: Color) -> DocView {
        DocView { plot_colors: plot_colors_set(self.plot_colors, sel, c), ..self }
    }
}

/// A table of plot colours after the same colour has been given to several entries.
pub open spec fn plot_colors_set(t: Map<u64, Color>, sel: Seq<u8>, c: Color) -> Map<u64, Color>
    decreases sel.len(),
{
    if sel.len() == 0 {
        t
    } else {
        plot_colors_set(t, sel.drop_last(), c).insert(sel.last() as u64, c)
    }
}

impl PropsView {
    /// With a colour put into the form for a dimension style, where that is open.
    pub open spec fn dim_colored(self, slot: DimColorSlot, aci: u8) -> PropsView {
        match self.dim_form {
            Some(f) => PropsView {
                dim_form: Some(
                    match slot {
                        DimColorSlot::DimLine => DimForm { color: Some(aci), ..f },
                        DimColorSlot::ExtLine => DimForm { ext_color: Some(aci), ..f },
                        DimColorSlot::Text => DimForm { text_color: Some(aci), ..f },
                    },
                ),
                ..self
            },
            None => self,
        }
    }

    /// With a colour put into the form for a wall style, where that is open.
    pub open spec fn wall_colored(self, slot: WallColorSlot, aci: u8) -> PropsView {
        match self.wall_form {
            Some(f) => PropsView {
                wall_form: Some(
                    match slot {
                        WallColorSlot::Fill => WallForm { fill: Some(aci), ..f },
                        WallColorSlot::Face => WallForm { face: Some(aci), ..f },
                    },
                ),
                ..self
            },
            None => self,
        }
    }

    /// With a colour put into the form for a block, where that is open.
    pub open spec fn block_colored(self, aci: u8) -> PropsView {
        match self.block_form {
            Some(_) => PropsView { block_form: Some(BlockForm { color: Some(aci) }), ..self },
            None => self,
        }
    }

    /// With a colour put into the form for a script, where it has that parameter.
    pub open spec fn param_colored(self, ix: usize, aci: u8) -> PropsView {
        PropsView {
            script_form: match self.script_form {
                Some(f) if ix < f.values.len() => Some(
                    ScriptFormView { values: f.values.update(ix as int, dec(aci as nat)), ..f },
                ),
                f => f,
            },
            script_preview_due: true,
            ..self
        }
    }
}

impl AppView {
    /// With a given document.
    pub open spec fn with_doc(self, d: DocView) -> AppView {
        AppView { doc: d, ..self }
    }

    /// With a given state of the property windows.
    pub open spec fn with_props(self, p: PropsView) -> AppView {
        AppView { props: p, ..self }
    }

    /// After a picked colour has gone to whoever asked for it.
    pub open spec fn color_given(self, req: AciPickRequest, aci: u8) -> AppView {
        let c = Color::Aci(aci);
        match req {
            AciPickRequest::Layer(id) => self.with_doc(self.doc.layer_colored(id, c)).touched(),
            AciPickRequest::Dobject(ix) => self.with_doc(self.doc.object_colored(ix, c)).touched(),
            AciPickRequest::DobjectMany => self.with_props(
                PropsView { aci_many: Seq::empty(), ..self.props },
            ).props_applied(self.props.aci_many, true, PropEdit::Color(c)),
            AciPickRequest::DimStyleForm(slot) => self.with_props(
                self.props.dim_colored(slot, aci),
            ),
            AciPickRequest::WallStyleForm(slot) => self.with_props(
                self.props.wall_colored(slot, aci),
            ),
            AciPickRequest::BlockForm => self.with_props(self.props.block_colored(aci)),
            AciPickRequest::CurrentColor => self.with_doc(
                DocView { current_color: c, ..self.doc },
            ).touched().said("  color: current → ACI "@ + dec(aci as nat)),
            AciPickRequest::PlotStyleColor => self.with_doc(
                self.doc.plotted_in(self.props.plotstyle_sel, c),
            ),
            AciPickRequest::ScriptParam(ix) => self.with_props(self.props.param_colored(ix, aci)),
        }
    }

    /// After the request for a colour has been dropped.
    pub open spec fn picker_closed(self) -> AppView {
        self.with_props(PropsView { aci_request: None, ..self.props })
    }

    /// After a colour has been picked: whoever asked gets it, and the picker closes.
    pub open spec fn color_picked(self, aci: u8) -> AppView {
        match self.props.aci_request {
            Some(req) => self.color_given(req, aci).picker_closed(),
            None => self,
        }
    }
}

impl Document {
    fn color_layer(&mut self, id: u32, c: Color)
        ensures
            final(self)@ == old(self)@.layer_colored(id, c),
    {
        broadcast use group_views;

        if (id as u64) < self.layers.len() as u64 {
            let ghost before = self.layers@;
            self.layers[id as usize].color = c;
            assert(self.layers@ =~= before.update(id as int, self.layers@[id as int]));
            assert(views(before)[id as int] == before[id as int]@);
        }
    }

    fn color_object(&mut self, ix: usize, c: Color)
        ensures
            final(self)@ == old(self)@.object_colored(ix, c),
    {
        broadcast use group_views;

        if ix < self.dobjects.len() {
            let ghost before = self.dobjects@;
            self.dobjects[ix].style.color = c;
            assert(self.dobjects@ =~= before.update(ix as int, self.dobjects@[ix as int]));
            assert(views(before)[ix as int] == before[ix as int]@);
        }
    }

    fn color_plots(&mut self, sel: &Vec<u8>, c: Color)
        ensures
            final(self)@ == old(self)@.plotted_in(sel@, c),
    {
        let ghost was = self@;
        let mut i: usize = 0;
        while i < sel.len()
            invariant
                i <= sel.len(),
                self@ == was.plotted_in(sel@.subrange(0, i as int), c),
            decreases sel.len() - i,
        {
            assert(sel@.subrange(0, i + 1).drop_last() =~= sel@.subrange(0, i as int));
            self.plot_colors.insert(sel[i] as u64, c);
            i += 1;
        }
        assert(sel@.subrange(0, i as int) =~= sel@);
    }
}

impl PropsState {
    fn color_dim(&mut self, slot: DimColorSlot, aci: u8)
        ensures
            final(self)@ == old(self)@.dim_colored(slot, aci),
    {
        if let Some(f) = self.dim_form {
            let g = match slot {
                DimColorSlot::DimLine => DimForm { color: Some(aci), ..f },
                DimColorSlot::ExtLine => DimForm { ext_color: Some(aci), ..f },
                DimColorSlot::Text => DimForm { text_color: Some(aci), ..f },
            };
            self.dim_form = Some(g);
        }
    }

    fn color_wall(&mut self, slot: WallColorSlot, aci: u8)
        ensures
            final(self)@ == old(self)@.wall_colored(slot, aci),
    {
        if let Some(f) = self.wall_form {
            let g = match slot {
                WallColorSlot::Fill => WallForm { fill: Some(aci), ..f },
                WallColorSlot::Face => WallForm { face: Some(aci), ..f },
            };
            self.wall_form = Some(g);
        }
    }

    fn color_block(&mut self, aci: u8)
        ensures
            final(self)@ == old(self)@.block_colored(aci),
    {
        if self.block_form.is_some() {
            self.block_form = Some(BlockForm { color: Some(aci) });
        }
    }

    fn color_param(&mut self, ix: usize, aci: u8)
        ensures
            final(self)@ == old(self)@.param_colored(ix, aci),
    {
        broadcast use group_views;

        let text = dec_text(aci as u64);
        if let Some(f) = &mut self.script_form {
            if ix < f.values.len() {
                f.values.set(ix, text);
            }
        }
        self.script_preview_due = true;
    }
}

impl CadApp {
    fn give_layer(&mut self, id: u32, c: Color)
        ensures
            final(self)@ == old(self)@.with_doc(old(self)@.doc.layer_colored(id, c)),
    {
        self.doc.color_layer(id, c);
    }

    fn give_object(&mut self, ix: usize, c: Color)
        ensures
            final(self)@ == old(self)@.with_doc(old(self)@.doc.object_colored(ix, c)),
    {
        self.doc.color_object(ix, c);
    }

    fn give_current(&mut self, c: Color)
        ensures
            final(self)@ == old(self)@.with_doc(DocView { current_color: c, ..old(self)@.doc }),
    {
        self.doc.current_color = c;
    }

    fn give_plots(&mut self, c: Color)
        ensures
            final(self)@ == old(self)@.with_doc(
                old(self)@.doc.plotted_in(old(self)@.props.plotstyle_sel, c),
            ),
    {
        self.doc.color_plots(&self.props.plotstyle_sel, c);
    }

    fn take_many(&mut self) -> (r: Vec<usize>)
        ensures
            r@ == old(self)@.props.aci_many,
            final(self)@ == old(self)@.with_props(
                PropsView { aci_many: Seq::empty(), ..old(self)@.props },
            ),
    {
        let many = copy_all(&self.props.aci_many);
        self.props.aci_many = Vec::new();
        many
    }

    fn give_dim(&mut self, slot: DimColorSlot, aci: u8)
        ensures
            final(self)@ == old(self)@.with_props(old(self)@.props.dim_colored(slot, aci)),
    {
        self.props.color_dim(slot, aci);
    }

    fn give_wall(&mut self, slot: WallColorSlot, aci: u8)
        ensures
            final(self)@ == old(self)@.with_props(old(self)@.props.wall_colored(slot, aci)),
    {
        self.props.color_wall(slot, aci);
    }

    fn give_block(&mut self, aci: u8)
        ensures
            final(self)@ == old(self)@.with_props(old(self)@.props.block_colored(aci)),
    {
        self.props.color_block(aci);
    }

    fn give_param(&mut self, ix: usize, aci: u8)
        ensures
            final(self)@ == old(self)@.with_props(old(self)@.props.param_colored(ix, aci)),
    {
        self.props.color_param(ix, aci);
    }

    fn give_form(&mut self, req: AciPickRequest, aci: u8)
        requires
            req is DimStyleForm || req is WallStyleForm || req is BlockForm || req is ScriptParam
                || req is PlotStyleColor,
        ensures
            final(self)@ == old(self)@.color_given(req, aci),
    {
        match req {
            AciPickRequest::DimStyleForm(slot) => self.give_dim(slot, aci),
            AciPickRequest::WallStyleForm(slot) => self.give_wall(slot, aci),
            AciPickRequest::BlockForm => self.give_block(aci),
            AciPickRequest::ScriptParam(ix) => self.give_param(ix, aci),
            _ => self.give_plots(Color::Aci(aci)),
        }
    }

    fn give_color(&mut self, req: AciPickRequest, aci: u8)
        ensures
            final(self)@ == old(self)@.color_given(req, aci),
    {
        let c = Color::Aci(aci);
        match req {
            AciPickRequest::Layer(id) => {
                self.give_layer(id, c);
                self.touch_view();
            },
            AciPickRequest::Dobject(ix) => {
                self.give_object(ix, c);
                self.touch_view();
            },
            AciPickRequest::DobjectMany => {
                let many = self.take_many();
                self.props_apply(&many, true, &PropEdit::Color(c));
            },
            AciPickRequest::CurrentColor => {
                self.give_current(c);
                self.touch_view();
                self.say(cat2("  color: current → ACI ", dec_text(aci as u64).as_str()));
            },
            _ => self.give_form(req, aci),
        }
    }

    /// Drops the request for a colour.
    pub fn close_aci_picker(&mut self)
        ensures
            final(self)@ == old(self)@.picker_closed(),
    {
        self.props.aci_request = None;
    }

    /// Gives a picked colour to whoever asked for it, and closes the picker.
    pub fn apply_aci_pick(&mut self, aci: u8)
        ensures
            final(self)@ == old(self)@.color_picked(aci),
    {
        if let Some(req) = self.props.aci_request {
            self.give_color(req, aci);
            self.close_aci_picker();
        }
    }

    /// Asks for a colour for several objects.
    pub fn ask_color_for(&mut self, targets: &Vec<usize>)
        ensures
            final(self)@ == old(self)@.with_props(
                PropsView {
                    aci_many: targets@,
                    aci_request: Some(AciPickRequest::DobjectMany),
                    ..old(self)@.props
                },
            ),
    {
        self.props.aci_many = copy_all(targets);
        self.props.aci_request = Some(AciPickRequest::DobjectMany);
    }

    /// Reports that the arrangement of the colours was saved, or was not.
    pub fn aci_mapping_saved(&mut self, path: &str, outcome: Result<(), String>)
        ensures
            final(self)@ == old(self)@.said(
                match outcome {
                    Ok(_) => "  ACI mapping saved → "@ + path@,
                    Err(e) => "  ! ACI mapping save failed: "@ + e@,
                },
            ),
    {
        match outcome {
            Ok(_) => self.say(cat2("  ACI mapping saved → ", path)),
            Err(e) => self.say(cat2("  ! ACI mapping save failed: ", e.as_str())),
        }
    }
}

/// Picking a colour always answers the request: the picker is closed afterwards.
pub proof fn picking_closes_the_picker(s: AppView, aci: u8)
    ensures
        s.color_picked(aci).props.aci_request is None,
{
}

/// A colour that is picked for forms, plot styles or the current colour touches no object.
pub proof fn form_colors_touch_no_object(s: AppView, req: AciPickRequest, aci: u8)
    requires
        !(req is Dobject),
        !(req is DobjectMany),
    ensures
        s.color_given(req, aci).doc.dobjects == s.doc.dobjects,
{
    reveal(AppView::said);
}

/// Objects after a pen has been applied to those at the first `n` places of a selection.
pub open spec fn objects_penned(d: Seq<DObjectView>, sel: Seq<usize>, n: int, pen: PenView)
    -> Seq<DObjectView>
    decreases n,
{
    if n <= 0 {
        d
    } else {
        let before = objects_penned(d, sel, n - 1, pen);
        let i = sel[n - 1] as int;
        if i < before.len() {
            before.update(
                i,
                DObjectView {
                    style: Style {
                        color: pen.color,
                        linetype: pen.linetype,
                        lineweight: pen.lineweight,
                        ..before[i].style
                    },
                    ..before[i]
                },
            )
        } else {
            before
        }
    }
}

impl AppView {
    /// After a pen has been applied to the selection.
    pub open spec fn pen_applied(self, i: usize) -> AppView {
        if i < self.doc.pens.len() {
            let pen = self.doc.pens[i as int];
            self.with_doc(
                DocView {
                    dobjects: objects_penned(
                        self.doc.dobjects,
                        self.selection,
                        self.selection.len() as int,
                        pen,
                    ),
                    ..self.doc
                },
            ).said(
                "  pen '"@ + pen.name + "' applied to "@ + dec(self.selection.len())
                    + " dobject(s)"@,
            ).touched()
        } else {
            self
        }
    }
}

impl Document {
    fn apply_pen(&mut self, sel: &Vec<usize>, p: usize)
        requires
            p < old(self)@.pens.len(),
        ensures
            final(self)@ == (DocView {
                dobjects: objects_penned(
                    old(self)@.dobjects,
                    sel@,
                    sel@.len() as int,
                    old(self)@.pens[p as int],
                ),
                ..old(self)@
            }),
    {
        broadcast use group_views;

        let ghost was = self@;
        let ghost pen = was.pens[p as int];
        assert(pen == self.pens@[p as int]@);
        let color = self.pens[p].color;
        let linetype: u32 = self.pens[p].linetype;
        let lineweight = self.pens[p].lineweight;
        let mut n: usize = 0;
        while n < sel.len()
            invariant
                n <= sel.len(),
                color == pen.color,
                linetype == pen.linetype,
                lineweight == pen.lineweight,
                self@ == (DocView {
                    dobjects: objects_penned(was.dobjects, sel@, n as int, pen),
                    ..was
                }),
            decreases sel.len() - n,
        {
            let i: usize = sel[n];
            if i < self.dobjects.len() {
                let ghost before = self.dobjects@;
                let s: Style = self.dobjects[i].style;
                self.dobjects[i].style = Style {
                    color: color,
                    linetype: linetype,
                    lineweight: lineweight,
                    ..s
                };
                assert(self.dobjects@ =~= before.update(i as int, self.dobjects@[i as int]));
                assert(views(before)[i as int] == before[i as int]@);
            }
            n += 1;
        }
    }
}

impl CadApp {
    fn pen_selection(&mut self, i: usize)
        requires
            i < old(self)@.doc.pens.len(),
        ensures
            final(self)@ == old(self)@.with_doc(
                DocView {
                    dobjects: objects_penned(
                        old(self)@.doc.dobjects,
                        old(self)@.selection,
                        old(self)@.selection.len() as int,
                        old(self)@.doc.pens[i as int],
                    ),
                    ..old(self)@.doc
                },
            ),
    {
        self.doc.apply_pen(&self.selection, i);
    }

    /// Gives the selected objects the colour, the line type and the line weight of a pen.
    pub fn apply_pen(&mut self, i: usize)
        ensures
            final(self)@ == old(self)@.pen_applied(i),
    {
        if i < self.doc.pens.len() {
            assert(self@.doc.pens[i as int] == self.doc.pens@[i as int]@);
            let line = cat5(
                "  pen '",
                self.doc.pens[i].name.as_str(),
                "' applied to ",
                dec_text(self.selection.len() as u64).as_str(),
                " dobject(s)",
            );
            self.pen_selection(i);
            self.say(line);
            self.touch_view();
        }
    }
}

/// A colour that is picked is the colour of what it was picked for, and of nothing else.
pub proof fn picked_color_is_given(s: AppView, req: AciPickRequest, aci: u8)
    requires
        s.props.aci_request == Some(req),
    ensures
        ({
            let t = s.color_picked(aci);
            let c = Color::Aci(aci);
            match req {
                AciPickRequest::Layer(id) => {
                    &&& id < s.doc.layers.len() ==> t.doc.layers[id as int].color == c
                        && t.doc.layers[id as int].name == s.doc.layers[id as int].name
                    &&& t.doc.layers.len() == s.doc.layers.len()
                    &&& forall|j: int|
                        0 <= j < s.doc.layers.len() && j != id ==> t.doc.layers[j]
                            == #[trigger] s.doc.layers[j]
                    &&& t.doc.dobjects == s.doc.dobjects
                    &&& t.canvas.view_dirty
                },
                AciPickRequest::Dobject(ix) => {
                    &&& ix < s.doc.dobjects.len() ==> t.doc.dobjects[ix as int].style.color == c
                        && t.doc.dobjects[ix as int].geom == s.doc.dobjects[ix as int].geom
                        && t.doc.dobjects[ix as int].style.layer == s.doc.dobjects[ix as int].style.layer
                    &&& t.doc.dobjects.len() == s.doc.dobjects.len()
                    &&& forall|j: int|
                        0 <= j < s.doc.dobjects.len() && j != ix ==> t.doc.dobjects[j]
                            == #[trigger] s.doc.dobjects[j]
                    &&& t.doc.layers == s.doc.layers
                    &&& t.canvas.view_dirty
                },
                AciPickRequest::DobjectMany => t.props.aci_many.len() == 0,
                AciPickRequest::DimStyleForm(slot) => t.doc == s.doc && (s.props.dim_form matches Some(f)
                    ==> t.props.dim_form is Some && {
                    let g = t.props.dim_form->0;
                    &&& g.color == if slot == DimColorSlot::DimLine {
                        Some(aci)
                    } else {
                        f.color
                    }
                    &&& g.ext_color == if slot == DimColorSlot::ExtLine {
                        Some(aci)
                    } else {
                        f.ext_color
                    }
                    &&& g.text_color == if slot == DimColorSlot::Text {
                        Some(aci)
                    } else {
                        f.text_color
                    }
                }),
                AciPickRequest::WallStyleForm(slot) => t.doc == s.doc && (s.props.wall_form matches Some(f)
                    ==> t.props.wall_form is Some && {
                    let g = t.props.wall_form->0;
                    &&& g.fill == if slot == WallColorSlot::Fill {
                        Some(aci)
                    } else {
                        f.fill
                    }
                    &&& g.face == if slot == WallColorSlot::Face {
                        Some(aci)
                    } else {
                        f.face
                    }
                }),
                AciPickRequest::BlockForm => t.doc == s.doc && (s.props.block_form is Some
                    ==> (t.props.block_form matches Some(g) && g.color == Some(aci))),
                AciPickRequest::CurrentColor => t.doc.current_color == c && t.doc.dobjects
                    == s.doc.dobjects && t.doc.layers == s.doc.layers && t.canvas.view_dirty,
                AciPickRequest::PlotStyleColor => t.doc.dobjects == s.doc.dobjects && forall|n: u64|
                    #![trigger t.doc.plot_colors.dom().contains(n)]
                    if n < 256 && s.props.plotstyle_sel.contains(n as u8) {
                        t.doc.plot_colors.dom().contains(n) && t.doc.plot_colors[n] == c
                    } else {
                        &&& t.doc.plot_colors.dom().contains(n) == s.doc.plot_colors.dom().contains(n)
                        &&& t.doc.plot_colors.dom().contains(n) ==> t.doc.plot_colors[n]
                            == s.doc.plot_colors[n]
                    },
                AciPickRequest::ScriptParam(ix) => t.doc == s.doc && t.props.script_preview_due && (
                s.props.script_form matches Some(f) ==> t.props.script_form is Some && {
                    let g = t.props.script_form->0;
                    &&& g.names == f.names
                    &&& g.values.len() == f.values.len()
                    &&& ix < f.values.len() ==> crate::text::digits_value(g.values[ix as int]) == Some(
                        aci as nat,
                    )
                    &&& forall|j: int|
                        0 <= j < f.values.len() && j != ix ==> g.values[j] == #[trigger] f.values[j]
                }),
            }
        }),
{
    reveal(AppView::said);
    crate::text::number_text_reads_back(aci as nat);
    if req == AciPickRequest::PlotStyleColor {
        let t = s.color_picked(aci);
        assert forall|n: u64|
            #![trigger t.doc.plot_colors.dom().contains(n)]
            if n < 256 && s.props.plotstyle_sel.contains(n as u8) {
                t.doc.plot_colors.dom().contains(n) && t.doc.plot_colors[n] == Color::Aci(aci)
            } else {
                &&& t.doc.plot_colors.dom().contains(n) == s.doc.plot_colors.dom().contains(n)
                &&& t.doc.plot_colors.dom().contains(n) ==> t.doc.plot_colors[n]
                    == s.doc.plot_colors[n]
            } by {
            plotted_styles_have_the_color(s.doc.plot_colors, s.props.plotstyle_sel, Color::Aci(aci), n);
        }
    }
}

proof fn plotted_styles_have_the_color(m: Map<u64, Color>, sel: Seq<u8>, c: Color, n: u64)
    ensures
        ({
            let t = plot_colors_set(m, sel, c);
            if n < 256 && sel.contains(n as u8) {
                t.dom().contains(n) && t[n] == c
            } else {
                &&& t.dom().contains(n) == m.dom().contains(n)
                &&& t.dom().contains(n) ==> t[n] == m[n]
            }
        }),
    decreases sel.len(),
{
    if sel.len() > 0 {
        let front = sel.drop_last();
        plotted_styles_have_the_color(m, front, c, n);
        if n < 256 {
            if sel.contains(n as u8) {
                let i = choose|i: int| 0 <= i < sel.len() && sel[i] == n as u8;
                if i < front.len() {
                    assert(front[i] == n as u8);
                }
            }
            if front.contains(n as u8) {
                let i = choose|i: int| 0 <= i < front.len() && front[i] == n as u8;
                assert(sel[i] == n as u8);
            }
            assert(sel[sel.len() - 1] == sel.last());
        }
    }
}

/// The objects that a colour was picked for together all have it, as one step that undo takes back.
pub proof fn many_objects_take_the_color(s: AppView, aci: u8, k: int)
    requires
        s.props.aci_request == Some(AciPickRequest::DobjectMany),
        0 <= k < s.props.aci_many.len(),
        s.props.aci_many[k] < s.doc.dobjects.len(),
    ensures
        s.color_picked(aci).doc.dobjects[s.props.aci_many[k] as int].style.color == Color::Aci(aci),
        s.color_picked(aci).doc.dobjects[s.props.aci_many[k] as int].geom
            == s.doc.dobjects[s.props.aci_many[k] as int].geom,
{
    let t = s.with_props(PropsView { aci_many: Seq::empty(), ..s.props });
    crate::edits::edit_reads_back(t, s.props.aci_many, true, PropEdit::Color(Color::Aci(aci)), k);
    crate::edits::edit_changes_just_that(
        t,
        s.props.aci_many,
        true,
        PropEdit::Color(Color::Aci(aci)),
        s.props.aci_many[k] as int,
    );
}

/// A colour's number that is typed is that number, if it is one of the palette's.
pub proof fn typed_color_is_its_number(n: nat)
    ensures
        n <= 255 ==> entered_color(dec(n)) == Some(n as u8),
        n > 255 ==> entered_color(dec(n)) is None,
{
    crate::text::number_text_reads_back(n);
    crate::text::typed_number_is_taken(n, 255);
    let s = dec(n);
    assert(!crate::text::is_white(s[0]));
    assert(!crate::text::is_white(s.last()));
    assert(crate::text::trim_start(s) == s);
}

/// A pen gives each selected object its colour, linetype and lineweight. What else an object is
/// stays, and so does each object that is not selected.
pub proof fn pen_marks_the_selection(s: AppView, p: usize, i: int)
    requires
        p < s.doc.pens.len(),
        0 <= i < s.doc.dobjects.len(),
    ensures
        ({
            let t = s.pen_applied(p);
            let a = s.doc.dobjects[i];
            let b = t.doc.dobjects[i];
            let pen = s.doc.pens[p as int];
            &&& t.doc.dobjects.len() == s.doc.dobjects.len()
            &&& b.geom == a.geom && b.handle == a.handle
            &&& b.style.layer == a.style.layer && b.style.visible == a.style.visible
                && b.style.ltscale == a.style.ltscale
            &&& (exists|k: int| 0 <= k < s.selection.len() && (#[trigger] s.selection[k]) == i) ==> {
                b.style.color == pen.color && b.style.linetype == pen.linetype && b.style.lineweight
                    == pen.lineweight
            }
            &&& !(exists|k: int| 0 <= k < s.selection.len() && (#[trigger] s.selection[k]) == i) ==> b
                == a
            &&& t.selection == s.selection && t.doc.pens == s.doc.pens && t.canvas.view_dirty
        }),
{
    reveal(AppView::said);
    penned_so_far(s.doc.dobjects, s.selection, s.selection.len() as int, s.doc.pens[p as int], i);
}

proof fn penned_so_far(d: Seq<DObjectView>, sel: Seq<usize>, n: int, pen: PenView, i: int)
    requires
        0 <= n <= sel.len(),
        0 <= i < d.len(),
    ensures
        ({
            let a = d[i];
            let b = objects_penned(d, sel, n, pen)[i];
            &&& objects_penned(d, sel, n, pen).len() == d.len()
            &&& b.geom == a.geom && b.handle == a.handle
            &&& b.style.layer == a.style.layer && b.style.visible == a.style.visible
                && b.style.ltscale == a.style.ltscale
            &&& (exists|k: int| 0 <= k < n && (#[trigger] sel[k]) == i) ==> {
                b.style.color == pen.color && b.style.linetype == pen.linetype && b.style.lineweight
                    == pen.lineweight
            }
            &&& !(exists|k: int| 0 <= k < n && (#[trigger] sel[k]) == i) ==> b == a
        }),
    decreases n,
{
    if n > 0 {
        penned_so_far(d, sel, n - 1, pen, i);
        if exists|k: int| 0 <= k < n && (#[trigger] sel[k]) == i {
            let k = choose|k: int| 0 <= k < n && (#[trigger] sel[k]) == i;
            if k < n - 1 {
                assert(sel[k] == i);
            }
        }
        if sel[n - 1] == i {
            assert(exists|k: int| 0 <= k < n && (#[trigger] sel[k]) == i);
        }
    }
}

} // verus!
