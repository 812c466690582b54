//! Entering the 3D window: the unit that is built in, and the names of its planes.
use vstd::prelude::*;

use crate::app::{AppView, CadApp};
use crate::commands::CmdView;
use crate::copying::group_views;
use crate::doc::{UnitSource, Units};
use crate::factory::{FactoryDataView, FactoryState, FactoryView, SketchView};
use crate::text::{cat2, cat3, cat5, trim, trimmed};
use crate::undo::{find_sketch, sketch_index};

verus! {

/// A unit that can be built in: what its button says, what it measures, and whether it is the one
/// in use.
pub struct UnitOption {
    pub label: String,
    pub nm: u64,
    pub on: bool,
}

/// The units that can be built in.
pub open spec fn offered_units() -> Seq<(Seq<char>, u64)> {
    seq![
        ("Millimetres   mm"@, 1_000_000u64),
        ("Centimetres   cm"@, 10_000_000u64),
        ("Metres   m"@, 1_000_000_000u64),
        ("Inches   in"@, 25_400_000u64),
        ("Feet   ft"@, 304_800_000u64),
    ]
}

fn unit_option(label: &str, nm: u64, current: u64) -> (r: UnitOption)
    ensures
        r.label@ == label@,
        r.nm == nm,
        r.on == (nm == current),
{
    UnitOption { label: String::from_str(label), nm: nm, on: nm == current }
}

impl AppView {
    /// After the 3D window has been opened. The command window comes up every time; the question
    /// for the unit only until it has been answered.
    pub open spec fn factory_entered(self, unit: Seq<char>) -> AppView {
        let s = AppView { cmds: CmdView { cmd_window_open: true, ..self.cmds }, ..self }.said(
            "  3D Factory — working unit: "@ + unit + ". Everything you type is in "@ + unit + "."@,
        );
        AppView {
            factory: FactoryView {
                ask_unit: s.factory.ask_unit || !s.factory.unit_asked,
                ..s.factory
            },
            ..s
        }
    }

    /// After a unit to build in has been chosen. Nothing moves: lengths are kept in metres.
    pub open spec fn unit_chosen(self, nm: u64, unit: Seq<char>) -> AppView {
        AppView {
            factory: FactoryView {
                units: Units { nm_per_unit: nm, source: UnitSource::User },
                unit_asked: true,
                ask_unit: false,
                status: "Working unit: "@ + unit + ". Nothing moved."@,
                ..self.factory
            },
            ..self
        }.said("  working unit set to "@ + unit)
    }

    /// After the rename of a plane has been answered. The plane is found by its own number, so a
    /// plane that is gone by then is not mistaken for the one that stands in its row.
    pub open spec fn plane_renamed(self, text: Seq<char>) -> AppView {
        let s = AppView {
            factory: FactoryView { rename_plane: None, ..self.factory },
            ..self
        };
        match self.factory.rename_plane {
            None => self,
            Some((id, _)) => match sketch_index(self.factory.data.sketches, id) {
                Some(i) if trimmed(text).len() > 0 => {
                    let sk = self.factory.data.sketches[i];
                    let t = s.said(
                        "  plane '"@ + sk.name + "' renamed to '"@ + trimmed(text) + "'"@,
                    );
                    AppView {
                        factory: FactoryView {
                            data: FactoryDataView {
                                sketches: t.factory.data.sketches.update(
                                    i,
                                    SketchView { name: trimmed(text), ..sk },
                                ),
                                ..t.factory.data
                            },
                            dirty: true,
                            ..t.factory
                        },
                        ..t
                    }
                },
                _ => s,
            },
        }
    }
}

impl FactoryState {
    fn name_plane(&mut self, i: usize, name: String)
        requires
            i < old(self)@.data.sketches.len(),
        ensures
            final(self)@ == (FactoryView {
                data: FactoryDataView {
                    sketches: old(self)@.data.sketches.update(
                        i as int,
                        SketchView { name: name@, ..old(self)@.data.sketches[i as int] },
                    ),
                    ..old(self)@.data
                },
                dirty: true,
                ..old(self)@
            }),
    {
        broadcast use group_views;

        let ghost before = self.data.sketches@;
        self.data.sketches[i].name = name;
        self.dirty = true;
        assert(self.data.sketches@ =~= before.update(i as int, self.data.sketches@[i as int]));
    }

    fn keep_typed(&mut self, text: &str)
        ensures
            final(self)@ == (FactoryView {
                rename_plane: match old(self)@.rename_plane {
                    Some((id, _)) => Some((id, text@)),
                    None => None,
                },
                ..old(self)@
            }),
    {
        let id: Option<u32> = match &self.rename_plane {
            Some((id, _)) => Some(*id),
            None => None,
        };
        self.rename_plane = match id {
            Some(i) => Some((i, String::from_str(text))),
            None => None,
        };
    }

    fn drop_rename(&mut self)
        ensures
            final(self)@ == (FactoryView { rename_plane: None, ..old(self)@ }),
    {
        self.rename_plane = None;
    }
}

impl CadApp {
    fn show_commands(&mut self)
        ensures
            final(self)@ == (AppView {
                cmds: CmdView { cmd_window_open: true, ..old(self)@.cmds },
                ..old(self)@
            }),
    {
        self.cmds.cmd_window_open = true;
    }

    fn ask_for_unit(&mut self)
        ensures
            final(self)@ == (AppView {
                factory: FactoryView {
                    ask_unit: old(self)@.factory.ask_unit || !old(self)@.factory.unit_asked,
                    ..old(self)@.factory
                },
                ..old(self)@
            }),
    {
        if !self.factory.unit_asked {
            self.factory.ask_unit = true;
        }
    }

    /// Takes over that the 3D window was opened; `unit` is the label of the unit in use.
    pub fn on_factory_opened(&mut self, unit: &str)
        ensures
            final(self)@ == old(self)@.factory_entered(unit@),
    {
        self.show_commands();
        self.say(
            cat5(
                "  3D Factory — working unit: ",
                unit,
                ". Everything you type is in ",
                unit,
                ".",
            ),
        );
        self.ask_for_unit();
    }

    /// What the question for the unit offers, while it is asked.
    pub fn unit_options(&self) -> (r: Vec<UnitOption>)
        ensures
            !self@.factory.ask_unit ==> r@.len() == 0,
            self@.factory.ask_unit ==> r@.len() == offered_units().len(),
            forall|i: int|
                0 <= i < r@.len() ==> (#[trigger] r@[i]).label@ == offered_units()[i].0 && r@[i].nm
                    == offered_units()[i].1 && r@[i].on == (r@[i].nm
                    == self@.factory.units.nm_per_unit),
    {
        let mut out: Vec<UnitOption> = Vec::new();
        if self.factory.ask_unit {
            let now: u64 = self.factory.units.nm_per_unit;
            out.push(unit_option("Millimetres   mm", 1_000_000, now));
            out.push(unit_option("Centimetres   cm", 10_000_000, now));
            out.push(unit_option("Metres   m", 1_000_000_000, now));
            out.push(unit_option("Inches   in", 25_400_000, now));
            out.push(unit_option("Feet   ft", 304_800_000, now));
        }
        out
    }

    fn set_working_unit(&mut self, nm: u64, status: String)
        ensures
            final(self)@ == (AppView {
                factory: FactoryView {
                    units: Units { nm_per_unit: nm, source: UnitSource::User },
                    unit_asked: true,
                    ask_unit: false,
                    status: status@,
                    ..old(self)@.factory
                },
                ..old(self)@
            }),
    {
        self.factory.units = Units { nm_per_unit: nm, source: UnitSource::User };
        self.factory.unit_asked = true;
        self.factory.ask_unit = false;
        self.factory.status = status;
    }

    /// Takes the answer to the question for the unit; `unit` is the label of the chosen one.
    pub fn choose_working_unit(&mut self, nm: u64, unit: &str)
        ensures
            final(self)@ == old(self)@.unit_chosen(nm, unit@),
    {
        self.set_working_unit(nm, cat3("Working unit: ", unit, ". Nothing moved."));
        self.say(cat2("  working unit set to ", unit));
    }

    fn close_rename(&mut self)
        ensures
            final(self)@ == old(self)@.rename_cancelled(),
    {
        self.factory.drop_rename();
    }

    fn set_plane_name(&mut self, i: usize, name: String)
        requires
            i < old(self)@.factory.data.sketches.len(),
        ensures
            final(self)@ == (AppView {
                factory: FactoryView {
                    data: FactoryDataView {
                        sketches: old(self)@.factory.data.sketches.update(
                            i as int,
                            SketchView {
                                name: name@,
                                ..old(self)@.factory.data.sketches[i as int]
                            },
                        ),
                        ..old(self)@.factory.data
                    },
                    dirty: true,
                    ..old(self)@.factory
                },
                ..old(self)@
            }),
    {
        self.factory.name_plane(i, name);
    }

    /// Gives up renaming a plane.
    pub fn cancel_plane_rename(&mut self)
        ensures
            final(self)@ == old(self)@.rename_cancelled(),
    {
        self.close_rename();
    }

    /// Keeps what has been typed so far for the name of a plane.
    pub fn type_plane_name(&mut self, text: &str)
        ensures
            final(self)@ == old(self)@.plane_name_typed(text@),
    {
        self.factory.keep_typed(text);
    }

    /// Gives the plane that is being renamed its new name. A blank name keeps the old one.
    pub fn factory_commit_plane_rename(&mut self, text: &str)
        ensures
            final(self)@ == old(self)@.plane_renamed(text@),
    {
        let id: u32 = match &self.factory.rename_plane {
            None => {
                return;
            },
            Some((id, _)) => *id,
        };
        self.close_rename();
        let t = trim(text);
        if t.unicode_len() == 0 {
            return;
        }
        match find_sketch(&self.factory.data.sketches, id) {
            Some(i) => {
                assert(self@.factory.data.sketches[i as int]
                    == self.factory.data.sketches@[i as int]@);
                let line = cat5(
                    "  plane '",
                    self.factory.data.sketches[i].name.as_str(),
                    "' renamed to '",
                    t,
                    "'",
                );
                self.rename_said(i, line, String::from_str(t));
            },
            None => {},
        }
    }

    fn rename_said(&mut self, i: usize, line: String, name: String)
        requires
            i < old(self)@.factory.data.sketches.len(),
        ensures
            final(self)@ == ({
                let t = old(self)@.said(line@);
                AppView {
                    factory: FactoryView {
                        data: FactoryDataView {
                            sketches: t.factory.data.sketches.update(
                                i as int,
                                SketchView { name: name@, ..old(self)@.factory.data.sketches[i as int] },
                            ),
                            ..t.factory.data
                        },
                        dirty: true,
                        ..t.factory
                    },
                    ..t
                }
            }),
    {
        self.say(line);
        proof {
            reveal(AppView::said);
        }
        self.set_plane_name(i, name);
    }
}

/// The question for the unit is asked once: after it has been answered, opening the 3D window asks
/// no more.
pub proof fn unit_is_asked_once(s: AppView, nm: u64, answer: Seq<char>, later: Seq<char>)
    ensures
        !s.unit_chosen(nm, answer).factory_entered(later).factory.ask_unit,
{
    reveal(AppView::said);
}

/// Renaming a plane changes the name of that plane and of no other.
pub proof fn rename_changes_one_plane(s: AppView, id: u32, text: Seq<char>, i: int)
    requires
        s.factory.rename_plane is Some,
        (s.factory.rename_plane->0).0 == id,
        0 <= i < s.factory.data.sketches.len(),
        s.factory.data.sketches[i].id != id,
    ensures
        s.plane_renamed(text).factory.data.sketches.len() == s.factory.data.sketches.len(),
        s.plane_renamed(text).factory.data.sketches[i] == s.factory.data.sketches[i],
        s.plane_renamed(text).factory.rename_plane is None,
{
    reveal(AppView::said);
    crate::undo::sketch_index_is_least(s.factory.data.sketches, id);
}

/// Setting the working unit sets that unit and moves nothing: the model, the drawing and the history
/// of edits stay. It is not asked for again.
pub proof fn chosen_unit_moves_nothing(s: AppView, nm: u64, unit: Seq<char>)
    ensures
        s.unit_chosen(nm, unit).factory.units.nm_per_unit == nm,
        s.unit_chosen(nm, unit).factory.units.source == UnitSource::User,
        s.unit_chosen(nm, unit).factory.unit_asked,
        !s.unit_chosen(nm, unit).factory.ask_unit,
        s.unit_chosen(nm, unit).factory.data == s.factory.data,
        s.unit_chosen(nm, unit).factory.session == s.factory.session,
        s.unit_chosen(nm, unit).doc == s.doc,
        s.unit_chosen(nm, unit).undo == s.undo,
        s.unit_chosen(nm, unit).light == s.light,
{
    reveal(AppView::said);
}

/// The first entry to the model asks for the unit, and every entry opens the command window.
pub proof fn first_entry_asks_for_the_unit(s: AppView, unit: Seq<char>)
    ensures
        !s.factory.unit_asked ==> s.factory_entered(unit).factory.ask_unit,
        s.factory.unit_asked ==> s.factory_entered(unit).factory == s.factory,
        s.factory_entered(unit).cmds.cmd_window_open,
        s.factory_entered(unit).factory.data == s.factory.data,
        s.factory_entered(unit).factory.units == s.factory.units,
        s.factory_entered(unit).doc == s.doc,
{
    reveal(AppView::said);
}

/// A plane that is renamed has the text that was typed, without white space around it, and keeps
/// everything else; a blank text renames nothing. The model is to be saved where the name changed.
pub proof fn renamed_plane_has_the_text(s: AppView, id: u32, text: Seq<char>, i: int)
    requires
        s.factory.rename_plane is Some,
        (s.factory.rename_plane->0).0 == id,
        crate::undo::sketch_index(s.factory.data.sketches, id) == Some(i),
    ensures
        ({
            let a = s.factory.data.sketches[i];
            let t = s.plane_renamed(text);
            let b = t.factory.data.sketches[i];
            &&& a.id == id
            &&& trimmed(text).len() > 0 ==> b.name == trimmed(text) && t.factory.dirty
            &&& trimmed(text).len() == 0 ==> t.factory.data == s.factory.data
            &&& b == (SketchView { name: b.name, ..a })
            &&& t.factory.rename_plane is None
            &&& t.doc == s.doc && t.undo == s.undo
        }),
{
    reveal(AppView::said);
    crate::undo::sketch_index_is_least(s.factory.data.sketches, id);
}

/// The units that are offered are those that a drawing is measured in, in the same order.
pub proof fn offered_units_are_the_named_ones(i: int)
    requires
        0 <= i < 5,
    ensures
        offered_units().len() == crate::units::named_units().len(),
        offered_units()[i].1 == crate::units::named_units()[i].1,
{
}

impl AppView {
    /// After the renaming of a plane has been given up.
    pub open spec fn rename_cancelled(self) -> AppView {
        AppView { factory: FactoryView { rename_plane: None, ..self.factory }, ..self }
    }

    /// After a name has been typed for the plane that is being renamed.
    pub open spec fn plane_name_typed(self, text: Seq<char>) -> AppView {
        AppView {
            factory: FactoryView {
                rename_plane: match self.factory.rename_plane {
                    Some((id, _)) => Some((id, text)),
                    None => None,
                },
                ..self.factory
            },
            ..self
        }
    }
}

/// Typing a name renames nothing yet and keeps the plane that it is for; a renaming that was given up
/// renames nothing any more.
pub proof fn typed_name_is_for_its_plane(s: AppView, text: Seq<char>, later: Seq<char>)
    ensures
        ({
            let t = s.plane_name_typed(text);
            &&& t.factory.data == s.factory.data && t.doc == s.doc && t.undo == s.undo
            &&& t.factory.rename_plane is Some <==> s.factory.rename_plane is Some
            &&& s.factory.rename_plane is Some ==> (t.factory.rename_plane->0).0
                == (s.factory.rename_plane->0).0 && (t.factory.rename_plane->0).1 == text
            &&& t.plane_renamed(later).factory.data == s.plane_renamed(later).factory.data
        }),
        s.rename_cancelled().factory.rename_plane is None,
        s.rename_cancelled().factory.data == s.factory.data,
        s.rename_cancelled().plane_renamed(later).factory.data == s.factory.data,
{
    reveal(AppView::said);
}

} // verus!
