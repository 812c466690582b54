//! The session recorder: what happened, in the order in which it happened.
use vstd::prelude::*;

use crate::app::{AppView, CadApp};
use crate::copying::{group_views, views};

verus! {

/// One thing that happened.
///
/// `ImportStage` is a timed stage of opening a file. `LightOp` is something done to the lighting,
/// with the number of fittings before and after it and the panel's message. `UndoSnapshotTaken` is
/// a step of the undo history that took the drawing along, with the depth of the history after it,
/// and `MemoryEvent` a copy that takes memory; who makes the copy has no clock, so its time is told
/// later, if at all. `UndoFired` and `RedoFired` give the depth of their stack before and after.
/// Times are in microseconds.
pub enum DbgEvent {
    ImportStage { stage: String, dobjects: usize, elapsed_us: u64, detail: String },
    LightOp {
        op: String,
        detail: String,
        fittings_before: usize,
        fittings_after: usize,
        message: String,
        elapsed_us: u64,
    },
    UndoSnapshotTaken { undo_depth_after: usize, bytes_estimate: u128 },
    MemoryEvent { name: String, bytes: u128, took_us: Option<u64> },
    UndoFired { from_depth: usize, to_depth: usize },
    RedoFired { from_depth: usize, to_depth: usize },
}

/// The model of a [`DbgEvent`].
#[verifier::ext_equal]
pub enum EventView {
    ImportStage { stage: Seq<char>, dobjects: nat, elapsed_us: u64, detail: Seq<char> },
    LightOp {
        op: Seq<char>,
        detail: Seq<char>,
        fittings_before: nat,
        fittings_after: nat,
        message: Seq<char>,
        elapsed_us: u64,
    },
    UndoSnapshotTaken { undo_depth_after: nat, bytes_estimate: nat },
    MemoryEvent { name: Seq<char>, bytes: nat, took_us: Option<u64> },
    UndoFired { from_depth: nat, to_depth: nat },
    RedoFired { from_depth: nat, to_depth: nat },
}

impl View for DbgEvent {
    type V = EventView;

    open spec fn view(&self) -> EventView {
        match self {
            DbgEvent::ImportStage { stage, dobjects, elapsed_us, detail } => EventView::ImportStage {
                stage: stage@,
                dobjects: *dobjects as nat,
                elapsed_us: *elapsed_us,
                detail: detail@,
            },
            DbgEvent::LightOp {
                op,
                detail,
                fittings_before,
                fittings_after,
                message,
                elapsed_us,
            } => EventView::LightOp {
                op: op@,
                detail: detail@,
                fittings_before: *fittings_before as nat,
                fittings_after: *fittings_after as nat,
                message: message@,
                elapsed_us: *elapsed_us,
            },
            DbgEvent::UndoSnapshotTaken {
                undo_depth_after,
                bytes_estimate,
            } => EventView::UndoSnapshotTaken {
                undo_depth_after: *undo_depth_after as nat,
                bytes_estimate: *bytes_estimate as nat,
            },
            DbgEvent::MemoryEvent { name, bytes, took_us } => EventView::MemoryEvent {
                name: name@,
                bytes: *bytes as nat,
                took_us: *took_us,
            },
            DbgEvent::UndoFired { from_depth, to_depth } => EventView::UndoFired {
                from_depth: *from_depth as nat,
                to_depth: *to_depth as nat,
            },
            DbgEvent::RedoFired { from_depth, to_depth } => EventView::RedoFired {
                from_depth: *from_depth as nat,
                to_depth: *to_depth as nat,
            },
        }
    }
}

/// The session recorder: it keeps what happens while it is on.
pub struct Recorder {
    pub on: bool,
    pub events: Vec<DbgEvent>,
}

/// The model of a [`Recorder`].
#[verifier::ext_equal]
pub struct RecorderView {
    pub on: bool,
    pub events: Seq<EventView>,
}

impl View for Recorder {
    type V = RecorderView;

    open spec fn view(&self) -> RecorderView {
        RecorderView { on: self.on, events: views(self.events@) }
    }
}

impl RecorderView {
    /// After something has happened.
    #[verifier::opaque]
    pub open spec fn kept(self, e: EventView) -> RecorderView {
        if self.on {
            RecorderView { events: self.events.push(e), ..self }
        } else {
            self
        }
    }

    /// After a stage of opening a file has been reported.
    pub open spec fn staged(
        self,
        stage: Seq<char>,
        dobjects: usize,
        elapsed_us: u64,
        detail: Seq<char>,
    ) -> RecorderView {
        self.kept(
            EventView::ImportStage {
                stage: stage,
                dobjects: dobjects as nat,
                elapsed_us: elapsed_us,
                detail: detail,
            },
        )
    }

    /// After the time of the last copy has been told, where that is what happened last and its
    /// time is not known yet.
    pub open spec fn copy_timed(self, us: u64) -> RecorderView {
        if self.events.len() == 0 {
            self
        } else {
            match self.events.last() {
                EventView::MemoryEvent { name, bytes, took_us: None } => RecorderView {
                    events: self.events.drop_last().push(
                        EventView::MemoryEvent { name: name, bytes: bytes, took_us: Some(us) },
                    ),
                    ..self
                },
                _ => self,
            }
        }
    }
}

impl Recorder {
    /// A recorder that is off.
    pub fn new() -> (r: Recorder)
        ensures
            r@ == (RecorderView { on: false, events: Seq::empty() }),
    {
        broadcast use group_views;

        Recorder { on: false, events: Vec::new() }
    }

    pub(crate) fn keep(&mut self, e: DbgEvent)
        ensures
            final(self)@ == old(self)@.kept(e@),
    {
        broadcast use group_views;

        reveal(RecorderView::kept);
        if self.on {
            self.events.push(e);
        }
    }

    pub(crate) fn stage(&mut self, stage: &str, dobjects: usize, elapsed_us: u64, detail: &str)
        ensures
            final(self)@ == old(self)@.staged(stage@, dobjects, elapsed_us, detail@),
    {
        self.keep(
            DbgEvent::ImportStage {
                stage: String::from_str(stage),
                dobjects: dobjects,
                elapsed_us: elapsed_us,
                detail: String::from_str(detail),
            },
        );
    }

    fn time_copy(&mut self, us: u64)
        ensures
            final(self)@ == old(self)@.copy_timed(us),
    {
        broadcast use group_views;

        let ghost before = self.events@;
        match self.events.pop() {
            Some(e) => {
                assert(views(self.events@) =~= views(before).drop_last());
                assert(views(before).last() == e@);
                assert(views(before) =~= views(before).drop_last().push(e@));
                let e = match e {
                    DbgEvent::MemoryEvent { name, bytes, took_us: None } => {
                        DbgEvent::MemoryEvent { name: name, bytes: bytes, took_us: Some(us) }
                    },
                    other => other,
                };
                self.events.push(e);
            },
            None => {
                assert(self.events@ =~= before);
            },
        }
    }
}

impl AppView {
    /// After the recorder has been told what happened.
    pub open spec fn noted(self, e: EventView) -> AppView {
        AppView { recorder: self.recorder.kept(e), ..self }
    }
}

impl CadApp {
    pub(crate) fn note(&mut self, e: DbgEvent)
        ensures
            final(self)@ == old(self)@.noted(e@),
    {
        self.recorder.keep(e);
    }

    /// Tells the recorder how long the last copy of the drawing took.
    pub fn time_last_copy(&mut self, us: u64)
        ensures
            final(self)@ == (AppView {
                recorder: old(self)@.recorder.copy_timed(us),
                ..old(self)@
            }),
    {
        self.recorder.time_copy(us);
    }
}

/// An event is kept as the last one while the recorder is on, and not at all while it is off.
pub proof fn events_are_kept_while_on(r: RecorderView, e: EventView)
    ensures
        r.on ==> r.kept(e).events.len() == r.events.len() + 1 && r.kept(e).events.last() == e
            && r.kept(e).events.drop_last() == r.events,
        !r.on ==> r.kept(e) == r,
        r.kept(e).on == r.on,
{
    reveal(RecorderView::kept);
    assert(r.on ==> r.kept(e).events.drop_last() =~= r.events);
}

/// How long a copy took is put down once, with the copy that was last recorded, and with nothing
/// else.
pub proof fn copy_is_timed_once(r: RecorderView, us: u64, again: u64)
    ensures
        r.copy_timed(us).events.len() == r.events.len(),
        r.copy_timed(us).copy_timed(again) == r.copy_timed(us),
        r.events.len() > 0 ==> r.copy_timed(us).events.drop_last() == r.events.drop_last(),
        r.events.len() > 0 && (r.events.last() matches EventView::MemoryEvent { took_us: None, .. })
            ==> (r.copy_timed(us).events.last() matches EventView::MemoryEvent { took_us: Some(t), .. }
            && t == us),
        r.events.len() > 0 && !(r.events.last() matches EventView::MemoryEvent { took_us: None, .. })
            ==> r.copy_timed(us) == r,
{
    if r.events.len() > 0 {
        assert(r.copy_timed(us).events.drop_last() =~= r.events.drop_last());
    }
}

} // verus!
