//! The command palette, the command line and the workspace tabs.
use vstd::prelude::*;

use crate::app::{AppView, CadApp};
use crate::commands::{
    methods_of, ActionView, CmdAction, CmdView, CommandInfo, CommandState, InfoView, Method,
    MethodView, Mode,
};
use crate::copying::{group_views, opt_view, views, Duplicate};
use crate::text::{blank, cat2, cat3, cat5, is_blank, same};

verus! {

/// The picture in front of a row: a command's icon, or the construction of one of its methods.
pub enum Glyph {
    Base(u32),
    Method(String, String),
}

/// The model of a [`Glyph`].
#[verifier::ext_equal]
pub enum GlyphView {
    Base(u32),
    Method(Seq<char>, Seq<char>),
}

impl View for Glyph {
    type V = GlyphView;

    open spec fn view(&self) -> GlyphView {
        match self {
            Glyph::Base(i) => GlyphView::Base(*i),
            Glyph::Method(c, k) => GlyphView::Method(c@, k@),
        }
    }
}

/// What a row runs: a command of the registry, or a command word in a given method.
pub enum HitRun {
    Execute(String),
    Method(String, String),
}

/// The model of a [`HitRun`].
#[verifier::ext_equal]
pub enum RunView {
    Execute(Seq<char>),
    Method(Seq<char>, Seq<char>),
}

impl View for HitRun {
    type V = RunView;

    open spec fn view(&self) -> RunView {
        match self {
            HitRun::Execute(id) => RunView::Execute(id@),
            HitRun::Method(c, k) => RunView::Method(c@, k@),
        }
    }
}

/// A row of the palette. `variant` marks a method listed under its command, and `current` the
/// method that the command would run in.
pub struct Hit {
    pub name: String,
    pub code: String,
    pub enabled: bool,
    pub glyph: Glyph,
    pub run: HitRun,
    pub variant: bool,
    pub current: bool,
}

/// The model of a [`Hit`].
#[verifier::ext_equal]
pub struct HitView {
    pub name: Seq<char>,
    pub code: Seq<char>,
    pub enabled: bool,
    pub glyph: GlyphView,
    pub run: RunView,
    pub variant: bool,
    pub current: bool,
}

impl View for Hit {
    type V = HitView;

    open spec fn view(&self) -> HitView {
        HitView {
            name: self.name@,
            code: self.code@,
            enabled: self.enabled,
            glyph: self.glyph@,
            run: self.run@,
            variant: self.variant,
            current: self.current,
        }
    }
}

/// A row that the palette would list, and the text that a search has to match for it.
pub struct Candidate {
    pub hit: Hit,
    pub hay: String,
}

/// The model of a [`Candidate`].
#[verifier::ext_equal]
pub struct CandidateView {
    pub hit: HitView,
    pub hay: Seq<char>,
}

impl View for Candidate {
    type V = CandidateView;

    open spec fn view(&self) -> CandidateView {
        CandidateView { hit: self.hit@, hay: self.hay@ }
    }
}

/// What is searched for a command: its title and its keywords.
pub open spec fn command_hay(info: InfoView) -> Seq<char> {
    info.title + " "@ + info.keywords
}

/// The row of a method under its command.
pub open spec fn variant_row(
    info: InfoView,
    enabled: bool,
    cur_key: Seq<char>,
    m: MethodView,
) -> CandidateView {
    CandidateView {
        hit: HitView {
            name: m.full,
            code: m.short,
            enabled: enabled,
            glyph: GlyphView::Method(info.dispatch, m.key),
            run: RunView::Method(info.dispatch, m.key),
            variant: true,
            current: m.key == cur_key,
        },
        hay: info.title + " "@ + m.full + " "@ + m.short,
    }
}

impl CmdView {
    /// The rows of one command: one for itself, and below it one for each of its methods.
    pub open spec fn rows_of(self, info: InfoView, enabled: bool) -> Seq<CandidateView> {
        let m = methods_of(self.flyouts, info.dispatch);
        if m.len() == 0 {
            seq![
                CandidateView {
                    hit: HitView {
                        name: info.title,
                        code: Seq::empty(),
                        enabled: enabled,
                        glyph: GlyphView::Base(info.icon),
                        run: RunView::Execute(info.id),
                        variant: false,
                        current: false,
                    },
                    hay: command_hay(info),
                },
            ]
        } else {
            let key = self.method_key(info.dispatch);
            seq![
                CandidateView {
                    hit: HitView {
                        name: info.title,
                        code: self.method_short(info.dispatch),
                        enabled: enabled,
                        glyph: GlyphView::Method(info.dispatch, key),
                        run: RunView::Execute(info.id),
                        variant: false,
                        current: false,
                    },
                    hay: command_hay(info),
                },
            ] + m.map_values(|x: MethodView| variant_row(info, enabled, key, x))
        }
    }

    /// The rows of the first `n` commands of the registry, without those that are hidden.
    pub open spec fn rows_upto(self, visible: Seq<bool>, enabled: Seq<bool>, n: int) -> Seq<
        CandidateView,
    >
        decreases n,
    {
        if n <= 0 {
            Seq::empty()
        } else {
            let rest = self.rows_upto(visible, enabled, n - 1);
            if flag(visible, n - 1) {
                rest + self.rows_of(self.registry[n - 1], flag(enabled, n - 1))
            } else {
                rest
            }
        }
    }
}

/// The flag at a place; not set past the end.
pub open spec fn flag(f: Seq<bool>, i: int) -> bool {
    0 <= i < f.len() && f[i]
}

fn flag_at(f: &Vec<bool>, i: usize) -> (r: bool)
    ensures
        r == flag(f@, i as int),
{
    i < f.len() && f[i]
}

/// The rows whose search text matched.
pub open spec fn matched_rows(c: Seq<CandidateView>, matched: Seq<bool>) -> Seq<HitView>
    decreases c.len(),
{
    if c.len() == 0 {
        Seq::empty()
    } else {
        let rest = matched_rows(c.drop_last(), matched);
        if flag(matched, c.len() - 1) {
            rest.push(c.last().hit)
        } else {
            rest
        }
    }
}

/// What happened in the palette's window during a frame. `query` is what its field holds now.
pub struct PaletteInput {
    pub down: bool,
    pub up: bool,
    pub enter: bool,
    pub esc: bool,
    pub close_clicked: bool,
    pub window_open: bool,
    pub click: Option<usize>,
    pub query: String,
    pub query_changed: bool,
}

/// Where the cursor of a list of `n` rows stands after the arrow keys: never past the last row.
pub open spec fn moved_cursor(sel: int, n: int, down: bool, up: bool) -> int {
    let kept = if sel < n {
        sel
    } else if n > 0 {
        n - 1
    } else {
        0
    };
    let lower = if down && n > 0 && kept + 1 < n {
        kept + 1
    } else {
        kept
    };
    if up && lower > 0 {
        lower - 1
    } else {
        lower
    }
}

/// The row that a frame runs: the one clicked, or on Enter the one under the cursor, where it is
/// enabled.
pub open spec fn picked_row(hits: Seq<HitView>, cursor: int, enter: bool, click: Option<usize>)
    -> Option<int> {
    let chosen = match click {
        Some(i) => Some(i as int),
        None => if enter {
            Some(cursor)
        } else {
            None
        },
    };
    match chosen {
        Some(i) if i < hits.len() && hits[i].enabled => Some(i),
        _ => None,
    }
}

impl CmdView {
    /// The palette after its key has opened it.
    pub open spec fn palette_opened(self) -> CmdView {
        CmdView {
            palette_open: true,
            palette_focus: true,
            palette_query: Seq::empty(),
            palette_sel: 0,
            ..self
        }
    }

    /// The state after a row has been run.
    pub open spec fn row_run(self, run: RunView) -> CmdView {
        match run {
            RunView::Execute(id) => self.executed(id),
            RunView::Method(cmd, key) => self.method_dispatched(cmd, key),
        }
    }

    /// What running a row asks for.
    pub open spec fn row_actions(self, run: RunView) -> Seq<ActionView> {
        match run {
            RunView::Execute(id) => self.execute_actions(id),
            RunView::Method(cmd, key) => self.method_actions(cmd, key),
        }
    }

    /// The palette after a frame in which no row was run.
    pub open spec fn palette_kept(
        self,
        cursor: int,
        open: bool,
        query: Seq<char>,
        query_changed: bool,
    ) -> CmdView {
        CmdView {
            palette_open: open,
            palette_focus: false,
            palette_query: query,
            palette_sel: if query_changed {
                0
            } else {
                cursor as usize
            },
            ..self
        }
    }

    /// The palette after a frame in which row `i` was run: closed, with its search cleared.
    pub open spec fn palette_ran(self, i: int, run: RunView) -> CmdView {
        CmdView {
            palette_open: false,
            palette_focus: false,
            palette_query: Seq::empty(),
            palette_sel: i as usize,
            ..self.row_run(run)
        }
    }
}

impl CmdView {
    /// The row that a frame runs.
    pub open spec fn frame_pick(self, hits: Seq<HitView>, inp: PaletteInput) -> Option<int> {
        picked_row(
            hits,
            moved_cursor(self.palette_sel as int, hits.len() as int, inp.down, inp.up),
            inp.enter,
            inp.click,
        )
    }

    /// The state after a frame of the open palette.
    pub open spec fn palette_framed(self, hits: Seq<HitView>, inp: PaletteInput) -> CmdView {
        match self.frame_pick(hits, inp) {
            Some(i) => self.palette_ran(i, hits[i].run),
            None => self.palette_kept(
                moved_cursor(self.palette_sel as int, hits.len() as int, inp.down, inp.up),
                inp.window_open && !inp.close_clicked && !inp.esc,
                inp.query@,
                inp.query_changed,
            ),
        }
    }

    /// What a frame of the open palette asks for.
    pub open spec fn palette_actions(self, hits: Seq<HitView>, inp: PaletteInput) -> Seq<
        ActionView,
    > {
        match self.frame_pick(hits, inp) {
            Some(i) => self.row_actions(hits[i].run),
            None => Seq::empty(),
        }
    }
}

impl CommandState {
    fn push_rows(&self, info: &CommandInfo, enabled: bool, out: &mut Vec<Candidate>)
        ensures
            views(final(out)@) == views(old(out)@) + self@.rows_of(info@, enabled),
    {
        broadcast use group_views;

        let ghost before = views(out@);
        let ghost m = methods_of(self@.flyouts, info.dispatch@);
        let hay = cat3(info.title.as_str(), " ", info.keywords.as_str());
        let f = self.flyout_of(info.dispatch.as_str());
        let many = match f {
            Some(i) => self.flyouts[i].items.len() > 0,
            None => false,
        };
        if !many {
            out.push(
                Candidate {
                    hit: Hit {
                        name: info.title.clone(),
                        code: String::new(),
                        enabled: enabled,
                        glyph: Glyph::Base(info.icon),
                        run: HitRun::Execute(info.id.clone()),
                        variant: false,
                        current: false,
                    },
                    hay: hay,
                },
            );
            assert(views(out@) =~= before + self@.rows_of(info@, enabled));
            return;
        }
        let key = self.key_of(info.dispatch.as_str());
        out.push(
            Candidate {
                hit: Hit {
                    name: info.title.clone(),
                    code: self.short_of(info.dispatch.as_str()),
                    enabled: enabled,
                    glyph: Glyph::Method(info.dispatch.clone(), key.clone()),
                    run: HitRun::Execute(info.id.clone()),
                    variant: false,
                    current: false,
                },
                hay: hay,
            },
        );
        let ghost head = views(out@);
        let ghost rows = m.map_values(|x: MethodView| variant_row(info@, enabled, key@, x));
        if let Some(i) = f {
            let items: &Vec<Method> = &self.flyouts[i].items;
            let mut k: usize = 0;
            while k < items.len()
                invariant
                    k <= items.len(),
                    m == views(items@),
                    rows == m.map_values(
                        |x: MethodView| variant_row(info@, enabled, key@, x),
                    ),
                    views(out@) == head + rows.subrange(0, k as int),
                decreases items.len() - k,
            {
                let x: &Method = &items[k];
                let current = same(x.key.as_str(), key.as_str());
                let row = Candidate {
                        hit: Hit {
                            name: x.full.clone(),
                            code: x.short.clone(),
                            enabled: enabled,
                            glyph: Glyph::Method(info.dispatch.clone(), x.key.clone()),
                            run: HitRun::Method(info.dispatch.clone(), x.key.clone()),
                            variant: true,
                            current: current,
                        },
                        hay: cat5(
                            info.title.as_str(),
                            " ",
                            x.full.as_str(),
                            " ",
                            x.short.as_str(),
                        ),
                    };
                assert(m[k as int] == x@);
                assert(row@ == variant_row(info@, enabled, key@, x@));
                assert(rows[k as int] == row@);
                let ghost kept = views(out@);
                out.push(row);
                assert(views(out@) == kept.push(row@));
                assert(views(out@) =~= head + rows.subrange(0, k + 1));
                k += 1;
            }
            assert(rows.subrange(0, k as int) =~= rows);
        }
        assert(views(out@) =~= before + self@.rows_of(info@, enabled));
    }
}

fn cursor_after(sel: usize, n: usize, down: bool, up: bool) -> (r: usize)
    ensures
        r == moved_cursor(sel as int, n as int, down, up),
{
    let mut cursor: usize = sel;
    if cursor >= n {
        cursor = if n > 0 {
            n - 1
        } else {
            0
        };
    }
    if down && n > 0 && cursor < n - 1 {
        cursor += 1;
    }
    if up && cursor > 0 {
        cursor -= 1;
    }
    cursor
}

fn pick_row(hits: &Vec<Hit>, cursor: usize, enter: bool, click: Option<usize>) -> (r: Option<
    usize,
>)
    ensures
        match r {
            Some(i) => picked_row(views(hits@), cursor as int, enter, click) == Some(i as int) && i
                < hits.len(),
            None => picked_row(views(hits@), cursor as int, enter, click) is None,
        },
{
    let chosen: Option<usize> = match click {
        Some(i) => Some(i),
        None => if enter {
            Some(cursor)
        } else {
            None
        },
    };
    match chosen {
        Some(i) => if i < hits.len() && hits[i].enabled {
            assert(views(hits@)[i as int].enabled);
            Some(i)
        } else {
            None
        },
        None => None,
    }
}

impl CommandState {
    fn frame(&mut self, hits: &Vec<Hit>, inp: PaletteInput) -> (r: Vec<CmdAction>)
        ensures
            final(self)@ == old(self)@.palette_framed(views(hits@), inp),
            views(r@) == old(self)@.palette_actions(views(hits@), inp),
    {
        let cursor = cursor_after(self.palette_sel, hits.len(), inp.down, inp.up);
        if let Some(i) = pick_row(hits, cursor, inp.enter, inp.click) {
            let out = self.run_row(&hits[i].run);
            self.palette_open = false;
            self.palette_focus = false;
            self.palette_query = String::new();
            self.palette_sel = i;
            return out;
        }
        self.palette_open = inp.window_open && !inp.close_clicked && !inp.esc;
        self.palette_focus = false;
        self.palette_query = inp.query;
        self.palette_sel = if inp.query_changed {
            0
        } else {
            cursor
        };
        let out: Vec<CmdAction> = Vec::new();
        assert(views(out@) =~= Seq::<ActionView>::empty());
        out
    }

    fn run_row(&mut self, run: &HitRun) -> (r: Vec<CmdAction>)
        ensures
            final(self)@ == old(self)@.row_run(run@),
            views(r@) == old(self)@.row_actions(run@),
    {
        match run {
            HitRun::Execute(id) => self.start(id.as_str()),
            HitRun::Method(cmd, key) => self.start_method(cmd.as_str(), key.as_str()),
        }
    }
}

/// Keeps the rows whose search text matched.
pub fn palette_hits(c: Vec<Candidate>, matched: &Vec<bool>) -> (r: Vec<Hit>)
    ensures
        views(r@) == matched_rows(views(c@), matched@),
{
    broadcast use group_views;

    let ghost all = views(c@);
    let mut left = c;
    let mut rev: Vec<Hit> = Vec::new();
    let mut out: Vec<Hit> = Vec::new();
    let mut n: usize = left.len();
    while n > 0
        invariant
            n == left.len(),
            n <= all.len(),
            views(left@) == all.subrange(0, n as int),
            matched_rows(all, matched@) == matched_rows(all.subrange(0, n as int), matched@)
                + views(rev@).reverse(),
        decreases n,
    {
        let ghost front = views(left@);
        let last = left.pop();
        n -= 1;
        assert(views(left@) =~= front.drop_last());
        assert(front.drop_last() =~= all.subrange(0, n as int));
        if let Some(x) = last {
            if flag_at(matched, n) {
                let ghost before = views(rev@);
                rev.push(x.hit);
                assert(views(rev@).reverse() =~= seq![x.hit@] + before.reverse());
                let ghost rest = matched_rows(all.subrange(0, n as int), matched@);
                assert(rest.push(x.hit@) + before.reverse() =~= rest + views(rev@).reverse());
            }
        }
    }
    assert(matched_rows(all.subrange(0, 0), matched@) =~= Seq::<HitView>::empty());
    let ghost want = views(rev@).reverse();
    while rev.len() > 0
        invariant
            want == views(out@) + views(rev@).reverse(),
        decreases rev.len(),
    {
        let ghost before = views(rev@);
        if let Some(h) = rev.pop() {
            assert(views(rev@) =~= before.drop_last());
            let ghost kept = views(out@);
            out.push(h);
            assert(kept + before.reverse() =~= views(out@) + views(rev@).reverse());
        }
    }
    assert(views(out@) =~= want);
    out
}

impl CadApp {
    /// Opens the palette with an empty search.
    pub fn open_palette(&mut self)
        ensures
            final(self)@ == (AppView { cmds: old(self)@.cmds.palette_opened(), ..old(self)@ }),
    {
        self.cmds.palette_open = true;
        self.cmds.palette_focus = true;
        self.cmds.palette_query = String::new();
        self.cmds.palette_sel = 0;
    }

    /// The rows of the palette before a search narrows them: for each command that is visible, in
    /// the order of the registry, one row for itself and one for each of its methods.
    pub fn palette_candidates(&self, visible: &Vec<bool>, enabled: &Vec<bool>) -> (r: Vec<
        Candidate,
    >)
        ensures
            views(r@) == self@.cmds.rows_upto(
                visible@,
                enabled@,
                self@.cmds.registry.len() as int,
            ),
    {
        broadcast use group_views;

        let mut out: Vec<Candidate> = Vec::new();
        let mut i: usize = 0;
        while i < self.cmds.registry.len()
            invariant
                i <= self.cmds.registry.len(),
                views(out@) == self@.cmds.rows_upto(visible@, enabled@, i as int),
            decreases self.cmds.registry.len() - i,
        {
            if flag_at(visible, i) {
                self.cmds.push_rows(&self.cmds.registry[i], flag_at(enabled, i), &mut out);
            }
            i += 1;
        }
        out
    }

    /// One frame of the palette: moves the cursor, runs the row that was clicked or entered, and
    /// closes after a run, on Esc and on the close button.
    pub fn palette_frame(&mut self, hits: &Vec<Hit>, inp: PaletteInput) -> (r: Vec<CmdAction>)
        ensures
            !old(self)@.cmds.palette_open ==> final(self)@ == old(self)@ && r@.len() == 0,
            old(self)@.cmds.palette_open ==> {
                &&& final(self)@ == (AppView {
                    cmds: old(self)@.cmds.palette_framed(views(hits@), inp),
                    ..old(self)@
                })
                &&& views(r@) == old(self)@.cmds.palette_actions(views(hits@), inp)
            },
    {
        if !self.cmds.palette_open {
            return Vec::new();
        }
        self.cmds.frame(hits, inp)
    }
}

/// The cursor stays on a row of the list where there is one, and a row that is not enabled is
/// never run.
pub proof fn palette_runs_enabled_rows_only(
    s: AppView,
    hits: Seq<HitView>,
    down: bool,
    up: bool,
    enter: bool,
    click: Option<usize>,
)
    ensures
        ({
            let cursor = moved_cursor(s.cmds.palette_sel as int, hits.len() as int, down, up);
            &&& hits.len() > 0 ==> 0 <= cursor < hits.len()
            &&& match picked_row(hits, cursor, enter, click) {
                Some(i) => 0 <= i < hits.len() && hits[i].enabled,
                None => true,
            }
        }),
{
}

/// A text without the blanks it ends in.
pub open spec fn without_end_blanks(s: Seq<char>) -> Seq<char>
    decreases s.len(),
{
    if s.len() > 0 && s.last() == ' ' {
        without_end_blanks(s.drop_last())
    } else {
        s
    }
}

fn cut_end_blanks(s: &str) -> (r: &str)
    ensures
        r@ == without_end_blanks(s@),
{
    let mut hi: usize = s.unicode_len();
    assert(s@.subrange(0, hi as int) =~= s@);
    while hi > 0 && s.get_char(hi - 1) == ' '
        invariant
            hi <= s@.len(),
            without_end_blanks(s@) == without_end_blanks(s@.subrange(0, hi as int)),
        ensures
            hi <= s@.len(),
            without_end_blanks(s@) == s@.subrange(0, hi as int),
        decreases hi,
    {
        assert(s@.subrange(0, hi as int).drop_last() =~= s@.subrange(0, hi - 1));
        hi -= 1;
    }
    s.substring_char(0, hi)
}

impl CmdView {
    /// Whether a blank typed into the command line submits it: not on an empty line, and not while
    /// a text is being typed.
    pub open spec fn blank_submits(self, space: bool) -> bool {
        space && without_end_blanks(self.cmd).len() > 0 && !self.in_text_body
    }

    /// The command line as it is submitted.
    pub open spec fn line_submitted(self, space: bool) -> Seq<char> {
        if self.blank_submits(space) {
            without_end_blanks(self.cmd)
        } else {
            self.cmd
        }
    }

    /// After the keys of a frame have reached the command line.
    pub open spec fn line_entered(self, submit: bool, space: bool) -> CmdView {
        let line = self.line_submitted(space);
        if submit || self.blank_submits(space) {
            CmdView {
                cmd: if is_blank(line) {
                    line
                } else {
                    Seq::empty()
                },
                refocus_cmd: true,
                ..self
            }
        } else {
            self
        }
    }
}

impl CommandState {
    fn enter_line(&mut self, submit: bool, space: bool) -> (r: Option<String>)
        ensures
            final(self)@ == old(self)@.line_entered(submit, space),
            opt_view(r) == if (submit || old(self)@.blank_submits(space)) && !is_blank(
                old(self)@.line_submitted(space),
            ) {
                Some(old(self)@.line_submitted(space))
            } else {
                None
            },
    {
        let mut go = submit;
        if space && !self.in_text_body {
            let cut = String::from_str(cut_end_blanks(self.cmd.as_str()));
            if cut.as_str().unicode_len() > 0 {
                self.cmd = cut;
                go = true;
            }
        }
        if !go {
            return None;
        }
        self.refocus_cmd = true;
        if blank(self.cmd.as_str()) {
            return None;
        }
        let line = self.cmd.clone();
        self.cmd = String::new();
        Some(line)
    }

    fn focus_line(&mut self, other_focused: bool, has_focus: bool) -> (r: bool)
        ensures
            r == (!old(self).renaming_layer && !other_focused && (old(self).refocus_cmd
                || !has_focus)),
            final(self)@ == (CmdView {
                refocus_cmd: old(self).refocus_cmd && !old(self).renaming_layer && other_focused,
                ..old(self)@
            }),
    {
        if self.renaming_layer {
            self.refocus_cmd = false;
            false
        } else if self.refocus_cmd && !other_focused {
            self.refocus_cmd = false;
            true
        } else {
            !other_focused && !has_focus
        }
    }
}

/// The text above the command line: the current prompt, or else what the application is ready for.
/// An object that waits to be placed comes before everything else.
pub open spec fn prompt_shown(prompt: Seq<char>, awaiting_place: bool, three_d: bool) -> Seq<char> {
    if prompt.len() > 0 {
        prompt
    } else if awaiting_place {
        "click the 2D or 3D window to place it  ·  Esc leaves it where it is"@
    } else if three_d {
        "3D command:"@
    } else {
        "command:"@
    }
}

/// What stands beside the prompt of the 3D view: where the next object will land, by the label of
/// the mode that it is placed in, and the word that changes it. No other prompt has it.
pub open spec fn landing_shown(
    prompt: Seq<char>,
    awaiting_place: bool,
    three_d: bool,
    mode: Seq<char>,
) -> Option<Seq<char>> {
    if prompt.len() == 0 && !awaiting_place && three_d {
        Some("new objects → "@ + mode + "   ·   type `place` to change"@)
    } else {
        None
    }
}

impl CadApp {
    /// Takes the keys of a frame on the command line: the line that is to be run, where one was
    /// submitted and is not blank.
    pub fn enter_command_line(&mut self, submit: bool, space: bool) -> (r: Option<String>)
        ensures
            final(self)@ == (AppView {
                cmds: old(self)@.cmds.line_entered(submit, space),
                ..old(self)@
            }),
            opt_view(r) == if (submit || old(self)@.cmds.blank_submits(space)) && !is_blank(
                old(self)@.cmds.line_submitted(space),
            ) {
                Some(old(self)@.cmds.line_submitted(space))
            } else {
                None
            },
    {
        self.cmds.enter_line(submit, space)
    }

    /// Whether the command line should take the keyboard: never from another field, and not while
    /// a layer is being renamed. A wish to take it waits until no other field has it.
    pub fn focus_command_line(&mut self, other_focused: bool, has_focus: bool) -> (r: bool)
        ensures
            r == (!old(self)@.cmds.renaming_layer && !other_focused && (
            old(self)@.cmds.refocus_cmd || !has_focus)),
            final(self)@ == (AppView {
                cmds: CmdView {
                    refocus_cmd: old(self)@.cmds.refocus_cmd && !old(self)@.cmds.renaming_layer
                        && other_focused,
                    ..old(self)@.cmds
                },
                ..old(self)@
            }),
    {
        self.cmds.focus_line(other_focused, has_focus)
    }

    /// The text above the command line.
    pub fn prompt_line(&self, awaiting_place: bool, three_d: bool) -> (r: String)
        ensures
            r@ == prompt_shown(self@.cmds.current_prompt, awaiting_place, three_d),
    {
        if self.cmds.current_prompt.as_str().unicode_len() > 0 {
            self.cmds.current_prompt.clone()
        } else if awaiting_place {
            String::from_str("click the 2D or 3D window to place it  ·  Esc leaves it where it is")
        } else if three_d {
            String::from_str("3D command:")
        } else {
            String::from_str("command:")
        }
    }

    /// What stands beside the text above the command line.
    pub fn landing_line(&self, awaiting_place: bool, three_d: bool, mode: &str) -> (r: Option<
        String,
    >)
        ensures
            opt_view(r) == landing_shown(
                self@.cmds.current_prompt,
                awaiting_place,
                three_d,
                mode@,
            ),
    {
        if self.cmds.current_prompt.as_str().unicode_len() == 0 && !awaiting_place && three_d {
            Some(cat3("new objects → ", mode, "   ·   type `place` to change"))
        } else {
            None
        }
    }

    /// Picks a workspace tab. The one that is already shown does nothing; another one is switched
    /// to, reported under its label, and ends the prompt.
    pub fn pick_mode(&mut self, m: Mode, label: &str) -> (r: bool)
        ensures
            r == (old(self)@.cmds.mode != m),
            final(self)@ == if old(self)@.cmds.mode == m {
                old(self)@
            } else {
                AppView {
                    cmds: CmdView { mode: m, current_prompt: Seq::empty(), ..old(self)@.cmds },
                    ..old(self)@
                }.said("  → "@ + label@)
            },
    {
        if self.cmds.mode == m {
            return false;
        }
        self.cmds.mode = m;
        self.cmds.current_prompt = String::new();
        self.say(cat2("  → ", label));
        true
    }
}

/// The arrow keys move the cursor by one row and stop at the ends; without them it stays, as far as
/// there still is such a row.
pub proof fn cursor_moves_by_one(sel: int, n: int)
    requires
        0 <= sel < n,
    ensures
        moved_cursor(sel, n, false, false) == sel,
        sel < n - 1 ==> moved_cursor(sel, n, true, false) == sel + 1,
        sel == n - 1 ==> moved_cursor(sel, n, true, false) == sel,
        sel > 0 ==> moved_cursor(sel, n, false, true) == sel - 1,
        sel == 0 ==> moved_cursor(sel, n, false, true) == 0,
        forall|m: int| 0 < m <= sel ==> #[trigger] moved_cursor(sel, m, false, false) == m - 1,
        moved_cursor(sel, 0, false, false) == 0,
{
}

/// A row that is clicked is the one that is run, if it can be, and otherwise, on enter, the one under
/// the cursor; without either, none is.
pub proof fn clicked_row_is_run(hits: Seq<HitView>, cursor: int, enter: bool, click: Option<usize>)
    requires
        0 <= cursor,
    ensures
        click matches Some(i) ==> (picked_row(hits, cursor, enter, click) == Some(i as int) <==> i
            < hits.len() && hits[i as int].enabled),
        click is Some ==> picked_row(hits, cursor, enter, click) is None || picked_row(
            hits,
            cursor,
            enter,
            click,
        ) == Some((click->0) as int),
        click is None && enter ==> (picked_row(hits, cursor, enter, click) == Some(cursor) <==> cursor
            < hits.len() && hits[cursor].enabled),
        click is None && !enter ==> picked_row(hits, cursor, enter, click) is None,
{
}

/// The rows that are shown are those that match what was typed, in their order.
pub proof fn shown_rows_match(c: Seq<CandidateView>, matched: Seq<bool>, i: int)
    requires
        c.len() == matched.len(),
        0 <= i < c.len(),
    ensures
        matched_rows(c, matched).len() <= c.len(),
        matched[i] ==> matched_rows(c, matched).contains(c[i].hit),
        (forall|k: int| 0 <= k < c.len() ==> matched[k]) ==> matched_rows(c, matched).len() == c.len()
            && matched_rows(c, matched)[i] == c[i].hit,
        (forall|k: int| 0 <= k < c.len() ==> !matched[k]) ==> matched_rows(c, matched).len() == 0,
    decreases c.len(),
{
    matched_so_far(c, matched);
    if matched[i] {
        matched_row_is_there(c, matched, i);
    }
}

proof fn matched_row_is_there(c: Seq<CandidateView>, matched: Seq<bool>, i: int)
    requires
        c.len() <= matched.len(),
        0 <= i < c.len(),
        matched[i],
    ensures
        matched_rows(c, matched).contains(c[i].hit),
    decreases c.len(),
{
    let rest = matched_rows(c.drop_last(), matched);
    let all = matched_rows(c, matched);
    if i < c.len() - 1 {
        matched_row_is_there(c.drop_last(), matched, i);
        let k = choose|k: int| 0 <= k < rest.len() && rest[k] == c[i].hit;
        assert(all[k] == c[i].hit);
    } else {
        assert(all.last() == c[i].hit);
    }
}

proof fn matched_so_far(c: Seq<CandidateView>, matched: Seq<bool>)
    requires
        c.len() <= matched.len(),
    ensures
        matched_rows(c, matched).len() <= c.len(),
        (forall|k: int| 0 <= k < c.len() ==> matched[k]) ==> matched_rows(c, matched).len() == c.len()
            && forall|k: int| 0 <= k < c.len() ==> matched_rows(c, matched)[k] == (#[trigger] c[k]).hit,
        (forall|k: int| 0 <= k < c.len() ==> !matched[k]) ==> matched_rows(c, matched).len() == 0,
    decreases c.len(),
{
    if c.len() > 0 {
        let front = c.drop_last();
        matched_so_far(front, matched);
        if forall|k: int| 0 <= k < c.len() ==> matched[k] {
            assert(matched[c.len() - 1]);
            assert forall|k: int| 0 <= k < c.len() implies matched_rows(c, matched)[k] == (
            #[trigger] c[k]).hit by {
                if k < front.len() {
                    assert(front[k] == c[k]);
                }
            }
        }
        if forall|k: int| 0 <= k < c.len() ==> !matched[k] {
            assert(!matched[c.len() - 1]);
        }
    }
}

/// The first row of a command runs it, and behind it comes a row for each of its methods, which runs
/// it in that method. Exactly the row of the method in use is marked.
pub proof fn rows_run_their_command(c: CmdView, info: InfoView, enabled: bool, k: int)
    ensures
        ({
            let rows = c.rows_of(info, enabled);
            let m = methods_of(c.flyouts, info.dispatch);
            &&& rows.len() == m.len() + 1
            &&& rows[0].hit.run == RunView::Execute(info.id)
            &&& rows[0].hit.name == info.title && !rows[0].hit.variant
            &&& rows[0].hit.enabled == enabled
            &&& 0 <= k < m.len() ==> {
                let r = rows[k + 1].hit;
                &&& r.run == RunView::Method(info.dispatch, m[k].key)
                &&& r.name == m[k].full && r.code == m[k].short
                &&& r.variant && r.enabled == enabled
                &&& r.current <==> m[k].key == c.method_key(info.dispatch)
            }
        }),
{
}

/// A row that is run closes the palette and forgets what was typed. Without one the palette stays
/// until it is closed, and typing puts the cursor on the first row.
pub proof fn running_closes_the_palette(c: CmdView, hits: Seq<HitView>, inp: PaletteInput)
    ensures
        ({
            let t = c.palette_framed(hits, inp);
            let a = c.palette_actions(hits, inp);
            match c.frame_pick(hits, inp) {
                Some(i) => {
                    &&& !t.palette_open && t.palette_query.len() == 0
                    &&& a == (match hits[i].run {
                        RunView::Execute(id) => c.execute_actions(id),
                        RunView::Method(cmd, key) => c.method_actions(cmd, key),
                    })
                },
                None => {
                    &&& a.len() == 0
                    &&& t.palette_open <==> inp.window_open && !inp.close_clicked && !inp.esc
                    &&& t.palette_query == inp.query@
                    &&& inp.query_changed ==> t.palette_sel == 0
                    &&& t.command_method == c.command_method && t.tool == c.tool
                },
            }
        }),
        c.palette_opened().palette_open,
        c.palette_opened().palette_query.len() == 0,
        c.palette_opened().palette_sel == 0,
{
}

/// Cutting the blanks that a line ends in cuts nothing else.
pub proof fn end_blanks_alone_are_cut(s: Seq<char>)
    ensures
        ({
            let t = without_end_blanks(s);
            &&& t.len() <= s.len()
            &&& t == s.subrange(0, t.len() as int)
            &&& t.len() > 0 ==> t.last() != ' '
            &&& forall|i: int| t.len() <= i < s.len() ==> #[trigger] s[i] == ' '
        }),
    decreases s.len(),
{
    if s.len() > 0 && s.last() == ' ' {
        let front = s.drop_last();
        end_blanks_alone_are_cut(front);
        let t = without_end_blanks(s);
        assert(front.subrange(0, t.len() as int) =~= s.subrange(0, t.len() as int));
        assert forall|i: int| t.len() <= i < s.len() implies #[trigger] s[i] == ' ' by {
            if i < front.len() {
                assert(front[i] == s[i]);
            }
        }
    } else {
        assert(s.subrange(0, s.len() as int) =~= s);
    }
}

/// A blank submits a line like enter does, unless the line is empty or a text is being written. A
/// line that says something leaves the field empty, and the field is focused again.
pub proof fn blank_submits_the_line(c: CmdView, submit: bool, space: bool)
    ensures
        ({
            let t = c.line_entered(submit, space);
            let line = c.line_submitted(space);
            let sent = submit || space && without_end_blanks(c.cmd).len() > 0 && !c.in_text_body;
            &&& sent ==> t.refocus_cmd
            &&& sent && !is_blank(line) ==> t.cmd.len() == 0
            &&& !sent ==> t == c
            &&& c.in_text_body ==> line == c.cmd
            &&& !space ==> line == c.cmd
            &&& t.tool == c.tool && t.current_prompt == c.current_prompt
        }),
{
}

/// The rows of the palette are those of the commands that are visible, and of no others.
pub proof fn visible_commands_have_rows(
    c: CmdView,
    visible: Seq<bool>,
    enabled: Seq<bool>,
    n: int,
    row: CandidateView,
)
    requires
        0 <= n <= c.registry.len(),
    ensures
        c.rows_upto(visible, enabled, n).contains(row) <==> exists|k: int|
            0 <= k < n && flag(visible, k) && #[trigger] c.rows_of(
                c.registry[k],
                flag(enabled, k),
            ).contains(row),
    decreases n,
{
    if n > 0 {
        visible_commands_have_rows(c, visible, enabled, n - 1, row);
        let rest = c.rows_upto(visible, enabled, n - 1);
        let own = c.rows_of(c.registry[n - 1], flag(enabled, n - 1));
        let all = c.rows_upto(visible, enabled, n);
        if flag(visible, n - 1) {
            if all.contains(row) {
                let i = choose|i: int| 0 <= i < all.len() && all[i] == row;
                if i < rest.len() {
                    assert(rest[i] == row);
                } else {
                    assert(own[i - rest.len()] == row);
                    assert(own.contains(row));
                }
            }
            if rest.contains(row) {
                let i = choose|i: int| 0 <= i < rest.len() && rest[i] == row;
                assert(all[i] == row);
            }
            if own.contains(row) {
                let i = choose|i: int| 0 <= i < own.len() && own[i] == row;
                assert(all[rest.len() + i] == row);
            }
        }
    }
}

/// A tool's prompt is shown before all others. Where new objects go is told only while nothing else
/// is asked, in the model.
pub proof fn prompt_comes_first(prompt: Seq<char>, awaiting: bool, three_d: bool, mode: Seq<char>)
    ensures
        prompt.len() > 0 ==> prompt_shown(prompt, awaiting, three_d) == prompt,
        prompt.len() == 0 && !awaiting ==> prompt_shown(prompt, awaiting, three_d).len() > 0,
        landing_shown(prompt, awaiting, three_d, mode) is Some <==> prompt.len() == 0 && !awaiting
            && three_d,
{
    reveal_strlit("3D command:");
    reveal_strlit("command:");
}

/// A command is found by its title and its keywords, and a method by the title of its command and by
/// its own name. The field is focused while the palette opens, and not again after a frame.
pub proof fn rows_are_found_by_name(c: CmdView, info: InfoView, enabled: bool, k: int, hits: Seq<HitView>, inp: PaletteInput)
    ensures
        ({
            let rows = c.rows_of(info, enabled);
            let m = methods_of(c.flyouts, info.dispatch);
            &&& crate::text::begins_with(rows[0].hay, info.title)
            &&& crate::text::ends_in(rows[0].hay, info.keywords)
            &&& 0 <= k < m.len() ==> crate::text::begins_with(rows[k + 1].hay, info.title)
                && crate::text::ends_in(rows[k + 1].hay, m[k].short)
        }),
        c.palette_opened().palette_focus,
        !c.palette_framed(hits, inp).palette_focus,
{
    let hay = command_hay(info);
    assert(hay.subrange(0, info.title.len() as int) =~= info.title);
    assert(hay.subrange(hay.len() - info.keywords.len(), hay.len() as int) =~= info.keywords);
    let m = methods_of(c.flyouts, info.dispatch);
    if 0 <= k < m.len() {
        let h = c.rows_of(info, enabled)[k + 1].hay;
        assert(h.subrange(0, info.title.len() as int) =~= info.title);
        assert(h.subrange(h.len() - m[k].short.len(), h.len() as int) =~= m[k].short);
    }
}

} // verus!
