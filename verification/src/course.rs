//! The stages of opening a drawing at once, as the session recorder keeps them.
//!
//! Each stage is timed by itself, so that a slow open can be blamed on one of them.
use vstd::prelude::*;

use crate::app::{AppView, CadApp};
use crate::paths::Format;
use crate::recorder::{EventView, Recorder, RecorderView};
use crate::text::{cat2, dec, dec_text};

verus! {

/// How opening a drawing went: the format that its name tells, and for each stage its time in
/// microseconds and what it came to. `converted` counts for a format that another program reads,
/// `read` is the number of bytes, and `parsed` the number of objects.
pub struct OpenCourse {
    pub format: Option<Format>,
    pub convert_us: u64,
    pub converted: bool,
    pub read_us: u64,
    pub read: Result<u64, String>,
    pub parse_us: u64,
    pub parsed: Option<usize>,
    pub layers: usize,
    pub install_us: u64,
    pub fit_us: u64,
    pub sidecar_us: u64,
    pub total_us: u64,
}

/// The name of the stage that parses a format. What is converted is parsed as its result.
pub open spec fn parse_stage(f: Format) -> Seq<char> {
    match f {
        Format::Rsm => "parse rsm"@,
        _ => "parse dxf"@,
    }
}

impl RecorderView {
    /// After a drawing that was parsed has been taken over.
    pub open spec fn install_staged(self, f: Format, n: usize, c: OpenCourse) -> RecorderView {
        self.staged(parse_stage(f), n, c.parse_us, ""@).staged(
            "install doc"@,
            n,
            c.install_us,
            dec(c.layers as nat) + " layer(s)"@,
        ).staged("fit view"@, n, c.fit_us, ""@).staged("sidecar"@, n, c.sidecar_us, ""@).staged(
            "TOTAL do_open"@,
            n,
            c.total_us,
            "index+GPU+render still deferred — see later IndexRebuild / SlowFrame"@,
        )
    }

    /// After a drawing has been read, or not.
    pub open spec fn read_staged(self, f: Format, c: OpenCourse) -> RecorderView {
        match c.read {
            Err(e) => self.staged("read file"@, 0, c.read_us, "READ ERROR: "@ + e@),
            Ok(bytes) => {
                let s = self.staged("read file"@, 0, c.read_us, dec(bytes as nat) + " bytes"@);
                match c.parsed {
                    Some(n) => s.install_staged(f, n, c),
                    None => s.staged(parse_stage(f), 0, c.parse_us, "PARSE ERROR"@).staged(
                        "TOTAL do_open"@,
                        0,
                        c.total_us,
                        "FAILED"@,
                    ),
                }
            },
        }
    }

    /// After a drawing has been opened, or not.
    pub open spec fn open_staged(self, path: Seq<char>, c: OpenCourse) -> RecorderView {
        let s = self.staged("begin"@, 0, 0, path);
        match c.format {
            None => s.staged("TOTAL do_open"@, 0, c.total_us, "FAILED"@),
            Some(Format::Dwg) => if c.converted {
                s.staged("dwg→dxf convert"@, 0, c.convert_us, "external converter"@).read_staged(
                    Format::Dwg,
                    c,
                )
            } else {
                s.staged("dwg→dxf convert"@, 0, c.convert_us, "CONVERT FAILED"@)
            },
            Some(f) => s.read_staged(f, c),
        }
    }
}

impl Recorder {
    fn stage_install(&mut self, name: &str, n: usize, c: &OpenCourse)
        ensures
            final(self)@ == old(self)@.staged(name@, n, c.parse_us, ""@).staged(
                "install doc"@,
                n,
                c.install_us,
                dec(c.layers as nat) + " layer(s)"@,
            ).staged("fit view"@, n, c.fit_us, ""@).staged("sidecar"@, n, c.sidecar_us, ""@).staged(
                "TOTAL do_open"@,
                n,
                c.total_us,
                "index+GPU+render still deferred — see later IndexRebuild / SlowFrame"@,
            ),
    {
        self.stage(name, n, c.parse_us, "");
        let layers = cat2(dec_text(c.layers as u64).as_str(), " layer(s)");
        self.stage("install doc", n, c.install_us, layers.as_str());
        self.stage("fit view", n, c.fit_us, "");
        self.stage("sidecar", n, c.sidecar_us, "");
        self.stage(
            "TOTAL do_open",
            n,
            c.total_us,
            "index+GPU+render still deferred — see later IndexRebuild / SlowFrame",
        );
    }

    fn stage_read(&mut self, f: Format, c: &OpenCourse)
        ensures
            final(self)@ == old(self)@.read_staged(f, *c),
    {
        let name = match f {
            Format::Rsm => "parse rsm",
            _ => "parse dxf",
        };
        match &c.read {
            Err(e) => {
                let detail = cat2("READ ERROR: ", e.as_str());
                self.stage("read file", 0, c.read_us, detail.as_str());
            },
            Ok(bytes) => {
                let detail = cat2(dec_text(*bytes).as_str(), " bytes");
                self.stage("read file", 0, c.read_us, detail.as_str());
                match c.parsed {
                    Some(n) => self.stage_install(name, n, c),
                    None => {
                        self.stage(name, 0, c.parse_us, "PARSE ERROR");
                        self.stage("TOTAL do_open", 0, c.total_us, "FAILED");
                    },
                }
            },
        }
    }

    fn stage_open(&mut self, path: &str, c: &OpenCourse)
        ensures
            final(self)@ == old(self)@.open_staged(path@, *c),
    {
        self.stage("begin", 0, 0, path);
        match c.format {
            None => self.stage("TOTAL do_open", 0, c.total_us, "FAILED"),
            Some(f) => {
                if f == Format::Dwg {
                    if c.converted {
                        self.stage("dwg→dxf convert", 0, c.convert_us, "external converter");
                        self.stage_read(f, c);
                    } else {
                        self.stage("dwg→dxf convert", 0, c.convert_us, "CONVERT FAILED");
                    }
                } else {
                    self.stage_read(f, c);
                }
            },
        }
    }
}

impl CadApp {
    /// Reports the stages of opening a drawing at once to the session recorder.
    pub fn open_stages(&mut self, path: &str, c: &OpenCourse)
        ensures
            final(self)@ == (AppView {
                recorder: old(self)@.recorder.open_staged(path@, *c),
                ..old(self)@
            }),
    {
        self.recorder.stage_open(path, c);
    }
}

/// A recorder that is off keeps nothing.
pub proof fn nothing_is_kept_while_off(r: RecorderView, path: Seq<char>, c: OpenCourse)
    requires
        !r.on,
    ensures
        r.open_staged(path, c) == r,
{
    reveal(RecorderView::kept);
}

/// While the recorder is on, opening starts with its beginning and keeps what was there; a drawing
/// that was opened ends with the time of the whole.
pub proof fn opening_is_kept_whole(r: RecorderView, path: Seq<char>, c: OpenCourse)
    requires
        r.on,
    ensures
        ({
            let s = r.open_staged(path, c).events;
            &&& s.len() > r.events.len()
            &&& s.subrange(0, r.events.len() as int) == r.events
            &&& s[r.events.len() as int] is ImportStage
            &&& s[r.events.len() as int]->stage == "begin"@
            &&& c.read is Ok && c.parsed is Some && (c.format == Some(Format::Dxf) || c.format
                == Some(Format::Rsm)) ==> s.len() == r.events.len() + 7 && s.last() is ImportStage
                && s.last()->stage == "TOTAL do_open"@ && s.last()->dobjects == c.parsed->0
        }),
{
    reveal(RecorderView::kept);
    assert(r.open_staged(path, c).events.subrange(0, r.events.len() as int) =~= r.events);
}

} // verus!
