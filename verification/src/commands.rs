//! Commands: the registry, the remembered methods, the palette and the command line.
//!
//! What a command does is decided by whoever runs it; this module says which commands run, in
//! which order, and what the windows show meanwhile.
use vstd::prelude::*;

use crate::app::{AppView, CadApp};
use crate::copying::{group_views, views, Duplicate};
use crate::text::{parse_unsigned, same, unsigned};
use crate::textmap::TextMap;

verus! {

/// The tool number that stands for selection mode.
pub const NO_TOOL: u32 = 0;

/// One way of carrying out a command: its short code, its full name and the key it is asked for
/// by.
pub struct Method {
    pub short: String,
    pub full: String,
    pub key: String,
}

/// The model of a [`Method`].
#[verifier::ext_equal]
pub struct MethodView {
    pub short: Seq<char>,
    pub full: Seq<char>,
    pub key: Seq<char>,
}

impl View for Method {
    type V = MethodView;

    open spec fn view(&self) -> MethodView {
        MethodView { short: self.short@, full: self.full@, key: self.key@ }
    }
}

/// The methods of a command, the default one first.
pub struct Flyout {
    pub cmd: String,
    pub items: Vec<Method>,
}

/// The model of a [`Flyout`].
#[verifier::ext_equal]
pub struct FlyoutView {
    pub cmd: Seq<char>,
    pub items: Seq<MethodView>,
}

impl View for Flyout {
    type V = FlyoutView;

    open spec fn view(&self) -> FlyoutView {
        FlyoutView { cmd: self.cmd@, items: views(self.items@) }
    }
}

/// A command as the registry knows it: its id, the command word it runs, how it is listed and
/// searched for, and its icon.
pub struct CommandInfo {
    pub id: String,
    pub dispatch: String,
    pub title: String,
    pub keywords: String,
    pub icon: u32,
}

/// The model of a [`CommandInfo`].
#[verifier::ext_equal]
pub struct InfoView {
    pub id: Seq<char>,
    pub dispatch: Seq<char>,
    pub title: Seq<char>,
    pub keywords: Seq<char>,
    pub icon: u32,
}

impl View for CommandInfo {
    type V = InfoView;

    open spec fn view(&self) -> InfoView {
        InfoView {
            id: self.id@,
            dispatch: self.dispatch@,
            title: self.title@,
            keywords: self.keywords@,
            icon: self.icon,
        }
    }
}

/// Where a circle command starts, when not at its centre.
#[derive(Clone, Copy, Debug, PartialEq, Eq, Structural)]
pub enum CircleStep {
    Center,
    P3a,
    P2a,
    TtrObj1,
}

/// The three workspaces.
#[derive(Clone, Copy, Debug, PartialEq, Eq, Structural)]
pub enum Mode {
    Cad2D,
    Simlux,
    Factory,
}

/// The state of the command surfaces. `arc_methods` is how many ways of drawing an arc there are;
/// `circle` is the step of a circle command that is under way.
pub struct CommandState {
    pub registry: Vec<CommandInfo>,
    pub flyouts: Vec<Flyout>,
    pub command_method: TextMap,
    pub tool: u32,
    pub array_open: bool,
    pub rail_active: String,
    pub arc_method: usize,
    pub arc_methods: usize,
    pub circle: Option<CircleStep>,
    pub palette_open: bool,
    pub palette_focus: bool,
    pub palette_query: String,
    pub palette_sel: usize,
    pub cmd: String,
    pub current_prompt: String,
    pub refocus_cmd: bool,
    pub cmd_window_open: bool,
    pub mode: Mode,
    pub in_text_body: bool,
    pub renaming_layer: bool,
}

/// The model of a [`CommandState`].
pub struct CmdView {
    pub registry: Seq<InfoView>,
    pub flyouts: Seq<FlyoutView>,
    pub command_method: Map<Seq<char>, Seq<char>>,
    pub tool: u32,
    pub array_open: bool,
    pub rail_active: Seq<char>,
    pub arc_method: usize,
    pub arc_methods: usize,
    pub circle: Option<CircleStep>,
    pub palette_open: bool,
    pub palette_focus: bool,
    pub palette_query: Seq<char>,
    pub palette_sel: usize,
    pub cmd: Seq<char>,
    pub current_prompt: Seq<char>,
    pub refocus_cmd: bool,
    pub cmd_window_open: bool,
    pub mode: Mode,
    pub in_text_body: bool,
    pub renaming_layer: bool,
}

impl View for CommandState {
    type V = CmdView;

    open spec fn view(&self) -> CmdView {
        CmdView {
            registry: views(self.registry@),
            flyouts: views(self.flyouts@),
            command_method: self.command_method@,
            tool: self.tool,
            array_open: self.array_open,
            rail_active: self.rail_active@,
            arc_method: self.arc_method,
            arc_methods: self.arc_methods,
            circle: self.circle,
            palette_open: self.palette_open,
            palette_focus: self.palette_focus,
            palette_query: self.palette_query@,
            palette_sel: self.palette_sel,
            cmd: self.cmd@,
            current_prompt: self.current_prompt@,
            refocus_cmd: self.refocus_cmd,
            cmd_window_open: self.cmd_window_open,
            mode: self.mode,
            in_text_body: self.in_text_body,
            renaming_layer: self.renaming_layer,
        }
    }
}

impl CmdView {
    /// The command surfaces as the application starts with them.
    pub open spec fn fresh() -> CmdView {
        CmdView {
            registry: Seq::empty(),
            flyouts: Seq::empty(),
            command_method: Map::empty(),
            tool: NO_TOOL,
            array_open: false,
            rail_active: Seq::empty(),
            arc_method: 0,
            arc_methods: 0,
            circle: None,
            palette_open: false,
            palette_focus: false,
            palette_query: Seq::empty(),
            palette_sel: 0,
            cmd: Seq::empty(),
            current_prompt: Seq::empty(),
            refocus_cmd: false,
            cmd_window_open: false,
            mode: Mode::Cad2D,
            in_text_body: false,
            renaming_layer: false,
        }
    }
}

impl CommandState {
    /// The command surfaces as the application starts with them.
    pub fn new() -> (r: CommandState)
        ensures
            r@ == CmdView::fresh(),
    {
        broadcast use group_views;

        CommandState {
            registry: Vec::new(),
            flyouts: Vec::new(),
            command_method: TextMap::new(),
            tool: NO_TOOL,
            array_open: false,
            rail_active: String::new(),
            arc_method: 0,
            arc_methods: 0,
            circle: None,
            palette_open: false,
            palette_focus: false,
            palette_query: String::new(),
            palette_sel: 0,
            cmd: String::new(),
            current_prompt: String::new(),
            refocus_cmd: false,
            cmd_window_open: false,
            mode: Mode::Cad2D,
            in_text_body: false,
            renaming_layer: false,
        }
    }
}

/// What has to be done, in order, to carry out a command. `Run` hands a command word to the
/// interpreter and `ShowPrompt` asks the command under way for its prompt; the others are changes
/// to be made with [`CadApp::nudge`].
pub enum CmdAction {
    Run(String),
    ShowPrompt,
    ArcMethod(usize),
    Circle(CircleStep),
    Rail(String),
}

/// The model of a [`CmdAction`].
#[verifier::ext_equal]
pub enum ActionView {
    Run(Seq<char>),
    ShowPrompt,
    ArcMethod(usize),
    Circle(CircleStep),
    Rail(Seq<char>),
}

impl View for CmdAction {
    type V = ActionView;

    open spec fn view(&self) -> ActionView {
        match self {
            CmdAction::Run(s) => ActionView::Run(s@),
            CmdAction::ShowPrompt => ActionView::ShowPrompt,
            CmdAction::ArcMethod(i) => ActionView::ArcMethod(*i),
            CmdAction::Circle(c) => ActionView::Circle(*c),
            CmdAction::Rail(s) => ActionView::Rail(s@),
        }
    }
}

/// What a rule for showing or offering a command may look at.
#[derive(Clone, Copy, Debug, PartialEq, Eq, Structural)]
pub struct Ctx {
    pub selection_count: usize,
    pub has_selection: bool,
    pub active_tool: u32,
    pub has_clipboard: bool,
}

/// The methods of a command: those of the first flyout under its name, or none.
pub open spec fn methods_of(f: Seq<FlyoutView>, cmd: Seq<char>) -> Seq<MethodView>
    decreases f.len(),
{
    if f.len() == 0 {
        Seq::empty()
    } else if f[0].cmd == cmd {
        f[0].items
    } else {
        methods_of(f.drop_first(), cmd)
    }
}

/// The first method of a key.
pub open spec fn method_index(m: Seq<MethodView>, key: Seq<char>) -> Option<int>
    decreases m.len(),
{
    if m.len() == 0 {
        None
    } else if m[0].key == key {
        Some(0)
    } else {
        match method_index(m.drop_first(), key) {
            Some(i) => Some(i + 1),
            None => None,
        }
    }
}

/// `method_index` is the least index of that key.
pub proof fn method_index_is_least(m: Seq<MethodView>, key: Seq<char>)
    ensures
        match method_index(m, key) {
            Some(i) => 0 <= i < m.len() && m[i].key == key && forall|j: int|
                0 <= j < i ==> (#[trigger] m[j]).key != key,
            None => forall|j: int| 0 <= j < m.len() ==> (#[trigger] m[j]).key != key,
        },
    decreases m.len(),
{
    if m.len() > 0 && m[0].key != key {
        let rest = m.drop_first();
        method_index_is_least(rest, key);
        assert forall|j: int| 0 < j < m.len() implies (#[trigger] m[j]) == rest[j - 1] by {}
    }
}

/// The first command of an id.
pub open spec fn command_index(r: Seq<InfoView>, id: Seq<char>) -> Option<int>
    decreases r.len(),
{
    if r.len() == 0 {
        None
    } else if r[0].id == id {
        Some(0)
    } else {
        match command_index(r.drop_first(), id) {
            Some(i) => Some(i + 1),
            None => None,
        }
    }
}

/// `command_index` is the least index of that id.
pub proof fn command_index_is_least(r: Seq<InfoView>, id: Seq<char>)
    ensures
        match command_index(r, id) {
            Some(i) => 0 <= i < r.len() && r[i].id == id && forall|j: int|
                0 <= j < i ==> (#[trigger] r[j]).id != id,
            None => forall|j: int| 0 <= j < r.len() ==> (#[trigger] r[j]).id != id,
        },
    decreases r.len(),
{
    if r.len() > 0 && r[0].id != id {
        let rest = r.drop_first();
        command_index_is_least(rest, id);
        assert forall|j: int| 0 < j < r.len() implies (#[trigger] r[j]) == rest[j - 1] by {}
    }
}

/// Whether a command remembers the method it was last given.
pub open spec fn remembers(cmd: Seq<char>) -> bool {
    cmd == "arc"@ || cmd == "circle"@ || cmd == "fillet"@
}

impl CmdView {
    /// The method a command remembers.
    pub open spec fn remembered(self, cmd: Seq<char>) -> Option<Seq<char>> {
        if self.command_method.dom().contains(cmd) {
            Some(self.command_method[cmd])
        } else {
            None
        }
    }

    /// The short code of a command's current method: of the remembered one where it is among the
    /// command's methods, else of the first. Empty for a command without methods.
    pub open spec fn method_short(self, cmd: Seq<char>) -> Seq<char> {
        let m = methods_of(self.flyouts, cmd);
        match self.remembered(cmd) {
            Some(k) if method_index(m, k) is Some => m[method_index(m, k)->0].short,
            _ => if m.len() > 0 {
                m[0].short
            } else {
                Seq::empty()
            },
        }
    }

    /// The key of a command's current method: the remembered one where it is among the command's
    /// methods, else the first. Empty for a command without methods.
    pub open spec fn method_key(self, cmd: Seq<char>) -> Seq<char> {
        let m = methods_of(self.flyouts, cmd);
        match self.remembered(cmd) {
            Some(k) if method_index(m, k) is Some => k,
            _ => if m.len() > 0 {
                m[0].key
            } else {
                Seq::empty()
            },
        }
    }

    /// After a command's base form has been asked for.
    pub open spec fn base_dispatched(self, cmd: Seq<char>) -> CmdView {
        if cmd == "pointer"@ {
            CmdView { tool: NO_TOOL, ..self }
        } else if cmd == "array"@ {
            CmdView { array_open: true, ..self }
        } else {
            self
        }
    }

    /// What a command's base form asks for: the pointer and the array dialog are changes of state
    /// and need nothing run.
    pub open spec fn base_actions(cmd: Seq<char>) -> Seq<ActionView> {
        if cmd == "pointer"@ || cmd == "array"@ {
            Seq::empty()
        } else {
            seq![ActionView::Run(cmd)]
        }
    }

    /// After a command has been asked for in a given method.
    pub open spec fn method_dispatched(self, cmd: Seq<char>, key: Seq<char>) -> CmdView {
        if remembers(cmd) {
            CmdView { command_method: self.command_method.insert(cmd, key), ..self }
        } else {
            self.base_dispatched(cmd)
        }
    }

    /// What a command in a given method asks for: its normal start, then what turns it to the
    /// method.
    pub open spec fn method_actions(self, cmd: Seq<char>, key: Seq<char>) -> Seq<ActionView> {
        if cmd == "arc"@ {
            let start = seq![ActionView::Run(cmd)];
            let turned = match unsigned(key, usize::MAX as nat) {
                Some(i) if i < self.arc_methods => start.push(ActionView::ArcMethod(i as usize)),
                _ => start,
            };
            turned.push(ActionView::Rail(cmd))
        } else if cmd == "circle"@ {
            let start = seq![ActionView::Run(cmd)];
            let turned = if key == "3p"@ {
                start.push(ActionView::Circle(CircleStep::P3a))
            } else if key == "2p"@ {
                start.push(ActionView::Circle(CircleStep::P2a))
            } else if key == "ttr"@ {
                start.push(ActionView::Circle(CircleStep::TtrObj1))
            } else {
                start
            };
            turned.push(ActionView::ShowPrompt).push(ActionView::Rail(cmd))
        } else if cmd == "fillet"@ {
            let start = seq![ActionView::Run(cmd)];
            let turned = if key == "poly"@ {
                start.push(ActionView::Run("p"@))
            } else if key == "multi"@ {
                start.push(ActionView::Run("m"@))
            } else {
                start
            };
            turned.push(ActionView::Rail(cmd))
        } else {
            CmdView::base_actions(cmd)
        }
    }

    /// After a command of the registry has been executed: in its remembered method, or in its base
    /// form.
    pub open spec fn executed(self, id: Seq<char>) -> CmdView {
        match command_index(self.registry, id) {
            Some(i) => {
                let cmd = self.registry[i].dispatch;
                match self.remembered(cmd) {
                    Some(key) => self.method_dispatched(cmd, key),
                    None => self.base_dispatched(cmd),
                }
            },
            None => self,
        }
    }

    /// What executing a command of the registry asks for; nothing for an unknown id.
    pub open spec fn execute_actions(self, id: Seq<char>) -> Seq<ActionView> {
        match command_index(self.registry, id) {
            Some(i) => {
                let cmd = self.registry[i].dispatch;
                match self.remembered(cmd) {
                    Some(key) => self.method_actions(cmd, key),
                    None => CmdView::base_actions(cmd),
                }
            },
            None => Seq::empty(),
        }
    }

    /// After one change that a command asked for. A circle that is not under way cannot be turned
    /// to another start.
    pub open spec fn nudged(self, a: ActionView) -> CmdView {
        match a {
            ActionView::ArcMethod(i) => CmdView { arc_method: i, ..self },
            ActionView::Circle(c) => if self.circle is Some {
                CmdView { circle: Some(c), ..self }
            } else {
                self
            },
            ActionView::Rail(s) => CmdView { rail_active: s, ..self },
            _ => self,
        }
    }
}

impl CommandState {
    /// The place of a command's methods in the list of flyouts.
    pub(crate) fn flyout_of(&self, cmd: &str) -> (r: Option<usize>)
        ensures
            match r {
                Some(i) => i < self.flyouts.len() && views(self.flyouts@[i as int].items@)
                    == methods_of(self@.flyouts, cmd@),
                None => methods_of(self@.flyouts, cmd@) == Seq::<MethodView>::empty(),
            },
    {
        let ghost all = views(self.flyouts@);
        let mut i: usize = 0;
        assert(all.subrange(0, all.len() as int) =~= all);
        while i < self.flyouts.len()
            invariant
                i <= self.flyouts.len(),
                all == views(self.flyouts@),
                methods_of(all, cmd@) == methods_of(
                    all.subrange(i as int, all.len() as int),
                    cmd@,
                ),
            decreases self.flyouts.len() - i,
        {
            let ghost tail = all.subrange(i as int, all.len() as int);
            assert(tail[0] == self.flyouts@[i as int]@);
            assert(tail.drop_first() =~= all.subrange(i + 1, all.len() as int));
            if same(self.flyouts[i].cmd.as_str(), cmd) {
                return Some(i);
            }
            i += 1;
        }
        None
    }

    fn method_at(items: &Vec<Method>, key: &str) -> (r: Option<usize>)
        ensures
            match r {
                Some(i) => method_index(views(items@), key@) == Some(i as int) && i < items.len(),
                None => method_index(views(items@), key@) is None,
            },
    {
        let ghost all = views(items@);
        let mut i: usize = 0;
        while i < items.len()
            invariant
                i <= items.len(),
                all == views(items@),
                forall|j: int| 0 <= j < i ==> (#[trigger] all[j]).key != key@,
            decreases items.len() - i,
        {
            if same(items[i].key.as_str(), key) {
                proof {
                    method_index_is_least(all, key@);
                }
                assert(all[i as int].key == key@);
                return Some(i);
            }
            i += 1;
        }
        proof {
            method_index_is_least(all, key@);
        }
        None
    }

    fn command_at(&self, id: &str) -> (r: Option<usize>)
        ensures
            match r {
                Some(i) => command_index(self@.registry, id@) == Some(i as int) && i
                    < self.registry.len(),
                None => command_index(self@.registry, id@) is None,
            },
    {
        let ghost all = views(self.registry@);
        let mut i: usize = 0;
        while i < self.registry.len()
            invariant
                i <= self.registry.len(),
                all == views(self.registry@),
                forall|j: int| 0 <= j < i ==> (#[trigger] all[j]).id != id@,
            decreases self.registry.len() - i,
        {
            if same(self.registry[i].id.as_str(), id) {
                proof {
                    command_index_is_least(all, id@);
                }
                assert(all[i as int].id == id@);
                return Some(i);
            }
            i += 1;
        }
        proof {
            command_index_is_least(all, id@);
        }
        None
    }

    pub(crate) fn start_base(&mut self, cmd: &str) -> (r: Vec<CmdAction>)
        ensures
            views(r@) == CmdView::base_actions(cmd@),
            final(self)@ == old(self)@.base_dispatched(cmd@),
    {
        broadcast use group_views;

        let mut out: Vec<CmdAction> = Vec::new();
        if same(cmd, "pointer") {
            self.tool = NO_TOOL;
        } else if same(cmd, "array") {
            self.array_open = true;
        } else {
            out.push(CmdAction::Run(String::from_str(cmd)));
            assert(views(out@) =~= seq![ActionView::Run(cmd@)]);
        }
        out
    }

    pub(crate) fn start_method(&mut self, cmd: &str, key: &str) -> (r: Vec<CmdAction>)
        ensures
            views(r@) == old(self)@.method_actions(cmd@, key@),
            final(self)@ == old(self)@.method_dispatched(cmd@, key@),
    {
        broadcast use group_views;

        let arc = same(cmd, "arc");
        let circle = same(cmd, "circle");
        let fillet = same(cmd, "fillet");
        if !arc && !circle && !fillet {
            return self.start_base(cmd);
        }
        self.command_method.insert(String::from_str(cmd), String::from_str(key));
        let mut out: Vec<CmdAction> = Vec::new();
        out.push(CmdAction::Run(String::from_str(cmd)));
        assert(views(out@) =~= seq![ActionView::Run(cmd@)]);
        proof {
            reveal_strlit("arc");
            reveal_strlit("circle");
            reveal_strlit("fillet");
            assert("arc"@.len() == 3 && "circle"@.len() == 6 && "fillet"@.len() == 6);
            assert("circle"@[0] == 'c' && "fillet"@[0] == 'f');
        }
        if arc {
            if let Some(i) = parse_unsigned(key, usize::MAX as u64) {
                if i < self.arc_methods as u64 {
                    out.push(CmdAction::ArcMethod(i as usize));
                }
            }
        } else if circle {
            if same(key, "3p") {
                out.push(CmdAction::Circle(CircleStep::P3a));
            } else if same(key, "2p") {
                out.push(CmdAction::Circle(CircleStep::P2a));
            } else if same(key, "ttr") {
                out.push(CmdAction::Circle(CircleStep::TtrObj1));
            }
            out.push(CmdAction::ShowPrompt);
        } else {
            if same(key, "poly") {
                out.push(CmdAction::Run(String::from_str("p")));
            } else if same(key, "multi") {
                out.push(CmdAction::Run(String::from_str("m")));
            }
        }
        out.push(CmdAction::Rail(String::from_str(cmd)));
        out
    }

    pub(crate) fn start(&mut self, id: &str) -> (r: Vec<CmdAction>)
        ensures
            views(r@) == old(self)@.execute_actions(id@),
            final(self)@ == old(self)@.executed(id@),
    {
        broadcast use group_views;

        match self.command_at(id) {
            Some(i) => {
                let dispatch = self.registry[i].dispatch.clone();
                match self.command_method.get(dispatch.as_str()) {
                    Some(key) => self.start_method(dispatch.as_str(), key.as_str()),
                    None => self.start_base(dispatch.as_str()),
                }
            },
            None => Vec::new(),
        }
    }

    fn nudge(&mut self, a: CmdAction)
        ensures
            final(self)@ == old(self)@.nudged(a@),
    {
        match a {
            CmdAction::ArcMethod(i) => {
                self.arc_method = i;
            },
            CmdAction::Circle(c) => {
                if self.circle.is_some() {
                    self.circle = Some(c);
                }
            },
            CmdAction::Rail(s) => {
                self.rail_active = s;
            },
            _ => {},
        }
    }

    pub(crate) fn short_of(&self, cmd: &str) -> (r: String)
        ensures
            r@ == self@.method_short(cmd@),
    {
        let remembered = self.command_method.get(cmd);
        match self.flyout_of(cmd) {
            Some(f) => {
                let items: &Vec<Method> = &self.flyouts[f].items;
                if let Some(k) = remembered {
                    if let Some(i) = CommandState::method_at(items, k.as_str()) {
                        return items[i].short.clone();
                    }
                }
                if items.len() > 0 {
                    items[0].short.clone()
                } else {
                    String::new()
                }
            },
            None => String::new(),
        }
    }

    pub(crate) fn key_of(&self, cmd: &str) -> (r: String)
        ensures
            r@ == self@.method_key(cmd@),
    {
        let remembered = self.command_method.get(cmd);
        match self.flyout_of(cmd) {
            Some(f) => {
                let items: &Vec<Method> = &self.flyouts[f].items;
                if let Some(k) = remembered {
                    if let Some(_) = CommandState::method_at(items, k.as_str()) {
                        return k;
                    }
                }
                if items.len() > 0 {
                    items[0].key.clone()
                } else {
                    String::new()
                }
            },
            None => String::new(),
        }
    }
}

impl CadApp {
    /// The short code of a command's current method.
    pub fn current_method_short(&self, cmd: &str) -> (r: String)
        ensures
            r@ == self@.cmds.method_short(cmd@),
    {
        self.cmds.short_of(cmd)
    }

    /// The key of a command's current method.
    pub fn current_method_key(&self, cmd: &str) -> (r: String)
        ensures
            r@ == self@.cmds.method_key(cmd@),
    {
        self.cmds.key_of(cmd)
    }

    /// Asks for a command's base form: selection mode and the array dialog at once, any other
    /// command by having it run.
    pub fn dispatch_base(&mut self, cmd: &str) -> (r: Vec<CmdAction>)
        ensures
            views(r@) == CmdView::base_actions(cmd@),
            final(self)@ == (AppView {
                cmds: old(self)@.cmds.base_dispatched(cmd@),
                ..old(self)@
            }),
    {
        self.cmds.start_base(cmd)
    }

    /// Asks for a command in a given method, and remembers the method where the command has
    /// methods.
    pub fn dispatch_method(&mut self, cmd: &str, key: &str) -> (r: Vec<CmdAction>)
        ensures
            views(r@) == old(self)@.cmds.method_actions(cmd@, key@),
            final(self)@ == (AppView {
                cmds: old(self)@.cmds.method_dispatched(cmd@, key@),
                ..old(self)@
            }),
    {
        self.cmds.start_method(cmd, key)
    }

    /// Makes one change that a command asked for.
    pub fn nudge(&mut self, a: CmdAction)
        ensures
            final(self)@ == (AppView { cmds: old(self)@.cmds.nudged(a@), ..old(self)@ }),
    {
        self.cmds.nudge(a);
    }

    /// Executes a command of the registry: in the method it remembers, or in its base form.
    pub fn execute(&mut self, id: &str) -> (r: Vec<CmdAction>)
        ensures
            views(r@) == old(self)@.cmds.execute_actions(id@),
            final(self)@ == (AppView { cmds: old(self)@.cmds.executed(id@), ..old(self)@ }),
    {
        self.cmds.start(id)
    }

    /// What the rules for showing and offering commands may look at.
    pub fn build_ctx(&self) -> (r: Ctx)
        ensures
            r.selection_count == if self@.selection.len() > 0 {
                self@.selection.len()
            } else if self@.selected is Some {
                1
            } else {
                0
            },
            r.has_selection == (self@.selection.len() > 0 || self@.selected is Some),
            r.active_tool == self@.cmds.tool,
            r.has_clipboard == (self@.clip.dobjects.len() > 0),
    {
        let selection_count: usize = if self.selection.len() > 0 {
            self.selection.len()
        } else if self.selected.is_some() {
            1
        } else {
            0
        };
        Ctx {
            selection_count: selection_count,
            has_selection: selection_count > 0,
            active_tool: self.cmds.tool,
            has_clipboard: self.clip.dobjects.len() > 0,
        }
    }
}

/// The short code and the key of a command with methods name the same one of them; with nothing
/// remembered, or something that is no longer among them, it is the first.
pub proof fn short_and_key_agree(c: CmdView, cmd: Seq<char>)
    requires
        methods_of(c.flyouts, cmd).len() > 0,
    ensures
        ({
            let m = methods_of(c.flyouts, cmd);
            &&& exists|i: int|
                0 <= i < m.len() && (#[trigger] m[i]).short == c.method_short(cmd) && m[i].key
                    == c.method_key(cmd)
            &&& c.remembered(cmd) is None || method_index(m, c.remembered(cmd)->0) is None
                ==> c.method_short(cmd) == m[0].short && c.method_key(cmd) == m[0].key
        }),
{
    let m = methods_of(c.flyouts, cmd);
    match c.remembered(cmd) {
        Some(k) => {
            method_index_is_least(m, k);
            if let Some(i) = method_index(m, k) {
                assert(m[i].short == c.method_short(cmd) && m[i].key == c.method_key(cmd));
            } else {
                assert(m[0].short == c.method_short(cmd) && m[0].key == c.method_key(cmd));
            }
        },
        None => {
            assert(m[0].short == c.method_short(cmd) && m[0].key == c.method_key(cmd));
        },
    }
}

/// A method that was chosen once is used from then on: executing the command runs it in that
/// method, and it is the command's current one.
pub proof fn chosen_method_is_used(c: CmdView, id: Seq<char>, i: int, key: Seq<char>)
    requires
        command_index(c.registry, id) == Some(i),
        remembers(c.registry[i].dispatch),
    ensures
        ({
            let cmd = c.registry[i].dispatch;
            let after = c.method_dispatched(cmd, key);
            &&& after.execute_actions(id) == c.method_actions(cmd, key)
            &&& after.executed(id) == after
            &&& method_index(methods_of(c.flyouts, cmd), key) is Some ==> after.method_key(cmd)
                == key
        }),
{
    let cmd = c.registry[i].dispatch;
    let after = c.method_dispatched(cmd, key);
    assert(after.command_method.insert(cmd, key) =~= after.command_method);
}

/// Whatever its method, a command that has methods is started first, and ends on the rail as the
/// active one.
pub proof fn methods_start_the_command(c: CmdView, cmd: Seq<char>, key: Seq<char>)
    ensures
        remembers(cmd) ==> {
            let a = c.method_actions(cmd, key);
            &&& a.len() >= 2
            &&& a[0] == ActionView::Run(cmd)
            &&& a.last() == ActionView::Rail(cmd)
            &&& c.method_dispatched(cmd, key).remembered(cmd) == Some(key)
        },
        !remembers(cmd) ==> c.method_dispatched(cmd, key).command_method == c.command_method,
        forall|other: Seq<char>|
            other != cmd ==> #[trigger] c.method_dispatched(cmd, key).remembered(other)
                == c.remembered(other),
{
    reveal_strlit("arc");
    reveal_strlit("circle");
    reveal_strlit("fillet");
    assert("arc"@.len() != "circle"@.len() && "arc"@.len() != "fillet"@.len());
}

/// The pointer takes the tool off and the array opens its window; every other command is run, once.
pub proof fn plain_commands_are_run(c: CmdView, cmd: Seq<char>)
    ensures
        cmd == "pointer"@ ==> c.base_dispatched(cmd).tool == NO_TOOL && CmdView::base_actions(
            cmd,
        ).len() == 0,
        cmd == "array"@ ==> c.base_dispatched(cmd).array_open && c.base_dispatched(cmd).tool == c.tool
            && CmdView::base_actions(cmd).len() == 0,
        cmd != "pointer"@ && cmd != "array"@ ==> c.base_dispatched(cmd) == c
            && CmdView::base_actions(cmd) == seq![ActionView::Run(cmd)],
{
    reveal_strlit("pointer");
    reveal_strlit("array");
    assert("pointer"@.len() != "array"@.len());
}

/// A command that is not registered does nothing. One that is runs what it is registered for.
pub proof fn registered_commands_are_executed(c: CmdView, id: Seq<char>, i: int)
    ensures
        (forall|k: int| 0 <= k < c.registry.len() ==> (#[trigger] c.registry[k]).id != id)
            ==> c.executed(id) == c && c.execute_actions(id).len() == 0,
        0 <= i < c.registry.len() && c.registry[i].id == id && (forall|k: int|
            0 <= k < i ==> (#[trigger] c.registry[k]).id != id) && c.remembered(
            c.registry[i].dispatch,
        ) is None ==> c.execute_actions(id) == CmdView::base_actions(c.registry[i].dispatch)
            && c.executed(id) == c.base_dispatched(c.registry[i].dispatch),
{
    command_index_is_least(c.registry, id);
    match command_index(c.registry, id) {
        Some(j) => {
            assert(c.registry[j].id == id);
        },
        None => {},
    }
}

/// What a running tool is told is what it then is at, and nothing else changes. A circle is turned
/// only while one is drawn.
pub proof fn nudges_reach_their_tool(c: CmdView, i: usize, step: CircleStep, cmd: Seq<char>)
    ensures
        c.nudged(ActionView::ArcMethod(i)).arc_method == i,
        c.nudged(ActionView::ArcMethod(i)).circle == c.circle,
        c.circle is Some ==> c.nudged(ActionView::Circle(step)).circle == Some(step),
        c.circle is None ==> c.nudged(ActionView::Circle(step)) == c,
        c.nudged(ActionView::Circle(step)).arc_method == c.arc_method,
        c.nudged(ActionView::Rail(cmd)).rail_active == cmd,
        c.nudged(ActionView::Run(cmd)) == c,
        c.nudged(ActionView::ShowPrompt) == c,
{
}

/// The methods of a command are those of the first flyout that is its own.
pub proof fn methods_are_of_the_command(f: Seq<FlyoutView>, cmd: Seq<char>)
    ensures
        methods_of(f, cmd).len() > 0 ==> exists|i: int|
            0 <= i < f.len() && (#[trigger] f[i]).cmd == cmd && methods_of(f, cmd) == f[i].items,
        (forall|i: int| 0 <= i < f.len() ==> (#[trigger] f[i]).cmd != cmd) ==> methods_of(f, cmd).len()
            == 0,
    decreases f.len(),
{
    if f.len() > 0 && f[0].cmd != cmd {
        let rest = f.drop_first();
        methods_are_of_the_command(rest, cmd);
        if methods_of(rest, cmd).len() > 0 {
            let i = choose|i: int|
                0 <= i < rest.len() && (#[trigger] rest[i]).cmd == cmd && methods_of(rest, cmd)
                    == rest[i].items;
            assert(f[i + 1] == rest[i]);
        }
        if forall|i: int| 0 <= i < f.len() ==> (#[trigger] f[i]).cmd != cmd {
            assert forall|i: int| 0 <= i < rest.len() implies (#[trigger] rest[i]).cmd != cmd by {
                assert(f[i + 1] == rest[i]);
            }
        }
    }
}

/// A circle is begun and then turned to the way that its method draws it; an arc to its method, if
/// there is one of that number.
pub proof fn methods_turn_their_command(c: CmdView, n: nat)
    ensures
        c.method_actions("circle"@, "3p"@)[1] == ActionView::Circle(CircleStep::P3a),
        c.method_actions("circle"@, "2p"@)[1] == ActionView::Circle(CircleStep::P2a),
        c.method_actions("circle"@, "ttr"@)[1] == ActionView::Circle(CircleStep::TtrObj1),
        c.method_actions("fillet"@, "poly"@)[1] == ActionView::Run("p"@),
        c.method_actions("fillet"@, "multi"@)[1] == ActionView::Run("m"@),
        n < c.arc_methods ==> c.method_actions("arc"@, crate::text::dec(n))[1] == ActionView::ArcMethod(
            n as usize,
        ),
        n >= c.arc_methods ==> c.method_actions("arc"@, crate::text::dec(n)).len() == 2,
{
    reveal_strlit("arc");
    reveal_strlit("circle");
    reveal_strlit("fillet");
    reveal_strlit("3p");
    reveal_strlit("2p");
    reveal_strlit("ttr");
    reveal_strlit("poly");
    reveal_strlit("multi");
    assert("arc"@.len() == 3 && "circle"@.len() == 6 && "fillet"@.len() == 6);
    assert("circle"@[0] == 'c' && "fillet"@[0] == 'f');
    assert("3p"@[0] == '3' && "2p"@[0] == '2' && "ttr"@.len() == 3);
    assert("poly"@.len() == 4 && "multi"@.len() == 5);
    crate::text::typed_number_is_taken(n, usize::MAX as nat);
}

} // verus!
