use vstd::prelude::*;
use crate::command::{Command, ParseError, non_object, request_decoded};
use crate::json::{Json, json_of, members_of, parse_json};
use crate::state::{
    BridgeState, CommandResult, Guard, PaneRecord, TabRecord, clone_opt, focused_terminal,
    guarded_id, status_of,
};
use crate::text::{contains_folded, contains_lowered, lower_of, str_eq, to_lower};

verus! {

/// A direction to move a pane in.
#[derive(Clone, Copy, Debug, PartialEq, Eq, Structural)]
pub enum Direction {
    Up,
    Down,
    Left,
    Right,
}

/// Whether a resize grows or shrinks the pane.
#[derive(Clone, Copy, Debug, PartialEq, Eq, Structural)]
pub enum ResizeKind {
    Increase,
    Decrease,
}

/// One host capability to invoke; the host reports no result.
#[derive(Debug)]
pub enum HostAction {
    WriteChars { pane_id: u32, chars: String },
    WriteBytes { pane_id: u32, bytes: Vec<u8> },
    FocusPane(u32),
    ClosePane(u32),
    HidePane(u32),
    ShowPane(u32),
    ClearPane(u32),
    ToggleFullscreen(u32),
    RenamePane { pane_id: u32, name: String },
    MovePane { pane_id: u32, direction: Direction },
    ResizePane { pane_id: u32, resize: ResizeKind },
    ToggleFloating(u32),
    OpenCommand { command: String, args: Vec<String>, cwd: Option<String>, floating: bool },
    Rerun(u32),
    NewTab { name: Option<String>, cwd: Option<String> },
    CloseTab(usize),
    FocusOrCreateTab(String),
    GoToTabName(String),
    GoToTab(u32),
    Detach,
}

/// The data part of a response.
#[derive(Debug)]
pub enum ResponseData {
    /// Bytes written: the UTF-8 length of text, or the count of raw bytes.
    Written { written: usize, pane_id: u32 },
    Panes(Vec<PaneRecord>),
    Tabs(Vec<TabRecord>),
    Focused(u32),
    ProtectedPane(u32),
    Closed(u32),
    Hidden(u32),
    Shown(u32),
    Cleared(u32),
    ToggledFullscreen(u32),
    Renamed { pane_id: u32, name: String },
    Moved { pane_id: u32, direction: String },
    Resized { pane_id: u32, direction: String },
    ToggledFloating(u32),
    Started { command: String, args: Vec<String>, floating: bool, cwd: Option<String> },
    Rerun(u32),
    Status(CommandResult),
    CreatedTab { name: Option<String>, cwd: Option<String> },
    ProtectedTab { index: u32, pane_id: u32 },
    ClosedTab(u32),
    FocusedTab { name: String, create: bool },
    WentToTab(u32),
    Session { tabs_count: usize, panes_count: usize, tabs: Vec<String>, protected_pane_id: Option<u32> },
    Detaching,
    ProtectionSet(u32),
    Protection { protected_pane_id: Option<u32>, auto_detected: bool },
}

/// The one answer to a request. `error` is set exactly when `success` is
/// false; `data` is set on success and on a guard refusal.
#[derive(Debug)]
pub struct Response {
    pub success: bool,
    pub error: Option<String>,
    pub data: Option<ResponseData>,
}

pub open spec fn direction_of(q: Seq<char>) -> Direction {
    if q == "up"@ {
        Direction::Up
    } else if q == "down"@ {
        Direction::Down
    } else if q == "left"@ {
        Direction::Left
    } else {
        Direction::Right
    }
}

pub open spec fn resize_of(q: Seq<char>) -> ResizeKind {
    if q == "decrease"@ || q == "down"@ || q == "left"@ {
        ResizeKind::Decrease
    } else {
        ResizeKind::Increase
    }
}

/// Normalizes a direction word case-insensitively; unknown words mean right.
pub fn parse_direction(s: &str) -> (r: Direction)
    ensures
        r == direction_of(lower_of(s@)),
{
    let l = to_lower(s);
    if str_eq(l.as_str(), "up") {
        Direction::Up
    } else if str_eq(l.as_str(), "down") {
        Direction::Down
    } else if str_eq(l.as_str(), "left") {
        Direction::Left
    } else {
        Direction::Right
    }
}

/// Normalizes a resize word case-insensitively; unknown words mean increase.
pub fn parse_resize(s: &str) -> (r: ResizeKind)
    ensures
        r == resize_of(lower_of(s@)),
{
    let l = to_lower(s);
    if str_eq(l.as_str(), "decrease") || str_eq(l.as_str(), "down") || str_eq(l.as_str(), "left") {
        ResizeKind::Decrease
    } else {
        ResizeKind::Increase
    }
}

/// A pane matches a query when its title or command contains it, ignoring case.
pub open spec fn query_match(p: PaneRecord, q: Seq<char>) -> bool {
    contains_folded(p.title@, q) || (p.command matches Some(c) && contains_folded(c@, q))
}

/// The panes of `s` that match `q`, in order.
pub open spec fn query_hits(s: Seq<PaneRecord>, q: Seq<char>) -> Seq<PaneRecord>
    decreases s.len(),
{
    if s.len() == 0 {
        Seq::empty()
    } else if query_match(s.last(), q) {
        query_hits(s.drop_last(), q).push(s.last())
    } else {
        query_hits(s.drop_last(), q)
    }
}

/// The first pane of `s` in tab `index` that `st` protects.
pub open spec fn tab_blocker(st: BridgeState, s: Seq<PaneRecord>, index: usize) -> Option<u32>
    decreases s.len(),
{
    if s.len() == 0 {
        None
    } else if s[0].tab_index == index && st.protects(s[0].id) {
        Some(s[0].id)
    } else {
        tab_blocker(st, s.drop_first(), index)
    }
}

pub open spec fn succeeds(r: Response, d: ResponseData) -> bool {
    r.success && r.error is None && r.data == Some(d)
}

pub open spec fn succeeds_some(r: Response) -> bool {
    r.success && r.error is None && r.data is Some
}

pub open spec fn refused(r: Response, msg: Seq<char>, d: ResponseData) -> bool {
    !r.success && (r.error matches Some(e) && e@ == msg) && r.data == Some(d)
}

pub open spec fn close_refusal() -> Seq<char> {
    "Cannot close the controller pane - this would terminate the agent (use force:true to override)"@
}

pub open spec fn hide_refusal() -> Seq<char> {
    "Cannot hide the controller pane - this would disrupt the agent (use force:true to override)"@
}

pub open spec fn tab_refusal() -> Seq<char> {
    "Cannot close tab containing the controller pane (use force:true to override)"@
}

/// The effect of executing `cmd` on state `s`: the new state `t`, the
/// response `r` and the host action `a`.
pub open spec fn executed(s: BridgeState, cmd: Command, t: BridgeState, r: Response, a: Option<HostAction>) -> bool {
    &&& (cmd is Protect) || t == s
    &&& match cmd {
        Command::Write { pane_id, chars } => succeeds(r, ResponseData::Written {
            written: vstd::utf8::encode_utf8(chars@).len() as usize,
            pane_id,
        })
            && a == Some(HostAction::WriteChars { pane_id, chars }),
        Command::WriteBytes { pane_id, bytes } => succeeds(r, ResponseData::Written { written: bytes@.len() as usize, pane_id })
            && (a matches Some(HostAction::WriteBytes { pane_id: p, bytes: b }) && p == pane_id && b@ == bytes@),
        Command::List => succeeds_some(r) && (r.data matches Some(ResponseData::Panes(v)) && v@ == s.panes@) && a is None,
        Command::Query { name } => succeeds_some(r)
            && (r.data matches Some(ResponseData::Panes(v)) && v@ == query_hits(s.panes@, lower_of(name@)))
            && a is None,
        Command::ListTabs => succeeds_some(r) && (r.data matches Some(ResponseData::Tabs(v)) && v@ == s.tabs@) && a is None,
        Command::Focus { pane_id } => succeeds(r, ResponseData::Focused(pane_id)) && a == Some(HostAction::FocusPane(pane_id)),
        Command::Close { pane_id, force } => if !force && s.protects(pane_id) {
            refused(r, close_refusal(), ResponseData::ProtectedPane(pane_id)) && a is None
        } else {
            succeeds(r, ResponseData::Closed(pane_id)) && a == Some(HostAction::ClosePane(pane_id))
        },
        Command::Hide { pane_id, force } => if !force && s.protects(pane_id) {
            refused(r, hide_refusal(), ResponseData::ProtectedPane(pane_id)) && a is None
        } else {
            succeeds(r, ResponseData::Hidden(pane_id)) && a == Some(HostAction::HidePane(pane_id))
        },
        Command::Show { pane_id } => succeeds(r, ResponseData::Shown(pane_id)) && a == Some(HostAction::ShowPane(pane_id)),
        Command::Clear { pane_id } => succeeds(r, ResponseData::Cleared(pane_id)) && a == Some(HostAction::ClearPane(pane_id)),
        Command::Fullscreen { pane_id } => succeeds(r, ResponseData::ToggledFullscreen(pane_id))
            && a == Some(HostAction::ToggleFullscreen(pane_id)),
        Command::RenamePane { pane_id, name } => succeeds(r, ResponseData::Renamed { pane_id, name })
            && a == Some(HostAction::RenamePane { pane_id, name }),
        Command::Move { pane_id, direction } => succeeds(r, ResponseData::Moved { pane_id, direction })
            && a == Some(HostAction::MovePane { pane_id, direction: direction_of(lower_of(direction@)) }),
        Command::Resize { pane_id, direction } => succeeds(r, ResponseData::Resized { pane_id, direction })
            && a == Some(HostAction::ResizePane { pane_id, resize: resize_of(lower_of(direction@)) }),
        Command::TogglePaneFloating { pane_id } => succeeds(r, ResponseData::ToggledFloating(pane_id))
            && a == Some(HostAction::ToggleFloating(pane_id)),
        Command::Run { command, args, cwd, floating } => succeeds_some(r)
            && (r.data matches Some(ResponseData::Started { command: c, args: g, floating: f, cwd: w })
                && c == command && g@ == args@ && f == floating && w == cwd)
            && (a matches Some(HostAction::OpenCommand { command: c, args: g, cwd: w, floating: f })
                && c == command && g@ == args@ && f == floating && w == cwd),
        Command::Rerun { pane_id } => succeeds(r, ResponseData::Rerun(pane_id)) && a == Some(HostAction::Rerun(pane_id)),
        Command::CommandStatus { pane_id } => succeeds(r, ResponseData::Status(status_of(s.command_results@, pane_id)))
            && a is None,
        Command::NewTab { name, cwd } => succeeds(r, ResponseData::CreatedTab { name, cwd })
            && a == Some(HostAction::NewTab { name, cwd }),
        Command::CloseTab { index, force } => if !force && tab_blocker(s, s.panes@, index as usize) is Some {
            refused(r, tab_refusal(), ResponseData::ProtectedTab {
                index,
                pane_id: tab_blocker(s, s.panes@, index as usize)->Some_0,
            }) && a is None
        } else {
            succeeds(r, ResponseData::ClosedTab(index)) && a == Some(HostAction::CloseTab(index as usize))
        },
        Command::FocusTab { name, create } => succeeds(r, ResponseData::FocusedTab { name, create })
            && a == Some(if create { HostAction::FocusOrCreateTab(name) } else { HostAction::GoToTabName(name) }),
        Command::GotoTab { index } => succeeds(r, ResponseData::WentToTab(index)) && a == Some(HostAction::GoToTab(index)),
        Command::SessionInfo => succeeds_some(r) && a is None
            && (r.data matches Some(ResponseData::Session { tabs_count, panes_count, tabs, protected_pane_id })
                && tabs_count == s.tabs@.len() && panes_count == s.panes@.len()
                && tabs@ == s.tabs@.map_values(|x: TabRecord| x.name)
                && protected_pane_id == guarded_id(s.guard)),
        Command::Detach => succeeds(r, ResponseData::Detaching) && a == Some(HostAction::Detach),
        Command::Protect { pane_id } => succeeds(r, ResponseData::ProtectionSet(pane_id)) && a is None
            && t.guard == Guard::Active(Some(pane_id)) && t.panes == s.panes && t.tabs == s.tabs
            && t.command_results == s.command_results && t.title_markers == s.title_markers
            && t.command_markers == s.command_markers,
        Command::GetProtected => succeeds(r, ResponseData::Protection {
            protected_pane_id: guarded_id(s.guard),
            auto_detected: guarded_id(s.guard) is Some,
        }) && a is None,
    }
}

fn ok(d: ResponseData) -> (r: Response)
    ensures
        r.success && r.error is None && r.data == Some(d),
{
    Response { success: true, error: None, data: Some(d) }
}

fn refuse(msg: &str, d: ResponseData) -> (r: Response)
    ensures
        !r.success && (r.error matches Some(e) && e@ == msg@) && r.data == Some(d),
{
    Response { success: false, error: Some(String::from_str(msg)), data: Some(d) }
}

impl BridgeState {
    /// Copies of all cached panes, in cache order.
    pub fn list_panes(&self) -> (r: Vec<PaneRecord>)
        ensures
            r@ == self.panes@,
    {
        let mut out: Vec<PaneRecord> = Vec::new();
        let mut i: usize = 0;
        while i < self.panes.len()
            invariant
                i <= self.panes@.len(),
                out@ == self.panes@.take(i as int),
            decreases self.panes@.len() - i,
        {
            out.push(self.panes[i].copy());
            assert(self.panes@.take(i + 1) =~= self.panes@.take(i as int).push(self.panes@[i as int]));
            i = i + 1;
        }
        assert(self.panes@.take(i as int) =~= self.panes@);
        out
    }

    /// Copies of the cached panes whose title or command contains `name`,
    /// ignoring case, in cache order.
    pub fn query_panes(&self, name: &str) -> (r: Vec<PaneRecord>)
        ensures
            r@ == query_hits(self.panes@, lower_of(name@)),
    {
        let q = to_lower(name);
        let mut out: Vec<PaneRecord> = Vec::new();
        let mut i: usize = 0;
        while i < self.panes.len()
            invariant
                i <= self.panes@.len(),
                q@ == lower_of(name@),
                out@ == query_hits(self.panes@.take(i as int), q@),
            decreases self.panes@.len() - i,
        {
            let p = &self.panes[i];
            let by_command = match &p.command {
                Some(c) => contains_lowered(c.as_str(), q.as_str()),
                None => false,
            };
            assert(self.panes@.take(i + 1).drop_last() =~= self.panes@.take(i as int));
            assert(self.panes@.take(i + 1).last() == self.panes@[i as int]);
            if contains_lowered(p.title.as_str(), q.as_str()) || by_command {
                out.push(p.copy());
            }
            i = i + 1;
        }
        assert(self.panes@.take(i as int) =~= self.panes@);
        out
    }

    /// Copies of the cached tabs.
    pub fn list_tabs(&self) -> (r: Vec<TabRecord>)
        ensures
            r@ == self.tabs@,
    {
        let mut out: Vec<TabRecord> = Vec::new();
        let mut i: usize = 0;
        while i < self.tabs.len()
            invariant
                i <= self.tabs@.len(),
                out@ == self.tabs@.take(i as int),
            decreases self.tabs@.len() - i,
        {
            out.push(self.tabs[i].copy());
            assert(self.tabs@.take(i + 1) =~= self.tabs@.take(i as int).push(self.tabs@[i as int]));
            i = i + 1;
        }
        assert(self.tabs@.take(i as int) =~= self.tabs@);
        out
    }

    /// The names of the cached tabs, in order.
    pub fn tab_names(&self) -> (r: Vec<String>)
        ensures
            r@ == self.tabs@.map_values(|x: TabRecord| x.name),
    {
        let mut out: Vec<String> = Vec::new();
        let mut i: usize = 0;
        while i < self.tabs.len()
            invariant
                i <= self.tabs@.len(),
                out@ == self.tabs@.take(i as int).map_values(|x: TabRecord| x.name),
            decreases self.tabs@.len() - i,
        {
            out.push(self.tabs[i].name.clone());
            assert(self.tabs@.take(i + 1).map_values(|x: TabRecord| x.name)
                =~= self.tabs@.take(i as int).map_values(|x: TabRecord| x.name).push(self.tabs@[i as int].name));
            i = i + 1;
        }
        assert(self.tabs@.take(i as int) =~= self.tabs@);
        out
    }

    /// The first pane of tab `index` that is protected, if any.
    pub fn tab_blocker(&self, index: usize) -> (r: Option<u32>)
        ensures
            r == tab_blocker(*self, self.panes@, index),
    {
        let mut i: usize = 0;
        assert(self.panes@.subrange(0, self.panes@.len() as int) =~= self.panes@);
        while i < self.panes.len()
            invariant
                i <= self.panes@.len(),
                tab_blocker(*self, self.panes@, index) == tab_blocker(
                    *self,
                    self.panes@.subrange(i as int, self.panes@.len() as int),
                    index,
                ),
            decreases self.panes@.len() - i,
        {
            let ghost rest = self.panes@.subrange(i as int, self.panes@.len() as int);
            assert(rest.drop_first() =~= self.panes@.subrange(i + 1, self.panes@.len() as int));
            let id = self.panes[i].id;
            if self.panes[i].tab_index == index && self.is_protected_pane(id) {
                return Some(id);
            }
            i = i + 1;
        }
        None
    }
}

fn clone_strings(v: &Vec<String>) -> (r: Vec<String>)
    ensures
        r@ == v@,
{
    let mut out: Vec<String> = Vec::new();
    let mut i: usize = 0;
    while i < v.len()
        invariant
            i <= v@.len(),
            out@ == v@.take(i as int),
        decreases v@.len() - i,
    {
        out.push(v[i].clone());
        assert(v@.take(i + 1) =~= v@.take(i as int).push(v@[i as int]));
        i = i + 1;
    }
    assert(v@.take(i as int) =~= v@);
    out
}

impl BridgeState {
    /// Runs one command: decides the response and the host action, if any.
    /// Only `protect` changes the state.
    pub fn execute_command(&mut self, cmd: Command) -> (r: (Response, Option<HostAction>))
        ensures
            executed(*old(self), cmd, *final(self), r.0, r.1),
    {
        match cmd {
            Command::Write { pane_id, chars } => {
                let n = chars.as_str().len();
                (ok(ResponseData::Written { written: n, pane_id }), Some(HostAction::WriteChars { pane_id, chars }))
            },
            Command::WriteBytes { pane_id, bytes } => {
                let n = bytes.len();
                (ok(ResponseData::Written { written: n, pane_id }), Some(HostAction::WriteBytes { pane_id, bytes }))
            },
            Command::List => (ok(ResponseData::Panes(self.list_panes())), None),
            Command::Query { name } => (ok(ResponseData::Panes(self.query_panes(name.as_str()))), None),
            Command::ListTabs => (ok(ResponseData::Tabs(self.list_tabs())), None),
            Command::Focus { pane_id } => (ok(ResponseData::Focused(pane_id)), Some(HostAction::FocusPane(pane_id))),
            Command::Close { pane_id, force } => {
                if !force && self.is_protected_pane(pane_id) {
                    (refuse(
                        "Cannot close the controller pane - this would terminate the agent (use force:true to override)",
                        ResponseData::ProtectedPane(pane_id),
                    ), None)
                } else {
                    (ok(ResponseData::Closed(pane_id)), Some(HostAction::ClosePane(pane_id)))
                }
            },
            Command::Hide { pane_id, force } => {
                if !force && self.is_protected_pane(pane_id) {
                    (refuse(
                        "Cannot hide the controller pane - this would disrupt the agent (use force:true to override)",
                        ResponseData::ProtectedPane(pane_id),
                    ), None)
                } else {
                    (ok(ResponseData::Hidden(pane_id)), Some(HostAction::HidePane(pane_id)))
                }
            },
            Command::Show { pane_id } => (ok(ResponseData::Shown(pane_id)), Some(HostAction::ShowPane(pane_id))),
            Command::Clear { pane_id } => (ok(ResponseData::Cleared(pane_id)), Some(HostAction::ClearPane(pane_id))),
            Command::Fullscreen { pane_id } => (
                ok(ResponseData::ToggledFullscreen(pane_id)),
                Some(HostAction::ToggleFullscreen(pane_id)),
            ),
            Command::RenamePane { pane_id, name } => (
                ok(ResponseData::Renamed { pane_id, name: name.clone() }),
                Some(HostAction::RenamePane { pane_id, name }),
            ),
            Command::Move { pane_id, direction } => {
                let d = parse_direction(direction.as_str());
                (ok(ResponseData::Moved { pane_id, direction }), Some(HostAction::MovePane { pane_id, direction: d }))
            },
            Command::Resize { pane_id, direction } => {
                let k = parse_resize(direction.as_str());
                (ok(ResponseData::Resized { pane_id, direction }), Some(HostAction::ResizePane { pane_id, resize: k }))
            },
            Command::TogglePaneFloating { pane_id } => (
                ok(ResponseData::ToggledFloating(pane_id)),
                Some(HostAction::ToggleFloating(pane_id)),
            ),
            Command::Run { command, args, cwd, floating } => {
                let data = ResponseData::Started {
                    command: command.clone(),
                    args: clone_strings(&args),
                    floating,
                    cwd: clone_opt(&cwd),
                };
                (ok(data), Some(HostAction::OpenCommand { command, args, cwd, floating }))
            },
            Command::Rerun { pane_id } => (ok(ResponseData::Rerun(pane_id)), Some(HostAction::Rerun(pane_id))),
            Command::CommandStatus { pane_id } => (ok(ResponseData::Status(self.command_status(pane_id))), None),
            Command::NewTab { name, cwd } => (
                ok(ResponseData::CreatedTab { name: clone_opt(&name), cwd: clone_opt(&cwd) }),
                Some(HostAction::NewTab { name, cwd }),
            ),
            Command::CloseTab { index, force } => {
                if !force {
                    if let Some(p) = self.tab_blocker(index as usize) {
                        return (refuse(
                            "Cannot close tab containing the controller pane (use force:true to override)",
                            ResponseData::ProtectedTab { index, pane_id: p },
                        ), None);
                    }
                }
                (ok(ResponseData::ClosedTab(index)), Some(HostAction::CloseTab(index as usize)))
            },
            Command::FocusTab { name, create } => {
                let data = ResponseData::FocusedTab { name: name.clone(), create };
                if create {
                    (ok(data), Some(HostAction::FocusOrCreateTab(name)))
                } else {
                    (ok(data), Some(HostAction::GoToTabName(name)))
                }
            },
            Command::GotoTab { index } => (ok(ResponseData::WentToTab(index)), Some(HostAction::GoToTab(index))),
            Command::SessionInfo => {
                let id = match self.guard {
                    Guard::Active(id) => id,
                    Guard::Uninitialized => None,
                };
                let data = ResponseData::Session {
                    tabs_count: self.tabs.len(),
                    panes_count: self.panes.len(),
                    tabs: self.tab_names(),
                    protected_pane_id: id,
                };
                (ok(data), None)
            },
            Command::Detach => (ok(ResponseData::Detaching), Some(HostAction::Detach)),
            Command::Protect { pane_id } => {
                self.guard = Guard::Active(Some(pane_id));
                (ok(ResponseData::ProtectionSet(pane_id)), None)
            },
            Command::GetProtected => {
                let id = match self.guard {
                    Guard::Active(id) => id,
                    Guard::Uninitialized => None,
                };
                (ok(ResponseData::Protection { protected_pane_id: id, auto_detected: id.is_some() }), None)
            },
        }
    }
}

/// What a decode failure says about itself.
pub open spec fn detail_of(e: ParseError) -> Seq<char> {
    match e {
        ParseError::UnknownCommand => "unknown command"@,
        ParseError::NotAnObject => "payload is not an object"@,
        ParseError::MissingField(f) => "missing field `"@ + f.key_spec() + "`"@,
        ParseError::InvalidField(f) => "invalid value for field `"@ + f.key_spec() + "`"@,
    }
}

/// The error text of a request that did not decode.
pub open spec fn parse_message(name: Seq<char>, e: ParseError, tagged: Seq<char>) -> Seq<char> {
    "Invalid command '"@ + name + "': "@ + detail_of(e) + " (payload: "@ + tagged + ")"@
}

/// A payload text carries no fields: blank, or the empty object.
pub open spec fn bare_payload(s: Seq<char>) -> bool {
    s == "{}"@ || forall|i: int| 0 <= i < s.len() ==> (s[i] == ' ' || s[i] == '\t' || s[i] == '\n' || s[i] == '\r')
}

/// Whether a payload text carries no fields.
pub fn is_bare_payload(s: &str) -> (r: bool)
    ensures
        r == bare_payload(s@),
{
    if str_eq(s, "{}") {
        return true;
    }
    let n = s.unicode_len();
    let mut i: usize = 0;
    while i < n
        invariant
            n == s@.len(),
            i <= n,
            s@ != "{}"@,
            forall|j: int| 0 <= j < i ==> (s@[j] == ' ' || s@[j] == '\t' || s@[j] == '\n' || s@[j] == '\r'),
        decreases n - i,
    {
        let c = s.get_char(i);
        if !(c == ' ' || c == '\t' || c == '\n' || c == '\r') {
            return false;
        }
        i = i + 1;
    }
    true
}

/// Offset of the last `}` in `s`, or -1.
pub open spec fn last_brace(s: Seq<char>) -> int
    decreases s.len(),
{
    if s.len() == 0 {
        -1
    } else if s.last() == '}' {
        s.len() - 1
    } else {
        last_brace(s.drop_last())
    }
}

/// The request as one tagged object: the payload object with a `cmd` member
/// naming the request added at its end, or an object of `cmd` alone where the
/// payload gave no members. A payload that is JSON but no object is shown
/// as it is.
pub open spec fn tagged_request(name: Seq<char>, payload: Seq<char>, parsed: Option<Json>) -> Seq<char> {
    let tag = "\"cmd\":\""@ + name + "\""@;
    if non_object(parsed) {
        payload
    } else if members_of(parsed).len() > 0 && last_brace(payload) >= 0 {
        payload.take(last_brace(payload)) + ","@ + tag + "}"@
    } else {
        "{"@ + tag + "}"@
    }
}

fn find_last_brace(s: &str) -> (r: Option<usize>)
    ensures
        match r {
            Some(i) => i as int == last_brace(s@) && i < s@.len(),
            None => last_brace(s@) == -1,
        },
{
    let mut i = s.unicode_len();
    assert(s@.take(i as int) =~= s@);
    while i > 0
        invariant
            i <= s@.len(),
            last_brace(s@) == last_brace(s@.take(i as int)),
        decreases i,
    {
        assert(s@.take(i as int).drop_last() =~= s@.take(i - 1));
        if s.get_char(i - 1) == '}' {
            return Some(i - 1);
        }
        i = i - 1;
    }
    None
}

/// Builds the tagged object that a failed request is reported with.
pub fn tag_request(name: &str, payload: &str, parsed: &Option<Json>) -> (r: String)
    ensures
        r@ == tagged_request(name@, payload@, *parsed),
{
    match parsed {
        Some(Json::Object(_)) => {},
        Some(_) => {
            return String::from_str(payload);
        },
        None => {},
    }
    let has_members = match parsed {
        Some(Json::Object(m)) => m.len() > 0,
        _ => false,
    };
    assert(has_members == (members_of(*parsed).len() > 0));
    let mut s = match find_last_brace(payload) {
        Some(i) => {
            if has_members {
                let mut h = String::from_str(payload.substring_char(0, i));
                h.append(",");
                h
            } else {
                String::from_str("{")
            }
        },
        None => String::from_str("{"),
    };
    let ghost head = s@;
    assert(head == if members_of(*parsed).len() > 0 && last_brace(payload@) >= 0 {
        payload@.take(last_brace(payload@)) + ","@
    } else {
        "{"@
    });
    s.append("\"cmd\":\"");
    s.append(name);
    s.append("\"}");
    proof {
        assert(s@ =~= head + "\"cmd\":\""@ + name@ + "\"}"@);
        assert("\"}"@ =~= "\""@ + "}"@) by {
            reveal_strlit("\"}");
            reveal_strlit("\"");
            reveal_strlit("}");
        }
        assert(s@ =~= tagged_request(name@, payload@, *parsed));
    }
    s
}

fn detail(e: ParseError) -> (r: String)
    ensures
        r@ == detail_of(e),
{
    match e {
        ParseError::UnknownCommand => String::from_str("unknown command"),
        ParseError::NotAnObject => String::from_str("payload is not an object"),
        ParseError::MissingField(f) => {
            let mut s = String::from_str("missing field `");
            s.append(f.key());
            s.append("`");
            s
        },
        ParseError::InvalidField(f) => {
            let mut s = String::from_str("invalid value for field `");
            s.append(f.key());
            s.append("`");
            s
        },
    }
}

/// Builds the error text for a request that did not decode.
pub fn parse_error_message(name: &str, e: ParseError, payload: &str) -> (r: String)
    ensures
        r@ == parse_message(name@, e, payload@),
{
    let mut s = String::from_str("Invalid command '");
    s.append(name);
    s.append("': ");
    let d = detail(e);
    s.append(d.as_str());
    s.append(" (payload: ");
    s.append(payload);
    s.append(")");
    s
}

/// The state once the first request has been seen: an unset guard takes the
/// focused terminal pane of the cache, or none.
pub open spec fn entered(s: BridgeState) -> BridgeState {
    BridgeState {
        panes: s.panes,
        tabs: s.tabs,
        command_results: s.command_results,
        title_markers: s.title_markers,
        command_markers: s.command_markers,
        guard: match s.guard {
            Guard::Uninitialized => Guard::Active(focused_terminal(s.panes@)),
            g => g,
        },
    }
}

/// The answer to a request whose payload `parsed` has been read already.
pub open spec fn answered(
    s: BridgeState,
    name: Seq<char>,
    payload: Seq<char>,
    parsed: Option<Json>,
    t: BridgeState,
    r: (Response, Option<HostAction>),
) -> bool {
    exists|c: Result<Command, ParseError>|
        #[trigger] request_decoded(name, parsed, c) && match c {
            Ok(cmd) => executed(entered(s), cmd, t, r.0, r.1),
            Err(e) => t == entered(s) && !r.0.success && (r.0.error matches Some(m) && m@ == parse_message(
                name,
                e,
                tagged_request(name, payload, parsed),
            )) && r.0.data is None && r.1 is None,
        }
}

impl BridgeState {
    /// Answers a request given what its payload text parsed to: sets the
    /// guard on first contact, decodes, then executes or reports the failure.
    pub fn respond(&mut self, name: &str, payload: &str, parsed: Option<Json>) -> (r: (
        Response,
        Option<HostAction>,
    ))
        ensures
            answered(*old(self), name@, payload@, parsed, *final(self), r),
    {
        self.init_guard();
        proof {
            assert(*self == entered(*old(self)));
        }
        let tagged = tag_request(name, payload, &parsed);
        let c = crate::command::parse_command(name, parsed);
        match c {
            Ok(cmd) => self.execute_command(cmd),
            Err(e) => {
                let msg = parse_error_message(name, e, tagged.as_str());
                (Response { success: false, error: Some(msg), data: None }, None)
            },
        }
    }

    /// Answers one request. A blank or `{}` payload carries no fields; any
    /// other payload text is parsed as JSON. Then it is handled as in `respond`.
    pub fn handle_request(&mut self, name: &str, payload: &str) -> (r: (Response, Option<HostAction>))
        ensures
            answered(
                *old(self),
                name@,
                payload@,
                if bare_payload(payload@) {
                    None
                } else {
                    json_of(payload@)
                },
                *final(self),
                r,
            ),
    {
        if is_bare_payload(payload) {
            self.respond(name, payload, None)
        } else {
            let parsed = parse_json(payload);
            self.respond(name, payload, parsed)
        }
    }
}

} // verus!
