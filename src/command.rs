use vstd::prelude::*;
use crate::json::{Json, member, find_member, members, members_of};
use crate::text::str_eq;

verus! {

/// A field of a request payload.
#[derive(Clone, Copy, Debug, PartialEq, Eq, Structural)]
pub enum Field {
    PaneId,
    Chars,
    Bytes,
    Name,
    Direction,
    Command,
    Args,
    Cwd,
    Floating,
    Force,
    Index,
    Create,
}

impl Field {
    pub open spec fn key_spec(self) -> Seq<char> {
        match self {
            Field::PaneId => "pane_id"@,
            Field::Chars => "chars"@,
            Field::Bytes => "bytes"@,
            Field::Name => "name"@,
            Field::Direction => "direction"@,
            Field::Command => "command"@,
            Field::Args => "args"@,
            Field::Cwd => "cwd"@,
            Field::Floating => "floating"@,
            Field::Force => "force"@,
            Field::Index => "index"@,
            Field::Create => "create"@,
        }
    }

    /// The member name under which the field travels.
    pub fn key(&self) -> (r: &'static str)
        ensures
            r@ == self.key_spec(),
    {
        match self {
            Field::PaneId => "pane_id",
            Field::Chars => "chars",
            Field::Bytes => "bytes",
            Field::Name => "name",
            Field::Direction => "direction",
            Field::Command => "command",
            Field::Args => "args",
            Field::Cwd => "cwd",
            Field::Floating => "floating",
            Field::Force => "force",
            Field::Index => "index",
            Field::Create => "create",
        }
    }
}

/// Why a request did not decode into a command.
#[derive(Clone, Copy, Debug, PartialEq, Eq, Structural)]
pub enum ParseError {
    UnknownCommand,
    /// The payload is JSON, but not an object.
    NotAnObject,
    MissingField(Field),
    InvalidField(Field),
}

/// The closed set of operations a request can name.
#[derive(Clone, Debug, PartialEq, Eq)]
pub enum Command {
    Write { pane_id: u32, chars: String },
    WriteBytes { pane_id: u32, bytes: Vec<u8> },
    List,
    Query { name: String },
    ListTabs,
    Focus { pane_id: u32 },
    Close { pane_id: u32, force: bool },
    Hide { pane_id: u32, force: bool },
    Show { pane_id: u32 },
    Clear { pane_id: u32 },
    Fullscreen { pane_id: u32 },
    RenamePane { pane_id: u32, name: String },
    Move { pane_id: u32, direction: String },
    Resize { pane_id: u32, direction: String },
    TogglePaneFloating { pane_id: u32 },
    Run { command: String, args: Vec<String>, cwd: Option<String>, floating: bool },
    Rerun { pane_id: u32 },
    CommandStatus { pane_id: u32 },
    NewTab { name: Option<String>, cwd: Option<String> },
    CloseTab { index: u32, force: bool },
    FocusTab { name: String, create: bool },
    GotoTab { index: u32 },
    SessionInfo,
    Detach,
    Protect { pane_id: u32 },
    GetProtected,
}

/// A required integer field that fits `u32`.
pub open spec fn req_u32(m: Seq<(String, Json)>, f: Field) -> Result<u32, ParseError> {
    match member(m, f.key_spec()) {
        None => Err(ParseError::MissingField(f)),
        Some(Json::Number(Some(n))) => if n <= u32::MAX {
            Ok(n as u32)
        } else {
            Err(ParseError::InvalidField(f))
        },
        Some(_) => Err(ParseError::InvalidField(f)),
    }
}

/// A required string field.
pub open spec fn req_str(m: Seq<(String, Json)>, f: Field) -> Result<String, ParseError> {
    match member(m, f.key_spec()) {
        None => Err(ParseError::MissingField(f)),
        Some(Json::Str(s)) => Ok(s),
        Some(_) => Err(ParseError::InvalidField(f)),
    }
}

/// A flag that defaults to `false` when absent.
pub open spec fn opt_bool(m: Seq<(String, Json)>, f: Field) -> Result<bool, ParseError> {
    match member(m, f.key_spec()) {
        None => Ok(false),
        Some(Json::Bool(b)) => Ok(b),
        Some(_) => Err(ParseError::InvalidField(f)),
    }
}

/// An optional string: absent or `null` gives `None`.
pub open spec fn opt_str(m: Seq<(String, Json)>, f: Field) -> Result<Option<String>, ParseError> {
    match member(m, f.key_spec()) {
        None => Ok(None),
        Some(Json::Null) => Ok(None),
        Some(Json::Str(s)) => Ok(Some(s)),
        Some(_) => Err(ParseError::InvalidField(f)),
    }
}

pub open spec fn is_byte(j: Json) -> bool {
    j matches Json::Number(Some(n)) && n <= 255
}

pub open spec fn byte_of(j: Json) -> u8 {
    match j {
        Json::Number(Some(n)) => n as u8,
        _ => 0,
    }
}

/// A required array of integers, each in `0..=255`.
pub open spec fn req_bytes(m: Seq<(String, Json)>, f: Field) -> Result<Seq<u8>, ParseError> {
    match member(m, f.key_spec()) {
        None => Err(ParseError::MissingField(f)),
        Some(Json::Array(items)) => if forall|i: int| 0 <= i < items@.len() ==> is_byte(#[trigger] items@[i]) {
            Ok(items@.map_values(|j: Json| byte_of(j)))
        } else {
            Err(ParseError::InvalidField(f))
        },
        Some(_) => Err(ParseError::InvalidField(f)),
    }
}

pub open spec fn str_of(j: Json) -> String {
    match j {
        Json::Str(s) => s,
        _ => arbitrary(),
    }
}

/// An array of strings that defaults to empty when absent.
pub open spec fn opt_strings(m: Seq<(String, Json)>, f: Field) -> Result<Seq<String>, ParseError> {
    match member(m, f.key_spec()) {
        None => Ok(Seq::empty()),
        Some(Json::Array(items)) => if forall|i: int| 0 <= i < items@.len() ==> (#[trigger] items@[i]) is Str {
            Ok(items@.map_values(|j: Json| str_of(j)))
        } else {
            Err(ParseError::InvalidField(f))
        },
        Some(_) => Err(ParseError::InvalidField(f)),
    }
}


fn get_u32(m: &Vec<(String, Json)>, f: Field) -> (r: Result<u32, ParseError>)
    ensures
        r == req_u32(m@, f),
{
    match find_member(m, f.key()) {
        None => Err(ParseError::MissingField(f)),
        Some(i) => match &m[i].1 {
            Json::Number(Some(n)) => if *n <= u32::MAX as u64 {
                Ok(*n as u32)
            } else {
                Err(ParseError::InvalidField(f))
            },
            _ => Err(ParseError::InvalidField(f)),
        },
    }
}

fn get_str(m: &Vec<(String, Json)>, f: Field) -> (r: Result<String, ParseError>)
    ensures
        r == req_str(m@, f),
{
    match find_member(m, f.key()) {
        None => Err(ParseError::MissingField(f)),
        Some(i) => match &m[i].1 {
            Json::Str(s) => Ok(s.clone()),
            _ => Err(ParseError::InvalidField(f)),
        },
    }
}

fn get_flag(m: &Vec<(String, Json)>, f: Field) -> (r: Result<bool, ParseError>)
    ensures
        r == opt_bool(m@, f),
{
    match find_member(m, f.key()) {
        None => Ok(false),
        Some(i) => match &m[i].1 {
            Json::Bool(b) => Ok(*b),
            _ => Err(ParseError::InvalidField(f)),
        },
    }
}

fn get_opt_str(m: &Vec<(String, Json)>, f: Field) -> (r: Result<Option<String>, ParseError>)
    ensures
        r == opt_str(m@, f),
{
    match find_member(m, f.key()) {
        None => Ok(None),
        Some(i) => match &m[i].1 {
            Json::Null => Ok(None),
            Json::Str(s) => Ok(Some(s.clone())),
            _ => Err(ParseError::InvalidField(f)),
        },
    }
}

fn get_bytes(m: &Vec<(String, Json)>, f: Field) -> (r: Result<Vec<u8>, ParseError>)
    ensures
        match (r, req_bytes(m@, f)) {
            (Ok(v), Ok(b)) => v@ == b,
            (Err(e), Err(e2)) => e == e2,
            _ => false,
        },
{
    match find_member(m, f.key()) {
        None => Err(ParseError::MissingField(f)),
        Some(k) => match &m[k].1 {
            Json::Array(items) => {
                assert(member(m@, f.key_spec()) == Some(Json::Array(*items)));
                let mut out: Vec<u8> = Vec::new();
                let mut i: usize = 0;
                while i < items.len()
                    invariant
                        member(m@, f.key_spec()) == Some(Json::Array(*items)),
                        i <= items@.len(),
                        out@.len() == i,
                        forall|j: int| 0 <= j < i ==> is_byte(#[trigger] items@[j]),
                        forall|j: int| 0 <= j < i ==> out@[j] == byte_of(#[trigger] items@[j]),
                    decreases items@.len() - i,
                {
                    match &items[i] {
                        Json::Number(Some(n)) => {
                            if *n > 255 {
                                assert(!is_byte(items@[i as int]));
                                return Err(ParseError::InvalidField(f));
                            }
                            out.push(*n as u8);
                        },
                        _ => {
                            assert(!is_byte(items@[i as int]));
                            return Err(ParseError::InvalidField(f));
                        },
                    }
                    i = i + 1;
                }
                assert(out@ =~= items@.map_values(|j: Json| byte_of(j)));
                Ok(out)
            },
            _ => Err(ParseError::InvalidField(f)),
        },
    }
}

fn get_strings(m: &Vec<(String, Json)>, f: Field) -> (r: Result<Vec<String>, ParseError>)
    ensures
        match (r, opt_strings(m@, f)) {
            (Ok(v), Ok(b)) => v@ == b,
            (Err(e), Err(e2)) => e == e2,
            _ => false,
        },
{
    match find_member(m, f.key()) {
        None => {
            let out: Vec<String> = Vec::new();
            assert(out@ =~= Seq::<String>::empty());
            Ok(out)
        },
        Some(k) => match &m[k].1 {
            Json::Array(items) => {
                assert(member(m@, f.key_spec()) == Some(Json::Array(*items)));
                let mut out: Vec<String> = Vec::new();
                let mut i: usize = 0;
                while i < items.len()
                    invariant
                        member(m@, f.key_spec()) == Some(Json::Array(*items)),
                        i <= items@.len(),
                        out@.len() == i,
                        forall|j: int| 0 <= j < i ==> (#[trigger] items@[j]) is Str,
                        forall|j: int| 0 <= j < i ==> out@[j] == str_of(#[trigger] items@[j]),
                    decreases items@.len() - i,
                {
                    match &items[i] {
                        Json::Str(s) => {
                            out.push(s.clone());
                        },
                        _ => {
                            assert(!(items@[i as int] is Str));
                            return Err(ParseError::InvalidField(f));
                        },
                    }
                    i = i + 1;
                }
                assert(out@ =~= items@.map_values(|j: Json| str_of(j)));
                Ok(out)
            },
            _ => Err(ParseError::InvalidField(f)),
        },
    }
}

/// The request names that select a command.
pub open spec fn known_name(name: Seq<char>) -> bool {
    ||| name == "write"@
    ||| name == "write_bytes"@
    ||| name == "list"@
    ||| name == "query"@
    ||| name == "list_tabs"@
    ||| name == "focus"@
    ||| name == "close"@
    ||| name == "hide"@
    ||| name == "show"@
    ||| name == "clear"@
    ||| name == "fullscreen"@
    ||| name == "rename_pane"@
    ||| name == "move"@
    ||| name == "resize"@
    ||| name == "toggle_floating"@
    ||| name == "run"@
    ||| name == "rerun"@
    ||| name == "command_status"@
    ||| name == "new_tab"@
    ||| name == "close_tab"@
    ||| name == "focus_tab"@
    ||| name == "goto_tab"@
    ||| name == "session_info"@
    ||| name == "detach"@
    ||| name == "protect"@
    ||| name == "get_protected"@
}

/// `r` carries one field decoded into a command, or its error.
pub open spec fn with_one<A>(a: Result<A, ParseError>, r: Result<Command, ParseError>, c: spec_fn(A) -> Command) -> bool {
    match a {
        Ok(x) => r == Ok::<Command, ParseError>(c(x)),
        Err(e) => r == Err::<Command, ParseError>(e),
    }
}

/// `r` carries two fields decoded into a command, or the first error.
pub open spec fn with_two<A, B>(
    a: Result<A, ParseError>,
    b: Result<B, ParseError>,
    r: Result<Command, ParseError>,
    c: spec_fn(A, B) -> Command,
) -> bool {
    match (a, b) {
        (Ok(x), Ok(y)) => r == Ok::<Command, ParseError>(c(x, y)),
        (Err(e), _) => r == Err::<Command, ParseError>(e),
        (_, Err(e)) => r == Err::<Command, ParseError>(e),
    }
}

/// What a request named `name` with members `m` decodes into. Fields are
/// read in declaration order and the first bad one is reported; members
/// that the command does not use are ignored.
pub open spec fn decoded(name: Seq<char>, m: Seq<(String, Json)>, r: Result<Command, ParseError>) -> bool {
    let pane = req_u32(m, Field::PaneId);
    if name == "write"@ {
        with_two(pane, req_str(m, Field::Chars), r, |p: u32, c: String| Command::Write { pane_id: p, chars: c })
    } else if name == "write_bytes"@ {
        match (pane, req_bytes(m, Field::Bytes)) {
            (Ok(p), Ok(b)) => r matches Ok(Command::WriteBytes { pane_id, bytes }) && pane_id == p && bytes@ == b,
            (Err(e), _) => r == Err::<Command, ParseError>(e),
            (_, Err(e)) => r == Err::<Command, ParseError>(e),
        }
    } else if name == "list"@ {
        r == Ok::<Command, ParseError>(Command::List)
    } else if name == "query"@ {
        with_one(req_str(m, Field::Name), r, |n: String| Command::Query { name: n })
    } else if name == "list_tabs"@ {
        r == Ok::<Command, ParseError>(Command::ListTabs)
    } else if name == "focus"@ {
        with_one(pane, r, |p: u32| Command::Focus { pane_id: p })
    } else if name == "close"@ {
        with_two(pane, opt_bool(m, Field::Force), r, |p: u32, f: bool| Command::Close { pane_id: p, force: f })
    } else if name == "hide"@ {
        with_two(pane, opt_bool(m, Field::Force), r, |p: u32, f: bool| Command::Hide { pane_id: p, force: f })
    } else if name == "show"@ {
        with_one(pane, r, |p: u32| Command::Show { pane_id: p })
    } else if name == "clear"@ {
        with_one(pane, r, |p: u32| Command::Clear { pane_id: p })
    } else if name == "fullscreen"@ {
        with_one(pane, r, |p: u32| Command::Fullscreen { pane_id: p })
    } else if name == "rename_pane"@ {
        with_two(pane, req_str(m, Field::Name), r, |p: u32, n: String| Command::RenamePane { pane_id: p, name: n })
    } else if name == "move"@ {
        with_two(pane, req_str(m, Field::Direction), r, |p: u32, d: String| Command::Move { pane_id: p, direction: d })
    } else if name == "resize"@ {
        with_two(pane, req_str(m, Field::Direction), r, |p: u32, d: String| Command::Resize { pane_id: p, direction: d })
    } else if name == "toggle_floating"@ {
        with_one(pane, r, |p: u32| Command::TogglePaneFloating { pane_id: p })
    } else if name == "run"@ {
        let c = req_str(m, Field::Command);
        let a = opt_strings(m, Field::Args);
        let w = opt_str(m, Field::Cwd);
        let f = opt_bool(m, Field::Floating);
        if c is Err {
            r == Err::<Command, ParseError>(c->Err_0)
        } else if a is Err {
            r == Err::<Command, ParseError>(a->Err_0)
        } else if w is Err {
            r == Err::<Command, ParseError>(w->Err_0)
        } else if f is Err {
            r == Err::<Command, ParseError>(f->Err_0)
        } else {
            r matches Ok(Command::Run { command, args, cwd, floating }) && command == c->Ok_0
                && args@ == a->Ok_0 && cwd == w->Ok_0 && floating == f->Ok_0
        }
    } else if name == "rerun"@ {
        with_one(pane, r, |p: u32| Command::Rerun { pane_id: p })
    } else if name == "command_status"@ {
        with_one(pane, r, |p: u32| Command::CommandStatus { pane_id: p })
    } else if name == "new_tab"@ {
        with_two(opt_str(m, Field::Name), opt_str(m, Field::Cwd), r,
            |n: Option<String>, w: Option<String>| Command::NewTab { name: n, cwd: w })
    } else if name == "close_tab"@ {
        with_two(req_u32(m, Field::Index), opt_bool(m, Field::Force), r, |i: u32, f: bool| Command::CloseTab { index: i, force: f })
    } else if name == "focus_tab"@ {
        with_two(req_str(m, Field::Name), opt_bool(m, Field::Create), r, |n: String, c: bool| Command::FocusTab { name: n, create: c })
    } else if name == "goto_tab"@ {
        with_one(req_u32(m, Field::Index), r, |i: u32| Command::GotoTab { index: i })
    } else if name == "session_info"@ {
        r == Ok::<Command, ParseError>(Command::SessionInfo)
    } else if name == "detach"@ {
        r == Ok::<Command, ParseError>(Command::Detach)
    } else if name == "protect"@ {
        with_one(pane, r, |p: u32| Command::Protect { pane_id: p })
    } else if name == "get_protected"@ {
        r == Ok::<Command, ParseError>(Command::GetProtected)
    } else {
        r == Err::<Command, ParseError>(ParseError::UnknownCommand)
    }
}

/// A payload that parsed to JSON other than an object.
pub open spec fn non_object(payload: Option<Json>) -> bool {
    payload is Some && !(payload->Some_0 is Object)
}

/// What a request decodes into: a payload that parsed to something other
/// than an object is refused; otherwise its members, or none where there is
/// no payload, are the command's fields.
pub open spec fn request_decoded(name: Seq<char>, payload: Option<Json>, r: Result<Command, ParseError>) -> bool {
    if non_object(payload) {
        r == Err::<Command, ParseError>(ParseError::NotAnObject)
    } else {
        decoded(name, members_of(payload), r)
    }
}

/// Decodes a request into a command, from the name and the parsed payload
/// (`None` where the payload carries no fields).
pub fn parse_command(name: &str, payload: Option<Json>) -> (r: Result<Command, ParseError>)
    ensures
        request_decoded(name@, payload, r),
{
    match &payload {
        Some(Json::Object(_)) => {},
        Some(_) => {
            return Err(ParseError::NotAnObject);
        },
        None => {},
    }
    let m = members(payload);
    if str_eq(name, "write") {
        let p = match get_u32(&m, Field::PaneId) {
            Ok(v) => v,
            Err(e) => return Err(e),
        };
        let c = match get_str(&m, Field::Chars) {
            Ok(v) => v,
            Err(e) => return Err(e),
        };
        return Ok(Command::Write { pane_id: p, chars: c });
    }
    if str_eq(name, "write_bytes") {
        let p = match get_u32(&m, Field::PaneId) {
            Ok(v) => v,
            Err(e) => return Err(e),
        };
        let b = match get_bytes(&m, Field::Bytes) {
            Ok(v) => v,
            Err(e) => return Err(e),
        };
        return Ok(Command::WriteBytes { pane_id: p, bytes: b });
    }
    if str_eq(name, "list") {
        return Ok(Command::List);
    }
    if str_eq(name, "query") {
        let n = match get_str(&m, Field::Name) {
            Ok(v) => v,
            Err(e) => return Err(e),
        };
        return Ok(Command::Query { name: n });
    }
    if str_eq(name, "list_tabs") {
        return Ok(Command::ListTabs);
    }
    if str_eq(name, "focus") {
        let p = match get_u32(&m, Field::PaneId) {
            Ok(v) => v,
            Err(e) => return Err(e),
        };
        return Ok(Command::Focus { pane_id: p });
    }
    if str_eq(name, "close") {
        let p = match get_u32(&m, Field::PaneId) {
            Ok(v) => v,
            Err(e) => return Err(e),
        };
        let f = match get_flag(&m, Field::Force) {
            Ok(v) => v,
            Err(e) => return Err(e),
        };
        return Ok(Command::Close { pane_id: p, force: f });
    }
    if str_eq(name, "hide") {
        let p = match get_u32(&m, Field::PaneId) {
            Ok(v) => v,
            Err(e) => return Err(e),
        };
        let f = match get_flag(&m, Field::Force) {
            Ok(v) => v,
            Err(e) => return Err(e),
        };
        return Ok(Command::Hide { pane_id: p, force: f });
    }
    if str_eq(name, "show") {
        let p = match get_u32(&m, Field::PaneId) {
            Ok(v) => v,
            Err(e) => return Err(e),
        };
        return Ok(Command::Show { pane_id: p });
    }
    if str_eq(name, "clear") {
        let p = match get_u32(&m, Field::PaneId) {
            Ok(v) => v,
            Err(e) => return Err(e),
        };
        return Ok(Command::Clear { pane_id: p });
    }
    if str_eq(name, "fullscreen") {
        let p = match get_u32(&m, Field::PaneId) {
            Ok(v) => v,
            Err(e) => return Err(e),
        };
        return Ok(Command::Fullscreen { pane_id: p });
    }
    if str_eq(name, "rename_pane") {
        let p = match get_u32(&m, Field::PaneId) {
            Ok(v) => v,
            Err(e) => return Err(e),
        };
        let n = match get_str(&m, Field::Name) {
            Ok(v) => v,
            Err(e) => return Err(e),
        };
        return Ok(Command::RenamePane { pane_id: p, name: n });
    }
    if str_eq(name, "move") {
        let p = match get_u32(&m, Field::PaneId) {
            Ok(v) => v,
            Err(e) => return Err(e),
        };
        let d = match get_str(&m, Field::Direction) {
            Ok(v) => v,
            Err(e) => return Err(e),
        };
        return Ok(Command::Move { pane_id: p, direction: d });
    }
    if str_eq(name, "resize") {
        let p = match get_u32(&m, Field::PaneId) {
            Ok(v) => v,
            Err(e) => return Err(e),
        };
        let d = match get_str(&m, Field::Direction) {
            Ok(v) => v,
            Err(e) => return Err(e),
        };
        return Ok(Command::Resize { pane_id: p, direction: d });
    }
    if str_eq(name, "toggle_floating") {
        let p = match get_u32(&m, Field::PaneId) {
            Ok(v) => v,
            Err(e) => return Err(e),
        };
        return Ok(Command::TogglePaneFloating { pane_id: p });
    }
    if str_eq(name, "run") {
        let c = match get_str(&m, Field::Command) {
            Ok(v) => v,
            Err(e) => return Err(e),
        };
        let a = match get_strings(&m, Field::Args) {
            Ok(v) => v,
            Err(e) => return Err(e),
        };
        let w = match get_opt_str(&m, Field::Cwd) {
            Ok(v) => v,
            Err(e) => return Err(e),
        };
        let f = match get_flag(&m, Field::Floating) {
            Ok(v) => v,
            Err(e) => return Err(e),
        };
        return Ok(Command::Run { command: c, args: a, cwd: w, floating: f });
    }
    if str_eq(name, "rerun") {
        let p = match get_u32(&m, Field::PaneId) {
            Ok(v) => v,
            Err(e) => return Err(e),
        };
        return Ok(Command::Rerun { pane_id: p });
    }
    if str_eq(name, "command_status") {
        let p = match get_u32(&m, Field::PaneId) {
            Ok(v) => v,
            Err(e) => return Err(e),
        };
        return Ok(Command::CommandStatus { pane_id: p });
    }
    if str_eq(name, "new_tab") {
        let n = match get_opt_str(&m, Field::Name) {
            Ok(v) => v,
            Err(e) => return Err(e),
        };
        let w = match get_opt_str(&m, Field::Cwd) {
            Ok(v) => v,
            Err(e) => return Err(e),
        };
        return Ok(Command::NewTab { name: n, cwd: w });
    }
    if str_eq(name, "close_tab") {
        let i = match get_u32(&m, Field::Index) {
            Ok(v) => v,
            Err(e) => return Err(e),
        };
        let f = match get_flag(&m, Field::Force) {
            Ok(v) => v,
            Err(e) => return Err(e),
        };
        return Ok(Command::CloseTab { index: i, force: f });
    }
    if str_eq(name, "focus_tab") {
        let n = match get_str(&m, Field::Name) {
            Ok(v) => v,
            Err(e) => return Err(e),
        };
        let c = match get_flag(&m, Field::Create) {
            Ok(v) => v,
            Err(e) => return Err(e),
        };
        return Ok(Command::FocusTab { name: n, create: c });
    }
    if str_eq(name, "goto_tab") {
        let i = match get_u32(&m, Field::Index) {
            Ok(v) => v,
            Err(e) => return Err(e),
        };
        return Ok(Command::GotoTab { index: i });
    }
    if str_eq(name, "session_info") {
        return Ok(Command::SessionInfo);
    }
    if str_eq(name, "detach") {
        return Ok(Command::Detach);
    }
    if str_eq(name, "protect") {
        let p = match get_u32(&m, Field::PaneId) {
            Ok(v) => v,
            Err(e) => return Err(e),
        };
        return Ok(Command::Protect { pane_id: p });
    }
    if str_eq(name, "get_protected") {
        return Ok(Command::GetProtected);
    }
    Err(ParseError::UnknownCommand)
}

} // verus!
