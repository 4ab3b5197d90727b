use vstd::prelude::*;
use crate::command::{
    Command, Field, ParseError, decoded, known_name, non_object, opt_bool, req_str, req_u32,
    request_decoded,
};
use crate::exec::{
    HostAction, Response, ResponseData, answered, entered, executed, parse_message, query_hits,
    query_match, tab_blocker, tagged_request,
};
use crate::json::{Json, member, members_of};
use crate::text::lower_of;
use crate::state::{BridgeState, CommandResult, Guard, PaneRecord, guarded_id, status_of};

verus! {

/// `tab_blocker` finds a pane exactly when the tab holds a protected pane.
pub proof fn lemma_tab_blocker(st: BridgeState, s: Seq<PaneRecord>, index: usize)
    ensures
        tab_blocker(st, s, index) is Some <==> exists|k: int|
            0 <= k < s.len() && (#[trigger] s[k]).tab_index == index && st.protects(s[k].id),
    decreases s.len(),
{
    if s.len() > 0 {
        lemma_tab_blocker(st, s.drop_first(), index);
        if exists|k: int| 0 <= k < s.len() && (#[trigger] s[k]).tab_index == index && st.protects(s[k].id) {
            let k = choose|k: int| 0 <= k < s.len() && (#[trigger] s[k]).tab_index == index && st.protects(s[k].id);
            if k > 0 {
                assert(s.drop_first()[k - 1] == s[k]);
            }
        }
        if tab_blocker(st, s.drop_first(), index) is Some {
            let k = choose|k: int| 0 <= k < s.len() - 1 && (#[trigger] s.drop_first()[k]).tab_index == index
                && st.protects(s.drop_first()[k].id);
            assert(s[k + 1] == s.drop_first()[k]);
        }
    }
}

/// Close, hide and close-tab without their override never reach the host
/// when they target a protected pane, or a tab that holds one; with the
/// override they always reach it and succeed.
pub proof fn guarded_commands_respect_protection(
    s: BridgeState,
    cmd: Command,
    t: BridgeState,
    r: Response,
    a: Option<HostAction>,
)
    requires
        executed(s, cmd, t, r, a),
    ensures
        cmd matches Command::Close { pane_id, force } ==> (!force && s.protects(pane_id) ==> !r.success && a is None)
            && (force ==> r.success && a == Some(HostAction::ClosePane(pane_id))),
        cmd matches Command::Hide { pane_id, force } ==> (!force && s.protects(pane_id) ==> !r.success && a is None)
            && (force ==> r.success && a == Some(HostAction::HidePane(pane_id))),
        cmd matches Command::CloseTab { index, force } ==> (!force && (exists|k: int|
            0 <= k < s.panes@.len() && (#[trigger] s.panes@[k]).tab_index == index as usize
                && s.protects(s.panes@[k].id)) ==> !r.success && a is None)
            && (force ==> r.success && a == Some(HostAction::CloseTab(index as usize))),
{
    if let Command::CloseTab { index, force } = cmd {
        lemma_tab_blocker(s, s.panes@, index as usize);
    }
}

/// On first contact with a cache where exactly one terminal pane is
/// focused, the guard protects that pane; an explicit protect then moves
/// the guard, and a later query reports the new pane.
pub proof fn first_contact_then_protect(
    s: BridgeState,
    k: int,
    id: u32,
    t: BridgeState,
    r: Response,
    a: Option<HostAction>,
    u: BridgeState,
    r2: Response,
    a2: Option<HostAction>,
)
    requires
        s.guard == Guard::Uninitialized,
        0 <= k < s.panes@.len(),
        s.panes@[k].is_focused && !s.panes@[k].is_plugin,
        forall|j: int| 0 <= j < s.panes@.len() && j != k ==> !(#[trigger] s.panes@[j]).is_focused,
        executed(entered(s), Command::Protect { pane_id: id }, t, r, a),
        executed(t, Command::GetProtected, u, r2, a2),
    ensures
        guarded_id(entered(s).guard) == Some(s.panes@[k].id),
        guarded_id(t.guard) == Some(id),
        r2.data == Some(ResponseData::Protection { protected_pane_id: Some(id), auto_detected: true }),
{
    lemma_focused_terminal(s.panes@, k);
}

proof fn lemma_focused_terminal(s: Seq<PaneRecord>, k: int)
    requires
        0 <= k < s.len(),
        s[k].is_focused && !s[k].is_plugin,
        forall|j: int| 0 <= j < s.len() && j != k ==> !(#[trigger] s[j]).is_focused,
    ensures
        crate::state::focused_terminal(s) == Some(s[k].id),
    decreases s.len(),
{
    if k > 0 {
        assert forall|j: int| 0 <= j < s.drop_first().len() && j != k - 1 implies !(
        #[trigger] s.drop_first()[j]).is_focused by {
            assert(s.drop_first()[j] == s[j + 1]);
        }
        assert(!s[0].is_focused);
        lemma_focused_terminal(s.drop_first(), k - 1);
    }
}

/// A spawned command reads as running until its exit is recorded, and then
/// as exited with the reported code.
pub proof fn command_status_lifecycle(m: Map<u32, CommandResult>, x: u32, code: Option<i32>)
    requires
        !m.contains_key(x),
    ensures
        status_of(m, x) == (CommandResult { pane_id: x, exit_code: None, exited: false }),
        status_of(m.insert(x, CommandResult { pane_id: x, exit_code: None, exited: false }), x).exited
            == false,
        status_of(
            m.insert(x, CommandResult { pane_id: x, exit_code: None, exited: false }).insert(
                x,
                CommandResult { pane_id: x, exit_code: code, exited: true },
            ),
            x,
        ) == (CommandResult { pane_id: x, exit_code: code, exited: true }),
{
}

/// A query returns exactly the cached panes that match it, each once and in
/// cache order.
pub proof fn query_selects_matching_panes(s: Seq<PaneRecord>, q: Seq<char>)
    ensures
        forall|p: PaneRecord| query_hits(s, q).contains(p) <==> s.contains(p) && query_match(p, q),
        query_hits(s, q).len() <= s.len(),
    decreases s.len(),
{
    if s.len() > 0 {
        let h = query_hits(s, q);
        let h0 = query_hits(s.drop_last(), q);
        let l = s.last();
        query_selects_matching_panes(s.drop_last(), q);
        assert(h0.len() <= h.len());
        assert forall|j: int| 0 <= j < h0.len() implies h[j] == h0[j] by {}
        assert forall|p: PaneRecord| h.contains(p) <==> s.contains(p) && query_match(p, q) by {
            if s.contains(p) && query_match(p, q) {
                let i = choose|i: int| 0 <= i < s.len() && s[i] == p;
                if i < s.len() - 1 {
                    assert(s.drop_last()[i] == p);
                    assert(s.drop_last().contains(p));
                    assert(h0.contains(p));
                    let j = choose|j: int| 0 <= j < h0.len() && h0[j] == p;
                    assert(h[j] == p);
                } else {
                    assert(h[h.len() - 1] == p);
                }
            }
            if h.contains(p) {
                let i = choose|i: int| 0 <= i < h.len() && h[i] == p;
                if i < h0.len() {
                    assert(h0[i] == p);
                    assert(h0.contains(p));
                    assert(s.drop_last().contains(p));
                    let j = choose|j: int| 0 <= j < s.drop_last().len() && s.drop_last()[j] == p;
                    assert(s[j] == p);
                } else {
                    assert(query_match(l, q));
                    assert(p == l);
                    assert(s[s.len() - 1] == p);
                }
            }
        }
    }
}

/// The answer to a query depends on the pane cache alone, not on what was
/// requested before.
pub proof fn query_depends_on_cache_only(
    s1: BridgeState,
    s2: BridgeState,
    name: String,
    t1: BridgeState,
    t2: BridgeState,
    r1: Response,
    r2: Response,
    a1: Option<HostAction>,
    a2: Option<HostAction>,
)
    requires
        s1.panes@ == s2.panes@,
        executed(s1, Command::Query { name }, t1, r1, a1),
        executed(s2, Command::Query { name }, t2, r2, a2),
    ensures
        r1.success && r2.success,
        r1.data matches Some(ResponseData::Panes(v1)) && r2.data matches Some(ResponseData::Panes(v2))
            && v1@ == v2@,
{
}

/// A request whose payload decodes succeeds with data when the guard shields
/// no pane.
pub proof fn decoded_requests_succeed(
    s: BridgeState,
    name: Seq<char>,
    payload: Seq<char>,
    parsed: Option<Json>,
    t: BridgeState,
    r: (Response, Option<HostAction>),
)
    requires
        answered(s, name, payload, parsed, t, r),
        forall|c: Result<Command, ParseError>| #[trigger] request_decoded(name, parsed, c) ==> c is Ok,
        forall|id: u32| !(#[trigger] entered(s).protects(id)),
    ensures
        r.0.success,
        r.0.error is None,
        r.0.data is Some,
        name == "run"@ ==> (r.0.data matches Some(ResponseData::Started { command, .. })
            && req_str(members_of(parsed), Field::Command) == Ok::<String, ParseError>(command)),
{
    let c = choose|c: Result<Command, ParseError>| #[trigger] request_decoded(name, parsed, c) && match c {
        Ok(cmd) => executed(entered(s), cmd, t, r.0, r.1),
        Err(e) => t == entered(s) && !r.0.success && (r.0.error matches Some(m) && m@ == parse_message(
            name,
            e,
            tagged_request(name, payload, parsed),
        )) && r.0.data is None && r.1 is None,
    };
    if let Ok(Command::CloseTab { index, force }) = c {
        lemma_tab_blocker(entered(s), entered(s).panes@, index as usize);
    }
    if name == "run"@ {
        lemma_request_names();
        assert(c is Ok);
        assert(c->Ok_0 is Run);
    }
}

/// A request with an unknown name fails with a decode error naming it, and
/// reaches no host capability.
pub proof fn unknown_requests_fail(
    s: BridgeState,
    name: Seq<char>,
    payload: Seq<char>,
    parsed: Option<Json>,
    t: BridgeState,
    r: (Response, Option<HostAction>),
)
    requires
        answered(s, name, payload, parsed, t, r),
        !known_name(name),
    ensures
        !r.0.success,
        r.0.error matches Some(m) && m@ == parse_message(
            name,
            if non_object(parsed) {
                ParseError::NotAnObject
            } else {
                ParseError::UnknownCommand
            },
            tagged_request(name, payload, parsed),
        ),
        r.0.data is None,
        r.1 is None,
{
}

/// The request names by length and first letter, and where `close` and
/// `clear` part: enough to tell any two of them apart.
proof fn lemma_request_names()
    ensures
        "write"@.len() == 5 && "write"@[0] == 'w',
        "write_bytes"@.len() == 11 && "write_bytes"@[0] == 'w',
        "list"@.len() == 4 && "list"@[0] == 'l',
        "query"@.len() == 5 && "query"@[0] == 'q',
        "list_tabs"@.len() == 9 && "list_tabs"@[0] == 'l',
        "focus"@.len() == 5 && "focus"@[0] == 'f',
        "close"@.len() == 5 && "close"@[0] == 'c',
        "hide"@.len() == 4 && "hide"@[0] == 'h',
        "show"@.len() == 4 && "show"@[0] == 's',
        "clear"@.len() == 5 && "clear"@[0] == 'c',
        "fullscreen"@.len() == 10 && "fullscreen"@[0] == 'f',
        "rename_pane"@.len() == 11 && "rename_pane"@[0] == 'r',
        "move"@.len() == 4 && "move"@[0] == 'm',
        "resize"@.len() == 6 && "resize"@[0] == 'r',
        "toggle_floating"@.len() == 15 && "toggle_floating"@[0] == 't',
        "run"@.len() == 3 && "run"@[0] == 'r',
        "rerun"@.len() == 5 && "rerun"@[0] == 'r',
        "command_status"@.len() == 14 && "command_status"@[0] == 'c',
        "new_tab"@.len() == 7 && "new_tab"@[0] == 'n',
        "close_tab"@.len() == 9 && "close_tab"@[0] == 'c',
        "focus_tab"@.len() == 9 && "focus_tab"@[0] == 'f',
        "goto_tab"@.len() == 8 && "goto_tab"@[0] == 'g',
        "session_info"@.len() == 12 && "session_info"@[0] == 's',
        "detach"@.len() == 6 && "detach"@[0] == 'd',
        "protect"@.len() == 7 && "protect"@[0] == 'p',
        "get_protected"@.len() == 13 && "get_protected"@[0] == 'g',
        "close"@[2] == 'o' && "clear"@[2] == 'e',
{
    reveal_strlit("write");
    reveal_strlit("write_bytes");
    reveal_strlit("list");
    reveal_strlit("query");
    reveal_strlit("list_tabs");
    reveal_strlit("focus");
    reveal_strlit("close");
    reveal_strlit("hide");
    reveal_strlit("show");
    reveal_strlit("clear");
    reveal_strlit("fullscreen");
    reveal_strlit("rename_pane");
    reveal_strlit("move");
    reveal_strlit("resize");
    reveal_strlit("toggle_floating");
    reveal_strlit("run");
    reveal_strlit("rerun");
    reveal_strlit("command_status");
    reveal_strlit("new_tab");
    reveal_strlit("close_tab");
    reveal_strlit("focus_tab");
    reveal_strlit("goto_tab");
    reveal_strlit("session_info");
    reveal_strlit("detach");
    reveal_strlit("protect");
    reveal_strlit("get_protected");
    assert("write"@.len() == 5);
    assert("write_bytes"@.len() == 11);
    assert("list"@.len() == 4);
    assert("query"@.len() == 5);
    assert("list_tabs"@.len() == 9);
    assert("focus"@.len() == 5);
    assert("close"@.len() == 5);
    assert("hide"@.len() == 4);
    assert("show"@.len() == 4);
    assert("clear"@.len() == 5);
    assert("fullscreen"@.len() == 10);
    assert("rename_pane"@.len() == 11);
    assert("move"@.len() == 4);
    assert("resize"@.len() == 6);
    assert("toggle_floating"@.len() == 15);
    assert("run"@.len() == 3);
    assert("rerun"@.len() == 5);
    assert("command_status"@.len() == 14);
    assert("new_tab"@.len() == 7);
    assert("close_tab"@.len() == 9);
    assert("focus_tab"@.len() == 9);
    assert("goto_tab"@.len() == 8);
    assert("session_info"@.len() == 12);
    assert("detach"@.len() == 6);
    assert("protect"@.len() == 7);
    assert("get_protected"@.len() == 13);
}

/// Requests that need no fields succeed on a payload that carries none:
/// listings read the cache, `new_tab` opens an unnamed tab, `detach`
/// detaches, and `get_protected` reports the guard.
pub proof fn fieldless_requests_succeed(
    s: BridgeState,
    name: Seq<char>,
    payload: Seq<char>,
    t: BridgeState,
    r: (Response, Option<HostAction>),
)
    requires
        answered(s, name, payload, None, t, r),
    ensures
        name == "list"@ ==> r.0.success && r.1 is None && (r.0.data matches Some(ResponseData::Panes(v))
            && v@ == s.panes@),
        name == "list_tabs"@ ==> r.0.success && r.1 is None && (r.0.data matches Some(
            ResponseData::Tabs(v),
        ) && v@ == s.tabs@),
        name == "session_info"@ ==> r.0.success && r.1 is None && (r.0.data matches Some(
            ResponseData::Session { tabs_count, panes_count, .. },
        ) && tabs_count == s.tabs@.len() && panes_count == s.panes@.len()),
        name == "detach"@ ==> r.0.success && r.0.data == Some(ResponseData::Detaching) && r.1 == Some(
            HostAction::Detach,
        ),
        name == "get_protected"@ ==> r.0.success && r.1 is None && r.0.data == Some(
            ResponseData::Protection {
                protected_pane_id: guarded_id(entered(s).guard),
                auto_detected: guarded_id(entered(s).guard) is Some,
            },
        ),
        name == "new_tab"@ ==> r.0.success && r.0.data == Some(
            ResponseData::CreatedTab { name: None, cwd: None },
        ) && r.1 == Some(HostAction::NewTab { name: None, cwd: None }),
{
    lemma_request_names();
}

/// Requests on one pane succeed on a payload whose `pane_id` is valid: each
/// reports the pane and asks the host for its one operation, `protect`
/// moves the guard instead, and `close` and `hide` do so too where they are
/// forced or the pane is not protected.
pub proof fn pane_requests_succeed(
    s: BridgeState,
    name: Seq<char>,
    payload: Seq<char>,
    parsed: Option<Json>,
    t: BridgeState,
    r: (Response, Option<HostAction>),
    p: u32,
    force: bool,
)
    requires
        answered(s, name, payload, parsed, t, r),
        !non_object(parsed),
        req_u32(members_of(parsed), Field::PaneId) == Ok::<u32, ParseError>(p),
        opt_bool(members_of(parsed), Field::Force) == Ok::<bool, ParseError>(force),
    ensures
        name == "focus"@ ==> r.0.success && r.0.data == Some(ResponseData::Focused(p)) && r.1 == Some(
            HostAction::FocusPane(p),
        ),
        name == "show"@ ==> r.0.success && r.0.data == Some(ResponseData::Shown(p)) && r.1 == Some(
            HostAction::ShowPane(p),
        ),
        name == "clear"@ ==> r.0.success && r.0.data == Some(ResponseData::Cleared(p)) && r.1 == Some(
            HostAction::ClearPane(p),
        ),
        name == "fullscreen"@ ==> r.0.success && r.0.data == Some(ResponseData::ToggledFullscreen(p))
            && r.1 == Some(HostAction::ToggleFullscreen(p)),
        name == "toggle_floating"@ ==> r.0.success && r.0.data == Some(ResponseData::ToggledFloating(p))
            && r.1 == Some(HostAction::ToggleFloating(p)),
        name == "rerun"@ ==> r.0.success && r.0.data == Some(ResponseData::Rerun(p)) && r.1 == Some(
            HostAction::Rerun(p),
        ),
        name == "protect"@ ==> r.0.success && r.0.data == Some(ResponseData::ProtectionSet(p)) && r.1 is None
            && t.guard == Guard::Active(Some(p)),
        name == "close"@ && (force || !entered(s).protects(p)) ==> r.0.success && r.0.data == Some(
            ResponseData::Closed(p),
        ) && r.1 == Some(HostAction::ClosePane(p)),
        name == "hide"@ && (force || !entered(s).protects(p)) ==> r.0.success && r.0.data == Some(
            ResponseData::Hidden(p),
        ) && r.1 == Some(HostAction::HidePane(p)),
{
    lemma_request_names();
}

/// Requests with names, directions or tab indices succeed where their fields
/// are valid, and echo them: a query lists its matches, a rename, move or
/// resize reports the pane and the words given, and tab requests report the
/// tab (close-tab where forced or no pane of the tab is protected).
pub proof fn field_requests_succeed(
    s: BridgeState,
    name: Seq<char>,
    payload: Seq<char>,
    parsed: Option<Json>,
    t: BridgeState,
    r: (Response, Option<HostAction>),
)
    requires
        answered(s, name, payload, parsed, t, r),
        !non_object(parsed),
    ensures
        ({
            let m = members_of(parsed);
            &&& name == "query"@ && req_str(m, Field::Name) is Ok ==> r.0.success && r.1 is None
                && (r.0.data matches Some(ResponseData::Panes(v)) && v@ == query_hits(
                s.panes@,
                lower_of(req_str(m, Field::Name)->Ok_0@),
            ))
            &&& name == "rename_pane"@ && req_u32(m, Field::PaneId) is Ok && req_str(m, Field::Name) is Ok
                ==> r.0.success && r.0.data == Some(ResponseData::Renamed {
                pane_id: req_u32(m, Field::PaneId)->Ok_0,
                name: req_str(m, Field::Name)->Ok_0,
            })
            &&& name == "move"@ && req_u32(m, Field::PaneId) is Ok && req_str(m, Field::Direction) is Ok
                ==> r.0.success && r.0.data == Some(ResponseData::Moved {
                pane_id: req_u32(m, Field::PaneId)->Ok_0,
                direction: req_str(m, Field::Direction)->Ok_0,
            })
            &&& name == "resize"@ && req_u32(m, Field::PaneId) is Ok && req_str(m, Field::Direction) is Ok
                ==> r.0.success && r.0.data == Some(ResponseData::Resized {
                pane_id: req_u32(m, Field::PaneId)->Ok_0,
                direction: req_str(m, Field::Direction)->Ok_0,
            })
            &&& name == "focus_tab"@ && req_str(m, Field::Name) is Ok && opt_bool(m, Field::Create) is Ok
                ==> r.0.success && r.0.data == Some(ResponseData::FocusedTab {
                name: req_str(m, Field::Name)->Ok_0,
                create: opt_bool(m, Field::Create)->Ok_0,
            })
            &&& name == "goto_tab"@ && req_u32(m, Field::Index) is Ok ==> r.0.success && r.0.data == Some(
                ResponseData::WentToTab(req_u32(m, Field::Index)->Ok_0),
            ) && r.1 == Some(HostAction::GoToTab(req_u32(m, Field::Index)->Ok_0))
            &&& name == "close_tab"@ && req_u32(m, Field::Index) is Ok && opt_bool(m, Field::Force) is Ok
                && (opt_bool(m, Field::Force)->Ok_0 || !(exists|k: int|
                0 <= k < s.panes@.len() && (#[trigger] s.panes@[k]).tab_index == req_u32(
                    m,
                    Field::Index,
                )->Ok_0 as usize && entered(s).protects(s.panes@[k].id))) ==> r.0.success && r.0.data
                == Some(ResponseData::ClosedTab(req_u32(m, Field::Index)->Ok_0))
        }),
{
    lemma_request_names();
    let m = members_of(parsed);
    if name == "close_tab"@ && req_u32(m, Field::Index) is Ok {
        lemma_tab_blocker(entered(s), entered(s).panes@, req_u32(m, Field::Index)->Ok_0 as usize);
    }
}

/// A request with a known name fails to decode only because of a field:
/// one reported missing is absent from the payload, one reported invalid is
/// present in it.
pub proof fn known_requests_fail_only_on_fields(
    name: Seq<char>,
    m: Seq<(String, Json)>,
    c: Result<Command, ParseError>,
)
    requires
        known_name(name),
        decoded(name, m, c),
    ensures
        c != Err::<Command, ParseError>(ParseError::UnknownCommand),
        c matches Err(ParseError::MissingField(f)) ==> member(m, f.key_spec()) is None,
        c matches Err(ParseError::InvalidField(f)) ==> member(m, f.key_spec()) is Some,
{
}

/// Every answer has the envelope's shape: an error exactly when it failed,
/// data whenever it succeeded, and data on a failure only for a guard
/// refusal, which reaches no host capability.
pub proof fn responses_are_well_formed(
    s: BridgeState,
    name: Seq<char>,
    payload: Seq<char>,
    parsed: Option<Json>,
    t: BridgeState,
    r: (Response, Option<HostAction>),
)
    requires
        answered(s, name, payload, parsed, t, r),
    ensures
        r.0.success <==> r.0.error is None,
        r.0.success ==> r.0.data is Some,
        !r.0.success ==> r.1 is None,
        !r.0.success && r.0.data is Some ==> (r.0.data matches Some(ResponseData::ProtectedPane(_)))
            || (r.0.data matches Some(ResponseData::ProtectedTab { .. })),
{
}

/// No request changes the marker lists of the fallback heuristic, nor the
/// caches; only the guard may move.
pub proof fn requests_keep_markers_and_caches(
    s: BridgeState,
    name: Seq<char>,
    payload: Seq<char>,
    parsed: Option<Json>,
    t: BridgeState,
    r: (Response, Option<HostAction>),
)
    requires
        answered(s, name, payload, parsed, t, r),
    ensures
        t.title_markers == s.title_markers,
        t.command_markers == s.command_markers,
        t.panes == s.panes,
        t.tabs == s.tabs,
        t.command_results == s.command_results,
{
}

/// Two decodings of one request agree: equal commands, with the lists they
/// carry equal element for element.
pub open spec fn same_decoding(c1: Result<Command, ParseError>, c2: Result<Command, ParseError>) -> bool {
    match (c1, c2) {
        (
            Ok(Command::WriteBytes { pane_id: p1, bytes: b1 }),
            Ok(Command::WriteBytes { pane_id: p2, bytes: b2 }),
        ) => p1 == p2 && b1@ == b2@,
        (
            Ok(Command::Run { command: c1, args: a1, cwd: w1, floating: f1 }),
            Ok(Command::Run { command: c2, args: a2, cwd: w2, floating: f2 }),
        ) => c1 == c2 && a1@ == a2@ && w1 == w2 && f1 == f2,
        _ => c1 == c2,
    }
}

/// A request decodes in one way only.
pub proof fn decoding_is_unique(
    name: Seq<char>,
    m: Seq<(String, Json)>,
    c1: Result<Command, ParseError>,
    c2: Result<Command, ParseError>,
)
    requires
        decoded(name, m, c1),
        decoded(name, m, c2),
    ensures
        same_decoding(c1, c2),
{
}

/// An answered request whose payload decodes to `cmd` (one that carries no
/// list) had exactly `cmd` executed on the state as first contact left it.
pub proof fn answered_runs_decoded_command(
    s: BridgeState,
    name: Seq<char>,
    payload: Seq<char>,
    parsed: Option<Json>,
    t: BridgeState,
    r: (Response, Option<HostAction>),
    cmd: Command,
)
    requires
        answered(s, name, payload, parsed, t, r),
        request_decoded(name, parsed, Ok::<Command, ParseError>(cmd)),
        !(cmd is WriteBytes),
        !(cmd is Run),
    ensures
        executed(entered(s), cmd, t, r.0, r.1),
{
    let c = choose|c: Result<Command, ParseError>| #[trigger] request_decoded(name, parsed, c) && match c {
        Ok(x) => executed(entered(s), x, t, r.0, r.1),
        Err(e) => t == entered(s) && !r.0.success && (r.0.error matches Some(m) && m@ == parse_message(
            name,
            e,
            tagged_request(name, payload, parsed),
        )) && r.0.data is None && r.1 is None,
    };
    decoding_is_unique(name, members_of(parsed), c, Ok::<Command, ParseError>(cmd));
}

/// At the request level: close, hide and close-tab requests without their
/// override never reach the host when they target a protected pane, or a
/// tab that holds one; with the override they always reach it and succeed.
pub proof fn guarded_requests_respect_protection(
    s: BridgeState,
    name: Seq<char>,
    payload: Seq<char>,
    parsed: Option<Json>,
    t: BridgeState,
    r: (Response, Option<HostAction>),
    cmd: Command,
)
    requires
        answered(s, name, payload, parsed, t, r),
        request_decoded(name, parsed, Ok::<Command, ParseError>(cmd)),
    ensures
        cmd matches Command::Close { pane_id, force } ==> (!force && entered(s).protects(pane_id)
            ==> !r.0.success && r.1 is None) && (force ==> r.0.success && r.0.data == Some(
            ResponseData::Closed(pane_id),
        ) && r.1 == Some(HostAction::ClosePane(pane_id))),
        cmd matches Command::Hide { pane_id, force } ==> (!force && entered(s).protects(pane_id)
            ==> !r.0.success && r.1 is None) && (force ==> r.0.success && r.0.data == Some(
            ResponseData::Hidden(pane_id),
        ) && r.1 == Some(HostAction::HidePane(pane_id))),
        cmd matches Command::CloseTab { index, force } ==> (!force && (exists|k: int|
            0 <= k < entered(s).panes@.len() && (#[trigger] entered(s).panes@[k]).tab_index
                == index as usize && entered(s).protects(entered(s).panes@[k].id)) ==> !r.0.success
            && r.1 is None) && (force ==> r.0.success && r.0.data == Some(ResponseData::ClosedTab(index))
            && r.1 == Some(HostAction::CloseTab(index as usize))),
{
    if cmd is Close || cmd is Hide || cmd is CloseTab {
        answered_runs_decoded_command(s, name, payload, parsed, t, r, cmd);
        guarded_commands_respect_protection(entered(s), cmd, t, r.0, r.1);
    }
}

} // verus!
