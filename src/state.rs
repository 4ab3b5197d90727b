use vstd::prelude::*;
use std::collections::HashMap;
use crate::text::{contains_folded, contains_lowered, lower_of, to_lower};

verus! {

broadcast use vstd::std_specs::hash::group_hash_axioms;

/// One pane as the host last reported it.
#[derive(Debug)]
pub struct PaneRecord {
    pub id: u32,
    pub is_plugin: bool,
    pub is_focused: bool,
    pub is_floating: bool,
    pub is_fullscreen: bool,
    pub is_suppressed: bool,
    pub title: String,
    pub tab_index: usize,
    pub command: Option<String>,
    pub exit_status: Option<i32>,
    pub exited: bool,
    pub rows: usize,
    pub cols: usize,
}

/// One tab as the host last reported it.
#[derive(Debug)]
pub struct TabRecord {
    pub position: usize,
    pub name: String,
    pub active: bool,
    pub is_fullscreen_active: bool,
    pub is_sync_panes_active: bool,
}

/// What is known of a spawned command's pane.
#[derive(Clone, Copy, Debug, PartialEq, Eq, Structural)]
pub struct CommandResult {
    pub pane_id: u32,
    pub exit_code: Option<i32>,
    pub exited: bool,
}

/// The protection guard: unset until the first request, then active with
/// the protected pane, if one was found or named.
#[derive(Clone, Copy, Debug, PartialEq, Eq, Structural)]
pub enum Guard {
    Uninitialized,
    Active(Option<u32>),
}

/// A fact pushed by the host.
#[derive(Debug)]
pub enum Notification {
    /// The full pane inventory, in the host's grouping order by tab.
    PaneUpdate(Vec<PaneRecord>),
    /// The full tab inventory, ordered by position.
    TabUpdate(Vec<TabRecord>),
    CommandPaneOpened(u32),
    CommandPaneExited(u32, Option<i32>),
}

/// The session state that requests are answered from.
pub struct BridgeState {
    pub panes: Vec<PaneRecord>,
    pub tabs: Vec<TabRecord>,
    pub command_results: HashMap<u32, CommandResult>,
    pub guard: Guard,
    /// Words that mark the controller's pane when found in a pane title.
    pub title_markers: Vec<String>,
    /// Words that mark the controller's pane when found in a pane command.
    pub command_markers: Vec<String>,
}

pub(crate) fn clone_opt(s: &Option<String>) -> (r: Option<String>)
    ensures
        r == *s,
{
    match s {
        Some(x) => Some(x.clone()),
        None => None,
    }
}

impl PaneRecord {
    /// A field-for-field copy.
    pub fn copy(&self) -> (r: PaneRecord)
        ensures
            r == *self,
    {
        PaneRecord {
            id: self.id,
            is_plugin: self.is_plugin,
            is_focused: self.is_focused,
            is_floating: self.is_floating,
            is_fullscreen: self.is_fullscreen,
            is_suppressed: self.is_suppressed,
            title: self.title.clone(),
            tab_index: self.tab_index,
            command: clone_opt(&self.command),
            exit_status: self.exit_status,
            exited: self.exited,
            rows: self.rows,
            cols: self.cols,
        }
    }
}

impl TabRecord {
    /// A field-for-field copy.
    pub fn copy(&self) -> (r: TabRecord)
        ensures
            r == *self,
    {
        TabRecord {
            position: self.position,
            name: self.name.clone(),
            active: self.active,
            is_fullscreen_active: self.is_fullscreen_active,
            is_sync_panes_active: self.is_sync_panes_active,
        }
    }
}

/// The first pane with id `id`, in cache order.
pub open spec fn pane_with_id(s: Seq<PaneRecord>, id: u32) -> Option<PaneRecord>
    decreases s.len(),
{
    if s.len() == 0 {
        None
    } else if s[0].id == id {
        Some(s[0])
    } else {
        pane_with_id(s.drop_first(), id)
    }
}

/// The first focused pane that is not a plugin, in cache order.
pub open spec fn focused_terminal(s: Seq<PaneRecord>) -> Option<u32>
    decreases s.len(),
{
    if s.len() == 0 {
        None
    } else if s[0].is_focused && !s[0].is_plugin {
        Some(s[0].id)
    } else {
        focused_terminal(s.drop_first())
    }
}

/// Some marker of `markers` occurs in `text`, both taken in lower case.
pub open spec fn has_marker(text: Seq<char>, markers: Seq<String>) -> bool {
    exists|i: int| 0 <= i < markers.len() && contains_folded(text, lower_of(#[trigger] markers[i]@))
}

/// The panes of `s` that belong to tab `index`, in order.
pub open spec fn in_tab(s: Seq<PaneRecord>, index: usize) -> Seq<PaneRecord>
    decreases s.len(),
{
    if s.len() == 0 {
        Seq::empty()
    } else if s.last().tab_index == index {
        in_tab(s.drop_last(), index).push(s.last())
    } else {
        in_tab(s.drop_last(), index)
    }
}

/// The fallback heuristic: the pane's title holds a title marker, or its
/// command holds a command marker, ignoring case.
pub open spec fn names_controller(p: PaneRecord, title_markers: Seq<String>, command_markers: Seq<String>) -> bool {
    ||| has_marker(p.title@, title_markers)
    ||| (p.command matches Some(c) && has_marker(c@, command_markers))
}

/// Whether some marker occurs in `text`, ignoring case.
pub fn find_marker(text: &str, markers: &Vec<String>) -> (r: bool)
    ensures
        r == has_marker(text@, markers@),
{
    let mut i: usize = 0;
    while i < markers.len()
        invariant
            i <= markers@.len(),
            forall|j: int| 0 <= j < i ==> !contains_folded(text@, lower_of(#[trigger] markers@[j]@)),
        decreases markers@.len() - i,
    {
        let m = to_lower(markers[i].as_str());
        if contains_lowered(text, m.as_str()) {
            return true;
        }
        i = i + 1;
    }
    false
}

/// The protected id the guard holds, if any.
pub open spec fn guarded_id(g: Guard) -> Option<u32> {
    match g {
        Guard::Active(id) => id,
        Guard::Uninitialized => None,
    }
}

/// What a command result reads as: unknown panes have not exited.
pub open spec fn status_of(m: Map<u32, CommandResult>, id: u32) -> CommandResult {
    if m.contains_key(id) {
        m[id]
    } else {
        CommandResult { pane_id: id, exit_code: None, exited: false }
    }
}

impl BridgeState {
    /// Whether pane `id` is shielded: it is the guard's pane, or the first
    /// cached pane with that id names the controller.
    pub open spec fn protects(self, id: u32) -> bool {
        ||| guarded_id(self.guard) == Some(id)
        ||| (pane_with_id(self.panes@, id) matches Some(p) && names_controller(
            p,
            self.title_markers@,
            self.command_markers@,
        ))
    }

    /// Empty caches, guard not yet set, with the markers that the fallback
    /// heuristic looks for.
    pub fn new(title_markers: Vec<String>, command_markers: Vec<String>) -> (r: BridgeState)
        ensures
            r.title_markers == title_markers,
            r.command_markers == command_markers,
            r.panes@.len() == 0,
            r.tabs@.len() == 0,
            r.command_results@ == Map::<u32, CommandResult>::empty(),
            r.guard == Guard::Uninitialized,
    {
        BridgeState {
            panes: Vec::new(),
            tabs: Vec::new(),
            command_results: HashMap::new(),
            guard: Guard::Uninitialized,
            title_markers,
            command_markers,
        }
    }

    /// Applies one host notification. Inventories replace the cache whole;
    /// command events upsert the record of their pane.
    pub fn update(&mut self, event: Notification)
        ensures
            final(self).guard == old(self).guard,
            final(self).title_markers == old(self).title_markers,
            final(self).command_markers == old(self).command_markers,
            match event {
                Notification::PaneUpdate(ps) => final(self).panes@ == ps@
                    && final(self).tabs@ == old(self).tabs@
                    && final(self).command_results@ == old(self).command_results@,
                Notification::TabUpdate(ts) => final(self).tabs@ == ts@
                    && final(self).panes@ == old(self).panes@
                    && final(self).command_results@ == old(self).command_results@,
                Notification::CommandPaneOpened(id) => final(self).command_results@
                    == old(self).command_results@.insert(id, CommandResult { pane_id: id, exit_code: None, exited: false })
                    && final(self).panes@ == old(self).panes@ && final(self).tabs@ == old(self).tabs@,
                Notification::CommandPaneExited(id, code) => final(self).command_results@
                    == old(self).command_results@.insert(id, CommandResult { pane_id: id, exit_code: code, exited: true })
                    && final(self).panes@ == old(self).panes@ && final(self).tabs@ == old(self).tabs@,
            },
    {
        match event {
            Notification::PaneUpdate(ps) => {
                self.panes = ps;
            },
            Notification::TabUpdate(ts) => {
                self.tabs = ts;
            },
            Notification::CommandPaneOpened(id) => {
                self.command_results.insert(id, CommandResult { pane_id: id, exit_code: None, exited: false });
            },
            Notification::CommandPaneExited(id, code) => {
                self.command_results.insert(id, CommandResult { pane_id: id, exit_code: code, exited: true });
            },
        }
    }

    /// The cached panes, in cache order.
    pub fn panes(&self) -> (r: &Vec<PaneRecord>)
        ensures
            r@ == self.panes@,
    {
        &self.panes
    }

    /// Copies of the cached panes of tab `index`, in cache order.
    pub fn panes_in_tab(&self, index: usize) -> (r: Vec<PaneRecord>)
        ensures
            r@ == in_tab(self.panes@, index),
    {
        let mut out: Vec<PaneRecord> = Vec::new();
        let mut i: usize = 0;
        while i < self.panes.len()
            invariant
                i <= self.panes@.len(),
                out@ == in_tab(self.panes@.take(i as int), index),
            decreases self.panes@.len() - i,
        {
            assert(self.panes@.take(i + 1).drop_last() =~= self.panes@.take(i as int));
            assert(self.panes@.take(i + 1).last() == self.panes@[i as int]);
            if self.panes[i].tab_index == index {
                out.push(self.panes[i].copy());
            }
            i = i + 1;
        }
        assert(self.panes@.take(i as int) =~= self.panes@);
        out
    }

    /// The cached tabs, ordered by position.
    pub fn tabs(&self) -> (r: &Vec<TabRecord>)
        ensures
            r@ == self.tabs@,
    {
        &self.tabs
    }

    /// The record of a spawned command's pane; a default unexited one when
    /// none was seen.
    pub fn command_status(&self, pane_id: u32) -> (r: CommandResult)
        ensures
            r == status_of(self.command_results@, pane_id),
    {
        match self.command_results.get(&pane_id) {
            Some(c) => *c,
            None => CommandResult { pane_id, exit_code: None, exited: false },
        }
    }

    /// The first focused terminal pane of the cache.
    pub fn detect_protected_pane(&self) -> (r: Option<u32>)
        ensures
            r == focused_terminal(self.panes@),
    {
        let mut i: usize = 0;
        assert(self.panes@.subrange(0, self.panes@.len() as int) =~= self.panes@);
        while i < self.panes.len()
            invariant
                i <= self.panes@.len(),
                focused_terminal(self.panes@) == focused_terminal(
                    self.panes@.subrange(i as int, self.panes@.len() as int),
                ),
            decreases self.panes@.len() - i,
        {
            let ghost rest = self.panes@.subrange(i as int, self.panes@.len() as int);
            assert(rest.drop_first() =~= self.panes@.subrange(i + 1, self.panes@.len() as int));
            let p = &self.panes[i];
            if p.is_focused && !p.is_plugin {
                return Some(p.id);
            }
            i = i + 1;
        }
        None
    }

    /// Sets the guard on the first request: the focused terminal pane, or
    /// none. Later calls leave it as it is.
    pub fn init_guard(&mut self)
        ensures
            final(self).guard == (match old(self).guard {
                Guard::Uninitialized => Guard::Active(focused_terminal(old(self).panes@)),
                g => g,
            }),
            final(self).panes == old(self).panes,
            final(self).tabs == old(self).tabs,
            final(self).command_results == old(self).command_results,
            final(self).title_markers == old(self).title_markers,
            final(self).command_markers == old(self).command_markers,
    {
        if self.guard == Guard::Uninitialized {
            let id = self.detect_protected_pane();
            self.guard = Guard::Active(id);
        }
    }

    /// Whether pane `id` must not be closed or hidden without an override.
    pub fn is_protected_pane(&self, id: u32) -> (r: bool)
        ensures
            r == self.protects(id),
    {
        if let Guard::Active(Some(p)) = self.guard {
            if p == id {
                return true;
            }
        }
        let mut i: usize = 0;
        assert(self.panes@.subrange(0, self.panes@.len() as int) =~= self.panes@);
        while i < self.panes.len()
            invariant
                i <= self.panes@.len(),
                guarded_id(self.guard) != Some(id),
                pane_with_id(self.panes@, id) == pane_with_id(
                    self.panes@.subrange(i as int, self.panes@.len() as int),
                    id,
                ),
            decreases self.panes@.len() - i,
        {
            let ghost rest = self.panes@.subrange(i as int, self.panes@.len() as int);
            assert(rest.drop_first() =~= self.panes@.subrange(i + 1, self.panes@.len() as int));
            let p = &self.panes[i];
            if p.id == id {
                let by_command = match &p.command {
                    Some(c) => find_marker(c.as_str(), &self.command_markers),
                    None => false,
                };
                return find_marker(p.title.as_str(), &self.title_markers) || by_command;
            }
            i = i + 1;
        }
        false
    }
}

} // verus!
