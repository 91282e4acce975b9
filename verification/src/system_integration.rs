//! Reading what the compositor says.
//!
//! The compositor answers queries with JSON text and reports events as JSON
//! lines. The text is decoded by `serde_json`; which parts of a document are
//! read, and what they mean, is decided here.

use crate::error::EngineError;
use crate::json::{
    describe, json_bool, json_error_text, json_items, json_member, json_parse, json_u64, member,
    parse,
};
use serde_json::Value;
use std::collections::HashSet;
use vstd::prelude::*;
use vstd::string::*;

verus! {

/// What is read of one workspace in the compositor's list of them.
#[derive(Clone, Copy, Debug, PartialEq, Eq)]
pub struct WorkspaceEntry {
    /// Its numeric `id`, where it has one.
    pub id: Option<u64>,
    /// Its boolean `is_active`, where it has one.
    pub is_active: Option<bool>,
}

/// The number that an entry carries under `id`.
pub open spec fn entry_id(entry: Value) -> Option<u64> {
    match json_member(entry, "id"@) {
        Some(id) => json_u64(id),
        None => None,
    }
}

/// The boolean that an entry carries under `is_active`.
pub open spec fn entry_is_active(entry: Value) -> Option<bool> {
    match json_member(entry, "is_active"@) {
        Some(flag) => json_bool(flag),
        None => None,
    }
}

/// The `id` of each entry of a document's array, in order. A document that
/// is not an array has no entries.
pub open spec fn entry_ids(document: Value) -> Seq<Option<u64>> {
    match json_items(document) {
        Some(entries) => Seq::new(entries.len(), |i: int| entry_id(entries[i])),
        None => Seq::empty(),
    }
}

/// What is read of each workspace of a document's array, in order. A
/// document that is not an array has no entries.
pub open spec fn workspace_entries(document: Value) -> Seq<WorkspaceEntry> {
    match json_items(document) {
        Some(entries) => Seq::new(
            entries.len(),
            |i: int|
                WorkspaceEntry {
                    id: entry_id(entries[i]),
                    is_active: entry_is_active(entries[i]),
                },
        ),
        None => Seq::empty(),
    }
}

/// The identifiers among `ids`.
pub open spec fn listed(ids: Seq<Option<u64>>) -> Set<u64> {
    Set::new(|id: u64| ids.contains(Some(id)))
}

/// The identifier of the first entry at or after `from` that has one and whose
/// `is_active` is true.
pub open spec fn first_active(entries: Seq<WorkspaceEntry>, from: int) -> Option<u64>
    decreases entries.len() - from,
{
    if 0 <= from < entries.len() {
        if entries[from].is_active == Some(true) && entries[from].id is Some {
            entries[from].id
        } else {
            first_active(entries, from + 1)
        }
    } else {
        None
    }
}

/// The workspace that an event line announces as activated, if it is such
/// an event.
pub open spec fn activation_of(line: Seq<char>) -> Option<u64> {
    match json_parse(line) {
        Ok(event) => match json_member(event, "WorkspaceActivated"@) {
            Some(workspace) => entry_id(workspace),
            None => None,
        },
        Err(_) => None,
    }
}

/// The set of the identifiers among `ids`: the windows of a list in which
/// some entries may lack an identifier.
pub fn window_set(ids: &Vec<Option<u64>>) -> (windows: HashSet<u64>)
    ensures
        windows@ == listed(ids@),
{
    let mut windows: HashSet<u64> = HashSet::new();
    let mut i: usize = 0;
    while i < ids.len()
        invariant
            i <= ids.len(),
            windows@ == listed(ids@.take(i as int)),
        decreases ids.len() - i,
    {
        let ghost before = ids@.take(i as int);
        let ghost after = ids@.take(i + 1);
        assert(after =~= before.push(ids@[i as int]));
        match ids[i] {
            Some(id) => {
                windows.insert(id);
            },
            None => {},
        }
        assert(windows@ =~= listed(after)) by {
            assert forall|id: u64| windows@.contains(id) <==> listed(after).contains(id) by {
                if before.contains(Some(id)) {
                    let k = choose|k: int| 0 <= k < before.len() && before[k] == Some(id);
                    assert(after[k] == Some(id));
                }
                if ids@[i as int] == Some(id) {
                    assert(after[i as int] == Some(id));
                }
                if after.contains(Some(id)) {
                    let k = choose|k: int| 0 <= k < after.len() && after[k] == Some(id);
                    if k < i {
                        assert(before[k] == Some(id));
                    }
                }
            }
        }
        i += 1;
    }
    assert(ids@.take(ids@.len() as int) =~= ids@);
    windows
}

/// The active workspace among the entries of the compositor's list: the
/// first that is marked active and has an identifier.
pub fn active_workspace(entries: &Vec<WorkspaceEntry>) -> (workspace: Option<u64>)
    ensures
        workspace == first_active(entries@, 0),
{
    let mut i: usize = 0;
    while i < entries.len()
        invariant
            i <= entries.len(),
            first_active(entries@, i as int) == first_active(entries@, 0),
        decreases entries.len() - i,
    {
        let entry = entries[i];
        let active = match entry.is_active {
            Some(yes) => yes,
            None => false,
        };
        if active {
            match entry.id {
                Some(id) => {
                    return Some(id);
                },
                None => {},
            }
        }
        i += 1;
    }
    None
}

/// The focused window, given the identifier that the compositor's answer
/// holds: without an identifier, no window has the focus.
pub fn focused_window(id: Option<u64>) -> (result: Result<u64, EngineError>)
    ensures
        match id {
            Some(window_id) => result == Ok::<u64, EngineError>(window_id),
            None => result matches Err(EngineError::ActiveWindowUnavailable(text)) && text@
                == "Focused window id not found"@,
        },
{
    match id {
        Some(window_id) => Ok(window_id),
        None => Err(
            EngineError::ActiveWindowUnavailable(String::from_str("Focused window id not found")),
        ),
    }
}

/// The active workspace, given what was found among the entries of the
/// compositor's list: where none was found, no workspace is active.
pub fn found_workspace(workspace: Option<u64>) -> (result: Result<u64, EngineError>)
    ensures
        match workspace {
            Some(workspace_id) => result == Ok::<u64, EngineError>(workspace_id),
            None => result matches Err(EngineError::ActiveWindowUnavailable(text)) && text@
                == "Active workspace not found"@,
        },
{
    match workspace {
        Some(workspace_id) => Ok(workspace_id),
        None => Err(
            EngineError::ActiveWindowUnavailable(String::from_str("Active workspace not found")),
        ),
    }
}

/// The window identifier of an entry, where it has one.
fn id_of(entry: &Value) -> (id: Option<u64>)
    ensures
        id == entry_id(*entry),
{
    match member(entry, "id") {
        Some(id) => id.as_u64(),
        None => None,
    }
}

/// Whether an entry is marked active, where it says.
fn is_active_of(entry: &Value) -> (flag: Option<bool>)
    ensures
        flag == entry_is_active(*entry),
{
    match member(entry, "is_active") {
        Some(flag) => flag.as_bool(),
        None => None,
    }
}

/// The `id` of each entry of a document's array.
fn ids_in(document: &Value) -> (ids: Vec<Option<u64>>)
    ensures
        ids@ == entry_ids(*document),
{
    let mut ids: Vec<Option<u64>> = Vec::new();
    match document.as_array() {
        Some(entries) => {
            let mut i: usize = 0;
            while i < entries.len()
                invariant
                    i <= entries.len(),
                    ids.len() == i,
                    forall|k: int| 0 <= k < i ==> ids@[k] == entry_id(#[trigger] entries@[k]),
                decreases entries.len() - i,
            {
                ids.push(id_of(&entries[i]));
                i += 1;
            }
            assert(ids@ =~= entry_ids(*document));
        },
        None => {
            assert(ids@ =~= entry_ids(*document));
        },
    }
    ids
}

/// What is read of each workspace of a document's array.
fn workspaces_in(document: &Value) -> (workspaces: Vec<WorkspaceEntry>)
    ensures
        workspaces@ == workspace_entries(*document),
{
    let mut workspaces: Vec<WorkspaceEntry> = Vec::new();
    match document.as_array() {
        Some(entries) => {
            let mut i: usize = 0;
            while i < entries.len()
                invariant
                    i <= entries.len(),
                    workspaces.len() == i,
                    forall|k: int|
                        0 <= k < i ==> workspaces@[k] == (WorkspaceEntry {
                            id: entry_id(#[trigger] entries@[k]),
                            is_active: entry_is_active(entries@[k]),
                        }),
                decreases entries.len() - i,
            {
                let entry = &entries[i];
                workspaces.push(WorkspaceEntry { id: id_of(entry), is_active: is_active_of(entry) });
                i += 1;
            }
            assert(workspaces@ =~= workspace_entries(*document));
        },
        None => {
            assert(workspaces@ =~= workspace_entries(*document));
        },
    }
    workspaces
}

/// The full list of windows from the compositor's answer to the query for
/// them: the identifiers of the entries of its array. An answer that is not
/// JSON is an error of the registry, with the decoder's message.
pub fn full_window_list(reply: &str) -> (result: Result<HashSet<u64>, EngineError>)
    ensures
        match json_parse(reply@) {
            Ok(document) => result matches Ok(windows) && windows@ == listed(entry_ids(document)),
            Err(fault) => result matches Err(EngineError::RegistryError(text)) && text@
                == json_error_text(fault),
        },
{
    match parse(reply) {
        Ok(document) => Ok(window_set(&ids_in(&document))),
        Err(fault) => Err(EngineError::RegistryError(describe(&fault))),
    }
}

/// The focused window from the compositor's answer to the query for it: the
/// numeric `id` of the document. Without one, no window has the focus.
pub fn active_window_id(reply: &str) -> (result: Result<u64, EngineError>)
    ensures
        match json_parse(reply@) {
            Ok(document) => match entry_id(document) {
                Some(id) => result == Ok::<u64, EngineError>(id),
                None => result matches Err(EngineError::ActiveWindowUnavailable(text)) && text@
                    == "Focused window id not found"@,
            },
            Err(fault) => result matches Err(EngineError::ActiveWindowUnavailable(text)) && text@
                == json_error_text(fault),
        },
{
    match parse(reply) {
        Ok(document) => focused_window(id_of(&document)),
        Err(fault) => Err(EngineError::ActiveWindowUnavailable(describe(&fault))),
    }
}

/// The active workspace from the compositor's answer to the query for the
/// workspaces: the numeric `id` of the first entry whose `is_active` is true.
pub fn active_workspace_id(reply: &str) -> (result: Result<u64, EngineError>)
    ensures
        match json_parse(reply@) {
            Ok(document) => match first_active(workspace_entries(document), 0) {
                Some(id) => result == Ok::<u64, EngineError>(id),
                None => result matches Err(EngineError::ActiveWindowUnavailable(text)) && text@
                    == "Active workspace not found"@,
            },
            Err(fault) => result matches Err(EngineError::ActiveWindowUnavailable(text)) && text@
                == json_error_text(fault),
        },
{
    match parse(reply) {
        Ok(document) => found_workspace(active_workspace(&workspaces_in(&document))),
        Err(fault) => Err(EngineError::ActiveWindowUnavailable(describe(&fault))),
    }
}

/// Reads one line of the compositor's event stream. Only the activation of a
/// workspace with a numeric identifier is of interest; every other line is
/// passed over.
pub fn activated_workspace(line: &str) -> (workspace: Option<u64>)
    ensures
        workspace == activation_of(line@),
{
    match parse(line) {
        Ok(event) => match member(&event, "WorkspaceActivated") {
            Some(workspace) => id_of(workspace),
            None => None,
        },
        Err(_) => None,
    }
}

} // verus!
