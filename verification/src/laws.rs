//! What holds of the transitions taken together.

use crate::business::{Membership, MoveCommand};
use crate::daemon::{
    activation_failure, advanced, begun, error_line, ActionView, Event, ForMove, ForWindows,
    SessionView, Waiting,
};
use crate::error::{EngineError, Subject, Unmet};
use crate::protocol::Request;
use vstd::prelude::*;

verus! {

/// A transition that starts from disjoint sets ends in disjoint sets.
/// Staging and unstaging are taken as a whole here, whatever the compositor
/// answers.
pub proof fn lemma_transitions_keep_sets_disjoint(
    before: Membership,
    registry: Set<u64>,
    id: u64,
    workspace: u64,
    subject: Subject,
    moved: Result<(), String>,
    batch: Set<u64>,
)
    requires
        before.disjoint(),
    ensures
        before.add_window(registry, id).0.disjoint(),
        before.toggle_window(registry, id).0.disjoint(),
        before.remove_window(registry, id).0.disjoint(),
        before.stage(registry, id, subject, moved).0.disjoint(),
        before.unstage(registry, id, workspace, subject, moved).0.disjoint(),
        before.stage_all(batch).disjoint(),
        before.unstage_all(batch).disjoint(),
        before.pruned(registry).disjoint(),
{
}

/// Between the two halves of staging or unstaging a window, the window is in
/// neither set, and the sets are still disjoint.
pub proof fn lemma_window_in_flight_is_in_neither_set(
    before: Membership,
    registry: Set<u64>,
    id: u64,
    workspace: u64,
    subject: Subject,
)
    requires
        before.disjoint(),
    ensures
        ({
            let (between, command) = before.begin_stage(registry, id, subject);
            command is Ok ==> between.disjoint() && !between.sticky.contains(id)
                && !between.staged.contains(id)
        }),
        ({
            let (between, command) = before.begin_unstage(registry, id, workspace, subject);
            command is Ok ==> between.disjoint() && !between.sticky.contains(id)
                && !between.staged.contains(id)
        }),
{
}

/// Marking a window sticky twice: the first call reports whether the mark is
/// new, so `true` for a window that was not sticky; the second reports `false`
/// and changes nothing; and the window is sticky.
pub proof fn lemma_add_twice(before: Membership, registry: Set<u64>, id: u64)
    requires
        registry.contains(id),
        !before.staged.contains(id),
    ensures
        ({
            let (once, first) = before.add_window(registry, id);
            let (twice, second) = once.add_window(registry, id);
            &&& first == Ok::<bool, EngineError>(!before.sticky.contains(id))
            &&& second == Ok::<bool, EngineError>(false)
            &&& twice == once
            &&& once.sticky == before.sticky.insert(id)
            &&& once.staged == before.staged
        }),
{
    let (once, first) = before.add_window(registry, id);
    let (twice, second) = once.add_window(registry, id);
    assert(twice.sticky =~= once.sticky);
}

/// Staging a window and then unstaging it, with both moves carried out,
/// brings both sets back to what they were.
pub proof fn lemma_stage_then_unstage_restores(
    before: Membership,
    registry_at_stage: Set<u64>,
    registry_at_unstage: Set<u64>,
    id: u64,
    workspace: u64,
)
    requires
        registry_at_stage.contains(id),
        registry_at_unstage.contains(id),
        before.sticky.contains(id),
        !before.staged.contains(id),
    ensures
        ({
            let (staged, first) = before.stage(registry_at_stage, id, Subject::Window, Ok(()));
            let (restored, second) = staged.unstage(
                registry_at_unstage,
                id,
                workspace,
                Subject::Window,
                Ok(()),
            );
            &&& first == Ok::<(), EngineError>(())
            &&& staged.sticky == before.sticky.remove(id)
            &&& staged.staged == before.staged.insert(id)
            &&& second == Ok::<(), EngineError>(())
            &&& restored == before
        }),
{
    let (staged, first) = before.stage(registry_at_stage, id, Subject::Window, Ok(()));
    let (restored, second) = staged.unstage(
        registry_at_unstage,
        id,
        workspace,
        Subject::Window,
        Ok(()),
    );
    assert(restored.sticky =~= before.sticky);
    assert(restored.staged =~= before.staged);
}

/// Staging a sticky window whose move fails changes nothing and returns the
/// failure: the window is still sticky, and it is not staged unless it was
/// before.
pub proof fn lemma_failed_stage_rolls_back(
    before: Membership,
    registry: Set<u64>,
    id: u64,
    subject: Subject,
    reason: String,
)
    requires
        registry.contains(id),
        before.sticky.contains(id),
    ensures
        ({
            let (after, result) = before.stage(registry, id, subject, Err(reason));
            &&& result == Err::<(), EngineError>(EngineError::RemoteActionFailure(reason))
            &&& after == before
            &&& after.sticky.contains(id)
            &&& !before.staged.contains(id) ==> !after.staged.contains(id)
        }),
{
    let (after, result) = before.stage(registry, id, subject, Err(reason));
    assert(after.sticky =~= before.sticky);
}

/// Unstaging a staged window whose move fails changes nothing and returns
/// the failure.
pub proof fn lemma_failed_unstage_rolls_back(
    before: Membership,
    registry: Set<u64>,
    id: u64,
    workspace: u64,
    subject: Subject,
    reason: String,
)
    requires
        registry.contains(id),
        before.staged.contains(id),
    ensures
        ({
            let (after, result) = before.unstage(registry, id, workspace, subject, Err(reason));
            &&& result == Err::<(), EngineError>(EngineError::RemoteActionFailure(reason))
            &&& after == before
            &&& after.staged.contains(id)
            &&& !before.sticky.contains(id) ==> !after.sticky.contains(id)
        }),
{
    let (after, result) = before.unstage(registry, id, workspace, subject, Err(reason));
    assert(after.staged =~= before.staged);
}

/// The refusal of a window that the compositor does not report.
pub open spec fn not_found<T>(subject: Subject) -> Result<T, EngineError> {
    Err(EngineError::NotFound(subject))
}

/// A window that the compositor does not report is refused by every
/// operation that names one, before anything is changed.
pub proof fn lemma_unknown_window_changes_nothing(
    before: Membership,
    registry: Set<u64>,
    id: u64,
    workspace: u64,
    subject: Subject,
    moved: Result<(), String>,
)
    requires
        !registry.contains(id),
    ensures
        before.add_window(registry, id) == (before, not_found::<bool>(Subject::Window)),
        before.remove_window(registry, id) == (before, not_found::<bool>(Subject::Window)),
        before.toggle_window(registry, id) == (before, not_found::<bool>(Subject::ActiveWindow)),
        before.begin_stage(registry, id, subject) == (before, not_found::<MoveCommand>(subject)),
        before.begin_unstage(registry, id, workspace, subject) == (
            before,
            not_found::<MoveCommand>(subject),
        ),
        before.stage(registry, id, subject, moved) == (before, not_found::<()>(subject)),
        before.unstage(registry, id, workspace, subject, moved) == (
            before,
            not_found::<()>(subject),
        ),
{
}

/// A window whose membership does not fit is refused before anything is
/// changed: only a sticky window is staged, only a staged one unstaged, and a
/// staged one is not marked sticky.
pub proof fn lemma_unfit_window_changes_nothing(
    before: Membership,
    registry: Set<u64>,
    id: u64,
    workspace: u64,
    subject: Subject,
    moved: Result<(), String>,
)
    requires
        registry.contains(id),
    ensures
        before.staged.contains(id) ==> before.add_window(registry, id) == (
            before,
            Err::<bool, EngineError>(EngineError::InvalidState(Unmet::Staged(Subject::Window))),
        ),
        before.staged.contains(id) && !before.sticky.contains(id) ==> before.toggle_window(
            registry,
            id,
        ) == (
            before,
            Err::<bool, EngineError>(
                EngineError::InvalidState(Unmet::Staged(Subject::ActiveWindow)),
            ),
        ),
        !before.sticky.contains(id) ==> before.stage(registry, id, subject, moved) == (
            before,
            Err::<(), EngineError>(EngineError::InvalidState(Unmet::NotSticky)),
        ),
        !before.staged.contains(id) ==> before.unstage(registry, id, workspace, subject, moved)
            == (
            before,
            Err::<(), EngineError>(EngineError::InvalidState(Unmet::NotStaged(subject))),
        ),
{
}

/// Flipping the sticky mark of the same focused window twice gives opposite
/// answers, the first of them `true` when the window was not sticky, and
/// leaves the sets as they were.
pub proof fn lemma_toggle_twice_restores(before: Membership, registry: Set<u64>, id: u64)
    requires
        registry.contains(id),
        !before.staged.contains(id),
    ensures
        ({
            let (once, first) = before.toggle_window(registry, id);
            let (twice, second) = once.toggle_window(registry, id);
            &&& first == Ok::<bool, EngineError>(!before.sticky.contains(id))
            &&& second == Ok::<bool, EngineError>(before.sticky.contains(id))
            &&& twice == before
        }),
{
    let (once, first) = before.toggle_window(registry, id);
    let (twice, second) = once.toggle_window(registry, id);
    assert(twice.sticky =~= before.sticky);
}

/// Staging or unstaging a batch moves exactly the batch: a window outside
/// it keeps its place.
pub proof fn lemma_batch_leaves_the_rest(before: Membership, batch: Set<u64>, id: u64)
    requires
        !batch.contains(id),
    ensures
        before.stage_all(batch).sticky.contains(id) == before.sticky.contains(id),
        before.stage_all(batch).staged.contains(id) == before.staged.contains(id),
        before.unstage_all(batch).sticky.contains(id) == before.sticky.contains(id),
        before.unstage_all(batch).staged.contains(id) == before.staged.contains(id),
{
}

/// The window that a session has taken out of its set and whose move it is
/// waiting for.
pub open spec fn in_flight(session: SessionView) -> Option<u64> {
    match session.waiting {
        Waiting::Move(ForMove::Stage { window_id, subject }) => Some(window_id),
        Waiting::Move(ForMove::Unstage { window_id, workspace_id, subject }) => Some(window_id),
        _ => None,
    }
}

/// The sets are disjoint, and a window in flight is in neither of them.
pub open spec fn sound(session: SessionView, sets: Membership) -> bool {
    &&& sets.disjoint()
    &&& in_flight(session) matches Some(window_id) ==> !sets.sticky.contains(window_id)
        && !sets.staged.contains(window_id)
}

/// A session that is alone with the store keeps the sets disjoint from its
/// first step to its last, whatever the compositor answers.
pub proof fn lemma_session_keeps_sets_disjoint(
    before: SessionView,
    sets: Membership,
    event: Event,
    after: SessionView,
    sets_after: Membership,
    action: ActionView,
)
    requires
        sound(before, sets),
        advanced(before, sets, event, after, sets_after, action),
    ensures
        sound(after, sets_after),
{
}

/// A session starts with no window in flight.
pub proof fn lemma_session_starts_sound(
    sets: Membership,
    request: Request,
    session: SessionView,
    action: ActionView,
)
    requires
        sets.disjoint(),
        begun(sets, request, session, action),
    ensures
        sound(session, sets),
{
}

/// The failure of the query that a session is waiting for, if `event` brings
/// one.
pub open spec fn failed_query(session: SessionView, event: Event) -> Option<EngineError> {
    match (session.waiting, event) {
        (Waiting::Windows(_), Event::Windows(Err(failure))) => Some(failure),
        (Waiting::ActiveWindow(_), Event::ActiveWindow(Err(failure))) => Some(failure),
        (Waiting::ActiveWorkspace(_), Event::ActiveWorkspace(Err(failure))) => Some(failure),
        _ => None,
    }
}

/// A query that fails ends the session at once: nothing is changed, no
/// window is moved, and the failure is told, to the client as an error line,
/// or to the log where the session follows the activation of a workspace and
/// has no client.
pub proof fn lemma_failed_query_ends_the_session(
    before: SessionView,
    sets: Membership,
    event: Event,
    after: SessionView,
    sets_after: Membership,
    action: ActionView,
)
    requires
        advanced(before, sets, event, after, sets_after, action),
        failed_query(before, event) is Some,
    ensures
        sets_after == sets,
        after.waiting == Waiting::Nothing,
        action == if before.waiting matches Waiting::Windows(ForWindows::Sync { workspace_id }) {
            ActionView::Log(activation_failure(failed_query(before, event)->0.text()))
        } else {
            ActionView::Reply(error_line(failed_query(before, event)->0.text()))
        },
{
}

} // verus!
