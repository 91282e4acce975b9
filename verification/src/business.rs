//! The state store and the transitions on it.

use crate::error::{EngineError, Subject, Unmet};
use std::collections::HashSet;
use vstd::prelude::*;
use vstd::std_specs::iter::IteratorSpec;

verus! {

/// The name of the workspace on which staged windows are parked.
pub const STAGE_WORKSPACE: &'static str = "stage";

/// Where a window is sent.
#[derive(Clone, Copy, Debug, PartialEq, Eq, Structural)]
pub enum WorkspaceRef {
    /// The workspace with this identifier.
    Id(u64),
    /// The reserved workspace on which staged windows are parked; the
    /// compositor knows it as [`STAGE_WORKSPACE`].
    Stage,
}

/// One relocation for the compositor to carry out.
#[derive(Clone, Copy, Debug, PartialEq, Eq, Structural)]
pub struct MoveCommand {
    pub window_id: u64,
    pub destination: WorkspaceRef,
}

/// What became of one relocation that the compositor was asked for.
#[derive(Clone, Copy, Debug, PartialEq, Eq, Structural)]
pub struct MoveReport {
    pub window_id: u64,
    pub moved: bool,
}

/// The sticky set and the staged set as mathematical sets.
pub struct Membership {
    pub sticky: Set<u64>,
    pub staged: Set<u64>,
}

impl Membership {
    /// No window is sticky and staged at once.
    pub open spec fn disjoint(self) -> bool {
        self.sticky.disjoint(self.staged)
    }

    /// Marking `id` sticky: refused for a window that the compositor does not
    /// report, and for a staged window, which comes back only by being
    /// unstaged. Otherwise the window is sticky afterwards and the answer says
    /// whether that is new.
    pub open spec fn add_window(self, registry: Set<u64>, id: u64) -> (
        Membership,
        Result<bool, EngineError>,
    ) {
        if !registry.contains(id) {
            (self, Err(EngineError::NotFound(Subject::Window)))
        } else if self.staged.contains(id) {
            (self, Err(EngineError::InvalidState(Unmet::Staged(Subject::Window))))
        } else {
            (
                Membership { sticky: self.sticky.insert(id), staged: self.staged },
                Ok(!self.sticky.contains(id)),
            )
        }
    }

    /// Clearing the sticky mark of `id`: refused unless the compositor reports
    /// the window, otherwise the window is not sticky afterwards and the answer
    /// says whether it was.
    pub open spec fn remove_window(
        self,
        registry: Set<u64>,
        id: u64,
    ) -> (Membership, Result<bool, EngineError>) {
        if !registry.contains(id) {
            (self, Err(EngineError::NotFound(Subject::Window)))
        } else {
            (
                Membership { sticky: self.sticky.remove(id), staged: self.staged },
                Ok(self.sticky.contains(id)),
            )
        }
    }

    /// Flipping the sticky mark of the focused window `id`: the answer is
    /// `true` when the mark was set and `false` when it was cleared. A window
    /// that the compositor does not report is refused, and so is the setting
    /// of the mark on a staged window.
    pub open spec fn toggle_window(self, registry: Set<u64>, id: u64) -> (
        Membership,
        Result<bool, EngineError>,
    ) {
        if !registry.contains(id) {
            (self, Err(EngineError::NotFound(Subject::ActiveWindow)))
        } else if self.sticky.contains(id) {
            (Membership { sticky: self.sticky.remove(id), staged: self.staged }, Ok(false))
        } else if self.staged.contains(id) {
            (self, Err(EngineError::InvalidState(Unmet::Staged(Subject::ActiveWindow))))
        } else {
            (Membership { sticky: self.sticky.insert(id), staged: self.staged }, Ok(true))
        }
    }

    /// The first half of staging `id`: a sticky window that the compositor
    /// reports leaves the sticky set, and the move to the stage workspace is
    /// handed out. Any other window is refused and nothing changes.
    pub open spec fn begin_stage(
        self,
        registry: Set<u64>,
        id: u64,
        subject: Subject,
    ) -> (Membership, Result<MoveCommand, EngineError>) {
        if !registry.contains(id) {
            (self, Err(EngineError::NotFound(subject)))
        } else if !self.sticky.contains(id) {
            (self, Err(EngineError::InvalidState(Unmet::NotSticky)))
        } else {
            (
                Membership { sticky: self.sticky.remove(id), staged: self.staged },
                Ok(MoveCommand { window_id: id, destination: WorkspaceRef::Stage }),
            )
        }
    }

    /// The second half of staging `id`: after a move that succeeded the window
    /// is staged; after one that failed it is sticky again and the failure is
    /// passed on.
    pub open spec fn end_stage(
        self,
        id: u64,
        moved: Result<(), String>,
    ) -> (Membership, Result<(), EngineError>) {
        match moved {
            Ok(_) => (Membership { sticky: self.sticky, staged: self.staged.insert(id) }, Ok(())),
            Err(reason) => (
                Membership { sticky: self.sticky.insert(id), staged: self.staged },
                Err(EngineError::RemoteActionFailure(reason)),
            ),
        }
    }

    /// The first half of unstaging `id` to `workspace`: a staged window that
    /// the compositor reports leaves the staged set, and the move to
    /// `workspace` is handed out. Any other window is refused and nothing
    /// changes.
    pub open spec fn begin_unstage(
        self,
        registry: Set<u64>,
        id: u64,
        workspace: u64,
        subject: Subject,
    ) -> (Membership, Result<MoveCommand, EngineError>) {
        if !registry.contains(id) {
            (self, Err(EngineError::NotFound(subject)))
        } else if !self.staged.contains(id) {
            (self, Err(EngineError::InvalidState(Unmet::NotStaged(subject))))
        } else {
            (
                Membership { sticky: self.sticky, staged: self.staged.remove(id) },
                Ok(MoveCommand { window_id: id, destination: WorkspaceRef::Id(workspace) }),
            )
        }
    }

    /// The second half of unstaging `id`: after a move that succeeded the
    /// window is sticky; after one that failed it is staged again and the
    /// failure is passed on.
    pub open spec fn end_unstage(
        self,
        id: u64,
        moved: Result<(), String>,
    ) -> (Membership, Result<(), EngineError>) {
        match moved {
            Ok(_) => (Membership { sticky: self.sticky.insert(id), staged: self.staged }, Ok(())),
            Err(reason) => (
                Membership { sticky: self.sticky, staged: self.staged.insert(id) },
                Err(EngineError::RemoteActionFailure(reason)),
            ),
        }
    }

    /// Staging `id` from start to end, where `moved` is what the compositor
    /// answers when it is asked to move the window.
    pub open spec fn stage(
        self,
        registry: Set<u64>,
        id: u64,
        subject: Subject,
        moved: Result<(), String>,
    ) -> (Membership, Result<(), EngineError>) {
        let (begun, command) = self.begin_stage(registry, id, subject);
        match command {
            Ok(_) => begun.end_stage(id, moved),
            Err(refusal) => (begun, Err(refusal)),
        }
    }

    /// Unstaging `id` to `workspace` from start to end, where `moved` is what
    /// the compositor answers when it is asked to move the window.
    pub open spec fn unstage(
        self,
        registry: Set<u64>,
        id: u64,
        workspace: u64,
        subject: Subject,
        moved: Result<(), String>,
    ) -> (Membership, Result<(), EngineError>) {
        let (begun, command) = self.begin_unstage(registry, id, workspace, subject);
        match command {
            Ok(_) => begun.end_unstage(id, moved),
            Err(refusal) => (begun, Err(refusal)),
        }
    }

    /// The windows in `moved` pass from the sticky set to the staged set.
    pub open spec fn stage_all(self, moved: Set<u64>) -> Membership {
        Membership { sticky: self.sticky.difference(moved), staged: self.staged.union(moved) }
    }

    /// The windows in `moved` pass from the staged set to the sticky set.
    pub open spec fn unstage_all(self, moved: Set<u64>) -> Membership {
        Membership { sticky: self.sticky.union(moved), staged: self.staged.difference(moved) }
    }

    /// Sticky windows that the compositor no longer reports are forgotten.
    pub open spec fn pruned(self, registry: Set<u64>) -> Membership {
        Membership { sticky: self.sticky.intersect(registry), staged: self.staged }
    }
}

/// The windows that the reports say were moved, in the order of the reports.
pub open spec fn moved_windows(reports: Seq<MoveReport>) -> Seq<u64>
    decreases reports.len(),
{
    if reports.len() == 0 {
        Seq::empty()
    } else {
        let earlier = moved_windows(reports.drop_last());
        if reports.last().moved {
            earlier.push(reports.last().window_id)
        } else {
            earlier
        }
    }
}

/// `commands` holds one move for each window of `windows` and no other, each
/// to `destination`.
pub open spec fn moves_each_once(
    commands: Seq<MoveCommand>,
    windows: Set<u64>,
    destination: WorkspaceRef,
) -> bool {
    &&& forall|i: int|
        0 <= i < commands.len() ==> (#[trigger] commands[i]).destination == destination
            && windows.contains(commands[i].window_id)
    &&& forall|i: int, j: int|
        0 <= i < j < commands.len()
            ==> (#[trigger] commands[i]).window_id != (#[trigger] commands[j]).window_id
    &&& forall|w: u64| #[trigger]
        windows.contains(w) ==> exists|i: int|
            0 <= i < commands.len() && (#[trigger] commands[i]).window_id == w
}

/// The members of `set` that are also in `registry`, each once.
fn common(set: &HashSet<u64>, registry: &HashSet<u64>) -> (both: Vec<u64>)
    ensures
        both@.no_duplicates(),
        both@.to_set() == set@.intersect(registry@),
{
    let mut both: Vec<u64> = Vec::new();
    let ghost keys = set.iter().remaining().unref();
    let ghost mut at: int = 0;
    for id in it: set.iter()
        invariant
            it.seq().unref() == keys,
            it.index() == at,
            keys.no_duplicates(),
            keys.to_set() == set@,
            both@.no_duplicates(),
            forall|x: u64| #[trigger]
                both@.contains(x) <==> registry@.contains(x) && exists|k: int|
                    0 <= k < at && keys[k] == x,
    {
        let ghost before = both@;
        assert(keys[at] == *id);
        if registry.contains(id) {
            assert(!before.contains(*id)) by {
                if before.contains(*id) {
                    let k = choose|k: int| 0 <= k < at && keys[k] == *id;
                    assert(keys[k] == keys[at]);
                }
            }
            both.push(*id);
            assert(both@.no_duplicates()) by {
                assert forall|i: int, j: int| 0 <= i < j < both@.len() implies both@[i]
                    != both@[j] by {
                    if j == before.len() {
                        assert(before.contains(before[i]));
                    }
                }
            }
            assert forall|x: u64| #[trigger]
                both@.contains(x) <==> registry@.contains(x) && exists|k: int|
                    0 <= k < at + 1 && keys[k] == x by {
                if both@.contains(x) {
                    let j = choose|j: int| 0 <= j < both@.len() && both@[j] == x;
                    if j < before.len() {
                        assert(before.contains(x));
                    } else {
                        assert(keys[at] == x);
                    }
                }
                if registry@.contains(x) && exists|k: int| 0 <= k < at + 1 && keys[k] == x {
                    let k = choose|k: int| 0 <= k < at + 1 && keys[k] == x;
                    if k < at {
                        assert(before.contains(x));
                        let j = choose|j: int| 0 <= j < before.len() && before[j] == x;
                        assert(both@[j] == x);
                    } else {
                        assert(both@[before.len() as int] == x);
                    }
                }
            }
        } else {
            assert forall|x: u64| #[trigger]
                both@.contains(x) <==> registry@.contains(x) && exists|k: int|
                    0 <= k < at + 1 && keys[k] == x by {
                if registry@.contains(x) && exists|k: int| 0 <= k < at + 1 && keys[k] == x {
                    let k = choose|k: int| 0 <= k < at + 1 && keys[k] == x;
                    assert(k < at);
                }
            }
        }
        proof {
            at = at + 1;
        }
    }
    assert(at == keys.len());
    assert(both@.to_set() =~= set@.intersect(registry@)) by {
        assert forall|x: u64| both@.to_set().contains(x) <==> set@.intersect(
            registry@,
        ).contains(x) by {
            if set@.contains(x) {
                assert(keys.to_set().contains(x));
                assert(keys.contains(x));
            }
            if both@.contains(x) {
                let k = choose|k: int| 0 <= k < keys.len() && keys[k] == x;
                assert(keys.contains(x));
            }
        }
    }
    both
}

/// All members of `set`, each once.
fn members(set: &HashSet<u64>) -> (all: Vec<u64>)
    ensures
        all@.no_duplicates(),
        all@.to_set() == set@,
{
    let all = common(set, set);
    assert(set@.intersect(set@) =~= set@);
    all
}

/// One move to `destination` for each of `windows`.
fn moves_to(windows: &Vec<u64>, destination: WorkspaceRef) -> (commands: Vec<MoveCommand>)
    requires
        windows@.no_duplicates(),
    ensures
        moves_each_once(commands@, windows@.to_set(), destination),
{
    let mut commands: Vec<MoveCommand> = Vec::new();
    let mut i: usize = 0;
    while i < windows.len()
        invariant
            i <= windows.len(),
            commands.len() == i,
            forall|k: int|
                0 <= k < i ==> (#[trigger] commands@[k]) == (MoveCommand {
                    window_id: windows@[k],
                    destination,
                }),
        decreases windows.len() - i,
    {
        commands.push(MoveCommand { window_id: windows[i], destination });
        i += 1;
    }
    assert forall|w: u64| #[trigger] windows@.to_set().contains(w) implies exists|k: int|
        0 <= k < commands@.len() && (#[trigger] commands@[k]).window_id == w by {
        let k = choose|k: int| 0 <= k < windows@.len() && windows@[k] == w;
        assert(commands@[k].window_id == w);
    }
    assert forall|k: int| 0 <= k < commands@.len() implies (#[trigger] commands@[k]).destination
        == destination && windows@.to_set().contains(commands@[k].window_id) by {
        assert(windows@.contains(windows@[k]));
    }
    commands
}

/// The set that holds exactly `windows`.
fn set_of(windows: &Vec<u64>) -> (set: HashSet<u64>)
    ensures
        set@ == windows@.to_set(),
{
    let mut set: HashSet<u64> = HashSet::new();
    let mut i: usize = 0;
    while i < windows.len()
        invariant
            i <= windows.len(),
            set@ == windows@.take(i as int).to_set(),
        decreases windows.len() - i,
    {
        set.insert(windows[i]);
        proof {
            assert(windows@.take(i + 1) =~= windows@.take(i as int).push(windows@[i as int]));
            lemma_to_set_push(windows@.take(i as int), windows@[i as int]);
        }
        i += 1;
    }
    assert(windows@.take(windows@.len() as int) =~= windows@);
    set
}

/// The state store: which windows are sticky and which are staged.
///
/// Operations that need the compositor to move a window come in two halves:
/// the first decides and hands out the move, the second takes the outcome of
/// that move. The caller performs the move in between, and lets nothing else
/// touch the store until the second half has run.
pub struct BusinessLogic {
    sticky_windows: HashSet<u64>,
    staged_set: HashSet<u64>,
}

impl View for BusinessLogic {
    type V = Membership;

    closed spec fn view(&self) -> Membership {
        Membership { sticky: self.sticky_windows@, staged: self.staged_set@ }
    }
}

impl BusinessLogic {
    /// A store that holds the given sets, which are meant to be disjoint.
    pub fn new(sticky_windows: HashSet<u64>, staged_set: HashSet<u64>) -> (logic: Self)
        ensures
            logic@.sticky == sticky_windows@,
            logic@.staged == staged_set@,
            sticky_windows@.disjoint(staged_set@) ==> logic@.disjoint(),
    {
        BusinessLogic { sticky_windows, staged_set }
    }

    /// Marks a window sticky and says whether that is new. A window that
    /// `full_window_list` does not hold is refused, and so is a staged window;
    /// then nothing changes.
    pub fn add_sticky_window(
        &mut self,
        full_window_list: &HashSet<u64>,
        window_id: u64,
    ) -> (result: Result<bool, EngineError>)
        ensures
            (final(self)@, result) == old(self)@.add_window(full_window_list@, window_id),
            old(self)@.disjoint() ==> final(self)@.disjoint(),
    {
        if !full_window_list.contains(&window_id) {
            return Err(EngineError::NotFound(Subject::Window));
        }
        if self.staged_set.contains(&window_id) {
            return Err(EngineError::InvalidState(Unmet::Staged(Subject::Window)));
        }
        Ok(self.sticky_windows.insert(window_id))
    }

    /// Clears the sticky mark of a window and says whether it was set. A
    /// window that `full_window_list` does not hold is refused, and nothing
    /// changes.
    pub fn remove_sticky_window(
        &mut self,
        full_window_list: &HashSet<u64>,
        window_id: u64,
    ) -> (result: Result<bool, EngineError>)
        ensures
            (final(self)@, result) == old(self)@.remove_window(full_window_list@, window_id),
            old(self)@.disjoint() ==> final(self)@.disjoint(),
    {
        if !full_window_list.contains(&window_id) {
            return Err(EngineError::NotFound(Subject::Window));
        }
        Ok(self.sticky_windows.remove(&window_id))
    }

    /// The sticky windows that the compositor still reports, each once. The
    /// stored set is left as it is.
    pub fn list_sticky_windows(&self, full_window_list: &HashSet<u64>) -> (windows: Vec<u64>)
        ensures
            windows@.no_duplicates(),
            windows@.to_set() == self@.sticky.intersect(full_window_list@),
    {
        common(&self.sticky_windows, full_window_list)
    }

    /// Flips the sticky mark of the focused window: `true` when the window
    /// became sticky, `false` when it stopped being so. A window that
    /// `full_window_list` does not hold is refused, and a staged window is not
    /// made sticky; then nothing changes.
    pub fn toggle_active_window(
        &mut self,
        active_id: u64,
        full_window_list: &HashSet<u64>,
    ) -> (result: Result<bool, EngineError>)
        ensures
            (final(self)@, result) == old(self)@.toggle_window(full_window_list@, active_id),
            old(self)@.disjoint() ==> final(self)@.disjoint(),
    {
        if !full_window_list.contains(&active_id) {
            return Err(EngineError::NotFound(Subject::ActiveWindow));
        }
        if self.sticky_windows.contains(&active_id) {
            self.sticky_windows.remove(&active_id);
            Ok(false)
        } else if self.staged_set.contains(&active_id) {
            Err(EngineError::InvalidState(Unmet::Staged(Subject::ActiveWindow)))
        } else {
            self.sticky_windows.insert(active_id);
            Ok(true)
        }
    }

    /// Starts staging a window: takes it out of the sticky set and hands out
    /// the move to the stage workspace. The outcome of that move goes to
    /// [`BusinessLogic::complete_stage`].
    pub fn stage_window(
        &mut self,
        full_window_list: &HashSet<u64>,
        window_id: u64,
    ) -> (result: Result<MoveCommand, EngineError>)
        ensures
            (final(self)@, result) == old(self)@.begin_stage(
                full_window_list@,
                window_id,
                Subject::Window,
            ),
            old(self)@.disjoint() ==> final(self)@.disjoint(),
    {
        self.begin_stage(full_window_list, window_id, Subject::Window)
    }

    /// Starts staging the focused window, as [`BusinessLogic::stage_window`]
    /// does for a window named by its identifier.
    pub fn stage_active_window(
        &mut self,
        active_id: u64,
        full_window_list: &HashSet<u64>,
    ) -> (result: Result<MoveCommand, EngineError>)
        ensures
            (final(self)@, result) == old(self)@.begin_stage(
                full_window_list@,
                active_id,
                Subject::ActiveWindow,
            ),
            old(self)@.disjoint() ==> final(self)@.disjoint(),
    {
        self.begin_stage(full_window_list, active_id, Subject::ActiveWindow)
    }

    fn begin_stage(
        &mut self,
        registry: &HashSet<u64>,
        id: u64,
        subject: Subject,
    ) -> (result: Result<MoveCommand, EngineError>)
        ensures
            (final(self)@, result) == old(self)@.begin_stage(registry@, id, subject),
    {
        if !registry.contains(&id) {
            return Err(EngineError::NotFound(subject));
        }
        if !self.sticky_windows.remove(&id) {
            assert(self.sticky_windows@ =~= old(self).sticky_windows@);
            return Err(EngineError::InvalidState(Unmet::NotSticky));
        }
        Ok(MoveCommand { window_id: id, destination: WorkspaceRef::Stage })
    }

    /// Finishes staging a window with the outcome of its move: on success
    /// the window is staged, on failure it is sticky again and the failure is
    /// returned.
    pub fn complete_stage(
        &mut self,
        window_id: u64,
        moved: Result<(), String>,
    ) -> (result: Result<(), EngineError>)
        ensures
            (final(self)@, result) == old(self)@.end_stage(window_id, moved),
            old(self)@.disjoint() && !(moved is Ok && old(self)@.sticky.contains(window_id))
                && !(moved is Err && old(self)@.staged.contains(window_id))
                ==> final(self)@.disjoint(),
    {
        match moved {
            Ok(_) => {
                self.staged_set.insert(window_id);
                Ok(())
            },
            Err(reason) => {
                self.sticky_windows.insert(window_id);
                Err(EngineError::RemoteActionFailure(reason))
            },
        }
    }

    /// Whether no window is sticky.
    pub fn no_sticky_windows(&self) -> (none: bool)
        ensures
            none == self@.sticky.is_empty(),
    {
        self.sticky_windows.is_empty()
    }

    /// Whether no window is staged.
    pub fn no_staged_windows(&self) -> (none: bool)
        ensures
            none == self@.staged.is_empty(),
    {
        self.staged_set.is_empty()
    }

    /// Whether a window is staged.
    pub fn is_window_staged(&self, window_id: u64) -> (staged: bool)
        ensures
            staged == self@.staged.contains(window_id),
    {
        self.staged_set.contains(&window_id)
    }

    /// The moves that stage every sticky window the compositor still
    /// reports. Nothing changes yet: what became of the moves goes to
    /// [`BusinessLogic::complete_stage_all`].
    pub fn stage_all_windows(&self, full_window_list: &HashSet<u64>) -> (commands: Vec<MoveCommand>)
        ensures
            moves_each_once(
                commands@,
                self@.sticky.intersect(full_window_list@),
                WorkspaceRef::Stage,
            ),
    {
        let valid_sticky_ids = common(&self.sticky_windows, full_window_list);
        moves_to(&valid_sticky_ids, WorkspaceRef::Stage)
    }

    /// Records a round of staging moves: every window that was moved passes
    /// from the sticky set to the staged set, every other window stays where
    /// it is. Returns how many were moved.
    pub fn complete_stage_all(&mut self, reports: &Vec<MoveReport>) -> (count: usize)
        ensures
            final(self)@ == old(self)@.stage_all(moved_windows(reports@).to_set()),
            count == moved_windows(reports@).len(),
            old(self)@.disjoint() ==> final(self)@.disjoint(),
    {
        let mut count: usize = 0;
        let mut i: usize = 0;
        proof {
            let none = moved_windows(reports@.take(0)).to_set();
            assert(none =~= Set::<u64>::empty());
            assert(self@.sticky =~= old(self)@.sticky.difference(none));
            assert(self@.staged =~= old(self)@.staged.union(none));
        }
        while i < reports.len()
            invariant
                i <= reports.len(),
                count == moved_windows(reports@.take(i as int)).len(),
                count <= i,
                self@ == old(self)@.stage_all(moved_windows(reports@.take(i as int)).to_set()),
            decreases reports.len() - i,
        {
            let ghost earlier = moved_windows(reports@.take(i as int));
            let ghost now = moved_windows(reports@.take(i + 1));
            proof {
                assert(reports@.take(i + 1).drop_last() =~= reports@.take(i as int));
            }
            let report = reports[i];
            if report.moved {
                self.sticky_windows.remove(&report.window_id);
                self.staged_set.insert(report.window_id);
                count += 1;
                proof {
                    lemma_to_set_push(earlier, report.window_id);
                    assert(self@.sticky =~= old(self)@.sticky.difference(now.to_set()));
                    assert(self@.staged =~= old(self)@.staged.union(now.to_set()));
                }
            }
            i += 1;
        }
        proof {
            assert(reports@.take(reports@.len() as int) =~= reports@);
        }
        count
    }

    /// The staged windows, each once.
    pub fn list_staged_windows(&self) -> (windows: Vec<u64>)
        ensures
            windows@.no_duplicates(),
            windows@.to_set() == self@.staged,
    {
        members(&self.staged_set)
    }

    /// Starts unstaging a window: takes it out of the staged set and hands
    /// out the move to `workspace_id`. The outcome of that move goes to
    /// [`BusinessLogic::complete_unstage`].
    pub fn unstage_window(
        &mut self,
        full_window_list: &HashSet<u64>,
        window_id: u64,
        workspace_id: u64,
    ) -> (result: Result<MoveCommand, EngineError>)
        ensures
            (final(self)@, result) == old(self)@.begin_unstage(
                full_window_list@,
                window_id,
                workspace_id,
                Subject::Window,
            ),
            old(self)@.disjoint() ==> final(self)@.disjoint(),
    {
        self.begin_unstage(full_window_list, window_id, workspace_id, Subject::Window)
    }

    /// Starts unstaging the focused window, as
    /// [`BusinessLogic::unstage_window`] does for a window named by its
    /// identifier.
    pub fn unstage_active_window(
        &mut self,
        active_id: u64,
        full_window_list: &HashSet<u64>,
        workspace_id: u64,
    ) -> (result: Result<MoveCommand, EngineError>)
        ensures
            (final(self)@, result) == old(self)@.begin_unstage(
                full_window_list@,
                active_id,
                workspace_id,
                Subject::ActiveWindow,
            ),
            old(self)@.disjoint() ==> final(self)@.disjoint(),
    {
        self.begin_unstage(full_window_list, active_id, workspace_id, Subject::ActiveWindow)
    }

    fn begin_unstage(
        &mut self,
        registry: &HashSet<u64>,
        id: u64,
        workspace: u64,
        subject: Subject,
    ) -> (result: Result<MoveCommand, EngineError>)
        ensures
            (final(self)@, result) == old(self)@.begin_unstage(registry@, id, workspace, subject),
    {
        if !registry.contains(&id) {
            return Err(EngineError::NotFound(subject));
        }
        if !self.staged_set.remove(&id) {
            assert(self.staged_set@ =~= old(self).staged_set@);
            return Err(EngineError::InvalidState(Unmet::NotStaged(subject)));
        }
        Ok(MoveCommand { window_id: id, destination: WorkspaceRef::Id(workspace) })
    }

    /// Finishes unstaging a window with the outcome of its move: on success
    /// the window is sticky, on failure it is staged again and the failure is
    /// returned.
    pub fn complete_unstage(
        &mut self,
        window_id: u64,
        moved: Result<(), String>,
    ) -> (result: Result<(), EngineError>)
        ensures
            (final(self)@, result) == old(self)@.end_unstage(window_id, moved),
            old(self)@.disjoint() && !(moved is Ok && old(self)@.staged.contains(window_id))
                && !(moved is Err && old(self)@.sticky.contains(window_id))
                ==> final(self)@.disjoint(),
    {
        match moved {
            Ok(_) => {
                self.sticky_windows.insert(window_id);
                Ok(())
            },
            Err(reason) => {
                self.staged_set.insert(window_id);
                Err(EngineError::RemoteActionFailure(reason))
            },
        }
    }

    /// The moves that bring every staged window the compositor still reports
    /// to `workspace_id`. Nothing changes yet: what became of the moves goes
    /// to [`BusinessLogic::complete_unstage_all`].
    pub fn unstage_all_windows(
        &self,
        full_window_list: &HashSet<u64>,
        workspace_id: u64,
    ) -> (commands: Vec<MoveCommand>)
        ensures
            moves_each_once(
                commands@,
                self@.staged.intersect(full_window_list@),
                WorkspaceRef::Id(workspace_id),
            ),
    {
        let valid_ids_to_unstage = common(&self.staged_set, full_window_list);
        moves_to(&valid_ids_to_unstage, WorkspaceRef::Id(workspace_id))
    }

    /// Records a round of unstaging moves: every window that was moved
    /// passes from the staged set to the sticky set, every other window stays
    /// where it is. Returns how many were moved.
    pub fn complete_unstage_all(&mut self, reports: &Vec<MoveReport>) -> (count: usize)
        ensures
            final(self)@ == old(self)@.unstage_all(moved_windows(reports@).to_set()),
            count == moved_windows(reports@).len(),
            old(self)@.disjoint() ==> final(self)@.disjoint(),
    {
        let mut count: usize = 0;
        let mut i: usize = 0;
        proof {
            let none = moved_windows(reports@.take(0)).to_set();
            assert(none =~= Set::<u64>::empty());
            assert(self@.sticky =~= old(self)@.sticky.union(none));
            assert(self@.staged =~= old(self)@.staged.difference(none));
        }
        while i < reports.len()
            invariant
                i <= reports.len(),
                count == moved_windows(reports@.take(i as int)).len(),
                count <= i,
                self@ == old(self)@.unstage_all(moved_windows(reports@.take(i as int)).to_set()),
            decreases reports.len() - i,
        {
            let ghost earlier = moved_windows(reports@.take(i as int));
            let ghost now = moved_windows(reports@.take(i + 1));
            proof {
                assert(reports@.take(i + 1).drop_last() =~= reports@.take(i as int));
            }
            let report = reports[i];
            if report.moved {
                self.staged_set.remove(&report.window_id);
                self.sticky_windows.insert(report.window_id);
                count += 1;
                proof {
                    lemma_to_set_push(earlier, report.window_id);
                    assert(self@.sticky =~= old(self)@.sticky.union(now.to_set()));
                    assert(self@.staged =~= old(self)@.staged.difference(now.to_set()));
                }
            }
            i += 1;
        }
        proof {
            assert(reports@.take(reports@.len() as int) =~= reports@);
        }
        count
    }

    /// Takes note that workspace `ws_id` became active: forgets the sticky
    /// windows that the compositor no longer reports, and hands out one move
    /// to `ws_id` for each sticky window that is left. A move that fails
    /// changes nothing here.
    pub fn handle_workspace_activation(
        &mut self,
        full_window_list: &HashSet<u64>,
        ws_id: u64,
    ) -> (commands: Vec<MoveCommand>)
        ensures
            final(self)@ == old(self)@.pruned(full_window_list@),
            moves_each_once(commands@, final(self)@.sticky, WorkspaceRef::Id(ws_id)),
            old(self)@.disjoint() ==> final(self)@.disjoint(),
    {
        let sticky_snapshot = common(&self.sticky_windows, full_window_list);
        self.sticky_windows = set_of(&sticky_snapshot);
        moves_to(&sticky_snapshot, WorkspaceRef::Id(ws_id))
    }
}

/// The set of a sequence with one more element.
proof fn lemma_to_set_push(s: Seq<u64>, x: u64)
    ensures
        s.push(x).to_set() == s.to_set().insert(x),
{
    assert forall|y: u64| s.push(x).to_set().contains(y) <==> s.to_set().insert(x).contains(
        y,
    ) by {
        if s.push(x).contains(y) {
            let k = choose|k: int| 0 <= k < s.push(x).len() && s.push(x)[k] == y;
            if k < s.len() {
                assert(s[k] == y);
            }
        }
        if s.contains(y) {
            let k = choose|k: int| 0 <= k < s.len() && s[k] == y;
            assert(s.push(x)[k] == y);
        }
        if y == x {
            assert(s.push(x)[s.len() as int] == x);
        }
    }
    assert(s.push(x).to_set() =~= s.to_set().insert(x));
}

} // verus!
