//! Serving one request, or one event of the compositor, step by step.
//!
//! A [`Session`] decides; it performs nothing. It hands out one [`Action`] at a
//! time, and whoever runs it carries the action out and comes back with the
//! [`Event`] that tells how it went, until the session hands out a reply or
//! has nothing left to do. The store must not be touched by anyone else while
//! a session is under way.

use crate::business::{
    moved_windows, moves_each_once, BusinessLogic, Membership, MoveCommand, MoveReport,
    WorkspaceRef,
};
use crate::error::{EngineError, Malformed, Subject};
use crate::protocol::{
    decimal, decimal_text, format_response, id_list, id_list_text, on_one_line, one_line_text,
    parse_line, parse_request, response_text, Request, Response,
};
use std::collections::HashSet;
use vstd::prelude::*;
use vstd::string::*;

verus! {

/// What a session will do with the list of windows it has asked for.
#[derive(Clone, Copy, Debug, PartialEq, Eq, Structural)]
pub enum ForWindows {
    Add { window_id: u64 },
    Remove { window_id: u64 },
    List,
    Toggle { active_id: u64 },
    Stage { window_id: u64, subject: Subject },
    Unstage { window_id: u64, workspace_id: u64, subject: Subject },
    StageAll,
    UnstageAll { workspace_id: u64 },
    Sync { workspace_id: u64 },
}

/// What a session will do with the focused window it has asked for.
#[derive(Clone, Copy, Debug, PartialEq, Eq, Structural)]
pub enum ForActiveWindow {
    /// Flip its sticky mark.
    Toggle,
    /// Unstage it if it is staged, stage it if it is not.
    Flip,
    Stage,
    Unstage { workspace_id: u64 },
}

/// What an `unstage` request names.
#[derive(Clone, Copy, Debug, PartialEq, Eq, Structural)]
pub enum UnstageTarget {
    All,
    Active,
    Window(u64),
    /// Neither a window nor a flag.
    Nothing,
}

/// What a session will do with the outcome of the move it has handed out.
#[derive(Clone, Copy, Debug, PartialEq, Eq, Structural)]
pub enum ForMove {
    Stage { window_id: u64, subject: Subject },
    Unstage { window_id: u64, workspace_id: u64, subject: Subject },
    StageAll,
    UnstageAll,
    Sync,
}

/// What a session is waiting for.
#[derive(Clone, Copy, Debug, PartialEq, Eq, Structural)]
pub enum Waiting {
    Windows(ForWindows),
    ActiveWindow(ForActiveWindow),
    ActiveWorkspace(UnstageTarget),
    Move(ForMove),
    /// The session is over.
    Nothing,
}

/// What has to be done next on behalf of a session.
#[derive(Debug, PartialEq, Eq)]
pub enum Action {
    /// Ask the compositor for all its windows.
    QueryWindows,
    /// Ask the compositor for the window that has the focus.
    QueryActiveWindow,
    /// Ask the compositor for the workspace that is active.
    QueryActiveWorkspace,
    /// Ask the compositor to move a window.
    Move(MoveCommand),
    /// Send this text to the client. The session is over.
    Reply(String),
    /// Write this text to the log: the session has failed and has no client
    /// to tell. The session is over.
    Log(String),
    /// Nothing. The session is over.
    Idle,
}

/// An action, with the text of a reply as a sequence of characters.
pub enum ActionView {
    QueryWindows,
    QueryActiveWindow,
    QueryActiveWorkspace,
    Move(MoveCommand),
    Reply(Seq<char>),
    Log(Seq<char>),
    Idle,
}

impl View for Action {
    type V = ActionView;

    open spec fn view(&self) -> ActionView {
        match self {
            Action::QueryWindows => ActionView::QueryWindows,
            Action::QueryActiveWindow => ActionView::QueryActiveWindow,
            Action::QueryActiveWorkspace => ActionView::QueryActiveWorkspace,
            Action::Move(command) => ActionView::Move(*command),
            Action::Reply(text) => ActionView::Reply(text@),
            Action::Log(text) => ActionView::Log(text@),
            Action::Idle => ActionView::Idle,
        }
    }
}

/// How an action went.
#[derive(Debug)]
pub enum Event {
    Windows(Result<HashSet<u64>, EngineError>),
    ActiveWindow(Result<u64, EngineError>),
    ActiveWorkspace(Result<u64, EngineError>),
    Moved(Result<(), String>),
}

/// The state of a session as plain values.
pub struct SessionView {
    pub waiting: Waiting,
    /// The moves of a batch.
    pub commands: Seq<MoveCommand>,
    /// How many moves of the batch have been reported.
    pub next: nat,
    /// What was reported of them.
    pub reports: Seq<MoveReport>,
}

/// The serving of one request or one event.
pub struct Session {
    waiting: Waiting,
    commands: Vec<MoveCommand>,
    next: usize,
    reports: Vec<MoveReport>,
}

impl View for Session {
    type V = SessionView;

    closed spec fn view(&self) -> SessionView {
        SessionView {
            waiting: self.waiting,
            commands: self.commands@,
            next: self.next as nat,
            reports: self.reports@,
        }
    }
}

/// The line that reports a failure: the reason after `Error: `, kept on one
/// line.
pub open spec fn error_line(reason: Seq<char>) -> Seq<char> {
    "Error: "@ + (on_one_line(reason) + "\n"@)
}

/// What goes to the log when the activation of a workspace cannot be
/// followed.
pub open spec fn activation_failure(reason: Seq<char>) -> Seq<char> {
    "Failed to handle workspace activation: "@ + reason
}

/// The line that answers with a list of windows.
pub open spec fn list_line(ids: Seq<u64>) -> Seq<char> {
    id_list(ids) + "\n"@
}

/// The line that says how many windows a batch has staged (`"Staged"`) or
/// unstaged (`"Unstaged"`).
pub open spec fn count_line(done: Seq<char>, count: nat) -> Seq<char> {
    done + " "@ + decimal(count) + " windows\n"@
}

/// The line for an operation that reports a change or its absence.
pub open spec fn flag_line(
    result: Result<bool, EngineError>,
    yes: Seq<char>,
    no: Seq<char>,
) -> Seq<char> {
    match result {
        Ok(true) => yes,
        Ok(false) => no,
        Err(failure) => error_line(failure.text()),
    }
}

/// The line for an operation that is done or has failed.
pub open spec fn done_line(result: Result<(), EngineError>, done: Seq<char>) -> Seq<char> {
    match result {
        Ok(_) => done,
        Err(failure) => error_line(failure.text()),
    }
}

/// The line that tells that a window was staged.
pub open spec fn staged_line(subject: Subject) -> Seq<char> {
    match subject {
        Subject::Window => "Staged window\n"@,
        Subject::ActiveWindow => "Staged active window\n"@,
    }
}

/// The line that tells that a window was unstaged.
pub open spec fn unstaged_line(subject: Subject) -> Seq<char> {
    match subject {
        Subject::Window => "Unstaged window\n"@,
        Subject::ActiveWindow => "Unstaged active window\n"@,
    }
}

/// The action that a session in this state is waiting to hear of.
pub open spec fn awaited(session: SessionView) -> ActionView {
    match session.waiting {
        Waiting::Windows(_) => ActionView::QueryWindows,
        Waiting::ActiveWindow(_) => ActionView::QueryActiveWindow,
        Waiting::ActiveWorkspace(_) => ActionView::QueryActiveWorkspace,
        Waiting::Move(ForMove::Stage { window_id, subject }) => ActionView::Move(
            MoveCommand { window_id, destination: WorkspaceRef::Stage },
        ),
        Waiting::Move(ForMove::Unstage { window_id, workspace_id, subject }) => ActionView::Move(
            MoveCommand { window_id, destination: WorkspaceRef::Id(workspace_id) },
        ),
        Waiting::Move(_) => if session.next < session.commands.len() {
            ActionView::Move(session.commands[session.next as int])
        } else {
            ActionView::Idle
        },
        Waiting::Nothing => ActionView::Idle,
    }
}

/// The session ends with a reply.
pub open spec fn replies(
    before: SessionView,
    after: SessionView,
    action: ActionView,
    text: Seq<char>,
) -> bool {
    &&& after == SessionView { waiting: Waiting::Nothing, ..before }
    &&& action == ActionView::Reply(text)
}

/// The session goes on to wait for something else.
pub open spec fn goes_on(
    before: SessionView,
    after: SessionView,
    action: ActionView,
    waiting: Waiting,
) -> bool {
    &&& after == SessionView { waiting, ..before }
    &&& action == awaited(after)
}

/// The session takes up a batch of moves: it hands out the first, or ends at
/// once with `finish` when the batch is empty.
pub open spec fn takes_up(
    after: SessionView,
    action: ActionView,
    then: ForMove,
    finish: ActionView,
) -> bool {
    &&& after.next == 0
    &&& after.reports == Seq::<MoveReport>::empty()
    &&& if after.commands.len() == 0 {
        after.waiting == Waiting::Nothing && action == finish
    } else {
        after.waiting == Waiting::Move(then) && action == ActionView::Move(after.commands[0])
    }
}

/// What a session does when the list of windows arrives.
pub open spec fn windows_arrived(
    before: SessionView,
    sets: Membership,
    job: ForWindows,
    windows: Set<u64>,
    after: SessionView,
    sets_after: Membership,
    action: ActionView,
) -> bool {
    match job {
        ForWindows::Add { window_id } => {
            let (changed, result) = sets.add_window(windows, window_id);
            sets_after == changed && replies(
                before,
                after,
                action,
                flag_line(result, "Added\n"@, "Already in sticky list\n"@),
            )
        },
        ForWindows::Remove { window_id } => {
            let (changed, result) = sets.remove_window(windows, window_id);
            sets_after == changed && replies(
                before,
                after,
                action,
                flag_line(result, "Removed\n"@, "Not in sticky list\n"@),
            )
        },
        ForWindows::List => sets_after == sets && exists|ids: Seq<u64>|
            #![trigger list_line(ids)]
            ids.no_duplicates() && ids.to_set() == sets.sticky.intersect(windows) && replies(
                before,
                after,
                action,
                list_line(ids),
            ),
        ForWindows::Toggle { active_id } => {
            let (changed, result) = sets.toggle_window(windows, active_id);
            sets_after == changed && replies(
                before,
                after,
                action,
                flag_line(
                    result,
                    "Added active window to sticky\n"@,
                    "Removed active window from sticky\n"@,
                ),
            )
        },
        ForWindows::Stage { window_id, subject } => {
            let (changed, result) = sets.begin_stage(windows, window_id, subject);
            sets_after == changed && match result {
                Ok(command) => goes_on(
                    before,
                    after,
                    action,
                    Waiting::Move(ForMove::Stage { window_id, subject }),
                ),
                Err(refusal) => replies(before, after, action, error_line(refusal.text())),
            }
        },
        ForWindows::Unstage { window_id, workspace_id, subject } => {
            let (changed, result) = sets.begin_unstage(windows, window_id, workspace_id, subject);
            sets_after == changed && match result {
                Ok(command) => goes_on(
                    before,
                    after,
                    action,
                    Waiting::Move(ForMove::Unstage { window_id, workspace_id, subject }),
                ),
                Err(refusal) => replies(before, after, action, error_line(refusal.text())),
            }
        },
        ForWindows::StageAll => {
            &&& sets_after == sets
            &&& moves_each_once(after.commands, sets.sticky.intersect(windows), WorkspaceRef::Stage)
            &&& takes_up(
                after,
                action,
                ForMove::StageAll,
                ActionView::Reply(count_line("Staged"@, 0)),
            )
        },
        ForWindows::UnstageAll { workspace_id } => {
            &&& sets_after == sets
            &&& moves_each_once(
                after.commands,
                sets.staged.intersect(windows),
                WorkspaceRef::Id(workspace_id),
            )
            &&& takes_up(
                after,
                action,
                ForMove::UnstageAll,
                ActionView::Reply(count_line("Unstaged"@, 0)),
            )
        },
        ForWindows::Sync { workspace_id } => {
            &&& sets_after == sets.pruned(windows)
            &&& moves_each_once(after.commands, sets_after.sticky, WorkspaceRef::Id(workspace_id))
            &&& takes_up(after, action, ForMove::Sync, ActionView::Idle)
        },
    }
}

/// What a session does when the list of windows cannot be had: nothing is
/// changed and no window is moved. A request is answered with the reason; the
/// activation of a workspace, which has no client, is given up with the
/// reason for the log.
pub open spec fn windows_failed(
    before: SessionView,
    sets: Membership,
    job: ForWindows,
    failure: EngineError,
    after: SessionView,
    sets_after: Membership,
    action: ActionView,
) -> bool {
    &&& sets_after == sets
    &&& match job {
        ForWindows::Sync { workspace_id } => {
            &&& after == SessionView { waiting: Waiting::Nothing, ..before }
            &&& action == ActionView::Log(activation_failure(failure.text()))
        },
        _ => replies(before, after, action, error_line(failure.text())),
    }
}

/// What a session does when it learns which window has the focus, or that
/// none could be found, which fails the request. The sets stay as they are.
pub open spec fn active_window_arrived(
    before: SessionView,
    sets: Membership,
    job: ForActiveWindow,
    reply: Result<u64, EngineError>,
    after: SessionView,
    action: ActionView,
) -> bool {
    match reply {
        Ok(active_id) => match job {
            ForActiveWindow::Toggle => goes_on(
                before,
                after,
                action,
                Waiting::Windows(ForWindows::Toggle { active_id }),
            ),
            ForActiveWindow::Flip => if sets.staged.contains(active_id) {
                goes_on(before, after, action, Waiting::ActiveWorkspace(UnstageTarget::Active))
            } else {
                goes_on(before, after, action, Waiting::ActiveWindow(ForActiveWindow::Stage))
            },
            ForActiveWindow::Stage => goes_on(
                before,
                after,
                action,
                Waiting::Windows(
                    ForWindows::Stage { window_id: active_id, subject: Subject::ActiveWindow },
                ),
            ),
            ForActiveWindow::Unstage { workspace_id } => goes_on(
                before,
                after,
                action,
                Waiting::Windows(
                    ForWindows::Unstage {
                        window_id: active_id,
                        workspace_id,
                        subject: Subject::ActiveWindow,
                    },
                ),
            ),
        },
        Err(failure) => replies(before, after, action, error_line(failure.text())),
    }
}

/// What a session does when it learns which workspace is active, or that
/// none could be found, which fails the request. The sets stay as they are.
pub open spec fn workspace_arrived(
    before: SessionView,
    sets: Membership,
    target: UnstageTarget,
    reply: Result<u64, EngineError>,
    after: SessionView,
    action: ActionView,
) -> bool {
    match reply {
        Ok(workspace_id) => match target {
            UnstageTarget::All => if sets.staged.is_empty() {
                replies(before, after, action, count_line("Unstaged"@, 0))
            } else {
                goes_on(
                    before,
                    after,
                    action,
                    Waiting::Windows(ForWindows::UnstageAll { workspace_id }),
                )
            },
            UnstageTarget::Active => goes_on(
                before,
                after,
                action,
                Waiting::ActiveWindow(ForActiveWindow::Unstage { workspace_id }),
            ),
            UnstageTarget::Window(window_id) => goes_on(
                before,
                after,
                action,
                Waiting::Windows(
                    ForWindows::Unstage { window_id, workspace_id, subject: Subject::Window },
                ),
            ),
            UnstageTarget::Nothing => replies(
                before,
                after,
                action,
                error_line(Malformed::InvalidUnstageCommand.text()),
            ),
        },
        Err(failure) => replies(before, after, action, error_line(failure.text())),
    }
}

/// The session notes the outcome of the move of its batch that is under
/// way. Where the batch is through already, nothing is noted.
pub open spec fn next_of_batch(before: SessionView, after: SessionView, moved: bool) -> bool {
    if before.next < before.commands.len() {
        &&& after.commands == before.commands
        &&& after.next == before.next + 1
        &&& after.reports == before.reports.push(
            MoveReport { window_id: before.commands[before.next as int].window_id, moved },
        )
    } else {
        &&& after.commands == before.commands
        &&& after.next == before.next
        &&& after.reports == before.reports
    }
}

/// What a session does when it learns how a move went.
pub open spec fn move_done(
    before: SessionView,
    sets: Membership,
    job: ForMove,
    moved: Result<(), String>,
    after: SessionView,
    sets_after: Membership,
    action: ActionView,
) -> bool {
    match job {
        ForMove::Stage { window_id, subject } => {
            let (changed, result) = sets.end_stage(window_id, moved);
            sets_after == changed && replies(
                before,
                after,
                action,
                done_line(result, staged_line(subject)),
            )
        },
        ForMove::Unstage { window_id, workspace_id, subject } => {
            let (changed, result) = sets.end_unstage(window_id, moved);
            sets_after == changed && replies(
                before,
                after,
                action,
                done_line(result, unstaged_line(subject)),
            )
        },
        ForMove::StageAll => {
            &&& next_of_batch(before, after, moved is Ok)
            &&& if after.next < after.commands.len() {
                &&& sets_after == sets
                &&& after.waiting == before.waiting
                &&& action == ActionView::Move(after.commands[after.next as int])
            } else {
                &&& sets_after == sets.stage_all(moved_windows(after.reports).to_set())
                &&& after.waiting == Waiting::Nothing
                &&& action == ActionView::Reply(
                    count_line("Staged"@, moved_windows(after.reports).len()),
                )
            }
        },
        ForMove::UnstageAll => {
            &&& next_of_batch(before, after, moved is Ok)
            &&& if after.next < after.commands.len() {
                &&& sets_after == sets
                &&& after.waiting == before.waiting
                &&& action == ActionView::Move(after.commands[after.next as int])
            } else {
                &&& sets_after == sets.unstage_all(moved_windows(after.reports).to_set())
                &&& after.waiting == Waiting::Nothing
                &&& action == ActionView::Reply(
                    count_line("Unstaged"@, moved_windows(after.reports).len()),
                )
            }
        },
        ForMove::Sync => {
            &&& next_of_batch(before, after, moved is Ok)
            &&& sets_after == sets
            &&& if after.next < after.commands.len() {
                &&& after.waiting == before.waiting
                &&& action == ActionView::Move(after.commands[after.next as int])
            } else {
                &&& after.waiting == Waiting::Nothing
                &&& action == ActionView::Idle
            }
        },
    }
}

/// One step of a session: what becomes of the session and of the sets, and
/// which action is handed out, when `event` comes in. An event that the
/// session is not waiting for changes nothing, and the action that is due is
/// handed out once more.
pub open spec fn advanced(
    before: SessionView,
    sets: Membership,
    event: Event,
    after: SessionView,
    sets_after: Membership,
    action: ActionView,
) -> bool {
    match (before.waiting, event) {
        (Waiting::Windows(job), Event::Windows(Ok(windows))) => windows_arrived(
            before,
            sets,
            job,
            windows@,
            after,
            sets_after,
            action,
        ),
        (Waiting::Windows(job), Event::Windows(Err(failure))) => windows_failed(
            before,
            sets,
            job,
            failure,
            after,
            sets_after,
            action,
        ),
        (Waiting::ActiveWindow(job), Event::ActiveWindow(reply)) => sets_after == sets
            && active_window_arrived(before, sets, job, reply, after, action),
        (Waiting::ActiveWorkspace(target), Event::ActiveWorkspace(reply)) => sets_after == sets
            && workspace_arrived(before, sets, target, reply, after, action),
        (Waiting::Move(job), Event::Moved(moved)) => move_done(
            before,
            sets,
            job,
            moved,
            after,
            sets_after,
            action,
        ),
        _ => after == before && sets_after == sets && action == awaited(before),
    }
}

/// What an `unstage` request names: every staged window, the focused
/// window, or one window, in this order of precedence.
pub open spec fn unstage_target(all: bool, active: bool, window_id: Option<u64>) -> UnstageTarget {
    if all {
        UnstageTarget::All
    } else if active {
        UnstageTarget::Active
    } else {
        match window_id {
            Some(id) => UnstageTarget::Window(id),
            None => UnstageTarget::Nothing,
        }
    }
}

/// The session starts by waiting for something.
pub open spec fn asks(session: SessionView, action: ActionView, waiting: Waiting) -> bool {
    session.waiting == waiting && action == awaited(session)
}

/// The session is over as soon as it starts, with a reply.
pub open spec fn ends(session: SessionView, action: ActionView, text: Seq<char>) -> bool {
    session.waiting == Waiting::Nothing && action == ActionView::Reply(text)
}

/// How the session for a request starts. Of the flags of a `stage` request,
/// `all` goes before `list`, `list` before `active`, and `active` before a
/// window; an `unstage` request first asks for the active workspace, whatever
/// it names.
pub open spec fn begun(
    sets: Membership,
    request: Request,
    session: SessionView,
    action: ActionView,
) -> bool {
    &&& session.commands == Seq::<MoveCommand>::empty()
    &&& session.next == 0
    &&& session.reports == Seq::<MoveReport>::empty()
    &&& match request {
        Request::Add { window_id } => asks(
            session,
            action,
            Waiting::Windows(ForWindows::Add { window_id }),
        ),
        Request::Remove { window_id } => asks(
            session,
            action,
            Waiting::Windows(ForWindows::Remove { window_id }),
        ),
        Request::List => asks(session, action, Waiting::Windows(ForWindows::List)),
        Request::ToggleActive => asks(
            session,
            action,
            Waiting::ActiveWindow(ForActiveWindow::Toggle),
        ),
        Request::Stage(args) => if args.all {
            if sets.sticky.is_empty() {
                ends(session, action, count_line("Staged"@, 0))
            } else {
                asks(session, action, Waiting::Windows(ForWindows::StageAll))
            }
        } else if args.list {
            exists|ids: Seq<u64>|
                #![trigger list_line(ids)]
                ids.no_duplicates() && ids.to_set() == sets.staged && ends(
                    session,
                    action,
                    list_line(ids),
                )
        } else if args.active {
            asks(session, action, Waiting::ActiveWindow(ForActiveWindow::Flip))
        } else {
            match args.window_id {
                Some(window_id) => asks(
                    session,
                    action,
                    Waiting::Windows(ForWindows::Stage { window_id, subject: Subject::Window }),
                ),
                None => ends(session, action, error_line(Malformed::InvalidStageCommand.text())),
            }
        },
        Request::Unstage(args) => asks(
            session,
            action,
            Waiting::ActiveWorkspace(unstage_target(args.all, args.active, args.window_id)),
        ),
    }
}

/// How the session for a request line starts: as the session for the
/// request that the line stands for, or, where it stands for none, with the
/// reply that says why.
pub open spec fn begun_from_line(
    sets: Membership,
    line: Seq<char>,
    session: SessionView,
    action: ActionView,
) -> bool {
    match parse_line(line) {
        Ok(request) => begun(sets, request, session, action),
        Err(refusal) => {
            &&& session.commands == Seq::<MoveCommand>::empty()
            &&& session.next == 0
            &&& session.reports == Seq::<MoveReport>::empty()
            &&& ends(session, action, error_line(refusal.text()))
        },
    }
}

/// The response that reports a failure.
fn failure_response(failure: &EngineError) -> (response: Response)
    ensures
        response_text(response) == error_line(failure.text()),
{
    let mut reason = one_line_text(failure.message().as_str());
    reason.append("\n");
    Response::Error(reason)
}

/// The response for an operation that reports a change or its absence.
fn flag_response(result: Result<bool, EngineError>, yes: &str, no: &str) -> (response: Response)
    ensures
        response_text(response) == flag_line(result, yes@, no@),
{
    match result {
        Ok(true) => Response::Success(String::from_str(yes)),
        Ok(false) => Response::Success(String::from_str(no)),
        Err(failure) => failure_response(&failure),
    }
}

/// The response for an operation that is done or has failed.
fn done_response(result: Result<(), EngineError>, done: &str) -> (response: Response)
    ensures
        response_text(response) == done_line(result, done@),
{
    match result {
        Ok(_) => Response::Success(String::from_str(done)),
        Err(failure) => failure_response(&failure),
    }
}

/// The response that lists windows.
fn list_response(ids: &Vec<u64>) -> (response: Response)
    ensures
        response_text(response) == list_line(ids@),
{
    let mut text = id_list_text(ids);
    text.append("\n");
    Response::Data(text)
}

/// The response that says how many windows a batch has moved.
fn count_response(done: &str, count: usize) -> (response: Response)
    ensures
        response_text(response) == count_line(done@, count as nat),
{
    let mut text = String::from_str(done);
    text.append(" ");
    text.append(decimal_text(count as u64).as_str());
    text.append(" windows\n");
    Response::Success(text)
}

/// The words for a window that was staged.
fn staged_text(subject: Subject) -> (text: &'static str)
    ensures
        text@ == staged_line(subject),
{
    match subject {
        Subject::Window => "Staged window\n",
        Subject::ActiveWindow => "Staged active window\n",
    }
}

/// The words for a window that was unstaged.
fn unstaged_text(subject: Subject) -> (text: &'static str)
    ensures
        text@ == unstaged_line(subject),
{
    match subject {
        Subject::Window => "Unstaged window\n",
        Subject::ActiveWindow => "Unstaged active window\n",
    }
}

impl Session {
    /// The session that serves a client's request, with its first action.
    pub fn for_request(logic: &BusinessLogic, request: &Request) -> (started: (Session, Action))
        ensures
            begun(logic@, *request, started.0@, started.1@),
    {
        let mut session = Session {
            waiting: Waiting::Nothing,
            commands: Vec::new(),
            next: 0,
            reports: Vec::new(),
        };
        let action = match request {
            Request::Add { window_id } => session.wait(
                Waiting::Windows(ForWindows::Add { window_id: *window_id }),
            ),
            Request::Remove { window_id } => session.wait(
                Waiting::Windows(ForWindows::Remove { window_id: *window_id }),
            ),
            Request::List => session.wait(Waiting::Windows(ForWindows::List)),
            Request::ToggleActive => session.wait(Waiting::ActiveWindow(ForActiveWindow::Toggle)),
            Request::Stage(args) => {
                if args.all {
                    if logic.no_sticky_windows() {
                        session.over(count_response("Staged", 0))
                    } else {
                        session.wait(Waiting::Windows(ForWindows::StageAll))
                    }
                } else if args.list {
                    let ids = logic.list_staged_windows();
                    let action = session.over(list_response(&ids));
                    assert(ends(session@, action@, list_line(ids@)));
                    action
                } else if args.active {
                    session.wait(Waiting::ActiveWindow(ForActiveWindow::Flip))
                } else {
                    match args.window_id {
                        Some(window_id) => session.wait(
                            Waiting::Windows(
                                ForWindows::Stage { window_id, subject: Subject::Window },
                            ),
                        ),
                        None => session.over(
                            failure_response(
                                &EngineError::ProtocolError(Malformed::InvalidStageCommand),
                            ),
                        ),
                    }
                }
            },
            Request::Unstage(args) => {
                let target = if args.all {
                    UnstageTarget::All
                } else if args.active {
                    UnstageTarget::Active
                } else {
                    match args.window_id {
                        Some(id) => UnstageTarget::Window(id),
                        None => UnstageTarget::Nothing,
                    }
                };
                session.wait(Waiting::ActiveWorkspace(target))
            },
        };
        (session, action)
    }

    /// The session that serves the request on a line that a client has sent,
    /// with its first action. A line that is no request is answered at once.
    pub fn for_line(logic: &BusinessLogic, line: &str) -> (started: (Session, Action))
        ensures
            begun_from_line(logic@, line@, started.0@, started.1@),
    {
        match parse_request(line) {
            Ok(request) => Session::for_request(logic, &request),
            Err(refusal) => {
                let mut session = Session {
                    waiting: Waiting::Nothing,
                    commands: Vec::new(),
                    next: 0,
                    reports: Vec::new(),
                };
                let action = session.over(failure_response(&refusal));
                (session, action)
            },
        }
    }

    /// The session that follows the activation of a workspace: it asks for
    /// the list of windows.
    pub fn for_activation(workspace_id: u64) -> (started: (Session, Action))
        ensures
            started.0@ == (SessionView {
                waiting: Waiting::Windows(ForWindows::Sync { workspace_id }),
                commands: Seq::empty(),
                next: 0,
                reports: Seq::empty(),
            }),
            started.1@ == ActionView::QueryWindows,
    {
        let session = Session {
            waiting: Waiting::Windows(ForWindows::Sync { workspace_id }),
            commands: Vec::new(),
            next: 0,
            reports: Vec::new(),
        };
        (session, Action::QueryWindows)
    }

    /// Whether the session is over.
    pub fn is_over(&self) -> (over: bool)
        ensures
            over == (self@.waiting == Waiting::Nothing),
    {
        match self.waiting {
            Waiting::Nothing => true,
            _ => false,
        }
    }

    /// Takes in how the last action went and hands out the next one.
    pub fn advance(&mut self, logic: &mut BusinessLogic, event: Event) -> (action: Action)
        ensures
            advanced(old(self)@, old(logic)@, event, final(self)@, final(logic)@, action@),
    {
        match (self.waiting, event) {
            (Waiting::Windows(job), Event::Windows(Ok(windows))) => self.on_windows(
                logic,
                job,
                &windows,
            ),
            (Waiting::Windows(job), Event::Windows(Err(failure))) => match job {
                ForWindows::Sync { workspace_id } => {
                    self.waiting = Waiting::Nothing;
                    let text = String::from_str("Failed to handle workspace activation: ");
                    Action::Log(text.concat(failure.message().as_str()))
                },
                _ => self.over(failure_response(&failure)),
            },
            (Waiting::ActiveWindow(job), Event::ActiveWindow(reply)) => self.on_active_window(
                logic,
                job,
                reply,
            ),
            (Waiting::ActiveWorkspace(target), Event::ActiveWorkspace(reply)) => self.on_workspace(
                logic,
                target,
                reply,
            ),
            (Waiting::Move(job), Event::Moved(moved)) => self.on_moved(logic, job, moved),
            _ => self.due(),
        }
    }

    /// The action that the session is waiting to hear of.
    fn due(&self) -> (action: Action)
        ensures
            action@ == awaited(self@),
    {
        match self.waiting {
            Waiting::Windows(_) => Action::QueryWindows,
            Waiting::ActiveWindow(_) => Action::QueryActiveWindow,
            Waiting::ActiveWorkspace(_) => Action::QueryActiveWorkspace,
            Waiting::Move(ForMove::Stage { window_id, subject }) => Action::Move(
                MoveCommand { window_id, destination: WorkspaceRef::Stage },
            ),
            Waiting::Move(ForMove::Unstage { window_id, workspace_id, subject }) => Action::Move(
                MoveCommand { window_id, destination: WorkspaceRef::Id(workspace_id) },
            ),
            Waiting::Move(_) => if self.next < self.commands.len() {
                Action::Move(self.commands[self.next])
            } else {
                Action::Idle
            },
            Waiting::Nothing => Action::Idle,
        }
    }

    /// Ends the session with a response.
    fn over(&mut self, response: Response) -> (action: Action)
        ensures
            replies(old(self)@, final(self)@, action@, response_text(response)),
    {
        self.waiting = Waiting::Nothing;
        Action::Reply(format_response(response))
    }

    /// Goes on to wait for something else.
    fn wait(&mut self, waiting: Waiting) -> (action: Action)
        ensures
            goes_on(old(self)@, final(self)@, action@, waiting),
    {
        self.waiting = waiting;
        self.due()
    }

    /// Takes up a batch of moves.
    fn take_up(
        &mut self,
        commands: Vec<MoveCommand>,
        then: ForMove,
        finish: Action,
    ) -> (action: Action)
        requires
            then == ForMove::StageAll || then == ForMove::UnstageAll || then == ForMove::Sync,
        ensures
            final(self)@.commands == commands@,
            takes_up(final(self)@, action@, then, finish@),
    {
        self.commands = commands;
        self.next = 0;
        self.reports = Vec::new();
        if self.commands.len() == 0 {
            self.waiting = Waiting::Nothing;
            finish
        } else {
            self.waiting = Waiting::Move(then);
            Action::Move(self.commands[0])
        }
    }

    /// Notes the outcome of a move of the batch.
    fn note(&mut self, moved: bool)
        ensures
            next_of_batch(old(self)@, final(self)@, moved),
            final(self)@.waiting == old(self)@.waiting,
    {
        if self.next < self.commands.len() {
            self.reports.push(MoveReport { window_id: self.commands[self.next].window_id, moved });
            self.next += 1;
        }
    }

    fn on_windows(
        &mut self,
        logic: &mut BusinessLogic,
        job: ForWindows,
        windows: &HashSet<u64>,
    ) -> (action: Action)
        ensures
            windows_arrived(
                old(self)@,
                old(logic)@,
                job,
                windows@,
                final(self)@,
                final(logic)@,
                action@,
            ),
    {
        match job {
            ForWindows::Add { window_id } => {
                let result = logic.add_sticky_window(windows, window_id);
                self.over(flag_response(result, "Added\n", "Already in sticky list\n"))
            },
            ForWindows::Remove { window_id } => {
                let result = logic.remove_sticky_window(windows, window_id);
                self.over(flag_response(result, "Removed\n", "Not in sticky list\n"))
            },
            ForWindows::List => {
                let ids = logic.list_sticky_windows(windows);
                let action = self.over(list_response(&ids));
                assert(replies(old(self)@, self@, action@, list_line(ids@)));
                action
            },
            ForWindows::Toggle { active_id } => {
                let result = logic.toggle_active_window(active_id, windows);
                self.over(
                    flag_response(
                        result,
                        "Added active window to sticky\n",
                        "Removed active window from sticky\n",
                    ),
                )
            },
            ForWindows::Stage { window_id, subject } => {
                let result = match subject {
                    Subject::Window => logic.stage_window(windows, window_id),
                    Subject::ActiveWindow => logic.stage_active_window(window_id, windows),
                };
                match result {
                    Ok(_) => self.wait(Waiting::Move(ForMove::Stage { window_id, subject })),
                    Err(refusal) => self.over(failure_response(&refusal)),
                }
            },
            ForWindows::Unstage { window_id, workspace_id, subject } => {
                let result = match subject {
                    Subject::Window => logic.unstage_window(windows, window_id, workspace_id),
                    Subject::ActiveWindow => logic.unstage_active_window(
                        window_id,
                        windows,
                        workspace_id,
                    ),
                };
                match result {
                    Ok(_) => self.wait(
                        Waiting::Move(ForMove::Unstage { window_id, workspace_id, subject }),
                    ),
                    Err(refusal) => self.over(failure_response(&refusal)),
                }
            },
            ForWindows::StageAll => {
                let commands = logic.stage_all_windows(windows);
                let finish = Action::Reply(format_response(count_response("Staged", 0)));
                self.take_up(commands, ForMove::StageAll, finish)
            },
            ForWindows::UnstageAll { workspace_id } => {
                let commands = logic.unstage_all_windows(windows, workspace_id);
                let finish = Action::Reply(format_response(count_response("Unstaged", 0)));
                self.take_up(commands, ForMove::UnstageAll, finish)
            },
            ForWindows::Sync { workspace_id } => {
                let commands = logic.handle_workspace_activation(windows, workspace_id);
                self.take_up(commands, ForMove::Sync, Action::Idle)
            },
        }
    }

    fn on_active_window(
        &mut self,
        logic: &BusinessLogic,
        job: ForActiveWindow,
        reply: Result<u64, EngineError>,
    ) -> (action: Action)
        ensures
            active_window_arrived(old(self)@, logic@, job, reply, final(self)@, action@),
    {
        match reply {
            Ok(active_id) => match job {
                ForActiveWindow::Toggle => self.wait(
                    Waiting::Windows(ForWindows::Toggle { active_id }),
                ),
                ForActiveWindow::Flip => if logic.is_window_staged(active_id) {
                    self.wait(Waiting::ActiveWorkspace(UnstageTarget::Active))
                } else {
                    self.wait(Waiting::ActiveWindow(ForActiveWindow::Stage))
                },
                ForActiveWindow::Stage => self.wait(
                    Waiting::Windows(
                        ForWindows::Stage { window_id: active_id, subject: Subject::ActiveWindow },
                    ),
                ),
                ForActiveWindow::Unstage { workspace_id } => self.wait(
                    Waiting::Windows(
                        ForWindows::Unstage {
                            window_id: active_id,
                            workspace_id,
                            subject: Subject::ActiveWindow,
                        },
                    ),
                ),
            },
            Err(failure) => self.over(failure_response(&failure)),
        }
    }

    fn on_workspace(
        &mut self,
        logic: &BusinessLogic,
        target: UnstageTarget,
        reply: Result<u64, EngineError>,
    ) -> (action: Action)
        ensures
            workspace_arrived(old(self)@, logic@, target, reply, final(self)@, action@),
    {
        match reply {
            Ok(workspace_id) => match target {
                UnstageTarget::All => if logic.no_staged_windows() {
                    self.over(count_response("Unstaged", 0))
                } else {
                    self.wait(Waiting::Windows(ForWindows::UnstageAll { workspace_id }))
                },
                UnstageTarget::Active => self.wait(
                    Waiting::ActiveWindow(ForActiveWindow::Unstage { workspace_id }),
                ),
                UnstageTarget::Window(window_id) => self.wait(
                    Waiting::Windows(
                        ForWindows::Unstage { window_id, workspace_id, subject: Subject::Window },
                    ),
                ),
                UnstageTarget::Nothing => self.over(
                    failure_response(&EngineError::ProtocolError(Malformed::InvalidUnstageCommand)),
                ),
            },
            Err(failure) => self.over(failure_response(&failure)),
        }
    }

    fn on_moved(
        &mut self,
        logic: &mut BusinessLogic,
        job: ForMove,
        moved: Result<(), String>,
    ) -> (action: Action)
        requires
            old(self)@.waiting == Waiting::Move(job),
        ensures
            move_done(
                old(self)@,
                old(logic)@,
                job,
                moved,
                final(self)@,
                final(logic)@,
                action@,
            ),
    {
        match job {
            ForMove::Stage { window_id, subject } => {
                let result = logic.complete_stage(window_id, moved);
                self.over(done_response(result, staged_text(subject)))
            },
            ForMove::Unstage { window_id, workspace_id, subject } => {
                let result = logic.complete_unstage(window_id, moved);
                self.over(done_response(result, unstaged_text(subject)))
            },
            ForMove::StageAll => {
                self.note(moved.is_ok());
                if self.next < self.commands.len() {
                    Action::Move(self.commands[self.next])
                } else {
                    let count = logic.complete_stage_all(&self.reports);
                    self.waiting = Waiting::Nothing;
                    Action::Reply(format_response(count_response("Staged", count)))
                }
            },
            ForMove::UnstageAll => {
                self.note(moved.is_ok());
                if self.next < self.commands.len() {
                    Action::Move(self.commands[self.next])
                } else {
                    let count = logic.complete_unstage_all(&self.reports);
                    self.waiting = Waiting::Nothing;
                    Action::Reply(format_response(count_response("Unstaged", count)))
                }
            },
            ForMove::Sync => {
                self.note(moved.is_ok());
                if self.next < self.commands.len() {
                    Action::Move(self.commands[self.next])
                } else {
                    self.waiting = Waiting::Nothing;
                    Action::Idle
                }
            },
        }
    }
}

} // verus!
