use nsticky::business::{BusinessLogic, MoveCommand, WorkspaceRef};
use nsticky::daemon::{Action, Event, Session};
use nsticky::error::EngineError;
use nsticky::protocol::{parse_request, Request, StageArgs, UnstageArgs};
use std::collections::HashSet;

/// A compositor that answers from fixed values and records what it was asked.
struct Compositor {
    windows: Result<Vec<u64>, String>,
    active_window: Result<u64, String>,
    active_workspace: Result<u64, String>,
    refuses_to_move: Vec<u64>,
    asked: Vec<&'static str>,
    moves: Vec<MoveCommand>,
    logged: Vec<String>,
}

impl Compositor {
    fn with_windows(windows: &[u64]) -> Compositor {
        Compositor {
            windows: Ok(windows.to_vec()),
            active_window: Err("no window has the focus".to_string()),
            active_workspace: Err("no workspace is active".to_string()),
            refuses_to_move: Vec::new(),
            asked: Vec::new(),
            moves: Vec::new(),
            logged: Vec::new(),
        }
    }

    fn focused(mut self, window: u64) -> Compositor {
        self.active_window = Ok(window);
        self
    }

    fn on_workspace(mut self, workspace: u64) -> Compositor {
        self.active_workspace = Ok(workspace);
        self
    }

    fn refusing(mut self, windows: &[u64]) -> Compositor {
        self.refuses_to_move = windows.to_vec();
        self
    }

    fn without_windows(mut self, reason: &str) -> Compositor {
        self.windows = Err(reason.to_string());
        self
    }

    fn perform(&mut self, action: &Action) -> Event {
        match action {
            Action::QueryWindows => {
                self.asked.push("windows");
                Event::Windows(match &self.windows {
                    Ok(windows) => Ok(windows.iter().copied().collect()),
                    Err(reason) => Err(EngineError::RegistryError(reason.clone())),
                })
            }
            Action::QueryActiveWindow => {
                self.asked.push("active window");
                Event::ActiveWindow(match &self.active_window {
                    Ok(window) => Ok(*window),
                    Err(reason) => Err(EngineError::ActiveWindowUnavailable(reason.clone())),
                })
            }
            Action::QueryActiveWorkspace => {
                self.asked.push("active workspace");
                Event::ActiveWorkspace(match &self.active_workspace {
                    Ok(workspace) => Ok(*workspace),
                    Err(reason) => Err(EngineError::ActiveWindowUnavailable(reason.clone())),
                })
            }
            Action::Move(command) => {
                self.asked.push("move");
                self.moves.push(*command);
                Event::Moved(if self.refuses_to_move.contains(&command.window_id) {
                    Err(format!("window {} does not move", command.window_id))
                } else {
                    Ok(())
                })
            }
            Action::Reply(_) | Action::Log(_) | Action::Idle => unreachable!(),
        }
    }
}

/// Runs a session to its end and returns the reply, if there is one.
fn run(logic: &mut BusinessLogic, started: (Session, Action), compositor: &mut Compositor) -> Option<String> {
    let (mut session, mut action) = started;
    for _ in 0..1000 {
        match action {
            Action::Reply(text) => {
                assert!(session.is_over());
                return Some(text);
            }
            Action::Log(text) => {
                assert!(session.is_over());
                compositor.logged.push(text);
                return None;
            }
            Action::Idle => {
                assert!(session.is_over());
                return None;
            }
            _ => {
                assert!(!session.is_over());
                let event = compositor.perform(&action);
                action = session.advance(logic, event);
            }
        }
    }
    panic!("the session does not end");
}

fn serve(logic: &mut BusinessLogic, line: &str, compositor: &mut Compositor) -> String {
    let request = parse_request(line).unwrap();
    let started = Session::for_request(logic, &request);
    run(logic, started, compositor).unwrap()
}

fn store(sticky: &[u64], staged: &[u64]) -> BusinessLogic {
    BusinessLogic::new(sticky.iter().copied().collect(), staged.iter().copied().collect())
}

fn sticky(logic: &BusinessLogic) -> Vec<u64> {
    let everything: HashSet<u64> = (0..=1000).collect();
    let mut ids = logic.list_sticky_windows(&everything);
    ids.sort();
    ids
}

fn staged(logic: &BusinessLogic) -> Vec<u64> {
    let mut ids = logic.list_staged_windows();
    ids.sort();
    ids
}

fn to_stage(window_id: u64) -> MoveCommand {
    MoveCommand { window_id, destination: WorkspaceRef::Stage }
}

fn to_workspace(window_id: u64, workspace: u64) -> MoveCommand {
    MoveCommand { window_id, destination: WorkspaceRef::Id(workspace) }
}

#[test]
fn add_is_answered() {
    let mut logic = store(&[], &[]);
    let mut compositor = Compositor::with_windows(&[1, 2]);
    assert_eq!(serve(&mut logic, "add 1", &mut compositor), "Added\n");
    assert_eq!(serve(&mut logic, "add 1", &mut compositor), "Already in sticky list\n");
    assert_eq!(serve(&mut logic, "add 999", &mut compositor), "Error: Window not found in Niri\n");
    assert_eq!(sticky(&logic), vec![1]);
    assert_eq!(compositor.asked, vec!["windows", "windows", "windows"]);
}

#[test]
fn remove_is_answered() {
    let mut logic = store(&[1], &[]);
    let mut compositor = Compositor::with_windows(&[1, 2]);
    assert_eq!(serve(&mut logic, "remove 1", &mut compositor), "Removed\n");
    assert_eq!(serve(&mut logic, "remove 1", &mut compositor), "Not in sticky list\n");
    assert_eq!(serve(&mut logic, "remove 3", &mut compositor), "Error: Window not found in Niri\n");
    assert_eq!(sticky(&logic), Vec::<u64>::new());
}

#[test]
fn list_is_answered_with_the_windows_that_still_exist() {
    let mut logic = store(&[5, 9], &[]);
    let mut compositor = Compositor::with_windows(&[5]);
    assert_eq!(serve(&mut logic, "list", &mut compositor), "[5]\n");
    assert_eq!(sticky(&logic), vec![5, 9]);
    let mut nothing = Compositor::with_windows(&[]);
    assert_eq!(serve(&mut logic, "list", &mut nothing), "[]\n");
    let mut both = Compositor::with_windows(&[5, 9]);
    let reply = serve(&mut logic, "list", &mut both);
    assert!(reply == "[5, 9]\n" || reply == "[9, 5]\n", "{}", reply);
}

#[test]
fn a_failed_query_for_the_windows_fails_the_request_and_changes_nothing() {
    let mut logic = store(&[1], &[2]);
    for line in ["add 3", "remove 1", "list", "stage 1", "stage --all"] {
        let mut compositor = Compositor::with_windows(&[]).without_windows("niri is gone");
        assert_eq!(serve(&mut logic, line, &mut compositor), "Error: niri is gone\n", "{}", line);
        assert!(compositor.moves.is_empty());
    }
    for line in ["unstage 2", "unstage --all"] {
        let mut compositor = Compositor::with_windows(&[]).without_windows("niri is gone").on_workspace(1);
        assert_eq!(serve(&mut logic, line, &mut compositor), "Error: niri is gone\n", "{}", line);
    }
    assert_eq!(sticky(&logic), vec![1]);
    assert_eq!(staged(&logic), vec![2]);
}

#[test]
fn toggle_active_is_answered() {
    let mut logic = store(&[], &[]);
    let mut compositor = Compositor::with_windows(&[4]).focused(4);
    assert_eq!(serve(&mut logic, "toggle_active", &mut compositor), "Added active window to sticky\n");
    assert_eq!(sticky(&logic), vec![4]);
    assert_eq!(serve(&mut logic, "toggle_active", &mut compositor), "Removed active window from sticky\n");
    assert_eq!(sticky(&logic), Vec::<u64>::new());
    assert_eq!(compositor.asked, vec!["active window", "windows", "active window", "windows"]);
}

#[test]
fn toggle_active_without_a_focused_window_fails() {
    let mut logic = store(&[1], &[]);
    let mut compositor = Compositor::with_windows(&[1]);
    assert_eq!(serve(&mut logic, "toggle_active", &mut compositor), "Error: no window has the focus\n");
    assert_eq!(compositor.asked, vec!["active window"]);
    let mut stale = Compositor::with_windows(&[1]).focused(2);
    assert_eq!(serve(&mut logic, "toggle_active", &mut stale), "Error: Active window not found in Niri\n");
    assert_eq!(sticky(&logic), vec![1]);
}

#[test]
fn stage_moves_the_window_and_then_records_it() {
    let mut logic = store(&[1, 2], &[]);
    let mut compositor = Compositor::with_windows(&[1, 2]);
    assert_eq!(serve(&mut logic, "stage 2", &mut compositor), "Staged window\n");
    assert_eq!(compositor.moves, vec![to_stage(2)]);
    assert_eq!(compositor.asked, vec!["windows", "move"]);
    assert_eq!(sticky(&logic), vec![1]);
    assert_eq!(staged(&logic), vec![2]);
}

#[test]
fn stage_that_cannot_move_the_window_rolls_back() {
    let mut logic = store(&[1, 2], &[]);
    let mut compositor = Compositor::with_windows(&[1, 2]).refusing(&[2]);
    assert_eq!(serve(&mut logic, "stage 2", &mut compositor), "Error: window 2 does not move\n");
    assert_eq!(compositor.moves, vec![to_stage(2)]);
    assert_eq!(sticky(&logic), vec![1, 2]);
    assert_eq!(staged(&logic), Vec::<u64>::new());
}

#[test]
fn stage_is_refused_before_any_move() {
    let mut logic = store(&[1], &[2]);
    let mut compositor = Compositor::with_windows(&[1, 2]);
    assert_eq!(serve(&mut logic, "stage 2", &mut compositor), "Error: Window is not sticky, cannot stage\n");
    assert_eq!(serve(&mut logic, "stage 3", &mut compositor), "Error: Window not found in Niri\n");
    assert!(compositor.moves.is_empty());
    assert_eq!(sticky(&logic), vec![1]);
    assert_eq!(staged(&logic), vec![2]);
}

#[test]
fn stage_list_is_answered_without_asking_the_compositor() {
    let mut logic = store(&[1], &[7]);
    let mut compositor = Compositor::with_windows(&[]).without_windows("niri is gone");
    assert_eq!(serve(&mut logic, "stage --list", &mut compositor), "[7]\n");
    assert!(compositor.asked.is_empty());
    let mut empty = store(&[1], &[]);
    assert_eq!(serve(&mut empty, "stage --list", &mut compositor), "[]\n");
}

#[test]
fn stage_all_request_is_best_effort() {
    let mut logic = store(&[1, 2, 3], &[]);
    let mut compositor = Compositor::with_windows(&[1, 2, 3]).refusing(&[2]);
    assert_eq!(serve(&mut logic, "stage --all", &mut compositor), "Staged 2 windows\n");
    assert_eq!(sticky(&logic), vec![2]);
    assert_eq!(staged(&logic), vec![1, 3]);
    let mut moves = compositor.moves.clone();
    moves.sort_by_key(|command| command.window_id);
    assert_eq!(moves, vec![to_stage(1), to_stage(2), to_stage(3)]);
}

#[test]
fn stage_all_of_nothing_does_not_ask_the_compositor() {
    let mut logic = store(&[], &[5]);
    let mut compositor = Compositor::with_windows(&[]).without_windows("niri is gone");
    assert_eq!(serve(&mut logic, "stage --all", &mut compositor), "Staged 0 windows\n");
    assert!(compositor.asked.is_empty());
}

#[test]
fn stage_all_of_vanished_windows_stages_none() {
    let mut logic = store(&[1, 2], &[]);
    let mut compositor = Compositor::with_windows(&[3]);
    assert_eq!(serve(&mut logic, "stage --all", &mut compositor), "Staged 0 windows\n");
    assert_eq!(compositor.asked, vec!["windows"]);
    assert_eq!(sticky(&logic), vec![1, 2]);
}

#[test]
fn stage_all_counts_in_decimal() {
    let ids: Vec<u64> = (1..=12).collect();
    let mut logic = store(&ids, &[]);
    let mut compositor = Compositor::with_windows(&ids);
    assert_eq!(serve(&mut logic, "stage --all", &mut compositor), "Staged 12 windows\n");
    assert_eq!(staged(&logic), ids);
}

#[test]
fn stage_active_stages_a_focused_window_that_is_not_staged() {
    let mut logic = store(&[4], &[]);
    let mut compositor = Compositor::with_windows(&[4]).focused(4).on_workspace(2);
    assert_eq!(serve(&mut logic, "stage --active", &mut compositor), "Staged active window\n");
    assert_eq!(compositor.asked, vec!["active window", "active window", "windows", "move"]);
    assert_eq!(compositor.moves, vec![to_stage(4)]);
    assert_eq!(staged(&logic), vec![4]);
    assert_eq!(sticky(&logic), Vec::<u64>::new());
}

#[test]
fn stage_active_unstages_a_focused_window_that_is_staged() {
    let mut logic = store(&[], &[4]);
    let mut compositor = Compositor::with_windows(&[4]).focused(4).on_workspace(2);
    assert_eq!(serve(&mut logic, "stage --active", &mut compositor), "Unstaged active window\n");
    assert_eq!(
        compositor.asked,
        vec!["active window", "active workspace", "active window", "windows", "move"]
    );
    assert_eq!(compositor.moves, vec![to_workspace(4, 2)]);
    assert_eq!(sticky(&logic), vec![4]);
    assert_eq!(staged(&logic), Vec::<u64>::new());
}

#[test]
fn stage_active_twice_comes_back() {
    let mut logic = store(&[4], &[]);
    let mut compositor = Compositor::with_windows(&[4]).focused(4).on_workspace(2);
    assert_eq!(serve(&mut logic, "stage --active", &mut compositor), "Staged active window\n");
    assert_eq!(serve(&mut logic, "stage --active", &mut compositor), "Unstaged active window\n");
    assert_eq!(sticky(&logic), vec![4]);
    assert_eq!(staged(&logic), Vec::<u64>::new());
}

#[test]
fn stage_active_without_focus_or_workspace_fails() {
    let mut logic = store(&[], &[4]);
    let mut nothing = Compositor::with_windows(&[4]);
    assert_eq!(serve(&mut logic, "stage --active", &mut nothing), "Error: no window has the focus\n");
    assert_eq!(nothing.asked, vec!["active window"]);
    let mut no_workspace = Compositor::with_windows(&[4]).focused(4);
    assert_eq!(serve(&mut logic, "stage --active", &mut no_workspace), "Error: no workspace is active\n");
    assert_eq!(no_workspace.asked, vec!["active window", "active workspace"]);
    assert!(nothing.moves.is_empty() && no_workspace.moves.is_empty());
    assert_eq!(staged(&logic), vec![4]);
    assert_eq!(sticky(&logic), Vec::<u64>::new());
}

#[test]
fn stage_active_of_a_window_that_is_not_sticky_is_refused() {
    let mut logic = store(&[1], &[]);
    let mut compositor = Compositor::with_windows(&[1, 4]).focused(4);
    assert_eq!(
        serve(&mut logic, "stage --active", &mut compositor),
        "Error: Window is not sticky, cannot stage\n"
    );
    let mut stale = Compositor::with_windows(&[1]).focused(4);
    assert_eq!(serve(&mut logic, "stage --active", &mut stale), "Error: Active window not found in Niri\n");
}

#[test]
fn unstage_moves_the_window_to_the_active_workspace() {
    let mut logic = store(&[], &[3]);
    let mut compositor = Compositor::with_windows(&[3]).on_workspace(8);
    assert_eq!(serve(&mut logic, "unstage 3", &mut compositor), "Unstaged window\n");
    assert_eq!(compositor.asked, vec!["active workspace", "windows", "move"]);
    assert_eq!(compositor.moves, vec![to_workspace(3, 8)]);
    assert_eq!(sticky(&logic), vec![3]);
    assert_eq!(staged(&logic), Vec::<u64>::new());
}

#[test]
fn unstage_that_cannot_move_the_window_rolls_back() {
    let mut logic = store(&[], &[3]);
    let mut compositor = Compositor::with_windows(&[3]).on_workspace(8).refusing(&[3]);
    assert_eq!(serve(&mut logic, "unstage 3", &mut compositor), "Error: window 3 does not move\n");
    assert_eq!(sticky(&logic), Vec::<u64>::new());
    assert_eq!(staged(&logic), vec![3]);
}

#[test]
fn unstage_is_refused_before_any_move() {
    let mut logic = store(&[1], &[3]);
    let mut compositor = Compositor::with_windows(&[1, 3]).on_workspace(8).focused(1);
    assert_eq!(serve(&mut logic, "unstage 1", &mut compositor), "Error: Window is not staged\n");
    assert_eq!(serve(&mut logic, "unstage 5", &mut compositor), "Error: Window not found in Niri\n");
    assert_eq!(serve(&mut logic, "unstage --active", &mut compositor), "Error: Active window is not staged\n");
    assert!(compositor.moves.is_empty());
}

#[test]
fn unstage_without_an_active_workspace_fails() {
    let mut logic = store(&[1], &[3]);
    for line in ["unstage 3", "unstage --all", "unstage --active"] {
        let mut compositor = Compositor::with_windows(&[3]).focused(3);
        assert_eq!(serve(&mut logic, line, &mut compositor), "Error: no workspace is active\n");
        assert_eq!(compositor.asked, vec!["active workspace"]);
        assert!(compositor.moves.is_empty());
    }
    assert_eq!(sticky(&logic), vec![1]);
    assert_eq!(staged(&logic), vec![3]);
}

#[test]
fn unstage_active_unstages_the_focused_window() {
    let mut logic = store(&[], &[3]);
    let mut compositor = Compositor::with_windows(&[3]).focused(3).on_workspace(8);
    assert_eq!(serve(&mut logic, "unstage --active", &mut compositor), "Unstaged active window\n");
    assert_eq!(compositor.asked, vec!["active workspace", "active window", "windows", "move"]);
    assert_eq!(compositor.moves, vec![to_workspace(3, 8)]);
    assert_eq!(sticky(&logic), vec![3]);
}

#[test]
fn unstage_active_without_a_focused_window_fails() {
    let mut logic = store(&[], &[3]);
    let mut compositor = Compositor::with_windows(&[3]).on_workspace(8);
    assert_eq!(serve(&mut logic, "unstage --active", &mut compositor), "Error: no window has the focus\n");
    assert_eq!(staged(&logic), vec![3]);
}

#[test]
fn unstage_all_request_is_best_effort() {
    let mut logic = store(&[9], &[1, 2, 3]);
    let mut compositor = Compositor::with_windows(&[1, 2, 3, 9]).on_workspace(5).refusing(&[1, 3]);
    assert_eq!(serve(&mut logic, "unstage --all", &mut compositor), "Unstaged 1 windows\n");
    assert_eq!(sticky(&logic), vec![2, 9]);
    assert_eq!(staged(&logic), vec![1, 3]);
    let mut moves = compositor.moves.clone();
    moves.sort_by_key(|command| command.window_id);
    assert_eq!(moves, vec![to_workspace(1, 5), to_workspace(2, 5), to_workspace(3, 5)]);
}

#[test]
fn unstage_all_of_nothing_asks_only_for_the_workspace() {
    let mut logic = store(&[1], &[]);
    let mut compositor = Compositor::with_windows(&[1]).on_workspace(5);
    assert_eq!(serve(&mut logic, "unstage --all", &mut compositor), "Unstaged 0 windows\n");
    assert_eq!(compositor.asked, vec!["active workspace"]);
}

#[test]
fn requests_that_name_nothing_are_refused() {
    let mut logic = store(&[1], &[2]);
    let mut compositor = Compositor::with_windows(&[1, 2]).on_workspace(5);
    let stage = Request::Stage(StageArgs { window_id: None, all: false, list: false, active: false });
    let started = Session::for_request(&logic, &stage);
    assert_eq!(run(&mut logic, started, &mut compositor), Some("Error: Invalid stage command\n".to_string()));
    let unstage = Request::Unstage(UnstageArgs { window_id: None, all: false, active: false });
    let started = Session::for_request(&logic, &unstage);
    assert_eq!(run(&mut logic, started, &mut compositor), Some("Error: Invalid unstage command\n".to_string()));
    assert_eq!(compositor.asked, vec!["active workspace"]);
}

#[test]
fn flags_go_before_a_window() {
    let mut logic = store(&[1, 2], &[7]);
    let mut compositor = Compositor::with_windows(&[1, 2, 7]).on_workspace(5).focused(7);
    let list = Request::Stage(StageArgs { window_id: Some(1), all: false, list: true, active: true });
    let started = Session::for_request(&logic, &list);
    assert_eq!(run(&mut logic, started, &mut compositor), Some("[7]\n".to_string()));
    let all = Request::Stage(StageArgs { window_id: Some(1), all: true, list: true, active: true });
    let started = Session::for_request(&logic, &all);
    assert_eq!(run(&mut logic, started, &mut compositor), Some("Staged 2 windows\n".to_string()));
    let active = Request::Unstage(UnstageArgs { window_id: Some(1), all: false, active: true });
    let started = Session::for_request(&logic, &active);
    assert_eq!(run(&mut logic, started, &mut compositor), Some("Unstaged active window\n".to_string()));
    let all = Request::Unstage(UnstageArgs { window_id: Some(1), all: true, active: true });
    let started = Session::for_request(&logic, &all);
    assert_eq!(run(&mut logic, started, &mut compositor), Some("Unstaged 2 windows\n".to_string()));
}

#[test]
fn workspace_activation_prunes_and_moves_the_sticky_windows() {
    let mut logic = store(&[5, 9], &[]);
    let mut compositor = Compositor::with_windows(&[5]);
    assert_eq!(run(&mut logic, Session::for_activation(3), &mut compositor), None);
    assert_eq!(compositor.asked, vec!["windows", "move"]);
    assert_eq!(compositor.moves, vec![to_workspace(5, 3)]);
    assert_eq!(sticky(&logic), vec![5]);
}

#[test]
fn workspace_activation_goes_on_when_a_move_fails() {
    let mut logic = store(&[1, 2, 3], &[4]);
    let mut compositor = Compositor::with_windows(&[1, 2, 3, 4]).refusing(&[1, 2]);
    assert_eq!(run(&mut logic, Session::for_activation(6), &mut compositor), None);
    let mut moves = compositor.moves.clone();
    moves.sort_by_key(|command| command.window_id);
    assert_eq!(moves, vec![to_workspace(1, 6), to_workspace(2, 6), to_workspace(3, 6)]);
    assert_eq!(sticky(&logic), vec![1, 2, 3]);
    assert_eq!(staged(&logic), vec![4]);
}

#[test]
fn workspace_activation_without_a_list_of_windows_is_given_up() {
    let mut logic = store(&[1, 2], &[4]);
    let mut compositor = Compositor::with_windows(&[]).without_windows("niri is gone");
    assert_eq!(run(&mut logic, Session::for_activation(6), &mut compositor), None);
    assert_eq!(compositor.asked, vec!["windows"]);
    assert!(compositor.moves.is_empty());
    assert_eq!(compositor.logged, vec!["Failed to handle workspace activation: niri is gone".to_string()]);
    assert_eq!(sticky(&logic), vec![1, 2]);
    assert_eq!(staged(&logic), vec![4]);
}

#[test]
fn workspace_activation_with_an_empty_list_of_windows_moves_nothing() {
    let mut logic = store(&[1, 2], &[4]);
    let mut compositor = Compositor::with_windows(&[]);
    assert_eq!(run(&mut logic, Session::for_activation(6), &mut compositor), None);
    assert!(compositor.moves.is_empty());
    assert!(compositor.logged.is_empty());
    assert_eq!(sticky(&logic), Vec::<u64>::new());
    assert_eq!(staged(&logic), vec![4]);
}

#[test]
fn a_staged_window_is_not_made_sticky_by_a_request() {
    let mut logic = store(&[1], &[5]);
    let mut compositor = Compositor::with_windows(&[1, 5]).focused(5);
    assert_eq!(serve(&mut logic, "add 5", &mut compositor), "Error: Window is staged, cannot make sticky\n");
    assert_eq!(
        serve(&mut logic, "toggle_active", &mut compositor),
        "Error: Active window is staged, cannot make sticky\n"
    );
    assert_eq!(sticky(&logic), vec![1]);
    assert_eq!(staged(&logic), vec![5]);
}

#[test]
fn a_reason_of_several_lines_is_answered_on_one_line() {
    let mut logic = store(&[1], &[2]);
    let mut compositor = Compositor::with_windows(&[]).without_windows("niri is gone\nand will not come back\n");
    assert_eq!(
        serve(&mut logic, "add 1", &mut compositor),
        "Error: niri is gone and will not come back \n"
    );
    let started = Session::for_request(&logic, &Request::Stage(StageArgs {
        window_id: Some(1),
        all: false,
        list: false,
        active: false,
    }));
    let (mut session, _) = started;
    let windows: HashSet<u64> = [1].into_iter().collect();
    assert_eq!(session.advance(&mut logic, Event::Windows(Ok(windows))), Action::Move(to_stage(1)));
    assert_eq!(
        session.advance(&mut logic, Event::Moved(Err("first\nsecond".to_string()))),
        Action::Reply("Error: first second\n".to_string())
    );
    assert_eq!(sticky(&logic), vec![1]);
}

#[test]
fn every_reply_is_one_line() {
    let lines = [
        "add 1", "add 9", "add 5", "remove 1", "remove 2", "list", "toggle_active", "stage 1",
        "stage 2", "stage --all", "stage --list", "stage --active", "unstage 5", "unstage 1",
        "unstage --all", "unstage --active", "nonsense", "add", "stage",
    ];
    for line in lines {
        for refusing in [false, true] {
            let mut logic = store(&[1, 2], &[5]);
            let mut compositor = Compositor::with_windows(&[1, 2, 5]).focused(2).on_workspace(3);
            if refusing {
                compositor = compositor.refusing(&[1, 2, 5]);
            }
            let started = Session::for_line(&logic, line);
            let reply = run(&mut logic, started, &mut compositor).unwrap();
            assert!(reply.ends_with('\n'), "{}", line);
            assert_eq!(reply.matches('\n').count(), 1, "{}", line);
        }
    }
}

#[test]
fn an_answer_that_was_not_asked_for_changes_nothing() {
    let mut logic = store(&[1], &[]);
    let (mut session, action) = Session::for_request(&logic, &Request::Add { window_id: 2 });
    assert_eq!(action, Action::QueryWindows);
    assert_eq!(session.advance(&mut logic, Event::Moved(Ok(()))), Action::QueryWindows);
    assert_eq!(session.advance(&mut logic, Event::ActiveWindow(Ok(2))), Action::QueryWindows);
    assert_eq!(session.advance(&mut logic, Event::ActiveWorkspace(Ok(2))), Action::QueryWindows);
    assert_eq!(sticky(&logic), vec![1]);
    let windows: HashSet<u64> = [1, 2].into_iter().collect();
    assert_eq!(session.advance(&mut logic, Event::Windows(Ok(windows.clone()))), Action::Reply("Added\n".to_string()));
    assert_eq!(session.advance(&mut logic, Event::Windows(Ok(windows))), Action::Idle);
    assert_eq!(sticky(&logic), vec![1, 2]);
}

#[test]
fn a_move_that_is_under_way_is_handed_out_again() {
    let mut logic = store(&[1], &[]);
    let registry: HashSet<u64> = [1].into_iter().collect();
    let request = Request::Stage(StageArgs { window_id: Some(1), all: false, list: false, active: false });
    let (mut session, _) = Session::for_request(&logic, &request);
    assert_eq!(session.advance(&mut logic, Event::Windows(Ok(registry.clone()))), Action::Move(to_stage(1)));
    assert_eq!(session.advance(&mut logic, Event::Windows(Ok(registry))), Action::Move(to_stage(1)));
    assert_eq!(session.advance(&mut logic, Event::Moved(Ok(()))), Action::Reply("Staged window\n".to_string()));
    assert_eq!(staged(&logic), vec![1]);
}

#[test]
fn a_line_that_is_no_request_is_answered_at_once() {
    let mut logic = store(&[1], &[]);
    let mut compositor = Compositor::with_windows(&[1]);
    for (line, reply) in [
        ("", "Error: Unknown command\n"),
        ("sticky 1\n", "Error: Unknown command\n"),
        ("add\n", "Error: Missing window id\n"),
        ("remove one\n", "Error: Invalid window id\n"),
        ("stage\n", "Error: Missing argument for stage\n"),
        ("unstage\n", "Error: Missing argument for unstage\n"),
    ] {
        let started = Session::for_line(&logic, line);
        assert_eq!(run(&mut logic, started, &mut compositor), Some(reply.to_string()), "{}", line);
    }
    assert!(compositor.asked.is_empty());
}

#[test]
fn a_request_line_is_served() {
    let mut logic = store(&[], &[]);
    let mut compositor = Compositor::with_windows(&[1]);
    let started = Session::for_line(&logic, "add 1\n");
    assert_eq!(run(&mut logic, started, &mut compositor), Some("Added\n".to_string()));
    assert_eq!(sticky(&logic), vec![1]);
}
