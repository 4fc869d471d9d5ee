use hyprws::client::{filter_clients, Client};
use hyprws::command::{dump_windows, kill_workspace, parse_command, swap_windows, Command};
use hyprws::error::HyprwsError;
use hyprws::session::{Action, Event, Operation, Session, Step};

fn client(address: &str, workspace: i32, pinned: bool) -> Client {
    Client { address: address.to_string(), workspace, pinned }
}

/// Workspace 6 holds X and Y, and the pinned Z; workspace 9 holds W.
fn desktop() -> Vec<Client> {
    vec![
        client("0xX", 6, false),
        client("0xW", 9, false),
        client("0xZ", 6, true),
        client("0xY", 6, false),
    ]
}

fn moved(address: &str, workspace: i32) -> Action {
    Action::MoveTo { address: address.to_string(), workspace }
}

fn closed(address: &str) -> Action {
    Action::Close { address: address.to_string() }
}

/// A compositor in memory: it applies each command to its windows, refuses
/// the command numbered `refuse` (counting from 0), and fails listings when
/// `listing_fails` is set.
struct Compositor {
    windows: Vec<Client>,
    sent: Vec<Action>,
    queries: usize,
    refuse: Option<usize>,
    listing_fails: bool,
}

impl Compositor {
    fn new(windows: Vec<Client>) -> Compositor {
        Compositor { windows, sent: Vec::new(), queries: 0, refuse: None, listing_fails: false }
    }

    fn run(&mut self, mut session: Session) -> Result<(), HyprwsError> {
        loop {
            match session.step() {
                Step::Query => {
                    self.queries += 1;
                    if self.listing_fails {
                        session.deliver(Event::QueryFailed);
                    } else {
                        session.deliver(Event::Clients(self.windows.clone()));
                    }
                }
                Step::Dispatch(action) => {
                    let n = self.sent.len();
                    self.sent.push(action.clone());
                    if self.refuse == Some(n) {
                        session.deliver(Event::DispatchFailed);
                        continue;
                    }
                    match action {
                        Action::Close { address } => self.windows.retain(|c| c.address != address),
                        Action::MoveTo { address, workspace } => {
                            for c in self.windows.iter_mut() {
                                if c.address == address {
                                    c.workspace = workspace;
                                }
                            }
                        }
                    }
                    session.deliver(Event::Dispatched);
                }
                Step::Finished(r) => return r,
            }
        }
    }

    fn workspace_of(&self, address: &str) -> Option<i32> {
        self.windows.iter().find(|c| c.address == address).map(|c| c.workspace)
    }
}

fn text(s: &str) -> String {
    s.to_string()
}

#[test]
fn dump() {
    let session = dump_windows(Some(&text("6")), Some(&text("9"))).unwrap();
    let mut hypr = Compositor::new(desktop());
    assert_eq!(hypr.run(session), Ok(()));
    assert_eq!(hypr.sent, vec![moved("0xX", 9), moved("0xY", 9)]);
    assert_eq!(hypr.queries, 1);
    assert_eq!(hypr.workspace_of("0xZ"), Some(6));
    assert_eq!(hypr.workspace_of("0xW"), Some(9));
}

#[test]
fn swap() {
    let session = swap_windows(Some(&text("6")), Some(&text("9"))).unwrap();
    let mut hypr = Compositor::new(desktop());
    assert_eq!(hypr.run(session), Ok(()));
    assert_eq!(hypr.sent, vec![moved("0xX", 9), moved("0xY", 9), moved("0xW", 6)]);
    assert_eq!(hypr.queries, 2);
    assert_eq!(hypr.workspace_of("0xX"), Some(9));
    assert_eq!(hypr.workspace_of("0xY"), Some(9));
    assert_eq!(hypr.workspace_of("0xW"), Some(6));
    assert_eq!(hypr.workspace_of("0xZ"), Some(6));
}

#[test]
fn kill() {
    let session = kill_workspace(Some(&text("6"))).unwrap();
    let mut hypr = Compositor::new(desktop());
    assert_eq!(hypr.run(session), Ok(()));
    assert_eq!(hypr.sent, vec![closed("0xX"), closed("0xY")]);
    assert_eq!(hypr.workspace_of("0xZ"), Some(6));
    assert_eq!(hypr.windows.len(), 2);
}

#[test]
fn swap_with_invalid_workspace_sends_nothing() {
    let args = vec![text("hyprws"), text("--swap"), text("6"), text("abc")];
    assert!(matches!(parse_command(&args), Err(HyprwsError::InvalidWorkspaceId)));
    assert!(matches!(
        swap_windows(Some(&text("6")), Some(&text("abc"))),
        Err(HyprwsError::InvalidWorkspaceId)
    ));
}

#[test]
fn kill_of_empty_workspace_sends_nothing() {
    let session = kill_workspace(Some(&text("3"))).unwrap();
    let mut hypr = Compositor::new(desktop());
    assert_eq!(hypr.run(session), Ok(()));
    assert!(hypr.sent.is_empty());
    assert_eq!(hypr.queries, 1);
}

#[test]
fn kill_stops_at_first_refused_close() {
    let session = kill_workspace(Some(&text("6"))).unwrap();
    let mut hypr = Compositor::new(desktop());
    hypr.refuse = Some(0);
    assert_eq!(hypr.run(session), Err(HyprwsError::CompositorDispatchFailed));
    assert_eq!(hypr.sent, vec![closed("0xX")]);
}

#[test]
fn swap_refusal_keeps_second_listing() {
    // The second move is refused; the move of W was decided from the listing
    // taken before any move, and is never sent.
    let session = swap_windows(Some(&text("6")), Some(&text("9"))).unwrap();
    let mut hypr = Compositor::new(desktop());
    hypr.refuse = Some(1);
    assert_eq!(hypr.run(session), Err(HyprwsError::CompositorDispatchFailed));
    assert_eq!(hypr.sent, vec![moved("0xX", 9), moved("0xY", 9)]);
    assert_eq!(hypr.queries, 2);
}

#[test]
fn failed_listing_ends_operation() {
    let session = dump_windows(Some(&text("6")), Some(&text("9"))).unwrap();
    let mut hypr = Compositor::new(desktop());
    hypr.listing_fails = true;
    assert_eq!(hypr.run(session), Err(HyprwsError::CompositorQueryFailed));
    assert!(hypr.sent.is_empty());
    assert_eq!(hypr.queries, 1);
}

#[test]
fn dump_leaves_target_windows_alone() {
    let session = dump_windows(Some(&text("9")), Some(&text("6"))).unwrap();
    let mut hypr = Compositor::new(desktop());
    assert_eq!(hypr.run(session), Ok(()));
    assert_eq!(hypr.sent, vec![moved("0xW", 6)]);
}

#[test]
fn swap_with_itself_moves_each_window_twice() {
    let session = swap_windows(Some(&text("9")), Some(&text("9"))).unwrap();
    let mut hypr = Compositor::new(desktop());
    assert_eq!(hypr.run(session), Ok(()));
    assert_eq!(hypr.sent, vec![moved("0xW", 9), moved("0xW", 9)]);
}

#[test]
fn events_that_answer_nothing_are_ignored() {
    let mut session = Session::new(Operation::Kill { target: 6 });
    session.deliver(Event::Dispatched);
    assert_eq!(session.step(), Step::Query);
    session.deliver(Event::Clients(desktop()));
    session.deliver(Event::QueryFailed);
    assert_eq!(session.step(), Step::Dispatch(closed("0xX")));
    session.deliver(Event::DispatchFailed);
    session.deliver(Event::Clients(desktop()));
    assert_eq!(session.step(), Step::Finished(Err(HyprwsError::CompositorDispatchFailed)));
}

#[test]
fn filter_keeps_unpinned_clients_of_target_in_order() {
    let kept = filter_clients(&desktop(), 6);
    assert_eq!(kept, vec![client("0xX", 6, false), client("0xY", 6, false)]);
    assert!(filter_clients(&desktop(), 2).is_empty());
    assert!(filter_clients(&Vec::new(), 6).is_empty());
}

#[test]
fn parse_selects_operation() {
    let args = vec![text("hyprws"), text("-d"), text("6"), text("-9")];
    match parse_command(&args) {
        Ok(Command::Run(s)) => assert_eq!(s.operation(), Operation::Dump { start: 6, end: -9 }),
        _ => panic!("expected a dump"),
    }
    let args = vec![text("hyprws"), text("--kill"), text("+4")];
    match parse_command(&args) {
        Ok(Command::Run(s)) => assert_eq!(s.operation(), Operation::Kill { target: 4 }),
        _ => panic!("expected a kill"),
    }
    let args = vec![text("hyprws"), text("-s"), text("1"), text("2"), text("extra")];
    match parse_command(&args) {
        Ok(Command::Run(s)) => assert_eq!(s.operation(), Operation::Swap { start: 1, end: 2 }),
        _ => panic!("expected a swap"),
    }
}

#[test]
fn parse_help_and_unknown() {
    assert!(matches!(parse_command(&vec![text("hyprws"), text("-h")]), Ok(Command::Help)));
    assert!(matches!(parse_command(&vec![text("hyprws"), text("--help"), text("x")]), Ok(Command::Help)));
    assert!(matches!(parse_command(&vec![text("hyprws")]), Ok(Command::Unrecognized(None))));
    match parse_command(&vec![text("hyprws"), text("--move")]) {
        Ok(Command::Unrecognized(Some(a))) => assert_eq!(a, "--move"),
        _ => panic!("expected an unrecognized option"),
    }
}

#[test]
fn kill_needs_its_workspace() {
    assert!(matches!(
        parse_command(&vec![text("hyprws"), text("-k")]),
        Err(HyprwsError::InvalidWorkspaceId)
    ));
    assert!(matches!(kill_workspace(None), Err(HyprwsError::InvalidWorkspaceId)));
}

#[test]
fn error_messages() {
    assert_eq!(HyprwsError::InvalidWorkspaceId.message(), "Invalid workspace ID");
    assert_eq!(HyprwsError::UnrecognizedArgument.message(), "Invalid argument");
}
