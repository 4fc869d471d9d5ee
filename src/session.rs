//! The operations as a session: the session says which step comes next (list
//! the compositor's windows, send one command, or stop), and is told how each
//! step went. Whoever holds the compositor's connection runs the steps.
use vstd::prelude::*;

use crate::client::{filter_clients, matching, Client};
use crate::error::HyprwsError;

verus! {

/// An operation, with its workspaces already read.
#[derive(PartialEq, Eq, Structural, Clone, Copy, Debug)]
pub enum Operation {
    /// Close every window of `target`.
    Kill { target: i32 },
    /// Move every window of `start` to `end`.
    Dump { start: i32, end: i32 },
    /// Move every window of `start` to `end` and every window of `end` to `start`.
    Swap { start: i32, end: i32 },
}

/// A command to the compositor about one window.
#[derive(Clone, PartialEq, Eq, Debug)]
pub enum Action {
    /// Close the window.
    Close { address: String },
    /// Move the window to `workspace`, without focusing it.
    MoveTo { address: String, workspace: i32 },
}

impl Action {
    /// A copy with the same fields.
    pub fn duplicate(&self) -> (r: Action)
        ensures
            r == *self,
    {
        match self {
            Action::Close { address } => Action::Close { address: address.clone() },
            Action::MoveTo { address, workspace } => Action::MoveTo {
                address: address.clone(),
                workspace: *workspace,
            },
        }
    }
}

/// What a session asks for next.
#[derive(PartialEq, Eq, Debug)]
pub enum Step {
    /// List all of the compositor's windows.
    Query,
    /// Send this command.
    Dispatch(Action),
    /// The operation is over, with this outcome.
    Finished(Result<(), HyprwsError>),
}

/// How the step that a session asked for went.
#[derive(Clone, PartialEq, Eq, Debug)]
pub enum Event {
    /// The listing succeeded, with these windows in the compositor's order.
    Clients(Vec<Client>),
    /// The listing failed.
    QueryFailed,
    /// The command was accepted.
    Dispatched,
    /// The command was refused.
    DispatchFailed,
}

/// How many listings of the windows an operation takes before it acts.
pub open spec fn queries_needed(op: Operation) -> nat {
    match op {
        Operation::Swap { .. } => 2,
        _ => 1,
    }
}

/// A close command for each of `cs`, in order.
pub open spec fn close_all(cs: Seq<Client>) -> Seq<Action> {
    cs.map_values(|c: Client| Action::Close { address: c.address })
}

/// A command moving each of `cs` to workspace `to`, in order.
pub open spec fn move_all(cs: Seq<Client>, to: i32) -> Seq<Action> {
    cs.map_values(|c: Client| Action::MoveTo { address: c.address, workspace: to })
}

/// The commands that `op` sends for its `k`-th listing `cs` of the windows.
pub open spec fn answer(op: Operation, k: int, cs: Seq<Client>) -> Seq<Action> {
    match op {
        Operation::Kill { target } => close_all(matching(cs, target)),
        Operation::Dump { start, end } => move_all(matching(cs, start), end),
        Operation::Swap { start, end } => if k == 0 {
            move_all(matching(cs, start), end)
        } else {
            move_all(matching(cs, end), start)
        },
    }
}

/// The commands that `op` sends, given the listings it has so far.
pub open spec fn plan(op: Operation, listings: Seq<Seq<Client>>) -> Seq<Action>
    decreases listings.len(),
{
    if listings.len() == 0 {
        Seq::empty()
    } else {
        plan(op, listings.drop_last()) + answer(op, listings.len() - 1, listings.last())
    }
}

/// What a session is, as a value: its operation, the listings it was given,
/// how many of its commands were accepted, and the failure that ended it, if
/// any.
pub struct SessionModel {
    pub op: Operation,
    pub listings: Seq<Seq<Client>>,
    pub done: nat,
    pub failed: Option<HyprwsError>,
}

impl SessionModel {
    /// A session of `op` that has not asked for anything yet.
    pub open spec fn start(op: Operation) -> SessionModel {
        SessionModel { op, listings: Seq::empty(), done: 0, failed: None }
    }

    /// The commands of the session, as far as its listings decide them.
    pub open spec fn commands(self) -> Seq<Action> {
        plan(self.op, self.listings)
    }

    /// The step the session asks for: none after a failure; the listings
    /// first, all of them; then each command in turn; then success.
    pub open spec fn step(self) -> Step {
        match self.failed {
            Some(e) => Step::Finished(Err(e)),
            None => if self.listings.len() < queries_needed(self.op) {
                Step::Query
            } else if self.done < self.commands().len() {
                Step::Dispatch(self.commands()[self.done as int])
            } else {
                Step::Finished(Ok(()))
            },
        }
    }

    /// The session after it is told `ev`. An event that does not answer the
    /// step asked for changes nothing.
    pub open spec fn deliver(self, ev: Event) -> SessionModel {
        match (self.step(), ev) {
            (Step::Query, Event::Clients(cs)) => SessionModel {
                listings: self.listings.push(cs@),
                ..self
            },
            (Step::Query, Event::QueryFailed) => SessionModel {
                failed: Some(HyprwsError::CompositorQueryFailed),
                ..self
            },
            (Step::Dispatch(_), Event::Dispatched) => SessionModel { done: self.done + 1, ..self },
            (Step::Dispatch(_), Event::DispatchFailed) => SessionModel {
                failed: Some(HyprwsError::CompositorDispatchFailed),
                ..self
            },
            _ => self,
        }
    }
}

/// A running operation.
pub struct Session {
    op: Operation,
    listings: Ghost<Seq<Seq<Client>>>,
    received: usize,
    commands: Vec<Action>,
    done: usize,
    failed: Option<HyprwsError>,
}

impl View for Session {
    type V = SessionModel;

    closed spec fn view(&self) -> SessionModel {
        SessionModel {
            op: self.op,
            listings: self.listings@,
            done: self.done as nat,
            failed: self.failed,
        }
    }
}

/// Returns `queries_needed(op)`.
fn listings_needed(op: Operation) -> (r: usize)
    ensures
        r == queries_needed(op),
{
    match op {
        Operation::Swap { .. } => 2,
        _ => 1,
    }
}

/// Appends a close command for each of `sel`.
fn push_closes(commands: &mut Vec<Action>, sel: &Vec<Client>)
    ensures
        final(commands)@ == old(commands)@ + close_all(sel@),
{
    let ghost start = commands@;
    let mut i: usize = 0;
    while i < sel.len()
        invariant
            i <= sel@.len(),
            commands@ == start + close_all(sel@.take(i as int)),
        decreases sel@.len() - i,
    {
        assert(close_all(sel@.take(i as int + 1)) =~= close_all(sel@.take(i as int)).push(
            Action::Close { address: sel@[i as int].address },
        ));
        commands.push(Action::Close { address: sel[i].address.clone() });
        i += 1;
    }
    assert(sel@.take(sel@.len() as int) =~= sel@);
}

/// Appends a command moving each of `sel` to workspace `to`.
fn push_moves(commands: &mut Vec<Action>, sel: &Vec<Client>, to: i32)
    ensures
        final(commands)@ == old(commands)@ + move_all(sel@, to),
{
    let ghost start = commands@;
    let mut i: usize = 0;
    while i < sel.len()
        invariant
            i <= sel@.len(),
            commands@ == start + move_all(sel@.take(i as int), to),
        decreases sel@.len() - i,
    {
        assert(move_all(sel@.take(i as int + 1), to) =~= move_all(sel@.take(i as int), to).push(
            Action::MoveTo { address: sel@[i as int].address, workspace: to },
        ));
        commands.push(Action::MoveTo { address: sel[i].address.clone(), workspace: to });
        i += 1;
    }
    assert(sel@.take(sel@.len() as int) =~= sel@);
}

impl Session {
    /// The fields agree with the model: one listing counted per listing
    /// kept, no more than the operation takes, and the commands those
    /// listings decide.
    pub closed spec fn wf(&self) -> bool {
        &&& self.received == self.listings@.len()
        &&& self.listings@.len() <= queries_needed(self.op)
        &&& self.commands@ == plan(self.op, self.listings@)
        &&& self.done <= self.commands@.len()
    }

    /// A session of `op` that has not asked for anything yet.
    pub fn new(op: Operation) -> (s: Session)
        ensures
            s.wf(),
            s@ == SessionModel::start(op),
    {
        Session {
            op,
            listings: Ghost(Seq::empty()),
            received: 0,
            commands: Vec::new(),
            done: 0,
            failed: None,
        }
    }

    /// The operation this session runs.
    pub fn operation(&self) -> (r: Operation)
        ensures
            r == self@.op,
    {
        self.op
    }

    /// Returns the step the session asks for now.
    pub fn step(&self) -> (r: Step)
        requires
            self.wf(),
        ensures
            r == self@.step(),
    {
        match self.failed {
            Some(e) => Step::Finished(Err(e)),
            None => if self.received < listings_needed(self.op) {
                Step::Query
            } else if self.done < self.commands.len() {
                Step::Dispatch(self.commands[self.done].duplicate())
            } else {
                Step::Finished(Ok(()))
            },
        }
    }

    /// Tells the session how the step it asked for went.
    pub fn deliver(&mut self, ev: Event)
        requires
            old(self).wf(),
        ensures
            final(self).wf(),
            final(self)@ == old(self)@.deliver(ev),
    {
        let asks_listing = self.failed.is_none() && self.received < listings_needed(self.op);
        let asks_command = self.failed.is_none() && !asks_listing && self.done
            < self.commands.len();
        match ev {
            Event::Clients(cs) => {
                if asks_listing {
                    let k = self.received;
                    match self.op {
                        Operation::Kill { target } => {
                            let sel = filter_clients(&cs, target);
                            push_closes(&mut self.commands, &sel);
                        },
                        Operation::Dump { start, end } => {
                            let sel = filter_clients(&cs, start);
                            push_moves(&mut self.commands, &sel, end);
                        },
                        Operation::Swap { start, end } => {
                            if k == 0 {
                                let sel = filter_clients(&cs, start);
                                push_moves(&mut self.commands, &sel, end);
                            } else {
                                let sel = filter_clients(&cs, end);
                                push_moves(&mut self.commands, &sel, start);
                            }
                        },
                    }
                    proof {
                        let l = self.listings@.push(cs@);
                        assert(l.drop_last() =~= self.listings@);
                    }
                    self.listings = Ghost(self.listings@.push(cs@));
                    self.received = k + 1;
                }
            },
            Event::QueryFailed => {
                if asks_listing {
                    self.failed = Some(HyprwsError::CompositorQueryFailed);
                }
            },
            Event::Dispatched => {
                if asks_command {
                    self.done = self.done + 1;
                }
            },
            Event::DispatchFailed => {
                if asks_command {
                    self.failed = Some(HyprwsError::CompositorDispatchFailed);
                }
            },
        }
    }
}

} // verus!
