//! Windows ("clients") as the compositor reports them, and which of them an
//! operation acts on.
use vstd::prelude::*;

verus! {

/// A window, with what the operations read of it.
#[derive(Clone, PartialEq, Eq, Debug)]
pub struct Client {
    /// The handle by which the compositor names the window.
    pub address: String,
    /// The workspace the window is on.
    pub workspace: i32,
    /// Whether the window is pinned; pinned windows are never touched.
    pub pinned: bool,
}

impl Client {
    /// A copy with the same fields.
    pub fn duplicate(&self) -> (r: Client)
        ensures
            r == *self,
    {
        Client { address: self.address.clone(), workspace: self.workspace, pinned: self.pinned }
    }
}

/// Whether an operation on workspace `w` acts on client `c`.
pub open spec fn selected(c: Client, w: i32) -> bool {
    c.workspace == w && !c.pinned
}

/// The predicate [`selected`] for workspace `w`.
pub open spec fn selects(w: i32) -> spec_fn(Client) -> bool {
    |c: Client| selected(c, w)
}

/// The clients of `cs` that are on workspace `w` and not pinned, in the
/// order of `cs`.
pub open spec fn matching(cs: Seq<Client>, w: i32) -> Seq<Client> {
    cs.filter(selects(w))
}

/// Returns the clients of `clients` that are on workspace `target` and not
/// pinned, in the order in which `clients` lists them.
pub fn filter_clients(clients: &Vec<Client>, target: i32) -> (r: Vec<Client>)
    ensures
        r@ == matching(clients@, target),
{
    let mut out: Vec<Client> = Vec::new();
    let mut i: usize = 0;
    while i < clients.len()
        invariant
            i <= clients@.len(),
            out@ == matching(clients@.take(i as int), target),
        decreases clients@.len() - i,
    {
        proof {
            let s = clients@.take(i as int + 1);
            assert(s.drop_last() =~= clients@.take(i as int));
            assert(s.last() == clients@[i as int]);
            reveal(Seq::filter);
        }
        let c = &clients[i];
        if c.workspace == target && !c.pinned {
            out.push(c.duplicate());
        }
        i += 1;
    }
    assert(clients@.take(clients@.len() as int) =~= clients@);
    out
}

} // verus!
