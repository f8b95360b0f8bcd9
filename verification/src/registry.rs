//! The registry of authenticated connections: a table from username to an
//! opaque connection handle, used only for broadcast fan-out. The owner of a
//! handle performs the actual writes; the registry decides who receives them.

use vstd::prelude::*;

verus! {

/// The mathematical view of one registry entry.
pub ghost struct RegRec {
    pub name: Seq<char>,
    pub handle: u64,
}

/// One registered connection: a username and the handle of its live
/// outbound connection.
pub struct RegEntry {
    pub username: String,
    pub handle: u64,
}

impl View for RegEntry {
    type V = RegRec;

    open spec fn view(&self) -> RegRec {
        RegRec { name: self.username@, handle: self.handle }
    }
}

/// The registry itself: entries whose usernames are unique.
pub struct Registry {
    pub clients: Vec<RegEntry>,
}

impl View for Registry {
    type V = Seq<RegRec>;

    open spec fn view(&self) -> Seq<RegRec> {
        self.clients@.map_values(|e: RegEntry| e@)
    }
}

/// The index of the first entry named `name`, scanning from position `i`.
pub open spec fn find_client_from(g: Seq<RegRec>, name: Seq<char>, i: nat) -> Option<int>
    decreases g.len() - i when i <= g.len()
{
    if i >= g.len() {
        None
    } else if g[i as int].name == name {
        Some(i as int)
    } else {
        find_client_from(g, name, i + 1)
    }
}

/// The index of the entry named `name`, if any.
pub open spec fn find_client(g: Seq<RegRec>, name: Seq<char>) -> Option<int> {
    find_client_from(g, name, 0)
}

/// The index of the first entry whose handle is `h`, scanning from `i`.
pub open spec fn find_handle_from(g: Seq<RegRec>, h: u64, i: nat) -> Option<int>
    decreases g.len() - i when i <= g.len()
{
    if i >= g.len() {
        None
    } else if g[i as int].handle == h {
        Some(i as int)
    } else {
        find_handle_from(g, h, i + 1)
    }
}

/// The index of the first entry whose handle is `h`, if any.
pub open spec fn find_handle(g: Seq<RegRec>, h: u64) -> Option<int> {
    find_handle_from(g, h, 0)
}

/// No two entries share a username.
pub open spec fn reg_wf(g: Seq<RegRec>) -> bool {
    forall|i: int, j: int|
        0 <= i < g.len() && 0 <= j < g.len() && i != j ==> #[trigger] g[i].name != #[trigger] g[j].name
}

/// What `register` leaves in the registry: the handle of an already
/// registered username is overwritten, a new username is appended.
pub open spec fn register_state(g: Seq<RegRec>, name: Seq<char>, h: u64) -> Seq<RegRec> {
    match find_client(g, name) {
        Some(i) => g.update(i, RegRec { name: name, handle: h }),
        None => g.push(RegRec { name: name, handle: h }),
    }
}

/// What `unregister` leaves in the registry.
pub open spec fn unregister_state(g: Seq<RegRec>, name: Seq<char>) -> Seq<RegRec> {
    match find_client(g, name) {
        Some(i) => g.remove(i),
        None => g,
    }
}

/// What dropping a dead handle leaves in the registry.
pub open spec fn drop_handle_state(g: Seq<RegRec>, h: u64) -> Seq<RegRec> {
    match find_handle(g, h) {
        Some(i) => g.remove(i),
        None => g,
    }
}

/// The handles of all registered connections, in storage order.
pub open spec fn handles_of(g: Seq<RegRec>) -> Seq<u64> {
    g.map_values(|e: RegRec| e.handle)
}

/// A failed scan from `i` means no entry at or after `i` has the name.
pub proof fn lemma_find_client_none(g: Seq<RegRec>, name: Seq<char>, i: nat)
    requires
        i <= g.len(),
        find_client_from(g, name, i) is None,
    ensures
        forall|j: int| i <= j < g.len() ==> #[trigger] g[j].name != name,
    decreases g.len() - i,
{
    if i < g.len() {
        lemma_find_client_none(g, name, i + 1);
    }
}

/// A successful scan from `i` finds the first match at or after `i`.
pub proof fn lemma_find_client_some(g: Seq<RegRec>, name: Seq<char>, i: nat, j: int)
    requires
        i <= g.len(),
        find_client_from(g, name, i) == Some(j),
    ensures
        i <= j < g.len(),
        g[j].name == name,
        forall|k: int| i <= k < j ==> #[trigger] g[k].name != name,
    decreases g.len() - i,
{
    if i < g.len() && g[i as int].name != name {
        lemma_find_client_some(g, name, i + 1, j);
    }
}

/// Registering preserves username uniqueness.
proof fn lemma_register_wf(g: Seq<RegRec>, name: Seq<char>, h: u64)
    requires
        reg_wf(g),
    ensures
        reg_wf(register_state(g, name, h)),
{
    match find_client(g, name) {
        Some(i) => {
            lemma_find_client_some(g, name, 0, i);
            let g2 = g.update(i, RegRec { name: name, handle: h });
            assert forall|a: int, b: int|
                0 <= a < g2.len() && 0 <= b < g2.len() && a != b implies #[trigger] g2[a].name
                != #[trigger] g2[b].name by {
                assert(g2[a].name == g[a].name && g2[b].name == g[b].name);
            }
        },
        None => {
            lemma_find_client_none(g, name, 0);
        },
    }
}

/// Removing an entry preserves username uniqueness.
proof fn lemma_reg_remove_wf(g: Seq<RegRec>, i: int)
    requires
        reg_wf(g),
        0 <= i < g.len(),
    ensures
        reg_wf(g.remove(i)),
{
    let g2 = g.remove(i);
    assert forall|a: int| 0 <= a < g2.len() implies #[trigger] g2[a] == g[if a < i {
        a
    } else {
        a + 1
    }] by {}
}

impl Registry {
    pub open spec fn wf(&self) -> bool {
        reg_wf(self@)
    }

    /// An empty registry.
    pub fn new() -> (r: Registry)
        ensures
            r@ =~= Seq::<RegRec>::empty(),
            r.wf(),
    {
        Registry { clients: Vec::new() }
    }
}

/// The index of the entry named `name` in the stored vector, if any.
fn find_client_index(registry: &Registry, name: &String) -> (r: Option<usize>)
    ensures
        match r {
            Some(i) => i < registry@.len() && find_client(registry@, name@) == Some(i as int),
            None => find_client(registry@, name@) is None,
        },
{
    let ghost g = registry@;
    let n = registry.clients.len();
    let mut k: usize = 0;
    while k < n
        invariant
            g == registry@,
            n == registry.clients.len(),
            k <= n,
            find_client(g, name@) == find_client_from(g, name@, k as nat),
        decreases n - k,
    {
        let e = &registry.clients[k];
        if e.username == *name {
            return Some(k);
        }
        k += 1;
    }
    None
}

/// Registers `username` under `handle`, overwriting any prior handle held
/// for that username: at most one live connection per authenticated user.
pub fn register(registry: &mut Registry, username: String, handle: u64)
    requires
        old(registry).wf(),
    ensures
        final(registry).wf(),
        final(registry)@ == register_state(old(registry)@, username@, handle),
{
    proof {
        lemma_register_wf(registry@, username@, handle);
    }
    match find_client_index(registry, &username) {
        Some(i) => {
            registry.clients[i] = RegEntry { username: username, handle: handle };
            proof {
                assert(registry@ =~= register_state(old(registry)@, username@, handle));
            }
        },
        None => {
            registry.clients.push(RegEntry { username: username, handle: handle });
            proof {
                assert(registry@ =~= register_state(old(registry)@, username@, handle));
            }
        },
    }
}

/// Removes the entry of `username`; reports whether one was present.
pub fn unregister(registry: &mut Registry, username: &String) -> (r: bool)
    requires
        old(registry).wf(),
    ensures
        final(registry).wf(),
        final(registry)@ == unregister_state(old(registry)@, username@),
        r == (find_client(old(registry)@, username@) is Some),
{
    match find_client_index(registry, username) {
        Some(i) => {
            proof {
                lemma_reg_remove_wf(registry@, i as int);
            }
            registry.clients.remove(i);
            proof {
                assert(registry@ =~= unregister_state(old(registry)@, username@));
            }
            true
        },
        None => false,
    }
}

/// Removes the first entry holding `handle`, if any: used to drop a
/// connection whose write failed, without aborting delivery to the others.
pub fn unregister_handle(registry: &mut Registry, handle: u64) -> (r: bool)
    requires
        old(registry).wf(),
    ensures
        final(registry).wf(),
        final(registry)@ == drop_handle_state(old(registry)@, handle),
        r == (find_handle(old(registry)@, handle) is Some),
{
    let ghost g = registry@;
    let n = registry.clients.len();
    let mut k: usize = 0;
    while k < n
        invariant
            g == old(registry)@,
            g == registry@,
            reg_wf(g),
            n == registry.clients.len(),
            k <= n,
            find_handle(g, handle) == find_handle_from(g, handle, k as nat),
        decreases n - k,
    {
        if registry.clients[k].handle == handle {
            proof {
                lemma_reg_remove_wf(registry@, k as int);
            }
            registry.clients.remove(k);
            proof {
                assert(registry@ =~= drop_handle_state(g, handle));
            }
            return true;
        }
        k += 1;
    }
    false
}

/// The handles of every currently registered connection, for fan-out.
pub fn handles(registry: &Registry) -> (r: Vec<u64>)
    ensures
        r@ == handles_of(registry@),
{
    let n = registry.clients.len();
    let mut hs: Vec<u64> = Vec::new();
    let mut k: usize = 0;
    while k < n
        invariant
            n == registry.clients.len(),
            k <= n,
            hs@ =~= handles_of(registry@).subrange(0, k as int),
        decreases n - k,
    {
        hs.push(registry.clients[k].handle);
        k += 1;
    }
    proof {
        assert(hs@ =~= handles_of(registry@));
    }
    hs
}

} // verus!
