use std::collections::HashMap;
use vstd::prelude::*;
use vstd::std_specs::iter::IteratorSpec;
use crate::trusted::draw_session_id;

verus! {

broadcast use vstd::std_specs::hash::group_hash_axioms;

/// A payload handed to one session by a publish.
pub struct BroadcastMessage(pub String);

/// Asks the hub to register the outbound handle `addr`.
pub struct Connect<H> {
    pub addr: H,
}

/// Asks the hub to forget the session `id`.
pub struct Disconnect {
    pub id: usize,
}

/// Asks the hub to publish `msg` to every registered session.
pub struct ClientMessage {
    pub msg: String,
}

/// One delivery that a publish owes: `message` goes to session `to`.
pub struct Delivery {
    pub to: usize,
    pub message: BroadcastMessage,
}

/// The broadcast hub: the single registry of live sessions, keyed by
/// session id, each mapped to its outbound-delivery handle.
pub struct Lobby<H> {
    sessions: HashMap<usize, H>,
}

impl<H> View for Lobby<H> {
    type V = Map<usize, H>;

    closed spec fn view(&self) -> Map<usize, H> {
        self.sessions@
    }
}

/// The registry after a connect that was assigned `id`.
pub open spec fn connected<H>(pre: Map<usize, H>, id: usize, addr: H) -> Map<usize, H> {
    pre.insert(id, addr)
}

/// The registry after a disconnect of `id`.
pub open spec fn disconnected<H>(pre: Map<usize, H>, id: usize) -> Map<usize, H> {
    pre.remove(id)
}

/// The deliveries owed by a publish of `payload` on `reg`: exactly one for
/// each registered session, none for any other, each carrying `payload`.
pub open spec fn delivers_to<H>(reg: Map<usize, H>, payload: Seq<char>, ds: Seq<Delivery>) -> bool {
    &&& forall|i: int, j: int| 0 <= i < j < ds.len() ==> ds[i].to != ds[j].to
    &&& forall|i: int| 0 <= i < ds.len() ==> reg.contains_key(#[trigger] ds[i].to)
    &&& forall|i: int| 0 <= i < ds.len() ==> (#[trigger] ds[i].message).0@ == payload
    &&& forall|id: usize| reg.contains_key(id) ==> exists|i: int| 0 <= i < ds.len() && #[trigger] ds[i].to == id
}

/// A finite set of ids that holds every id below `c` has at least `c` members.
proof fn lemma_prefix_fills(dom: Set<usize>, c: nat)
    requires
        dom.finite(),
        forall|k: usize| (k as nat) < c ==> dom.contains(k),
        c <= usize::MAX as nat + 1,
    ensures
        dom.len() >= c,
    decreases c,
{
    if c > 0 {
        let last = (c - 1) as usize;
        let rest = dom.remove(last);
        assert forall|k: usize| (k as nat) < (c - 1) as nat implies rest.contains(k) by {
            assert(dom.contains(k));
        }
        lemma_prefix_fills(rest, (c - 1) as nat);
        assert(dom.contains(last));
    }
}

impl<H> Lobby<H> {
    /// An empty hub.
    pub fn new() -> (r: Lobby<H>)
        ensures
            r@ == Map::<usize, H>::empty(),
    {
        Lobby { sessions: HashMap::new() }
    }

    /// Whether session `id` is registered.
    pub fn is_registered(&self, id: usize) -> (r: bool)
        ensures
            r == self@.contains_key(id),
    {
        self.sessions.contains_key(&id)
    }

    /// The number of registered sessions.
    pub fn len(&self) -> (r: usize)
        ensures
            r == self@.len(),
    {
        self.sessions.len()
    }

    /// The outbound handle of session `id`, if it is registered.
    pub fn handle_of(&self, id: usize) -> (r: Option<&H>)
        ensures
            r matches Some(h) ==> self@.contains_key(id) && *h == self@[id],
            r is None ==> !self@.contains_key(id),
    {
        self.sessions.get(&id)
    }

    /// Registers `addr` under a fresh session id drawn at random, and
    /// returns that id. An id already in use is never handed out again.
    pub fn connect(&mut self, msg: Connect<H>) -> (id: usize)
        requires
            old(self)@.len() < usize::MAX,
        ensures
            !old(self)@.contains_key(id),
            final(self)@ == connected(old(self)@, id, msg.addr),
    {
        let draw = draw_session_id();
        self.connect_with(draw, msg.addr)
    }

    /// Registers `addr` under a session id that no registered session holds:
    /// `draw` when it is free, else the least free id.
    pub fn connect_with(&mut self, draw: usize, addr: H) -> (id: usize)
        requires
            old(self)@.len() < usize::MAX,
        ensures
            !old(self)@.contains_key(id),
            !old(self)@.contains_key(draw) ==> id == draw,
            final(self)@ == connected(old(self)@, id, addr),
    {
        let id = if !self.sessions.contains_key(&draw) {
            draw
        } else {
            self.least_free_id()
        };
        self.sessions.insert(id, addr);
        id
    }

    /// The least session id that no registered session holds.
    fn least_free_id(&self) -> (id: usize)
        requires
            self@.len() < usize::MAX,
        ensures
            !self@.contains_key(id),
            forall|k: usize| k < id ==> self@.contains_key(k),
    {
        let n = self.sessions.len();
        let mut c: usize = 0;
        while self.sessions.contains_key(&c)
            invariant
                n == self@.len() < usize::MAX,
                c <= n,
                forall|k: usize| k < c ==> self@.contains_key(k),
            decreases n - c,
        {
            proof {
                if c == n {
                    lemma_prefix_fills(self@.dom(), (c + 1) as nat);
                }
            }
            c = c + 1;
        }
        c
    }

    /// Forgets session `id`; an id that is not registered leaves the hub as it is.
    pub fn disconnect(&mut self, msg: Disconnect)
        ensures
            final(self)@ == disconnected(old(self)@, msg.id),
    {
        self.sessions.remove(&msg.id);
    }

    /// The deliveries of `msg`: one to each registered session, carrying
    /// its text unchanged. The registry is left as it is.
    pub fn publish(&self, msg: &ClientMessage) -> (r: Vec<Delivery>)
        ensures
            delivers_to(self@, msg.msg@, r@),
    {
        let mut r: Vec<Delivery> = Vec::new();
        let ghost keys = vstd::std_specs::hash::spec_keys_iter(&self.sessions).remaining();
        for k in it: self.sessions.keys()
            invariant
                it.seq() == keys,
                r.len() == it.index(),
                forall|i: int| 0 <= i < r.len() ==> (#[trigger] r[i]).to == *it.seq()[i],
                forall|i: int| 0 <= i < r.len() ==> (#[trigger] r[i].message).0@ == msg.msg@,
        {
            r.push(Delivery { to: *k, message: BroadcastMessage(msg.msg.clone()) });
        }
        proof {
            assert(keys.unref().to_set() == self@.dom());
            assert(keys.no_duplicates());
            assert forall|i: int, j: int| 0 <= i < j < r.len() implies r[i].to != r[j].to by {
                assert(keys.unref()[i] == *keys[i]);
                assert(keys.unref()[j] == *keys[j]);
            }
            assert forall|i: int| 0 <= i < r.len() implies self@.contains_key(#[trigger] r[i].to) by {
                assert(keys.unref()[i] == *keys[i]);
                assert(keys.unref().to_set().contains(keys.unref()[i]));
            }
            assert forall|id: usize| self@.contains_key(id) implies exists|i: int|
                0 <= i < r.len() && #[trigger] r[i].to == id by {
                assert(keys.unref().to_set().contains(id));
                let i = choose|i: int| 0 <= i < keys.unref().len() && keys.unref()[i] == id;
                assert(r[i].to == id);
            }
        }
        r
    }
}

} // verus!
