//! Laws of the broadcast hub, stated over the contracts of its operations.
use vstd::prelude::*;
use crate::auth::{bearer_part, permits, role_name, validation_of, Operation, Role};
use crate::hub::{connected, disconnected, delivers_to, Delivery};
use crate::session::{session_step, SessionAction, SessionEvent, SessionState, SessionView};
use crate::trusted::hs256_claims;

verus! {

/// One operation on the hub as it happened: a connect that was assigned
/// `id`, a disconnect of `id`, or a publish.
pub enum HubEvent<H> {
    Joined(usize, H),
    Left(usize),
    Published,
}

/// `post` is the registry that the hub's contracts leave after `ev` on `pre`.
pub open spec fn hub_step<H>(pre: Map<usize, H>, ev: HubEvent<H>, post: Map<usize, H>) -> bool {
    match ev {
        HubEvent::Joined(id, addr) => !pre.contains_key(id) && post == connected(pre, id, addr),
        HubEvent::Left(id) => post == disconnected(pre, id),
        HubEvent::Published => post == pre,
    }
}

/// Whether event `ev` is a connect of `id`.
pub open spec fn joins<H>(ev: HubEvent<H>, id: usize) -> bool {
    ev matches HubEvent::Joined(j, _) && j == id
}

/// Whether event `ev` is a disconnect of `id`.
pub open spec fn leaves<H>(ev: HubEvent<H>, id: usize) -> bool {
    ev matches HubEvent::Left(j) && j == id
}

/// The sessions that `evs` connected and did not disconnect afterwards.
pub open spec fn live_sessions<H>(evs: Seq<HubEvent<H>>) -> Set<usize> {
    Set::new(
        |id: usize|
            exists|i: int|
                0 <= i < evs.len() && #[trigger] joins(evs[i], id) && forall|j: int|
                    i < j < evs.len() ==> !#[trigger] leaves(evs[j], id),
    )
}

/// Replaying any history of connects, disconnects and publishes from an
/// empty hub leaves registered exactly the sessions that were connected and
/// not disconnected since.
pub proof fn lemma_registry_tracks_history<H>(evs: Seq<HubEvent<H>>, regs: Seq<Map<usize, H>>)
    requires
        regs.len() == evs.len() + 1,
        regs[0] == Map::<usize, H>::empty(),
        forall|i: int| 0 <= i < evs.len() ==> hub_step(regs[i], #[trigger] evs[i], regs[i + 1]),
    ensures
        regs.last().dom() == live_sessions(evs),
{
    lemma_prefix_tracks(evs, regs, evs.len() as nat);
    assert(evs.take(evs.len() as int) == evs);
}

proof fn lemma_prefix_tracks<H>(evs: Seq<HubEvent<H>>, regs: Seq<Map<usize, H>>, n: nat)
    requires
        regs.len() == evs.len() + 1,
        regs[0] == Map::<usize, H>::empty(),
        forall|i: int| 0 <= i < evs.len() ==> hub_step(regs[i], #[trigger] evs[i], regs[i + 1]),
        n <= evs.len(),
    ensures
        regs[n as int].dom() == live_sessions(evs.take(n as int)),
    decreases n,
{
    if n == 0 {
        assert(regs[0].dom() =~= live_sessions(evs.take(0)));
    } else {
        let m = (n - 1) as int;
        lemma_prefix_tracks(evs, regs, m as nat);
        let before = evs.take(m);
        let after = evs.take(n as int);
        assert(hub_step(regs[m], evs[m], regs[m + 1]));
        assert forall|id: usize| regs[n as int].dom().contains(id) <==> live_sessions(after).contains(id) by {
            let was = live_sessions(before).contains(id);
            if was {
                let i = choose|i: int|
                    0 <= i < before.len() && #[trigger] joins(before[i], id) && forall|j: int|
                        i < j < before.len() ==> !#[trigger] leaves(before[j], id);
                assert(joins(after[i], id));
                if !leaves(evs[m], id) {
                    assert forall|j: int| i < j < after.len() implies !#[trigger] leaves(after[j], id) by {
                        if j < m {
                            assert(after[j] == before[j]);
                        }
                    }
                }
            }
            if live_sessions(after).contains(id) {
                let i = choose|i: int|
                    0 <= i < after.len() && #[trigger] joins(after[i], id) && forall|j: int|
                        i < j < after.len() ==> !#[trigger] leaves(after[j], id);
                if i < m {
                    assert(joins(before[i], id));
                    assert forall|j: int| i < j < before.len() implies !#[trigger] leaves(before[j], id) by {
                        assert(after[j] == before[j]);
                        assert(!leaves(after[j], id));
                    }
                    assert(live_sessions(before).contains(id));
                    assert(!leaves(after[m], id));
                }
            }
            if joins(evs[m], id) {
                assert(joins(after[m], id));
                assert(live_sessions(after).contains(id));
            }
            if leaves(evs[m], id) {
                if live_sessions(after).contains(id) {
                    let i = choose|i: int|
                        0 <= i < after.len() && #[trigger] joins(after[i], id) && forall|j: int|
                            i < j < after.len() ==> !#[trigger] leaves(after[j], id);
                    assert(i != m);
                    assert(!leaves(after[m], id));
                }
            }
        }
        assert(regs[n as int].dom() =~= live_sessions(after));
    }
}

/// Disconnecting the same id twice leaves the hub as one disconnect does, and
/// disconnecting an id that is not registered changes nothing.
pub proof fn lemma_disconnect_idempotent<H>(reg: Map<usize, H>, id: usize)
    ensures
        disconnected(disconnected(reg, id), id) == disconnected(reg, id),
        !reg.contains_key(id) ==> disconnected(reg, id) == reg,
{
    assert(disconnected(disconnected(reg, id), id) =~= disconnected(reg, id));
    if !reg.contains_key(id) {
        assert(disconnected(reg, id) =~= reg);
    }
}

/// A publish reaches only sessions registered when it ran: a session that
/// connects afterwards, under an id the hub did not hold, is owed nothing.
pub proof fn lemma_publish_misses_later_joins<H>(
    reg: Map<usize, H>,
    payload: Seq<char>,
    ds: Seq<Delivery>,
    id: usize,
    addr: H,
)
    requires
        delivers_to(reg, payload, ds),
        !reg.contains_key(id),
    ensures
        forall|i: int| 0 <= i < ds.len() ==> (#[trigger] ds[i]).to != id,
        connected(reg, id, addr).contains_key(id),
{
    assert forall|i: int| 0 <= i < ds.len() implies (#[trigger] ds[i]).to != id by {
        assert(reg.contains_key(ds[i].to));
    }
}

/// An admin is admitted to every operation of the role matrix; a viewer is
/// admitted to reading the inventory and to no protected operation besides.
pub proof fn lemma_role_matrix(op: Operation)
    ensures
        permits(Role::Admin, op),
        permits(Role::Viewer, op) <==> (op == Operation::InventoryRead || op == Operation::IssueCredential),
        permits(Role::Viewer, Operation::InventoryRead),
        !permits(Role::Viewer, Operation::InventoryWrite),
        !permits(Role::Viewer, Operation::ForecastRequest),
{
}

/// A credential signed for `user` with role `role` and expiry `exp`, presented
/// as `Bearer <token>` before it expires, validates to that same subject,
/// role and expiry; so its holder is admitted exactly where the role matrix
/// admits `role`.
pub proof fn lemma_issued_credential_validates(user: Seq<char>, role: Role, exp: u64, token: Seq<char>, secret: Seq<u8>, now: i64, op: Operation)
    requires
        hs256_claims(token, secret) == Some((user, role_name(role), exp)),
        (now as int) < (exp as int),
    ensures
        validation_of(Some("Bearer "@ + token), secret, now) == Some((user, role, exp)),
        permits(role, op) <==> match validation_of(Some("Bearer "@ + token), secret, now) {
            Some(v) => permits(v.1, op),
            None => false,
        },
{
    reveal_strlit("Bearer ");
    reveal_strlit("admin");
    reveal_strlit("viewer");
    reveal_strlit("other");
    let h = "Bearer "@ + token;
    assert(h.take(7) =~= "Bearer "@);
    assert(h.skip(7) =~= token);
    assert("other"@ != "admin"@) by { assert("other"@[0] != "admin"@[0]); }
    assert("other"@ != "viewer"@) by { assert("other"@[0] != "viewer"@[0]); }
    assert("viewer"@ != "admin"@) by { assert("viewer"@[0] != "admin"@[0]); }
}

/// A bearer token whose expiry is not after `now` is refused, whether or not
/// its signature holds.
pub proof fn lemma_expired_refused(header: Seq<char>, secret: Seq<u8>, now: i64)
    requires
        bearer_part(header) matches Some(token) && (hs256_claims(token, secret) matches Some(c)
            ==> c.2 as int <= now as int),
    ensures
        validation_of(Some(header), secret, now) is None,
{
}

/// A closed session stays closed and asks nothing more of anyone, so it
/// leaves the hub at most once; the step that closes an active or closing
/// session is the one that leaves.
pub proof fn lemma_closed_session_is_silent(pre: SessionView, ev: SessionEvent, now: u64, post: SessionView, acts: Seq<SessionAction>)
    requires
        session_step(pre, ev, now, post, acts),
    ensures
        pre.state == SessionState::Closed ==> post == pre && acts.len() == 0,
        (pre.state == SessionState::Active || pre.state == SessionState::Closing) && post.state
            == SessionState::Closed ==> acts == seq![SessionAction::Leave(pre.id)],
{
    if (pre.state == SessionState::Active || pre.state == SessionState::Closing) && post.state == SessionState::Closed {
        assert(acts =~= seq![SessionAction::Leave(pre.id)]);
    }
}

} // verus!
