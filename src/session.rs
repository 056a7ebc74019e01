//! The registry of gateway sessions in progress.

use std::collections::HashMap;

use vstd::prelude::*;

use crate::clock::{utc_now, Timestamp};
use crate::naming::random_session_id;
use crate::subscriber::SubscriberSessionInfo;

verus! {

broadcast use vstd::std_specs::hash::group_hash_axioms;

/// How the gateway reaches the session's target.
#[derive(Debug, Clone, Copy, PartialEq, Eq)]
pub enum JetConnectionMode {
    /// Rendezvous: client and server both connect to the gateway.
    Rdv,
    /// Forward: the gateway connects to the target.
    Fwd,
}

/// The validated claims of a session token that a session is made from.
pub struct JetSessionTokenClaims {
    pub jet_aid: u128,
    pub jet_ap: String,
    pub dst_hst: Option<String>,
    pub jet_cm: JetConnectionMode,
    pub jet_rec: bool,
}

/// A gateway session in progress.
pub struct GatewaySessionInfo {
    pub association_id: u128,
    pub application_protocol: String,
    pub destination_host: Option<String>,
    pub connection_mode: JetConnectionMode,
    pub recording_policy: bool,
    pub filtering_policy: bool,
    pub start_timestamp: Timestamp,
}

impl Default for GatewaySessionInfo {
    /// A session of unknown protocol with a fresh random identifier, started now.
    fn default() -> (r: GatewaySessionInfo)
        ensures
            r.application_protocol@ == "unknown"@,
            r.destination_host is None,
            r.connection_mode == JetConnectionMode::Rdv,
            !r.recording_policy,
            !r.filtering_policy,
            (r.association_id >> 76u128) & 0xfu128 == 4,
            (r.association_id >> 62u128) & 0x3u128 == 2,
            r.start_timestamp.valid(),
    {
        GatewaySessionInfo {
            association_id: random_session_id(),
            application_protocol: String::from_str("unknown"),
            destination_host: None,
            connection_mode: JetConnectionMode::Rdv,
            recording_policy: false,
            filtering_policy: false,
            start_timestamp: utc_now(),
        }
    }
}

impl GatewaySessionInfo {
    /// The session's identifier.
    pub fn id(&self) -> (r: u128)
        ensures
            r == self.association_id,
    {
        self.association_id
    }

    /// The session described by `claims`, started at `now`; filtering is off.
    pub fn from_claims_at(claims: JetSessionTokenClaims, now: Timestamp) -> (r: GatewaySessionInfo)
        ensures
            r.association_id == claims.jet_aid,
            r.application_protocol@ == claims.jet_ap@,
            r.destination_host == claims.dst_hst,
            r.connection_mode == claims.jet_cm,
            r.recording_policy == claims.jet_rec,
            !r.filtering_policy,
            r.start_timestamp == now,
    {
        GatewaySessionInfo {
            association_id: claims.jet_aid,
            application_protocol: claims.jet_ap,
            destination_host: claims.dst_hst,
            connection_mode: claims.jet_cm,
            recording_policy: claims.jet_rec,
            filtering_policy: false,
            start_timestamp: now,
        }
    }

    /// The session described by `claims`, started now (see
    /// [`Self::from_claims_at`]).
    pub fn from_claims(claims: JetSessionTokenClaims) -> (r: GatewaySessionInfo)
        ensures
            r.association_id == claims.jet_aid,
            r.application_protocol@ == claims.jet_ap@,
            r.destination_host == claims.dst_hst,
            r.connection_mode == claims.jet_cm,
            r.recording_policy == claims.jet_rec,
            !r.filtering_policy,
            r.start_timestamp.valid(),
    {
        let now = utc_now();
        GatewaySessionInfo::from_claims_at(claims, now)
    }

    /// What the subscriber is told of this session.
    pub fn subscriber_info(&self) -> (r: SubscriberSessionInfo)
        ensures
            r.association_id == self.association_id,
            r.start_timestamp == self.start_timestamp,
    {
        SubscriberSessionInfo {
            association_id: self.association_id,
            start_timestamp: self.start_timestamp,
        }
    }
}

/// The sessions in progress, by identifier, with the order in which they
/// arrived.
pub struct SessionRegistry {
    sessions: HashMap<u128, GatewaySessionInfo>,
    order: Vec<u128>,
}

impl SessionRegistry {
    /// The sessions, by identifier.
    pub closed spec fn sessions(&self) -> Map<u128, GatewaySessionInfo> {
        self.sessions@
    }

    /// The identifiers, in order of arrival.
    pub closed spec fn order(&self) -> Seq<u128> {
        self.order@
    }

    /// Each session is filed under its own identifier, and the arrival order
    /// lists each identifier of the registry exactly once.
    pub open spec fn wf(&self) -> bool {
        &&& self.order().no_duplicates()
        &&& forall|id: u128| #[trigger]
            self.sessions().contains_key(id) <==> self.order().contains(id)
        &&& forall|id: u128| #[trigger]
            self.sessions().contains_key(id) ==> self.sessions()[id].association_id == id
    }

    /// An empty registry.
    pub fn new() -> (r: SessionRegistry)
        ensures
            r.wf(),
            r.sessions() == Map::<u128, GatewaySessionInfo>::empty(),
    {
        let r = SessionRegistry { sessions: HashMap::new(), order: Vec::new() };
        assert(r.sessions() =~= Map::<u128, GatewaySessionInfo>::empty());
        r
    }

    /// The number of sessions.
    pub fn len(&self) -> (r: usize)
        ensures
            r == self.sessions().len(),
    {
        self.sessions.len()
    }

    /// Whether a session with identifier `id` is in progress.
    pub fn contains(&self, id: u128) -> (r: bool)
        ensures
            r == self.sessions().contains_key(id),
    {
        self.sessions.contains_key(&id)
    }

    /// The session with identifier `id`, if any.
    pub fn get(&self, id: u128) -> (r: Option<&GatewaySessionInfo>)
        ensures
            match r {
                Some(s) => self.sessions().contains_key(id) && *s == self.sessions()[id],
                None => !self.sessions().contains_key(id),
            },
    {
        self.sessions.get(&id)
    }

    /// Adds `session`; a session with the same identifier is replaced, and
    /// keeps its place in the arrival order.
    pub fn add(&mut self, session: GatewaySessionInfo)
        requires
            old(self).wf(),
        ensures
            final(self).wf(),
            final(self).sessions() == old(self).sessions().insert(session.association_id, session),
    {
        let id = session.association_id;
        if !self.sessions.contains_key(&id) {
            self.order.push(id);
            assert(self.order@.no_duplicates()) by {
                assert(!old(self).order@.contains(id));
                assert forall|a: int, b: int| 0 <= a < b < self.order@.len() implies self.order@[a]
                    != self.order@[b] by {
                    if b == old(self).order@.len() {
                        assert(old(self).order@[a] == self.order@[a]);
                    }
                }
            }
            assert forall|x: u128| #[trigger] self.order@.contains(x) <==> (old(self).order@.contains(x) || x == id) by {
                if self.order@.contains(x) && x != id {
                    let k = choose|k: int| 0 <= k < self.order@.len() && self.order@[k] == x;
                    assert(old(self).order@[k] == x);
                }
                if x == id {
                    assert(self.order@[old(self).order@.len() as int] == id);
                }
                if old(self).order@.contains(x) {
                    let k = choose|k: int| 0 <= k < old(self).order@.len() && old(self).order@[k] == x;
                    assert(self.order@[k] == x);
                }
            }
        }
        self.sessions.insert(id, session);
    }

    /// Removes the session with identifier `id`, if any.
    pub fn remove(&mut self, id: u128)
        requires
            old(self).wf(),
        ensures
            final(self).wf(),
            final(self).sessions() == old(self).sessions().remove(id),
    {
        if self.sessions.contains_key(&id) {
            let n = self.order.len();
            let mut k: usize = 0;
            while k < n && self.order[k] != id
                invariant
                    n == self.order@.len(),
                    k <= n,
                    forall|j: int| 0 <= j < k ==> self.order@[j] != id,
                decreases n - k,
            {
                k = k + 1;
            }
            assert(k < n) by {
                assert(self.order@.contains(id));
                if k == n {
                    let j = choose|j: int| 0 <= j < self.order@.len() && self.order@[j] == id;
                    assert(self.order@[j] != id);
                }
            }
            self.order.remove(k);
            let ghost o = old(self).order@;
            assert(self.order@ =~= o.remove(k as int));
            assert(self.order@.no_duplicates()) by {
                assert forall|a: int, b: int| 0 <= a < b < self.order@.len() implies self.order@[a]
                    != self.order@[b] by {
                    let a2 = if a < k { a } else { a + 1 };
                    let b2 = if b < k { b } else { b + 1 };
                    assert(o[a2] != o[b2]);
                }
            }
            assert forall|x: u128| #[trigger] self.order@.contains(x) <==> (o.contains(x) && x != id) by {
                if self.order@.contains(x) {
                    let j = choose|j: int| 0 <= j < self.order@.len() && self.order@[j] == x;
                    let j2 = if j < k { j } else { j + 1 };
                    assert(o[j2] == x);
                    assert(j2 != k);
                    assert(o[k as int] == id);
                }
                if o.contains(x) && x != id {
                    let j = choose|j: int| 0 <= j < o.len() && o[j] == x;
                    assert(j != k);
                    if j < k {
                        assert(self.order@[j] == x);
                    } else {
                        assert(self.order@[j - 1] == x);
                    }
                }
            }
        }
        self.sessions.remove(&id);
        assert(self.sessions@ =~= old(self).sessions@.remove(id));
    }

    /// What the subscriber is told of each session, in order of arrival:
    /// every session exactly once.
    pub fn snapshot(&self) -> (r: Vec<SubscriberSessionInfo>)
        requires
            self.wf(),
        ensures
            r@.len() == self.sessions().len(),
            forall|i: int|
                0 <= i < r@.len() ==> self.sessions().contains_key((#[trigger] r@[i]).association_id)
                    && r@[i].start_timestamp == self.sessions()[r@[i].association_id].start_timestamp,
            forall|id: u128|
                #[trigger] self.sessions().contains_key(id) ==> exists|i: int|
                    0 <= i < r@.len() && #[trigger] r@[i].association_id == id,
            forall|i: int, j: int|
                0 <= i < j < r@.len() ==> #[trigger] r@[i].association_id != #[trigger] r@[j].association_id,
    {
        let mut out: Vec<SubscriberSessionInfo> = Vec::new();
        let n = self.order.len();
        let mut k: usize = 0;
        while k < n
            invariant
                n == self.order@.len(),
                self.wf(),
                k <= n,
                out@.len() == k,
                forall|i: int|
                    0 <= i < k ==> (#[trigger] out@[i]).association_id == self.order@[i]
                        && self.sessions().contains_key(out@[i].association_id)
                        && out@[i].start_timestamp
                        == self.sessions()[out@[i].association_id].start_timestamp,
            decreases n - k,
        {
            let id = self.order[k];
            assert(self.order@.contains(id));
            match self.sessions.get(&id) {
                Some(session) => {
                    out.push(session.subscriber_info());
                },
                None => {
                    assert(false);
                },
            }
            k = k + 1;
        }
        proof {
            self.order@.unique_seq_to_set();
            assert(self.order@.to_set() =~= self.sessions().dom());
            assert forall|id: u128| #[trigger] self.sessions().contains_key(id) implies exists|i: int|
                0 <= i < out@.len() && #[trigger] out@[i].association_id == id by {
                let j = choose|j: int| 0 <= j < self.order@.len() && self.order@[j] == id;
                assert(out@[j].association_id == id);
            }
            assert forall|i: int, j: int| 0 <= i < j < out@.len() implies #[trigger] out@[i].association_id
                != #[trigger] out@[j].association_id by {
                assert(self.order@[i] != self.order@[j]);
            }
        }
        out
    }
}

/// Registers `session` as in progress.
pub fn add_session_in_progress(registry: &mut SessionRegistry, session: GatewaySessionInfo)
    requires
        old(registry).wf(),
    ensures
        final(registry).wf(),
        final(registry).sessions() == old(registry).sessions().insert(session.association_id, session),
{
    registry.add(session);
}

/// Removes the session with identifier `id` from the sessions in progress.
pub fn remove_session_in_progress(registry: &mut SessionRegistry, id: u128)
    requires
        old(registry).wf(),
    ensures
        final(registry).wf(),
        final(registry).sessions() == old(registry).sessions().remove(id),
{
    registry.remove(id);
}

} // verus!
