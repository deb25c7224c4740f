use vstd::prelude::*;
use std::collections::HashMap;
use crate::table::{DialTable, distinct_peers, merge_peers, peer_set};
use crate::types::{Error, MsgResponder, Multiaddr, PeerId, Quorum, Record, SwarmCmd};

verus! {

broadcast use vstd::std_specs::hash::group_hash_axioms;

/// What the network stack is to do for one command.
pub enum SwarmAction<H, C> {
    /// A dial to the peer is already pending: nothing is done, and the
    /// command's handle is dropped unanswered.
    AlreadyDialing,
    /// Listen on `addr`, and answer `sender` with the outcome.
    Listen { addr: Multiaddr, sender: H },
    /// Add `peer_addr` to the routing table as a hint for `peer_id`, dial the
    /// peer there, and report the outcome through `SwarmDriver::dial_outcome`.
    Dial { peer_id: PeerId, peer_addr: Multiaddr, sender: H },
    /// Start a network-wide closest-peers query for `key`, and register it
    /// through `SwarmDriver::closest_peers_query_started`.
    QueryClosestPeers { key: Vec<u8>, sender: H },
    /// Answer `sender` at once with the local routing table's peers closest
    /// to `key`.
    ReplyLocalClosestPeers { key: Vec<u8>, sender: H },
    /// Hand the request to the upstream event path as an inbound request.
    DeliverToSelf { req: Vec<u8>, responder: MsgResponder<H, C> },
    /// Send the request over the wire, and register it through
    /// `SwarmDriver::request_sent`.
    SendRequest { peer: PeerId, req: Vec<u8>, sender: H },
    /// Answer the local caller's handle with the response.
    ReplyToSelf { sender: H, resp: Vec<u8> },
    /// Hand the response to the transport for the remote peer.
    ReplyToPeer { channel: C, resp: Vec<u8> },
    /// Answer `sender` with a fresh snapshot of the local state.
    ReportLocalState { sender: H },
    /// Store the record in the network; nothing waits for the outcome.
    PutRecord { record: Record, quorum: Quorum },
    /// Start a record lookup for `key`, and register it through
    /// `SwarmDriver::query_started`.
    GetRecord { key: Vec<u8>, sender: H },
}

/// The completion handle that a command owes an answer to, if any.
pub open spec fn reply_handle<H, C>(cmd: SwarmCmd<H, C>) -> Option<H> {
    match cmd {
        SwarmCmd::StartListening { sender, .. } => Some(sender),
        SwarmCmd::Dial { sender, .. } => Some(sender),
        SwarmCmd::QueryForClosestPeers { sender, .. } => Some(sender),
        SwarmCmd::GetClosestLocalPeers { sender, .. } => Some(sender),
        SwarmCmd::SendRequest { sender, .. } => Some(sender),
        SwarmCmd::SendResponse { channel, .. } => match channel {
            MsgResponder::FromSelf(h) => Some(h),
            MsgResponder::FromPeer(_) => None,
        },
        SwarmCmd::GetSwarmLocalState(sender) => Some(sender),
        SwarmCmd::PutProvidedDataAsRecord { .. } => None,
        SwarmCmd::GetData { sender, .. } => Some(sender),
    }
}

/// The completion handle that an action carries, if any.
pub open spec fn action_handle<H, C>(a: SwarmAction<H, C>) -> Option<H> {
    match a {
        SwarmAction::AlreadyDialing => None,
        SwarmAction::Listen { sender, .. } => Some(sender),
        SwarmAction::Dial { sender, .. } => Some(sender),
        SwarmAction::QueryClosestPeers { sender, .. } => Some(sender),
        SwarmAction::ReplyLocalClosestPeers { sender, .. } => Some(sender),
        SwarmAction::DeliverToSelf { responder, .. } => match responder {
            MsgResponder::FromSelf(h) => Some(h),
            MsgResponder::FromPeer(_) => None,
        },
        SwarmAction::SendRequest { sender, .. } => Some(sender),
        SwarmAction::ReplyToSelf { sender, .. } => Some(sender),
        SwarmAction::ReplyToPeer { .. } => None,
        SwarmAction::ReportLocalState { sender } => Some(sender),
        SwarmAction::PutRecord { .. } => None,
        SwarmAction::GetRecord { sender, .. } => Some(sender),
    }
}

/// What became of a dial attempt's completion handle.
pub enum DialRegistration<H, E> {
    /// The dial is under way; the handle waits in the dial table.
    Pending,
    /// The dial failed at once: the handle is to be answered with the error.
    Failed(H, E),
    /// A dial to the peer was pending already; the handle comes back unanswered.
    Duplicate(H),
}

impl<H, C> SwarmAction<H, C> {
    /// The error that the processor reports when this action's own delivery
    /// step fails; `None` where a failure is the caller's business alone.
    pub fn delivery_error(&self) -> (r: Option<Error>)
        ensures
            r == match *self {
                SwarmAction::ReplyToSelf { .. } => Some(Error::InternalMsgChannelDropped),
                SwarmAction::ReportLocalState { .. } => Some(Error::InternalMsgChannelDropped),
                SwarmAction::ReplyToPeer { .. } => Some(Error::OutgoingResponseDropped),
                SwarmAction::DeliverToSelf { .. } => Some(Error::EventChannelClosed),
                _ => None::<Error>,
            },
    {
        match self {
            SwarmAction::ReplyToSelf { .. } => Some(Error::InternalMsgChannelDropped),
            SwarmAction::ReportLocalState { .. } => Some(Error::InternalMsgChannelDropped),
            SwarmAction::ReplyToPeer { .. } => Some(Error::OutgoingResponseDropped),
            SwarmAction::DeliverToSelf { .. } => Some(Error::EventChannelClosed),
            _ => None,
        }
    }
}

/// The single owner of the node's correlation tables.
pub struct SwarmDriver<H> {
    local_peer_id: PeerId,
    pending_dial: DialTable<H>,
    pending_query: HashMap<u64, H>,
    pending_get_closest_peers: HashMap<u64, (H, Vec<PeerId>)>,
    pending_requests: HashMap<u64, H>,
}

impl<H> SwarmDriver<H> {
    /// This node's own identity.
    pub closed spec fn local_id(&self) -> Seq<u8> {
        self.local_peer_id@
    }

    /// Pending dials, by peer.
    pub closed spec fn dials(&self) -> Map<Seq<u8>, H> {
        self.pending_dial@
    }

    /// Pending record lookups, by operation identifier.
    pub closed spec fn queries(&self) -> Map<u64, H> {
        self.pending_query@
    }

    /// Pending closest-peers queries, by operation identifier, each with the
    /// peers gathered so far.
    pub closed spec fn closest(&self) -> Map<u64, (H, Set<Seq<u8>>)> {
        self.pending_get_closest_peers@.map_values(|e: (H, Vec<PeerId>)| (e.0, peer_set(e.1@)))
    }

    /// Pending outbound requests, by operation identifier.
    pub closed spec fn requests(&self) -> Map<u64, H> {
        self.pending_requests@
    }

    /// The tables are consistent: a query identifier stands in at most one
    /// of the two query tables, and each accumulator names a peer once.
    pub closed spec fn wf(&self) -> bool {
        &&& self.pending_dial.wf()
        &&& forall|id: u64|
            !(#[trigger] self.pending_query@.contains_key(id)
                && self.pending_get_closest_peers@.contains_key(id))
        &&& forall|id: u64| #[trigger]
            self.pending_get_closest_peers@.contains_key(id) ==> distinct_peers(
                self.pending_get_closest_peers@[id].1@,
            )
    }

    /// Whether `a` is what the processor does for `cmd` in this state.
    pub open spec fn answers<C>(&self, cmd: SwarmCmd<H, C>, a: SwarmAction<H, C>) -> bool {
        match cmd {
            SwarmCmd::StartListening { addr, sender } => a == SwarmAction::<H, C>::Listen {
                addr,
                sender,
            },
            SwarmCmd::Dial { peer_id, peer_addr, sender } => if self.dials().contains_key(
                peer_id@,
            ) {
                a == SwarmAction::<H, C>::AlreadyDialing
            } else {
                a == SwarmAction::<H, C>::Dial { peer_id, peer_addr, sender }
            },
            SwarmCmd::QueryForClosestPeers { xor_name, sender } => match a {
                SwarmAction::QueryClosestPeers { key, sender: s } => key@ == xor_name.0@ && s
                    == sender,
                _ => false,
            },
            SwarmCmd::GetClosestLocalPeers { xor_name, sender } => match a {
                SwarmAction::ReplyLocalClosestPeers { key, sender: s } => key@ == xor_name.0@
                    && s == sender,
                _ => false,
            },
            SwarmCmd::SendRequest { req, peer, sender } => if peer@ == self.local_id() {
                a == SwarmAction::<H, C>::DeliverToSelf {
                    req,
                    responder: MsgResponder::FromSelf(sender),
                }
            } else {
                a == SwarmAction::<H, C>::SendRequest { peer, req, sender }
            },
            SwarmCmd::SendResponse { resp, channel } => match channel {
                MsgResponder::FromSelf(h) => a == SwarmAction::<H, C>::ReplyToSelf {
                    sender: h,
                    resp,
                },
                MsgResponder::FromPeer(c) => a == SwarmAction::<H, C>::ReplyToPeer {
                    channel: c,
                    resp,
                },
            },
            SwarmCmd::GetSwarmLocalState(sender) => a == SwarmAction::<H, C>::ReportLocalState {
                sender,
            },
            SwarmCmd::PutProvidedDataAsRecord { record } => a == SwarmAction::<H, C>::PutRecord {
                record,
                quorum: Quorum::All,
            },
            SwarmCmd::GetData { key, sender } => a == SwarmAction::<H, C>::GetRecord {
                key,
                sender,
            },
        }
    }

    pub fn new(local_peer_id: PeerId) -> (r: SwarmDriver<H>)
        ensures
            r.wf(),
            r.local_id() == local_peer_id@,
            r.dials() == Map::<Seq<u8>, H>::empty(),
            r.queries() == Map::<u64, H>::empty(),
            r.closest() == Map::<u64, (H, Set<Seq<u8>>)>::empty(),
            r.requests() == Map::<u64, H>::empty(),
    {
        let r = SwarmDriver {
            local_peer_id,
            pending_dial: DialTable::new(),
            pending_query: HashMap::new(),
            pending_get_closest_peers: HashMap::new(),
            pending_requests: HashMap::new(),
        };
        assert(r.closest() =~= Map::<u64, (H, Set<Seq<u8>>)>::empty());
        r
    }

    /// This node's own identity.
    pub fn local_peer_id(&self) -> (r: &PeerId)
        ensures
            r@ == self.local_id(),
    {
        &self.local_peer_id
    }

    /// Records the outcome of a dial started for `Dial`: on success the
    /// handle waits in the dial table for the connection's outcome.
    pub fn dial_outcome<E>(&mut self, peer_id: PeerId, sender: H, outcome: Result<(), E>) -> (r:
        DialRegistration<H, E>)
        requires
            old(self).wf(),
        ensures
            final(self).wf(),
            final(self).local_id() == old(self).local_id(),
            final(self).queries() == old(self).queries(),
            final(self).closest() == old(self).closest(),
            final(self).requests() == old(self).requests(),
            match outcome {
                Ok(()) => if old(self).dials().contains_key(peer_id@) {
                    r == DialRegistration::<H, E>::Duplicate(sender) && final(self).dials()
                        == old(self).dials()
                } else {
                    r == DialRegistration::<H, E>::Pending && final(self).dials() == old(
                        self,
                    ).dials().insert(peer_id@, sender)
                },
                Err(e) => r == DialRegistration::<H, E>::Failed(sender, e) && final(self).dials()
                    == old(self).dials(),
            },
    {
        match outcome {
            Ok(()) => match self.pending_dial.insert(peer_id, sender) {
                Ok(()) => DialRegistration::Pending,
                Err(h) => DialRegistration::Duplicate(h),
            },
            Err(e) => DialRegistration::Failed(sender, e),
        }
    }

    /// Registers a record lookup under the identifier the network stack gave
    /// it; refuses, handing the handle back, where the identifier is in use.
    pub fn query_started(&mut self, id: u64, sender: H) -> (r: Result<(), H>)
        requires
            old(self).wf(),
        ensures
            final(self).wf(),
            final(self).local_id() == old(self).local_id(),
            final(self).dials() == old(self).dials(),
            final(self).closest() == old(self).closest(),
            final(self).requests() == old(self).requests(),
            if old(self).queries().contains_key(id) || old(self).closest().contains_key(id) {
                r == Err::<(), H>(sender) && final(self).queries() == old(self).queries()
            } else {
                r == Ok::<(), H>(()) && final(self).queries() == old(self).queries().insert(
                    id,
                    sender,
                )
            },
    {
        if self.pending_query.contains_key(&id) || self.pending_get_closest_peers.contains_key(&id) {
            return Err(sender);
        }
        self.pending_query.insert(id, sender);
        Ok(())
    }

    /// Registers a closest-peers query under the identifier the network stack
    /// gave it, with nothing gathered yet; refuses, handing the handle back,
    /// where the identifier is in use.
    pub fn closest_peers_query_started(&mut self, id: u64, sender: H) -> (r: Result<(), H>)
        requires
            old(self).wf(),
        ensures
            final(self).wf(),
            final(self).local_id() == old(self).local_id(),
            final(self).dials() == old(self).dials(),
            final(self).queries() == old(self).queries(),
            final(self).requests() == old(self).requests(),
            if old(self).queries().contains_key(id) || old(self).closest().contains_key(id) {
                r == Err::<(), H>(sender) && final(self).closest() == old(self).closest()
            } else {
                r == Ok::<(), H>(()) && final(self).closest() == old(self).closest().insert(
                    id,
                    (sender, Set::<Seq<u8>>::empty()),
                )
            },
    {
        if self.pending_query.contains_key(&id) || self.pending_get_closest_peers.contains_key(&id) {
            return Err(sender);
        }
        let acc: Vec<PeerId> = Vec::new();
        self.pending_get_closest_peers.insert(id, (sender, acc));
        assert(peer_set(acc@) =~= Set::<Seq<u8>>::empty());
        assert(self.closest() =~= old(self).closest().insert(id, (sender, Set::<Seq<u8>>::empty())));
        Ok(())
    }

    /// Registers an outbound request under the identifier the network stack
    /// gave it; refuses, handing the handle back, where the identifier is in use.
    pub fn request_sent(&mut self, id: u64, sender: H) -> (r: Result<(), H>)
        requires
            old(self).wf(),
        ensures
            final(self).wf(),
            final(self).local_id() == old(self).local_id(),
            final(self).dials() == old(self).dials(),
            final(self).queries() == old(self).queries(),
            final(self).closest() == old(self).closest(),
            if old(self).requests().contains_key(id) {
                r == Err::<(), H>(sender) && final(self).requests() == old(self).requests()
            } else {
                r == Ok::<(), H>(()) && final(self).requests() == old(self).requests().insert(
                    id,
                    sender,
                )
            },
    {
        if self.pending_requests.contains_key(&id) {
            return Err(sender);
        }
        self.pending_requests.insert(id, sender);
        Ok(())
    }

    /// Takes out the pending dial to `peer`, once its outcome is known.
    pub fn take_dial(&mut self, peer: &PeerId) -> (r: Option<H>)
        requires
            old(self).wf(),
        ensures
            final(self).wf(),
            r == old(self).dials().get(peer@),
            final(self).dials() == old(self).dials().remove(peer@),
            final(self).local_id() == old(self).local_id(),
            final(self).queries() == old(self).queries(),
            final(self).closest() == old(self).closest(),
            final(self).requests() == old(self).requests(),
    {
        self.pending_dial.remove(peer)
    }

    /// Takes out the pending record lookup `id`, once its result is known.
    pub fn take_query(&mut self, id: u64) -> (r: Option<H>)
        requires
            old(self).wf(),
        ensures
            final(self).wf(),
            r == old(self).queries().get(id),
            final(self).queries() == old(self).queries().remove(id),
            final(self).local_id() == old(self).local_id(),
            final(self).dials() == old(self).dials(),
            final(self).closest() == old(self).closest(),
            final(self).requests() == old(self).requests(),
    {
        self.pending_query.remove(&id)
    }

    /// Takes out the pending outbound request `id`, once its response or
    /// failure is known.
    pub fn take_request(&mut self, id: u64) -> (r: Option<H>)
        requires
            old(self).wf(),
        ensures
            final(self).wf(),
            r == old(self).requests().get(id),
            final(self).requests() == old(self).requests().remove(id),
            final(self).local_id() == old(self).local_id(),
            final(self).dials() == old(self).dials(),
            final(self).queries() == old(self).queries(),
            final(self).closest() == old(self).closest(),
    {
        self.pending_requests.remove(&id)
    }

    /// Adds the peers that a progress event of query `id` reports to what it
    /// has gathered; `false`, with nothing changed, where no such query is
    /// pending.
    pub fn add_closest_peers(&mut self, id: u64, peers: Vec<PeerId>) -> (r: bool)
        requires
            old(self).wf(),
        ensures
            final(self).wf(),
            r == old(self).closest().contains_key(id),
            final(self).closest() == if r {
                old(self).closest().insert(
                    id,
                    (old(self).closest()[id].0, old(self).closest()[id].1.union(peer_set(peers@))),
                )
            } else {
                old(self).closest()
            },
            final(self).local_id() == old(self).local_id(),
            final(self).dials() == old(self).dials(),
            final(self).queries() == old(self).queries(),
            final(self).requests() == old(self).requests(),
    {
        match self.pending_get_closest_peers.remove(&id) {
            None => {
                assert(self.pending_get_closest_peers@ =~= old(self).pending_get_closest_peers@);
                false
            },
            Some((h, acc)) => {
                let mut acc = acc;
                merge_peers(&mut acc, peers);
                self.pending_get_closest_peers.insert(id, (h, acc));
                assert(self.pending_get_closest_peers@ =~= old(
                    self,
                ).pending_get_closest_peers@.insert(id, (h, acc)));
                assert(self.closest() =~= old(self).closest().insert(
                    id,
                    (old(self).closest()[id].0, old(self).closest()[id].1.union(peer_set(peers@))),
                ));
                true
            },
        }
    }

    /// Takes out the closest-peers query `id` once it is exhausted, with the
    /// peers it gathered, each once.
    pub fn take_closest_peers(&mut self, id: u64) -> (r: Option<(H, Vec<PeerId>)>)
        requires
            old(self).wf(),
        ensures
            final(self).wf(),
            match r {
                Some((h, peers)) => old(self).closest().contains_key(id) && old(self).closest()[id]
                    == (h, peer_set(peers@)) && distinct_peers(peers@),
                None => !old(self).closest().contains_key(id),
            },
            final(self).closest() == old(self).closest().remove(id),
            final(self).local_id() == old(self).local_id(),
            final(self).dials() == old(self).dials(),
            final(self).queries() == old(self).queries(),
            final(self).requests() == old(self).requests(),
    {
        let r = self.pending_get_closest_peers.remove(&id);
        assert(self.closest() =~= old(self).closest().remove(id));
        r
    }

    /// Decides what the network stack is to do for one command.
    pub fn handle_cmd<C>(&self, cmd: SwarmCmd<H, C>) -> (r: SwarmAction<H, C>)
        requires
            self.wf(),
        ensures
            self.answers(cmd, r),
    {
        match cmd {
            SwarmCmd::StartListening { addr, sender } => SwarmAction::Listen { addr, sender },
            SwarmCmd::Dial { peer_id, peer_addr, sender } => {
                if self.pending_dial.contains(&peer_id) {
                    SwarmAction::AlreadyDialing
                } else {
                    SwarmAction::Dial { peer_id, peer_addr, sender }
                }
            },
            SwarmCmd::QueryForClosestPeers { xor_name, sender } => {
                SwarmAction::QueryClosestPeers { key: xor_name.to_key(), sender }
            },
            SwarmCmd::GetClosestLocalPeers { xor_name, sender } => {
                SwarmAction::ReplyLocalClosestPeers { key: xor_name.to_key(), sender }
            },
            SwarmCmd::SendRequest { req, peer, sender } => {
                if peer.same(&self.local_peer_id) {
                    SwarmAction::DeliverToSelf { req, responder: MsgResponder::FromSelf(sender) }
                } else {
                    SwarmAction::SendRequest { peer, req, sender }
                }
            },
            SwarmCmd::SendResponse { resp, channel } => match channel {
                MsgResponder::FromSelf(h) => SwarmAction::ReplyToSelf { sender: h, resp },
                MsgResponder::FromPeer(c) => SwarmAction::ReplyToPeer { channel: c, resp },
            },
            SwarmCmd::GetSwarmLocalState(sender) => SwarmAction::ReportLocalState { sender },
            SwarmCmd::PutProvidedDataAsRecord { record } => {
                SwarmAction::PutRecord { record, quorum: Quorum::All }
            },
            SwarmCmd::GetData { key, sender } => SwarmAction::GetRecord { key, sender },
        }
    }
}

} // verus!
