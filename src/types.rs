use vstd::prelude::*;

verus! {

/// A peer's identity, held as the bytes of its multihash.
pub struct PeerId {
    pub bytes: Vec<u8>,
}

impl View for PeerId {
    type V = Seq<u8>;

    open spec fn view(&self) -> Seq<u8> {
        self.bytes@
    }
}

impl PeerId {
    pub fn new(bytes: Vec<u8>) -> (r: PeerId)
        ensures
            r@ == bytes@,
    {
        PeerId { bytes }
    }

    /// Whether two identities are the same peer.
    pub fn same(&self, other: &PeerId) -> (r: bool)
        ensures
            r == (self@ == other@),
    {
        let n = self.bytes.len();
        if n != other.bytes.len() {
            return false;
        }
        let mut i: usize = 0;
        while i < n
            invariant
                n == self@.len(),
                n == other@.len(),
                i <= n,
                forall|j: int| 0 <= j < i ==> self@[j] == other@[j],
            decreases n - i,
        {
            if self.bytes[i] != other.bytes[i] {
                return false;
            }
            i = i + 1;
        }
        assert(self@ =~= other@);
        true
    }
}

/// A network address, held in its binary encoding.
pub struct Multiaddr {
    pub bytes: Vec<u8>,
}

impl View for Multiaddr {
    type V = Seq<u8>;

    open spec fn view(&self) -> Seq<u8> {
        self.bytes@
    }
}

impl Multiaddr {
    pub fn new(bytes: Vec<u8>) -> (r: Multiaddr)
        ensures
            r@ == bytes@,
    {
        Multiaddr { bytes }
    }
}

/// A 32-byte name in the network's key space.
pub struct XorName(pub [u8; 32]);

impl XorName {
    /// The lookup key of this name: its bytes, in order.
    pub fn to_key(&self) -> (r: Vec<u8>)
        ensures
            r@ == self.0@,
    {
        let mut key: Vec<u8> = Vec::new();
        let mut i: usize = 0;
        while i < 32
            invariant
                i <= 32,
                self.0@.len() == 32,
                key@ == self.0@.subrange(0, i as int),
            decreases 32 - i,
        {
            key.push(self.0[i]);
            i = i + 1;
            assert(key@ =~= self.0@.subrange(0, i as int));
        }
        assert(key@ =~= self.0@);
        key
    }
}

/// A key/value unit stored in the distributed hash table.
pub struct Record {
    pub key: Vec<u8>,
    pub value: Vec<u8>,
}

/// How many replica acknowledgments make a store operation succeed.
#[derive(PartialEq, Eq, Structural, Clone, Copy, Debug)]
pub enum Quorum {
    One,
    Majority,
    All,
}

/// How the answer to one inbound request is delivered: straight to a local
/// caller's completion handle, or through a response channel of the
/// transport back to a remote peer.
pub enum MsgResponder<H, C> {
    FromSelf(H),
    FromPeer(C),
}

/// Commands to the node's network core. `H` is a completion handle, `C` the
/// transport's channel for answering a remote peer's request.
pub enum SwarmCmd<H, C> {
    StartListening { addr: Multiaddr, sender: H },
    Dial { peer_id: PeerId, peer_addr: Multiaddr, sender: H },
    QueryForClosestPeers { xor_name: XorName, sender: H },
    GetClosestLocalPeers { xor_name: XorName, sender: H },
    SendRequest { req: Vec<u8>, peer: PeerId, sender: H },
    SendResponse { resp: Vec<u8>, channel: MsgResponder<H, C> },
    GetSwarmLocalState(H),
    /// Put data to the network as a record
    PutProvidedDataAsRecord { record: Record },
    /// Get data from the network's record store
    GetData { key: Vec<u8>, sender: H },
}

/// Snapshot of information kept in the network stack's local state.
pub struct SwarmLocalState {
    /// Currently connected peers
    pub connected_peers: Vec<PeerId>,
    /// Addresses the node is currently listening on
    pub listeners: Vec<Multiaddr>,
}

impl SwarmLocalState {
    /// A snapshot that owns copies of what it reports.
    pub fn new(connected_peers: Vec<PeerId>, listeners: Vec<Multiaddr>) -> (r: SwarmLocalState)
        ensures
            r.connected_peers@ == connected_peers@,
            r.listeners@ == listeners@,
    {
        SwarmLocalState { connected_peers, listeners }
    }
}

/// Failures of the command processor itself.
#[derive(PartialEq, Eq, Structural, Clone, Copy, Debug)]
pub enum Error {
    /// A local caller's channel was gone while an answer was still owed to it.
    InternalMsgChannelDropped,
    /// A response could not be handed to the transport for a remote peer.
    OutgoingResponseDropped,
    /// The upstream event path no longer accepts events.
    EventChannelClosed,
}

} // verus!
