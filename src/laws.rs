use vstd::prelude::*;
use crate::driver::{action_handle, reply_handle, SwarmAction, SwarmDriver};
use crate::types::{MsgResponder, Multiaddr, PeerId, SwarmCmd, XorName};

verus! {

/// A command that owes an answer hands its completion handle on, unchanged,
/// in the action decided for it; the one exception is a dial to a peer that
/// is being dialed already.
pub proof fn lemma_reply_handle_carried<H, C>(
    d: SwarmDriver<H>,
    cmd: SwarmCmd<H, C>,
    a: SwarmAction<H, C>,
)
    requires
        d.answers(cmd, a),
        (reply_handle(cmd) is Some),
        match cmd {
            SwarmCmd::Dial { peer_id, .. } => !d.dials().contains_key(peer_id@),
            _ => true,
        },
    ensures
        action_handle(a) == reply_handle(cmd),
{
}

/// While a dial to a peer is pending, a second dial to it does nothing: its
/// handle is dropped unanswered, and the pending entry stays as it was.
pub proof fn lemma_second_dial_dropped<H, C>(
    before: SwarmDriver<H>,
    after: SwarmDriver<H>,
    peer_id: PeerId,
    peer_addr: Multiaddr,
    first: H,
    second: H,
    a: SwarmAction<H, C>,
)
    requires
        !before.dials().contains_key(peer_id@),
        after.dials() == before.dials().insert(peer_id@, first),
        after.answers((SwarmCmd::Dial { peer_id, peer_addr, sender: second }), a),
    ensures
        a == SwarmAction::<H, C>::AlreadyDialing,
        (action_handle(a) is None),
        after.dials().contains_key(peer_id@),
        after.dials()[peer_id@] == first,
{
}

/// A request for the locally closest peers is answered directly, with the
/// name's bytes as the key; it asks the network stack for no identifier, so
/// nothing is registered for it.
pub proof fn lemma_local_closest_peers_answered_at_once<H, C>(
    d: SwarmDriver<H>,
    xor_name: XorName,
    sender: H,
    a: SwarmAction<H, C>,
)
    requires
        d.answers((SwarmCmd::GetClosestLocalPeers { xor_name, sender }), a),
    ensures
        (a is ReplyLocalClosestPeers),
        match a {
            SwarmAction::ReplyLocalClosestPeers { key, sender: s } => key@ == xor_name.0@ && s
                == sender,
            _ => false,
        },
{
}

/// A request to this node itself never goes to the wire: it comes back as an
/// inbound request whose responder is the caller's own handle, and the
/// response given through that responder reaches the same handle unchanged.
pub proof fn lemma_self_request_round_trip<H, C>(
    d: SwarmDriver<H>,
    req: Vec<u8>,
    peer: PeerId,
    sender: H,
    resp: Vec<u8>,
    sent: SwarmAction<H, C>,
    answered: SwarmAction<H, C>,
)
    requires
        peer@ == d.local_id(),
        d.answers((SwarmCmd::SendRequest { req, peer, sender }), sent),
        d.answers(
            (SwarmCmd::SendResponse { resp, channel: MsgResponder::FromSelf(sender) }),
            answered,
        ),
    ensures
        !(sent is SendRequest),
        sent == (SwarmAction::<H, C>::DeliverToSelf {
            req,
            responder: MsgResponder::FromSelf(sender),
        }),
        answered == (SwarmAction::<H, C>::ReplyToSelf { sender, resp }),
{
}

/// Taking an identifier out of a table twice: the second time finds nothing
/// and leaves the table as it was, so a late or repeated completion event
/// delivers nothing.
pub proof fn lemma_second_take_finds_nothing<K, V>(table: Map<K, V>, id: K)
    ensures
        (table.remove(id).get(id) is None),
        table.remove(id).remove(id) == table.remove(id),
{
    assert(table.remove(id).remove(id) =~= table.remove(id));
}

} // verus!
