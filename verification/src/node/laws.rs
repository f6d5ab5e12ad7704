//! What holds of the node whatever it is handed.

use crate::accumulator::Vote;
use crate::error::RoutingError;
use crate::messages::{RoutingMessage, SignedMessage};
use crate::node::{
    Action, RoutingNode, SIGNED_MESSAGE_TTL, accumulated, after_cache_and_handle, after_dispatch,
    after_handle_routing_message, after_handle_signed_message, after_routing_check, cache_lookup,
    cached, dropped, noted, quorum_in_force, request, response,
};
use crate::xor_name::XorName;
use vstd::prelude::*;

verus! {

/// Handling a request or a response leaves the filter of signed messages as
/// it is.
pub proof fn lemma_dispatch_keeps_filter(
    pre: RoutingNode,
    post: RoutingNode,
    msg: RoutingMessage,
    now: u64,
    r: Result<(), RoutingError>,
    before: Seq<Action>,
    after: Seq<Action>,
)
    requires
        after_dispatch(pre, post, msg, now, r, before, after),
    ensures
        post.signed_message_filter == pre.signed_message_filter,
{
}

/// What follows the noting of a signed message leaves the filter of signed
/// messages as it is.
pub proof fn lemma_handling_keeps_filter(
    seen: RoutingNode,
    post: RoutingNode,
    msg: SignedMessage,
    hop_name: XorName,
    now: u64,
    r: Result<(), RoutingError>,
    before: Seq<Action>,
    after: Seq<Action>,
)
    requires
        after_routing_check(seen, post, msg, hop_name, now, r, before, after),
    ensures
        post.signed_message_filter == seen.signed_message_filter,
{
    assert forall|a: RoutingNode, b: RoutingNode, key: XorName, bf: Seq<Action>|
        after_handle_routing_message(a, b, msg.content, msg.public_id, key, now, r, bf, after) implies b.signed_message_filter
        == a.signed_message_filter by {
        if !crate::accumulator::decided(a.message_accumulator@, key, now) {
            if msg.content.source().group() {
                let counted = crate::accumulator::tally_add(
                    quorum_in_force(a),
                    key,
                    Vote::Signed(msg.public_id.signing_public_key),
                    now,
                );
                if counted.1 is Complete {
                    let mid = choose|mid: RoutingNode| #[trigger]
                        accumulated(a, mid, counted.0) && after_dispatch(
                            mid,
                            b,
                            msg.content,
                            now,
                            r,
                            bf,
                            after,
                        );
                    lemma_dispatch_keeps_filter(mid, b, msg.content, now, r, bf, after);
                }
            } else {
                lemma_dispatch_keeps_filter(a, b, msg.content, now, r, bf, after);
            }
        }
    }
    assert forall|a: RoutingNode, b: RoutingNode, bf: Seq<Action>|
        after_cache_and_handle(a, b, msg, now, r, bf, after) implies b.signed_message_filter
        == a.signed_message_filter by {
        if cache_lookup(a, msg.content, now).is_none() {
            let kept = choose|kept: RoutingNode| #[trigger]
                cached(a, kept, msg.content, now) && if !kept.routing_table.is_close_to(
                    msg.content.destination().name(),
                ) {
                    b == kept && r.is_ok() && after == bf.push(Action::Resend)
                } else {
                    after_handle_routing_message(
                        kept,
                        b,
                        msg.content,
                        msg.public_id,
                        msg.content_digest(),
                        now,
                        r,
                        bf,
                        after,
                    )
                };
            assert(kept.signed_message_filter == a.signed_message_filter);
        }
    }
}

/// A signed message that comes a second time is dropped: if a message that
/// is intact and new is handled at `first`, then handling it again at
/// `second`, less than `SIGNED_MESSAGE_TTL` later, is turned down as a
/// duplicate, whatever hop brings it; the node stays as it is and no action
/// is taken.
pub proof fn lemma_replay_is_dropped(
    pre: RoutingNode,
    mid: RoutingNode,
    post: RoutingNode,
    msg: SignedMessage,
    first_hop: XorName,
    second_hop: XorName,
    first: u64,
    second: u64,
    r1: Result<(), RoutingError>,
    r2: Result<(), RoutingError>,
    a0: Seq<Action>,
    a1: Seq<Action>,
    a2: Seq<Action>,
)
    requires
        pre.wf(),
        msg.intact(),
        !pre.signed_message_filter.holds(msg.signed_digest(), first),
        after_handle_signed_message(pre, mid, msg, first_hop, first, r1, a0, a1),
        first <= second < first + SIGNED_MESSAGE_TTL,
        after_handle_signed_message(mid, post, msg, second_hop, second, r2, a1, a2),
    ensures
        r2 == Err::<(), RoutingError>(RoutingError::FilterCheckFailed),
        post == mid,
        a2 == a1,
{
    let seen = choose|seen: RoutingNode| #[trigger]
        noted(pre, seen, msg.signed_digest(), first) && after_routing_check(
            seen,
            mid,
            msg,
            first_hop,
            first,
            r1,
            a0,
            a1,
        );
    lemma_handling_keeps_filter(seen, mid, msg, first_hop, first, r1, a0, a1);
    assert(mid.signed_message_filter.times().contains_key(msg.signed_digest()));
    assert(mid.signed_message_filter.times()[msg.signed_digest()] == first);
    assert(mid.signed_message_filter.time_to_live() == SIGNED_MESSAGE_TTL);
}

} // verus!
