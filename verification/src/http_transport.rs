//! The interface for the peers of a node: it takes their pings.

use std::time::SystemTime;
use vstd::prelude::*;
use crate::cluster::{state, Cluster, ClusterView};
use crate::http_utils::{Body, BodyView, Response, ResponseView, Status};
use crate::node::{Node, NodeView};

verus! {

/// What the body of a ping holds: the node that sent it, or the reason why
/// the body names no node.
pub open spec fn sender(body: Result<Node, String>) -> Result<NodeView, Seq<char>> {
    match body {
        Ok(node) => Ok(node@),
        Err(error) => Err(error@),
    }
}

/// Whether a node that knows `cluster` answers a ping with the given body by
/// `response`, knowing `after` from then on.
///
/// A node that knows nothing of its cluster yet is not available. A ping that
/// names no sender is a bad request and changes nothing. A ping of a node is
/// noted as the last ping of its sender, at some time, and answered with a
/// pong from the node itself.
pub open spec fn ping(
    cluster: Option<ClusterView>,
    body: Result<NodeView, Seq<char>>,
    after: Option<ClusterView>,
    response: ResponseView,
) -> bool {
    match cluster {
        None => after == cluster && response == ResponseView::empty(Status::ServiceUnavailable),
        Some(known) => match body {
            Err(error) => after == cluster && response == ResponseView {
                status: Status::BadRequest,
                body: BodyView::Error(error),
            },
            Ok(pinger) => {
                &&& exists|timestamp: SystemTime| after == Some(known.register_ping(pinger, timestamp))
                &&& response.status == Status::Success
                &&& response.body matches BodyView::Pong(pong) && pong.from == known.node
            },
        },
    }
}

/// Answers a ping.
pub fn handle_ping(cluster: &mut Option<Cluster>, body: Result<Node, String>) -> (response: Response<'static>)
    ensures
        ping(state(*old(cluster)), sender(body), state(*final(cluster)), response@),
{
    match cluster {
        Some(cluster) => match body {
            Ok(node) => {
                cluster.register_ping(node);
                Response { status: Status::Success, body: Body::Pong(cluster.make_pong()) }
            },
            Err(error) => Response { status: Status::BadRequest, body: Body::Error(error) },
        },
        None => Response { status: Status::ServiceUnavailable, body: Body::Empty },
    }
}

} // verus!
