//! Where inbound messages come from: the queue of one connection, or the
//! queues of many, merged.

use vstd::prelude::*;
use std::task::{Context, Poll};
use crate::channel::{
    merged_count,
    poll_receiver_stream,
    poll_select_all,
    receiver_stream,
    select_all,
    InboundStream,
};
use crate::wire::ReceivedMessage;

verus! {

#[derive(Debug)]
enum NetworkSourceUnion {
    SingleSource(InboundStream),
    ManySource(futures::stream::SelectAll<InboundStream>),
}

/// All messages routed to one application, from one peer's queue or from
/// the queues of all its peers. A merged source keeps each peer's messages
/// in their order and ends when every queue has closed; a single source
/// ends when its queue closes.
#[derive(Debug)]
pub struct NetworkSource {
    source: NetworkSourceUnion,
}

/// The queues of many connections as one stream, which holds every one of
/// them.
fn merge_receivers(receivers: Vec<tokio::sync::mpsc::Receiver<ReceivedMessage>>) -> (merged:
    futures::stream::SelectAll<InboundStream>)
    ensures
        merged_count(merged) == receivers@.len(),
{
    let mut streams: Vec<InboundStream> = Vec::new();
    for receiver in iter: receivers
        invariant
            iter.seq() == receivers@,
            streams.len() == iter.index(),
    {
        streams.push(receiver_stream(receiver));
    }
    select_all(streams)
}

impl NetworkSource {
    /// Whether the source is the queue of a single connection.
    pub closed spec fn is_single(&self) -> bool {
        self.source is SingleSource
    }

    /// Of a merged source, how many queues it holds: those it was made of
    /// that have not ended yet. Of a single source, `None`.
    pub closed spec fn merged_queues(&self) -> Option<nat> {
        match self.source {
            NetworkSourceUnion::SingleSource(_) => None,
            NetworkSourceUnion::ManySource(merged) => Some(merged_count(merged)),
        }
    }

    pub fn new_single_source(network_source: tokio::sync::mpsc::Receiver<ReceivedMessage>) -> (r:
        Self)
        ensures
            r.is_single(),
    {
        NetworkSource { source: NetworkSourceUnion::SingleSource(receiver_stream(network_source)) }
    }

    pub fn new_multi_source(receivers: Vec<tokio::sync::mpsc::Receiver<ReceivedMessage>>) -> (r:
        Self)
        ensures
            !r.is_single(),
            r.merged_queues() == Some(receivers@.len()),
    {
        NetworkSource { source: NetworkSourceUnion::ManySource(merge_receivers(receivers)) }
    }

    /// Asks the source for its next message: one message, the end of the
    /// source, or nothing yet. Which it is lies with the tasks that fill
    /// the queues. A merged source takes no queue in, and it ends only when
    /// none of its queues is left.
    pub fn poll_next(&mut self, cx: &mut Context<'_>) -> (r: Poll<Option<ReceivedMessage>>)
        ensures
            final(self).is_single() == old(self).is_single(),
            old(self).merged_queues() matches Some(before) ==> {
                &&& final(self).merged_queues() matches Some(after)
                &&& after <= before
                &&& r matches Poll::Ready(None) ==> after == 0
            },
    {
        match &mut self.source {
            NetworkSourceUnion::SingleSource(rs) => poll_receiver_stream(rs, cx),
            NetworkSourceUnion::ManySource(sa) => poll_select_all(sa, cx),
        }
    }
}

/// A source is either single or merged: it counts merged queues exactly
/// when it is not single.
pub proof fn single_or_merged(source: NetworkSource)
    ensures
        source.is_single() <==> source.merged_queues() is None,
{
}

} // verus!
