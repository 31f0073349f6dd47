use vstd::prelude::*;

use crate::runloop::RunLoopCommand;

verus! {

/// A message read from a data-store chunk.
pub enum StackerDBMessage<P> {
    /// A signed packet of the threshold protocol.
    Packet(P),
    /// A block proposed by the miner, in its serialized form.
    Block(Vec<u8>),
}

/// One chunk of a data-store event, decoded, with the verdict of the outside
/// check that applies to it: the packet's signature check against the
/// committee's keys on the signer channel, the node's validation of the
/// proposed block on the miner channel.
pub struct DecodedChunk<P> {
    /// The decoded message; `None` when the bytes did not decode.
    pub message: Option<StackerDBMessage<P>>,
    /// Whether the message passed its check.
    pub accepted: bool,
}

/// The data-store channel that an event arrived on.
#[derive(Clone, Copy, Debug, PartialEq, Eq, Structural)]
pub enum EventChannel {
    /// The channel that miners write block proposals to.
    Miners,
    /// The channel that committee members write protocol packets to.
    Signers,
    /// Any other channel: the event is ignored.
    Unknown,
}

/// The packets that one chunk of the signer channel hands on to the
/// protocol engine: its packet when it decoded to one that passed its
/// signature check, and nothing otherwise.
pub open spec fn chunk_packets<P>(chunk: DecodedChunk<P>) -> Seq<P> {
    match chunk.message {
        Some(StackerDBMessage::Packet(p)) => if chunk.accepted {
            seq![p]
        } else {
            seq![]
        },
        _ => seq![],
    }
}

/// The packets that a signer-channel batch hands on, in chunk order.
pub open spec fn inbound_packets<P>(chunks: Seq<DecodedChunk<P>>) -> Seq<P>
    decreases chunks.len(),
{
    if chunks.len() == 0 {
        seq![]
    } else {
        inbound_packets(chunks.drop_last()) + chunk_packets(chunks.last())
    }
}

/// The signing command for a proposed block.
pub open spec fn sign_block(block: Vec<u8>) -> RunLoopCommand {
    RunLoopCommand::Sign { message: block, is_taproot: false, merkle_root: None }
}

/// The command that one miner-channel chunk asks for: signing its block
/// when it decoded to a proposal that the node found valid.
pub open spec fn chunk_proposal<P>(chunk: DecodedChunk<P>) -> Seq<RunLoopCommand> {
    match chunk.message {
        Some(StackerDBMessage::Block(block)) => if chunk.accepted {
            seq![sign_block(block)]
        } else {
            seq![]
        },
        _ => seq![],
    }
}

/// The signing commands that a miner-channel batch asks for, in chunk order.
pub open spec fn proposal_commands<P>(chunks: Seq<DecodedChunk<P>>) -> Seq<RunLoopCommand>
    decreases chunks.len(),
{
    if chunks.len() == 0 {
        seq![]
    } else {
        proposal_commands(chunks.drop_last()) + chunk_proposal(chunks.last())
    }
}

/// What a protocol capability produced, or nothing when it failed.
pub open spec fn produced<M, E>(out: Result<Vec<M>, E>) -> Seq<M> {
    match out {
        Ok(v) => v@,
        Err(_) => seq![],
    }
}

/// The coordinator's messages and round outcomes, or none when it failed.
pub open spec fn coordinated<M, R, E>(out: Result<(Vec<M>, Vec<R>), E>) -> (Seq<M>, Seq<R>) {
    match out {
        Ok((m, r)) => (m@, r@),
        Err(_) => (seq![], seq![]),
    }
}

/// The channel that an event on contract `contract_id` belongs to.
pub open spec fn channel_of(contract_id: Seq<char>, miners: Seq<char>, signers: Seq<char>) -> EventChannel {
    if contract_id == miners {
        EventChannel::Miners
    } else if contract_id == signers {
        EventChannel::Signers
    } else {
        EventChannel::Unknown
    }
}

/// Routes an event by the contract it was written to.
pub fn classify_event(contract_id: &String, miners: &String, signers: &String) -> (r: EventChannel)
    ensures
        r == channel_of(contract_id@, miners@, signers@),
{
    if *contract_id == *miners {
        EventChannel::Miners
    } else if *contract_id == *signers {
        EventChannel::Signers
    } else {
        EventChannel::Unknown
    }
}

/// Takes from a signer-channel batch the packets to hand to the protocol
/// engine: those that decoded and passed their signature check, in order.
/// Chunks that did not decode, block proposals and packets that failed the
/// check are dropped.
pub fn select_inbound_packets<P>(chunks: Vec<DecodedChunk<P>>) -> (r: Vec<P>)
    ensures
        r@ == inbound_packets(chunks@),
{
    let ghost all = chunks@;
    let total = chunks.len();
    let mut rest = chunks;
    let mut out: Vec<P> = Vec::new();
    let mut done: usize = 0;
    while rest.len() > 0
        invariant
            all.len() == total,
            done + rest@.len() == all.len(),
            rest@ == all.skip(done as int),
            out@ == inbound_packets(all.take(done as int)),
        decreases rest@.len(),
    {
        let chunk = rest.remove(0);
        proof {
            assert(chunk == all[done as int]);
            assert(all.take(done + 1).drop_last() == all.take(done as int));
        }
        if chunk.accepted {
            if let Some(StackerDBMessage::Packet(packet)) = chunk.message {
                out.push(packet);
            }
        }
        done = done + 1;
    }
    proof {
        assert(all.take(done as int) == all);
    }
    out
}

/// Joins what the two protocol roles produced for one batch: the signer's
/// outbound messages first, then the coordinator's, and the coordinator's
/// round outcomes. A role that failed contributes nothing.
pub fn gather_outbound<M, R, E, F>(
    signer: Result<Vec<M>, E>,
    coordinator: Result<(Vec<M>, Vec<R>), F>,
) -> (r: (Vec<M>, Vec<R>))
    ensures
        r.0@ == produced(signer) + coordinated(coordinator).0,
        r.1@ == coordinated(coordinator).1,
{
    let mut outbound = match signer {
        Ok(v) => v,
        Err(_) => Vec::new(),
    };
    let (mut messages, results) = match coordinator {
        Ok(pair) => pair,
        Err(_) => (Vec::new(), Vec::new()),
    };
    outbound.append(&mut messages);
    (outbound, results)
}

/// Splitting a signer-channel batch in two splits what it hands on.
pub proof fn lemma_inbound_packets_concat<P>(a: Seq<DecodedChunk<P>>, b: Seq<DecodedChunk<P>>)
    ensures
        inbound_packets(a + b) == inbound_packets(a) + inbound_packets(b),
    decreases b.len(),
{
    if b.len() == 0 {
        assert(a + b == a);
    } else {
        lemma_inbound_packets_concat(a, b.drop_last());
        assert((a + b).drop_last() == a + b.drop_last());
        assert((a + b).last() == b.last());
    }
}

/// Splitting a miner-channel batch in two splits the commands it asks for.
pub proof fn lemma_proposal_commands_concat<P>(a: Seq<DecodedChunk<P>>, b: Seq<DecodedChunk<P>>)
    ensures
        proposal_commands(a + b) == proposal_commands(a) + proposal_commands(b),
    decreases b.len(),
{
    if b.len() == 0 {
        assert(a + b == a);
    } else {
        lemma_proposal_commands_concat(a, b.drop_last());
        assert((a + b).drop_last() == a + b.drop_last());
        assert((a + b).last() == b.last());
    }
}

/// A chunk that contributes nothing on either channel can be taken out of a
/// batch without changing what the batch hands on or asks for.
proof fn lemma_silent_chunk_removed<P>(chunks: Seq<DecodedChunk<P>>, k: int)
    requires
        0 <= k < chunks.len(),
        chunk_packets(chunks[k]) == Seq::<P>::empty(),
        chunk_proposal(chunks[k]) == Seq::<RunLoopCommand>::empty(),
    ensures
        inbound_packets(chunks) == inbound_packets(chunks.remove(k)),
        proposal_commands(chunks) == proposal_commands(chunks.remove(k)),
{
    let front = chunks.take(k);
    let one = seq![chunks[k]];
    let back = chunks.skip(k + 1);
    assert(chunks == front + one + back);
    assert(chunks.remove(k) == front + back);
    assert(one.drop_last() == Seq::<DecodedChunk<P>>::empty());
    assert(one.last() == chunks[k]);
    assert(inbound_packets(one.drop_last()) == Seq::<P>::empty());
    assert(proposal_commands(one.drop_last()) == Seq::<RunLoopCommand>::empty());
    assert(inbound_packets(one) =~= Seq::<P>::empty());
    assert(proposal_commands(one) =~= Seq::<RunLoopCommand>::empty());
    lemma_inbound_packets_concat(front, one);
    lemma_inbound_packets_concat(front + one, back);
    lemma_inbound_packets_concat(front, back);
    assert(inbound_packets(front + one) =~= inbound_packets(front));
    lemma_proposal_commands_concat(front, one);
    lemma_proposal_commands_concat(front + one, back);
    lemma_proposal_commands_concat(front, back);
    assert(proposal_commands(front + one) =~= proposal_commands(front));
}

/// Chunks that did not decode are dropped and the rest of the batch is
/// processed as if they were not there: on either channel, a batch with an
/// undecodable chunk inserted anywhere hands on the same packets and asks
/// for the same signing commands.
pub proof fn lemma_undecodable_chunk_ignored<P>(chunks: Seq<DecodedChunk<P>>, k: int, accepted: bool)
    requires
        0 <= k <= chunks.len(),
    ensures
        inbound_packets(chunks.insert(k, DecodedChunk { message: None, accepted })) == inbound_packets(chunks),
        proposal_commands(chunks.insert(k, DecodedChunk { message: None, accepted })) == proposal_commands(chunks),
{
    let with = chunks.insert(k, DecodedChunk { message: None, accepted });
    assert(with.remove(k) == chunks);
    lemma_silent_chunk_removed(with, k);
}

/// A packet that fails its signature check never reaches the protocol
/// engine: the batch hands on exactly what it would hand on without that
/// chunk.
pub proof fn lemma_rejected_packet_excluded<P>(chunks: Seq<DecodedChunk<P>>, k: int)
    requires
        0 <= k < chunks.len(),
        chunks[k].message matches Some(StackerDBMessage::Packet(_)),
        !chunks[k].accepted,
    ensures
        inbound_packets(chunks) == inbound_packets(chunks.remove(k)),
{
    lemma_silent_chunk_removed(chunks, k);
}

/// Every packet that a signer-channel batch hands on is the packet of a
/// chunk of that batch that passed its signature check.
pub proof fn lemma_forwarded_packets_accepted<P>(chunks: Seq<DecodedChunk<P>>)
    ensures
        forall|j: int|
            #![trigger inbound_packets(chunks)[j]]
            0 <= j < inbound_packets(chunks).len() ==> exists|i: int|
                #![trigger chunks[i]]
                {
                    &&& 0 <= i < chunks.len()
                    &&& chunks[i].accepted
                    &&& chunks[i].message == Some(StackerDBMessage::Packet(inbound_packets(chunks)[j]))
                },
    decreases chunks.len(),
{
    if chunks.len() > 0 {
        let init = chunks.drop_last();
        lemma_forwarded_packets_accepted(init);
        let out = inbound_packets(chunks);
        assert forall|j: int| #![trigger out[j]] 0 <= j < out.len() implies exists|i: int|
            #![trigger chunks[i]]
            {
                &&& 0 <= i < chunks.len()
                &&& chunks[i].accepted
                &&& chunks[i].message == Some(StackerDBMessage::Packet(out[j]))
            } by {
            if j < inbound_packets(init).len() {
                assert(out[j] == inbound_packets(init)[j]);
                let i = choose|i: int|
                    #![trigger init[i]]
                    {
                        &&& 0 <= i < init.len()
                        &&& init[i].accepted
                        &&& init[i].message == Some(StackerDBMessage::Packet(inbound_packets(init)[j]))
                    };
                assert(chunks[i] == init[i]);
            } else {
                assert(chunks[chunks.len() - 1] == chunks.last());
            }
        }
    }
}

} // verus!
