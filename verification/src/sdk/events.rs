//! Event emission for contract logging.
use vstd::prelude::*;
use crate::hash::{topic_bytes_of_u32, Topic};
use crate::sdk::host::Host;

verus! {

/// The bytes of a list of topics, one after the other.
pub open spec fn topics_bytes(topics: Seq<Topic>) -> Seq<u8>
    decreases topics.len(),
{
    if topics.len() == 0 {
        Seq::empty()
    } else {
        topics_bytes(topics.drop_last()) + topics.last().0@
    }
}

/// The topics an event carries: at most the first four.
pub open spec fn kept_topics(topics: Seq<Topic>) -> Seq<Topic> {
    topics.take(
        if topics.len() < 4 {
            topics.len() as int
        } else {
            4
        },
    )
}

proof fn lemma_topics_bytes_len(topics: Seq<Topic>)
    ensures
        topics_bytes(topics).len() == 32 * topics.len(),
    decreases topics.len(),
{
    if topics.len() > 0 {
        lemma_topics_bytes_len(topics.drop_last());
    }
}

/// Emit an event with topics and data: the first four topics are indexed,
/// the data is the unindexed payload.
pub fn emit(host: &mut Host, topics: &[Topic], data: &[u8])
    ensures
        final(host).emitted() == old(host).emitted().push(
            (topics_bytes(kept_topics(topics@)), data@),
        ),
        final(host).store() == old(host).store(),
        final(host).caller_bytes() == old(host).caller_bytes(),
        final(host).height() == old(host).height(),
{
    let n = if topics.len() < 4 {
        topics.len()
    } else {
        4
    };
    let mut buffer: Vec<u8> = Vec::new();
    let mut i: usize = 0;
    while i < n
        invariant
            n <= topics@.len(),
            n <= 4,
            i <= n,
            buffer@ == topics_bytes(topics@.take(i as int)),
        decreases n - i,
    {
        assert(topics@.take(i + 1).drop_last() =~= topics@.take(i as int));
        let t = topics[i];
        let mut k: usize = 0;
        let ghost start = buffer@;
        while k < 32
            invariant
                k <= 32,
                buffer@ == start + t.0@.take(k as int),
            decreases 32 - k,
        {
            buffer.push(t.0[k]);
            assert(buffer@ =~= start + t.0@.take(k + 1));
            k = k + 1;
        }
        assert(t.0@.take(32) =~= t.0@);
        i = i + 1;
    }
    host.emit_event(buffer.as_slice(), data);
}

/// Emit a simple event with just a topic signature
pub fn emit_simple(host: &mut Host, signature: u32)
    ensures
        final(host).emitted() == old(host).emitted().push(
            (topic_bytes_of_u32(signature), Seq::<u8>::empty()),
        ),
        final(host).store() == old(host).store(),
{
    let topic = Topic::from_u32(signature);
    let topics = [topic];
    let data: [u8; 0] = [];
    emit(host, topics.as_slice(), data.as_slice());
    proof {
        assert(kept_topics(topics@) =~= seq![topic]);
        assert(seq![topic].drop_last() =~= Seq::<Topic>::empty());
        assert(topics_bytes(Seq::<Topic>::empty()) =~= Seq::<u8>::empty());
        assert(topics_bytes(seq![topic]) =~= topic.0@);
        assert(data@ =~= Seq::<u8>::empty());
    }
}

/// Emit an event with one indexed value
pub fn emit_indexed1(host: &mut Host, signature: u32, indexed: &[u8; 32], data: &[u8])
    ensures
        final(host).emitted() == old(host).emitted().push(
            (topic_bytes_of_u32(signature) + indexed@, data@),
        ),
        final(host).store() == old(host).store(),
{
    let t0 = Topic::from_u32(signature);
    let t1 = Topic(*indexed);
    let topics = [t0, t1];
    emit(host, topics.as_slice(), data);
    proof {
        let s = seq![t0, t1];
        assert(kept_topics(topics@) =~= s);
        assert(s.drop_last() =~= seq![t0]);
        assert(seq![t0].drop_last() =~= Seq::<Topic>::empty());
        assert(topics_bytes(Seq::<Topic>::empty()) =~= Seq::<u8>::empty());
        assert(topics_bytes(seq![t0]) =~= t0.0@);
        assert(topics_bytes(s) =~= t0.0@ + t1.0@);
    }
}

/// Emit an event with two indexed values
pub fn emit_indexed2(
    host: &mut Host,
    signature: u32,
    indexed1: &[u8; 32],
    indexed2: &[u8; 32],
    data: &[u8],
)
    ensures
        final(host).emitted() == old(host).emitted().push(
            (topic_bytes_of_u32(signature) + indexed1@ + indexed2@, data@),
        ),
        final(host).store() == old(host).store(),
{
    let t0 = Topic::from_u32(signature);
    let t1 = Topic(*indexed1);
    let t2 = Topic(*indexed2);
    let topics = [t0, t1, t2];
    emit(host, topics.as_slice(), data);
    proof {
        let s = seq![t0, t1, t2];
        assert(kept_topics(topics@) =~= s);
        assert(s.drop_last() =~= seq![t0, t1]);
        assert(seq![t0, t1].drop_last() =~= seq![t0]);
        assert(seq![t0].drop_last() =~= Seq::<Topic>::empty());
        assert(topics_bytes(Seq::<Topic>::empty()) =~= Seq::<u8>::empty());
        assert(topics_bytes(seq![t0]) =~= t0.0@);
        assert(topics_bytes(seq![t0, t1]) =~= t0.0@ + t1.0@);
        assert(topics_bytes(s) =~= t0.0@ + t1.0@ + t2.0@);
    }
}

/// Emit an event with three indexed values (maximum)
pub fn emit_indexed3(
    host: &mut Host,
    signature: u32,
    indexed1: &[u8; 32],
    indexed2: &[u8; 32],
    indexed3: &[u8; 32],
    data: &[u8],
)
    ensures
        final(host).emitted() == old(host).emitted().push(
            (topic_bytes_of_u32(signature) + indexed1@ + indexed2@ + indexed3@, data@),
        ),
        final(host).store() == old(host).store(),
{
    let t0 = Topic::from_u32(signature);
    let t1 = Topic(*indexed1);
    let t2 = Topic(*indexed2);
    let t3 = Topic(*indexed3);
    let topics = [t0, t1, t2, t3];
    emit(host, topics.as_slice(), data);
    proof {
        let s = seq![t0, t1, t2, t3];
        assert(kept_topics(topics@) =~= s);
        assert(s.drop_last() =~= seq![t0, t1, t2]);
        assert(seq![t0, t1, t2].drop_last() =~= seq![t0, t1]);
        assert(seq![t0, t1].drop_last() =~= seq![t0]);
        assert(seq![t0].drop_last() =~= Seq::<Topic>::empty());
        assert(topics_bytes(Seq::<Topic>::empty()) =~= Seq::<u8>::empty());
        assert(topics_bytes(seq![t0]) =~= t0.0@);
        assert(topics_bytes(seq![t0, t1]) =~= t0.0@ + t1.0@);
        assert(topics_bytes(seq![t0, t1, t2]) =~= t0.0@ + t1.0@ + t2.0@);
        assert(topics_bytes(s) =~= t0.0@ + t1.0@ + t2.0@ + t3.0@);
    }
}

} // verus!
