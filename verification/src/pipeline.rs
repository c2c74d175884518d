//! Per-message processing: map one inbound message and emit the result.
//!
//! Messages are processed strictly in the order received; a message whose
//! body fails to decode is dropped with a diagnostic and leaves the sink — and
//! every record already emitted — untouched, so one bad message never
//! interrupts the flow of the ones around it.

use vstd::prelude::*;
use crate::json::json_parse;
use crate::mapper::diagnostic_prefix;
use crate::mapper::map_message;
use crate::mapper::record_spec;
use crate::mapper::MappingError;
use crate::mapper::RecordView;
use crate::sink::EmissionSink;

verus! {

/// One inbound message, owned by the transport session until consumed;
/// never mutated after receipt.
pub struct Message {
    /// The broker topic the message arrived on.
    pub topic: String,
    /// The raw message body.
    pub payload: Vec<u8>,
    /// When the message was received, in milliseconds since an arbitrary
    /// epoch; carried for the downstream consumer, never read by the mapper.
    pub received_at: u64,
}

/// Mathematical model of [`Message`].
pub struct MessageView {
    pub topic: Seq<char>,
    pub payload: Seq<u8>,
    pub received_at: u64,
}

impl View for Message {
    type V = MessageView;

    open spec fn view(&self) -> MessageView {
        MessageView { topic: self.topic@, payload: self.payload@, received_at: self.received_at }
    }
}

/// The models of a sequence of messages, in order.
pub open spec fn views_of(msgs: Seq<Message>) -> Seq<MessageView> {
    msgs.map_values(|m: Message| m@)
}

/// The records a batch of messages yields, in delivery order: one record per
/// message whose body decodes, none for the others.
pub open spec fn records_of(msgs: Seq<MessageView>) -> Seq<RecordView>
    decreases msgs.len(),
{
    if msgs.len() == 0 {
        Seq::empty()
    } else if json_parse(msgs.last().payload) is Some {
        records_of(msgs.drop_last()).push(record_spec(msgs.last().topic, msgs.last().payload))
    } else {
        records_of(msgs.drop_last())
    }
}

/// How many messages of a batch fail to decode.
pub open spec fn failure_count(msgs: Seq<MessageView>) -> nat
    decreases msgs.len(),
{
    if msgs.len() == 0 {
        0
    } else if json_parse(msgs.last().payload) is Some {
        failure_count(msgs.drop_last())
    } else {
        failure_count(msgs.drop_last()) + 1
    }
}

/// Decode isolation: a message whose body does not decode contributes no
/// record — a batch extended by such a message yields exactly the records of
/// the batch, so a malformed message leaves every other record untouched.
pub proof fn lemma_decode_isolation(msgs: Seq<MessageView>, bad: MessageView)
    requires
        json_parse(bad.payload) is None,
    ensures
        records_of(msgs.push(bad)) == records_of(msgs),
{
    assert(msgs.push(bad).drop_last() =~= msgs);
}

/// Order preservation: when every message of a batch decodes, the batch
/// yields exactly one record per message, in the same relative order — the
/// `i`-th record emitted is the record of the `i`-th message delivered.
pub proof fn lemma_order_preserved(msgs: Seq<MessageView>)
    requires
        forall|i: int| 0 <= i < msgs.len() ==> json_parse(#[trigger] msgs[i].payload) is Some,
    ensures
        records_of(msgs).len() == msgs.len(),
        forall|i: int|
            0 <= i < msgs.len() ==> #[trigger] records_of(msgs)[i] == record_spec(
                msgs[i].topic,
                msgs[i].payload,
            ),
    decreases msgs.len(),
{
    if msgs.len() > 0 {
        assert forall|i: int| 0 <= i < msgs.drop_last().len() implies json_parse(
            #[trigger] msgs.drop_last()[i].payload,
        ) is Some by {
            assert(msgs.drop_last()[i] == msgs[i]);
        }
        lemma_order_preserved(msgs.drop_last());
        assert(msgs.last() == msgs[msgs.len() - 1]);
        assert forall|i: int| 0 <= i < msgs.len() implies #[trigger] records_of(msgs)[i]
            == record_spec(msgs[i].topic, msgs[i].payload) by {
            if i < msgs.len() - 1 {
                assert(records_of(msgs)[i] == records_of(msgs.drop_last())[i]);
                assert(msgs.drop_last()[i] == msgs[i]);
            }
        }
    }
}

/// Map one message and, when it decodes, emit the record. On a decode failure
/// the sink is left exactly as it was and the diagnostic is returned; nothing
/// already emitted is disturbed.
pub fn process_message(sink: &mut EmissionSink, msg: &Message) -> (r: Result<(), MappingError>)
    ensures
        r is Ok <==> json_parse(msg.payload@) is Some,
        r is Ok ==> final(sink)@ == old(sink)@.push(record_spec(msg.topic@, msg.payload@)),
        r is Err ==> final(sink)@ == old(sink)@,
        r matches Err(e) ==> (e matches MappingError::DecodeFailed {
            topic: t,
            payload_prefix: p,
            cause: _,
        } && t@ == msg.topic@ && p@ == diagnostic_prefix(msg.payload@)),
{
    match map_message(msg.topic.as_str(), msg.payload.as_slice()) {
        Ok(rec) => {
            sink.emit(rec);
            Ok(())
        },
        Err(e) => Err(e),
    }
}

/// Process a batch of messages strictly in delivery order: each record
/// reaches the sink in the order of the message it came from, and each
/// message that fails to decode is dropped without disturbing the rest.
/// Returns how many messages were dropped.
pub fn process_messages(sink: &mut EmissionSink, msgs: &Vec<Message>) -> (failures: usize)
    ensures
        final(sink)@ == old(sink)@ + records_of(views_of(msgs@)),
        failures == failure_count(views_of(msgs@)),
{
    let mut failures: usize = 0;
    let mut i: usize = 0;
    while i < msgs.len()
        invariant
            0 <= i <= msgs@.len(),
            failures <= i,
            sink@ == old(sink)@ + records_of(views_of(msgs@).take(i as int)),
            failures == failure_count(views_of(msgs@).take(i as int)),
        decreases msgs@.len() - i,
    {
        proof {
            assert(views_of(msgs@).take(i + 1).drop_last() =~= views_of(msgs@).take(i as int));
            assert(views_of(msgs@).take(i + 1).last() == msgs@[i as int]@);
        }
        match process_message(sink, &msgs[i]) {
            Ok(_) => {
                proof {
                    assert(sink@ =~= old(sink)@ + records_of(views_of(msgs@).take(i + 1)));
                }
            },
            Err(_) => {
                failures = failures + 1;
            },
        }
        i = i + 1;
    }
    proof {
        assert(views_of(msgs@).take(msgs@.len() as int) =~= views_of(msgs@));
    }
    failures
}

} // verus!
