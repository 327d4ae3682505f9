//! Laws relating the handlers: what holds of every state and every message,
//! proved from the spec transition functions the handlers are specified by.

use vstd::prelude::*;

use crate::codec::{lemma_packet_round_trip, spec_decode_packet};
use crate::contract::{
    spec_channel_close, spec_channel_connect, spec_channel_open, spec_execute, spec_instantiate,
    spec_packet_ack, spec_packet_receive, spec_packet_timeout, spec_query, LIFE_ANSWER,
    PACKET_LIFETIME_NANOS,
};
use crate::error::ContractError;
use crate::msg::{
    ExecuteMsg, IbcChannelCloseMsg, IbcChannelConnectMsg, IbcChannelOpenMsg, IbcMsgView,
    IbcPacketAckMsg, IbcPacketReceiveMsg, IbcPacketTimeoutMsg, PacketMsgView, QueryAnswerView,
    QueryMsg,
};
use crate::state::{OperationView, StateView};

verus! {

/// After instantiation, and before any other call, the operation query
/// reports exactly the fixed first record.
pub proof fn lemma_instantiate_then_query(s: StateView)
    ensures
        spec_query(spec_instantiate(s), QueryMsg::LastIbcOperation) == Ok::<
            QueryAnswerView,
            ContractError,
        >(
            QueryAnswerView::LastIbcOperation(
                OperationView { name: "Just initialized"@, parameters: Seq::empty() },
            ),
        ),
{
}

/// The life answer query fails as `NotFound` exactly while the answer store
/// is empty, and no handler writes the answer store except an acknowledgement
/// that carries `ReceiveLifeAnswer` — which stores that answer.
pub proof fn lemma_answer_needs_life_answer_ack(
    s: StateView,
    emsg: ExecuteMsg,
    now_nanos: u64,
    omsg: IbcChannelOpenMsg,
    cmsg: IbcChannelConnectMsg,
    clmsg: IbcChannelCloseMsg,
    rmsg: IbcPacketReceiveMsg,
    amsg: IbcPacketAckMsg,
    tmsg: IbcPacketTimeoutMsg,
)
    ensures
        (spec_query(s, QueryMsg::ViewReceivedLifeAnswer) == Err::<QueryAnswerView, ContractError>(
            ContractError::NotFound,
        )) <==> s.stored_life_answer is None,
        spec_instantiate(s).stored_life_answer == s.stored_life_answer,
        spec_execute(s, emsg, now_nanos).0.stored_life_answer == s.stored_life_answer,
        spec_channel_open(s, omsg).stored_life_answer == s.stored_life_answer,
        spec_channel_connect(s, cmsg).stored_life_answer == s.stored_life_answer,
        spec_channel_close(s, clmsg).stored_life_answer == s.stored_life_answer,
        spec_packet_receive(s, rmsg).0.stored_life_answer == s.stored_life_answer,
        spec_packet_timeout(s, tmsg).stored_life_answer == s.stored_life_answer,
        !(spec_decode_packet(amsg.acknowledgement_data@) matches Some(
            PacketMsgView::ReceiveLifeAnswer { .. },
        )) ==> spec_packet_ack(s, amsg).0.stored_life_answer == s.stored_life_answer,
        spec_decode_packet(amsg.acknowledgement_data@) matches Some(
            PacketMsgView::ReceiveLifeAnswer { life_answer },
        ) ==> spec_packet_ack(s, amsg).0.stored_life_answer == Some(life_answer),
{
}

/// An execute call before any channel has connected fails as
/// `NoOpenChannel` and leaves the whole state as it was.
pub proof fn lemma_execute_without_channel_rejected(s: StateView, msg: ExecuteMsg, now_nanos: u64)
    requires
        s.last_opened_channel is None,
    ensures
        spec_execute(s, msg, now_nanos) == (
            s,
            Err::<IbcMsgView, ContractError>(ContractError::NoOpenChannel),
        ),
{
}

/// With a connected channel, sending a message produces one packet whose
/// payload decodes back to a `Message` framed as the channel id concatenated
/// with the user's message, addressed to that channel, and timing out
/// exactly one packet lifetime after the send time.
pub proof fn lemma_sent_packet_framing(s: StateView, msg: ExecuteMsg, now_nanos: u64)
    requires
        s.last_opened_channel is Some,
        msg is SendIbcPacket,
    ensures
        spec_execute(s, msg, now_nanos).1 matches Ok(m) && m.channel_id
            == s.last_opened_channel->Some_0 && m.timeout_timestamp_nanos == (now_nanos
            + PACKET_LIFETIME_NANOS) as u64 && spec_decode_packet(m.data) == Some(
            PacketMsgView::Message {
                value: s.last_opened_channel->Some_0 + msg->SendIbcPacket_message@,
            },
        ),
{
    let channel_id = s.last_opened_channel->Some_0;
    let message = msg->SendIbcPacket_message;
    lemma_packet_round_trip(PacketMsgView::Message { value: channel_id + message@ });
}

/// Every received `RequestLifeAnswer` packet, whatever its job id, is
/// acknowledged with the fixed answer; every received `Message` packet is
/// acknowledged with an echo of its text.
pub proof fn lemma_receive_acknowledgements(s: StateView, msg: IbcPacketReceiveMsg)
    ensures
        spec_decode_packet(msg.packet.data@) matches Some(
            PacketMsgView::RequestLifeAnswer { .. },
        ) ==> spec_packet_receive(s, msg).1 matches Ok(ack) && ack matches Some(a)
            && spec_decode_packet(a) == Some(
            PacketMsgView::ReceiveLifeAnswer { life_answer: LIFE_ANSWER },
        ),
        spec_decode_packet(msg.packet.data@) matches Some(PacketMsgView::Message { value }) ==>
            spec_packet_receive(s, msg).1 matches Ok(ack) && ack matches Some(a)
            && spec_decode_packet(a) == Some(
            PacketMsgView::Message { value: "got your message: "@ + value },
        ),
{
    match spec_decode_packet(msg.packet.data@) {
        Some(PacketMsgView::RequestLifeAnswer { .. }) => {
            lemma_packet_round_trip(
                PacketMsgView::ReceiveLifeAnswer { life_answer: LIFE_ANSWER },
            );
        },
        Some(PacketMsgView::Message { value }) => {
            lemma_packet_round_trip(PacketMsgView::Message { value: "got your message: "@ + value });
        },
        _ => {},
    }
}

/// The answer store is last-write-wins: after an acknowledgement carrying
/// one answer the query reports it, and a second acknowledgement carrying
/// another answer overwrites it.
pub proof fn lemma_life_answer_last_write_wins(
    s: StateView,
    first: IbcPacketAckMsg,
    second: IbcPacketAckMsg,
    a: u64,
    b: u64,
)
    requires
        spec_decode_packet(first.acknowledgement_data@) == Some(
            PacketMsgView::ReceiveLifeAnswer { life_answer: a },
        ),
        spec_decode_packet(second.acknowledgement_data@) == Some(
            PacketMsgView::ReceiveLifeAnswer { life_answer: b },
        ),
    ensures
        spec_query(spec_packet_ack(s, first).0, QueryMsg::ViewReceivedLifeAnswer) == Ok::<
            QueryAnswerView,
            ContractError,
        >(QueryAnswerView::ReceivedLifeAnswer(a)),
        spec_query(
            spec_packet_ack(spec_packet_ack(s, first).0, second).0,
            QueryMsg::ViewReceivedLifeAnswer,
        ) == Ok::<QueryAnswerView, ContractError>(QueryAnswerView::ReceivedLifeAnswer(b)),
{
}

/// A completed handshake points the registry at the connected channel, and
/// no later close event changes what the registry reports.
pub proof fn lemma_registry_survives_close(
    s: StateView,
    cmsg: IbcChannelConnectMsg,
    clmsg: IbcChannelCloseMsg,
)
    ensures
        cmsg matches IbcChannelConnectMsg::OpenAck { channel, .. } ==> spec_channel_connect(
            s,
            cmsg,
        ).last_opened_channel == Some(channel.channel_id@),
        cmsg matches IbcChannelConnectMsg::OpenConfirm { channel } ==> spec_channel_connect(
            s,
            cmsg,
        ).last_opened_channel == Some(channel.channel_id@),
        spec_channel_close(s, clmsg).last_opened_channel == s.last_opened_channel,
{
}

} // verus!
