//! The handler set: one entry point per host-delivered event.
//!
//! Each handler is a straight-line mapping from an inbound event to a stored
//! record and, optionally, one outbound packet or acknowledgement. The host
//! runs every call as an atomic transaction and rolls back all writes of a
//! failing call, so each handler here leaves the state untouched whenever it
//! returns an error; the spec transition functions below describe the net
//! effect of a whole call.

use vstd::prelude::*;

use crate::codec::{decode_packet, encode_packet, format_u64, spec_dec_digits, spec_decode_packet, spec_encode_packet};
use crate::error::ContractError;
use crate::msg::{
    ChannelInfo, ChannelOpenResponse, Env, ExecuteMsg, IbcChannelCloseMsg, IbcChannelConnectMsg,
    IbcChannelOpenMsg, IbcMsg, IbcMsgView, IbcPacketAckMsg, IbcPacketReceiveMsg,
    IbcPacketTimeoutMsg, InstantiateMsg, PacketMsg, PacketMsgView, QueryAnswer, QueryAnswerView,
    QueryMsg, ReceiveResponse, Response,
};
use crate::state::{ContractState, Operation, OperationView, StateView};

verus! {

/// How long a sent packet stays deliverable: a fixed lifetime of 3600
/// seconds from the host-reported send time, in nanoseconds.
pub const PACKET_LIFETIME_NANOS: u64 = 60 * 60 * 1_000_000_000;

/// The answer sent back for every `RequestLifeAnswer` packet: a fixed
/// constant, not computed from the job.
pub const LIFE_ANSWER: u64 = 42;

/// The application version string exchanged during the channel handshake.
pub fn ibc_app_version() -> (v: &'static str)
    ensures
        v@ == "ibc-v1"@,
{
    "ibc-v1"
}

/// The state with its operation log replaced by the given record.
pub open spec fn spec_with_operation(s: StateView, name: Seq<char>, parameters: Seq<Seq<char>>) -> StateView {
    StateView { last_operation: Some(OperationView { name, parameters }), ..s }
}

/// The three identifier parameters every handshake record carries.
pub open spec fn spec_channel_params(channel: ChannelInfo) -> Seq<Seq<char>> {
    seq![
        "connection_id: "@ + channel.connection_id@,
        "channel_id: "@ + channel.channel_id@,
        "port_id: "@ + channel.port_id@,
    ]
}

/// Builds one descriptive parameter: a label followed by a value.
fn labeled(label: &str, value: &str) -> (s: String)
    ensures
        s@ == label@ + value@,
{
    let mut s = String::from_str(label);
    s.append(value);
    s
}

/// Replaces the operation log with the given record.
fn record_operation(state: &mut ContractState, name: String, parameters: Vec<String>)
    ensures
        final(state)@ == spec_with_operation(old(state)@, name@, parameters.deep_view()),
{
    let ghost pre = state@;
    state.last_operation = Some(Operation { name, parameters });
    proof {
        assert(state@ =~= spec_with_operation(pre, state.last_operation->Some_0.name@, state.last_operation->Some_0.parameters.deep_view()));
    }
}

/// Instantiation writes the fixed first record into the operation log and
/// touches nothing else; it always succeeds and sends nothing.
pub open spec fn spec_instantiate(s: StateView) -> StateView {
    spec_with_operation(s, "Just initialized"@, Seq::empty())
}

/// First deployment: initializes the operation log so queries never observe
/// an unset log afterwards.
pub fn instantiate(state: &mut ContractState, _msg: InstantiateMsg) -> (res: Response)
    ensures
        final(state)@ == spec_instantiate(old(state)@),
        res@ =~= Seq::<IbcMsgView>::empty(),
{
    let parameters: Vec<String> = Vec::new();
    proof {
        assert(parameters.deep_view() =~= Seq::<Seq<char>>::empty());
    }
    record_operation(state, String::from_str("Just initialized"), parameters);
    proof {
        assert(state@ =~= spec_instantiate(old(state)@));
    }
    let resp = Response { messages: Vec::new() };
    proof {
        assert(resp@ =~= Seq::<IbcMsgView>::empty());
    }
    resp
}

/// The net effect of an execute call: with no channel connected the call
/// fails as `NoOpenChannel` and changes nothing; otherwise it records an
/// operation and produces exactly one outbound packet over the last opened
/// channel, with a lifetime of [`PACKET_LIFETIME_NANOS`] from the send time.
///
/// `SendIbcPacket` frames its payload as the channel id concatenated with
/// the user's message; `RequestLifeAnswerFromOtherChain` carries the job id
/// verbatim.
pub open spec fn spec_execute(s: StateView, msg: ExecuteMsg, now_nanos: u64) -> (StateView, Result<
    IbcMsgView,
    ContractError,
>) {
    match s.last_opened_channel {
        None => (s, Err(ContractError::NoOpenChannel)),
        Some(channel_id) => {
            let timeout = (now_nanos + PACKET_LIFETIME_NANOS) as u64;
            match msg {
                ExecuteMsg::SendIbcPacket { message } => (
                    spec_with_operation(
                        s,
                        "execute"@,
                        seq!["channel_id: "@ + channel_id],
                    ),
                    Ok(
                        IbcMsgView {
                            channel_id,
                            data: spec_encode_packet(
                                PacketMsgView::Message { value: channel_id + message@ },
                            ),
                            timeout_timestamp_nanos: timeout,
                        },
                    ),
                ),
                ExecuteMsg::RequestLifeAnswerFromOtherChain { job_id } => (
                    spec_with_operation(
                        s,
                        "SendIbcPacket"@,
                        seq!["channel_id: "@ + channel_id, "content: "@ + job_id@],
                    ),
                    Ok(
                        IbcMsgView {
                            channel_id,
                            data: spec_encode_packet(
                                PacketMsgView::RequestLifeAnswer { job_id: job_id@ },
                            ),
                            timeout_timestamp_nanos: timeout,
                        },
                    ),
                ),
            }
        },
    }
}

/// A user-invoked action: send a packet over the last opened channel.
pub fn execute(state: &mut ContractState, env: Env, msg: ExecuteMsg) -> (res: Result<
    Response,
    ContractError,
>)
    requires
        env.block_time_nanos <= u64::MAX - PACKET_LIFETIME_NANOS,
    ensures
        final(state)@ == spec_execute(old(state)@, msg, env.block_time_nanos).0,
        res is Err <==> old(state)@.last_opened_channel is None,
        res is Err ==> *final(state) == *old(state),
        (match res {
            Ok(resp) => spec_execute(old(state)@, msg, env.block_time_nanos).1 matches Ok(m)
                && resp@ =~= seq![m],
            Err(e) => spec_execute(old(state)@, msg, env.block_time_nanos).1 == Err::<
                IbcMsgView,
                ContractError,
            >(e),
        }),
{
    let channel_id = match &state.last_opened_channel {
        Some(id) => id.clone(),
        None => {
            return Err(ContractError::NoOpenChannel);
        },
    };
    let timeout_timestamp_nanos = env.block_time_nanos + PACKET_LIFETIME_NANOS;
    match msg {
        ExecuteMsg::SendIbcPacket { message } => {
            let value = channel_id.clone().concat(message.as_str());
            let packet = PacketMsg::Message { value };
            let data = encode_packet(&packet);
            let parameters = vec![labeled("channel_id: ", channel_id.as_str())];
            proof {
                assert(parameters.deep_view() =~= seq!["channel_id: "@ + channel_id@]);
            }
            record_operation(state, String::from_str("execute"), parameters);
            proof {
                assert(state@ =~= spec_execute(old(state)@, msg, env.block_time_nanos).0);
            }
            let messages = vec![IbcMsg::SendPacket { channel_id, data, timeout_timestamp_nanos }];
            let resp = Response { messages };
            proof {
                assert(resp@ =~= seq![spec_execute(old(state)@, msg, env.block_time_nanos).1->Ok_0]);
            }
            Ok(resp)
        },
        ExecuteMsg::RequestLifeAnswerFromOtherChain { job_id } => {
            let packet = PacketMsg::RequestLifeAnswer { job_id: job_id.clone() };
            let data = encode_packet(&packet);
            let parameters = vec![
                labeled("channel_id: ", channel_id.as_str()),
                labeled("content: ", job_id.as_str()),
            ];
            proof {
                assert(parameters.deep_view() =~= seq![
                    "channel_id: "@ + channel_id@,
                    "content: "@ + job_id@,
                ]);
            }
            record_operation(state, String::from_str("SendIbcPacket"), parameters);
            proof {
                assert(state@ =~= spec_execute(old(state)@, msg, env.block_time_nanos).0);
            }
            let messages = vec![IbcMsg::SendPacket { channel_id, data, timeout_timestamp_nanos }];
            let resp = Response { messages };
            proof {
                assert(resp@ =~= seq![spec_execute(old(state)@, msg, env.block_time_nanos).1->Ok_0]);
            }
            Ok(resp)
        },
    }
}

/// What a query reports: the requested record, or `NotFound` while that
/// record has never been written.
pub open spec fn spec_query(s: StateView, msg: QueryMsg) -> Result<
    QueryAnswerView,
    ContractError,
> {
    match msg {
        QueryMsg::LastIbcOperation => match s.last_operation {
            Some(op) => Ok(QueryAnswerView::LastIbcOperation(op)),
            None => Err(ContractError::NotFound),
        },
        QueryMsg::ViewReceivedLifeAnswer => match s.stored_life_answer {
            Some(v) => Ok(QueryAnswerView::ReceivedLifeAnswer(v)),
            None => Err(ContractError::NotFound),
        },
    }
}

/// Read-only inspection of the stores.
pub fn query(state: &ContractState, msg: QueryMsg) -> (res: Result<QueryAnswer, ContractError>)
    ensures
        res is Ok <==> spec_query(state@, msg) is Ok,
        (match res {
            Ok(a) => spec_query(state@, msg) == Ok::<QueryAnswerView, ContractError>(a@),
            Err(e) => spec_query(state@, msg) == Err::<QueryAnswerView, ContractError>(e),
        }),
{
    match msg {
        QueryMsg::LastIbcOperation => match &state.last_operation {
            Some(op) => Ok(QueryAnswer::LastIbcOperation(op.clone_op())),
            None => Err(ContractError::NotFound),
        },
        QueryMsg::ViewReceivedLifeAnswer => match state.stored_life_answer {
            Some(v) => Ok(QueryAnswer::ReceivedLifeAnswer(v)),
            None => Err(ContractError::NotFound),
        },
    }
}

/// A handshake entry step only records what happened; unknown variants are
/// logged defensively, never rejected.
pub open spec fn spec_channel_open(s: StateView, msg: IbcChannelOpenMsg) -> StateView {
    match msg {
        IbcChannelOpenMsg::OpenInit { channel } => spec_with_operation(
            s,
            "ChannelOpen/Init"@,
            spec_channel_params(channel),
        ),
        IbcChannelOpenMsg::OpenTry { channel, counterparty_version } => spec_with_operation(
            s,
            "ChannelOpen/Try"@,
            seq!["counterparty_version: "@ + counterparty_version@] + spec_channel_params(channel),
        ),
        IbcChannelOpenMsg::Unknown { raw } => spec_with_operation(
            s,
            "unknown channel open message"@,
            seq![raw@],
        ),
    }
}

/// Builds the three identifier parameters of a handshake record.
fn channel_params(channel: &ChannelInfo) -> (v: Vec<String>)
    ensures
        v.deep_view() == spec_channel_params(*channel),
{
    let v = vec![
        labeled("connection_id: ", channel.connection_id.as_str()),
        labeled("channel_id: ", channel.channel_id.as_str()),
        labeled("port_id: ", channel.port_id.as_str()),
    ];
    proof {
        assert(v.deep_view() =~= spec_channel_params(*channel));
    }
    v
}

/// Channel handshake entry (Init or Try): records the step and answers the
/// host with the fixed application version; always succeeds.
pub fn ibc_channel_open(state: &mut ContractState, msg: IbcChannelOpenMsg) -> (res:
    ChannelOpenResponse)
    ensures
        final(state)@ == spec_channel_open(old(state)@, msg),
        res.version@ == "ibc-v1"@,
{
    match &msg {
        IbcChannelOpenMsg::OpenInit { channel } => {
            let parameters = channel_params(channel);
            record_operation(state, String::from_str("ChannelOpen/Init"), parameters);
        },
        IbcChannelOpenMsg::OpenTry { channel, counterparty_version } => {
            let mut parameters = vec![
                labeled("counterparty_version: ", counterparty_version.as_str()),
            ];
            let mut rest = channel_params(channel);
            parameters.append(&mut rest);
            proof {
                assert(parameters.deep_view() =~= seq![
                    "counterparty_version: "@ + counterparty_version@,
                ] + spec_channel_params(*channel));
            }
            record_operation(state, String::from_str("ChannelOpen/Try"), parameters);
        },
        IbcChannelOpenMsg::Unknown { raw } => {
            let parameters = vec![raw.clone()];
            proof {
                assert(parameters.deep_view() =~= seq![raw@]);
            }
            record_operation(state, String::from_str("unknown channel open message"), parameters);
        },
    }
    proof {
        assert(state@ =~= spec_channel_open(old(state)@, msg));
    }
    ChannelOpenResponse { version: String::from_str(ibc_app_version()) }
}

/// A handshake completion step records the step and, for the two modelled
/// phases (Ack and Confirm), points the channel registry at the newly
/// connected channel — the only write the registry ever receives.
pub open spec fn spec_channel_connect(s: StateView, msg: IbcChannelConnectMsg) -> StateView {
    match msg {
        IbcChannelConnectMsg::OpenAck { channel, counterparty_version } => StateView {
            last_opened_channel: Some(channel.channel_id@),
            ..spec_with_operation(
                s,
                "ChannelConnect/Ack"@,
                seq!["counterparty_version: "@ + counterparty_version@] + spec_channel_params(
                    channel,
                ),
            )
        },
        IbcChannelConnectMsg::OpenConfirm { channel } => StateView {
            last_opened_channel: Some(channel.channel_id@),
            ..spec_with_operation(s, "ChannelOpen/Confirm"@, spec_channel_params(channel))
        },
        IbcChannelConnectMsg::Unknown { raw } => spec_with_operation(
            s,
            "unknown channel connect message"@,
            seq![raw@],
        ),
    }
}

/// Channel handshake completion (Ack or Confirm): records the step and
/// updates the channel registry; always succeeds, sends nothing.
pub fn ibc_channel_connect(state: &mut ContractState, msg: IbcChannelConnectMsg) -> (res: Response)
    ensures
        final(state)@ == spec_channel_connect(old(state)@, msg),
        res@ =~= Seq::<IbcMsgView>::empty(),
{
    match &msg {
        IbcChannelConnectMsg::OpenAck { channel, counterparty_version } => {
            let mut parameters = vec![
                labeled("counterparty_version: ", counterparty_version.as_str()),
            ];
            let mut rest = channel_params(channel);
            parameters.append(&mut rest);
            proof {
                assert(parameters.deep_view() =~= seq![
                    "counterparty_version: "@ + counterparty_version@,
                ] + spec_channel_params(*channel));
            }
            record_operation(state, String::from_str("ChannelConnect/Ack"), parameters);
            state.last_opened_channel = Some(channel.channel_id.clone());
        },
        IbcChannelConnectMsg::OpenConfirm { channel } => {
            let parameters = channel_params(channel);
            record_operation(state, String::from_str("ChannelOpen/Confirm"), parameters);
            state.last_opened_channel = Some(channel.channel_id.clone());
        },
        IbcChannelConnectMsg::Unknown { raw } => {
            let parameters = vec![raw.clone()];
            proof {
                assert(parameters.deep_view() =~= seq![raw@]);
            }
            record_operation(
                state,
                String::from_str("unknown channel connect message"),
                parameters,
            );
        },
    }
    proof {
        assert(state@ =~= spec_channel_connect(old(state)@, msg));
    }
    let resp = Response { messages: Vec::new() };
    proof {
        assert(resp@ =~= Seq::<IbcMsgView>::empty());
    }
    resp
}

/// A close step only records what happened: the channel registry is left as
/// it was, so a closed channel still reads as the last opened one.
pub open spec fn spec_channel_close(s: StateView, msg: IbcChannelCloseMsg) -> StateView {
    match msg {
        IbcChannelCloseMsg::CloseInit { channel } => spec_with_operation(
            s,
            "ChannelClose/Init"@,
            spec_channel_params(channel),
        ),
        IbcChannelCloseMsg::CloseConfirm { channel } => spec_with_operation(
            s,
            "ChannelClose/Confirm"@,
            spec_channel_params(channel),
        ),
        IbcChannelCloseMsg::Unknown { raw } => spec_with_operation(
            s,
            "unknown channel close message"@,
            seq![raw@],
        ),
    }
}

/// Channel close (Init or Confirm): records the step; always succeeds,
/// mutates nothing else.
pub fn ibc_channel_close(state: &mut ContractState, msg: IbcChannelCloseMsg) -> (res: Response)
    ensures
        final(state)@ == spec_channel_close(old(state)@, msg),
        res@ =~= Seq::<IbcMsgView>::empty(),
{
    match &msg {
        IbcChannelCloseMsg::CloseInit { channel } => {
            let parameters = channel_params(channel);
            record_operation(state, String::from_str("ChannelClose/Init"), parameters);
        },
        IbcChannelCloseMsg::CloseConfirm { channel } => {
            let parameters = channel_params(channel);
            record_operation(state, String::from_str("ChannelClose/Confirm"), parameters);
        },
        IbcChannelCloseMsg::Unknown { raw } => {
            let parameters = vec![raw.clone()];
            proof {
                assert(parameters.deep_view() =~= seq![raw@]);
            }
            record_operation(state, String::from_str("unknown channel close message"), parameters);
        },
    }
    proof {
        assert(state@ =~= spec_channel_close(old(state)@, msg));
    }
    let resp = Response { messages: Vec::new() };
    proof {
        assert(resp@ =~= Seq::<IbcMsgView>::empty());
    }
    resp
}

/// The acknowledgement a received packet calls for: an echo for `Message`,
/// the fixed [`LIFE_ANSWER`] for `RequestLifeAnswer`, and nothing for any
/// other variant.
pub open spec fn spec_receive_ack(p: PacketMsgView) -> Option<Seq<char>> {
    match p {
        PacketMsgView::Message { value } => Some(
            spec_encode_packet(PacketMsgView::Message { value: "got your message: "@ + value }),
        ),
        PacketMsgView::RequestLifeAnswer { .. } => Some(
            spec_encode_packet(PacketMsgView::ReceiveLifeAnswer { life_answer: LIFE_ANSWER }),
        ),
        PacketMsgView::ReceiveLifeAnswer { .. } => None,
    }
}

/// The net effect of receiving a packet: a malformed payload fails the call
/// as `DecodeFailure` and changes nothing; otherwise the receipt is recorded
/// and the packet's acknowledgement, if any, is produced.
pub open spec fn spec_packet_receive(s: StateView, msg: IbcPacketReceiveMsg) -> (StateView, Result<
    Option<Seq<char>>,
    ContractError,
>) {
    match spec_decode_packet(msg.packet.data@) {
        None => (s, Err(ContractError::DecodeFailure)),
        Some(p) => (
            spec_with_operation(
                s,
                "PacketReceive"@,
                seq![
                    "packet_sequence: "@ + spec_dec_digits(msg.packet.sequence as nat),
                    "packet_data: "@ + msg.packet.data@,
                    "packet_src_port_id: "@ + msg.packet.src_port_id@,
                    "packet_src_channel_id: "@ + msg.packet.src_channel_id@,
                    "relayer: "@ + msg.relayer@,
                ],
            ),
            Ok(spec_receive_ack(p)),
        ),
    }
}

/// A packet arrived: record the receipt and acknowledge it.
pub fn ibc_packet_receive(state: &mut ContractState, msg: IbcPacketReceiveMsg) -> (res: Result<
    ReceiveResponse,
    ContractError,
>)
    ensures
        final(state)@ == spec_packet_receive(old(state)@, msg).0,
        res is Ok <==> spec_decode_packet(msg.packet.data@) is Some,
        (match res {
            Ok(rr) => spec_packet_receive(old(state)@, msg).1 matches Ok(ack) && (match rr
                .acknowledgement {
                Some(a) => ack matches Some(av) && a@ == av,
                None => ack is None,
            }),
            Err(e) => e == ContractError::DecodeFailure && *final(state) == *old(state),
        }),
{
    let packet = match decode_packet(msg.packet.data.as_str()) {
        Ok(p) => p,
        Err(e) => {
            return Err(e);
        },
    };
    let sequence = format_u64(msg.packet.sequence);
    let parameters = vec![
        labeled("packet_sequence: ", sequence.as_str()),
        labeled("packet_data: ", msg.packet.data.as_str()),
        labeled("packet_src_port_id: ", msg.packet.src_port_id.as_str()),
        labeled("packet_src_channel_id: ", msg.packet.src_channel_id.as_str()),
        labeled("relayer: ", msg.relayer.as_str()),
    ];
    proof {
        assert(parameters.deep_view() =~= seq![
            "packet_sequence: "@ + spec_dec_digits(msg.packet.sequence as nat),
            "packet_data: "@ + msg.packet.data@,
            "packet_src_port_id: "@ + msg.packet.src_port_id@,
            "packet_src_channel_id: "@ + msg.packet.src_channel_id@,
            "relayer: "@ + msg.relayer@,
        ]);
    }
    record_operation(state, String::from_str("PacketReceive"), parameters);
    proof {
        assert(state@ =~= spec_packet_receive(old(state)@, msg).0);
    }
    let acknowledgement = match packet {
        PacketMsg::Message { value } => {
            let echoed = labeled("got your message: ", value.as_str());
            Some(encode_packet(&PacketMsg::Message { value: echoed }))
        },
        PacketMsg::RequestLifeAnswer { .. } => Some(
            encode_packet(&PacketMsg::ReceiveLifeAnswer { life_answer: LIFE_ANSWER }),
        ),
        PacketMsg::ReceiveLifeAnswer { .. } => None,
    };
    Ok(ReceiveResponse { acknowledgement })
}

/// The net effect of processing an acknowledgement: a malformed payload
/// fails the call as `DecodeFailure` and changes nothing; otherwise the ack
/// is recorded, and an ack carrying `ReceiveLifeAnswer` overwrites the
/// answer store with its value.
pub open spec fn spec_packet_ack(s: StateView, msg: IbcPacketAckMsg) -> (StateView, Result<
    (),
    ContractError,
>) {
    match spec_decode_packet(msg.acknowledgement_data@) {
        None => (s, Err(ContractError::DecodeFailure)),
        Some(p) => {
            let logged = spec_with_operation(
                s,
                "PacketAck"@,
                seq![
                    "acknowledgement_data: "@ + msg.acknowledgement_data@,
                    "original_packet_sequence: "@ + spec_dec_digits(
                        msg.original_packet.sequence as nat,
                    ),
                    "original_packet_data: "@ + msg.original_packet.data@,
                    "original_packet_src_port_id: "@ + msg.original_packet.src_port_id@,
                    "original_packet_src_channel_id: "@ + msg.original_packet.src_channel_id@,
                    "relayer: "@ + msg.relayer@,
                ],
            );
            match p {
                PacketMsgView::ReceiveLifeAnswer { life_answer } => (
                    StateView { stored_life_answer: Some(life_answer), ..logged },
                    Ok(()),
                ),
                _ => (logged, Ok(())),
            }
        },
    }
}

/// An acknowledgement came back for a packet this contract sent: record it,
/// and store a received life answer.
pub fn ibc_packet_ack(state: &mut ContractState, msg: IbcPacketAckMsg) -> (res: Result<
    Response,
    ContractError,
>)
    ensures
        final(state)@ == spec_packet_ack(old(state)@, msg).0,
        res is Ok <==> spec_decode_packet(msg.acknowledgement_data@) is Some,
        (match res {
            Ok(resp) => resp@ =~= Seq::<IbcMsgView>::empty(),
            Err(e) => e == ContractError::DecodeFailure && *final(state) == *old(state),
        }),
{
    let packet = match decode_packet(msg.acknowledgement_data.as_str()) {
        Ok(p) => p,
        Err(e) => {
            return Err(e);
        },
    };
    let sequence = format_u64(msg.original_packet.sequence);
    let parameters = vec![
        labeled("acknowledgement_data: ", msg.acknowledgement_data.as_str()),
        labeled("original_packet_sequence: ", sequence.as_str()),
        labeled("original_packet_data: ", msg.original_packet.data.as_str()),
        labeled("original_packet_src_port_id: ", msg.original_packet.src_port_id.as_str()),
        labeled("original_packet_src_channel_id: ", msg.original_packet.src_channel_id.as_str()),
        labeled("relayer: ", msg.relayer.as_str()),
    ];
    proof {
        assert(parameters.deep_view() =~= seq![
            "acknowledgement_data: "@ + msg.acknowledgement_data@,
            "original_packet_sequence: "@ + spec_dec_digits(msg.original_packet.sequence as nat),
            "original_packet_data: "@ + msg.original_packet.data@,
            "original_packet_src_port_id: "@ + msg.original_packet.src_port_id@,
            "original_packet_src_channel_id: "@ + msg.original_packet.src_channel_id@,
            "relayer: "@ + msg.relayer@,
        ]);
    }
    record_operation(state, String::from_str("PacketAck"), parameters);
    match packet {
        PacketMsg::ReceiveLifeAnswer { life_answer } => {
            state.stored_life_answer = Some(life_answer);
        },
        _ => {},
    }
    proof {
        assert(state@ =~= spec_packet_ack(old(state)@, msg).0);
    }
    let resp = Response { messages: Vec::new() };
    proof {
        assert(resp@ =~= Seq::<IbcMsgView>::empty());
    }
    Ok(resp)
}

/// The net effect of a timeout notice: the timed-out packet is recorded and
/// nothing else changes — this contract schedules no retry.
pub open spec fn spec_packet_timeout(s: StateView, msg: IbcPacketTimeoutMsg) -> StateView {
    spec_with_operation(
        s,
        "PacketTimeout"@,
        seq![
            "original_packet_sequence: "@ + spec_dec_digits(msg.packet.sequence as nat),
            "original_packet_data: "@ + msg.packet.data@,
            "original_packet_src_port_id: "@ + msg.packet.src_port_id@,
            "original_packet_src_channel_id: "@ + msg.packet.src_channel_id@,
            "relayer: "@ + msg.relayer@,
        ],
    )
}

/// A packet this contract sent timed out undelivered: record it; always
/// succeeds, sends nothing.
pub fn ibc_packet_timeout(state: &mut ContractState, msg: IbcPacketTimeoutMsg) -> (res: Response)
    ensures
        final(state)@ == spec_packet_timeout(old(state)@, msg),
        res@ =~= Seq::<IbcMsgView>::empty(),
{
    let sequence = format_u64(msg.packet.sequence);
    let parameters = vec![
        labeled("original_packet_sequence: ", sequence.as_str()),
        labeled("original_packet_data: ", msg.packet.data.as_str()),
        labeled("original_packet_src_port_id: ", msg.packet.src_port_id.as_str()),
        labeled("original_packet_src_channel_id: ", msg.packet.src_channel_id.as_str()),
        labeled("relayer: ", msg.relayer.as_str()),
    ];
    proof {
        assert(parameters.deep_view() =~= seq![
            "original_packet_sequence: "@ + spec_dec_digits(msg.packet.sequence as nat),
            "original_packet_data: "@ + msg.packet.data@,
            "original_packet_src_port_id: "@ + msg.packet.src_port_id@,
            "original_packet_src_channel_id: "@ + msg.packet.src_channel_id@,
            "relayer: "@ + msg.relayer@,
        ]);
    }
    record_operation(state, String::from_str("PacketTimeout"), parameters);
    proof {
        assert(state@ =~= spec_packet_timeout(old(state)@, msg));
    }
    let resp = Response { messages: Vec::new() };
    proof {
        assert(resp@ =~= Seq::<IbcMsgView>::empty());
    }
    resp
}

} // verus!
