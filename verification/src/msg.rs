//! The messages the host delivers to the handlers and the values the
//! handlers return, modelled as plain data.
//!
//! The host runtime decodes its transport envelopes and hands each handler
//! the fields the contract actually reads: identifiers, payloads and the
//! relayer address, all as strings and integers. Handshake messages keep a
//! catch-all [`Unknown`] variant carrying the raw encoded message, so that
//! variants this contract does not model are logged rather than rejected.
//!
//! [`Unknown`]: IbcChannelOpenMsg::Unknown

use vstd::prelude::*;

verus! {

/// The message of first deployment; it carries nothing.
pub struct InstantiateMsg {}

/// A user-invoked action.
pub enum ExecuteMsg {
    /// Send a `Message` packet over the last opened channel.
    SendIbcPacket { message: String },
    /// Ask the counterparty chain for its answer to a job.
    RequestLifeAnswerFromOtherChain { job_id: String },
}

/// A read-only question about the stores.
#[derive(Clone, Copy, Debug, PartialEq, Eq, Structural)]
pub enum QueryMsg {
    /// The most recent operation record.
    LastIbcOperation,
    /// The most recent life answer received via acknowledgement.
    ViewReceivedLifeAnswer,
}

/// The application-level packet wire schema: a closed tagged union. A packet
/// or acknowledgement payload is always the encoding of one of these.
#[derive(Debug)]
pub enum PacketMsg {
    /// Free-form text; echoed back by the receiver in its acknowledgement.
    Message { value: String },
    /// A request for the counterparty's answer to the named job.
    RequestLifeAnswer { job_id: String },
    /// The answer itself, carried in an acknowledgement.
    ReceiveLifeAnswer { life_answer: u64 },
}

/// The mathematical value of a [`PacketMsg`].
#[verifier::ext_equal]
pub enum PacketMsgView {
    Message { value: Seq<char> },
    RequestLifeAnswer { job_id: Seq<char> },
    ReceiveLifeAnswer { life_answer: u64 },
}

impl View for PacketMsg {
    type V = PacketMsgView;

    open spec fn view(&self) -> PacketMsgView {
        match self {
            PacketMsg::Message { value } => PacketMsgView::Message { value: value@ },
            PacketMsg::RequestLifeAnswer { job_id } => PacketMsgView::RequestLifeAnswer {
                job_id: job_id@,
            },
            PacketMsg::ReceiveLifeAnswer { life_answer } => PacketMsgView::ReceiveLifeAnswer {
                life_answer: *life_answer,
            },
        }
    }
}

/// What the handlers read of an IBC channel: the connection it was created
/// on and this contract's own endpoint.
pub struct ChannelInfo {
    pub connection_id: String,
    pub channel_id: String,
    pub port_id: String,
}

/// A channel handshake entry step (Init locally initiated, Try initiated by
/// the counterparty).
pub enum IbcChannelOpenMsg {
    OpenInit { channel: ChannelInfo },
    OpenTry { channel: ChannelInfo, counterparty_version: String },
    /// A handshake variant this contract does not model; carries the raw
    /// encoded message for the log.
    Unknown { raw: String },
}

/// A channel handshake completion step (Ack locally initiated, Confirm
/// initiated by the counterparty).
pub enum IbcChannelConnectMsg {
    OpenAck { channel: ChannelInfo, counterparty_version: String },
    OpenConfirm { channel: ChannelInfo },
    /// A handshake variant this contract does not model; carries the raw
    /// encoded message for the log.
    Unknown { raw: String },
}

/// A channel close step.
pub enum IbcChannelCloseMsg {
    CloseInit { channel: ChannelInfo },
    CloseConfirm { channel: ChannelInfo },
    /// A close variant this contract does not model; carries the raw encoded
    /// message for the log.
    Unknown { raw: String },
}

/// What the handlers read of a packet the host delivers: its sequence
/// number, its payload, and the sending chain's endpoint.
pub struct PacketInfo {
    pub sequence: u64,
    pub data: String,
    pub src_port_id: String,
    pub src_channel_id: String,
}

/// A packet delivered to this contract.
pub struct IbcPacketReceiveMsg {
    pub packet: PacketInfo,
    pub relayer: String,
}

/// An acknowledgement for a packet this contract sent earlier.
pub struct IbcPacketAckMsg {
    pub acknowledgement_data: String,
    pub original_packet: PacketInfo,
    pub relayer: String,
}

/// Notice that a packet this contract sent timed out undelivered.
pub struct IbcPacketTimeoutMsg {
    pub packet: PacketInfo,
    pub relayer: String,
}

/// The one outbound IBC message this contract produces: a packet to send,
/// with its payload and its absolute timeout.
#[derive(Debug)]
pub enum IbcMsg {
    SendPacket { channel_id: String, data: String, timeout_timestamp_nanos: u64 },
}

/// The mathematical value of an [`IbcMsg`].
#[verifier::ext_equal]
pub struct IbcMsgView {
    pub channel_id: Seq<char>,
    pub data: Seq<char>,
    pub timeout_timestamp_nanos: u64,
}

impl View for IbcMsg {
    type V = IbcMsgView;

    open spec fn view(&self) -> IbcMsgView {
        match self {
            IbcMsg::SendPacket { channel_id, data, timeout_timestamp_nanos } => IbcMsgView {
                channel_id: channel_id@,
                data: data@,
                timeout_timestamp_nanos: *timeout_timestamp_nanos,
            },
        }
    }
}

impl DeepView for IbcMsg {
    type V = IbcMsgView;

    open spec fn deep_view(&self) -> IbcMsgView {
        self.view()
    }
}

/// What a successful handler call hands back to the host: the outbound
/// messages to dispatch (at most one in this contract).
#[derive(Debug)]
pub struct Response {
    pub messages: Vec<IbcMsg>,
}

impl View for Response {
    type V = Seq<IbcMsgView>;

    open spec fn view(&self) -> Seq<IbcMsgView> {
        self.messages.deep_view()
    }
}

/// What the channel open handler hands back to the host: the application
/// version string used to complete version negotiation.
pub struct ChannelOpenResponse {
    pub version: String,
}

/// What the packet receive handler hands back to the host: the encoded
/// acknowledgement payload, if the packet called for one.
#[derive(Debug)]
pub struct ReceiveResponse {
    pub acknowledgement: Option<String>,
}

/// A successful query's typed answer; the host encodes it for transport.
#[derive(Debug)]
pub enum QueryAnswer {
    LastIbcOperation(crate::state::Operation),
    ReceivedLifeAnswer(u64),
}

/// The mathematical value of a [`QueryAnswer`].
#[verifier::ext_equal]
pub enum QueryAnswerView {
    LastIbcOperation(crate::state::OperationView),
    ReceivedLifeAnswer(u64),
}

impl View for QueryAnswer {
    type V = QueryAnswerView;

    open spec fn view(&self) -> QueryAnswerView {
        match self {
            QueryAnswer::LastIbcOperation(op) => QueryAnswerView::LastIbcOperation(op@),
            QueryAnswer::ReceivedLifeAnswer(v) => QueryAnswerView::ReceivedLifeAnswer(*v),
        }
    }
}

/// What the handlers read of the host-reported environment: the current
/// block time, in nanoseconds since the epoch.
pub struct Env {
    pub block_time_nanos: u64,
}

} // verus!
