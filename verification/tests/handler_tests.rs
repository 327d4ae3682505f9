use ibc_contract::codec::{decode_packet, encode_packet};
use ibc_contract::contract::{
    execute, ibc_app_version, ibc_channel_close, ibc_channel_connect, ibc_channel_open,
    ibc_packet_ack, ibc_packet_receive, ibc_packet_timeout, instantiate, query,
    PACKET_LIFETIME_NANOS,
};
use ibc_contract::error::ContractError;
use ibc_contract::msg::{
    ChannelInfo, Env, ExecuteMsg, IbcChannelCloseMsg, IbcChannelConnectMsg, IbcChannelOpenMsg,
    IbcMsg, IbcPacketAckMsg, IbcPacketReceiveMsg, IbcPacketTimeoutMsg, InstantiateMsg, PacketInfo,
    PacketMsg, QueryAnswer, QueryMsg,
};
use ibc_contract::state::ContractState;

fn channel(id: &str) -> ChannelInfo {
    ChannelInfo {
        connection_id: "connection-0".to_string(),
        channel_id: id.to_string(),
        port_id: "wasm.contract".to_string(),
    }
}

fn connected_state(id: &str) -> ContractState {
    let mut state = ContractState::new();
    instantiate(&mut state, InstantiateMsg {});
    ibc_channel_connect(
        &mut state,
        IbcChannelConnectMsg::OpenAck {
            channel: channel(id),
            counterparty_version: "ibc-v1".to_string(),
        },
    );
    state
}

fn packet(data: &str) -> PacketInfo {
    PacketInfo {
        sequence: 1,
        data: data.to_string(),
        src_port_id: "wasm.other".to_string(),
        src_channel_id: "channel-9".to_string(),
    }
}

fn last_operation_name(state: &ContractState) -> String {
    match query(state, QueryMsg::LastIbcOperation) {
        Ok(QueryAnswer::LastIbcOperation(op)) => op.name,
        _ => panic!("operation log unset"),
    }
}

#[test]
fn queries_before_any_record_fail_not_found() {
    let state = ContractState::new();
    assert_eq!(
        query(&state, QueryMsg::LastIbcOperation).unwrap_err(),
        ContractError::NotFound
    );
    assert_eq!(
        query(&state, QueryMsg::ViewReceivedLifeAnswer).unwrap_err(),
        ContractError::NotFound
    );
}

#[test]
fn instantiate_records_first_operation() {
    let mut state = ContractState::new();
    let resp = instantiate(&mut state, InstantiateMsg {});
    assert!(resp.messages.is_empty());
    match query(&state, QueryMsg::LastIbcOperation) {
        Ok(QueryAnswer::LastIbcOperation(op)) => {
            assert_eq!(op.name, "Just initialized");
            assert!(op.parameters.is_empty());
        },
        _ => panic!("expected the instantiation record"),
    }
}

#[test]
fn life_answer_not_found_until_ack() {
    let mut state = connected_state("channel-1");
    execute(
        &mut state,
        Env { block_time_nanos: 10 },
        ExecuteMsg::SendIbcPacket { message: "hi".to_string() },
    )
    .unwrap();
    ibc_packet_receive(
        &mut state,
        IbcPacketReceiveMsg {
            packet: packet(&encode_packet(&PacketMsg::Message { value: "ping".to_string() })),
            relayer: "relayer-a".to_string(),
        },
    )
    .unwrap();
    ibc_channel_close(&mut state, IbcChannelCloseMsg::CloseInit { channel: channel("channel-1") });
    ibc_packet_timeout(
        &mut state,
        IbcPacketTimeoutMsg { packet: packet("mhi"), relayer: "relayer-a".to_string() },
    );
    assert_eq!(
        query(&state, QueryMsg::ViewReceivedLifeAnswer).unwrap_err(),
        ContractError::NotFound
    );

    ibc_packet_ack(
        &mut state,
        IbcPacketAckMsg {
            acknowledgement_data: encode_packet(&PacketMsg::ReceiveLifeAnswer { life_answer: 7 }),
            original_packet: packet("rjob"),
            relayer: "relayer-a".to_string(),
        },
    )
    .unwrap();
    match query(&state, QueryMsg::ViewReceivedLifeAnswer) {
        Ok(QueryAnswer::ReceivedLifeAnswer(v)) => assert_eq!(v, 7),
        _ => panic!("expected the stored answer"),
    }
}

#[test]
fn execute_without_channel_fails_and_rolls_back() {
    let mut state = ContractState::new();
    instantiate(&mut state, InstantiateMsg {});
    let err = execute(
        &mut state,
        Env { block_time_nanos: 10 },
        ExecuteMsg::SendIbcPacket { message: "hi".to_string() },
    )
    .unwrap_err();
    assert_eq!(err, ContractError::NoOpenChannel);
    assert_eq!(last_operation_name(&state), "Just initialized");
    assert_eq!(state.last_opened_channel, None);
}

#[test]
fn send_packet_is_framed_and_times_out_after_lifetime() {
    let mut state = connected_state("channel-7");
    let now: u64 = 1_600_000_000_000_000_000;
    let resp = execute(
        &mut state,
        Env { block_time_nanos: now },
        ExecuteMsg::SendIbcPacket { message: "hi".to_string() },
    )
    .unwrap();
    assert_eq!(resp.messages.len(), 1);
    let IbcMsg::SendPacket { channel_id, data, timeout_timestamp_nanos } = &resp.messages[0];
    assert_eq!(channel_id, "channel-7");
    assert_eq!(*timeout_timestamp_nanos, now + PACKET_LIFETIME_NANOS);
    assert_eq!(*timeout_timestamp_nanos, now + 3600 * 1_000_000_000);
    match decode_packet(data) {
        Ok(PacketMsg::Message { value }) => assert_eq!(value, "channel-7hi"),
        _ => panic!("wrong payload"),
    }
    match query(&state, QueryMsg::LastIbcOperation) {
        Ok(QueryAnswer::LastIbcOperation(op)) => {
            assert_eq!(op.name, "execute");
            assert_eq!(op.parameters, vec!["channel_id: channel-7".to_string()]);
        },
        _ => panic!("expected the send record"),
    }
}

#[test]
fn request_life_answer_execute_carries_job_id_verbatim() {
    let mut state = connected_state("channel-2");
    let resp = execute(
        &mut state,
        Env { block_time_nanos: 50 },
        ExecuteMsg::RequestLifeAnswerFromOtherChain { job_id: "job-9".to_string() },
    )
    .unwrap();
    let IbcMsg::SendPacket { channel_id, data, .. } = &resp.messages[0];
    assert_eq!(channel_id, "channel-2");
    match decode_packet(data) {
        Ok(PacketMsg::RequestLifeAnswer { job_id }) => assert_eq!(job_id, "job-9"),
        _ => panic!("wrong payload"),
    }
    match query(&state, QueryMsg::LastIbcOperation) {
        Ok(QueryAnswer::LastIbcOperation(op)) => {
            assert_eq!(op.name, "SendIbcPacket");
            assert_eq!(
                op.parameters,
                vec!["channel_id: channel-2".to_string(), "content: job-9".to_string()]
            );
        },
        _ => panic!("expected the request record"),
    }
}

#[test]
fn received_request_is_acknowledged_with_the_fixed_answer() {
    for job in ["x", "anything-else"] {
        let mut state = connected_state("channel-1");
        let resp = ibc_packet_receive(
            &mut state,
            IbcPacketReceiveMsg {
                packet: packet(
                    &encode_packet(&PacketMsg::RequestLifeAnswer { job_id: job.to_string() }),
                ),
                relayer: "relayer-a".to_string(),
            },
        )
        .unwrap();
        let ack = resp.acknowledgement.expect("an acknowledgement is owed");
        match decode_packet(&ack) {
            Ok(PacketMsg::ReceiveLifeAnswer { life_answer }) => assert_eq!(life_answer, 42),
            _ => panic!("wrong acknowledgement"),
        }
        assert_eq!(last_operation_name(&state), "PacketReceive");
    }
}

#[test]
fn received_message_is_echoed() {
    let mut state = connected_state("channel-1");
    let resp = ibc_packet_receive(
        &mut state,
        IbcPacketReceiveMsg {
            packet: packet(&encode_packet(&PacketMsg::Message { value: "ping".to_string() })),
            relayer: "relayer-a".to_string(),
        },
    )
    .unwrap();
    let ack = resp.acknowledgement.expect("an acknowledgement is owed");
    match decode_packet(&ack) {
        Ok(PacketMsg::Message { value }) => assert_eq!(value, "got your message: ping"),
        _ => panic!("wrong acknowledgement"),
    }
}

#[test]
fn received_life_answer_packet_gets_no_acknowledgement() {
    let mut state = connected_state("channel-1");
    let resp = ibc_packet_receive(
        &mut state,
        IbcPacketReceiveMsg {
            packet: packet(&encode_packet(&PacketMsg::ReceiveLifeAnswer { life_answer: 3 })),
            relayer: "relayer-a".to_string(),
        },
    )
    .unwrap();
    assert!(resp.acknowledgement.is_none());
}

#[test]
fn receive_of_malformed_payload_fails_and_rolls_back() {
    let mut state = ContractState::new();
    instantiate(&mut state, InstantiateMsg {});
    let err = ibc_packet_receive(
        &mut state,
        IbcPacketReceiveMsg { packet: packet("zoink"), relayer: "relayer-a".to_string() },
    )
    .unwrap_err();
    assert_eq!(err, ContractError::DecodeFailure);
    assert_eq!(last_operation_name(&state), "Just initialized");
}

#[test]
fn ack_of_malformed_payload_fails_and_rolls_back() {
    let mut state = ContractState::new();
    instantiate(&mut state, InstantiateMsg {});
    let err = ibc_packet_ack(
        &mut state,
        IbcPacketAckMsg {
            acknowledgement_data: "".to_string(),
            original_packet: packet("mhi"),
            relayer: "relayer-a".to_string(),
        },
    )
    .unwrap_err();
    assert_eq!(err, ContractError::DecodeFailure);
    assert_eq!(last_operation_name(&state), "Just initialized");
    assert_eq!(
        query(&state, QueryMsg::ViewReceivedLifeAnswer).unwrap_err(),
        ContractError::NotFound
    );
}

#[test]
fn life_answer_is_last_write_wins() {
    let mut state = connected_state("channel-1");
    for (value, expected) in [(7u64, 7u64), (9, 9)] {
        ibc_packet_ack(
            &mut state,
            IbcPacketAckMsg {
                acknowledgement_data: encode_packet(
                    &PacketMsg::ReceiveLifeAnswer { life_answer: value },
                ),
                original_packet: packet("rjob"),
                relayer: "relayer-a".to_string(),
            },
        )
        .unwrap();
        match query(&state, QueryMsg::ViewReceivedLifeAnswer) {
            Ok(QueryAnswer::ReceivedLifeAnswer(v)) => assert_eq!(v, expected),
            _ => panic!("expected the stored answer"),
        }
    }
}

#[test]
fn message_ack_leaves_answer_store_alone() {
    let mut state = connected_state("channel-1");
    ibc_packet_ack(
        &mut state,
        IbcPacketAckMsg {
            acknowledgement_data: encode_packet(
                &PacketMsg::Message { value: "got your message: hi".to_string() },
            ),
            original_packet: packet("mhi"),
            relayer: "relayer-a".to_string(),
        },
    )
    .unwrap();
    assert_eq!(last_operation_name(&state), "PacketAck");
    assert_eq!(
        query(&state, QueryMsg::ViewReceivedLifeAnswer).unwrap_err(),
        ContractError::NotFound
    );
}

#[test]
fn channel_open_answers_the_fixed_version() {
    assert_eq!(ibc_app_version(), "ibc-v1");
    let mut state = ContractState::new();
    let resp = ibc_channel_open(
        &mut state,
        IbcChannelOpenMsg::OpenInit { channel: channel("channel-5") },
    );
    assert_eq!(resp.version, "ibc-v1");
    match query(&state, QueryMsg::LastIbcOperation) {
        Ok(QueryAnswer::LastIbcOperation(op)) => {
            assert_eq!(op.name, "ChannelOpen/Init");
            assert_eq!(
                op.parameters,
                vec![
                    "connection_id: connection-0".to_string(),
                    "channel_id: channel-5".to_string(),
                    "port_id: wasm.contract".to_string(),
                ]
            );
        },
        _ => panic!("expected the open record"),
    }
    assert_eq!(state.last_opened_channel, None);
}

#[test]
fn channel_open_try_records_counterparty_version_first() {
    let mut state = ContractState::new();
    let resp = ibc_channel_open(
        &mut state,
        IbcChannelOpenMsg::OpenTry {
            channel: channel("channel-5"),
            counterparty_version: "ibc-v0".to_string(),
        },
    );
    assert_eq!(resp.version, "ibc-v1");
    match query(&state, QueryMsg::LastIbcOperation) {
        Ok(QueryAnswer::LastIbcOperation(op)) => {
            assert_eq!(op.name, "ChannelOpen/Try");
            assert_eq!(
                op.parameters,
                vec![
                    "counterparty_version: ibc-v0".to_string(),
                    "connection_id: connection-0".to_string(),
                    "channel_id: channel-5".to_string(),
                    "port_id: wasm.contract".to_string(),
                ]
            );
        },
        _ => panic!("expected the try record"),
    }
}

#[test]
fn unknown_handshake_variants_are_logged_not_rejected() {
    let mut state = ContractState::new();
    ibc_channel_open(&mut state, IbcChannelOpenMsg::Unknown { raw: "open-v9".to_string() });
    match query(&state, QueryMsg::LastIbcOperation) {
        Ok(QueryAnswer::LastIbcOperation(op)) => {
            assert_eq!(op.name, "unknown channel open message");
            assert_eq!(op.parameters, vec!["open-v9".to_string()]);
        },
        _ => panic!("expected the defensive record"),
    }
    ibc_channel_connect(&mut state, IbcChannelConnectMsg::Unknown { raw: "c".to_string() });
    assert_eq!(last_operation_name(&state), "unknown channel connect message");
    assert_eq!(state.last_opened_channel, None);
    ibc_channel_close(&mut state, IbcChannelCloseMsg::Unknown { raw: "c".to_string() });
    assert_eq!(last_operation_name(&state), "unknown channel close message");
}

#[test]
fn connect_sets_registry_and_close_leaves_it() {
    let mut state = ContractState::new();
    instantiate(&mut state, InstantiateMsg {});
    ibc_channel_connect(
        &mut state,
        IbcChannelConnectMsg::OpenAck {
            channel: channel("channel-3"),
            counterparty_version: "ibc-v1".to_string(),
        },
    );
    assert_eq!(state.last_opened_channel, Some("channel-3".to_string()));
    assert_eq!(last_operation_name(&state), "ChannelConnect/Ack");

    ibc_channel_close(&mut state, IbcChannelCloseMsg::CloseInit { channel: channel("channel-3") });
    assert_eq!(last_operation_name(&state), "ChannelClose/Init");
    assert_eq!(state.last_opened_channel, Some("channel-3".to_string()));

    ibc_channel_close(
        &mut state,
        IbcChannelCloseMsg::CloseConfirm { channel: channel("channel-3") },
    );
    assert_eq!(last_operation_name(&state), "ChannelClose/Confirm");
    assert_eq!(state.last_opened_channel, Some("channel-3".to_string()));
}

#[test]
fn connect_confirm_also_sets_registry() {
    let mut state = ContractState::new();
    ibc_channel_connect(
        &mut state,
        IbcChannelConnectMsg::OpenConfirm { channel: channel("channel-3") },
    );
    assert_eq!(state.last_opened_channel, Some("channel-3".to_string()));
    assert_eq!(last_operation_name(&state), "ChannelOpen/Confirm");
}

#[test]
fn later_connect_overwrites_registry() {
    let mut state = connected_state("channel-1");
    ibc_channel_connect(
        &mut state,
        IbcChannelConnectMsg::OpenConfirm { channel: channel("channel-8") },
    );
    assert_eq!(state.last_opened_channel, Some("channel-8".to_string()));
}

#[test]
fn timeout_only_records_the_packet() {
    let mut state = connected_state("channel-1");
    let resp = ibc_packet_timeout(
        &mut state,
        IbcPacketTimeoutMsg { packet: packet("mhi"), relayer: "relayer-b".to_string() },
    );
    assert!(resp.messages.is_empty());
    match query(&state, QueryMsg::LastIbcOperation) {
        Ok(QueryAnswer::LastIbcOperation(op)) => {
            assert_eq!(op.name, "PacketTimeout");
            assert_eq!(
                op.parameters,
                vec![
                    "original_packet_sequence: 1".to_string(),
                    "original_packet_data: mhi".to_string(),
                    "original_packet_src_port_id: wasm.other".to_string(),
                    "original_packet_src_channel_id: channel-9".to_string(),
                    "relayer: relayer-b".to_string(),
                ]
            );
        },
        _ => panic!("expected the timeout record"),
    }
    assert_eq!(state.last_opened_channel, Some("channel-1".to_string()));
}

#[test]
fn receive_records_packet_details() {
    let mut state = ContractState::new();
    ibc_packet_receive(
        &mut state,
        IbcPacketReceiveMsg {
            packet: PacketInfo {
                sequence: 42,
                data: "mping".to_string(),
                src_port_id: "wasm.other".to_string(),
                src_channel_id: "channel-9".to_string(),
            },
            relayer: "relayer-a".to_string(),
        },
    )
    .unwrap();
    match query(&state, QueryMsg::LastIbcOperation) {
        Ok(QueryAnswer::LastIbcOperation(op)) => {
            assert_eq!(op.name, "PacketReceive");
            assert_eq!(
                op.parameters,
                vec![
                    "packet_sequence: 42".to_string(),
                    "packet_data: mping".to_string(),
                    "packet_src_port_id: wasm.other".to_string(),
                    "packet_src_channel_id: channel-9".to_string(),
                    "relayer: relayer-a".to_string(),
                ]
            );
        },
        _ => panic!("expected the receive record"),
    }
}
