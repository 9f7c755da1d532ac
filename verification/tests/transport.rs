//! The request/response layer over a raw transport.

use flipper_rpc::error::Error;
use flipper_rpc::proto::{Content, Main};
use flipper_rpc::rpc::error::{CommandError, Error as RpcError};
use flipper_rpc::rpc::req::Request;
use flipper_rpc::rpc::res::Response;
use flipper_rpc::transport::mock::MockTransport;
use flipper_rpc::transport::{CommandIndex, Transport};

fn reply(status: i32, content: Content) -> Main {
    Main { command_id: 0, command_status: status, has_next: false, content: Some(content) }
}

#[test]
fn requests_consume_one_counter_value_each() {
    let mut t = MockTransport::new(vec![
        reply(0, Content::SystemPingResponse(vec![1, 2])),
        reply(0, Content::Empty),
    ]);
    let r = t.send_and_receive(Request::Ping(vec![1, 2])).unwrap();
    assert_eq!(r, Response::Ping(vec![1, 2]));
    let r = t.send_and_receive(Request::SystemDeviceInfo).unwrap();
    assert_eq!(r, Response::Empty);

    // Each standalone request consumed one counter value.
    assert_eq!(t.command_index(), 2);
    let sent = t.sent_messages();
    assert_eq!(sent[0].command_id, 0);
    assert_eq!(sent[1].command_id, 1);
}

#[test]
fn a_device_error_status_becomes_its_categorized_error() {
    let mut t = MockTransport::new(vec![reply(4, Content::Empty)]);
    let r = t.send_and_receive(Request::SystemProtobufVersion);
    assert_eq!(r, Err(Error::Rpc(RpcError::CommandError(CommandError::Busy))));
}

#[test]
fn an_unrecognized_status_code_is_its_own_error() {
    let mut t = MockTransport::new(vec![reply(42, Content::Empty)]);
    let r = t.send_and_receive(Request::SystemProtobufVersion);
    assert_eq!(r, Err(Error::UnknownStatus(42)));
}
