use amqp::bytes::{amqp_bytes_to_str, str_to_amqp_bytes, AmqpBytes};
use amqp::connection::{Channel, Connection, SocketType, DEFAULT_FRAME_MAX, DEFAULT_PORT};
use amqp::methods::{
    amqp_rpc_reply, AMQPMethod, QueueDeclareOkWire, AMQP_RESPONSE_NORMAL, AMQP_SASL_METHOD_PLAIN,
};
use amqp::properties::amqp_basic_properties;
use amqp::table::{amqp_table, TableField, FIELD_KIND_U32};
use amqp::AMQP_REPLY_SUCCESS;

/// Checks that `b` is the C string form of `expected`: the bytes, their
/// length, and a 0 byte after them.
fn assert_c_string(b: &AmqpBytes, expected: &[u8]) {
    assert_eq!(b.len(), expected.len() as u64);
    let mut with_nul = expected.to_vec();
    with_nul.push(0);
    assert_eq!(b.bytes, with_nul);
}

fn new_connection() -> Connection {
    assert_eq!(Connection::after_allocation(SocketType::TcpSocket, true), Ok(SocketType::TcpSocket));
    Connection::new(SocketType::TcpSocket, true).unwrap()
}

fn open_connection() -> Connection {
    let mut c = new_connection();
    assert_eq!(c.socket_open_result(0), Ok(()));
    c
}

fn normal_reply() -> amqp_rpc_reply {
    amqp_rpc_reply { reply_type: AMQP_RESPONSE_NORMAL, method_id: 0x0032000B, library_error: 0 }
}

fn failed_reply(code: i32) -> amqp_rpc_reply {
    amqp_rpc_reply { reply_type: 2, method_id: 0, library_error: code }
}

#[test]
fn u32_field_is_an_i_tagged_word() {
    assert_eq!(7u32.kind(), b'I');
    assert_eq!(FIELD_KIND_U32, b'I');
    assert_eq!(7u32.value(), [7u64, 0u64]);
    assert_eq!(u32::MAX.value(), [4294967295u64, 0u64]);
    let f = 42u32.to_rabbit();
    assert_eq!(f.kind, 73);
    assert_eq!(f.value, [42, 0]);
}

#[test]
fn add_entry_appends_in_order() {
    let mut t = amqp_table::default();
    assert_eq!(t.entries.len(), 0);
    t.add_entry("x-max-length".to_string(), 10u32);
    t.add_entry("x-expires".to_string(), 60000u32);
    assert_eq!(t.entries.len(), 2);
    assert_c_string(&t.entries[0].key, b"x-max-length");
    assert_eq!(t.entries[0].value.value, [10, 0]);
    assert_c_string(&t.entries[1].key, b"x-expires");
    assert_eq!(t.entries[1].value.value, [60000, 0]);
    assert_eq!(t.entries[1].value.kind, b'I');
}

#[test]
fn table_wire_form_counts_its_entries() {
    let mut t = amqp_table::new();
    let empty = t.to_rabbit();
    assert_eq!(empty.num_entries, 0);
    assert!(empty.entries.is_empty());
    t.add_entry("a".to_string(), 1u32);
    t.add_entry("b".to_string(), 2u32);
    t.add_entry("c".to_string(), 3u32);
    let w = t.to_rabbit();
    assert_eq!(w.num_entries, 3);
    assert_eq!(w.entries.len(), 3);
    assert_c_string(&w.entries[2].key, b"c");
    assert_eq!(w.entries[2].value.value, [3, 0]);
    // the table itself is left as it was
    assert_eq!(t.entries.len(), 3);
}

#[test]
fn strings_become_their_utf8_bytes() {
    let b = str_to_amqp_bytes("testq123");
    assert_eq!(b.len(), 8);
    assert_c_string(&b, b"testq123");
    let u = str_to_amqp_bytes("héllo");
    assert_eq!(u.len(), 6);
    assert_eq!(u.bytes, vec![0x68, 0xc3, 0xa9, 0x6c, 0x6c, 0x6f, 0]);
    let e = str_to_amqp_bytes("");
    assert_eq!(e.len(), 0);
}

#[test]
fn bytes_decode_back_to_the_string() {
    for s in ["", "amq.gen-JzTY20BRgKO", "héllo", "黑风雷"] {
        assert_eq!(amqp_bytes_to_str(&str_to_amqp_bytes(s)), s);
    }
    let b = AmqpBytes { len: 2, bytes: vec![0x71, 0x31] };
    assert_eq!(amqp_bytes_to_str(&b), "q1");
    // only the first `len` bytes of the buffer belong to the string
    let b = AmqpBytes { len: 1, bytes: vec![0x71, 0x31, 0] };
    assert_eq!(amqp_bytes_to_str(&b), "q");
}

#[test]
fn default_properties_are_empty() {
    let p = amqp_basic_properties::default();
    assert_eq!(p._flags, 0);
    assert_eq!(p.content_type, "");
    assert_eq!(p.delivery_mode, 0);
    assert_eq!(p.timestamp, 0);
    assert!(p.headers.entries.is_empty());
    let w = p.to_rabbit();
    assert_eq!(w.content_type.len(), 0);
    assert_eq!(w.headers.num_entries, 0);
}

#[test]
fn properties_wire_form_keeps_every_field() {
    let mut headers = amqp_table::new();
    headers.add_entry("hi".to_string(), 1u32);
    let p = amqp_basic_properties {
        _flags: 1 << 15,
        content_type: "text/plain".to_string(),
        content_encoding: "utf-8".to_string(),
        headers,
        delivery_mode: 1,
        priority: 5,
        correlation_id: "c-1".to_string(),
        reply_to: "replies".to_string(),
        expiration: "60000".to_string(),
        message_id: "m-1".to_string(),
        timestamp: 1234567890,
        _type: "greeting".to_string(),
        user_id: "guest".to_string(),
        app_id: "hello".to_string(),
        cluster_id: "c".to_string(),
    };
    let w = p.to_rabbit();
    assert_eq!(w._flags, 32768);
    assert_c_string(&w.content_type, b"text/plain");
    assert_c_string(&w.content_encoding, b"utf-8");
    assert_eq!(w.headers.num_entries, 1);
    assert_c_string(&w.headers.entries[0].key, b"hi");
    assert_eq!(w.delivery_mode, 1);
    assert_eq!(w.priority, 5);
    assert_c_string(&w.correlation_id, b"c-1");
    assert_c_string(&w.reply_to, b"replies");
    assert_c_string(&w.expiration, b"60000");
    assert_c_string(&w.message_id, b"m-1");
    assert_eq!(w.timestamp, 1234567890);
    assert_c_string(&w._type, b"greeting");
    assert_c_string(&w.user_id, b"guest");
    assert_c_string(&w.app_id, b"hello");
    assert_c_string(&w.cluster_id, b"c");
}

#[test]
fn new_connection_reports_each_failure() {
    // no state: stop, release nothing, create no socket
    assert_eq!(
        Connection::after_allocation(SocketType::TcpSocket, false),
        Err(("Error allocating new connection".to_string(), false))
    );
    // state but no socket: stop and release the state
    match Connection::new(SocketType::TcpSocket, false) {
        Err((e, release)) => {
            assert_eq!(e, "Error creating socket");
            assert!(release);
        }
        Ok(_) => panic!("expected an error"),
    }
    let mut c = new_connection();
    // a new connection's socket is not open, so closing sends nothing
    assert_eq!(c.connection_close(AMQP_REPLY_SUCCESS), None);
}

#[test]
fn socket_open_defaults_to_port_5672() {
    let c = new_connection();
    let r = c.socket_open("localhost".to_string(), None);
    assert_eq!(r.hostname, "localhost");
    assert_eq!(r.port, 5672);
    assert_eq!(DEFAULT_PORT, 5672);
    let r = c.socket_open("broker".to_string(), Some(5673));
    assert_eq!(r.port, 5673);
}

#[test]
fn socket_open_failure_changes_nothing() {
    let mut c = new_connection();
    assert_eq!(c.socket_open_result(-9), Err(-9));
    assert_eq!(c.connection_close(AMQP_REPLY_SUCCESS), None);
    assert_eq!(c.socket_open_result(0), Ok(()));
    assert_eq!(c.connection_close(AMQP_REPLY_SUCCESS), Some(200));
}

#[test]
fn close_is_sent_once() {
    let mut c = open_connection();
    assert_eq!(c.connection_close(AMQP_REPLY_SUCCESS), Some(AMQP_REPLY_SUCCESS));
    assert_eq!(c.connection_close(AMQP_REPLY_SUCCESS), None);
    assert_eq!(c.connection_close(320), None);
}

#[test]
fn login_fills_in_the_frame_size() {
    let c = open_connection();
    let r = c.login("/".to_string(), 0, None, 0, AMQP_SASL_METHOD_PLAIN, "guest".to_string(), "guest".to_string());
    assert_eq!(r.vhost, "/");
    assert_eq!(r.channel_max, 0);
    assert_eq!(r.frame_max, 131072);
    assert_eq!(DEFAULT_FRAME_MAX, 131072);
    assert_eq!(r.heartbeat, 0);
    assert_eq!(r.sasl_method, 0);
    assert_eq!(r.login, "guest");
    assert_eq!(r.password, "guest");
    let r = c.login("/v".to_string(), 2047, Some(4096), 60, AMQP_SASL_METHOD_PLAIN, "u".to_string(), "p".to_string());
    assert_eq!(r.channel_max, 2047);
    assert_eq!(r.frame_max, 4096);
    assert_eq!(r.heartbeat, 60);
}

#[test]
fn login_result_follows_the_reply() {
    let c = open_connection();
    assert_eq!(c.login_result(normal_reply()), Ok(()));
    let bad = failed_reply(-4);
    assert_eq!(c.login_result(bad), Err(bad));
}

#[test]
fn channel_open_needs_an_answer() {
    let c = open_connection();
    assert_eq!(c.channel_open(1, true), Some(Channel { id: 1 }));
    assert_eq!(c.channel_open(1, false), None);
    assert_eq!(c.channel_close(Channel { id: 3 }, AMQP_REPLY_SUCCESS), (3, 200));
}

#[test]
fn method_numbers() {
    assert_eq!(AMQPMethod::AMQP_QUEUE_DECLARE_METHOD.id(), 0x0032000A);
    assert_eq!(AMQPMethod::AMQP_QUEUE_DECLARE_OK_METHOD.id(), 0x0032000B);
    assert_eq!(AMQPMethod::AMQP_QUEUE_BIND_METHOD.id(), 0x00320014);
    assert_eq!(AMQPMethod::AMQP_QUEUE_BIND_OK_METHOD.id(), 0x00320015);
}

#[test]
fn simple_rpc_expects_one_reply() {
    let c = open_connection();
    let call = c.simple_rpc(
        Channel { id: 2 },
        AMQPMethod::AMQP_QUEUE_BIND_METHOD,
        AMQPMethod::AMQP_QUEUE_BIND_OK_METHOD,
    );
    assert_eq!(call.channel, 2);
    assert_eq!(call.request_id, 0x00320014);
    assert_eq!(call.expected_reply_ids, vec![0x00320015, 0]);
}

#[test]
fn queue_declare_request() {
    let c = open_connection();
    let (call, req) = c.queue_declare(Channel { id: 1 }, "testq123".to_string(), false, true, false, true, None);
    assert_eq!(call.channel, 1);
    assert_eq!(call.request_id, 0x0032000A);
    assert_eq!(call.expected_reply_ids, vec![0x0032000B, 0]);
    assert_eq!(req.ticket, 0);
    assert_c_string(&req.queue, b"testq123");
    assert_eq!(req.passive, 0);
    assert_eq!(req.durable, 1);
    assert_eq!(req.exclusive, 0);
    assert_eq!(req.auto_delete, 1);
    assert_eq!(req.nowait, 0);
    assert_eq!(req.arguments.num_entries, 0);

    let mut args = amqp_table::new();
    args.add_entry("x-max-length".to_string(), 100u32);
    let (_, req) = c.queue_declare(Channel { id: 1 }, "q".to_string(), true, false, true, false, Some(args));
    assert_eq!(req.passive, 1);
    assert_eq!(req.exclusive, 1);
    assert_eq!(req.arguments.num_entries, 1);
    assert_eq!(req.arguments.entries[0].value.value, [100, 0]);
}

#[test]
fn queue_declare_result_reads_the_answer() {
    let c = open_connection();
    let ok = c
        .queue_declare_result(
            &normal_reply(),
            Some(QueueDeclareOkWire { queue: str_to_amqp_bytes("testq123"), message_count: 4, consumer_count: 1 }),
        )
        .unwrap();
    assert_eq!(ok.queue, "testq123");
    assert_eq!(ok.message_count, 4);
    assert_eq!(ok.consumer_count, 1);
    match c.queue_declare_result(&failed_reply(-7), None) {
        Err(e) => assert_eq!(e, -7),
        Ok(_) => panic!("expected an error"),
    }
}

#[test]
fn queue_bind_request_and_result() {
    let c = open_connection();
    let (call, req) = c.queue_bind(
        Channel { id: 5 },
        "q".to_string(),
        "amq.direct".to_string(),
        "key".to_string(),
        None,
    );
    assert_eq!(call.channel, 5);
    // the binding is sent under the declaration's method numbers
    assert_eq!(call.request_id, 0x0032000A);
    assert_eq!(call.expected_reply_ids, vec![0x0032000B, 0]);
    assert_eq!(req.ticket, 0);
    assert_c_string(&req.queue, b"q");
    assert_c_string(&req.exchange, b"amq.direct");
    assert_c_string(&req.routing_key, b"key");
    assert_eq!(req.nowait, 0);
    assert_eq!(req.arguments.num_entries, 0);
    assert_eq!(c.queue_bind_result(&normal_reply()), Ok(()));
    assert_eq!(c.queue_bind_result(&failed_reply(-1)), Err(-1));
}

#[test]
fn basic_publish_request() {
    let c = open_connection();
    let r = c.basic_publish(Channel { id: 1 }, "".to_string(), "testq123".to_string(), false, true, None, "hello".to_string());
    assert_eq!(r.channel, 1);
    assert_eq!(r.exchange.len(), 0);
    assert_c_string(&r.routing_key, b"testq123");
    assert_eq!(r.mandatory, 0);
    assert_eq!(r.immediate, 1);
    assert!(r.properties.is_none());
    assert_c_string(&r.body, b"hello");

    let props = amqp_basic_properties {
        _flags: 1 << 15,
        content_type: "text/plain".to_string(),
        delivery_mode: 1,
        ..Default::default()
    };
    let r = c.basic_publish(Channel { id: 1 }, "".to_string(), "testq123".to_string(), true, false, Some(props), "xxxhello from rust!".to_string());
    assert_eq!(r.mandatory, 1);
    let w = r.properties.unwrap();
    assert_eq!(w._flags, 32768);
    assert_c_string(&w.content_type, b"text/plain");
    assert_eq!(w.delivery_mode, 1);
    assert_eq!(r.body.len(), 19);
}
