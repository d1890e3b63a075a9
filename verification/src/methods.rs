//! AMQP method identifiers, the replies of synchronous calls and the method
//! structures that the client sends and receives.
use vstd::prelude::*;
use crate::bytes::{AmqpBytes, amqp_bytes_to_str};
use crate::table::{amqp_table, TableWire, entries_view, wire_count};
use vstd::utf8::*;

verus! {

/// The reply type of a synchronous call that completed normally
/// (`AMQP_RESPONSE_NORMAL`).
pub const AMQP_RESPONSE_NORMAL: u32 = 1;

/// The SASL method that sends a login and a password in clear
/// (`AMQP_SASL_METHOD_PLAIN`).
pub const AMQP_SASL_METHOD_PLAIN: u32 = 0;

/// The queue methods that the client sends or expects.
#[derive(Debug, Clone, Copy, PartialEq, Eq)]
pub enum AMQPMethod {
    AMQP_QUEUE_DECLARE_METHOD,
    AMQP_QUEUE_DECLARE_OK_METHOD,
    AMQP_QUEUE_BIND_METHOD,
    AMQP_QUEUE_BIND_OK_METHOD,
}

/// The number of a method on the wire: its class (queue, 50) in the high
/// half and its index in the class in the low half.
pub open spec fn spec_method_id(m: AMQPMethod) -> u32 {
    match m {
        AMQPMethod::AMQP_QUEUE_DECLARE_METHOD => 0x0032000A,
        AMQPMethod::AMQP_QUEUE_DECLARE_OK_METHOD => 0x0032000B,
        AMQPMethod::AMQP_QUEUE_BIND_METHOD => 0x00320014,
        AMQPMethod::AMQP_QUEUE_BIND_OK_METHOD => 0x00320015,
    }
}

impl AMQPMethod {
    /// The number of the method on the wire.
    pub fn id(&self) -> (res: u32)
        ensures
            res == spec_method_id(*self),
    {
        match self {
            AMQPMethod::AMQP_QUEUE_DECLARE_METHOD => 0x0032000A,
            AMQPMethod::AMQP_QUEUE_DECLARE_OK_METHOD => 0x0032000B,
            AMQPMethod::AMQP_QUEUE_BIND_METHOD => 0x00320014,
            AMQPMethod::AMQP_QUEUE_BIND_OK_METHOD => 0x00320015,
        }
    }
}

/// The reply of a synchronous call (`amqp_rpc_reply_t`): how it ended, the
/// method that came back, and the library's error code.
#[derive(Debug, Clone, Copy, PartialEq, Eq)]
pub struct amqp_rpc_reply {
    pub reply_type: u32,
    pub method_id: u32,
    pub library_error: i32,
}

/// The answer of the broker to a queue declaration.
#[derive(Debug)]
pub struct amqp_queue_declare_ok {
    pub queue: String,
    pub message_count: u32,
    pub consumer_count: u32,
}

/// The answer to a queue declaration as the wire structure holds it
/// (`amqp_queue_declare_ok_t`).
#[derive(Debug)]
pub struct QueueDeclareOkWire {
    pub queue: AmqpBytes,
    pub message_count: u32,
    pub consumer_count: u32,
}

/// The arguments of a queue purge.
#[derive(Debug)]
pub struct amqp_queue_purge {
    pub ticket: u16,
    pub queue: String,
    pub nowait: bool,
}

/// A queue declaration as the wire structure holds it
/// (`amqp_queue_declare_t`); each flag is 0 or 1.
#[derive(Debug)]
pub struct QueueDeclareRequest {
    pub ticket: u16,
    pub queue: AmqpBytes,
    pub passive: i32,
    pub durable: i32,
    pub exclusive: i32,
    pub auto_delete: i32,
    pub nowait: i32,
    pub arguments: TableWire,
}

/// A queue binding as the wire structure holds it (`amqp_queue_bind_t`).
#[derive(Debug)]
pub struct QueueBindRequest {
    pub ticket: u16,
    pub queue: AmqpBytes,
    pub exchange: AmqpBytes,
    pub routing_key: AmqpBytes,
    pub nowait: i32,
    pub arguments: TableWire,
}

/// A synchronous call to make: the channel, the method sent, and the list of
/// methods accepted as its reply, ended by 0.
#[derive(Debug)]
pub struct RpcCall {
    pub channel: u16,
    pub request_id: u32,
    pub expected_reply_ids: Vec<u32>,
}

/// A flag as the wire structures carry it.
pub open spec fn bit(b: bool) -> i32 {
    if b {
        1
    } else {
        0
    }
}

/// A flag as the wire structures carry it.
pub fn to_bit(b: bool) -> (res: i32)
    ensures
        res == bit(b),
{
    if b {
        1
    } else {
        0
    }
}

/// The entries of an optional argument table: none when there is no table.
pub open spec fn arguments_view(arguments: Option<amqp_table>) -> Seq<(Seq<u8>, (u8, Seq<u64>))> {
    match arguments {
        Some(t) => t@,
        None => Seq::empty(),
    }
}

/// Whether `w` is the wire table of the optional arguments.
pub open spec fn is_arguments_wire(arguments: Option<amqp_table>, w: TableWire) -> bool {
    &&& w.num_entries == wire_count(arguments_view(arguments).len())
    &&& entries_view(w.entries@) == arguments_view(arguments)
}

/// The wire table of optional arguments: an empty table when there are none.
pub fn arguments_to_rabbit(arguments: Option<amqp_table>) -> (res: TableWire)
    ensures
        is_arguments_wire(arguments, res),
{
    match arguments {
        Some(args) => args.to_rabbit(),
        None => amqp_table::new().to_rabbit(),
    }
}

/// Whether a reply is that of a call that completed normally.
pub open spec fn is_normal(reply: amqp_rpc_reply) -> bool {
    reply.reply_type == AMQP_RESPONSE_NORMAL
}

/// Reads the broker's answer to a queue declaration: the answer itself when
/// the call completed normally, else the library's error code. The queue name
/// must then be valid UTF-8.
pub fn queue_declare_ok_from(reply: &amqp_rpc_reply, decoded: Option<QueueDeclareOkWire>) -> (res:
    Result<amqp_queue_declare_ok, i32>)
    requires
        is_normal(*reply) ==> (decoded matches Some(d) && d.queue.wf() && valid_utf8(d.queue@)),
    ensures
        is_normal(*reply) ==> (res matches Ok(ok) && decoded matches Some(d) && ok.queue@
            == decode_utf8(d.queue@) && ok.message_count == d.message_count && ok.consumer_count
            == d.consumer_count),
        !is_normal(*reply) ==> res == Err::<amqp_queue_declare_ok, i32>(reply.library_error),
{
    if reply.reply_type == AMQP_RESPONSE_NORMAL {
        match decoded {
            Some(d) => Ok(
                amqp_queue_declare_ok {
                    queue: amqp_bytes_to_str(&d.queue),
                    message_count: d.message_count,
                    consumer_count: d.consumer_count,
                },
            ),
            None => Err(reply.library_error),
        }
    } else {
        Err(reply.library_error)
    }
}

/// A reply counts as normal exactly when its type is 1
/// (`AMQP_RESPONSE_NORMAL`), whatever its error code and method: a reply of
/// any other type is a failure.
pub proof fn lemma_normal_reply_exact(reply: amqp_rpc_reply)
    ensures
        is_normal(reply) <==> reply.reply_type == 1,
{
}

} // verus!
