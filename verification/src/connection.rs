//! The client's side of a connection to a broker: what it sends, and what it
//! makes of the answers. The calls into the broker library are made by the
//! caller, who hands their outcome back.
use vstd::prelude::*;
use crate::bytes::{AmqpBytes, str_to_amqp_bytes, nul_free};
use crate::methods::{
    AMQPMethod, amqp_rpc_reply, amqp_queue_declare_ok, QueueDeclareOkWire, QueueDeclareRequest,
    QueueBindRequest, RpcCall, AMQP_RESPONSE_NORMAL, spec_method_id, bit, to_bit, is_normal,
    is_arguments_wire, arguments_to_rabbit, queue_declare_ok_from,
};
use crate::properties::{amqp_basic_properties, BasicPropertiesWire};
use crate::table::amqp_table;
use vstd::utf8::*;

verus! {

/// The port of a broker when none is given.
pub const DEFAULT_PORT: usize = 5672;

/// The largest frame size asked for at login when none is given.
pub const DEFAULT_FRAME_MAX: isize = 131072;

/// The kind of socket a connection uses.
#[derive(Debug, Clone, Copy, PartialEq, Eq)]
pub enum SocketType {
    TcpSocket,
}

/// Whether the socket of a connection is open.
#[derive(Debug, Clone, Copy, PartialEq, Eq)]
pub enum ConnectionState {
    ConnectionOpen,
    ConnectionClosed,
}

/// A connection to a broker.
#[derive(Debug)]
pub struct Connection {
    connection_state: ConnectionState,
}

/// A channel opened on a connection.
#[derive(Debug, Clone, Copy, PartialEq, Eq)]
pub struct Channel {
    pub id: u16,
}

/// Where to open the socket: the host and the port as a C `int`.
#[derive(Debug)]
pub struct SocketOpenRequest {
    pub hostname: String,
    pub port: i32,
}

/// A login to send: the virtual host, the limits as C `int`s, the SASL
/// method and the credentials.
#[derive(Debug)]
pub struct LoginRequest {
    pub vhost: String,
    pub channel_max: i32,
    pub frame_max: i32,
    pub heartbeat: i32,
    pub sasl_method: u32,
    pub login: String,
    pub password: String,
}

/// A message to publish as the broker library takes it.
#[derive(Debug)]
pub struct PublishRequest {
    pub channel: u16,
    pub exchange: AmqpBytes,
    pub routing_key: AmqpBytes,
    pub mandatory: i32,
    pub immediate: i32,
    pub properties: Option<BasicPropertiesWire>,
    pub body: AmqpBytes,
}

/// The text of the error when the connection state cannot be allocated.
pub open spec fn alloc_error() -> Seq<char> {
    "Error allocating new connection"@
}

/// The text of the error when the socket cannot be created.
pub open spec fn socket_error() -> Seq<char> {
    "Error creating socket"@
}

/// The port asked for: the given one, else the default, as a C `int`.
pub open spec fn port_to_use(port: Option<usize>) -> i32 {
    match port {
        Some(p) => p as i32,
        None => DEFAULT_PORT as i32,
    }
}

/// The largest frame size asked for: the given one, else the default, as a
/// C `int`.
pub open spec fn frame_max_to_use(frame_max: Option<isize>) -> i32 {
    match frame_max {
        Some(f) => f as i32,
        None => DEFAULT_FRAME_MAX as i32,
    }
}

/// What closing a connection sends: the reply code, when the socket was open;
/// nothing when it was not.
pub open spec fn close_outcome(was_open: bool, code: i32) -> Option<i32> {
    if was_open {
        Some(code)
    } else {
        None
    }
}

fn usize_as_int(x: usize) -> (res: i32)
    ensures
        res == x as i32,
{
    x as i32
}

fn isize_as_int(x: isize) -> (res: i32)
    ensures
        res == x as i32,
{
    x as i32
}

impl Connection {
    /// Whether the socket is open.
    pub closed spec fn is_open(&self) -> bool {
        self.connection_state == ConnectionState::ConnectionOpen
    }

    /// The connection with its socket open.
    pub closed spec fn opened(self) -> Connection {
        Connection { connection_state: ConnectionState::ConnectionOpen }
    }

    /// The connection with its socket closed.
    pub closed spec fn closed(self) -> Connection {
        Connection { connection_state: ConnectionState::ConnectionClosed }
    }

    /// The step after the broker library was asked to allocate its state.
    /// `Ok(socket_type)`: the state is there, and a socket of that type is to
    /// be created on it next. `Err((error, release))`: setting up stops with
    /// `error`; `release` says whether the allocated state is to be released,
    /// and here it is not, since nothing was allocated, and no socket is to
    /// be created.
    pub fn after_allocation(socket_type: SocketType, state_allocated: bool) -> (res: Result<
        SocketType,
        (String, bool),
    >)
        ensures
            state_allocated ==> res == Ok::<SocketType, (String, bool)>(socket_type),
            !state_allocated ==> (res matches Err((e, release)) && e@ == alloc_error() && !release),
    {
        if state_allocated {
            Ok(socket_type)
        } else {
            Err(("Error allocating new connection".to_owned(), false))
        }
    }

    /// Creates the connection once its socket was asked for on allocated
    /// state (the step after `after_allocation` gave `Ok`). When the socket
    /// could not be created, setting up stops with the error and the
    /// allocated state is to be released, once: the `true` of the error. When
    /// it was created, the connection holds the state, nothing is released,
    /// and its socket is not open yet.
    pub fn new(socket_type: SocketType, socket_created: bool) -> (res: Result<
        Connection,
        (String, bool),
    >)
        ensures
            !socket_created ==> (res matches Err((e, release)) && e@ == socket_error() && release),
            socket_created ==> (res matches Ok(c) && !c.is_open()),
    {
        match socket_type {
            SocketType::TcpSocket => {
                if !socket_created {
                    return Err(("Error creating socket".to_owned(), true));
                }
            },
        }
        Ok(Connection { connection_state: ConnectionState::ConnectionClosed })
    }

    /// Where to open the socket: the host, and the port given or else 5672.
    /// The host name must hold no NUL character.
    pub fn socket_open(&self, hostname: String, port: Option<usize>) -> (res: SocketOpenRequest)
        requires
            nul_free(hostname@),
        ensures
            res.hostname@ == hostname@,
            res.port == port_to_use(port),
            port matches Some(p) ==> res.port == p as i32,
            port is None ==> res.port == 5672,
    {
        let p = match port {
            Some(p) => usize_as_int(p),
            None => usize_as_int(DEFAULT_PORT),
        };
        SocketOpenRequest { hostname, port: p }
    }

    /// Takes the status code of opening the socket: 0 opens the connection;
    /// any other code is returned as the error and changes nothing.
    pub fn socket_open_result(&mut self, code: i32) -> (res: Result<(), i32>)
        ensures
            code == 0 ==> res is Ok && *final(self) == old(self).opened(),
            code != 0 ==> res == Err::<(), i32>(code) && *final(self) == *old(self),
    {
        if code == 0 {
            self.connection_state = ConnectionState::ConnectionOpen;
            Ok(())
        } else {
            Err(code)
        }
    }

    /// The login to send, with the frame size given or else 131072.
    pub fn login(
        &self,
        vhost: String,
        channel_max: isize,
        frame_max: Option<isize>,
        heartbeat: isize,
        sasl_method: u32,
        login: String,
        password: String,
    ) -> (res: LoginRequest)
        requires
            nul_free(vhost@),
            nul_free(login@),
            nul_free(password@),
        ensures
            res.vhost@ == vhost@,
            res.channel_max == channel_max as i32,
            res.frame_max == frame_max_to_use(frame_max),
            frame_max matches Some(f) ==> res.frame_max == f as i32,
            frame_max is None ==> res.frame_max == 131072,
            res.heartbeat == heartbeat as i32,
            res.sasl_method == sasl_method,
            res.login@ == login@,
            res.password@ == password@,
    {
        let f = match frame_max {
            Some(f) => isize_as_int(f),
            None => isize_as_int(DEFAULT_FRAME_MAX),
        };
        LoginRequest {
            vhost,
            channel_max: isize_as_int(channel_max),
            frame_max: f,
            heartbeat: isize_as_int(heartbeat),
            sasl_method,
            login,
            password,
        }
    }

    /// Takes the reply to the login: success when the call completed
    /// normally, else the reply itself as the error.
    pub fn login_result(&self, reply: amqp_rpc_reply) -> (res: Result<(), amqp_rpc_reply>)
        ensures
            is_normal(reply) ==> res is Ok,
            !is_normal(reply) ==> res == Err::<(), amqp_rpc_reply>(reply),
            res is Ok <==> reply.reply_type == 1,
    {
        if reply.reply_type == AMQP_RESPONSE_NORMAL {
            Ok(())
        } else {
            Err(reply)
        }
    }

    /// Takes the outcome of opening channel `channel`: the channel when the
    /// broker library answered, else nothing.
    pub fn channel_open(&self, channel: u16, answered: bool) -> (res: Option<Channel>)
        ensures
            answered ==> res == Some(Channel { id: channel }),
            !answered ==> res is None,
    {
        if answered {
            Some(Channel { id: channel })
        } else {
            None
        }
    }

    /// What closing a channel sends: the channel's number and the reply code.
    pub fn channel_close(&self, channel: Channel, code: i32) -> (res: (u16, i32))
        ensures
            res == (channel.id, code),
    {
        (channel.id, code)
    }

    /// A synchronous call on `channel` that sends `request_id` and accepts
    /// `reply_id` as its only reply.
    pub fn simple_rpc(&self, channel: Channel, request_id: AMQPMethod, reply_id: AMQPMethod) -> (res:
        RpcCall)
        ensures
            res.channel == channel.id,
            res.request_id == spec_method_id(request_id),
            res.expected_reply_ids@ == seq![spec_method_id(reply_id), 0u32],
    {
        let mut ids: Vec<u32> = Vec::new();
        ids.push(reply_id.id());
        ids.push(0);
        assert(ids@ =~= seq![spec_method_id(reply_id), 0u32]);
        RpcCall { channel: channel.id, request_id: request_id.id(), expected_reply_ids: ids }
    }

    /// The call that declares a queue and the declaration it sends: ticket 0,
    /// the flags as bits, no `nowait`, the arguments or an empty table.
    pub fn queue_declare(
        &self,
        channel: Channel,
        queue: String,
        passive: bool,
        durable: bool,
        exclusive: bool,
        auto_delete: bool,
        arguments: Option<amqp_table>,
    ) -> (res: (RpcCall, QueueDeclareRequest))
        requires
            nul_free(queue@),
        ensures
            res.0.channel == channel.id,
            res.0.request_id == spec_method_id(AMQPMethod::AMQP_QUEUE_DECLARE_METHOD),
            res.0.expected_reply_ids@ == seq![
                spec_method_id(AMQPMethod::AMQP_QUEUE_DECLARE_OK_METHOD),
                0u32,
            ],
            res.1.ticket == 0,
            res.1.queue.is_c_string_of(queue@),
            res.1.passive == bit(passive),
            res.1.durable == bit(durable),
            res.1.exclusive == bit(exclusive),
            res.1.auto_delete == bit(auto_delete),
            res.1.nowait == 0,
            is_arguments_wire(arguments, res.1.arguments),
    {
        let args = arguments_to_rabbit(arguments);
        let req = QueueDeclareRequest {
            ticket: 0,
            queue: str_to_amqp_bytes(queue.as_str()),
            passive: to_bit(passive),
            durable: to_bit(durable),
            exclusive: to_bit(exclusive),
            auto_delete: to_bit(auto_delete),
            nowait: 0,
            arguments: args,
        };
        let call = self.simple_rpc(
            channel,
            AMQPMethod::AMQP_QUEUE_DECLARE_METHOD,
            AMQPMethod::AMQP_QUEUE_DECLARE_OK_METHOD,
        );
        (call, req)
    }

    /// Takes the reply to a queue declaration: the broker's answer when the
    /// call completed normally, else the library's error code.
    pub fn queue_declare_result(&self, reply: &amqp_rpc_reply, decoded: Option<QueueDeclareOkWire>) -> (res:
        Result<amqp_queue_declare_ok, i32>)
        requires
            is_normal(*reply) ==> (decoded matches Some(d) && d.queue.wf() && valid_utf8(d.queue@)),
        ensures
            is_normal(*reply) ==> (res matches Ok(ok) && decoded matches Some(d) && ok.queue@
                == decode_utf8(d.queue@) && ok.message_count == d.message_count
                && ok.consumer_count == d.consumer_count),
            !is_normal(*reply) ==> res == Err::<amqp_queue_declare_ok, i32>(reply.library_error),
            res is Ok <==> reply.reply_type == 1,
    {
        queue_declare_ok_from(reply, decoded)
    }

    /// The call that binds a queue and the binding it sends: ticket 0, no
    /// `nowait`, the arguments or an empty table. The call sends the queue
    /// declaration's method number and expects the declaration's answer.
    pub fn queue_bind(
        &self,
        channel: Channel,
        queue: String,
        exchange: String,
        routing_key: String,
        arguments: Option<amqp_table>,
    ) -> (res: (RpcCall, QueueBindRequest))
        requires
            nul_free(queue@),
            nul_free(exchange@),
            nul_free(routing_key@),
        ensures
            res.0.channel == channel.id,
            res.0.request_id == spec_method_id(AMQPMethod::AMQP_QUEUE_DECLARE_METHOD),
            res.0.expected_reply_ids@ == seq![
                spec_method_id(AMQPMethod::AMQP_QUEUE_DECLARE_OK_METHOD),
                0u32,
            ],
            res.1.ticket == 0,
            res.1.queue.is_c_string_of(queue@),
            res.1.exchange.is_c_string_of(exchange@),
            res.1.routing_key.is_c_string_of(routing_key@),
            res.1.nowait == 0,
            is_arguments_wire(arguments, res.1.arguments),
    {
        let args = arguments_to_rabbit(arguments);
        let req = QueueBindRequest {
            ticket: 0,
            queue: str_to_amqp_bytes(queue.as_str()),
            exchange: str_to_amqp_bytes(exchange.as_str()),
            routing_key: str_to_amqp_bytes(routing_key.as_str()),
            nowait: 0,
            arguments: args,
        };
        let call = self.simple_rpc(
            channel,
            AMQPMethod::AMQP_QUEUE_DECLARE_METHOD,
            AMQPMethod::AMQP_QUEUE_DECLARE_OK_METHOD,
        );
        (call, req)
    }

    /// Takes the reply to a queue binding: success when the call completed
    /// normally, else the library's error code.
    pub fn queue_bind_result(&self, reply: &amqp_rpc_reply) -> (res: Result<(), i32>)
        ensures
            is_normal(*reply) ==> res is Ok,
            !is_normal(*reply) ==> res == Err::<(), i32>(reply.library_error),
            res is Ok <==> reply.reply_type == 1,
    {
        if reply.reply_type == AMQP_RESPONSE_NORMAL {
            Ok(())
        } else {
            Err(reply.library_error)
        }
    }

    /// The message to publish: the names and the body as bytes, the flags as
    /// bits, the properties in their wire form when there are any.
    pub fn basic_publish(
        &self,
        channel: Channel,
        exchange: String,
        routing_key: String,
        mandatory: bool,
        immediate: bool,
        properties: Option<amqp_basic_properties>,
        body: String,
    ) -> (res: PublishRequest)
        requires
            nul_free(exchange@),
            nul_free(routing_key@),
            nul_free(body@),
            properties matches Some(p) ==> p.strings_nul_free(),
        ensures
            res.channel == channel.id,
            res.exchange.is_c_string_of(exchange@),
            res.routing_key.is_c_string_of(routing_key@),
            res.mandatory == bit(mandatory),
            res.immediate == bit(immediate),
            properties is None ==> res.properties is None,
            properties matches Some(p) ==> (res.properties matches Some(w) && p.is_wire_form(w)),
            res.body.is_c_string_of(body@),
    {
        let props = match properties {
            Some(p) => Some(p.to_rabbit()),
            None => None,
        };
        PublishRequest {
            channel: channel.id,
            exchange: str_to_amqp_bytes(exchange.as_str()),
            routing_key: str_to_amqp_bytes(routing_key.as_str()),
            mandatory: to_bit(mandatory),
            immediate: to_bit(immediate),
            properties: props,
            body: str_to_amqp_bytes(body.as_str()),
        }
    }

    /// Closes the connection: when the socket was open, it is now closed and
    /// the close with `code` is to be sent; otherwise nothing is sent.
    pub fn connection_close(&mut self, code: i32) -> (res: Option<i32>)
        ensures
            res == close_outcome(old(self).is_open(), code),
            *final(self) == old(self).closed(),
    {
        match self.connection_state {
            ConnectionState::ConnectionOpen => {
                self.connection_state = ConnectionState::ConnectionClosed;
                Some(code)
            },
            ConnectionState::ConnectionClosed => None,
        }
    }
}

/// A connection sends a close at most once: after one close, its socket is
/// closed, and closing it again sends nothing.
pub proof fn lemma_close_sends_once(c: Connection, first: i32, second: i32)
    ensures
        close_outcome(c.is_open(), first) is Some <==> c.is_open(),
        !c.closed().is_open(),
        close_outcome(c.closed().is_open(), second) is None,
{
}

/// A connection whose socket was just opened (status 0) sends its close,
/// with the code given, when it is closed, and is closed afterwards.
pub proof fn lemma_open_then_close(c: Connection, code: i32)
    ensures
        c.opened().is_open(),
        close_outcome(c.opened().is_open(), code) == Some(code),
        !c.opened().closed().is_open(),
{
}

/// A port that is given is the port asked for, as a C `int`; without one the
/// port is 5672.
pub proof fn lemma_port_passed_through(p: usize)
    ensures
        port_to_use(Some(p)) == p as i32,
        port_to_use(None) == 5672,
{
}

/// A frame size that is given is the one asked for at login, as a C `int`;
/// without one it is 131072.
pub proof fn lemma_frame_max_passed_through(f: isize)
    ensures
        frame_max_to_use(Some(f)) == f as i32,
        frame_max_to_use(None) == 131072,
{
}

} // verus!
