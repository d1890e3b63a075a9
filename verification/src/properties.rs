//! The basic content-header properties of a published message.
use vstd::prelude::*;
use crate::bytes::{AmqpBytes, str_to_amqp_bytes, nul_free};
use crate::table::{amqp_table, TableWire, entries_view, wire_count};

verus! {

/// The properties of a message, as the caller fills them in.
#[derive(Debug)]
pub struct amqp_basic_properties {
    pub _flags: u32,
    pub content_type: String,
    pub content_encoding: String,
    pub headers: amqp_table,
    pub delivery_mode: u8,
    pub priority: u8,
    pub correlation_id: String,
    pub reply_to: String,
    pub expiration: String,
    pub message_id: String,
    pub timestamp: u64,
    pub _type: String,
    pub user_id: String,
    pub app_id: String,
    pub cluster_id: String,
}

/// The properties as the wire structure holds them
/// (`amqp_basic_properties_t`): every string as its bytes, the headers as a
/// wire table.
#[derive(Debug)]
pub struct BasicPropertiesWire {
    pub _flags: u32,
    pub content_type: AmqpBytes,
    pub content_encoding: AmqpBytes,
    pub headers: TableWire,
    pub delivery_mode: u8,
    pub priority: u8,
    pub correlation_id: AmqpBytes,
    pub reply_to: AmqpBytes,
    pub expiration: AmqpBytes,
    pub message_id: AmqpBytes,
    pub timestamp: u64,
    pub _type: AmqpBytes,
    pub user_id: AmqpBytes,
    pub app_id: AmqpBytes,
    pub cluster_id: AmqpBytes,
}

impl amqp_basic_properties {
    /// Whether `w` is the wire form of these properties: each field carried
    /// over, each string as its UTF-8 bytes, the headers as their wire table.
    pub open spec fn is_wire_form(&self, w: BasicPropertiesWire) -> bool {
        &&& w._flags == self._flags
        &&& w.content_type.is_c_string_of(self.content_type@)
        &&& w.content_encoding.is_c_string_of(self.content_encoding@)
        &&& w.headers.num_entries == wire_count(self.headers@.len())
        &&& entries_view(w.headers.entries@) == self.headers@
        &&& w.delivery_mode == self.delivery_mode
        &&& w.priority == self.priority
        &&& w.correlation_id.is_c_string_of(self.correlation_id@)
        &&& w.reply_to.is_c_string_of(self.reply_to@)
        &&& w.expiration.is_c_string_of(self.expiration@)
        &&& w.message_id.is_c_string_of(self.message_id@)
        &&& w.timestamp == self.timestamp
        &&& w._type.is_c_string_of(self._type@)
        &&& w.user_id.is_c_string_of(self.user_id@)
        &&& w.app_id.is_c_string_of(self.app_id@)
        &&& w.cluster_id.is_c_string_of(self.cluster_id@)
    }

    /// Whether every string of the properties can be handed to the broker
    /// library: none holds a NUL character.
    pub open spec fn strings_nul_free(&self) -> bool {
        &&& nul_free(self.content_type@)
        &&& nul_free(self.content_encoding@)
        &&& nul_free(self.correlation_id@)
        &&& nul_free(self.reply_to@)
        &&& nul_free(self.expiration@)
        &&& nul_free(self.message_id@)
        &&& nul_free(self._type@)
        &&& nul_free(self.user_id@)
        &&& nul_free(self.app_id@)
        &&& nul_free(self.cluster_id@)
    }

    /// The wire form of the properties; no string may hold a NUL character.
    pub fn to_rabbit(&self) -> (res: BasicPropertiesWire)
        requires
            self.strings_nul_free(),
        ensures
            self.is_wire_form(res),
    {
        BasicPropertiesWire {
            _flags: self._flags,
            content_type: str_to_amqp_bytes(self.content_type.as_str()),
            content_encoding: str_to_amqp_bytes(self.content_encoding.as_str()),
            headers: self.headers.to_rabbit(),
            delivery_mode: self.delivery_mode,
            priority: self.priority,
            correlation_id: str_to_amqp_bytes(self.correlation_id.as_str()),
            reply_to: str_to_amqp_bytes(self.reply_to.as_str()),
            expiration: str_to_amqp_bytes(self.expiration.as_str()),
            message_id: str_to_amqp_bytes(self.message_id.as_str()),
            timestamp: self.timestamp,
            _type: str_to_amqp_bytes(self._type.as_str()),
            user_id: str_to_amqp_bytes(self.user_id.as_str()),
            app_id: str_to_amqp_bytes(self.app_id.as_str()),
            cluster_id: str_to_amqp_bytes(self.cluster_id.as_str()),
        }
    }
}

impl Default for amqp_basic_properties {
    /// No flags set, every string empty, every number zero, no headers.
    fn default() -> (res: amqp_basic_properties)
        ensures
            res._flags == 0,
            res.content_type@.len() == 0,
            res.content_encoding@.len() == 0,
            res.headers@.len() == 0,
            res.delivery_mode == 0,
            res.priority == 0,
            res.correlation_id@.len() == 0,
            res.reply_to@.len() == 0,
            res.expiration@.len() == 0,
            res.message_id@.len() == 0,
            res.timestamp == 0,
            res._type@.len() == 0,
            res.user_id@.len() == 0,
            res.app_id@.len() == 0,
            res.cluster_id@.len() == 0,
    {
        amqp_basic_properties {
            _flags: 0,
            content_type: String::new(),
            content_encoding: String::new(),
            headers: amqp_table::new(),
            delivery_mode: 0,
            priority: 0,
            correlation_id: String::new(),
            reply_to: String::new(),
            expiration: String::new(),
            message_id: String::new(),
            timestamp: 0,
            _type: String::new(),
            user_id: String::new(),
            app_id: String::new(),
            cluster_id: String::new(),
        }
    }
}

} // verus!
