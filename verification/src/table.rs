//! Field tables: the typed key/value lists that carry optional arguments of
//! AMQP methods and the headers of a message.
use vstd::prelude::*;
use crate::bytes::{AmqpBytes, str_to_amqp_bytes, wire_bytes, nul_free};

verus! {

/// A field value as the wire structure holds it (`amqp_field_value_t`): a
/// one-byte type tag and the 16 bytes of the value, seen as two words.
#[derive(Debug, Clone, Copy)]
pub struct FieldValue {
    pub kind: u8,
    pub value: [u64; 2],
}

impl View for FieldValue {
    type V = (u8, Seq<u64>);

    open spec fn view(&self) -> (u8, Seq<u64>) {
        (self.kind, self.value@)
    }
}

/// A value that can stand in a field table.
pub trait TableField {
    /// The type tag of the value on the wire.
    spec fn field_kind(&self) -> u8;

    /// The two words that hold the value on the wire.
    spec fn field_words(&self) -> Seq<u64>;

    fn value(&self) -> (res: [u64; 2])
        ensures
            res@ == self.field_words(),
    ;

    fn kind(&self) -> (res: u8)
        ensures
            res == self.field_kind(),
    ;

    /// The wire form of the value: its tag and its words.
    fn to_rabbit(&self) -> (res: FieldValue)
        ensures
            res@ == (self.field_kind(), self.field_words()),
    {
        FieldValue { kind: self.kind(), value: self.value() }
    }
}

/// The tag of a 32-bit integer field (`'I'`).
pub const FIELD_KIND_U32: u8 = 73;

impl TableField for u32 {
    open spec fn field_kind(&self) -> u8 {
        FIELD_KIND_U32
    }

    open spec fn field_words(&self) -> Seq<u64> {
        seq![*self as u64, 0u64]
    }

    fn value(&self) -> (res: [u64; 2]) {
        let res = [*self as u64, 0u64];
        assert(res@ =~= seq![*self as u64, 0u64]);
        res
    }

    fn kind(&self) -> (res: u8) {
        'I' as u8
    }
}

/// One entry of a field table (`amqp_table_entry_t`).
#[derive(Debug)]
pub struct TableEntry {
    pub key: AmqpBytes,
    pub value: FieldValue,
}

impl View for TableEntry {
    type V = (Seq<u8>, (u8, Seq<u64>));

    open spec fn view(&self) -> (Seq<u8>, (u8, Seq<u64>)) {
        (self.key@, self.value@)
    }
}

impl TableEntry {
    /// A second entry with the same key and value.
    pub fn duplicate(&self) -> (res: TableEntry)
        ensures
            res@ == self@,
    {
        TableEntry { key: self.key.duplicate(), value: self.value }
    }
}

/// The views of a list of entries.
pub open spec fn entries_view(entries: Seq<TableEntry>) -> Seq<(Seq<u8>, (u8, Seq<u64>))> {
    entries.map_values(|e: TableEntry| e@)
}

/// A field table: its entries in the order they were added.
#[derive(Debug)]
pub struct amqp_table {
    pub entries: Vec<TableEntry>,
}

impl View for amqp_table {
    type V = Seq<(Seq<u8>, (u8, Seq<u64>))>;

    open spec fn view(&self) -> Seq<(Seq<u8>, (u8, Seq<u64>))> {
        entries_view(self.entries@)
    }
}

/// A field table as the wire structure holds it (`amqp_table_t`): the
/// number of entries, as a C `int`, and the entries.
#[derive(Debug)]
pub struct TableWire {
    pub num_entries: i32,
    pub entries: Vec<TableEntry>,
}

/// The number of entries as the wire structure records it: the length cast to
/// a C `int`, as the broker library's structure declares it.
pub open spec fn wire_count(len: nat) -> i32 {
    len as i32
}

fn count_as_int(len: usize) -> (res: i32)
    ensures
        res == wire_count(len as nat),
{
    len as i32
}

/// Copies a list of entries.
pub fn copy_entries(entries: &Vec<TableEntry>) -> (res: Vec<TableEntry>)
    ensures
        entries_view(res@) == entries_view(entries@),
{
    let mut res: Vec<TableEntry> = Vec::new();
    let n = entries.len();
    for i in 0..n
        invariant
            n == entries@.len(),
            res@.len() == i,
            forall|j: int| 0 <= j < i ==> #[trigger] res@[j]@ == entries@[j]@,
    {
        res.push(entries[i].duplicate());
    }
    assert(entries_view(res@) =~= entries_view(entries@));
    res
}

impl amqp_table {
    /// The empty table.
    pub fn new() -> (res: amqp_table)
        ensures
            res@ == Seq::<(Seq<u8>, (u8, Seq<u64>))>::empty(),
    {
        let res = amqp_table { entries: Vec::new() };
        assert(res@ =~= Seq::<(Seq<u8>, (u8, Seq<u64>))>::empty());
        res
    }

    /// The wire form of the table: the entries and their count.
    pub fn to_rabbit(&self) -> (res: TableWire)
        ensures
            res.num_entries == wire_count(self@.len()),
            self@.len() < 0x8000_0000 ==> res.num_entries == self@.len(),
            entries_view(res.entries@) == self@,
    {
        let entries = copy_entries(&self.entries);
        TableWire { num_entries: count_as_int(self.entries.len()), entries }
    }

    /// Appends an entry with the given key and value; the entries already
    /// there stay as they were. The key must hold no NUL character.
    pub fn add_entry<T: TableField>(&mut self, key: String, value: T)
        requires
            nul_free(key@),
        ensures
            final(self)@ == old(self)@.push((wire_bytes(key@), (value.field_kind(), value.field_words()))),
            final(self).entries@.last().key.is_c_string_of(key@),
    {
        let entry = TableEntry { key: str_to_amqp_bytes(key.as_str()), value: value.to_rabbit() };
        self.entries.push(entry);
        assert(final(self)@ =~= old(self)@.push((wire_bytes(key@), (value.field_kind(), value.field_words()))));
    }
}

impl Default for amqp_table {
    fn default() -> (res: amqp_table)
        ensures
            res@ == Seq::<(Seq<u8>, (u8, Seq<u64>))>::empty(),
    {
        amqp_table::new()
    }
}

/// A table of fewer than 2^31 entries is counted exactly on the wire: the
/// wire form's entry count is the number of entries.
pub proof fn lemma_wire_count_exact(n: nat)
    requires
        n < 0x8000_0000,
    ensures
        wire_count(n) == n,
{
}

/// An integer field carries the integer itself in its first word and 0 in
/// its second, under the tag `'I'` (73).
pub proof fn lemma_u32_field_encoding(x: u32)
    ensures
        x.field_words().len() == 2,
        x.field_words()[0] == x as u64,
        x.field_words()[1] == 0,
        x.field_kind() == 73,
{
}

} // verus!
