use vstd::prelude::*;

use crate::error::{Error, Table};

verus! {

/// A generic store record key: the table it belongs to and its key within it.
#[derive(Debug, PartialEq, Eq)]
pub struct RecordRef {
    pub table: String,
    pub key: String,
}

impl RecordRef {
    pub fn from_table_key(table: Table, key: String) -> (r: RecordRef)
        ensures
            r.table@ == table.spec_name(),
            r.key@ == key@,
    {
        RecordRef { table: table.name().to_owned(), key }
    }
}

/// Whether a record key of table `table` decodes as an identifier of `expected`.
pub open spec fn decodes_as(table: Seq<char>, expected: Table) -> bool {
    table == expected.spec_name()
}

/// The text that carries an identifier with key `key` across a boundary.
pub open spec fn id_text(key: Seq<char>) -> Seq<char> {
    key
}

/// The key of the identifier that text `text` parses to.
pub open spec fn key_of_text(text: Seq<char>) -> Seq<char> {
    text
}

/// Text produced from an identifier parses back to that identifier.
pub proof fn lemma_id_round_trip(key: Seq<char>)
    ensures
        key_of_text(id_text(key)) == key,
{
}

/// A record key of the item table never decodes as a checklist identifier,
/// nor one of the checklist table as an item identifier.
pub proof fn lemma_table_validation(table: Seq<char>)
    ensures
        decodes_as(table, Table::Item) ==> !decodes_as(table, Table::Checklist),
        decodes_as(table, Table::Checklist) ==> !decodes_as(table, Table::Item),
{
    reveal_strlit("item");
    reveal_strlit("checklist");
    assert(Table::Item.spec_name().len() != Table::Checklist.spec_name().len());
}

/// Decodes a record key as an identifier of table `expected`.
fn key_from_record(value: RecordRef, expected: Table) -> (r: Result<String, Error>)
    ensures
        decodes_as(value.table@, expected) ==> r == Ok::<String, Error>(value.key),
        !decodes_as(value.table@, expected) ==> r == Err::<String, Error>(
            Error::WrongRecordId { expected, got: value.table },
        ),
{
    let name = expected.name().to_owned();
    if value.table == name {
        Ok(value.key)
    } else {
        Err(Error::WrongRecordId { expected, got: value.table })
    }
}

/// Identifier of a checklist record.
#[derive(Debug, Hash, PartialOrd, Ord)]
pub struct ChecklistId(String);

impl View for ChecklistId {
    type V = Seq<char>;

    closed spec fn view(&self) -> Seq<char> {
        self.0@
    }
}

impl ChecklistId {
    pub fn new(key: String) -> (r: ChecklistId)
        ensures
            r@ == key@,
    {
        ChecklistId(key)
    }

    /// The key within the checklist table.
    pub fn key(&self) -> (r: &String)
        ensures
            r@ == self@,
    {
        &self.0
    }

    /// Wraps text as a key; no table is checked here.
    pub fn from_str(s: &str) -> (r: ChecklistId)
        ensures
            r@ == key_of_text(s@),
    {
        ChecklistId(s.to_owned())
    }

    /// The text form, which `from_str` parses back.
    pub fn to_string(&self) -> (r: String)
        ensures
            r@ == id_text(self@),
    {
        self.0.clone()
    }

    /// The record key that this identifier stands for.
    pub fn to_record(self) -> (r: RecordRef)
        ensures
            r.table@ == Table::Checklist.spec_name(),
            r.key@ == self@,
    {
        RecordRef::from_table_key(Table::Checklist, self.0)
    }

    /// Decodes a record key, which must belong to the checklist table.
    pub fn try_from_record(value: RecordRef) -> (r: Result<ChecklistId, Error>)
        ensures
            r is Ok <==> decodes_as(value.table@, Table::Checklist),
            r is Ok ==> r->Ok_0@ == value.key@,
            r is Err ==> r->Err_0 == (Error::WrongRecordId {
                expected: Table::Checklist,
                got: value.table,
            }),
    {
        match key_from_record(value, Table::Checklist) {
            Ok(key) => Ok(ChecklistId(key)),
            Err(e) => Err(e),
        }
    }
}

impl PartialEq for ChecklistId {
    fn eq(&self, other: &ChecklistId) -> (r: bool) {
        self.0 == other.0
    }
}

impl vstd::std_specs::cmp::PartialEqSpecImpl for ChecklistId {
    open spec fn obeys_eq_spec() -> bool {
        true
    }

    open spec fn eq_spec(&self, other: &ChecklistId) -> bool {
        self@ == other@
    }
}

impl Eq for ChecklistId {
}

impl Clone for ChecklistId {
    fn clone(&self) -> (r: ChecklistId)
        ensures
            r == *self,
    {
        ChecklistId(self.0.clone())
    }
}


/// Identifier of an item record.
#[derive(Debug, Hash, PartialOrd, Ord)]
pub struct ItemId(String);

impl View for ItemId {
    type V = Seq<char>;

    closed spec fn view(&self) -> Seq<char> {
        self.0@
    }
}

impl ItemId {
    pub fn new(key: String) -> (r: ItemId)
        ensures
            r@ == key@,
    {
        ItemId(key)
    }

    /// The key within the item table.
    pub fn key(&self) -> (r: &String)
        ensures
            r@ == self@,
    {
        &self.0
    }

    /// Wraps text as a key; no table is checked here.
    pub fn from_str(s: &str) -> (r: ItemId)
        ensures
            r@ == key_of_text(s@),
    {
        ItemId(s.to_owned())
    }

    /// The text form, which `from_str` parses back.
    pub fn to_string(&self) -> (r: String)
        ensures
            r@ == id_text(self@),
    {
        self.0.clone()
    }

    /// The record key that this identifier stands for.
    pub fn to_record(self) -> (r: RecordRef)
        ensures
            r.table@ == Table::Item.spec_name(),
            r.key@ == self@,
    {
        RecordRef::from_table_key(Table::Item, self.0)
    }

    /// Decodes a record key, which must belong to the item table.
    pub fn try_from_record(value: RecordRef) -> (r: Result<ItemId, Error>)
        ensures
            r is Ok <==> decodes_as(value.table@, Table::Item),
            r is Ok ==> r->Ok_0@ == value.key@,
            r is Err ==> r->Err_0 == (Error::WrongRecordId {
                expected: Table::Item,
                got: value.table,
            }),
    {
        match key_from_record(value, Table::Item) {
            Ok(key) => Ok(ItemId(key)),
            Err(e) => Err(e),
        }
    }
}

impl PartialEq for ItemId {
    fn eq(&self, other: &ItemId) -> (r: bool) {
        self.0 == other.0
    }
}

impl vstd::std_specs::cmp::PartialEqSpecImpl for ItemId {
    open spec fn obeys_eq_spec() -> bool {
        true
    }

    open spec fn eq_spec(&self, other: &ItemId) -> bool {
        self@ == other@
    }
}

impl Eq for ItemId {
}

impl Clone for ItemId {
    fn clone(&self) -> (r: ItemId)
        ensures
            r == *self,
    {
        ItemId(self.0.clone())
    }
}

} // verus!
