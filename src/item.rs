use vstd::prelude::*;

use crate::error::{expected_record, settled, Error, Operation, StoreFault, Table};
use crate::id::{decodes_as, ChecklistId, ItemId, RecordRef};

verus! {

/// A checklist entry: its text, whether it is checked, and its checklist.
#[derive(Debug)]
pub struct Item {
    pub id: Option<ItemId>,
    pub checklist: ChecklistId,
    pub item: String,
    checked: bool,
}

/// What an item holds, with identifiers as their keys.
pub struct ItemView {
    pub id: Option<Seq<char>>,
    pub checklist: Seq<char>,
    pub item: Seq<char>,
    pub checked: bool,
}

pub open spec fn key_view(id: Option<ItemId>) -> Option<Seq<char>> {
    match id {
        Some(i) => Some(i@),
        None => None,
    }
}

impl View for Item {
    type V = ItemView;

    closed spec fn view(&self) -> ItemView {
        ItemView {
            id: key_view(self.id),
            checklist: self.checklist@,
            item: self.item@,
            checked: self.checked,
        }
    }
}

/// The checked state read back from a fresh load: an item that is gone
/// counts as unchecked.
pub open spec fn checked_state(loaded: Result<Option<Item>, Error>) -> Result<bool, Error> {
    match loaded {
        Ok(Some(item)) => Ok(item@.checked),
        Ok(None) => Ok(false),
        Err(e) => Err(e),
    }
}

impl Item {
    /// The content inserted by `create`: no id yet, unchecked.
    pub fn draft(checklist: ChecklistId, item: String) -> (r: Item)
        ensures
            r@ == (ItemView { id: None, checklist: checklist@, item: item@, checked: false }),
    {
        Item { id: None, checklist, item, checked: false }
    }

    /// An item as the store holds it.
    pub fn stored(id: Option<ItemId>, checklist: ChecklistId, item: String, checked: bool) -> (r: Item)
        ensures
            r@ == (ItemView { id: key_view(id), checklist: checklist@, item: item@, checked }),
    {
        Item { id, checklist, item, checked }
    }

    /// Decodes an item as the store holds it: its own key must belong to the
    /// item table and its checklist reference to the checklist table, checked
    /// in that order.
    pub fn from_record(id: Option<RecordRef>, checklist: RecordRef, item: String, checked: bool) -> (r: Result<Item, Error>)
        ensures
            r is Ok <==> (id is Some ==> decodes_as(id->Some_0.table@, Table::Item)) && decodes_as(
                checklist.table@,
                Table::Checklist,
            ),
            r is Ok ==> r->Ok_0@ == (ItemView {
                id: match id {
                    Some(v) => Some(v.key@),
                    None => None,
                },
                checklist: checklist.key@,
                item: item@,
                checked,
            }),
            r is Err && id is Some && !decodes_as(id->Some_0.table@, Table::Item) ==> r->Err_0 == (
            Error::WrongRecordId { expected: Table::Item, got: id->Some_0.table }),
            r is Err && (id is Some ==> decodes_as(id->Some_0.table@, Table::Item)) ==> r->Err_0 == (
            Error::WrongRecordId { expected: Table::Checklist, got: checklist.table }),
    {
        let id = match id {
            Some(value) => match ItemId::try_from_record(value) {
                Ok(id) => Some(id),
                Err(e) => {
                    return Err(e);
                },
            },
            None => None,
        };
        match ChecklistId::try_from_record(checklist) {
            Ok(checklist) => Ok(Item { id, checklist, item, checked }),
            Err(e) => Err(e),
        }
    }

    /// The checked flag of this value, which may be stale against the store.
    pub fn checked(&self) -> (r: bool)
        ensures
            r == self@.checked,
    {
        self.checked
    }

    /// Settles the answer of the store's create call.
    pub fn created(answer: Result<Option<Item>, StoreFault>) -> (r: Result<Item, Error>)
        ensures
            r == expected_record(answer, Operation::CreatingItem, Error::FailedCreate { resource: Table::Item }),
    {
        Error::expect_record(answer, Operation::CreatingItem, Error::FailedCreate { resource: Table::Item })
    }

    /// Settles the answer of the store's select call for one item.
    pub fn loaded(answer: Result<Option<Item>, StoreFault>) -> (r: Result<Option<Item>, Error>)
        ensures
            r == settled(answer, Operation::LoadingItem),
    {
        Error::settle(answer, Operation::LoadingItem)
    }

    /// Settles the answer of the store's delete call; what was deleted is dropped.
    pub fn deleted(answer: Result<Option<Item>, StoreFault>) -> (r: Result<(), Error>)
        ensures
            answer is Ok ==> r is Ok,
            answer is Err ==> r == Err::<(), Error>(
                Error::Surreal { context: Operation::DeletingItem, inner: answer->Err_0 },
            ),
    {
        match answer {
            Ok(_) => Ok(()),
            Err(inner) => Err(Error::Surreal { context: Operation::DeletingItem, inner }),
        }
    }

    /// The identifier of a persisted item; a transient value has none.
    pub fn persisted_id(&self) -> (r: Result<ItemId, Error>)
        ensures
            self@.id is None ==> r == Err::<ItemId, Error>(Error::MissingId { resource: Table::Item }),
            self@.id is Some ==> r is Ok && r->Ok_0@ == self@.id->Some_0,
    {
        match &self.id {
            Some(id) => Ok(id.clone()),
            None => Err(Error::MissingId { resource: Table::Item }),
        }
    }

    /// The current checked state from a fresh load of this item.
    pub fn checked_in(loaded: Result<Option<Item>, Error>) -> (r: Result<bool, Error>)
        ensures
            r == checked_state(loaded),
    {
        match loaded {
            Ok(Some(item)) => Ok(item.checked),
            Ok(None) => Ok(false),
            Err(e) => Err(e),
        }
    }

    /// Sets the checked flag of a persisted item and gives the record key
    /// under which the whole value is written back. A transient value is left
    /// as it is.
    pub fn mark_checked(&mut self, checked: bool) -> (r: Result<RecordRef, Error>)
        ensures
            old(self)@.id is None ==> r == Err::<RecordRef, Error>(Error::MissingId { resource: Table::Item })
                && *final(self) == *old(self),
            old(self)@.id is Some ==> r is Ok
                && r->Ok_0.table@ == Table::Item.spec_name()
                && r->Ok_0.key@ == old(self)@.id->Some_0
                && final(self)@ == (ItemView { checked, ..old(self)@ }),
    {
        let id = match self.persisted_id() {
            Ok(id) => id,
            Err(e) => {
                return Err(e);
            },
        };
        self.checked = checked;
        Ok(id.to_record())
    }

    /// Settles the answer of the store's update call.
    pub fn updated(answer: Result<Option<Item>, StoreFault>) -> (r: Result<(), Error>)
        ensures
            answer matches Ok(Some(_)) ==> r is Ok,
            answer matches Ok(None) ==> r == Err::<(), Error>(Error::FailedUpdate { resource: Table::Item }),
            answer is Err ==> r == Err::<(), Error>(
                Error::Surreal { context: Operation::UpdatingCheckedItem, inner: answer->Err_0 },
            ),
    {
        match answer {
            Ok(Some(_)) => Ok(()),
            Ok(None) => Err(Error::FailedUpdate { resource: Table::Item }),
            Err(inner) => Err(Error::Surreal { context: Operation::UpdatingCheckedItem, inner }),
        }
    }
}

/// Once the checked flag of an item is set, the value written back reports
/// that state when it is loaded again.
pub proof fn lemma_checked_round_trip(before: Item, after: Item, checked: bool)
    requires
        before@.id is Some,
        after@ == (ItemView { checked, ..before@ }),
    ensures
        checked_state(Ok(Some(after))) == Ok::<bool, Error>(checked),
{
}

/// An item that no longer exists reads as unchecked rather than failing.
pub proof fn lemma_deleted_reads_unchecked()
    ensures
        checked_state(Ok(None)) == Ok::<bool, Error>(false),
{
}

} // verus!
