use vstd::prelude::*;

use crate::error::{expected_record, settled, Error, Operation, StoreFault, Table};
use crate::id::{decodes_as, ChecklistId, ItemId, RecordRef};
use crate::item::Item;

verus! {

/// A named checklist with the ordered identifiers of its items.
#[derive(Debug)]
pub struct Checklist {
    pub id: Option<ChecklistId>,
    pub name: String,
    pub items: Vec<ItemId>,
}

/// Whether the load of a referenced item found it.
pub open spec fn found(load: Result<Option<Item>, Error>) -> bool {
    load matches Ok(Some(_))
}

/// Whether every referenced item was found.
pub open spec fn all_found(loads: Seq<Result<Option<Item>, Error>>) -> bool {
    forall|k: int| 0 <= k < loads.len() ==> #[trigger] found(loads[k])
}

/// The error that a failed load of a referenced item makes of the whole.
pub open spec fn failure_of(load: Result<Option<Item>, Error>) -> Error {
    match load {
        Err(e) => e,
        _ => Error::MissingItem,
    }
}

/// The item identifiers of a fresh load of a checklist, which must exist.
pub open spec fn fresh_item_ids(fresh: Result<Option<Checklist>, Error>) -> Result<Seq<ItemId>, Error> {
    match fresh {
        Ok(Some(c)) => Ok(c.items@),
        Ok(None) => Err(Error::MissingItem),
        Err(e) => Err(e),
    }
}

/// Whether every record key of `refs` belongs to the item table.
pub open spec fn all_items(refs: Seq<RecordRef>) -> bool {
    forall|k: int| 0 <= k < refs.len() ==> decodes_as(#[trigger] refs[k].table@, Table::Item)
}

/// Decodes the item references of a stored checklist, in order. The first
/// reference of another table makes the whole fail.
pub fn decode_item_ids(refs: Vec<RecordRef>) -> (r: Result<Vec<ItemId>, Error>)
    ensures
        r is Ok <==> all_items(refs@),
        r is Ok ==> r->Ok_0@.len() == refs@.len() && forall|k: int|
            0 <= k < refs@.len() ==> (#[trigger] r->Ok_0@[k])@ == refs@[k].key@,
        r is Err ==> exists|j: int|
            0 <= j < refs@.len() && !decodes_as(#[trigger] refs@[j].table@, Table::Item) && (forall|
                k: int,
            | 0 <= k < j ==> decodes_as(refs@[k].table@, Table::Item)) && r->Err_0 == (
            Error::WrongRecordId { expected: Table::Item, got: refs@[j].table }),
{
    let ghost orig = refs@;
    let mut rest = refs;
    let n = rest.len();
    let mut out: Vec<ItemId> = Vec::new();
    let mut i: usize = 0;
    while i < n
        invariant
            orig == refs@,
            n == orig.len(),
            i <= n,
            rest@ == orig.subrange(i as int, n as int),
            out@.len() == i,
            forall|k: int| 0 <= k < i ==> decodes_as(orig[k].table@, Table::Item),
            forall|k: int| 0 <= k < i ==> (#[trigger] out@[k])@ == orig[k].key@,
        decreases n - i,
    {
        let value = rest.remove(0);
        assert(value == orig[i as int]);
        match ItemId::try_from_record(value) {
            Ok(id) => {
                out.push(id);
            },
            Err(e) => {
                return Err(e);
            },
        }
        i += 1;
    }
    Ok(out)
}

impl Checklist {
    /// Decodes a checklist as the store holds it: its own key must belong to
    /// the checklist table and every item reference to the item table.
    pub fn from_record(id: Option<RecordRef>, name: String, items: Vec<RecordRef>) -> (r: Result<Checklist, Error>)
        ensures
            r is Ok <==> (id is Some ==> decodes_as(id->Some_0.table@, Table::Checklist)) && all_items(items@),
            r is Ok ==> {
                let c = r->Ok_0;
                &&& c.id is Some <==> id is Some
                &&& c.id is Some ==> c.id->Some_0@ == id->Some_0.key@
                &&& c.name == name
                &&& c.items@.len() == items@.len()
                &&& forall|k: int| 0 <= k < items@.len() ==> (#[trigger] c.items@[k])@ == items@[k].key@
            },
            r is Err && id is Some && !decodes_as(id->Some_0.table@, Table::Checklist) ==> r->Err_0 == (
            Error::WrongRecordId { expected: Table::Checklist, got: id->Some_0.table }),
            r is Err && (id is Some ==> decodes_as(id->Some_0.table@, Table::Checklist)) ==> exists|j: int|
                0 <= j < items@.len() && !decodes_as(#[trigger] items@[j].table@, Table::Item) && (forall|
                    k: int,
                | 0 <= k < j ==> decodes_as(items@[k].table@, Table::Item)) && r->Err_0 == (
                Error::WrongRecordId { expected: Table::Item, got: items@[j].table }),
    {
        let id = match id {
            Some(value) => match ChecklistId::try_from_record(value) {
                Ok(id) => Some(id),
                Err(e) => {
                    return Err(e);
                },
            },
            None => None,
        };
        match decode_item_ids(items) {
            Ok(items) => Ok(Checklist { id, name, items }),
            Err(e) => Err(e),
        }
    }

    /// The content inserted by `create`: no id yet, no items.
    pub fn draft(name: String) -> (r: Checklist)
        ensures
            r.id is None,
            r.name == name,
            r.items@.len() == 0,
    {
        Checklist { id: None, name, items: Vec::new() }
    }

    /// Settles the answer of the store's create call.
    pub fn created(answer: Result<Option<Checklist>, StoreFault>) -> (r: Result<Checklist, Error>)
        ensures
            r == expected_record(answer, Operation::CreatingChecklist, Error::FailedCreate { resource: Table::Checklist }),
    {
        Error::expect_record(answer, Operation::CreatingChecklist, Error::FailedCreate { resource: Table::Checklist })
    }

    /// Settles the answer of the store's select call for one checklist.
    pub fn loaded(answer: Result<Option<Checklist>, StoreFault>) -> (r: Result<Option<Checklist>, Error>)
        ensures
            r == settled(answer, Operation::LoadingChecklist),
    {
        Error::settle(answer, Operation::LoadingChecklist)
    }

    /// Settles the answer of the store's select call for the whole table.
    pub fn listed(answer: Result<Vec<Checklist>, StoreFault>) -> (r: Result<Vec<Checklist>, Error>)
        ensures
            r == settled(answer, Operation::LoadingAllChecklists),
    {
        Error::settle(answer, Operation::LoadingAllChecklists)
    }

    /// Settles the answer of the store's delete call; what was deleted is dropped.
    pub fn deleted(answer: Result<Option<Checklist>, StoreFault>) -> (r: Result<(), Error>)
        ensures
            answer is Ok ==> r is Ok,
            answer is Err ==> r == Err::<(), Error>(
                Error::Surreal { context: Operation::DeletingChecklist, inner: answer->Err_0 },
            ),
    {
        match answer {
            Ok(_) => Ok(()),
            Err(inner) => Err(Error::Surreal { context: Operation::DeletingChecklist, inner }),
        }
    }

    /// The identifier of a persisted checklist; a transient value has none.
    pub fn persisted_id(&self) -> (r: Result<ChecklistId, Error>)
        ensures
            self.id is None ==> r == Err::<ChecklistId, Error>(
                Error::MissingId { resource: Table::Checklist },
            ),
            self.id is Some ==> r == Ok::<ChecklistId, Error>(self.id->Some_0),
    {
        match &self.id {
            Some(id) => Ok(id.clone()),
            None => Err(Error::MissingId { resource: Table::Checklist }),
        }
    }

    /// The item identifiers to resolve, from a fresh load of the checklist
    /// rather than from a value that may be stale.
    pub fn fresh_items(fresh: Result<Option<Checklist>, Error>) -> (r: Result<Vec<ItemId>, Error>)
        ensures
            r is Ok <==> fresh_item_ids(fresh) is Ok,
            r is Ok ==> r->Ok_0@ == fresh_item_ids(fresh)->Ok_0,
            r is Err ==> r->Err_0 == fresh_item_ids(fresh)->Err_0,
    {
        match fresh {
            Ok(Some(c)) => Ok(c.items),
            Ok(None) => Err(Error::MissingItem),
            Err(e) => Err(e),
        }
    }

    /// Resolves the loads of the referenced items, in the order of the
    /// references: every item must be there; there is no partial result. The
    /// error is that of the first load, in order, that failed or found nothing.
    pub fn gather_items(loads: Vec<Result<Option<Item>, Error>>) -> (r: Result<Vec<Item>, Error>)
        ensures
            r is Ok <==> all_found(loads@),
            r is Ok ==> r->Ok_0@.len() == loads@.len() && forall|k: int|
                0 <= k < loads@.len() ==> loads@[k] == Ok::<Option<Item>, Error>(
                    Some(#[trigger] r->Ok_0@[k]),
                ),
            r is Err ==> exists|j: int|
                0 <= j < loads@.len() && !found(#[trigger] loads@[j]) && (forall|k: int|
                    0 <= k < j ==> found(loads@[k])) && r->Err_0 == failure_of(loads@[j]),
    {
        let ghost orig = loads@;
        let mut rest = loads;
        let n = rest.len();
        let mut out: Vec<Item> = Vec::new();
        let mut i: usize = 0;
        while i < n
            invariant
                orig == loads@,
                n == orig.len(),
                i <= n,
                rest@ == orig.subrange(i as int, n as int),
                out@.len() == i,
                forall|k: int| 0 <= k < i ==> found(orig[k]),
                forall|k: int|
                    0 <= k < i ==> orig[k] == Ok::<Option<Item>, Error>(Some(#[trigger] out@[k])),
            decreases n - i,
        {
            let load = rest.remove(0);
            assert(load == orig[i as int]);
            match load {
                Ok(Some(item)) => {
                    out.push(item);
                },
                Ok(None) => {
                    assert(!found(orig[i as int]));
                    return Err(Error::MissingItem);
                },
                Err(e) => {
                    assert(!found(orig[i as int]));
                    return Err(e);
                },
            }
            i += 1;
        }
        assert(all_found(orig));
        Ok(out)
    }
}

/// A reference to an item that has no record makes the resolution fail: it
/// never yields a shorter list. Where every earlier reference resolved, the
/// failure is the missing-item error.
pub proof fn lemma_missing_item_fails(loads: Seq<Result<Option<Item>, Error>>, j: int)
    requires
        0 <= j < loads.len(),
        loads[j] == Ok::<Option<Item>, Error>(None),
    ensures
        !all_found(loads),
        failure_of(loads[j]) == Error::MissingItem,
{
    assert(!found(loads[j]));
}

} // verus!
