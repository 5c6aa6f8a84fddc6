use vstd::prelude::*;

verus! {

/// The two tables of the schema.
#[derive(Clone, Copy, Debug, PartialEq, Eq, Structural)]
pub enum Table {
    Checklist,
    Item,
}

impl Table {
    /// The table's name in the store.
    pub open spec fn spec_name(self) -> Seq<char> {
        match self {
            Table::Checklist => "checklist"@,
            Table::Item => "item"@,
        }
    }

    pub fn name(&self) -> (r: &'static str)
        ensures
            r@ == self.spec_name(),
    {
        match self {
            Table::Checklist => "checklist",
            Table::Item => "item",
        }
    }
}

/// The store interaction during which the store engine reported a failure.
#[derive(Clone, Copy, Debug, PartialEq, Eq, Structural)]
pub enum Operation {
    ConnectingToDatabase,
    SelectingDatabase,
    ExecutingSchema,
    CreatingChecklist,
    LoadingChecklist,
    LoadingAllChecklists,
    DeletingChecklist,
    CreatingItem,
    LoadingItem,
    DeletingItem,
    UpdatingCheckedItem,
}

impl Operation {
    pub open spec fn spec_label(self) -> Seq<char> {
        match self {
            Operation::ConnectingToDatabase => "connecting to database"@,
            Operation::SelectingDatabase => "selecting database"@,
            Operation::ExecutingSchema => "executing schema"@,
            Operation::CreatingChecklist => "creating checklist"@,
            Operation::LoadingChecklist => "loading checklist"@,
            Operation::LoadingAllChecklists => "loading all checklists"@,
            Operation::DeletingChecklist => "deleting checklist"@,
            Operation::CreatingItem => "creating item"@,
            Operation::LoadingItem => "loading item"@,
            Operation::DeletingItem => "deleting item"@,
            Operation::UpdatingCheckedItem => "updating checked item"@,
        }
    }

    /// The short static context that labels a store failure.
    pub fn label(&self) -> (r: &'static str)
        ensures
            r@ == self.spec_label(),
    {
        match self {
            Operation::ConnectingToDatabase => "connecting to database",
            Operation::SelectingDatabase => "selecting database",
            Operation::ExecutingSchema => "executing schema",
            Operation::CreatingChecklist => "creating checklist",
            Operation::LoadingChecklist => "loading checklist",
            Operation::LoadingAllChecklists => "loading all checklists",
            Operation::DeletingChecklist => "deleting checklist",
            Operation::CreatingItem => "creating item",
            Operation::LoadingItem => "loading item",
            Operation::DeletingItem => "deleting item",
            Operation::UpdatingCheckedItem => "updating checked item",
        }
    }
}

/// A failure reported by the store engine, as its message.
#[derive(Debug, PartialEq, Eq)]
pub struct StoreFault {
    pub message: String,
}

/// Every way an operation of this library can fail.
#[derive(Debug, PartialEq, Eq)]
pub enum Error {
    /// The store engine failed while performing `context`.
    Surreal { context: Operation, inner: StoreFault },
    /// A referenced item is not present in the store; it may have been deleted.
    MissingItem,
    /// A record key of table `got` was decoded where one of `expected` was required.
    WrongRecordId { expected: Table, got: String },
    /// Creating a record did not return an instance of it.
    FailedCreate { resource: Table },
    /// Updating a record did not return an instance of it.
    FailedUpdate { resource: Table },
    /// A value that should be persisted had an unset id.
    MissingId { resource: Table },
}

impl Error {
    /// Wraps a store failure with the context it occurred in.
    pub fn surreal(context: Operation, inner: StoreFault) -> (r: Error)
        ensures
            r == (Error::Surreal { context, inner }),
    {
        Error::Surreal { context, inner }
    }

    /// Settles the answer of a store call: a failure is labelled with `context`.
    pub fn settle<T>(answer: Result<T, StoreFault>, context: Operation) -> (r: Result<T, Error>)
        ensures
            r == settled(answer, context),
    {
        match answer {
            Ok(v) => Ok(v),
            Err(inner) => Err(Error::Surreal { context, inner }),
        }
    }

    /// Settles the answer of a store call that must return the record it wrote:
    /// a failure is labelled with `context`, and no record gives `missing`.
    pub fn expect_record<T>(answer: Result<Option<T>, StoreFault>, context: Operation, missing: Error) -> (r: Result<T, Error>)
        ensures
            r == expected_record(answer, context, missing),
    {
        match answer {
            Ok(Some(v)) => Ok(v),
            Ok(None) => Err(missing),
            Err(inner) => Err(Error::Surreal { context, inner }),
        }
    }
}

/// The result of a store call that must return the record it wrote.
pub open spec fn expected_record<T>(answer: Result<Option<T>, StoreFault>, context: Operation, missing: Error) -> Result<T, Error> {
    match answer {
        Ok(Some(v)) => Ok(v),
        Ok(None) => Err(missing),
        Err(inner) => Err(Error::Surreal { context, inner }),
    }
}

/// The result of a store call once a failure is labelled with `context`.
pub open spec fn settled<T>(answer: Result<T, StoreFault>, context: Operation) -> Result<T, Error> {
    match answer {
        Ok(v) => Ok(v),
        Err(inner) => Err(Error::Surreal { context, inner }),
    }
}

} // verus!
