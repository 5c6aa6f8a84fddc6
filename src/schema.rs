use vstd::prelude::*;

use crate::error::{Error, Operation, StoreFault};

verus! {

/// The namespace that the store handle selects.
pub const NAMESPACE: &'static str = "wire";

/// The database that the store handle selects.
pub const DATABASE: &'static str = "checklist";

/// Number of statements in the schema definition.
pub const SCHEMA_LEN: usize = 7;

/// The schema definition, one independent statement after another. Each
/// statement defines only what is not yet defined, so that opening an
/// existing store applies it again without harm.
pub open spec fn schema_spec() -> Seq<Seq<char>> {
    seq![
        "DEFINE TABLE IF NOT EXISTS checklist SCHEMAFULL;"@,
        "DEFINE FIELD IF NOT EXISTS name ON TABLE checklist TYPE string;"@,
        "DEFINE FIELD IF NOT EXISTS items ON TABLE checklist TYPE array<record<item>>;"@,
        "DEFINE TABLE IF NOT EXISTS item SCHEMAFULL;"@,
        "DEFINE FIELD IF NOT EXISTS checklist ON TABLE item TYPE record<checklist> REFERENCE;"@,
        "DEFINE FIELD IF NOT EXISTS item ON TABLE item TYPE string;"@,
        "DEFINE FIELD IF NOT EXISTS checked ON TABLE item TYPE bool;"@,
    ]
}

/// The schema statements, in the order in which they are executed.
pub fn schema_statements() -> (r: Vec<&'static str>)
    ensures
        r@.len() == SCHEMA_LEN,
        r@.len() == schema_spec().len(),
        forall|i: int| 0 <= i < r@.len() ==> #[trigger] r@[i]@ == schema_spec()[i],
{
    let r = vec![
        "DEFINE TABLE IF NOT EXISTS checklist SCHEMAFULL;",
        "DEFINE FIELD IF NOT EXISTS name ON TABLE checklist TYPE string;",
        "DEFINE FIELD IF NOT EXISTS items ON TABLE checklist TYPE array<record<item>>;",
        "DEFINE TABLE IF NOT EXISTS item SCHEMAFULL;",
        "DEFINE FIELD IF NOT EXISTS checklist ON TABLE item TYPE record<checklist> REFERENCE;",
        "DEFINE FIELD IF NOT EXISTS item ON TABLE item TYPE string;",
        "DEFINE FIELD IF NOT EXISTS checked ON TABLE item TYPE bool;",
    ];
    assert(r@.len() == schema_spec().len());
    r
}

/// What applying the schema does next.
#[derive(Debug)]
pub enum SchemaStep {
    /// Execute the statement at this index.
    Execute(usize),
    /// Every statement was executed: the store is ready.
    Ready,
    /// A statement failed; opening the store fails with this error.
    Failed(Error),
}

/// The first step of applying the schema.
pub fn schema_start() -> (r: SchemaStep)
    ensures
        r == SchemaStep::Execute(0),
{
    SchemaStep::Execute(0)
}

/// The step after the statement at `index` was executed with `outcome`:
/// the next statement in order, readiness after the last, or failure as soon
/// as one statement fails.
pub fn schema_after(index: usize, outcome: Result<(), StoreFault>) -> (r: SchemaStep)
    requires
        index < SCHEMA_LEN,
    ensures
        outcome is Err ==> r == SchemaStep::Failed(
            Error::Surreal { context: Operation::ExecutingSchema, inner: outcome->Err_0 },
        ),
        outcome is Ok && index + 1 < SCHEMA_LEN ==> r == SchemaStep::Execute((index + 1) as usize),
        outcome is Ok && index + 1 == SCHEMA_LEN ==> r == SchemaStep::Ready,
{
    match outcome {
        Err(inner) => SchemaStep::Failed(Error::Surreal { context: Operation::ExecutingSchema, inner }),
        Ok(()) => {
            if index + 1 < SCHEMA_LEN {
                SchemaStep::Execute(index + 1)
            } else {
                SchemaStep::Ready
            }
        },
    }
}

} // verus!
