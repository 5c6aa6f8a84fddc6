//! Typed persistence layer for checklists and their items.
//!
//! The library holds the domain model (typed identifiers, checklists, items,
//! the error taxonomy) and every decision that the store operations make. The
//! store itself is asynchronous and lives outside: a driver performs the store
//! call that a function here names, and hands the store's answer back to the
//! function that settles it.
pub mod checklist;
pub mod command;
pub mod error;
pub mod id;
pub mod item;
pub mod marc;
pub mod schema;

pub use checklist::{decode_item_ids, Checklist};
pub use command::{
    default_encryption_key, ItemVerb, ItemVerbAction, ListVerb, ListVerbAction, NewChecklist,
    NewItem, Noun, RemoveChecklist, RemoveItem, ShowAllChecklists, ShowAllItems, ToggleItem,
};
pub use error::{Error, Operation, StoreFault, Table};
pub use id::{ChecklistId, ItemId, RecordRef};
pub use item::{Item, ItemView};
pub use marc::marc;
pub use schema::{
    schema_after, schema_start, schema_statements, SchemaStep, DATABASE, NAMESPACE, SCHEMA_LEN,
};
