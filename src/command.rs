use vstd::prelude::*;

use crate::id::{ChecklistId, ItemId};

verus! {

/// The entity that a command manages.
#[derive(Debug)]
pub enum Noun {
    /// Manage lists
    List(ListVerbAction),
    /// Manage items
    Item(ItemVerbAction),
}

#[derive(Debug)]
pub struct ListVerbAction {
    pub verb: ListVerb,
}

#[derive(Debug)]
pub enum ListVerb {
    /// Show all checklists
    ShowAll(ShowAllChecklists),
    /// Create a new checklist
    New(NewChecklist),
    /// Delete a checklist
    Remove(RemoveChecklist),
}

#[derive(Debug)]
pub struct ShowAllChecklists {}

#[derive(Debug)]
pub struct NewChecklist {
    /// Name of this checklist
    pub name: String,
}

#[derive(Debug)]
pub struct RemoveChecklist {
    /// Id of the checklist to remove
    pub id: ChecklistId,
}

#[derive(Debug)]
pub struct ItemVerbAction {
    pub verb: ItemVerb,
}

#[derive(Debug)]
pub enum ItemVerb {
    /// Show all items in a checklist
    ShowAll(ShowAllItems),
    /// Create a new item in a checklist
    New(NewItem),
    /// Delete an item in a checklist
    Remove(RemoveItem),
    /// Toggle completion status of an item in a checklist
    Toggle(ToggleItem),
}

#[derive(Debug)]
pub struct ShowAllItems {
    /// Checklist Id for items to show
    pub checklist_id: ChecklistId,
    /// When set, omit the item header
    pub omit_header: bool,
}

#[derive(Debug)]
pub struct NewItem {
    /// Checklist Id in which to put this item
    pub checklist_id: ChecklistId,
    /// Name of this item
    pub name: String,
}

#[derive(Debug)]
pub struct RemoveItem {
    /// Id of the item to remove
    pub id: ItemId,
}

#[derive(Debug)]
pub struct ToggleItem {
    /// Id of the item to toggle
    pub id: ItemId,
}

/// The encryption key used when none is given: the bytes of the user name,
/// `@`, then the bytes of the host name.
pub fn default_encryption_key(user: &[u8], name: &[u8]) -> (r: Vec<u8>)
    requires
        user@.len() + name@.len() + 1 <= usize::MAX,
    ensures
        r@ == user@ + seq![64u8] + name@,
{
    let mut out: Vec<u8> = Vec::new();
    let mut i: usize = 0;
    while i < user.len()
        invariant
            i <= user@.len(),
            out@ == user@.subrange(0, i as int),
        decreases user@.len() - i,
    {
        out.push(user[i]);
        i += 1;
    }
    out.push(64u8);
    let mut j: usize = 0;
    while j < name.len()
        invariant
            j <= name@.len(),
            out@ == user@ + seq![64u8] + name@.subrange(0, j as int),
        decreases name@.len() - j,
    {
        out.push(name[j]);
        j += 1;
    }
    assert(name@.subrange(0, name@.len() as int) == name@);
    assert(user@.subrange(0, user@.len() as int) == user@);
    out
}

} // verus!
