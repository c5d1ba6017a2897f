//! The persisted item entity and the request payloads that create and
//! update it.

use vstd::prelude::*;

verus! {

/// A persisted item. The identifier is server-generated and immutable; the
/// name of a persisted item is never empty; `updated_at` never precedes
/// `created_at`. Timestamps are server-managed logical instants.
#[derive(Debug)]
pub struct Item {
    pub id: u128,
    pub name: String,
    pub description: Option<String>,
    pub created_at: u64,
    pub updated_at: u64,
}

/// The mathematical value of an [`Item`]: the same fields with text as
/// character sequences.
#[verifier::ext_equal]
pub ghost struct ItemModel {
    pub id: u128,
    pub name: Seq<char>,
    pub description: Option<Seq<char>>,
    pub created_at: u64,
    pub updated_at: u64,
}

/// The value of an optional text field.
pub open spec fn opt_text(o: Option<String>) -> Option<Seq<char>> {
    match o {
        Option::Some(s) => Option::Some(s@),
        Option::None => Option::None,
    }
}

impl View for Item {
    type V = ItemModel;

    open spec fn view(&self) -> ItemModel {
        ItemModel {
            id: self.id,
            name: self.name@,
            description: opt_text(self.description),
            created_at: self.created_at,
            updated_at: self.updated_at,
        }
    }
}

impl Item {
    /// An exact copy of the item, field by field.
    pub fn duplicate(&self) -> (r: Item)
        ensures
            r@ == self@,
    {
        Item {
            id: self.id,
            name: self.name.clone(),
            description: duplicate_opt_text(&self.description),
            created_at: self.created_at,
            updated_at: self.updated_at,
        }
    }
}

/// An exact copy of an optional text field.
pub fn duplicate_opt_text(o: &Option<String>) -> (r: Option<String>)
    ensures
        opt_text(r) == opt_text(*o),
{
    match o {
        Option::Some(s) => Option::Some(s.clone()),
        Option::None => Option::None,
    }
}

/// The payload of a creation request: a required name and an optional
/// description. A name that is empty is rejected by the service.
#[derive(Debug)]
pub struct CreateItemPayload {
    pub name: String,
    pub description: Option<String>,
}

/// The payload of an update request. A field left unset leaves the stored
/// field unchanged; a field that is set overwrites it.
#[derive(Debug)]
pub struct UpdateItemPayload {
    pub name: Option<String>,
    pub description: Option<String>,
}

} // verus!
