//! The verified item store: the persisted state of the service and the five
//! resource operations over it, each with its full request-handling
//! contract.

use vstd::pervasive::VecAdditionalExecFns;
use vstd::prelude::*;
use vstd::string::*;

use crate::errors::AppError;
use crate::item::{
    duplicate_opt_text, opt_text, CreateItemPayload, Item, ItemModel, UpdateItemPayload,
};

verus! {

/// The mathematical value of the store: the persisted items in creation
/// order, the last issued logical instant, and the next fresh identifier.
#[verifier::ext_equal]
pub ghost struct StoreModel {
    pub items: Seq<ItemModel>,
    pub clock: u64,
    pub next_id: u128,
}

/// Well-formedness of one persisted item relative to the store's clock and
/// identifier supply: the name is non-empty, the timestamps are ordered and
/// never ahead of the clock, and the identifier was issued in the past.
pub open spec fn item_wf(it: ItemModel, clock: u64, next_id: u128) -> bool {
    &&& it.name.len() > 0
    &&& it.created_at <= it.updated_at
    &&& it.updated_at <= clock
    &&& it.id < next_id
}

/// The store invariant: every item is well formed, identifiers are
/// pairwise distinct, and items stand in strictly ascending creation order.
pub open spec fn store_wf(m: StoreModel) -> bool {
    &&& forall|i: int|
        0 <= i < m.items.len() ==> item_wf(#[trigger] m.items[i], m.clock, m.next_id)
    &&& forall|i: int, j: int|
        0 <= i < j < m.items.len() ==> #[trigger] m.items[i].id != #[trigger] m.items[j].id
    &&& forall|i: int, j: int|
        0 <= i < j < m.items.len() ==> #[trigger] m.items[i].created_at
            < #[trigger] m.items[j].created_at
}

/// Whether some persisted item carries the identifier.
pub open spec fn has_item(m: StoreModel, id: u128) -> bool {
    exists|i: int| 0 <= i < m.items.len() && #[trigger] m.items[i].id == id
}

/// The position of the item carrying the identifier.
pub open spec fn index_of(m: StoreModel, id: u128) -> int {
    choose|i: int| 0 <= i < m.items.len() && #[trigger] m.items[i].id == id
}

/// The persisted item carrying the identifier.
pub open spec fn lookup(m: StoreModel, id: u128) -> ItemModel {
    m.items[index_of(m, id)]
}

/// The item that a successful creation persists: a fresh identifier, the
/// payload's fields, and both timestamps set to the creation instant.
pub open spec fn created_item(
    m: StoreModel,
    name: Seq<char>,
    description: Option<Seq<char>>,
) -> ItemModel {
    ItemModel {
        id: m.next_id,
        name: name,
        description: description,
        created_at: (m.clock + 1) as u64,
        updated_at: (m.clock + 1) as u64,
    }
}

/// The store after a successful creation: the new item appended, the clock
/// advanced to the creation instant, the identifier supply moved past the
/// issued identifier.
pub open spec fn create_model(
    m: StoreModel,
    name: Seq<char>,
    description: Option<Seq<char>>,
) -> StoreModel {
    StoreModel {
        items: m.items.push(created_item(m, name, description)),
        clock: (m.clock + 1) as u64,
        next_id: (m.next_id + 1) as u128,
    }
}

/// What listing returns: all items in descending creation order, most
/// recently created first.
pub open spec fn list_model(m: StoreModel) -> Seq<ItemModel> {
    m.items.reverse()
}

/// The coalescing merge of an update: a payload field that is set
/// overwrites the stored field, one left unset keeps it; the identifier and
/// the creation instant never change; `updated_at` moves to the instant of
/// the update.
pub open spec fn merged_item(
    it: ItemModel,
    name: Option<Seq<char>>,
    description: Option<Seq<char>>,
    now: u64,
) -> ItemModel {
    ItemModel {
        id: it.id,
        name: match name {
            Option::Some(n) => n,
            Option::None => it.name,
        },
        description: match description {
            Option::Some(d) => Option::Some(d),
            Option::None => it.description,
        },
        created_at: it.created_at,
        updated_at: now,
    }
}

/// The store after a successful update of the item carrying `id`.
pub open spec fn update_model(
    m: StoreModel,
    id: u128,
    name: Option<Seq<char>>,
    description: Option<Seq<char>>,
) -> StoreModel {
    StoreModel {
        items: m.items.update(
            index_of(m, id),
            merged_item(lookup(m, id), name, description, (m.clock + 1) as u64),
        ),
        clock: (m.clock + 1) as u64,
        next_id: m.next_id,
    }
}

/// The store after a successful deletion of the item carrying `id`.
pub open spec fn delete_model(m: StoreModel, id: u128) -> StoreModel {
    StoreModel { items: m.items.remove(index_of(m, id)), clock: m.clock, next_id: m.next_id }
}

/// In a well-formed store, identifiers are unique, so a position whose item
/// carries `id` is the position `index_of` picks.
pub proof fn lemma_index_of_unique(m: StoreModel, id: u128, i: int)
    requires
        store_wf(m),
        0 <= i < m.items.len(),
        m.items[i].id == id,
    ensures
        has_item(m, id),
        index_of(m, id) == i,
{
    assert(has_item(m, id));
    let j = index_of(m, id);
    if i < j {
        assert(m.items[i].id != m.items[j].id);
    } else if j < i {
        assert(m.items[j].id != m.items[i].id);
    }
}

/// The persisted state of the service and the five resource operations.
pub struct ItemStore {
    items: Vec<Item>,
    clock: u64,
    next_id: u128,
}

impl View for ItemStore {
    type V = StoreModel;

    closed spec fn view(&self) -> StoreModel {
        StoreModel {
            items: self.items@.map_values(|it: Item| it@),
            clock: self.clock,
            next_id: self.next_id,
        }
    }
}

impl ItemStore {
    /// An empty store.
    pub fn new() -> (s: Self)
        ensures
            store_wf(s@),
            s@.items.len() == 0,
            s@.clock == 0,
            s@.next_id == 0,
    {
        ItemStore { items: Vec::new(), clock: 0, next_id: 0 }
    }

    /// Creation. A payload whose name is empty is rejected with
    /// `InvalidInput` and writes nothing; otherwise exactly one new item is
    /// persisted, carrying a fresh identifier and equal creation and update
    /// instants, and is returned.
    pub fn create_item(&mut self, payload: &CreateItemPayload) -> (r: Result<Item, AppError>)
        requires
            store_wf(old(self)@),
            old(self)@.clock < u64::MAX,
            old(self)@.next_id < u128::MAX,
        ensures
            store_wf(final(self)@),
            payload.name@.len() == 0 ==> {
                &&& final(self)@ == old(self)@
                &&& r matches Err(e) && e matches AppError::InvalidInput(m) && m@
                    == "Item name cannot be empty"@
            },
            payload.name@.len() > 0 ==> {
                &&& final(self)@ == create_model(
                    old(self)@,
                    payload.name@,
                    opt_text(payload.description),
                )
                &&& r matches Ok(it) && it@ == created_item(
                    old(self)@,
                    payload.name@,
                    opt_text(payload.description),
                )
            },
    {
        if payload.name.as_str().is_empty() {
            return Err(AppError::InvalidInput(String::from_str("Item name cannot be empty")));
        }
        let now = self.clock + 1;
        let id = self.next_id;
        let item = Item {
            id,
            name: payload.name.clone(),
            description: duplicate_opt_text(&payload.description),
            created_at: now,
            updated_at: now,
        };
        let returned = item.duplicate();
        self.items.push(item);
        self.clock = now;
        self.next_id = id + 1;
        proof {
            let ghost m0 = old(self)@;
            assert(self@.items =~= m0.items.push(
                created_item(m0, payload.name@, opt_text(payload.description)),
            ));
            assert(self@ =~= create_model(m0, payload.name@, opt_text(payload.description)));
            assert forall|i: int|
                0 <= i < self@.items.len() implies item_wf(
                #[trigger] self@.items[i],
                self@.clock,
                self@.next_id,
            ) by {
                if i < m0.items.len() {
                    assert(item_wf(m0.items[i], m0.clock, m0.next_id));
                }
            }
        }
        Ok(returned)
    }

    /// Whether the store can still issue a fresh instant and a fresh
    /// identifier, so that a write operation's preconditions hold.
    pub fn can_write(&self) -> (r: bool)
        ensures
            r == (self@.clock < u64::MAX && self@.next_id < u128::MAX),
    {
        self.clock < u64::MAX && self.next_id < u128::MAX
    }

    /// The position of the item carrying `id`, if any.
    fn index_for(&self, id: u128) -> (r: Option<usize>)
        requires
            store_wf(self@),
        ensures
            r matches Some(i) ==> {
                &&& i < self@.items.len()
                &&& self@.items[i as int].id == id
                &&& has_item(self@, id)
                &&& index_of(self@, id) == i
            },
            r is None ==> !has_item(self@, id),
    {
        let n = self.items.len();
        let mut i: usize = 0;
        while i < n
            invariant
                store_wf(self@),
                n == self@.items.len(),
                i <= n,
                forall|k: int| 0 <= k < i ==> #[trigger] self@.items[k].id != id,
            decreases n - i,
        {
            if self.items[i].id == id {
                proof {
                    lemma_index_of_unique(self@, id, i as int);
                }
                return Some(i);
            }
            i += 1;
        }
        None
    }

    /// Point lookup. Returns the item carrying `id`, or fails with
    /// `NotFound` naming that identifier when no item carries it.
    pub fn get_item(&self, id: u128) -> (r: Result<Item, AppError>)
        requires
            store_wf(self@),
        ensures
            has_item(self@, id) ==> (r matches Ok(it) && it@ == lookup(self@, id)),
            !has_item(self@, id) ==> (r matches Err(e) && e matches AppError::NotFound(n) && n
                == id),
    {
        match self.index_for(id) {
            Some(i) => Ok(self.items[i].duplicate()),
            None => Err(AppError::NotFound(id)),
        }
    }

    /// Listing. Returns every item, most recently created first; the empty
    /// collection when none exist.
    pub fn list_items(&self) -> (r: Vec<Item>)
        requires
            store_wf(self@),
        ensures
            r@.map_values(|it: Item| it@) == list_model(self@),
    {
        let n = self.items.len();
        let mut out: Vec<Item> = Vec::new();
        let mut i: usize = 0;
        while i < n
            invariant
                n == self@.items.len(),
                i <= n,
                out@.map_values(|it: Item| it@) =~= Seq::new(
                    i as nat,
                    |k: int| self@.items[n - 1 - k],
                ),
            decreases n - i,
        {
            let ghost prev = out@;
            out.push(self.items[n - 1 - i].duplicate());
            i += 1;
            proof {
                assert(out@.map_values(|it: Item| it@) =~= prev.map_values(|it: Item| it@).push(
                    self@.items[n - i],
                ));
            }
        }
        proof {
            assert(out@.map_values(|it: Item| it@) =~= list_model(self@));
        }
        out
    }

    /// Update. Fails with `NotFound` and writes nothing when no item
    /// carries `id`; rejects an explicit empty name with `InvalidInput` and
    /// writes nothing, so the non-empty-name invariant cannot be broken by
    /// an update; otherwise applies the coalescing merge, refreshes
    /// `updated_at` to the instant of the update, and returns the merged
    /// item.
    pub fn update_item(&mut self, id: u128, payload: &UpdateItemPayload) -> (r: Result<
        Item,
        AppError,
    >)
        requires
            store_wf(old(self)@),
            old(self)@.clock < u64::MAX,
        ensures
            store_wf(final(self)@),
            !has_item(old(self)@, id) ==> {
                &&& final(self)@ == old(self)@
                &&& r matches Err(e) && e matches AppError::NotFound(n) && n == id
            },
            has_item(old(self)@, id) && sets_empty_name(opt_text(payload.name)) ==> {
                &&& final(self)@ == old(self)@
                &&& r matches Err(e) && e matches AppError::InvalidInput(m) && m@
                    == "Item name cannot be empty"@
            },
            has_item(old(self)@, id) && !sets_empty_name(opt_text(payload.name)) ==> {
                &&& final(self)@ == update_model(
                    old(self)@,
                    id,
                    opt_text(payload.name),
                    opt_text(payload.description),
                )
                &&& r matches Ok(it) && it@ == merged_item(
                    lookup(old(self)@, id),
                    opt_text(payload.name),
                    opt_text(payload.description),
                    (old(self)@.clock + 1) as u64,
                )
            },
    {
        let i = match self.index_for(id) {
            None => {
                return Err(AppError::NotFound(id));
            },
            Some(i) => i,
        };
        let name_is_empty = match &payload.name {
            Some(s) => s.as_str().is_empty(),
            None => false,
        };
        if name_is_empty {
            return Err(AppError::InvalidInput(String::from_str("Item name cannot be empty")));
        }
        let now = self.clock + 1;
        let new_name = match &payload.name {
            Some(s) => s.clone(),
            None => self.items[i].name.clone(),
        };
        let new_description = match &payload.description {
            Some(s) => Some(s.clone()),
            None => duplicate_opt_text(&self.items[i].description),
        };
        let merged = Item {
            id,
            name: new_name,
            description: new_description,
            created_at: self.items[i].created_at,
            updated_at: now,
        };
        let returned = merged.duplicate();
        proof {
            let ghost m0 = old(self)@;
            assert(merged@ == merged_item(
                lookup(m0, id),
                opt_text(payload.name),
                opt_text(payload.description),
                now,
            ));
        }
        self.items.set(i, merged);
        self.clock = now;
        proof {
            let ghost m0 = old(self)@;
            let ghost mi = merged_item(
                lookup(m0, id),
                opt_text(payload.name),
                opt_text(payload.description),
                now,
            );
            assert(self@.items =~= m0.items.update(i as int, mi));
            assert(self@ =~= update_model(
                m0,
                id,
                opt_text(payload.name),
                opt_text(payload.description),
            ));
            lemma_update_wf(m0, id, opt_text(payload.name), opt_text(payload.description));
        }
        Ok(returned)
    }

    /// Deletion. Removes the item carrying `id`; fails with `NotFound` and
    /// writes nothing when no item carries it.
    pub fn delete_item(&mut self, id: u128) -> (r: Result<(), AppError>)
        requires
            store_wf(old(self)@),
        ensures
            store_wf(final(self)@),
            !has_item(old(self)@, id) ==> {
                &&& final(self)@ == old(self)@
                &&& r matches Err(e) && e matches AppError::NotFound(n) && n == id
            },
            has_item(old(self)@, id) ==> {
                &&& final(self)@ == delete_model(old(self)@, id)
                &&& r is Ok
            },
    {
        let i = match self.index_for(id) {
            None => {
                return Err(AppError::NotFound(id));
            },
            Some(i) => i,
        };
        self.items.remove(i);
        proof {
            let ghost m0 = old(self)@;
            m0.items.remove_ensures(i as int);
            assert(self@.items =~= m0.items.remove(i as int));
            assert(self@ =~= delete_model(m0, id));
            lemma_delete_removes(m0, id);
        }
        Ok(())
    }
}

/// Whether an update payload explicitly sets the name to empty text.
pub open spec fn sets_empty_name(name: Option<Seq<char>>) -> bool {
    name matches Option::Some(n) && n.len() == 0
}

/// Law: a successful creation yields a fresh identifier — no item persisted
/// before it carries the same one — and equal creation and update instants.
pub proof fn lemma_create_fresh(m: StoreModel, name: Seq<char>, description: Option<Seq<char>>)
    requires
        store_wf(m),
    ensures
        forall|k: int|
            0 <= k < m.items.len() ==> #[trigger] m.items[k].id != created_item(
                m,
                name,
                description,
            ).id,
        created_item(m, name, description).created_at == created_item(
            m,
            name,
            description,
        ).updated_at,
{
}

/// Law: listing after creating item A and then item B returns B before A —
/// the most recently created item comes first, and its creation instant is
/// the later one.
pub proof fn lemma_list_newest_first(
    m: StoreModel,
    name_a: Seq<char>,
    desc_a: Option<Seq<char>>,
    name_b: Seq<char>,
    desc_b: Option<Seq<char>>,
)
    requires
        store_wf(m),
        m.clock + 1 < u64::MAX,
    ensures
        ({
            let a = created_item(m, name_a, desc_a);
            let m1 = create_model(m, name_a, desc_a);
            let b = created_item(m1, name_b, desc_b);
            let m2 = create_model(m1, name_b, desc_b);
            &&& list_model(m2)[0] == b
            &&& list_model(m2)[1] == a
            &&& a.created_at < b.created_at
        }),
{
    let a = created_item(m, name_a, desc_a);
    let m1 = create_model(m, name_a, desc_a);
    let b = created_item(m1, name_b, desc_b);
    let m2 = create_model(m1, name_b, desc_b);
    assert(m2.items.len() >= 2);
    assert(m2.items[m2.items.len() - 1] == b);
    assert(m2.items[m2.items.len() - 2] == a);
}

/// Law: updating an existing item with only the description set leaves the
/// name and the creation instant unchanged, stores the new description, and
/// advances `updated_at`; the store invariant is preserved.
pub proof fn lemma_update_description_only(m: StoreModel, id: u128, desc: Seq<char>)
    requires
        store_wf(m),
        has_item(m, id),
        m.clock < u64::MAX,
    ensures
        ({
            let m1 = update_model(m, id, Option::None, Option::Some(desc));
            &&& store_wf(m1)
            &&& has_item(m1, id)
            &&& lookup(m1, id).name == lookup(m, id).name
            &&& lookup(m1, id).description == Option::Some(desc)
            &&& lookup(m1, id).created_at == lookup(m, id).created_at
            &&& lookup(m1, id).updated_at > lookup(m, id).updated_at
        }),
{
    let i = index_of(m, id);
    let now = (m.clock + 1) as u64;
    let mi = merged_item(lookup(m, id), Option::None, Option::Some(desc), now);
    let m1 = update_model(m, id, Option::None, Option::Some(desc));
    lemma_update_wf(m, id, Option::None, Option::Some(desc));
    assert(m1.items[i] == mi);
    lemma_index_of_unique(m1, id, i);
}

/// The coalescing merge preserves the store invariant whenever it does not
/// set an empty name.
pub proof fn lemma_update_wf(
    m: StoreModel,
    id: u128,
    name: Option<Seq<char>>,
    description: Option<Seq<char>>,
)
    requires
        store_wf(m),
        has_item(m, id),
        m.clock < u64::MAX,
        !sets_empty_name(name),
    ensures
        store_wf(update_model(m, id, name, description)),
{
    let i = index_of(m, id);
    let m1 = update_model(m, id, name, description);
    assert forall|k: int|
        0 <= k < m1.items.len() implies item_wf(#[trigger] m1.items[k], m1.clock, m1.next_id) by {
        assert(item_wf(m.items[k], m.clock, m.next_id));
    }
    assert forall|k: int, l: int|
        0 <= k < l < m1.items.len() implies m1.items[k].id != m1.items[l].id by {
        assert(m.items[k].id != m.items[l].id);
        assert(m1.items[k].id == m.items[k].id);
        assert(m1.items[l].id == m.items[l].id);
    }
    assert forall|k: int, l: int|
        0 <= k < l < m1.items.len() implies m1.items[k].created_at < m1.items[l].created_at by {
        assert(m.items[k].created_at < m.items[l].created_at);
        assert(m1.items[k].created_at == m.items[k].created_at);
        assert(m1.items[l].created_at == m.items[l].created_at);
    }
}

/// Law: deleting an existing item removes it. No item of the resulting
/// store carries the identifier, so by the contracts of `get_item` and
/// `delete_item` a subsequent lookup of it fails with `NotFound` and a
/// second deletion fails with `NotFound` as well.
pub proof fn lemma_delete_removes(m: StoreModel, id: u128)
    requires
        store_wf(m),
        has_item(m, id),
    ensures
        store_wf(delete_model(m, id)),
        !has_item(delete_model(m, id), id),
{
    let i = index_of(m, id);
    let m1 = delete_model(m, id);
    m.items.remove_ensures(i);
    assert forall|k: int| 0 <= k < m1.items.len() implies #[trigger] m1.items[k].id != id by {
        let k0: int = if k < i {
            k
        } else {
            k + 1
        };
        assert(m1.items[k] == m.items[k0]);
        if k0 < i {
            assert(m.items[k0].id != m.items[i].id);
        } else {
            assert(m.items[i].id != m.items[k0].id);
        }
    }
    assert forall|k: int|
        0 <= k < m1.items.len() implies item_wf(#[trigger] m1.items[k], m1.clock, m1.next_id) by {
        let k0: int = if k < i {
            k
        } else {
            k + 1
        };
        assert(item_wf(m.items[k0], m.clock, m.next_id));
    }
    assert forall|k: int, l: int|
        0 <= k < l < m1.items.len() implies m1.items[k].id != m1.items[l].id by {
        let k0: int = if k < i {
            k
        } else {
            k + 1
        };
        let l0: int = if l < i {
            l
        } else {
            l + 1
        };
        assert(m.items[k0].id != m.items[l0].id);
    }
    assert forall|k: int, l: int|
        0 <= k < l < m1.items.len() implies m1.items[k].created_at < m1.items[l].created_at by {
        let k0: int = if k < i {
            k
        } else {
            k + 1
        };
        let l0: int = if l < i {
            l
        } else {
            l + 1
        };
        assert(m.items[k0].created_at < m.items[l0].created_at);
    }
}

} // verus!
