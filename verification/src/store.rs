//! The product store: at most one product record per owner identifier, held
//! in an in-memory keyed table. Create fails on an owner that already has a
//! record, read/update/delete fail on one that has none, and an update
//! merges only the fields that were supplied.

use std::collections::HashMap;
use vstd::prelude::*;
use vstd::string::StringExecFns;

verus! {

broadcast use vstd::std_specs::hash::group_hash_axioms;

/// A product record as the owner sees it: a name and a description.
pub struct Product {
    pub name: String,
    pub description: String,
}

/// The abstract content of a product record.
pub ghost struct ProductView {
    pub name: Seq<char>,
    pub description: Seq<char>,
}

impl View for Product {
    type V = ProductView;

    open spec fn view(&self) -> ProductView {
        ProductView { name: self.name@, description: self.description@ }
    }
}

impl Default for Product {
    /// The empty record that handlers echo when there is nothing to return.
    fn default() -> (r: Product)
        ensures
            r@ == ProductView::empty(),
    {
        Product { name: String::new(), description: String::new() }
    }
}

impl ProductView {
    /// The content of `Product::default()`: both fields empty.
    pub open spec fn empty() -> ProductView {
        ProductView { name: Seq::<char>::empty(), description: Seq::<char>::empty() }
    }
}

/// A partial update: only the fields that are present replace the stored
/// ones.
pub struct ModifyProduct {
    pub name: Option<String>,
    pub description: Option<String>,
}

/// The abstract content of a partial update.
pub ghost struct ModifyProductView {
    pub name: Option<Seq<char>>,
    pub description: Option<Seq<char>>,
}

impl View for ModifyProduct {
    type V = ModifyProductView;

    open spec fn view(&self) -> ModifyProductView {
        ModifyProductView {
            name: match self.name {
                Some(n) => Some(n@),
                None => None,
            },
            description: match self.description {
                Some(d) => Some(d@),
                None => None,
            },
        }
    }
}

/// The record that results from merging a partial update over a stored one:
/// each supplied field replaces the stored field, each absent one leaves it.
pub open spec fn merged(cur: ProductView, upd: ModifyProductView) -> ProductView {
    ProductView {
        name: match upd.name {
            Some(n) => n,
            None => cur.name,
        },
        description: match upd.description {
            Some(d) => d,
            None => cur.description,
        },
    }
}

/// How a store operation fails.
#[derive(Clone, Copy, Debug, PartialEq, Eq, Structural)]
pub enum StoreError {
    /// The owner has no product record.
    NotFound,
    /// The owner already has a product record.
    Conflict,
}

/// The table after a create: unchanged on conflict, extended otherwise.
pub open spec fn save_table(
    m: Map<u128, ProductView>,
    owner: u128,
    p: ProductView,
) -> Map<u128, ProductView> {
    if m.contains_key(owner) {
        m
    } else {
        m.insert(owner, p)
    }
}

/// What a create reports: a conflict exactly when the owner already has a
/// record.
pub open spec fn save_result(m: Map<u128, ProductView>, owner: u128) -> Result<(), StoreError> {
    if m.contains_key(owner) {
        Err(StoreError::Conflict)
    } else {
        Ok(())
    }
}

/// What a read returns: the owner's record, or not-found.
pub open spec fn read_result(m: Map<u128, ProductView>, owner: u128) -> Result<
    ProductView,
    StoreError,
> {
    if m.contains_key(owner) {
        Ok(m[owner])
    } else {
        Err(StoreError::NotFound)
    }
}

/// The table after an update: the merged record where one existed,
/// unchanged otherwise.
pub open spec fn update_table(
    m: Map<u128, ProductView>,
    owner: u128,
    upd: ModifyProductView,
) -> Map<u128, ProductView> {
    if m.contains_key(owner) {
        m.insert(owner, merged(m[owner], upd))
    } else {
        m
    }
}

/// What an update reports: not-found exactly when the owner has no record.
pub open spec fn update_result(m: Map<u128, ProductView>, owner: u128) -> Result<(), StoreError> {
    if m.contains_key(owner) {
        Ok(())
    } else {
        Err(StoreError::NotFound)
    }
}

/// The table after an overwrite of the owner's whole record: changed only
/// where the owner already had one.
pub open spec fn written_table(
    m: Map<u128, ProductView>,
    owner: u128,
    p: ProductView,
) -> Map<u128, ProductView> {
    if m.contains_key(owner) {
        m.insert(owner, p)
    } else {
        m
    }
}

/// The table after a delete: the owner's record removed where one existed.
pub open spec fn delete_table(m: Map<u128, ProductView>, owner: u128) -> Map<u128, ProductView> {
    if m.contains_key(owner) {
        m.remove(owner)
    } else {
        m
    }
}

/// What a delete reports: not-found exactly when the owner has no record.
pub open spec fn delete_result(m: Map<u128, ProductView>, owner: u128) -> Result<(), StoreError> {
    if m.contains_key(owner) {
        Ok(())
    } else {
        Err(StoreError::NotFound)
    }
}

/// The product table, keyed by owner identifier.
pub struct Db {
    rows: HashMap<u128, Product>,
}

impl View for Db {
    type V = Map<u128, ProductView>;

    /// The table's mathematical content: owner -> record.
    closed spec fn view(&self) -> Map<u128, ProductView> {
        self.rows@.map_values(|p: Product| p@)
    }
}

impl Db {
    /// An empty table, as each process starts with.
    pub fn setup() -> (db: Db)
        ensures
            db@ == Map::<u128, ProductView>::empty(),
    {
        let rows: HashMap<u128, Product> = HashMap::new();
        let db = Db { rows };
        proof {
            assert(db@ =~= Map::<u128, ProductView>::empty());
        }
        db
    }

    /// Creates the owner's record, unless the owner already has one. The
    /// insertion happens only where the conflict check passed, as one
    /// conditional write.
    pub fn save_product(&mut self, owner: u128, name: &str, description: &str) -> (r: Result<
        (),
        StoreError,
    >)
        ensures
            final(self)@ == save_table(
                old(self)@,
                owner,
                (ProductView { name: name@, description: description@ }),
            ),
            r == save_result(old(self)@, owner),
    {
        if self.rows.contains_key(&owner) {
            Err(StoreError::Conflict)
        } else {
            let p = Product {
                name: String::from_str(name),
                description: String::from_str(description),
            };
            self.rows.insert(owner, p);
            proof {
                assert(self@ =~= old(self)@.insert(
                    owner,
                    ProductView { name: name@, description: description@ },
                ));
            }
            Ok(())
        }
    }

    /// Returns a copy of the owner's record, or not-found.
    pub fn read_product(&self, owner: u128) -> (r: Result<Product, StoreError>)
        ensures
            match r {
                Ok(p) => read_result(self@, owner) == Ok::<ProductView, StoreError>(p@),
                Err(e) => read_result(self@, owner) == Err::<ProductView, StoreError>(e),
            },
    {
        match self.rows.get(&owner) {
            Some(p) => Ok(
                Product { name: p.name.clone(), description: p.description.clone() },
            ),
            None => Err(StoreError::NotFound),
        }
    }

    /// Overwrites the owner's record with the given fields, or reports
    /// not-found. The caller supplies the already-merged fields; the store
    /// writes the whole record.
    pub fn update_product(&mut self, owner: u128, name: &str, description: &str) -> (r: Result<
        (),
        StoreError,
    >)
        ensures
            final(self)@ == written_table(
                old(self)@,
                owner,
                (ProductView { name: name@, description: description@ }),
            ),
            r == update_result(old(self)@, owner),
    {
        if self.rows.contains_key(&owner) {
            let p = Product {
                name: String::from_str(name),
                description: String::from_str(description),
            };
            self.rows.insert(owner, p);
            proof {
                assert(self@ =~= old(self)@.insert(
                    owner,
                    ProductView { name: name@, description: description@ },
                ));
            }
            Ok(())
        } else {
            Err(StoreError::NotFound)
        }
    }

    /// Removes the owner's record, or reports not-found.
    pub fn delete_product(&mut self, owner: u128) -> (r: Result<(), StoreError>)
        ensures
            final(self)@ == delete_table(old(self)@, owner),
            r == delete_result(old(self)@, owner),
    {
        if self.rows.contains_key(&owner) {
            self.rows.remove(&owner);
            proof {
                assert(self@ =~= old(self)@.remove(owner));
            }
            Ok(())
        } else {
            Err(StoreError::NotFound)
        }
    }
}

} // verus!
