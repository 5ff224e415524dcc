//! The library's laws: properties that relate several operations, stated
//! over the same spec model that the operations' own contracts use, and
//! proved once for all states and inputs.

use crate::guard::{guard_decision, AuthError};
use crate::identifier::parsed_identifier;
use crate::store::{
    delete_result, delete_table, merged, read_result, save_result, save_table, update_result,
    update_table, ModifyProductView, ProductView, StoreError,
};
use vstd::prelude::*;

verus! {

/// Looking one's own identity up after issuance returns the exact username
/// supplied: a registry that has just recorded `username` under `id`
/// answers that username for `id`.
pub proof fn lemma_lookup_after_issue(reg: Map<u128, Seq<char>>, id: u128, username: Seq<char>)
    ensures
        reg.insert(id, username).contains_key(id),
        reg.insert(id, username)[id] == username,
{
}

/// An identifier that parses but was never issued is rejected by the guard
/// with the unknown-identifier error. The guard's decision never reads the
/// product table, so the rejection holds whatever that table holds.
pub proof fn lemma_unissued_identifier_rejected(h: Seq<char>, reg: Map<u128, Seq<char>>, id: u128)
    requires
        parsed_identifier(h) == Some(id),
        !reg.contains_key(id),
    ensures
        guard_decision(Some(h), reg) == Err::<u128, AuthError>(AuthError::UnknownIdentifier),
{
}

/// A string that does not parse as an identifier at all is likewise
/// rejected, with the malformed-identifier error.
pub proof fn lemma_malformed_identifier_rejected(h: Seq<char>, reg: Map<u128, Seq<char>>)
    requires
        parsed_identifier(h) is None,
    ensures
        guard_decision(Some(h), reg) == Err::<u128, AuthError>(AuthError::MalformedIdentifier),
{
}

/// An owner with no product record is answered not-found by read, update
/// and delete alike, and neither update nor delete changes the table.
pub proof fn lemma_absent_owner_not_found(
    m: Map<u128, ProductView>,
    owner: u128,
    upd: ModifyProductView,
)
    requires
        !m.contains_key(owner),
    ensures
        read_result(m, owner) == Err::<ProductView, StoreError>(StoreError::NotFound),
        update_result(m, owner) == Err::<(), StoreError>(StoreError::NotFound),
        update_table(m, owner, upd) == m,
        delete_result(m, owner) == Err::<(), StoreError>(StoreError::NotFound),
        delete_table(m, owner) == m,
{
}

/// Creating a product for an owner that already has one reports a conflict
/// and leaves the stored record as it was: a read after the attempt still
/// answers the values stored before it.
pub proof fn lemma_create_conflict_preserves(
    m: Map<u128, ProductView>,
    owner: u128,
    p: ProductView,
)
    requires
        m.contains_key(owner),
    ensures
        save_result(m, owner) == Err::<(), StoreError>(StoreError::Conflict),
        save_table(m, owner, p) == m,
        read_result(save_table(m, owner, p), owner) == Ok::<ProductView, StoreError>(m[owner]),
{
}

/// A partial update of an existing record succeeds, and a read after it
/// answers the merged record: each field the update supplied is replaced,
/// each field it left out keeps its prior value.
pub proof fn lemma_partial_update_read(
    m: Map<u128, ProductView>,
    owner: u128,
    upd: ModifyProductView,
)
    requires
        m.contains_key(owner),
    ensures
        update_result(m, owner) == Ok::<(), StoreError>(()),
        read_result(update_table(m, owner, upd), owner) == Ok::<ProductView, StoreError>(
            merged(m[owner], upd),
        ),
{
}

/// Deleting and then reading: a delete of an existing record succeeds,
/// after it the owner has no record any more, and a read answers
/// not-found.
pub proof fn lemma_read_after_delete(m: Map<u128, ProductView>, owner: u128)
    requires
        m.contains_key(owner),
    ensures
        delete_result(m, owner) == Ok::<(), StoreError>(()),
        !delete_table(m, owner).contains_key(owner),
        read_result(delete_table(m, owner), owner) == Err::<ProductView, StoreError>(
            StoreError::NotFound,
        ),
{
}

} // verus!
