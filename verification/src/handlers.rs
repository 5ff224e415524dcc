//! The request handlers: one function per route, each a plain function
//! from the shared state and the request's values to a status and a
//! response body. The ownership guard has already validated the caller's
//! identifier wherever a handler takes a `RequiredUserId`.

use crate::guard::RequiredUserId;
use crate::identifier::{identifier_text, parsed_identifier, render_identifier};
use crate::registry::UserState;
use crate::store::{
    delete_table, save_table, update_table, Db, ModifyProduct, Product, ProductView,
};
use crate::Status;
use vstd::prelude::*;

verus! {

/// The request body of an identifier issuance.
pub struct CreateUser {
    pub username: String,
}

/// The response body of the identity read: the caller's identifier in text
/// form, and the username it was issued to.
pub struct User {
    pub id: String,
    pub username: String,
}

/// Issues a fresh identifier for the given username, records the pair and
/// answers with the identifier's text form. Succeeds for every username.
pub fn create_identifier(user: &mut UserState, username: CreateUser) -> (r: (Status, String))
    ensures
        r.0 == Status::Okay,
        parsed_identifier(r.1@) is Some,
        r.1@ == identifier_text(parsed_identifier(r.1@)->Some_0),
        final(user)@ == old(user)@.insert(parsed_identifier(r.1@)->Some_0, username.username@),
{
    let id = user.issue(username.username);
    let text = render_identifier(id);
    (Status::Okay, text)
}

/// Answers with the caller's own identity record. The guard has confirmed
/// the identifier, so the registry is known to hold it.
pub fn get_identifier(id: RequiredUserId, user: &UserState) -> (r: (Status, User))
    requires
        user@.contains_key(id.0),
    ensures
        r.0 == Status::Found,
        r.1.id@ == identifier_text(id.0),
        r.1.username@ == user@[id.0],
{
    let username = match user.lookup(id.0) {
        Some(u) => u.clone(),
        // The registry is known to hold the identifier.
        None => vstd::pervasive::unreached(),
    };
    (Status::Found, User { id: render_identifier(id.0), username })
}

/// Creates the caller's product record and echoes it back, or answers with
/// a conflict and an empty body when the caller already owns one.
pub fn create_product(id: RequiredUserId, db: &mut Db, payload: Product) -> (r: (Status, Product))
    ensures
        final(db)@ == save_table(old(db)@, id.0, payload@),
        old(db)@.contains_key(id.0) ==> r.0 == Status::Conflict && r.1@ == ProductView::empty(),
        !old(db)@.contains_key(id.0) ==> r.0 == Status::Created && r.1@ == payload@,
{
    let res = db.save_product(id.0, payload.name.as_str(), payload.description.as_str());
    match res {
        Ok(()) => (
            Status::Created,
            Product { name: payload.name, description: payload.description },
        ),
        Err(_) => (Status::Conflict, Product::default()),
    }
}

/// Answers with the caller's product record, or not-found and an empty
/// body.
pub fn get_product(id: RequiredUserId, db: &Db) -> (r: (Status, Product))
    ensures
        db@.contains_key(id.0) ==> r.0 == Status::Found && r.1@ == db@[id.0],
        !db@.contains_key(id.0) ==> r.0 == Status::NotFound && r.1@ == ProductView::empty(),
{
    match db.read_product(id.0) {
        Ok(product) => (Status::Found, product),
        Err(_) => (Status::NotFound, Product::default()),
    }
}

/// Merges the supplied fields over the caller's product record: a field
/// that came with the request replaces the stored one, a field that did not
/// is kept. Answers not-found when the caller owns no record.
pub fn modify_product(id: RequiredUserId, db: &mut Db, payload: ModifyProduct) -> (r: Status)
    ensures
        final(db)@ == update_table(old(db)@, id.0, payload@),
        old(db)@.contains_key(id.0) ==> r == Status::NoContent,
        !old(db)@.contains_key(id.0) ==> r == Status::NotFound,
{
    match db.read_product(id.0) {
        Ok(product) => {
            let new_name = match payload.name {
                Some(n) => n,
                None => product.name,
            };
            let new_description = match payload.description {
                Some(d) => d,
                None => product.description,
            };
            match db.update_product(id.0, new_name.as_str(), new_description.as_str()) {
                Ok(()) => Status::NoContent,
                // The store has just confirmed the record, so the write
                // cannot miss it; this is the internal-consistency answer,
                // shown unreachable.
                Err(_) => Status::InternalServerError,
            }
        },
        Err(_) => Status::NotFound,
    }
}

/// Removes the caller's product record, or answers not-found.
pub fn delete_product(id: RequiredUserId, db: &mut Db) -> (r: Status)
    ensures
        final(db)@ == delete_table(old(db)@, id.0),
        old(db)@.contains_key(id.0) ==> r == Status::NoContent,
        !old(db)@.contains_key(id.0) ==> r == Status::NotFound,
{
    match db.delete_product(id.0) {
        Ok(()) => Status::NoContent,
        Err(_) => Status::NotFound,
    }
}

} // verus!
