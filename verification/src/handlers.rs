use vstd::prelude::*;

use crate::models::{views_of, Customer};
use crate::store::{contains_guid, spec_create, Store};

verus! {

/// What a handler answers: either a JSON payload (the whole collection or a
/// single record, both served with status 200) or a bare status code.
#[derive(Debug, PartialEq)]
pub enum Response {
    /// 200, body: every record of the store.
    Customers(Vec<Customer>),
    /// 200, body: one record.
    Customer(Customer),
    /// 201, a create succeeded.
    Created,
    /// 200, an update succeeded.
    Updated,
    /// 204, a delete succeeded.
    Deleted,
    /// 404, no record with the requested guid.
    NotFound,
    /// 409, a create hit an already-taken guid.
    Conflict,
}

impl Response {
    /// The HTTP status code the response is served with.
    pub open spec fn spec_status_code(&self) -> u16 {
        match self {
            Response::Customers(_) => 200,
            Response::Customer(_) => 200,
            Response::Created => 201,
            Response::Updated => 200,
            Response::Deleted => 204,
            Response::NotFound => 404,
            Response::Conflict => 409,
        }
    }

    /// The HTTP status code the response is served with.
    pub fn status_code(&self) -> (c: u16)
        ensures
            c == self.spec_status_code(),
    {
        match self {
            Response::Customers(_) => 200,
            Response::Customer(_) => 200,
            Response::Created => 201,
            Response::Updated => 200,
            Response::Deleted => 204,
            Response::NotFound => 404,
            Response::Conflict => 409,
        }
    }
}

/// Serves a list request: every record of the store, in insertion order.
/// Never fails.
pub fn list_customers(store: &Store) -> (r: Response)
    ensures
        r matches Response::Customers(cs) && views_of(cs@) == store@,
{
    Response::Customers(store.list())
}

/// Serves a create request: appends the record when its guid is new (201);
/// a guid already present leaves the store exactly as it was and answers
/// with a conflict (409).
pub fn create_customer(store: &mut Store, new_customer: Customer) -> (r: Response)
    requires
        old(store).wf(),
    ensures
        final(store).wf(),
        final(store)@ == spec_create(old(store)@, new_customer@),
        contains_guid(old(store)@, new_customer@.guid) ==> r == Response::Conflict
            && final(store)@ == old(store)@,
        !contains_guid(old(store)@, new_customer@.guid) ==> r == Response::Created
            && final(store)@ == old(store)@.push(new_customer@),
{
    if store.insert(new_customer) {
        Response::Created
    } else {
        Response::Conflict
    }
}

/// Serves a get request: the first record whose guid matches the path
/// parameter (200) — under the store's invariant, the only one — or
/// not-found when no record has that guid (404).
pub fn get_customer(store: &Store, guid: &String) -> (r: Response)
    ensures
        contains_guid(store@, guid@) ==> (r matches Response::Customer(c) && exists|i: int|
            0 <= i < store@.len() && store@[i].guid == guid@ && c@ == store@[i] && forall|k: int|
                0 <= k < i ==> store@[k].guid != guid@),
        !contains_guid(store@, guid@) ==> r == Response::NotFound,
{
    match store.find(guid) {
        Some(c) => Response::Customer(c.clone()),
        None => Response::NotFound,
    }
}

/// Serves an update request. The record to overwrite is the one whose guid
/// equals the guid carried in the request body; the path parameter takes no
/// part in the match, which is why it appears in no clause below. On a match
/// the record keeps its guid and takes the body's name, email and address
/// fields (200); an absent body guid leaves the store unchanged (404).
pub fn update_customer(store: &mut Store, _path_guid: &String, updated_customer: &Customer) -> (r:
    Response)
    requires
        old(store).wf(),
    ensures
        final(store).wf(),
        contains_guid(old(store)@, updated_customer@.guid) ==> r == Response::Updated
            && exists|i: int|
                0 <= i < old(store)@.len()
                && old(store)@[i].guid == updated_customer@.guid
                && final(store)@ == old(store)@.update(i, updated_customer@),
        !contains_guid(old(store)@, updated_customer@.guid) ==> r == Response::NotFound
            && final(store)@ == old(store)@,
{
    if store.replace_fields(updated_customer) {
        Response::Updated
    } else {
        Response::NotFound
    }
}

/// Serves a delete request: removes the record with the path parameter's
/// guid, shrinking the store by exactly one (204); an absent guid leaves the
/// store unchanged (404). Afterwards no record with that guid remains.
pub fn delete_customer(store: &mut Store, guid: &String) -> (r: Response)
    requires
        old(store).wf(),
    ensures
        final(store).wf(),
        !contains_guid(final(store)@, guid@),
        contains_guid(old(store)@, guid@) ==> r == Response::Deleted
            && final(store)@.len() == old(store)@.len() - 1
            && exists|i: int|
                0 <= i < old(store)@.len()
                && old(store)@[i].guid == guid@
                && final(store)@ == old(store)@.remove(i),
        !contains_guid(old(store)@, guid@) ==> r == Response::NotFound
            && final(store)@ == old(store)@,
{
    if store.delete(guid) {
        Response::Deleted
    } else {
        Response::NotFound
    }
}

} // verus!

