use vstd::prelude::*;

verus! {

/// A customer record. `guid` is the caller-supplied identifier and acts as
/// the record's primary key; the remaining fields are opaque strings with no
/// format constraints.
#[derive(Debug, PartialEq, Eq)]
pub struct Customer {
    pub guid: String,
    pub first_name: String,
    pub last_name: String,
    pub email: String,
    pub address: String,
}

/// The mathematical value of a `Customer`: each field as its character
/// sequence.
pub ghost struct CustomerView {
    pub guid: Seq<char>,
    pub first_name: Seq<char>,
    pub last_name: Seq<char>,
    pub email: Seq<char>,
    pub address: Seq<char>,
}

impl View for Customer {
    type V = CustomerView;

    open spec fn view(&self) -> CustomerView {
        CustomerView {
            guid: self.guid@,
            first_name: self.first_name@,
            last_name: self.last_name@,
            email: self.email@,
            address: self.address@,
        }
    }
}

impl Clone for Customer {
    fn clone(&self) -> (r: Self)
        ensures
            r@ == self@,
    {
        Customer {
            guid: self.guid.clone(),
            first_name: self.first_name.clone(),
            last_name: self.last_name.clone(),
            email: self.email.clone(),
            address: self.address.clone(),
        }
    }
}

/// The views of a sequence of records, element by element.
pub open spec fn views_of(s: Seq<Customer>) -> Seq<CustomerView> {
    s.map_values(|c: Customer| c@)
}

} // verus!
