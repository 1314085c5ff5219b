use vstd::prelude::*;
use crate::cache_key::{Namespace, key_of};
use crate::coordinator::{Action, ActionView, Entity, Flow, Operation, start_spec};

verus! {

/// A customer record; `id` is the 128-bit value of its UUID.
#[derive(Clone, Debug, PartialEq, Eq)]
pub struct Customer {
    pub id: u128,
    pub name: String,
    pub email: String,
}

/// The fields a client sends to create or update a customer.
#[derive(Clone, Debug, PartialEq, Eq)]
pub struct CustomerPayload {
    pub name: String,
    pub email: String,
}

/// A seller record; `id` is the 128-bit value of its UUID.
#[derive(Clone, Debug, PartialEq, Eq)]
pub struct Seller {
    pub id: u128,
    pub name: String,
    pub company_name: String,
}

/// The fields a client sends to create or update a seller.
#[derive(Clone, Debug, PartialEq, Eq)]
pub struct SellerPayload {
    pub name: String,
    pub company_name: String,
}

impl Entity for Customer {
    open spec fn spec_id(&self) -> u128 {
        self.id
    }

    fn id(&self) -> (r: u128) {
        self.id
    }

    fn duplicate(&self) -> (r: Self) {
        Customer { id: self.id, name: self.name.clone(), email: self.email.clone() }
    }
}

impl Entity for Seller {
    open spec fn spec_id(&self) -> u128 {
        self.id
    }

    fn id(&self) -> (r: u128) {
        self.id
    }

    fn duplicate(&self) -> (r: Self) {
        Seller { id: self.id, name: self.name.clone(), company_name: self.company_name.clone() }
    }
}

/// Cache-aside operations on customers, under the `customer` namespace.
pub struct CustomerHandler;

impl CustomerHandler {
    pub fn create_customer() -> (r: (Flow<Customer>, Action<Customer>))
        ensures
            (r.0, r.1@) == start_spec::<Customer>(Operation::Create, Namespace::Customer),
            r.1@ == ActionView::<Customer>::CallStore,
    {
        Flow::start(Operation::Create, Namespace::Customer)
    }

    pub fn get_customer(id: u128) -> (r: (Flow<Customer>, Action<Customer>))
        ensures
            (r.0, r.1@) == start_spec::<Customer>(Operation::Get(id), Namespace::Customer),
            r.1@ == (ActionView::<Customer>::ReadCache { key: key_of(Namespace::Customer, id) }),
    {
        Flow::start(Operation::Get(id), Namespace::Customer)
    }

    pub fn update_customer(id: u128) -> (r: (Flow<Customer>, Action<Customer>))
        ensures
            (r.0, r.1@) == start_spec::<Customer>(Operation::Update(id), Namespace::Customer),
            r.1@ == ActionView::<Customer>::CallStore,
    {
        Flow::start(Operation::Update(id), Namespace::Customer)
    }

    pub fn delete_customer(id: u128) -> (r: (Flow<Customer>, Action<Customer>))
        ensures
            (r.0, r.1@) == start_spec::<Customer>(Operation::Delete(id), Namespace::Customer),
            r.1@ == ActionView::<Customer>::CallStore,
    {
        Flow::start(Operation::Delete(id), Namespace::Customer)
    }
}

/// Cache-aside operations on sellers, under the `seller` namespace.
pub struct SellerHandler;

impl SellerHandler {
    pub fn create_seller() -> (r: (Flow<Seller>, Action<Seller>))
        ensures
            (r.0, r.1@) == start_spec::<Seller>(Operation::Create, Namespace::Seller),
            r.1@ == ActionView::<Seller>::CallStore,
    {
        Flow::start(Operation::Create, Namespace::Seller)
    }

    pub fn get_seller(id: u128) -> (r: (Flow<Seller>, Action<Seller>))
        ensures
            (r.0, r.1@) == start_spec::<Seller>(Operation::Get(id), Namespace::Seller),
            r.1@ == (ActionView::<Seller>::ReadCache { key: key_of(Namespace::Seller, id) }),
    {
        Flow::start(Operation::Get(id), Namespace::Seller)
    }

    pub fn update_seller(id: u128) -> (r: (Flow<Seller>, Action<Seller>))
        ensures
            (r.0, r.1@) == start_spec::<Seller>(Operation::Update(id), Namespace::Seller),
            r.1@ == ActionView::<Seller>::CallStore,
    {
        Flow::start(Operation::Update(id), Namespace::Seller)
    }

    pub fn delete_seller(id: u128) -> (r: (Flow<Seller>, Action<Seller>))
        ensures
            (r.0, r.1@) == start_spec::<Seller>(Operation::Delete(id), Namespace::Seller),
            r.1@ == ActionView::<Seller>::CallStore,
    {
        Flow::start(Operation::Delete(id), Namespace::Seller)
    }
}

} // verus!
