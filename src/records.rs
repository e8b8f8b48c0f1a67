use vstd::prelude::*;

use crate::registry::{Duplicate, Keyed};

verus! {

/// A tracked product. `current_location` and `status` follow the latest
/// supply event recorded for it.
#[derive(Clone, Debug, PartialEq, Eq)]
pub struct Product {
    pub id: String,
    pub name: String,
    pub description: String,
    pub manufacturer: String,
    pub created_at: u64,
    pub current_location: String,
    pub status: String,
}

/// One custody or location event in a product's history.
#[derive(Clone, Debug, PartialEq, Eq)]
pub struct SupplyEvent {
    pub id: String,
    pub product_id: String,
    pub event_type: String,
    pub location: String,
    pub timestamp: u64,
    pub description: String,
    pub actor: String,
}

/// An actor known to the system.
#[derive(Clone, Debug, PartialEq, Eq)]
pub struct User {
    pub id: String,
    pub name: String,
    pub email: String,
    pub role: String,
    pub created_at: u64,
}

impl Product {
    /// The record as registration makes it: given fields, the initial
    /// location and status, stamped with `now`.
    pub open spec fn is_new(
        &self,
        id: Seq<char>,
        name: Seq<char>,
        description: Seq<char>,
        manufacturer: Seq<char>,
        now: u64,
    ) -> bool {
        &&& self.id@ == id
        &&& self.name@ == name
        &&& self.description@ == description
        &&& self.manufacturer@ == manufacturer
        &&& self.created_at == now
        &&& self.current_location@ == "Manufacturing"@
        &&& self.status@ == "Created"@
    }

    /// `self` is `before` moved to `location`: only the derived fields differ.
    pub open spec fn is_moved(&self, before: Product, location: Seq<char>) -> bool {
        &&& self.id == before.id
        &&& self.name == before.name
        &&& self.description == before.description
        &&& self.manufacturer == before.manufacturer
        &&& self.created_at == before.created_at
        &&& self.current_location@ == location
        &&& self.status@ == "In Transit"@
    }
}

impl SupplyEvent {
    /// The event carries exactly these fields.
    pub open spec fn is_event(
        &self,
        id: Seq<char>,
        product_id: Seq<char>,
        event_type: Seq<char>,
        location: Seq<char>,
        description: Seq<char>,
        actor: Seq<char>,
        now: u64,
    ) -> bool {
        &&& self.id@ == id
        &&& self.product_id@ == product_id
        &&& self.event_type@ == event_type
        &&& self.location@ == location
        &&& self.timestamp == now
        &&& self.description@ == description
        &&& self.actor@ == actor
    }
}

impl Duplicate for SupplyEvent {
    fn duplicate(&self) -> (r: Self) {
        SupplyEvent {
            id: self.id.clone(),
            product_id: self.product_id.clone(),
            event_type: self.event_type.clone(),
            location: self.location.clone(),
            timestamp: self.timestamp,
            description: self.description.clone(),
            actor: self.actor.clone(),
        }
    }
}

impl User {
    /// The record as registration makes it.
    pub open spec fn is_new(
        &self,
        id: Seq<char>,
        name: Seq<char>,
        email: Seq<char>,
        role: Seq<char>,
        now: u64,
    ) -> bool {
        &&& self.id@ == id
        &&& self.name@ == name
        &&& self.email@ == email
        &&& self.role@ == role
        &&& self.created_at == now
    }
}

impl Keyed for Product {
    open spec fn key(&self) -> Seq<char> {
        self.id@
    }

    fn key_string(&self) -> (r: &String) {
        &self.id
    }
}

impl Duplicate for Product {
    fn duplicate(&self) -> (r: Self) {
        Product {
            id: self.id.clone(),
            name: self.name.clone(),
            description: self.description.clone(),
            manufacturer: self.manufacturer.clone(),
            created_at: self.created_at,
            current_location: self.current_location.clone(),
            status: self.status.clone(),
        }
    }
}

impl Keyed for User {
    open spec fn key(&self) -> Seq<char> {
        self.id@
    }

    fn key_string(&self) -> (r: &String) {
        &self.id
    }
}

impl Duplicate for User {
    fn duplicate(&self) -> (r: Self) {
        User {
            id: self.id.clone(),
            name: self.name.clone(),
            email: self.email.clone(),
            role: self.role.clone(),
            created_at: self.created_at,
        }
    }
}

} // verus!
