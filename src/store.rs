use vstd::prelude::*;

use crate::clock::canister_time;
use crate::ids::{id_of, make_id};
use crate::records::{Product, SupplyEvent, User};
use crate::registry::{Duplicate, Keyed, Registry};

verus! {

/// The events recorded for one product, oldest first.
pub struct EventTrail {
    pub product_id: String,
    pub events: Vec<SupplyEvent>,
}

impl Keyed for EventTrail {
    open spec fn key(&self) -> Seq<char> {
        self.product_id@
    }

    fn key_string(&self) -> (r: &String) {
        &self.product_id
    }
}

/// The three registries of the system: products, the per-product event
/// log, and users.
///
/// Identifiers are a type tag followed by the decimal timestamp of the
/// call. Two registrations of one kind with the same timestamp share an
/// identifier, and the later one replaces the earlier.
pub struct Store {
    products: Registry<Product>,
    trails: Registry<EventTrail>,
    users: Registry<User>,
}

impl Store {
    pub closed spec fn wf(&self) -> bool {
        &&& self.products.wf()
        &&& self.trails.wf()
        &&& self.users.wf()
    }

    /// Registered products by identifier.
    pub closed spec fn product_map(&self) -> Map<Seq<char>, Product> {
        self.products@
    }

    /// Registered users by identifier.
    pub closed spec fn user_map(&self) -> Map<Seq<char>, User> {
        self.users@
    }

    /// For each product id that has events, its events in append order.
    pub closed spec fn event_log(&self) -> Map<Seq<char>, Seq<SupplyEvent>> {
        self.trails@.map_values(|t: EventTrail| t.events@)
    }

    /// The events recorded for `product_id`, oldest first; empty if none.
    pub open spec fn events_of(&self, product_id: Seq<char>) -> Seq<SupplyEvent> {
        if self.event_log().contains_key(product_id) {
            self.event_log()[product_id]
        } else {
            Seq::empty()
        }
    }

    /// `after` is `self` with a product registered under `id` at `now`.
    pub open spec fn registers_product(
        &self,
        after: Store,
        id: Seq<char>,
        name: Seq<char>,
        description: Seq<char>,
        manufacturer: Seq<char>,
        now: u64,
    ) -> bool {
        &&& after.wf()
        &&& id == id_of("prod_"@, now as nat)
        &&& after.product_map() == self.product_map().insert(id, after.product_map()[id])
        &&& after.product_map()[id].is_new(id, name, description, manufacturer, now)
        &&& after.event_log() == self.event_log()
        &&& after.user_map() == self.user_map()
    }

    /// `after` is `self` with a user registered under `id` at `now`.
    pub open spec fn registers_user(
        &self,
        after: Store,
        id: Seq<char>,
        name: Seq<char>,
        email: Seq<char>,
        role: Seq<char>,
        now: u64,
    ) -> bool {
        &&& after.wf()
        &&& id == id_of("user_"@, now as nat)
        &&& after.user_map() == self.user_map().insert(id, after.user_map()[id])
        &&& after.user_map()[id].is_new(id, name, email, role, now)
        &&& after.event_log() == self.event_log()
        &&& after.product_map() == self.product_map()
    }

    /// `after` is `self` with one event appended for `product_id` at `now`:
    /// the event closes that product's history, no other history changes,
    /// and a registered product moves to `location` with status
    /// "In Transit" whatever the event type.
    pub open spec fn appends_event(
        &self,
        after: Store,
        event_id: Seq<char>,
        product_id: Seq<char>,
        event_type: Seq<char>,
        location: Seq<char>,
        description: Seq<char>,
        actor: Seq<char>,
        now: u64,
    ) -> bool {
        &&& after.wf()
        &&& event_id == id_of("event_"@, now as nat)
        &&& after.events_of(product_id) == self.events_of(product_id).push(
            after.events_of(product_id).last(),
        )
        &&& after.events_of(product_id).last().is_event(
            event_id,
            product_id,
            event_type,
            location,
            description,
            actor,
            now,
        )
        &&& after.event_log() == self.event_log().insert(product_id, after.events_of(product_id))
        &&& if self.product_map().contains_key(product_id) {
            &&& after.product_map() == self.product_map().insert(
                product_id,
                after.product_map()[product_id],
            )
            &&& after.product_map()[product_id].is_moved(
                self.product_map()[product_id],
                location,
            )
        } else {
            after.product_map() == self.product_map()
        }
        &&& after.user_map() == self.user_map()
    }

    /// An empty store.
    pub fn new() -> (r: Store)
        ensures
            r.wf(),
            r.product_map() == Map::<Seq<char>, Product>::empty(),
            r.user_map() == Map::<Seq<char>, User>::empty(),
            r.event_log() == Map::<Seq<char>, Seq<SupplyEvent>>::empty(),
    {
        let r = Store { products: Registry::new(), trails: Registry::new(), users: Registry::new() };
        assert(r.event_log() =~= Map::<Seq<char>, Seq<SupplyEvent>>::empty());
        r
    }

    /// Registers a product at time `now` and returns its identifier.
    pub fn register_product_at(
        &mut self,
        now: u64,
        name: String,
        description: String,
        manufacturer: String,
    ) -> (id: String)
        requires
            old(self).wf(),
        ensures
            old(self).registers_product(*final(self), id@, name@, description@, manufacturer@, now),
    {
        let id = make_id("prod_", now);
        let product = Product {
            id: id.clone(),
            name,
            description,
            manufacturer,
            created_at: now,
            current_location: String::from_str("Manufacturing"),
            status: String::from_str("Created"),
        };
        self.products.insert(product);
        id
    }

    /// Registers a product at the current time and returns its identifier.
    pub fn register_product(
        &mut self,
        name: String,
        description: String,
        manufacturer: String,
    ) -> (id: String)
        requires
            old(self).wf(),
        ensures
            old(self).registers_product(
                *final(self),
                id@,
                name@,
                description@,
                manufacturer@,
                final(self).product_map()[id@].created_at,
            ),
    {
        let now = canister_time();
        self.register_product_at(now, name, description, manufacturer)
    }

    /// The product registered under `id`, if any.
    pub fn get_product(&self, id: &str) -> (r: Option<Product>)
        requires
            self.wf(),
        ensures
            r == self.product_map().get(id@),
    {
        self.products.get(&String::from_str(id))
    }

    /// Every registered product, each once, in an unspecified order.
    pub fn get_all_products(&self) -> (r: Vec<Product>)
        requires
            self.wf(),
        ensures
            lists_exactly(r@, self.product_map()),
    {
        self.products.values()
    }

    /// Records an event for `product_id` at time `now` and returns the
    /// event's identifier. The product need not be registered.
    pub fn add_supply_event_at(
        &mut self,
        now: u64,
        product_id: String,
        event_type: String,
        location: String,
        description: String,
        actor: String,
    ) -> (event_id: String)
        requires
            old(self).wf(),
        ensures
            old(self).appends_event(
                *final(self),
                event_id@,
                product_id@,
                event_type@,
                location@,
                description@,
                actor@,
                now,
            ),
    {
        let event_id = make_id("event_", now);
        let event = SupplyEvent {
            id: event_id.clone(),
            product_id: product_id.clone(),
            event_type,
            location: location.clone(),
            timestamp: now,
            description,
            actor,
        };
        let ghost e = event;
        let ghost old_log = self.event_log();
        match self.trails.take(&product_id) {
            Some(trail) => {
                let mut trail = trail;
                trail.events.push(event);
                self.trails.insert(trail);
                assert(self.events_of(product_id@) =~= old_log[product_id@].push(e));
            },
            None => {
                let mut events: Vec<SupplyEvent> = Vec::new();
                events.push(event);
                self.trails.insert(EventTrail { product_id: product_id.clone(), events });
                assert(self.events_of(product_id@) =~= Seq::<SupplyEvent>::empty().push(e));
            },
        }
        assert(self.event_log() =~= old_log.insert(product_id@, self.events_of(product_id@)));
        let ghost old_products = self.product_map();
        match self.products.take(&product_id) {
            Some(product) => {
                let mut product = product;
                product.current_location = location;
                product.status = String::from_str("In Transit");
                self.products.insert(product);
                assert(self.product_map() =~= old_products.insert(
                    product_id@,
                    self.product_map()[product_id@],
                ));
            },
            None => {
                assert(self.product_map() =~= old_products);
            },
        }
        event_id
    }

    /// Records an event for `product_id` at the current time and returns
    /// the event's identifier.
    pub fn add_supply_event(
        &mut self,
        product_id: String,
        event_type: String,
        location: String,
        description: String,
        actor: String,
    ) -> (event_id: String)
        requires
            old(self).wf(),
        ensures
            old(self).appends_event(
                *final(self),
                event_id@,
                product_id@,
                event_type@,
                location@,
                description@,
                actor@,
                final(self).events_of(product_id@).last().timestamp,
            ),
    {
        let now = canister_time();
        self.add_supply_event_at(now, product_id, event_type, location, description, actor)
    }

    /// The events recorded for `product_id`, oldest first; empty if none.
    pub fn get_product_events(&self, product_id: &str) -> (r: Vec<SupplyEvent>)
        requires
            self.wf(),
        ensures
            r@ == self.events_of(product_id@),
            !self.event_log().contains_key(product_id@) ==> r@.len() == 0,
    {
        let mut r: Vec<SupplyEvent> = Vec::new();
        match self.trails.find(&String::from_str(product_id)) {
            Some(trail) => {
                let ghost events = self.events_of(product_id@);
                assert(events == trail.events@);
                let mut i: usize = 0;
                while i < trail.events.len()
                    invariant
                        i <= events.len(),
                        events == trail.events@,
                        r@ == events.subrange(0, i as int),
                    decreases events.len() - i,
                {
                    r.push(trail.events[i].duplicate());
                    i = i + 1;
                    assert(r@ =~= events.subrange(0, i as int));
                }
                assert(r@ =~= events);
            },
            None => {
                assert(r@ =~= self.events_of(product_id@));
            },
        }
        r
    }

    /// Registers a user at time `now` and returns its identifier. Equal
    /// emails are allowed.
    pub fn register_user_at(&mut self, now: u64, name: String, email: String, role: String) -> (id:
        String)
        requires
            old(self).wf(),
        ensures
            old(self).registers_user(*final(self), id@, name@, email@, role@, now),
    {
        let id = make_id("user_", now);
        let user = User { id: id.clone(), name, email, role, created_at: now };
        self.users.insert(user);
        id
    }

    /// Registers a user at the current time and returns its identifier.
    pub fn register_user(&mut self, name: String, email: String, role: String) -> (id: String)
        requires
            old(self).wf(),
        ensures
            old(self).registers_user(
                *final(self),
                id@,
                name@,
                email@,
                role@,
                final(self).user_map()[id@].created_at,
            ),
    {
        let now = canister_time();
        self.register_user_at(now, name, email, role)
    }

    /// The user registered under `id`, if any.
    pub fn get_user(&self, id: &str) -> (r: Option<User>)
        requires
            self.wf(),
        ensures
            r == self.user_map().get(id@),
    {
        self.users.get(&String::from_str(id))
    }

    /// Every registered user, each once, in an unspecified order.
    pub fn get_all_users(&self) -> (r: Vec<User>)
        requires
            self.wf(),
        ensures
            lists_exactly(r@, self.user_map()),
    {
        self.users.values()
    }
}

/// `s` holds each record of `m` exactly once, under its own key.
pub open spec fn lists_exactly<T: Keyed>(s: Seq<T>, m: Map<Seq<char>, T>) -> bool {
    &&& crate::registry::keys_distinct(s)
    &&& crate::registry::keyed_map(s) == m
}

} // verus!
