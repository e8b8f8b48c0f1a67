use vstd::prelude::*;

use crate::ids::{id_of, lemma_id_injective};
use crate::records::{Product, SupplyEvent};
use crate::registry::{has_key, keyed_map, lemma_keyed_map_index, Keyed};
use crate::store::{lists_exactly, Store};

verus! {

/// Right after a product is registered, looking up its identifier yields
/// the record as registration made it.
pub proof fn law_registered_product_is_found(
    before: Store,
    after: Store,
    id: Seq<char>,
    name: Seq<char>,
    description: Seq<char>,
    manufacturer: Seq<char>,
    now: u64,
)
    requires
        before.registers_product(after, id, name, description, manufacturer, now),
    ensures
        after.product_map().get(id) is Some,
        after.product_map().get(id).unwrap().is_new(id, name, description, manufacturer, now),
{
}

/// After `calls.len()` appends for one product id, its history holds the
/// earlier events followed by one event per call, in call order; a product
/// registered under that id sits at the last call's location with status
/// "In Transit".
pub proof fn law_appends_in_call_order(
    states: Seq<Store>,
    product_id: Seq<char>,
    calls: Seq<SupplyEvent>,
)
    requires
        states.len() == calls.len() + 1,
        forall|k: int|
            0 <= k < calls.len() ==> #[trigger] states[k].appends_event(
                states[k + 1],
                calls[k].id@,
                product_id,
                calls[k].event_type@,
                calls[k].location@,
                calls[k].description@,
                calls[k].actor@,
                calls[k].timestamp,
            ),
    ensures
        states.last().events_of(product_id).len() == states[0].events_of(product_id).len()
            + calls.len(),
        states.last().events_of(product_id).subrange(
            0,
            states[0].events_of(product_id).len() as int,
        ) == states[0].events_of(product_id),
        forall|k: int|
            0 <= k < calls.len() ==> (#[trigger] states.last().events_of(product_id)[states[0].events_of(
                product_id,
            ).len() + k]).is_event(
                calls[k].id@,
                product_id,
                calls[k].event_type@,
                calls[k].location@,
                calls[k].description@,
                calls[k].actor@,
                calls[k].timestamp,
            ),
        states[0].product_map().contains_key(product_id) ==> states.last().product_map().contains_key(
            product_id,
        ),
        states[0].product_map().contains_key(product_id) && calls.len() > 0 ==> {
            &&& states.last().product_map()[product_id].current_location@ == calls.last().location@
            &&& states.last().product_map()[product_id].status@ == "In Transit"@
        },
    decreases calls.len(),
{
    if calls.len() > 0 {
        let n = calls.len() - 1;
        let prev = states.drop_last();
        let head = calls.drop_last();
        assert forall|k: int| 0 <= k < head.len() implies #[trigger] prev[k].appends_event(
            prev[k + 1],
            head[k].id@,
            product_id,
            head[k].event_type@,
            head[k].location@,
            head[k].description@,
            head[k].actor@,
            head[k].timestamp,
        ) by {
            assert(prev[k] == states[k]);
            assert(prev[k + 1] == states[k + 1]);
            assert(head[k] == calls[k]);
            assert(states[k].appends_event(
                states[k + 1],
                calls[k].id@,
                product_id,
                calls[k].event_type@,
                calls[k].location@,
                calls[k].description@,
                calls[k].actor@,
                calls[k].timestamp,
            ));
        }
        law_appends_in_call_order(prev, product_id, head);
        assert(states[n].appends_event(
            states[n + 1],
            calls[n].id@,
            product_id,
            calls[n].event_type@,
            calls[n].location@,
            calls[n].description@,
            calls[n].actor@,
            calls[n].timestamp,
        ));
        let e0 = states[0].events_of(product_id);
        let mid = states[n].events_of(product_id);
        let last = states[n + 1].events_of(product_id);
        assert(prev.last() == states[n]);
        assert(states.last() == states[n + 1]);
        assert(last == mid.push(last.last()));
        assert(last.subrange(0, e0.len() as int) =~= mid.subrange(0, e0.len() as int));
        assert forall|k: int| 0 <= k < calls.len() implies (#[trigger] last[e0.len() + k]).is_event(
            calls[k].id@,
            product_id,
            calls[k].event_type@,
            calls[k].location@,
            calls[k].description@,
            calls[k].actor@,
            calls[k].timestamp,
        ) by {
            if k < n {
                assert(head[k] == calls[k]);
                assert(last[e0.len() + k] == mid[e0.len() + k]);
            }
        }
    }
}

/// An event for an unregistered product id is recorded and keeps its
/// identifier, while the id stays unregistered.
pub proof fn law_orphan_event_is_recorded(
    before: Store,
    after: Store,
    event_id: Seq<char>,
    product_id: Seq<char>,
    event_type: Seq<char>,
    location: Seq<char>,
    description: Seq<char>,
    actor: Seq<char>,
    now: u64,
)
    requires
        before.appends_event(
            after,
            event_id,
            product_id,
            event_type,
            location,
            description,
            actor,
            now,
        ),
        !before.product_map().contains_key(product_id),
    ensures
        event_id == id_of("event_"@, now as nat),
        !after.product_map().contains_key(product_id),
        after.product_map() == before.product_map(),
        after.events_of(product_id).len() == before.events_of(product_id).len() + 1,
        after.events_of(product_id).last().id@ == event_id,
{
}

/// A listing that holds each record of a registry exactly once holds, as a
/// set, exactly the registered records.
pub proof fn law_listing_is_the_registered_set<T: Keyed>(
    listing: Seq<T>,
    registered: Map<Seq<char>, T>,
)
    requires
        lists_exactly(listing, registered),
    ensures
        listing.to_set() == registered.values(),
        listing.len() == registered.dom().len(),
{
    assert forall|x: T| listing.to_set().contains(x) <==> registered.values().contains(x) by {
        if listing.to_set().contains(x) {
            let i = choose|i: int| 0 <= i < listing.len() && listing[i] == x;
            lemma_keyed_map_index(listing, i);
        }
        if registered.values().contains(x) {
            let k = choose|k: Seq<char>| #[trigger] registered.dom().contains(k) && registered[k] == x;
            assert(has_key(listing, k));
            let i = choose|i: int| 0 <= i < listing.len() && #[trigger] listing[i].key() == k;
            lemma_keyed_map_index(listing, i);
            assert(listing.to_set().contains(listing[i]));
        }
    }
    assert(listing.to_set() =~= registered.values());
    lemma_listing_len(listing);
}

proof fn lemma_listing_len<T: Keyed>(listing: Seq<T>)
    requires
        crate::registry::keys_distinct(listing),
    ensures
        keyed_map(listing).dom().finite(),
        listing.len() == keyed_map(listing).dom().len(),
    decreases listing.len(),
{
    if listing.len() == 0 {
        assert(keyed_map(listing).dom() =~= Set::<Seq<char>>::empty());
    } else {
        let s = listing.drop_last();
        let x = listing.last();
        assert(crate::registry::keys_distinct(s));
        assert(!has_key(s, x.key())) by {
            if has_key(s, x.key()) {
                let i = choose|i: int| 0 <= i < s.len() && #[trigger] s[i].key() == x.key();
                assert(s[i] == listing[i]);
                assert(listing[i].key() == listing[listing.len() - 1].key());
            }
        }
        crate::registry::lemma_keyed_map_push(s, x);
        assert(s.push(x) =~= listing);
        lemma_listing_len(s);
        assert(keyed_map(listing).dom() =~= keyed_map(s).dom().insert(x.key()));
        assert(!keyed_map(s).dom().contains(x.key()));
    }
}

/// Two products registered at distinct times are both present afterwards,
/// whichever was registered first, each as registration made it.
pub proof fn law_registration_order_irrelevant(
    start: Store,
    a_first: Store,
    a_then_b: Store,
    b_first: Store,
    b_then_a: Store,
    a: Product,
    b: Product,
)
    requires
        a.created_at != b.created_at,
        start.registers_product(a_first, a.id@, a.name@, a.description@, a.manufacturer@, a.created_at),
        a_first.registers_product(a_then_b, b.id@, b.name@, b.description@, b.manufacturer@, b.created_at),
        start.registers_product(b_first, b.id@, b.name@, b.description@, b.manufacturer@, b.created_at),
        b_first.registers_product(b_then_a, a.id@, a.name@, a.description@, a.manufacturer@, a.created_at),
    ensures
        a.id@ != b.id@,
        a_then_b.product_map().dom() == b_then_a.product_map().dom(),
        a_then_b.product_map().dom() == start.product_map().dom().insert(a.id@).insert(b.id@),
        forall|k: Seq<char>|
            #[trigger] start.product_map().contains_key(k) && k != a.id@ && k != b.id@
                ==> a_then_b.product_map()[k] == start.product_map()[k] && b_then_a.product_map()[k]
                == start.product_map()[k],
        a_then_b.product_map()[a.id@].is_new(a.id@, a.name@, a.description@, a.manufacturer@, a.created_at),
        b_then_a.product_map()[a.id@].is_new(a.id@, a.name@, a.description@, a.manufacturer@, a.created_at),
        a_then_b.product_map()[b.id@].is_new(b.id@, b.name@, b.description@, b.manufacturer@, b.created_at),
        b_then_a.product_map()[b.id@].is_new(b.id@, b.name@, b.description@, b.manufacturer@, b.created_at),
{
    if a.id@ == b.id@ {
        lemma_id_injective("prod_"@, a.created_at as nat, b.created_at as nat);
    }
    assert(a_then_b.product_map().dom() =~= b_then_a.product_map().dom());
    assert(a_then_b.product_map().dom() =~= start.product_map().dom().insert(a.id@).insert(b.id@));
}

} // verus!
