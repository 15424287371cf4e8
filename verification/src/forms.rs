//! The URL-encoded form bodies the engine submits: clearing foreign
//! cart items, adding the target item, and the order submission form
//! built from the captured cart.

use vstd::prelude::*;
use crate::date::{spec_parse_date, spec_reformat, reformat_delivery_date};
use crate::digits::{spec_dec, u64_to_dec, usize_to_dec};
use crate::models::{Basket, Calendar};

verus! {

/// The views of a list of form pairs.
pub open spec fn pairs_view(s: Seq<(String, String)>) -> Seq<(Seq<char>, Seq<char>)> {
    s.map_values(|p: (String, String)| (p.0@, p.1@))
}

/// Appending a pair appends its views.
pub proof fn lemma_pairs_view_push(s: Seq<(String, String)>, p: (String, String))
    ensures
        pairs_view(s.push(p)) == pairs_view(s).push((p.0@, p.1@)),
{
    assert(pairs_view(s.push(p)) =~= pairs_view(s).push((p.0@, p.1@)));
}

/// The form that clears foreign cart items: one `chrtIds[i]` entry per
/// item.
pub open spec fn chrt_form_spec(items: Seq<u64>) -> Seq<(Seq<char>, Seq<char>)>
    decreases items.len(),
{
    if items.len() == 0 {
        Seq::empty()
    } else {
        chrt_form_spec(items.drop_last()) + seq![
            (
                "chrtIds["@ + spec_dec((items.len() - 1) as nat) + "]"@,
                spec_dec(items.last() as nat),
            ),
        ]
    }
}

/// Builds the clear-cart form for the given foreign items.
pub fn chrt_form(items: &Vec<u64>) -> (r: Vec<(String, String)>)
    ensures
        pairs_view(r@) == chrt_form_spec(items@),
{
    let mut r: Vec<(String, String)> = Vec::new();
    let mut i: usize = 0;
    while i < items.len()
        invariant
            i <= items@.len(),
            pairs_view(r@) == chrt_form_spec(items@.subrange(0, i as int)),
        decreases items@.len() - i,
    {
        let name = String::from_str("chrtIds[").concat(usize_to_dec(i).as_str()).concat("]");
        let value = u64_to_dec(items[i]);
        r.push((name, value));
        proof {
            assert(items@.subrange(0, i + 1 as int).drop_last() =~= items@.subrange(0, i as int));
            assert(pairs_view(r@) =~~= chrt_form_spec(items@.subrange(0, i + 1 as int)));
        }
        i = i + 1;
    }
    proof {
        assert(items@.subrange(0, items@.len() as int) =~= items@);
    }
    r
}

/// The add-to-cart form: the variant, the size, and a quantity of one.
pub open spec fn add_form_spec(vid: u64, sid: u64) -> Seq<(Seq<char>, Seq<char>)> {
    seq![
        ("cod1S"@, spec_dec(vid as nat)),
        ("characteristicId"@, spec_dec(sid as nat)),
        ("quantity"@, "1"@),
    ]
}

/// Builds the add-to-cart form for one variant and size.
pub fn add_form(vid: u64, sid: u64) -> (r: Vec<(String, String)>)
    ensures
        pairs_view(r@) == add_form_spec(vid, sid),
{
    let mut r: Vec<(String, String)> = Vec::new();
    r.push((String::from_str("cod1S"), u64_to_dec(vid)));
    r.push((String::from_str("characteristicId"), u64_to_dec(sid)));
    r.push((String::from_str("quantity"), String::from_str("1")));
    proof {
        assert(pairs_view(r@) =~~= add_form_spec(vid, sid));
    }
    r
}

/// The reformatted delivery date of a calendar (meaningful when the
/// date parses).
pub open spec fn date_out(s: Seq<char>) -> Seq<char> {
    match spec_parse_date(s) {
        Some(mdy) => spec_reformat(mdy.0, mdy.1, mdy.2),
        None => Seq::empty(),
    }
}

/// The store entries of one calendar: an index entry and a store-id
/// entry per store.
pub open spec fn stores_form_spec(ids: Seq<u64>) -> Seq<(Seq<char>, Seq<char>)>
    decreases ids.len(),
{
    if ids.len() == 0 {
        Seq::empty()
    } else {
        stores_form_spec(ids.drop_last()) + seq![
            ("orderDetails.DeliveryDts[0].StoreIds.Index"@, spec_dec((ids.len() - 1) as nat)),
            (
                "orderDetails.DeliveryDts[0].StoreIds["@ + spec_dec((ids.len() - 1) as nat)
                    + "]"@,
                spec_dec(ids.last() as nat),
            ),
        ]
    }
}

/// The entries of one delivery calendar: its index, its reformatted
/// date, its interval, and its stores.
pub open spec fn calendar_form_spec(c: Calendar, cid: int) -> Seq<(Seq<char>, Seq<char>)> {
    seq![
        ("orderDetails.DeliveryDts.Index"@, spec_dec(cid as nat)),
        (
            "orderDetails.DeliveryDts["@ + spec_dec(cid as nat) + "].Date"@,
            date_out(c.shipping_interval.delivery_date@),
        ),
        ("orderDetails.DeliveryDts[0].IntervalId"@, spec_dec(c.shipping_interval.id as nat)),
    ] + stores_form_spec(c.store_ids@)
}

/// The calendar entries of the first delivery way, in order.
pub open spec fn calendars_form_spec(cals: Seq<Calendar>) -> Seq<(Seq<char>, Seq<char>)>
    decreases cals.len(),
{
    if cals.len() == 0 {
        Seq::empty()
    } else {
        calendars_form_spec(cals.drop_last()) + calendar_form_spec(
            cals.last(),
            cals.len() - 1,
        )
    }
}

/// The order-line entries: an index entry, the characteristic, and the
/// include-in-order flag per basket item.
pub open spec fn items_form_spec(items: Seq<u64>) -> Seq<(Seq<char>, Seq<char>)>
    decreases items.len(),
{
    if items.len() == 0 {
        Seq::empty()
    } else {
        items_form_spec(items.drop_last()) + seq![
            ("orderDetails.UserBasketItems.Index"@, spec_dec((items.len() - 1) as nat)),
            (
                "orderDetails.UserBasketItems["@ + spec_dec((items.len() - 1) as nat)
                    + "].CharacteristicId"@,
                spec_dec(items.last() as nat),
            ),
            (
                "orderDetails.IncludeInOrder["@ + spec_dec((items.len() - 1) as nat) + "]"@,
                spec_dec(items.last() as nat),
            ),
        ]
    }
}

/// The cart can be turned into an order form: it offers a delivery way
/// and every calendar's delivery date parses.
pub open spec fn submit_form_ok(cart: Basket) -> bool {
    &&& cart.delivery_ways@.len() > 0
    &&& forall|i: int|
        0 <= i < cart.delivery_ways@[0].calendars@.len() ==> spec_parse_date(
            #[trigger] cart.delivery_ways@[0].calendars@[i].shipping_interval.delivery_date@,
        ) is Some
}

/// The order submission form: the delivery selection, the calendars of
/// the first delivery way, the payment fields, and the order lines.
pub open spec fn submit_form_spec(cart: Basket) -> Seq<(Seq<char>, Seq<char>)> {
    seq![
        ("orderDetails.DeliveryPointId"@, spec_dec(cart.delivery_point.id as nat)),
        ("orderDetails.DeliveryWay"@, cart.delivery_way@),
        ("orderDetails.DeliveryPrice"@, Seq::<char>::empty()),
    ] + calendars_form_spec(cart.delivery_ways@[0].calendars@) + seq![
        ("orderDetails.GooglePayToken"@, "false"@),
        ("orderDetails.PaymentType.Id"@, cart.payment_type.id@),
        ("orderDetails.MaskedCardId"@, cart.payment_type.card@),
        ("orderDetails.SberPayPhone"@, Seq::<char>::empty()),
        ("orderDetails.AgreePublicOffert"@, "true"@),
        ("orderDetails.TotalPrice"@, spec_dec(cart.total_price as nat)),
    ] + items_form_spec(cart.order_items@)
}

/// Checks that the cart can be turned into an order form.
pub fn check_cart_form(cart: &Basket) -> (r: bool)
    ensures
        r == submit_form_ok(*cart),
{
    if cart.delivery_ways.len() == 0 {
        return false;
    }
    let cals = &cart.delivery_ways[0].calendars;
    let mut i: usize = 0;
    while i < cals.len()
        invariant
            cals == &cart.delivery_ways@[0].calendars,
            cart.delivery_ways@.len() > 0,
            i <= cals@.len(),
            forall|k: int|
                0 <= k < i ==> spec_parse_date(
                    #[trigger] cals@[k].shipping_interval.delivery_date@,
                ) is Some,
        decreases cals@.len() - i,
    {
        match reformat_delivery_date(cals[i].shipping_interval.delivery_date.as_str()) {
            Some(_) => {},
            None => {
                return false;
            },
        }
        i = i + 1;
    }
    true
}

/// Appends the store entries of one calendar.
fn push_stores(r: &mut Vec<(String, String)>, ids: &Vec<u64>)
    ensures
        pairs_view(final(r)@) == pairs_view(old(r)@) + stores_form_spec(ids@),
{
    let mut j: usize = 0;
    while j < ids.len()
        invariant
            j <= ids@.len(),
            pairs_view(r@) == pairs_view(old(r)@) + stores_form_spec(ids@.subrange(0, j as int)),
        decreases ids@.len() - j,
    {
        let e1 = (String::from_str("orderDetails.DeliveryDts[0].StoreIds.Index"), usize_to_dec(j));
        let name = String::from_str("orderDetails.DeliveryDts[0].StoreIds[").concat(
            usize_to_dec(j).as_str(),
        ).concat("]");
        let e2 = (name, u64_to_dec(ids[j]));
        proof {
            lemma_pairs_view_push(r@, e1);
            lemma_pairs_view_push(r@.push(e1), e2);
            assert(ids@.subrange(0, j + 1 as int).drop_last() =~= ids@.subrange(0, j as int));
        }
        r.push(e1);
        r.push(e2);
        proof {
            assert(pairs_view(r@) =~= pairs_view(old(r)@) + stores_form_spec(
                ids@.subrange(0, j + 1 as int),
            ));
        }
        j = j + 1;
    }
    proof {
        assert(ids@.subrange(0, ids@.len() as int) =~= ids@);
    }
}

/// Appends the entries of one delivery calendar.
fn push_calendar(r: &mut Vec<(String, String)>, c: &Calendar, cid: usize)
    requires
        spec_parse_date(c.shipping_interval.delivery_date@) is Some,
    ensures
        pairs_view(final(r)@) == pairs_view(old(r)@) + calendar_form_spec(*c, cid as int),
{
    r.push((String::from_str("orderDetails.DeliveryDts.Index"), usize_to_dec(cid)));
    let date = match reformat_delivery_date(c.shipping_interval.delivery_date.as_str()) {
        Some(d) => d,
        None => {
            proof {
                assert(false);
            }
            String::new()
        },
    };
    let name = String::from_str("orderDetails.DeliveryDts[").concat(
        usize_to_dec(cid).as_str(),
    ).concat("].Date");
    r.push((name, date));
    r.push((
        String::from_str("orderDetails.DeliveryDts[0].IntervalId"),
        u64_to_dec(c.shipping_interval.id),
    ));
    proof {
        assert(pairs_view(r@) =~~= pairs_view(old(r)@) + seq![
            ("orderDetails.DeliveryDts.Index"@, spec_dec(cid as nat)),
            (
                "orderDetails.DeliveryDts["@ + spec_dec(cid as nat) + "].Date"@,
                date_out(c.shipping_interval.delivery_date@),
            ),
            (
                "orderDetails.DeliveryDts[0].IntervalId"@,
                spec_dec(c.shipping_interval.id as nat),
            ),
        ]);
    }
    push_stores(r, &c.store_ids);
    proof {
        assert(pairs_view(r@) =~~= pairs_view(old(r)@) + calendar_form_spec(*c, cid as int));
    }
}

/// Builds the order submission form from the captured cart.
pub fn build_submit_form(cart: &Basket) -> (r: Vec<(String, String)>)
    requires
        submit_form_ok(*cart),
    ensures
        pairs_view(r@) == submit_form_spec(*cart),
{
    let ghost head = seq![
        ("orderDetails.DeliveryPointId"@, spec_dec(cart.delivery_point.id as nat)),
        ("orderDetails.DeliveryWay"@, cart.delivery_way@),
        ("orderDetails.DeliveryPrice"@, Seq::<char>::empty()),
    ];
    let mut r: Vec<(String, String)> = Vec::new();
    r.push((
        String::from_str("orderDetails.DeliveryPointId"),
        u64_to_dec(cart.delivery_point.id),
    ));
    r.push((String::from_str("orderDetails.DeliveryWay"), cart.delivery_way.clone()));
    r.push((String::from_str("orderDetails.DeliveryPrice"), String::new()));
    proof {
        assert(pairs_view(r@) =~~= head);
    }
    let cals = &cart.delivery_ways[0].calendars;
    let mut i: usize = 0;
    while i < cals.len()
        invariant
            cals == &cart.delivery_ways@[0].calendars,
            cart.delivery_ways@.len() > 0,
            submit_form_ok(*cart),
            i <= cals@.len(),
            pairs_view(r@) == head + calendars_form_spec(cals@.subrange(0, i as int)),
        decreases cals@.len() - i,
    {
        push_calendar(&mut r, &cals[i], i);
        proof {
            assert(cals@.subrange(0, i + 1 as int).drop_last() =~= cals@.subrange(0, i as int));
            assert(pairs_view(r@) =~~= head + calendars_form_spec(cals@.subrange(0, i + 1 as int)));
        }
        i = i + 1;
    }
    proof {
        assert(cals@.subrange(0, cals@.len() as int) =~= cals@);
    }
    let ghost after_cals = head + calendars_form_spec(cart.delivery_ways@[0].calendars@);
    r.push((String::from_str("orderDetails.GooglePayToken"), crate::digits::bool_to_dec(false)));
    r.push((String::from_str("orderDetails.PaymentType.Id"), cart.payment_type.id.clone()));
    r.push((String::from_str("orderDetails.MaskedCardId"), cart.payment_type.card.clone()));
    r.push((String::from_str("orderDetails.SberPayPhone"), String::new()));
    r.push((String::from_str("orderDetails.AgreePublicOffert"), crate::digits::bool_to_dec(true)));
    r.push((String::from_str("orderDetails.TotalPrice"), u64_to_dec(cart.total_price)));
    let ghost after_mid = after_cals + seq![
        ("orderDetails.GooglePayToken"@, "false"@),
        ("orderDetails.PaymentType.Id"@, cart.payment_type.id@),
        ("orderDetails.MaskedCardId"@, cart.payment_type.card@),
        ("orderDetails.SberPayPhone"@, Seq::<char>::empty()),
        ("orderDetails.AgreePublicOffert"@, "true"@),
        ("orderDetails.TotalPrice"@, spec_dec(cart.total_price as nat)),
    ];
    proof {
        assert(pairs_view(r@) =~~= after_mid);
    }
    let items = &cart.order_items;
    let mut k: usize = 0;
    while k < items.len()
        invariant
            items == &cart.order_items,
            k <= items@.len(),
            pairs_view(r@) == after_mid + items_form_spec(items@.subrange(0, k as int)),
        decreases items@.len() - k,
    {
        let e1 = (String::from_str("orderDetails.UserBasketItems.Index"), usize_to_dec(k));
        let name1 = String::from_str("orderDetails.UserBasketItems[").concat(
            usize_to_dec(k).as_str(),
        ).concat("].CharacteristicId");
        let e2 = (name1, u64_to_dec(items[k]));
        let name2 = String::from_str("orderDetails.IncludeInOrder[").concat(
            usize_to_dec(k).as_str(),
        ).concat("]");
        let e3 = (name2, u64_to_dec(items[k]));
        proof {
            lemma_pairs_view_push(r@, e1);
            lemma_pairs_view_push(r@.push(e1), e2);
            lemma_pairs_view_push(r@.push(e1).push(e2), e3);
            assert(items@.subrange(0, k + 1 as int).drop_last() =~= items@.subrange(0, k as int));
        }
        r.push(e1);
        r.push(e2);
        r.push(e3);
        proof {
            assert(pairs_view(r@) =~= after_mid + items_form_spec(
                items@.subrange(0, k + 1 as int),
            ));
        }
        k = k + 1;
    }
    proof {
        assert(items@.subrange(0, items@.len() as int) =~= items@);
        assert(pairs_view(r@) =~~= submit_form_spec(*cart));
    }
    r
}

} // verus!
