//! Data carried through a task: the site's response envelope, cart and
//! delivery records, product variants and sizes, and the webhook target.

use vstd::prelude::*;

verus! {

/// The webhook endpoint a task reports its outcome to.
#[derive(Debug, PartialEq)]
pub struct Webhook {
    pub id: u64,
    pub token: String,
}

impl Clone for Webhook {
    /// A copy with the same id and token.
    fn clone(&self) -> (r: Webhook)
        ensures
            r.id == self.id,
            r.token@ == self.token@,
    {
        Webhook { id: self.id, token: self.token.clone() }
    }
}

impl Default for Webhook {
    /// An unset webhook: id zero and an empty token.
    fn default() -> (r: Webhook)
        ensures
            r.id == 0,
            r.token@.len() == 0,
    {
        Webhook { id: 0, token: String::new() }
    }
}

/// The response envelope of the site's internal API: a result-state
/// code (zero on success, `-1` on failure) and a payload.
#[derive(Clone, Debug, PartialEq)]
pub struct ResponseResult {
    pub state: i64,
    pub value: ResponseValue,
}

/// The payload of a response envelope, whichever shape the endpoint
/// answered with.
#[derive(Clone, Debug, PartialEq)]
pub enum ResponseValue {
    Message(String),
    Value(Value),
    Order { url: String },
    Basket(Data),
    Empty,
}

impl Default for ResponseValue {
    /// A response with no payload.
    fn default() -> (r: ResponseValue)
        ensures
            r is Empty,
    {
        ResponseValue::Empty
    }
}

/// A `Value`-shaped payload: the data block plus the user record some
/// endpoints include.
#[derive(Clone, Debug, PartialEq)]
pub struct Value {
    pub data: Data,
    pub user: Option<User>,
}

/// The account holder's profile as the personal-cabinet endpoint
/// reports it.
#[derive(Clone, Debug, PartialEq)]
pub struct User {
    pub country: String,
    pub last_name: String,
    pub first_name: String,
    pub middle_name: String,
    pub phone: u64,
    pub phone_str: String,
    pub id: String,
}

/// The data block of a response: whichever of the known records the
/// endpoint filled in.
#[derive(Clone, Debug, PartialEq)]
pub struct Data {
    pub basket: Option<Basket>,
    pub basket_info: Option<BasketInfo>,
    pub product_card: Option<ProductCard>,
    pub variant: Option<Variant>,
}

/// The remote cart: payment selection, delivery options, the line
/// items, and the total to pay.
#[derive(Clone, Debug, PartialEq)]
pub struct Basket {
    pub payment_type: PaymentType,
    pub delivery_ways: Vec<DeliveryWay>,
    pub delivery_way: String,
    pub delivery_interval_str: Option<String>,
    pub delivery_point: DeliveryPoint,
    pub order_items: Vec<u64>,
    pub total_price: u64,
}

impl Default for Basket {
    /// An empty cart.
    fn default() -> (r: Basket)
        ensures
            r.payment_type.id@.len() == 0,
            r.payment_type.card@.len() == 0,
            r.delivery_ways@.len() == 0,
            r.delivery_way@.len() == 0,
            r.delivery_interval_str is None,
            r.delivery_point.id == 0,
            r.delivery_point.address@.len() == 0,
            r.order_items@.len() == 0,
            r.total_price == 0,
    {
        Basket {
            payment_type: PaymentType::default(),
            delivery_ways: Vec::new(),
            delivery_way: String::new(),
            delivery_interval_str: None,
            delivery_point: DeliveryPoint::default(),
            order_items: Vec::new(),
            total_price: 0,
        }
    }
}

/// The payment method the cart is set to: its identifier and the
/// masked card it charges.
#[derive(Clone, Debug, PartialEq)]
pub struct PaymentType {
    pub id: String,
    pub card: String,
}

impl Default for PaymentType {
    /// No payment method selected.
    fn default() -> (r: PaymentType)
        ensures
            r.id@.len() == 0,
            r.card@.len() == 0,
    {
        PaymentType { id: String::new(), card: String::new() }
    }
}

/// The short cart summary some endpoints answer with.
#[derive(Clone, Debug, PartialEq)]
pub struct BasketInfo {
    pub is_auth: bool,
    pub quantity: u64,
    pub events_count: u64,
}

/// The product being purchased, as far as a task needs it: its name.
#[derive(Debug, PartialEq)]
pub struct ProductCard {
    pub name: String,
}

impl Clone for ProductCard {
    /// A copy with the same name.
    fn clone(&self) -> (r: ProductCard)
        ensures
            r.name@ == self.name@,
    {
        ProductCard { name: self.name.clone() }
    }
}

/// One way the order can be delivered, with its calendar of slots.
#[derive(Clone, Debug, PartialEq)]
pub struct DeliveryWay {
    pub code: String,
    pub calendars: Vec<Calendar>,
}

/// One delivery slot: the stores that can serve it and its shipping
/// interval.
#[derive(Clone, Debug, PartialEq)]
pub struct Calendar {
    pub store_ids: Vec<u64>,
    pub shipping_interval: ShippingInterval,
}

/// A shipping interval: its identifier and its delivery date in
/// month/day/year form.
#[derive(Clone, Debug, PartialEq)]
pub struct ShippingInterval {
    pub id: u64,
    pub delivery_date: String,
}

impl Default for ShippingInterval {
    /// An unset shipping interval.
    fn default() -> (r: ShippingInterval)
        ensures
            r.id == 0,
            r.delivery_date@.len() == 0,
    {
        ShippingInterval { id: 0, delivery_date: String::new() }
    }
}

/// The delivery address the cart is set to.
#[derive(Clone, Debug, PartialEq)]
pub struct DeliveryPoint {
    pub id: u64,
    pub address: String,
}

impl Default for DeliveryPoint {
    /// No delivery address selected.
    fn default() -> (r: DeliveryPoint)
        ensures
            r.id == 0,
            r.address@.len() == 0,
    {
        DeliveryPoint { id: 0, address: String::new() }
    }
}

/// A product variant (colorway): its identifier, availability, and the
/// sizes it comes in.
#[derive(Debug, PartialEq)]
pub struct Variant {
    pub sold_out: bool,
    pub id: u64,
    pub name: Option<String>,
    pub sizes: Vec<Size>,
}

/// `a` and `b` are the same variant record.
pub open spec fn variant_eqv(a: Variant, b: Variant) -> bool {
    &&& a.sold_out == b.sold_out
    &&& a.id == b.id
    &&& (match (a.name, b.name) {
        (Some(x), Some(y)) => x@ == y@,
        (None, None) => true,
        _ => false,
    })
    &&& a.sizes@.len() == b.sizes@.len()
    &&& forall|i: int|
        0 <= i < a.sizes@.len() ==> size_eqv(#[trigger] a.sizes@[i], b.sizes@[i])
}

impl Clone for Variant {
    /// A copy of the same variant record, sizes included.
    fn clone(&self) -> (r: Variant)
        ensures
            variant_eqv(*self, r),
    {
        let mut sizes: Vec<Size> = Vec::new();
        let mut i: usize = 0;
        while i < self.sizes.len()
            invariant
                i <= self.sizes@.len(),
                sizes@.len() == i,
                forall|k: int|
                    0 <= k < i ==> size_eqv(#[trigger] self.sizes@[k], sizes@[k]),
            decreases self.sizes@.len() - i,
        {
            sizes.push(self.sizes[i].clone());
            i = i + 1;
        }
        Variant {
            sold_out: self.sold_out,
            id: self.id,
            name: match &self.name {
                Some(n) => Some(n.clone()),
                None => None,
            },
            sizes,
        }
    }
}

/// `t` is the tag of size `s`: same identifier and quantity, same name.
pub open spec fn tag_of(t: SizeTag, s: Size) -> bool {
    t.id == s.id && t.name@ == s.name@ && t.quantity == s.quantity
}

impl Variant {
    /// The tags of this variant's sizes, in order.
    pub fn sizes_tags(&self) -> (r: Vec<SizeTag>)
        ensures
            r@.len() == self.sizes@.len(),
            forall|i: int| 0 <= i < r@.len() ==> tag_of(#[trigger] r@[i], self.sizes@[i]),
    {
        let mut r: Vec<SizeTag> = Vec::new();
        let mut i: usize = 0;
        while i < self.sizes.len()
            invariant
                i <= self.sizes@.len(),
                r@.len() == i,
                forall|k: int| 0 <= k < i ==> tag_of(#[trigger] r@[k], self.sizes@[k]),
            decreases self.sizes@.len() - i,
        {
            r.push(self.sizes[i].as_tag());
            i = i + 1;
        }
        r
    }

    /// Looks a size up by its characteristic identifier.
    pub fn find_size(&self, id: u64) -> (r: Option<&Size>)
        ensures
            match spec_find_size(self.sizes@, id) {
                Some(v) => r matches Some(s) && *s == v,
                None => r is None,
            },
    {
        proof {
            assert(self.sizes@.skip(0) =~= self.sizes@);
        }
        let mut i: usize = 0;
        while i < self.sizes.len()
            invariant
                i <= self.sizes@.len(),
                spec_find_size(self.sizes@, id) == spec_find_size(
                    self.sizes@.skip(i as int),
                    id,
                ),
            decreases self.sizes@.len() - i,
        {
            proof {
                assert(self.sizes@.skip(i as int).drop_first() =~= self.sizes@.skip(i + 1));
                assert(self.sizes@.skip(i as int)[0] == self.sizes@[i as int]);
            }
            if self.sizes[i].id == id {
                return Some(&self.sizes[i]);
            }
            i = i + 1;
        }
        proof {
            assert(self.sizes@.skip(self.sizes@.len() as int) =~= Seq::<Size>::empty());
        }
        None
    }
}

/// The first size of the list whose identifier is `id`.
pub open spec fn spec_find_size(sizes: Seq<Size>, id: u64) -> Option<Size>
    decreases sizes.len(),
{
    if sizes.len() == 0 {
        Option::None
    } else if sizes.first().id == id {
        Option::Some(sizes.first())
    } else {
        spec_find_size(sizes.drop_first(), id)
    }
}

/// One size of a variant: its identifier, pricing, stock, and
/// availability.
#[derive(Debug, PartialEq)]
pub struct Size {
    pub id: u64,
    pub name: String,
    pub price: u64,
    pub sale_price: u64,
    pub quantity: u64,
    pub sold_out: bool,
}

/// `a` and `b` are the same size record.
pub open spec fn size_eqv(a: Size, b: Size) -> bool {
    &&& a.id == b.id
    &&& a.name@ == b.name@
    &&& a.price == b.price
    &&& a.sale_price == b.sale_price
    &&& a.quantity == b.quantity
    &&& a.sold_out == b.sold_out
}

impl Clone for Size {
    /// A copy of the same size record.
    fn clone(&self) -> (r: Size)
        ensures
            size_eqv(*self, r),
    {
        Size {
            id: self.id,
            name: self.name.clone(),
            price: self.price,
            sale_price: self.sale_price,
            quantity: self.quantity,
            sold_out: self.sold_out,
        }
    }
}

impl Size {
    /// The short tag of this size, as pickers display it.
    pub fn as_tag(&self) -> (r: SizeTag)
        ensures
            tag_of(r, *self),
    {
        SizeTag { id: self.id, name: self.name.clone(), quantity: self.quantity }
    }
}

/// A size reduced to what a picker shows: identifier, name, stock.
#[derive(Clone, Debug, PartialEq)]
pub struct SizeTag {
    pub id: u64,
    pub name: String,
    pub quantity: u64,
}

impl SizeTag {
    /// What `label` renders for this tag.
    pub open spec fn label_spec(self) -> Seq<char> {
        if self.quantity == 0 {
            "Size \""@ + self.name@ + "\" (Sold Out)"@
        } else {
            "Size \""@ + self.name@ + "\" (Q: "@ + crate::digits::spec_dec(
                self.quantity as nat,
            ) + ")"@
        }
    }

    /// The display label of this tag, marking a sold-out size.
    pub fn label(&self) -> (r: String)
        ensures
            r@ == self.label_spec(),
    {
        if self.quantity == 0 {
            String::from_str("Size \"").concat(self.name.as_str()).concat("\" (Sold Out)")
        } else {
            let q = crate::digits::u64_to_dec(self.quantity);
            String::from_str("Size \"").concat(self.name.as_str()).concat("\" (Q: ").concat(
                q.as_str(),
            ).concat(")")
        }
    }
}

/// The legacy size record of the earlier product schema, kept for
/// importing old task definitions.
#[derive(Clone, Debug, PartialEq)]
pub struct SizeOld {
    pub is_last: bool,
    pub name: String,
    pub so: String,
    pub sv: String,
    pub option: String,
}

impl SizeOld {
    /// The display label: the size name, marking the last pair in
    /// stock.
    pub fn label(&self) -> (r: String)
        ensures
            self.is_last ==> r@ == self.name@ + " (last pair)"@,
            !self.is_last ==> r@ == self.name@,
    {
        if self.is_last {
            self.name.clone().concat(" (last pair)")
        } else {
            self.name.clone()
        }
    }
}

} // verus!
