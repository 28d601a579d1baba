//! Shipping records: the request that registers a product's shipping options, and the
//! regrouping of what the delivery backend answers. Prices and countries are carried,
//! never read, so their representation is the caller's.
use vstd::prelude::*;

verus! {

#[derive(Clone, Copy, Debug, PartialEq, Eq, Structural)]
pub enum ShippingVariant {
    Local,
    International,
}

#[derive(Clone, Copy, Debug, PartialEq, Eq, Structural)]
pub struct Measurements {
    pub volume_cubic_cm: u32,
    pub weight_g: u32,
}

pub struct NewLocalShippingProductsInput<Price> {
    pub company_package_id: i32,
    pub price: Option<Price>,
}

pub struct NewInternationalShippingProductsInput<Price> {
    pub company_package_id: i32,
    pub price: Option<Price>,
    /// Destination country codes.
    pub deliveries_to: Vec<String>,
}

pub struct NewPickupsInput<Price> {
    pub pickup: bool,
    pub price: Option<Price>,
}

pub struct NewShippingInput<Price> {
    pub client_mutation_id: String,
    pub local: Vec<NewLocalShippingProductsInput<Price>>,
    pub international: Vec<NewInternationalShippingProductsInput<Price>>,
    pub pickup: Option<NewPickupsInput<Price>>,
    pub base_product_id: i32,
    pub store_id: i32,
}

/// A shipping input completed with what the gateway looked up about the product.
pub struct NewShippingEnrichedInput<Price> {
    pub shipping: NewShippingInput<Price>,
    pub delivery_from: String,
    pub local_delivery_to: String,
    pub measurements: Measurements,
    pub base_product_currency: String,
}

pub struct NewProducts<Price> {
    pub base_product_id: i32,
    pub store_id: i32,
    pub company_package_id: i32,
    pub price: Option<Price>,
    pub currency: String,
    pub measurements: Measurements,
    pub delivery_from: String,
    pub deliveries_to: Vec<String>,
    pub shipping: ShippingVariant,
}

pub struct NewPickups<Price> {
    pub base_product_id: i32,
    pub store_id: i32,
    pub pickup: bool,
    pub price: Option<Price>,
}

/// The shipping options of a product, as the delivery backend registers them.
pub struct NewShipping<Price> {
    pub items: Vec<NewProducts<Price>>,
    pub pickup: Option<NewPickups<Price>>,
}

pub struct Products<Price> {
    pub id: i32,
    pub base_product_id: i32,
    pub store_id: i32,
    pub company_package_id: i32,
    pub price: Option<Price>,
    pub currency: String,
    pub deliveries_to: Vec<String>,
    pub shipping: ShippingVariant,
}

pub struct ShippingProducts<Price, Country> {
    pub product: Products<Price>,
    pub deliveries_to: Vec<Country>,
}

pub struct Pickups<Price> {
    pub id: i32,
    pub base_product_id: i32,
    pub store_id: i32,
    pub pickup: bool,
    pub price: Option<Price>,
}

/// The shipping options of a product, as the delivery backend answers them.
pub struct Shipping<Price, Country> {
    pub items: Vec<ShippingProducts<Price, Country>>,
    pub pickup: Option<Pickups<Price>>,
}

pub struct LocalShippingProducts<Price, Country> {
    pub company_package_id: i32,
    pub price: Option<Price>,
    pub deliveries_to: Vec<Country>,
}

pub struct InternationalShippingProducts<Price, Country> {
    pub company_package_id: i32,
    pub price: Option<Price>,
    pub deliveries_to: Vec<Country>,
}

pub struct PickupsOutput<Price> {
    pub id: i32,
    pub pickup: bool,
    pub price: Option<Price>,
}

/// The shipping options of a product, grouped for the client.
pub struct ShippingOutput<Price, Country> {
    pub local: Vec<LocalShippingProducts<Price, Country>>,
    pub international: Vec<InternationalShippingProducts<Price, Country>>,
    pub pickup: Option<PickupsOutput<Price>>,
}

pub struct AvailablePackages {
    pub id: i32,
    pub name: String,
    pub logo: String,
    /// Destination country codes.
    pub deliveries_to: Vec<String>,
    pub currency: String,
    pub local_available: bool,
}

/// Packages that can deliver a product, grouped for the client.
pub struct AvailablePackagesOutput {
    pub local: Vec<AvailablePackages>,
    pub international: Vec<AvailablePackages>,
}

/// Two packages hold the same data.
pub open spec fn same_package(a: AvailablePackages, b: AvailablePackages) -> bool {
    &&& a.id == b.id
    &&& a.name == b.name
    &&& a.logo == b.logo
    &&& a.deliveries_to@ == b.deliveries_to@
    &&& a.currency == b.currency
    &&& a.local_available == b.local_available
}

fn copy_strings(v: &Vec<String>) -> (r: Vec<String>)
    ensures
        r@ == v@,
{
    let mut r: Vec<String> = Vec::new();
    let mut k: usize = 0;
    while k < v.len()
        invariant
            k <= v@.len(),
            r@ == v@.subrange(0, k as int),
        decreases v@.len() - k,
    {
        r.push(v[k].clone());
        k = k + 1;
        assert(r@ =~= v@.subrange(0, k as int));
    }
    assert(v@.subrange(0, v@.len() as int) =~= v@);
    r
}

impl AvailablePackages {
    /// A second package with the same data.
    pub fn duplicate(&self) -> (r: Self)
        ensures
            same_package(r, *self),
    {
        AvailablePackages {
            id: self.id,
            name: self.name.clone(),
            logo: self.logo.clone(),
            deliveries_to: copy_strings(&self.deliveries_to),
            currency: self.currency.clone(),
            local_available: self.local_available,
        }
    }
}

/// A package that can deliver a product to the caller, with its price.
pub struct AvailablePackageForUser<Price> {
    pub id: i32,
    pub shipping_id: i32,
    pub name: String,
    pub logo: String,
    pub price: Price,
    pub currency: String,
    pub base_product_id: i32,
    pub store_id: i32,
}

pub struct AvailableShippingForUser<Price> {
    pub packages: Vec<AvailablePackageForUser<Price>>,
    pub pickups: Option<PickupsOutput<Price>>,
}

/// An item of a new shipping made from a local option.
pub open spec fn is_local_item<P>(
    e: NewShippingEnrichedInput<P>,
    l: NewLocalShippingProductsInput<P>,
    p: NewProducts<P>,
) -> bool {
    &&& p.base_product_id == e.shipping.base_product_id
    &&& p.store_id == e.shipping.store_id
    &&& p.company_package_id == l.company_package_id
    &&& p.price == l.price
    &&& p.currency == e.base_product_currency
    &&& p.measurements == e.measurements
    &&& p.delivery_from == e.delivery_from
    &&& p.deliveries_to@ == seq![e.local_delivery_to]
    &&& p.shipping == ShippingVariant::Local
}

/// An item of a new shipping made from an international option.
pub open spec fn is_international_item<P>(
    e: NewShippingEnrichedInput<P>,
    i: NewInternationalShippingProductsInput<P>,
    p: NewProducts<P>,
) -> bool {
    &&& p.base_product_id == e.shipping.base_product_id
    &&& p.store_id == e.shipping.store_id
    &&& p.company_package_id == i.company_package_id
    &&& p.price == i.price
    &&& p.currency == e.base_product_currency
    &&& p.measurements == e.measurements
    &&& p.delivery_from == e.delivery_from
    &&& p.deliveries_to == i.deliveries_to
    &&& p.shipping == ShippingVariant::International
}

/// The local options of a backend answer, in order.
pub open spec fn local_of<P, C>(items: Seq<ShippingProducts<P, C>>) -> Seq<
    LocalShippingProducts<P, C>,
>
    decreases items.len(),
{
    if items.len() == 0 {
        Seq::empty()
    } else {
        let rest = local_of(items.drop_last());
        let it = items.last();
        if it.product.shipping == ShippingVariant::Local {
            rest.push(
                LocalShippingProducts {
                    company_package_id: it.product.company_package_id,
                    price: it.product.price,
                    deliveries_to: it.deliveries_to,
                },
            )
        } else {
            rest
        }
    }
}

/// The international options of a backend answer, in order.
pub open spec fn international_of<P, C>(items: Seq<ShippingProducts<P, C>>) -> Seq<
    InternationalShippingProducts<P, C>,
>
    decreases items.len(),
{
    if items.len() == 0 {
        Seq::empty()
    } else {
        let rest = international_of(items.drop_last());
        let it = items.last();
        if it.product.shipping == ShippingVariant::International {
            rest.push(
                InternationalShippingProducts {
                    company_package_id: it.product.company_package_id,
                    price: it.product.price,
                    deliveries_to: it.deliveries_to,
                },
            )
        } else {
            rest
        }
    }
}

/// The packages that can also deliver locally, in order.
pub open spec fn locally_available(ps: Seq<AvailablePackages>) -> Seq<AvailablePackages>
    decreases ps.len(),
{
    if ps.len() == 0 {
        Seq::empty()
    } else {
        let rest = locally_available(ps.drop_last());
        if ps.last().local_available {
            rest.push(ps.last())
        } else {
            rest
        }
    }
}

impl<P> NewShipping<P> {
    /// The items of a new shipping: one per local option, delivering to the local
    /// destination, then one per international option; and the pickup option, if any.
    pub fn from_enriched(e: NewShippingEnrichedInput<P>) -> (r: Self)
        ensures
            r.items@.len() == e.shipping.local@.len() + e.shipping.international@.len(),
            forall|k: int|
                0 <= k < e.shipping.local@.len() ==> is_local_item(
                    e,
                    e.shipping.local@[k],
                    #[trigger] r.items@[k],
                ),
            forall|k: int|
                0 <= k < e.shipping.international@.len() ==> is_international_item(
                    e,
                    e.shipping.international@[k],
                    #[trigger] r.items@[e.shipping.local@.len() + k],
                ),
            match e.shipping.pickup {
                None => r.pickup is None,
                Some(p) => r.pickup matches Some(q) && q.base_product_id == e.shipping.base_product_id
                    && q.store_id == e.shipping.store_id && q.pickup == p.pickup && q.price
                    == p.price,
            },
    {
        let ghost orig = e;
        let NewShippingEnrichedInput {
            shipping,
            delivery_from,
            local_delivery_to,
            measurements,
            base_product_currency,
        } = e;
        let NewShippingInput {
            client_mutation_id: _,
            local,
            international,
            pickup,
            base_product_id,
            store_id,
        } = shipping;
        let nl = local.len();
        let ni = international.len();
        let mut items: Vec<NewProducts<P>> = Vec::new();
        let mut local = local;
        let mut k: usize = 0;
        while k < nl
            invariant
                nl == orig.shipping.local@.len(),
                k <= nl,
                local@ == orig.shipping.local@.subrange(k as int, nl as int),
                items@.len() == k,
                base_product_id == orig.shipping.base_product_id,
                store_id == orig.shipping.store_id,
                delivery_from == orig.delivery_from,
                local_delivery_to == orig.local_delivery_to,
                measurements == orig.measurements,
                base_product_currency == orig.base_product_currency,
                forall|q: int|
                    0 <= q < k ==> is_local_item(orig, orig.shipping.local@[q], #[trigger] items@[q]),
            decreases nl - k,
        {
            let l = local.remove(0);
            let mut deliveries_to: Vec<String> = Vec::new();
            deliveries_to.push(local_delivery_to.clone());
            assert(deliveries_to@ =~= seq![orig.local_delivery_to]);
            items.push(
                NewProducts {
                    base_product_id,
                    store_id,
                    company_package_id: l.company_package_id,
                    price: l.price,
                    currency: base_product_currency.clone(),
                    measurements,
                    delivery_from: delivery_from.clone(),
                    deliveries_to,
                    shipping: ShippingVariant::Local,
                },
            );
            k = k + 1;
            assert(local@ =~= orig.shipping.local@.subrange(k as int, nl as int));
        }
        let mut international = international;
        let mut j: usize = 0;
        while j < ni
            invariant
                nl == orig.shipping.local@.len(),
                ni == orig.shipping.international@.len(),
                j <= ni,
                international@ == orig.shipping.international@.subrange(j as int, ni as int),
                items@.len() == nl + j,
                base_product_id == orig.shipping.base_product_id,
                store_id == orig.shipping.store_id,
                delivery_from == orig.delivery_from,
                measurements == orig.measurements,
                base_product_currency == orig.base_product_currency,
                forall|q: int|
                    0 <= q < nl ==> is_local_item(orig, orig.shipping.local@[q], #[trigger] items@[q]),
                forall|q: int|
                    0 <= q < j ==> is_international_item(
                        orig,
                        orig.shipping.international@[q],
                        #[trigger] items@[nl + q],
                    ),
            decreases ni - j,
        {
            let i = international.remove(0);
            items.push(
                NewProducts {
                    base_product_id,
                    store_id,
                    company_package_id: i.company_package_id,
                    price: i.price,
                    currency: base_product_currency.clone(),
                    measurements,
                    delivery_from: delivery_from.clone(),
                    deliveries_to: i.deliveries_to,
                    shipping: ShippingVariant::International,
                },
            );
            j = j + 1;
            assert(international@ =~= orig.shipping.international@.subrange(j as int, ni as int));
        }
        let pickup = match pickup {
            None => None,
            Some(p) => Some(NewPickups { base_product_id, store_id, pickup: p.pickup, price: p.price }),
        };
        NewShipping { items, pickup }
    }
}

impl<P, C> ShippingOutput<P, C> {
    /// Groups the backend's options into local and international ones, keeping their
    /// order, and carries the pickup option over.
    pub fn from_shipping(shipping: Shipping<P, C>) -> (r: Self)
        ensures
            r.local@ == local_of(shipping.items@),
            r.international@ == international_of(shipping.items@),
            match shipping.pickup {
                None => r.pickup is None,
                Some(p) => r.pickup == Some(PickupsOutput { id: p.id, pickup: p.pickup, price: p.price }),
            },
    {
        let ghost orig = shipping.items@;
        let Shipping { items, pickup } = shipping;
        let n = items.len();
        let mut items = items;
        let mut local: Vec<LocalShippingProducts<P, C>> = Vec::new();
        let mut international: Vec<InternationalShippingProducts<P, C>> = Vec::new();
        let mut k: usize = 0;
        while k < n
            invariant
                n == orig.len(),
                k <= n,
                items@ == orig.subrange(k as int, n as int),
                local@ == local_of(orig.subrange(0, k as int)),
                international@ == international_of(orig.subrange(0, k as int)),
            decreases n - k,
        {
            let item = items.remove(0);
            let ghost seen = orig.subrange(0, k + 1);
            assert(seen.drop_last() =~= orig.subrange(0, k as int));
            assert(seen.last() == item);
            let ShippingProducts { product, deliveries_to } = item;
            match product.shipping {
                ShippingVariant::International => {
                    international.push(
                        InternationalShippingProducts {
                            company_package_id: product.company_package_id,
                            price: product.price,
                            deliveries_to,
                        },
                    );
                },
                ShippingVariant::Local => {
                    local.push(
                        LocalShippingProducts {
                            company_package_id: product.company_package_id,
                            price: product.price,
                            deliveries_to,
                        },
                    );
                },
            }
            k = k + 1;
            assert(items@ =~= orig.subrange(k as int, n as int));
        }
        assert(orig.subrange(0, n as int) =~= orig);
        let pickup = match pickup {
            None => None,
            Some(p) => Some(PickupsOutput { id: p.id, pickup: p.pickup, price: p.price }),
        };
        ShippingOutput { local, international, pickup }
    }
}

impl AvailablePackagesOutput {
    /// Every package can deliver internationally; those that can also deliver locally are
    /// listed a second time, as local ones. Order is kept in both lists.
    pub fn from_packages(packages: Vec<AvailablePackages>) -> (r: Self)
        ensures
            r.international@ == packages@,
            r.local@.len() == locally_available(packages@).len(),
            forall|j: int|
                0 <= j < r.local@.len() ==> same_package(
                    #[trigger] r.local@[j],
                    locally_available(packages@)[j],
                ),
    {
        let ghost orig = packages@;
        let n = packages.len();
        let mut rest = packages;
        let mut local: Vec<AvailablePackages> = Vec::new();
        let mut international: Vec<AvailablePackages> = Vec::new();
        let mut k: usize = 0;
        while k < n
            invariant
                n == orig.len(),
                k <= n,
                rest@ == orig.subrange(k as int, n as int),
                international@ == orig.subrange(0, k as int),
                local@.len() == locally_available(orig.subrange(0, k as int)).len(),
                forall|j: int|
                    0 <= j < local@.len() ==> same_package(
                        #[trigger] local@[j],
                        locally_available(orig.subrange(0, k as int))[j],
                    ),
            decreases n - k,
        {
            let item = rest.remove(0);
            let ghost before = orig.subrange(0, k as int);
            let ghost seen = orig.subrange(0, k + 1);
            assert(seen.drop_last() =~= before);
            assert(seen.last() == item);
            if item.local_available {
                let copy = item.duplicate();
                local.push(copy);
                assert(locally_available(seen) == locally_available(before).push(item));
            } else {
                assert(locally_available(seen) == locally_available(before));
            }
            international.push(item);
            k = k + 1;
            assert(rest@ =~= orig.subrange(k as int, n as int));
            assert(international@ =~= orig.subrange(0, k as int));
        }
        assert(orig.subrange(0, n as int) =~= orig);
        AvailablePackagesOutput { local, international }
    }
}

} // verus!
