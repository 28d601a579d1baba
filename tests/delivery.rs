use gateway::delivery::{
    AvailablePackages, AvailablePackagesOutput, Measurements, NewInternationalShippingProductsInput,
    NewLocalShippingProductsInput, NewPickupsInput, NewShipping, NewShippingEnrichedInput, NewShippingInput,
    Pickups, Products, Shipping, ShippingOutput, ShippingProducts, ShippingVariant,
};

fn product(id: i32, package: i32, variant: ShippingVariant, price: Option<f64>) -> Products<f64> {
    Products {
        id,
        base_product_id: 7,
        store_id: 3,
        company_package_id: package,
        price,
        currency: "USD".to_string(),
        deliveries_to: vec!["RUS".to_string()],
        shipping: variant,
    }
}

#[test]
fn new_shipping_lists_local_then_international() {
    let input = NewShippingEnrichedInput {
        shipping: NewShippingInput {
            client_mutation_id: "m".to_string(),
            local: vec![
                NewLocalShippingProductsInput { company_package_id: 1, price: Some(5.0) },
                NewLocalShippingProductsInput { company_package_id: 2, price: None },
            ],
            international: vec![NewInternationalShippingProductsInput {
                company_package_id: 3,
                price: Some(20.5),
                deliveries_to: vec!["USA".to_string(), "DEU".to_string()],
            }],
            pickup: Some(NewPickupsInput { pickup: true, price: Some(1.0) }),
            base_product_id: 7,
            store_id: 3,
        },
        delivery_from: "RUS".to_string(),
        local_delivery_to: "RUS".to_string(),
        measurements: Measurements { volume_cubic_cm: 100, weight_g: 250 },
        base_product_currency: "RUB".to_string(),
    };
    let s = NewShipping::from_enriched(input);
    assert_eq!(s.items.len(), 3);
    assert_eq!(s.items[0].company_package_id, 1);
    assert_eq!(s.items[0].shipping, ShippingVariant::Local);
    assert_eq!(s.items[0].deliveries_to, vec!["RUS".to_string()]);
    assert_eq!(s.items[0].price, Some(5.0));
    assert_eq!(s.items[1].price, None);
    assert_eq!(s.items[2].company_package_id, 3);
    assert_eq!(s.items[2].shipping, ShippingVariant::International);
    assert_eq!(s.items[2].deliveries_to, vec!["USA".to_string(), "DEU".to_string()]);
    assert_eq!(s.items[2].currency, "RUB");
    assert_eq!(s.items[2].measurements, Measurements { volume_cubic_cm: 100, weight_g: 250 });
    let p = s.pickup.unwrap();
    assert!(p.pickup);
    assert_eq!((p.base_product_id, p.store_id, p.price), (7, 3, Some(1.0)));
}

#[test]
fn shipping_output_groups_by_variant() {
    let shipping: Shipping<f64, &str> = Shipping {
        items: vec![
            ShippingProducts { product: product(1, 10, ShippingVariant::International, Some(3.0)), deliveries_to: vec!["USA"] },
            ShippingProducts { product: product(2, 11, ShippingVariant::Local, None), deliveries_to: vec!["RUS"] },
            ShippingProducts { product: product(3, 12, ShippingVariant::International, None), deliveries_to: vec![] },
        ],
        pickup: Some(Pickups { id: 9, base_product_id: 7, store_id: 3, pickup: false, price: None }),
    };
    let out = ShippingOutput::from_shipping(shipping);
    assert_eq!(out.local.len(), 1);
    assert_eq!(out.local[0].company_package_id, 11);
    assert_eq!(out.international.len(), 2);
    assert_eq!(out.international[0].company_package_id, 10);
    assert_eq!(out.international[0].price, Some(3.0));
    assert_eq!(out.international[0].deliveries_to, vec!["USA"]);
    assert_eq!(out.international[1].company_package_id, 12);
    let p = out.pickup.unwrap();
    assert_eq!((p.id, p.pickup), (9, false));
}

#[test]
fn local_packages_are_also_international() {
    let pkg = |id: i32, local: bool| AvailablePackages {
        id,
        name: format!("package {}", id),
        logo: String::new(),
        deliveries_to: vec!["RUS".to_string()],
        currency: "USD".to_string(),
        local_available: local,
    };
    let out = AvailablePackagesOutput::from_packages(vec![pkg(1, true), pkg(2, false), pkg(3, true)]);
    let local: Vec<i32> = out.local.iter().map(|p| p.id).collect();
    let international: Vec<i32> = out.international.iter().map(|p| p.id).collect();
    assert_eq!(local, vec![1, 3]);
    assert_eq!(international, vec![1, 2, 3]);
    assert_eq!(out.local[1].name, "package 3");
    assert_eq!(out.local[1].deliveries_to, vec!["RUS".to_string()]);
    let copy = out.local[0].duplicate();
    assert_eq!((copy.id, copy.name, copy.currency, copy.local_available), (1, "package 1".to_string(), "USD".to_string(), true));
}
