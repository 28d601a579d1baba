use gateway::models::{
    EmailVerifyApplyToken,
    AddressInput, AttributeType, CreateAttributeInput, CreateCategoryInput, UpdateAttributeInput,
    UpdateAttributeValueInput, UpdateBaseProductInput, UpdateCategoryInput, UpdateWarehouse,
    UpdateWarehouseInput,
};
use gateway::schema::{PageInfoWarehouseProductSearch, Query, StaticNodeIds};
use gateway::warehouse::ValueContainer;

fn empty_address() -> AddressInput {
    AddressInput {
        country: None,
        administrative_area_level_1: None,
        administrative_area_level_2: None,
        locality: None,
        political: None,
        postal_code: None,
        route: None,
        street_number: None,
        value: None,
        place_id: None,
    }
}

#[test]
fn update_inputs_that_change_nothing() {
    let a = UpdateAttributeInput { client_mutation_id: "m".into(), id: "x".into(), name: None, meta_field: None };
    assert!(a.is_none());
    let v = UpdateAttributeValueInput {
        client_mutation_id: "m".into(),
        raw_attribute_id: 1,
        raw_id: 2,
        code: Some("red".into()),
        translations: None,
    };
    assert!(!v.is_none());
    let c = UpdateCategoryInput {
        client_mutation_id: "m".into(),
        id: "c".into(),
        name: None,
        meta_field: None,
        parent_id: None,
        level: Some(2),
    };
    assert!(!c.is_none());
    let b: UpdateBaseProductInput<f64> = UpdateBaseProductInput {
        client_mutation_id: "m".into(),
        id: "b".into(),
        name: None,
        short_description: None,
        long_description: None,
        seo_title: None,
        seo_description: None,
        currency_id: None,
        category_id: None,
        rating: None,
        slug: None,
        status: None,
    };
    assert!(b.is_none());
    let mut rated = b.clone();
    rated.rating = Some(4.5);
    assert!(!rated.is_none());
}

#[test]
fn warehouse_update_wraps_set_fields_only() {
    let mut address = empty_address();
    let w: UpdateWarehouseInput<(f64, f64)> = UpdateWarehouseInput {
        client_mutation_id: "m".into(),
        id: "w".into(),
        name: None,
        location: None,
        address_full: address.clone(),
        slug: None,
    };
    assert!(w.is_none());
    address.value = Some("Main st 1".into());
    let w = UpdateWarehouseInput { address_full: address, location: Some((1.0, 2.0)), ..w };
    assert!(!w.is_none());
    let u = UpdateWarehouse::from_input(w);
    assert_eq!(u.address, Some(ValueContainer { value: Some("Main st 1".to_string()) }));
    assert_eq!(u.location, Some(ValueContainer { value: Some((1.0, 2.0)) }));
    assert_eq!(u.name, None);
    assert_eq!(u.country, None);
    assert_eq!(ValueContainer::from(3), ValueContainer { value: Some(3) });
}

#[test]
fn fill_uuid_keeps_a_given_id() {
    let c = CreateCategoryInput {
        client_mutation_id: "m".into(),
        uuid: Some("given".into()),
        name: vec![],
        meta_field: None,
        parent_id: 1,
    };
    assert_eq!(c.clone().fill_uuid(), c);
    let fresh = CreateCategoryInput { uuid: None, ..c }.fill_uuid();
    assert_eq!(fresh.uuid.unwrap().len(), 36);
    let a = CreateAttributeInput {
        uuid: String::new(),
        name: vec![],
        value_type: AttributeType::Str,
        meta_field: None,
        values: None,
    };
    let filled = a.fill_uuid();
    assert_eq!(filled.uuid.len(), 36);
    let kept = CreateAttributeInput { uuid: "keep".into(), ..filled }.fill_uuid();
    assert_eq!(kept.uuid, "keep");
}

#[test]
fn schema_constants() {
    assert_eq!(StaticNodeIds.viewer_id(), "0");
    assert_eq!(StaticNodeIds.query_id(), "1");
    assert_eq!(Query.api_version(), "1.0");
}

#[test]
fn total_pages_round_up() {
    assert_eq!(PageInfoWarehouseProductSearch::<u8>::new(10, 1, 3, None).total_pages, 4);
    assert_eq!(PageInfoWarehouseProductSearch::<u8>::new(9, 2, 3, None).total_pages, 3);
    assert_eq!(PageInfoWarehouseProductSearch::<u8>::new(0, 1, 3, None).total_pages, 0);
    assert_eq!(PageInfoWarehouseProductSearch::<u8>::new(5, 1, 0, None).total_pages, 0);
    let p = PageInfoWarehouseProductSearch::new(7, 2, 5, Some("name: lamp"));
    assert_eq!((p.total_pages, p.current_page, p.page_items_count), (2, 2, 5));
    assert_eq!(p.search_term_options, Some("name: lamp"));
}

#[test]
fn verify_token_carries_its_user() {
    let t = EmailVerifyApplyToken { user: ("u", 7), token: "tok".to_string() };
    assert_eq!(t.clone(), t);
    assert_eq!(t.user.1, 7);
}
