use vinted_poller::db::Categories;
use vinted_poller::db::Condition;
use vinted_poller::db::ItemsFilters;
use vinted_poller::db::QueryValue;
use vinted_poller::db::Sizes;

#[test]
fn default_filter_produces_an_empty_query() {
    let filters = ItemsFilters::default();
    assert!(filters.to_query().is_empty());
}

#[test]
fn price_and_text_give_exactly_two_parameters() {
    let filters = ItemsFilters {
        search_text: Some("sandro".to_string()),
        price_from: Some(10),
        ..Default::default()
    };
    let query = filters.to_query();
    assert_eq!(query.len(), 2);
    assert_eq!(query[0].0, "search_text");
    assert!(matches!(&query[0].1, QueryValue::Text(t) if t == "sandro"));
    assert_eq!(query[1].0, "price_from");
    assert!(matches!(query[1].1, QueryValue::Number(10)));
}

#[test]
fn sizes_repeat_one_parameter_per_id_in_order() {
    let filters = ItemsFilters {
        sizes: Some(vec![206, 207]),
        ..Default::default()
    };
    let query = filters.to_query();
    assert_eq!(query.len(), 2);
    assert_eq!(query[0].0, "size_id[]");
    assert!(matches!(query[0].1, QueryValue::Number(206)));
    assert_eq!(query[1].0, "size_id[]");
    assert!(matches!(query[1].1, QueryValue::Number(207)));
}

#[test]
fn every_set_field_appears_in_the_fixed_order() {
    let filters = ItemsFilters {
        search_text: Some("coat".to_string()),
        sizes: Some(vec![208]),
        categories: Some(vec![2050]),
        conditions: Some(vec![1, 6]),
        brands: Some(vec![42]),
        price_from: Some(5),
        price_to: Some(80),
    };
    let query = filters.to_query();
    let keys: Vec<&str> = query.iter().map(|p| p.0.as_str()).collect();
    assert_eq!(
        keys,
        vec![
            "search_text",
            "size_id[]",
            "catalog[]",
            "status_ids[]",
            "status_ids[]",
            "brand_id[]",
            "price_from",
            "price_to",
        ]
    );
    assert!(matches!(query[7].1, QueryValue::Number(80)));
}

#[test]
fn unset_fields_are_omitted_not_sent_empty() {
    let filters = ItemsFilters {
        brands: Some(vec![]),
        ..Default::default()
    };
    let query = filters.to_query();
    assert!(query.is_empty());
}

#[test]
fn size_ids_match_the_catalog() {
    assert_eq!(Sizes::XS.id(), 206);
    assert_eq!(Sizes::S.id(), 207);
    assert_eq!(Sizes::M.id(), 208);
    assert_eq!(Sizes::L.id(), 209);
    assert_eq!(Sizes::XL.id(), 210);
    assert_eq!(Sizes::XXL.id(), 211);
    assert_eq!(Sizes::XXXL.id(), 212);
}

#[test]
fn category_ids_match_the_catalog() {
    assert_eq!(Categories::Men.id(), 5);
    assert_eq!(Categories::Clothes.id(), 2050);
}

#[test]
fn condition_ids_match_the_catalog() {
    assert_eq!(Condition::NewWithoutTags.id(), 1);
    assert_eq!(Condition::ReallyGood.id(), 2);
    assert_eq!(Condition::Good.id(), 3);
    assert_eq!(Condition::Satisfactory.id(), 4);
    assert_eq!(Condition::NewWithTags.id(), 6);
}
