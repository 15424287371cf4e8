use sdp_engine::lookup::{account_user, product_check, AccountError};
use sdp_engine::models::{
    Basket, Data, ProductCard, ResponseResult, ResponseValue, ShippingInterval, Size, SizeOld,
    SizeTag, User, Value, Variant, Webhook,
};
use sdp_engine::task::{TaskError, TaskProgress};

fn size(id: u64, name: &str, quantity: u64, sold_out: bool) -> Size {
    Size { id, name: name.to_string(), price: 100, sale_price: 90, quantity, sold_out }
}

fn data() -> Data {
    Data { basket: None, basket_info: None, product_card: None, variant: None }
}

fn user() -> User {
    User {
        country: "RU".to_string(),
        last_name: "L".to_string(),
        first_name: "F".to_string(),
        middle_name: "M".to_string(),
        phone: 79123456789,
        phone_str: "+7(912)345-67-89".to_string(),
        id: "u1".to_string(),
    }
}

#[test]
fn sizes_reduce_to_tags() {
    let v = Variant {
        sold_out: false,
        id: 1,
        name: None,
        sizes: vec![size(10, "S", 2, false), size(11, "M", 0, true)],
    };
    let tags = v.sizes_tags();
    assert_eq!(
        tags,
        vec![
            SizeTag { id: 10, name: "S".to_string(), quantity: 2 },
            SizeTag { id: 11, name: "M".to_string(), quantity: 0 },
        ]
    );
    assert_eq!(size(10, "S", 2, false).as_tag(), tags[0]);
}

#[test]
fn size_tags_label_stock_and_sold_out() {
    let some = SizeTag { id: 1, name: "41".to_string(), quantity: 4 };
    assert_eq!(some.label(), "Size \"41\" (Q: 4)");
    let gone = SizeTag { id: 2, name: "42".to_string(), quantity: 0 };
    assert_eq!(gone.label(), "Size \"42\" (Sold Out)");
}

#[test]
fn legacy_sizes_label_the_last_pair() {
    let last = SizeOld {
        is_last: true,
        name: "40".to_string(),
        so: "1".to_string(),
        sv: "2".to_string(),
        option: "3".to_string(),
    };
    assert_eq!(last.label(), "40 (last pair)");
    let plain = SizeOld { is_last: false, ..last };
    assert_eq!(plain.label(), "40");
}

#[test]
fn find_size_returns_the_first_match() {
    let v = Variant {
        sold_out: false,
        id: 1,
        name: None,
        sizes: vec![size(10, "S", 2, false), size(10, "dup", 9, true), size(11, "M", 1, false)],
    };
    assert_eq!(v.find_size(10).unwrap().name, "S");
    assert_eq!(v.find_size(11).unwrap().name, "M");
    assert!(v.find_size(12).is_none());
}

#[test]
fn defaults_are_empty() {
    let b = Basket::default();
    assert!(b.order_items.is_empty());
    assert!(b.delivery_ways.is_empty());
    assert_eq!(b.total_price, 0);
    assert!(b.delivery_interval_str.is_none());
    let w = Webhook::default();
    assert_eq!(w.id, 0);
    assert_eq!(w.token, "");
    assert_eq!(ShippingInterval::default().id, 0);
    assert!(matches!(ResponseValue::default(), ResponseValue::Empty));
    assert_eq!(TaskProgress::default(), TaskProgress::Start);
}

#[test]
fn progress_renders_with_detail_text() {
    assert_eq!(TaskProgress::Start.to_str(), "Starting");
    assert_eq!(TaskProgress::WarmingUp.to_str(), "Warming Up");
    assert_eq!(TaskProgress::Processing.to_str(), "Processing");
    assert_eq!(TaskProgress::Completing(None).to_str(), "Completing");
    assert_eq!(
        TaskProgress::Completing(Some("Sending embed".to_string())).to_str(),
        "Completing: Sending embed"
    );
    assert_eq!(TaskProgress::Complete(None).to_str(), "Complete");
    assert_eq!(TaskProgress::Failed(Some("x".to_string())).to_str(), "Failed: x");
    assert_eq!(TaskProgress::Error(String::new()).to_str(), "Error");
    assert_eq!(TaskProgress::Error("boom".to_string()).to_str(), "Error: boom");
}

#[test]
fn task_errors_format_with_their_tier() {
    assert_eq!(TaskError::Response.to_string("A"), "Bad response (A)");
    assert_eq!(TaskError::Scheme.to_string("C/B"), "Unknown scheme (C/B)");
    assert_eq!(TaskError::Unknown.to_string("H"), "Unknown (H)");
}

#[test]
fn account_user_reads_the_profile() {
    let parsed = ResponseResult {
        state: 0,
        value: ResponseValue::Value(Value { data: data(), user: Some(user()) }),
    };
    let u = account_user(Some(parsed)).unwrap();
    assert_eq!(u.phone_str, "+7(912)345-67-89");
}

#[test]
fn account_user_classifies_failures() {
    assert_eq!(account_user(None).unwrap_err(), AccountError::Unknown);
    let no_user = ResponseResult {
        state: 0,
        value: ResponseValue::Value(Value { data: data(), user: None }),
    };
    assert_eq!(account_user(Some(no_user)).unwrap_err(), AccountError::Unknown);
    let wrong_shape = ResponseResult { state: 0, value: ResponseValue::Empty };
    assert_eq!(account_user(Some(wrong_shape)).unwrap_err(), AccountError::InvalidToken);
    assert_eq!(AccountError::InvalidToken.message(), "Invalid token");
    assert_eq!(AccountError::Unknown.message(), "Unknown error");
}

#[test]
fn product_check_reads_card_and_variant() {
    let v = Variant { sold_out: false, id: 5, name: None, sizes: vec![size(1, "S", 1, false)] };
    let parsed = ResponseResult {
        state: 0,
        value: ResponseValue::Value(Value {
            data: Data {
                product_card: Some(ProductCard { name: "Shoes".to_string() }),
                variant: Some(v),
                ..data()
            },
            user: None,
        }),
    };
    let (card, variant) = product_check(Some(parsed)).unwrap();
    assert_eq!(card.name, "Shoes");
    assert_eq!(variant.id, 5);
}

#[test]
fn product_check_names_each_failure() {
    assert_eq!(product_check(None).unwrap_err(), "Product not found");
    let wrong = ResponseResult { state: 0, value: ResponseValue::Empty };
    assert_eq!(product_check(Some(wrong)).unwrap_err(), "Product scheme error");
    let no_variant = ResponseResult {
        state: 0,
        value: ResponseValue::Value(Value { data: data(), user: None }),
    };
    assert_eq!(product_check(Some(no_variant)).unwrap_err(), "Can't parse product variant");
    let v = Variant { sold_out: false, id: 5, name: None, sizes: Vec::new() };
    let no_card = ResponseResult {
        state: 0,
        value: ResponseValue::Value(Value {
            data: Data { variant: Some(v), ..data() },
            user: None,
        }),
    };
    assert_eq!(product_check(Some(no_card)).unwrap_err(), "Can't parse product info");
}
