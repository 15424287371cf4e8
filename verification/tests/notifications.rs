use sdp_engine::engine::{EndKind, Step, Task};
use sdp_engine::models::{
    Basket, Calendar, DeliveryPoint, DeliveryWay, PaymentType, ProductCard, ShippingInterval,
    Size, Variant, Webhook,
};
use sdp_engine::task::TaskProgress;

fn cart() -> Basket {
    Basket {
        payment_type: PaymentType { id: "card".to_string(), card: "m-1234".to_string() },
        delivery_ways: vec![DeliveryWay {
            code: "courier".to_string(),
            calendars: vec![Calendar {
                store_ids: vec![10],
                shipping_interval: ShippingInterval {
                    id: 5,
                    delivery_date: "9/21/2021".to_string(),
                },
            }],
        }],
        delivery_way: "courier".to_string(),
        delivery_interval_str: Some("21 Sep".to_string()),
        delivery_point: DeliveryPoint { id: 99, address: "Some street".to_string() },
        order_items: vec![77],
        total_price: 4990,
    }
}

fn ended_task(kind: EndKind, content: &str) -> Task {
    let mut t = Task::new(
        7,
        None,
        ProductCard { name: "Shoes".to_string() },
        Variant {
            sold_out: false,
            id: 555,
            name: Some("Black".to_string()),
            sizes: vec![
                Size {
                    id: 77,
                    name: "42".to_string(),
                    price: 5000,
                    sale_price: 4990,
                    quantity: 3,
                    sold_out: false,
                },
                Size {
                    id: 78,
                    name: "43".to_string(),
                    price: 5000,
                    sale_price: 4990,
                    quantity: 1,
                    sold_out: false,
                },
            ],
        },
        Size {
            id: 77,
            name: "42".to_string(),
            price: 5000,
            sale_price: 4990,
            quantity: 3,
            sold_out: false,
        },
        ("+7(912)345-67-89".to_string(), "session-token".to_string()),
        Webhook { id: 42, token: "hook-token".to_string() },
        (false, false),
    );
    t.step = Step::End { content: content.to_string(), cart: cart(), kind };
    t.substep = 0;
    t.progress = TaskProgress::Completing(None);
    t
}

fn names(n: &sdp_engine::notify::Notification) -> Vec<String> {
    n.fields.iter().map(|f| f.name.clone()).collect()
}

#[test]
fn succeeded_notification_fields() {
    let t = ended_task(EndKind::Succeed(true), "/lk/orderdetail?orderId=987");
    let n = t.notification("1.234", "12:00:00 21/09/2021");
    assert_eq!(n.webhook_id, 42);
    assert_eq!(n.webhook_token, "hook-token");
    assert_eq!(n.username, "SDP Pre-Alpha");
    assert_eq!(n.title, "Successful Payment");
    assert_eq!(n.description, "Click the link below to see details of your order.");
    assert_eq!(n.color, 51283);
    assert_eq!(n.footer_text, "SDP Pre-Alpha (v0.1.0) (eWILDBERRIES)");
    assert_eq!(
        names(&n),
        vec![
            "Order details",
            "Task ID",
            "Account",
            "Site",
            "Product",
            "Variant (Color)",
            "Size",
            "Total",
            "Estimated delivery",
            "Elapsed",
            "Start Time",
        ]
    );
    assert_eq!(
        n.fields[0].value,
        "[Click](https://www.wildberries.ru/lk/orderdetail?orderId=987)"
    );
    assert!(!n.fields[0].inline);
    assert_eq!(n.fields[1].value, "#7");
    assert!(n.fields[1].inline);
    assert_eq!(n.fields[2].value, "||+7(912)345-67-89||");
    assert_eq!(n.fields[3].value, "Wildberries");
    assert_eq!(n.fields[4].value, "Shoes");
    assert!(!n.fields[4].inline);
    assert_eq!(n.fields[5].value, "Black");
    assert_eq!(n.fields[6].value, "42");
    assert_eq!(n.fields[7].value, "4990 RUB");
    assert_eq!(n.fields[8].value, "21 Sep");
    assert_eq!(n.fields[9].value, "1.234 sec");
    assert_eq!(n.fields[10].value, "12:00:00 21/09/2021");
}

#[test]
fn unconfirmed_notification_title_and_color() {
    let t = ended_task(EndKind::Succeed(false), "/lk/orderdetail?orderId=987");
    let n = t.notification("2.0", "now");
    assert_eq!(n.title, "Successful Payment (Unconfirmed)");
    assert_eq!(n.color, 2712319);
}

#[test]
fn user_action_notification_fields() {
    let t = ended_task(EndKind::UserAction, "https://beta.paywb.com/confirm/abc");
    let n = t.notification("2.5", "now");
    assert_eq!(n.title, "Bank Payment Confirmation (3D-Secure)");
    assert_eq!(
        n.description,
        "User action required. Click the link below to complete your order payment."
    );
    assert_eq!(n.color, 16771584);
    assert_eq!(n.fields[0].name, "Payment confirmation");
    assert_eq!(n.fields[0].value, "[Click](https://beta.paywb.com/confirm/abc)");
    assert_eq!(n.fields[7].name, "Amount of payment");
    assert_eq!(n.fields[7].value, "4990 RUB");
    assert_eq!(n.fields.len(), 11);
}

#[test]
fn failed_notification_fields() {
    let t = ended_task(EndKind::Failed, "Insufficient funds");
    let n = t.notification("3.1", "now");
    assert_eq!(n.title, "Payment Failed");
    assert_eq!(n.description, "");
    assert_eq!(n.color, 16717636);
    assert_eq!(n.fields.len(), 10);
    assert_eq!(n.fields[0].name, "Description");
    assert_eq!(n.fields[0].value, "Insufficient funds");
    assert_eq!(n.fields[7].name, "Total");
    assert_eq!(n.fields[8].name, "Elapsed");
    assert_eq!(n.fields[8].value, "3.1 sec");
    assert_eq!(n.fields[9].name, "Start Time");
}

#[test]
fn single_size_variant_shows_a_dash() {
    let mut t = ended_task(EndKind::Succeed(true), "/x?orderId=1");
    if let Step::End { .. } = t.step {
        t.variant.sizes.truncate(1);
    }
    let n = t.notification("1.0", "now");
    assert_eq!(n.fields[6].name, "Size");
    assert_eq!(n.fields[6].value, "-");
}

#[test]
fn missing_variant_name_and_delivery_show_dashes() {
    let mut t = ended_task(EndKind::Succeed(true), "/x?orderId=1");
    t.variant.name = None;
    if let Step::End { ref mut cart, .. } = t.step {
        cart.delivery_interval_str = None;
    }
    let n = t.notification("1.0", "now");
    assert_eq!(n.fields[5].value, "-");
    assert_eq!(n.fields[8].value, "-");
}
