use sdp_engine::engine::{EndKind, Step, Task, TaskCall};
use sdp_engine::misc::{RequestMethod, ResponseStatus};
use sdp_engine::models::{
    Basket, BasketInfo, Calendar, Data, DeliveryPoint, DeliveryWay, PaymentType, ProductCard,
    ResponseResult, ResponseValue, ShippingInterval, Size, Value, Variant, Webhook,
};
use sdp_engine::task::TaskProgress;
use sdp_engine::transport::{BanKind, Reply, SiteEvent};

fn size(id: u64) -> Size {
    Size {
        id,
        name: "42".to_string(),
        price: 5000,
        sale_price: 4990,
        quantity: 3,
        sold_out: false,
    }
}

fn variant(id: u64, sizes: Vec<Size>) -> Variant {
    Variant { sold_out: false, id, name: Some("Black".to_string()), sizes }
}

fn mk_task(flags: (bool, bool)) -> Task {
    Task::new(
        1,
        None,
        ProductCard { name: "Shoes".to_string() },
        variant(555, vec![size(77), size(78)]),
        size(77),
        ("+7(912)345-67-89".to_string(), "session-token".to_string()),
        Webhook { id: 42, token: "hook".to_string() },
        flags,
    )
}

fn data() -> Data {
    Data { basket: None, basket_info: None, product_card: None, variant: None }
}

fn reply(state: i64, value: ResponseValue) -> SiteEvent {
    SiteEvent::Reply(Reply {
        status: 200,
        parsed: Some(ResponseResult { state, value }),
        body: String::new(),
    })
}

fn empty_basket() -> Basket {
    Basket {
        payment_type: PaymentType { id: String::new(), card: String::new() },
        delivery_ways: Vec::new(),
        delivery_way: String::new(),
        delivery_interval_str: None,
        delivery_point: DeliveryPoint { id: 0, address: String::new() },
        order_items: Vec::new(),
        total_price: 0,
    }
}

fn full_cart() -> Basket {
    Basket {
        payment_type: PaymentType { id: "card".to_string(), card: "m-1234".to_string() },
        delivery_ways: vec![DeliveryWay {
            code: "courier".to_string(),
            calendars: vec![Calendar {
                store_ids: vec![10, 20],
                shipping_interval: ShippingInterval {
                    id: 5,
                    delivery_date: "9/21/2021".to_string(),
                },
            }],
        }],
        delivery_way: "courier".to_string(),
        delivery_interval_str: Some("21 Sep".to_string()),
        delivery_point: DeliveryPoint { id: 99, address: "Some street".to_string() },
        order_items: vec![77],
        total_price: 4990,
    }
}

fn basket_value(b: Option<Basket>) -> ResponseValue {
    ResponseValue::Value(Value { data: Data { basket: b, ..data() }, user: None })
}

fn site(call: Option<TaskCall>) -> sdp_engine::engine::SiteRequest {
    match call {
        Some(TaskCall::Site(q)) => q,
        other => panic!("expected a site call, got {:?}", other),
    }
}

fn form_of(q: &sdp_engine::engine::SiteRequest) -> Vec<(String, String)> {
    match &q.method {
        RequestMethod::POST(Some(f)) => f.clone(),
        other => panic!("expected a POST form, got {:?}", other),
    }
}

#[test]
fn happy_path_reaches_complete_through_every_step() {
    let mut t = mk_task((false, false));
    assert_eq!(t.progress, TaskProgress::Start);

    // warm-up: session validation
    let q = site(t.poll());
    assert_eq!(q.url, "https://www.wildberries.ru/lk/personalcabinet/data");
    assert_eq!(q.referer, "https://www.wildberries.ru/lk");
    assert!(matches!(q.method, RequestMethod::GET));
    assert_eq!((q.delay_lo, q.delay_hi), (0, 0));
    assert_eq!(t.progress, TaskProgress::WarmingUp);
    t.resolve_site(reply(0, ResponseValue::Empty));

    // warm-up: location state
    let q = site(t.poll());
    assert_eq!(q.url, "https://www.wildberries.ru/geo/getuserlocationinfo");
    assert!(matches!(q.method, RequestMethod::POST(None)));
    t.resolve_site(reply(0, ResponseValue::Empty));

    // warm-up: cart inspection finds an empty cart
    let q = site(t.poll());
    assert_eq!(q.url, "https://www.wildberries.ru/lk/basket/data");
    t.resolve_site(reply(0, basket_value(Some(empty_basket()))));
    assert_eq!(t.progress, TaskProgress::Processing);

    // processing: availability
    let q = site(t.poll());
    assert_eq!(q.url, "https://www.wildberries.ru/555/product/data?targetUrl=XS");
    assert_eq!(
        q.referer,
        "https://www.wildberries.ru/catalog/555/detail.aspx?targetUrl=XS"
    );
    let avail = ResponseValue::Value(Value {
        data: Data { variant: Some(variant(555, vec![size(77), size(78)])), ..data() },
        user: None,
    });
    t.resolve_site(reply(0, avail));

    // processing: add to cart
    let q = site(t.poll());
    assert_eq!(q.url, "https://www.wildberries.ru/product/addtobasket");
    let form = form_of(&q);
    assert_eq!(
        form,
        vec![
            ("cod1S".to_string(), "555".to_string()),
            ("characteristicId".to_string(), "77".to_string()),
            ("quantity".to_string(), "1".to_string()),
        ]
    );
    let added = ResponseValue::Basket(Data {
        basket_info: Some(BasketInfo { is_auth: true, quantity: 1, events_count: 0 }),
        ..data()
    });
    t.resolve_site(reply(0, added));

    // processing: capture the priced cart
    let q = site(t.poll());
    assert_eq!(q.url, "https://www.wildberries.ru/lk/basket/data");
    t.resolve_site(reply(0, basket_value(Some(full_cart()))));

    // processing: submit the order
    let q = site(t.poll());
    assert_eq!(q.url, "https://www.wildberries.ru/lk/basket/spa/submitorder");
    let form = form_of(&q);
    assert_eq!(form[0], ("orderDetails.DeliveryPointId".to_string(), "99".to_string()));
    assert_eq!(form[1], ("orderDetails.DeliveryWay".to_string(), "courier".to_string()));
    assert_eq!(form[2], ("orderDetails.DeliveryPrice".to_string(), "".to_string()));
    assert_eq!(form[3], ("orderDetails.DeliveryDts.Index".to_string(), "0".to_string()));
    assert_eq!(
        form[4],
        ("orderDetails.DeliveryDts[0].Date".to_string(), "21.09.2021".to_string())
    );
    assert_eq!(
        form[5],
        ("orderDetails.DeliveryDts[0].IntervalId".to_string(), "5".to_string())
    );
    assert_eq!(
        form[6],
        ("orderDetails.DeliveryDts[0].StoreIds.Index".to_string(), "0".to_string())
    );
    assert_eq!(
        form[7],
        ("orderDetails.DeliveryDts[0].StoreIds[0]".to_string(), "10".to_string())
    );
    assert_eq!(
        form[9],
        ("orderDetails.DeliveryDts[0].StoreIds[1]".to_string(), "20".to_string())
    );
    assert_eq!(form[10], ("orderDetails.GooglePayToken".to_string(), "false".to_string()));
    assert_eq!(form[11], ("orderDetails.PaymentType.Id".to_string(), "card".to_string()));
    assert_eq!(form[12], ("orderDetails.MaskedCardId".to_string(), "m-1234".to_string()));
    assert_eq!(form[13], ("orderDetails.SberPayPhone".to_string(), "".to_string()));
    assert_eq!(
        form[14],
        ("orderDetails.AgreePublicOffert".to_string(), "true".to_string())
    );
    assert_eq!(form[15], ("orderDetails.TotalPrice".to_string(), "4990".to_string()));
    assert_eq!(
        form[16],
        ("orderDetails.UserBasketItems.Index".to_string(), "0".to_string())
    );
    assert_eq!(
        form[17],
        ("orderDetails.UserBasketItems[0].CharacteristicId".to_string(), "77".to_string())
    );
    assert_eq!(form[18], ("orderDetails.IncludeInOrder[0]".to_string(), "77".to_string()));
    assert_eq!(form.len(), 19);
    let order = ResponseValue::Order {
        url: "/lk/orderdetail?orderId=987&paid=True".to_string(),
    };
    t.resolve_site(reply(0, order));

    // processing: confirm the payment
    let q = site(t.poll());
    assert_eq!(
        q.url,
        "https://www.wildberries.ru/lk/order/confirmed/data?orderId=987&paid=True"
    );
    t.resolve_site(reply(0, ResponseValue::Empty));
    assert_eq!(
        t.progress,
        TaskProgress::Completing(Some("Sending embed".to_string()))
    );
    assert!(matches!(
        &t.step,
        Step::End { kind: EndKind::Succeed(true), .. }
    ));

    // end: the notification is the only remaining call
    assert!(matches!(t.poll(), Some(TaskCall::Notify)));
    t.resolve_notify(Some(204));
    assert_eq!(t.progress, TaskProgress::Complete(Some("Success".to_string())));
    assert_eq!(t.progress.to_str(), "Complete: Success");

    // terminal progress is absorbing: no further call is issued
    assert!(t.poll().is_none());
    assert!(t.poll().is_none());
}

#[test]
fn unconfirmed_payment_completes_unconfirmed() {
    let mut t = mk_task((false, false));
    t.poll();
    t.resolve_site(reply(0, ResponseValue::Empty));
    t.poll();
    t.resolve_site(reply(0, ResponseValue::Empty));
    t.poll();
    t.resolve_site(reply(0, basket_value(Some(empty_basket()))));
    t.poll();
    let avail = ResponseValue::Value(Value {
        data: Data { variant: Some(variant(555, vec![size(77)])), ..data() },
        user: None,
    });
    t.resolve_site(reply(0, avail));
    t.poll();
    let added = ResponseValue::Basket(Data {
        basket_info: Some(BasketInfo { is_auth: true, quantity: 1, events_count: 0 }),
        ..data()
    });
    t.resolve_site(reply(0, added));
    t.poll();
    t.resolve_site(reply(0, basket_value(Some(full_cart()))));
    t.poll();
    let order = ResponseValue::Order {
        url: "/lk/orderdetail?orderId=987&paid=True".to_string(),
    };
    t.resolve_site(reply(0, order));
    t.poll();
    // the confirmation exchange fails at the network level: the outcome
    // is merely unconfirmed, never an error
    t.resolve_site(SiteEvent::Net(ResponseStatus::Timeout));
    assert!(matches!(
        &t.step,
        Step::End { kind: EndKind::Succeed(false), .. }
    ));
    t.poll();
    t.resolve_notify(Some(204));
    assert_eq!(
        t.progress,
        TaskProgress::Complete(Some("Success (Unconfirmed)".to_string()))
    );
}

#[test]
fn network_failure_halts_with_a_tier_tagged_error() {
    let mut t = mk_task((false, false));
    t.poll();
    t.resolve_site(SiteEvent::Net(ResponseStatus::Timeout));
    assert_eq!(t.progress, TaskProgress::Error("Timeout (A)".to_string()));
    assert!(t.poll().is_none());
}

#[test]
fn surfaced_ban_halts_with_a_tier_tagged_error() {
    let mut t = mk_task((false, false));
    t.poll();
    t.resolve_site(SiteEvent::Ban(BanKind::Variti));
    assert_eq!(t.progress, TaskProgress::Error("Banned: Variti (A)".to_string()));
}

#[test]
fn expired_token_halts_the_warmup() {
    let mut t = mk_task((false, false));
    t.poll();
    t.resolve_site(reply(-1, ResponseValue::Empty));
    assert_eq!(t.progress, TaskProgress::Error("Account token is expired".to_string()));
}

#[test]
fn retry_resets_exactly_step_and_progress() {
    let mut t = mk_task((false, false));
    t.poll();
    t.resolve_site(reply(0, ResponseValue::Empty));
    t.poll();
    t.resolve_site(reply(-1, ResponseValue::Empty));
    assert_eq!(
        t.progress,
        TaskProgress::Error("Can't get user location (B)".to_string())
    );
    assert!(t.poll().is_none());

    t.retry();
    assert_eq!(t.progress, TaskProgress::Start);
    assert!(matches!(t.step, Step::Start));
    assert_eq!(t.substep, 0);
    // every other field is untouched
    assert_eq!(t.uid, 1);
    assert_eq!(t.proxy, None);
    assert_eq!(t.card.name, "Shoes");
    assert_eq!(t.variant.id, 555);
    assert_eq!(t.size.id, 77);
    assert_eq!(t.account.0, "+7(912)345-67-89");
    assert_eq!(t.account.1, "session-token");
    assert_eq!(t.webhook.id, 42);
    assert_eq!(t.flags, (false, false));

    // the restarted task begins again at the warm-up
    let q = site(t.poll());
    assert_eq!(q.url, "https://www.wildberries.ru/lk/personalcabinet/data");
    assert_eq!(t.progress, TaskProgress::WarmingUp);
}

#[test]
fn foreign_cart_is_fatal_without_the_tolerate_flag() {
    let mut t = mk_task((false, false));
    t.poll();
    t.resolve_site(reply(0, ResponseValue::Empty));
    t.poll();
    t.resolve_site(reply(0, ResponseValue::Empty));
    t.poll();
    let mut cart = empty_basket();
    cart.order_items = vec![11, 22];
    t.resolve_site(reply(0, basket_value(Some(cart))));
    assert_eq!(t.progress, TaskProgress::Error("Cart contains other items".to_string()));
}

#[test]
fn foreign_cart_is_cleared_with_the_tolerate_flag() {
    let mut t = mk_task((false, true));
    t.poll();
    t.resolve_site(reply(0, ResponseValue::Empty));
    t.poll();
    t.resolve_site(reply(0, ResponseValue::Empty));
    t.poll();
    let mut cart = empty_basket();
    cart.order_items = vec![11, 22];
    t.resolve_site(reply(0, basket_value(Some(cart))));
    // still warming up: the clearing exchange comes next
    assert_eq!(t.progress, TaskProgress::WarmingUp);
    let q = site(t.poll());
    assert_eq!(q.url, "https://www.wildberries.ru/lk/basket/spa/delete");
    let form = form_of(&q);
    assert_eq!(
        form,
        vec![
            ("chrtIds[0]".to_string(), "11".to_string()),
            ("chrtIds[1]".to_string(), "22".to_string()),
        ]
    );
    t.resolve_site(reply(0, ResponseValue::Empty));
    assert_eq!(t.progress, TaskProgress::Processing);
}

#[test]
fn sold_out_product_halts_processing() {
    let mut t = mk_task((false, false));
    t.poll();
    t.resolve_site(reply(0, ResponseValue::Empty));
    t.poll();
    t.resolve_site(reply(0, ResponseValue::Empty));
    t.poll();
    t.resolve_site(reply(0, basket_value(Some(empty_basket()))));
    t.poll();
    let mut v = variant(555, vec![size(77)]);
    v.sold_out = true;
    let avail = ResponseValue::Value(Value {
        data: Data { variant: Some(v), ..data() },
        user: None,
    });
    t.resolve_site(reply(0, avail));
    assert_eq!(t.progress, TaskProgress::Error("Product already sold out".to_string()));
}

#[test]
fn missing_size_halts_processing() {
    let mut t = mk_task((false, false));
    t.poll();
    t.resolve_site(reply(0, ResponseValue::Empty));
    t.poll();
    t.resolve_site(reply(0, ResponseValue::Empty));
    t.poll();
    t.resolve_site(reply(0, basket_value(Some(empty_basket()))));
    t.poll();
    let avail = ResponseValue::Value(Value {
        data: Data { variant: Some(variant(555, vec![size(78)])), ..data() },
        user: None,
    });
    t.resolve_site(reply(0, avail));
    assert_eq!(t.progress, TaskProgress::Error("Product size not found".to_string()));
}

#[test]
fn not_found_status_halts_processing() {
    let mut t = mk_task((false, false));
    t.poll();
    t.resolve_site(reply(0, ResponseValue::Empty));
    t.poll();
    t.resolve_site(reply(0, ResponseValue::Empty));
    t.poll();
    t.resolve_site(reply(0, basket_value(Some(empty_basket()))));
    t.poll();
    t.resolve_site(SiteEvent::Reply(Reply { status: 404, parsed: None, body: String::new() }));
    assert_eq!(t.progress, TaskProgress::Error("Product not found".to_string()));
}

#[test]
fn unparseable_reply_is_a_scheme_tagged_error() {
    let mut t = mk_task((false, false));
    t.poll();
    t.resolve_site(SiteEvent::Reply(Reply {
        status: 200,
        parsed: None,
        body: "<html>challenge</html>".to_string(),
    }));
    assert_eq!(t.progress, TaskProgress::Error("Bad response (A)".to_string()));
}

#[test]
fn payment_failure_scrapes_the_reason_page() {
    let mut t = mk_task((false, false));
    t.poll();
    t.resolve_site(reply(0, ResponseValue::Empty));
    t.poll();
    t.resolve_site(reply(0, ResponseValue::Empty));
    t.poll();
    t.resolve_site(reply(0, basket_value(Some(empty_basket()))));
    t.poll();
    let avail = ResponseValue::Value(Value {
        data: Data { variant: Some(variant(555, vec![size(77)])), ..data() },
        user: None,
    });
    t.resolve_site(reply(0, avail));
    t.poll();
    let added = ResponseValue::Basket(Data {
        basket_info: Some(BasketInfo { is_auth: true, quantity: 1, events_count: 0 }),
        ..data()
    });
    t.resolve_site(reply(0, added));
    t.poll();
    t.resolve_site(reply(0, basket_value(Some(full_cart()))));
    t.poll();
    let order = ResponseValue::Order { url: "/lk/payment/fail".to_string() };
    t.resolve_site(reply(0, order));
    // the failure-detail shortcut: still processing, next call is the page
    assert_eq!(t.progress, TaskProgress::Processing);
    let q = site(t.poll());
    assert_eq!(q.url, "https://www.wildberries.ru/lk/payment/fail");
    t.resolve_site(SiteEvent::Reply(Reply {
        status: 200,
        parsed: None,
        body: "<div><p class=\"field-validation-error\">Insufficient funds</p></div>"
            .to_string(),
    }));
    match &t.step {
        Step::End { content, kind, .. } => {
            assert_eq!(content, "Insufficient funds");
            assert!(matches!(kind, EndKind::Failed));
        },
        other => panic!("expected the end step, got {:?}", other),
    }
    t.poll();
    t.resolve_notify(Some(204));
    assert_eq!(t.progress, TaskProgress::Failed(Some("Bank error".to_string())));
    assert!(t.poll().is_none());
}

#[test]
fn bank_confirmation_url_requires_user_action() {
    let mut t = mk_task((false, false));
    t.poll();
    t.resolve_site(reply(0, ResponseValue::Empty));
    t.poll();
    t.resolve_site(reply(0, ResponseValue::Empty));
    t.poll();
    t.resolve_site(reply(0, basket_value(Some(empty_basket()))));
    t.poll();
    let avail = ResponseValue::Value(Value {
        data: Data { variant: Some(variant(555, vec![size(77)])), ..data() },
        user: None,
    });
    t.resolve_site(reply(0, avail));
    t.poll();
    let added = ResponseValue::Basket(Data {
        basket_info: Some(BasketInfo { is_auth: true, quantity: 1, events_count: 0 }),
        ..data()
    });
    t.resolve_site(reply(0, added));
    t.poll();
    t.resolve_site(reply(0, basket_value(Some(full_cart()))));
    t.poll();
    let order = ResponseValue::Order {
        url: "https://beta.paywb.com/confirm/abc".to_string(),
    };
    t.resolve_site(reply(0, order));
    assert!(matches!(
        &t.step,
        Step::End { kind: EndKind::UserAction, .. }
    ));
    t.poll();
    t.resolve_notify(Some(204));
    assert_eq!(
        t.progress,
        TaskProgress::Complete(Some("User Action Required".to_string()))
    );
}

#[test]
fn invalid_delivery_date_is_caught_at_cart_capture() {
    let mut t = mk_task((false, false));
    t.poll();
    t.resolve_site(reply(0, ResponseValue::Empty));
    t.poll();
    t.resolve_site(reply(0, ResponseValue::Empty));
    t.poll();
    t.resolve_site(reply(0, basket_value(Some(empty_basket()))));
    t.poll();
    let avail = ResponseValue::Value(Value {
        data: Data { variant: Some(variant(555, vec![size(77)])), ..data() },
        user: None,
    });
    t.resolve_site(reply(0, avail));
    t.poll();
    let added = ResponseValue::Basket(Data {
        basket_info: Some(BasketInfo { is_auth: true, quantity: 1, events_count: 0 }),
        ..data()
    });
    t.resolve_site(reply(0, added));
    t.poll();
    let mut cart = full_cart();
    cart.delivery_ways[0].calendars[0].shipping_interval.delivery_date =
        "2/30/2021".to_string();
    t.resolve_site(reply(0, basket_value(Some(cart))));
    assert_eq!(t.progress, TaskProgress::Error("Unknown scheme (G/DT)".to_string()));
}

#[test]
fn extra_cart_lines_halt_without_the_tolerate_flag() {
    let mut t = mk_task((false, false));
    t.poll();
    t.resolve_site(reply(0, ResponseValue::Empty));
    t.poll();
    t.resolve_site(reply(0, ResponseValue::Empty));
    t.poll();
    t.resolve_site(reply(0, basket_value(Some(empty_basket()))));
    t.poll();
    let avail = ResponseValue::Value(Value {
        data: Data { variant: Some(variant(555, vec![size(77)])), ..data() },
        user: None,
    });
    t.resolve_site(reply(0, avail));
    t.poll();
    let added = ResponseValue::Basket(Data {
        basket_info: Some(BasketInfo { is_auth: true, quantity: 2, events_count: 0 }),
        ..data()
    });
    t.resolve_site(reply(0, added));
    assert_eq!(
        t.progress,
        TaskProgress::Error("Cart corrupted. Check it by yourself".to_string())
    );
}

#[test]
fn webhook_failure_leaves_a_retryable_error_and_never_resubmits() {
    let mut t = mk_task((false, false));
    t.step = Step::End {
        content: "/lk/orderdetail?orderId=987&paid=True".to_string(),
        cart: full_cart(),
        kind: EndKind::Succeed(true),
    };
    t.substep = 0;
    t.progress = TaskProgress::Completing(None);

    assert!(matches!(t.poll(), Some(TaskCall::Notify)));
    // the webhook answers with a non-success status
    t.resolve_notify(Some(500));
    assert_eq!(t.progress, TaskProgress::Error("webhook error".to_string()));
    assert!(matches!(&t.step, Step::End { .. }));
    assert!(t.poll().is_none());

    // a retry re-enters the end step: only the notification is re-sent,
    // never a site exchange, so the order is not re-submitted
    t.retry();
    assert_eq!(t.progress, TaskProgress::Completing(None));
    assert!(matches!(&t.step, Step::End { .. }));
    assert!(matches!(t.poll(), Some(TaskCall::Notify)));
    t.resolve_notify(Some(204));
    assert_eq!(t.progress, TaskProgress::Complete(Some("Success".to_string())));
    assert!(t.poll().is_none());
}

#[test]
fn cart_clearing_failure_halts_the_warmup() {
    let mut t = mk_task((false, true));
    t.poll();
    t.resolve_site(reply(0, ResponseValue::Empty));
    t.poll();
    t.resolve_site(reply(0, ResponseValue::Empty));
    t.poll();
    let mut cart = empty_basket();
    cart.order_items = vec![11];
    t.resolve_site(reply(0, basket_value(Some(cart))));
    t.poll();
    t.resolve_site(reply(-1, ResponseValue::Empty));
    assert_eq!(
        t.progress,
        TaskProgress::Error("Can't remove other items from cart".to_string())
    );
}

#[test]
fn scheme_errors_carry_their_tier_tags() {
    // cart reply with a refused result state
    let mut t = mk_task((false, false));
    t.poll();
    t.resolve_site(reply(0, ResponseValue::Empty));
    t.poll();
    t.resolve_site(reply(0, ResponseValue::Empty));
    t.poll();
    t.resolve_site(reply(-1, ResponseValue::Empty));
    assert_eq!(t.progress, TaskProgress::Error("Can't retrieve cart data".to_string()));

    // cart reply of the right state but with no basket record
    let mut t = mk_task((false, false));
    t.poll();
    t.resolve_site(reply(0, ResponseValue::Empty));
    t.poll();
    t.resolve_site(reply(0, ResponseValue::Empty));
    t.poll();
    t.resolve_site(reply(0, basket_value(None)));
    assert_eq!(t.progress, TaskProgress::Error("Unknown scheme (C/B)".to_string()));
}

fn task_at_processing(substep_events: &[SiteEvent]) -> Task {
    let mut t = mk_task((false, false));
    t.poll();
    t.resolve_site(reply(0, ResponseValue::Empty));
    t.poll();
    t.resolve_site(reply(0, ResponseValue::Empty));
    t.poll();
    t.resolve_site(reply(0, basket_value(Some(empty_basket()))));
    for e in substep_events {
        t.poll();
        t.resolve_site(e.clone());
    }
    t
}

#[test]
fn processing_scheme_errors_carry_their_tier_tags() {
    // availability reply of the wrong shape
    let t = task_at_processing(&[reply(0, ResponseValue::Empty)]);
    assert_eq!(t.progress, TaskProgress::Error("Unknown scheme (E/V)".to_string()));

    // add-to-cart reply with a refused state
    let avail = reply(
        0,
        ResponseValue::Value(Value {
            data: Data { variant: Some(variant(555, vec![size(77)])), ..data() },
            user: None,
        }),
    );
    let t = task_at_processing(&[avail.clone(), reply(-1, ResponseValue::Empty)]);
    assert_eq!(t.progress, TaskProgress::Error("Something went wrong (F)".to_string()));

    // add-to-cart summary missing
    let t = task_at_processing(&[
        avail.clone(),
        reply(0, ResponseValue::Basket(Data { basket_info: None, ..data() })),
    ]);
    assert_eq!(t.progress, TaskProgress::Error("Unknown scheme (F/BS)".to_string()));

    // nothing could be added
    let t = task_at_processing(&[
        avail.clone(),
        reply(
            0,
            ResponseValue::Basket(Data {
                basket_info: Some(BasketInfo { is_auth: true, quantity: 0, events_count: 0 }),
                ..data()
            }),
        ),
    ]);
    assert_eq!(t.progress, TaskProgress::Error("Can't add product to cart".to_string()));

    let added = reply(
        0,
        ResponseValue::Basket(Data {
            basket_info: Some(BasketInfo { is_auth: true, quantity: 1, events_count: 0 }),
            ..data()
        }),
    );

    // submit reply with a refused state
    let captured = reply(0, basket_value(Some(full_cart())));
    let t = task_at_processing(&[
        avail.clone(),
        added.clone(),
        captured.clone(),
        reply(-1, ResponseValue::Empty),
    ]);
    assert_eq!(t.progress, TaskProgress::Error("Unknown (H)".to_string()));

    // submit reply whose confirmation URL has no known shape
    let odd = reply(0, ResponseValue::Order { url: "/lk/somewhere/else".to_string() });
    let t = task_at_processing(&[avail.clone(), added.clone(), captured.clone(), odd]);
    assert_eq!(t.progress, TaskProgress::Error("Unknown scheme (H/URL)".to_string()));

    // submit reply of the wrong shape
    let t = task_at_processing(&[
        avail,
        added,
        captured,
        reply(0, ResponseValue::Message("ok".to_string())),
    ]);
    assert_eq!(t.progress, TaskProgress::Error("Unknown scheme (H/V)".to_string()));
}

#[test]
fn ddos_guard_ban_carries_its_name() {
    let mut t = mk_task((false, false));
    t.poll();
    t.resolve_site(SiteEvent::Ban(BanKind::DdosGuard));
    assert_eq!(
        t.progress,
        TaskProgress::Error("Banned: DDOS-Guard (A)".to_string())
    );
}

#[test]
fn stopped_task_gets_no_further_call() {
    let mut t = mk_task((false, false));
    t.poll();
    t.stop();
    assert!(t.poll().is_none());
}
