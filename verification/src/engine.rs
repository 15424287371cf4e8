//! The task execution engine: the per-task step/sub-step state
//! machine.  The engine never performs I/O itself: `poll` says which
//! exchange to make next, and `resolve_site` / `resolve_notify` advance
//! the machine on that exchange's outcome.

use vstd::prelude::*;
use crate::digits::spec_dec;
use crate::forms::{
    add_form, add_form_spec, build_submit_form, check_cart_form, chrt_form, chrt_form_spec,
    pairs_view, submit_form_ok, submit_form_spec,
};
use crate::misc::{retrieve, retrieve_spec, RequestMethod, ResponseStatus};
use crate::models::{spec_find_size, Basket, ProductCard, ResponseValue, Size, Variant, Webhook};
use crate::task::{progress_step_ok, TaskError, TaskProgress};
use crate::transport::{
    contains_sub, ends_with, has_prefix, has_sub, has_suffix, starts_with, BanKind, SiteEvent,
};

verus! {

/// A submitted order awaiting its confirmation exchange: the
/// confirmation URL and the order identifier extracted from it.
#[derive(Clone, Debug, PartialEq)]
pub struct OrderRef {
    pub url: String,
    pub oid: String,
}

/// How a task's purchase attempt ended: an order went through
/// (confirmed or not), the bank wants the user's own confirmation, or
/// the payment failed.
#[derive(Clone, Debug, PartialEq)]
pub enum EndKind {
    Succeed(bool),
    UserAction,
    Failed,
}

/// The coarse position of a task, each variant holding the working
/// data its sub-steps need.
#[derive(Clone, Debug, PartialEq)]
pub enum Step {
    Start,
    Warmup { foreign: Vec<u64> },
    Process { cart: Basket, order: Option<OrderRef> },
    End { content: String, cart: Basket, kind: EndKind },
}

/// One site exchange the driver must perform: the URL, the method with
/// its form body, the referer, and the pacing-delay range in the units
/// `pick_delay` takes.
#[derive(Clone, Debug, PartialEq)]
pub struct SiteRequest {
    pub url: String,
    pub method: RequestMethod,
    pub referer: String,
    pub delay_lo: u64,
    pub delay_hi: u64,
}

/// What the driver must do next for a task: one site exchange on the
/// task's own client, or the outcome notification on a proxy-less one.
#[derive(Clone, Debug, PartialEq)]
pub enum TaskCall {
    Site(SiteRequest),
    Notify,
}

/// One purchase task: its immutable inputs and its mutable machine
/// state.
#[derive(Debug)]
pub struct Task {
    pub uid: u64,
    pub proxy: Option<String>,
    pub card: ProductCard,
    pub variant: Variant,
    pub size: Size,
    pub account: (String, String),
    pub webhook: Webhook,
    pub flags: (bool, bool),
    pub progress: TaskProgress,
    pub step: Step,
    pub substep: usize,
    pub stopped: bool,
}

/// The task's immutable inputs are untouched: identity, proxy, product
/// selection, account, webhook and behaviour flags.
pub open spec fn keeps_inputs(o: Task, f: Task) -> bool {
    &&& f.uid == o.uid
    &&& f.proxy == o.proxy
    &&& f.card == o.card
    &&& f.variant == o.variant
    &&& f.size == o.size
    &&& f.account == o.account
    &&& f.webhook == o.webhook
    &&& f.flags == o.flags
}

impl Task {
    /// Randomized pacing delays are enabled on the task.
    pub open spec fn paced(self) -> bool {
        self.flags.0
    }

    /// Partial-state anomalies (a foreign cart, extra cart lines) are
    /// tolerated rather than fatal.
    pub open spec fn tolerate(self) -> bool {
        self.flags.1
    }

    /// Well-formedness of the machine state: sub-step indices in range,
    /// working data present where a sub-step relies on it, and the
    /// progress value consistent with the step.
    pub open spec fn wf(self) -> bool {
        match self.step {
            Step::Start => self.substep == 0 && self.progress is Start,
            Step::Warmup { foreign } => {
                &&& self.substep <= 3
                &&& (self.substep == 3 ==> foreign@.len() > 0)
                &&& (self.progress is WarmingUp || self.progress is Error)
            },
            Step::Process { cart, order } => {
                &&& self.substep <= 5
                &&& (self.substep == 4 ==> order is Some)
                &&& (self.substep >= 3 ==> submit_form_ok(cart))
                &&& (self.progress is Processing || self.progress is Error)
            },
            Step::End { .. } => self.progress is Completing || self.progress.is_halted(),
        }
    }

    /// The task's loop is over for now: it was stopped by the caller,
    /// or its progress halts it (terminal, or an error awaiting a
    /// retry).
    pub open spec fn inert(self) -> bool {
        self.stopped || self.progress.is_halted()
    }

    /// `call` is the exchange the machine state calls for.
    pub open spec fn pending_call_ok(self, call: TaskCall) -> bool {
        match self.step {
            Step::Start => false,
            Step::Warmup { foreign } => call matches TaskCall::Site(q) && {
                if self.substep == 0 {
                    &&& q.url@ == "https://www.wildberries.ru/lk/personalcabinet/data"@
                    &&& q.method is GET
                    &&& q.referer@ == "https://www.wildberries.ru/lk"@
                    &&& q.delay_lo == 0 && q.delay_hi == 0
                } else if self.substep == 1 {
                    &&& q.url@ == "https://www.wildberries.ru/geo/getuserlocationinfo"@
                    &&& q.method matches RequestMethod::POST(form) && form is None
                    &&& q.referer@
                        == "https://www.wildberries.ru/login?returnUrl=https://wildberries.ru/"@
                    &&& q.delay_lo == 5 && q.delay_hi == 10
                } else if self.substep == 2 {
                    &&& q.url@ == "https://www.wildberries.ru/lk/basket/data"@
                    &&& q.method is GET
                    &&& q.referer@ == "https://www.wildberries.ru/lk/basket"@
                    &&& q.delay_lo == 10 && q.delay_hi == 20
                } else {
                    &&& q.url@ == "https://www.wildberries.ru/lk/basket/spa/delete"@
                    &&& q.method matches RequestMethod::POST(form) && form matches Some(f)
                        && pairs_view(f@) == chrt_form_spec(foreign@)
                    &&& q.referer@ == "https://www.wildberries.ru/lk/basket"@
                    &&& q.delay_lo == 5 && q.delay_hi == 10
                }
            },
            Step::Process { cart, order } => call matches TaskCall::Site(q) && {
                if self.substep == 0 {
                    &&& q.url@ == "https://www.wildberries.ru/"@ + spec_dec(
                        self.variant.id as nat,
                    ) + "/product/data?targetUrl=XS"@
                    &&& q.method is GET
                    &&& q.referer@ == "https://www.wildberries.ru/catalog/"@ + spec_dec(
                        self.variant.id as nat,
                    ) + "/detail.aspx?targetUrl=XS"@
                    &&& q.delay_lo == 25 && q.delay_hi == 30
                } else if self.substep == 1 {
                    &&& q.url@ == "https://www.wildberries.ru/product/addtobasket"@
                    &&& q.method matches RequestMethod::POST(form) && form matches Some(f)
                        && pairs_view(f@) == add_form_spec(self.variant.id, self.size.id)
                    &&& q.referer@ == "https://www.wildberries.ru/catalog/"@ + spec_dec(
                        self.variant.id as nat,
                    ) + "/detail.aspx?targetUrl=XS"@
                    &&& q.delay_lo == 25 && q.delay_hi == 30
                } else if self.substep == 2 {
                    &&& q.url@ == "https://www.wildberries.ru/lk/basket/data"@
                    &&& q.method is GET
                    &&& q.referer@ == "https://www.wildberries.ru/lk/basket"@
                    &&& q.delay_lo == 15 && q.delay_hi == 25
                } else if self.substep == 3 {
                    &&& q.url@ == "https://www.wildberries.ru/lk/basket/spa/submitorder"@
                    &&& q.method matches RequestMethod::POST(form) && form matches Some(f)
                        && pairs_view(f@) == submit_form_spec(cart)
                    &&& q.referer@ == "https://www.wildberries.ru/lk/basket"@
                    &&& q.delay_lo == 15 && q.delay_hi == 20
                } else if self.substep == 4 {
                    &&& order matches Some(orf) && q.url@
                        == "https://www.wildberries.ru/lk/order/confirmed/data?orderId="@
                        + orf.oid@ + "&paid=True"@
                    &&& q.method is GET
                    &&& q.referer@ == "https://www.wildberries.ru/lk/basket"@
                    &&& q.delay_lo == 10 && q.delay_hi == 15
                } else {
                    &&& q.url@ == "https://www.wildberries.ru/lk/payment/fail"@
                    &&& q.method is GET
                    &&& q.referer@ == "https://www.wildberries.ru/lk/basket"@
                    &&& q.delay_lo == 10 && q.delay_hi == 15
                }
            },
            Step::End { .. } => call is Notify,
        }
    }

    /// A fresh task over the given inputs, at the initial step.
    pub fn new(
        uid: u64,
        proxy: Option<String>,
        card: ProductCard,
        variant: Variant,
        size: Size,
        account: (String, String),
        webhook: Webhook,
        flags: (bool, bool),
    ) -> (t: Task)
        ensures
            t.uid == uid,
            t.proxy == proxy,
            t.card == card,
            t.variant == variant,
            t.size == size,
            t.account == account,
            t.webhook == webhook,
            t.flags == flags,
            t.progress is Start,
            t.step is Start,
            t.substep == 0,
            !t.stopped,
            t.wf(),
    {
        Task {
            uid,
            proxy,
            card,
            variant,
            size,
            account,
            webhook,
            flags,
            progress: TaskProgress::Start,
            step: Step::Start,
            substep: 0,
            stopped: false,
        }
    }

    /// Marks the task cancelled: its loop makes no further exchange.
    pub fn stop(&mut self)
        requires
            old(self).wf(),
        ensures
            final (self).wf(),
            keeps_inputs(*old(self), *final (self)),
            final (self).stopped,
            final (self).progress == old(self).progress,
            final (self).step == old(self).step,
            final (self).substep == old(self).substep,
    {
        self.stopped = true;
    }

    /// The operator's retry of a task halted at an error.  At the
    /// notification step only the notification is retried: the step is
    /// kept and the task re-enters `Completing`, so the purchase is not
    /// re-run.  Anywhere else the whole task restarts: exactly the step
    /// and the progress return to `Start`; every other field is
    /// unchanged.
    pub fn retry(&mut self)
        requires
            old(self).wf(),
            old(self).progress is Error,
        ensures
            final (self).wf(),
            keeps_inputs(*old(self), *final (self)),
            final (self).stopped == old(self).stopped,
            progress_step_ok(old(self).progress, final (self).progress),
            !(old(self).step is End) ==> final (self).step is Start && final (self).substep == 0
                && final (self).progress is Start,
            old(self).step is End ==> ({
                &&& final (self).step == old(self).step
                &&& final (self).substep == old(self).substep
                &&& final (self).progress matches TaskProgress::Completing(m) && m is None
            }),
    {
        match &self.step {
            Step::End { .. } => {
                self.progress = TaskProgress::Completing(None);
            },
            _ => {
                self.step = Step::Start;
                self.substep = 0;
                self.progress = TaskProgress::Start;
            },
        }
    }

    /// Asks the engine for the next exchange to perform.  An inert task
    /// (stopped, terminal, or halted at an error) gets none and is left
    /// untouched; otherwise the initial step advances to warm-up and
    /// the call the current position prescribes is returned.
    pub fn poll(&mut self) -> (r: Option<TaskCall>)
        requires
            old(self).wf(),
        ensures
            final (self).wf(),
            keeps_inputs(*old(self), *final (self)),
            final (self).stopped == old(self).stopped,
            progress_step_ok(old(self).progress, final (self).progress),
            r is None <==> old(self).inert(),
            old(self).inert() ==> *final (self) == *old(self),
            !old(self).inert() ==> {
                &&& (old(self).step is Start ==> ({
                    &&& final (self).step matches Step::Warmup { foreign } && foreign@.len() == 0
                    &&& final (self).substep == 0
                    &&& final (self).progress is WarmingUp
                }))
                &&& (!(old(self).step is Start) ==> *final (self) == *old(self))
                &&& (r matches Some(call) && final (self).pending_call_ok(call))
            },
    {
        if self.stopped {
            return None;
        }
        match &self.progress {
            TaskProgress::Error(_) | TaskProgress::Complete(_) | TaskProgress::Failed(_) => {
                return None;
            },
            _ => {},
        }
        if matches!(&self.step, Step::Start) {
            self.step = Step::Warmup { foreign: Vec::new() };
            self.substep = 0;
            self.progress = TaskProgress::WarmingUp;
        }
        match &self.step {
            Step::Start => {
                proof {
                    assert(false);
                }
                None
            },
            Step::Warmup { foreign } => {
                if self.substep == 0 {
                    Some(TaskCall::Site(SiteRequest {
                        url: String::from_str("https://www.wildberries.ru/lk/personalcabinet/data"),
                        method: RequestMethod::GET,
                        referer: String::from_str("https://www.wildberries.ru/lk"),
                        delay_lo: 0,
                        delay_hi: 0,
                    }))
                } else if self.substep == 1 {
                    Some(TaskCall::Site(SiteRequest {
                        url: String::from_str("https://www.wildberries.ru/geo/getuserlocationinfo"),
                        method: RequestMethod::POST(None),
                        referer: String::from_str(
                            "https://www.wildberries.ru/login?returnUrl=https://wildberries.ru/",
                        ),
                        delay_lo: 5,
                        delay_hi: 10,
                    }))
                } else if self.substep == 2 {
                    Some(TaskCall::Site(SiteRequest {
                        url: String::from_str("https://www.wildberries.ru/lk/basket/data"),
                        method: RequestMethod::GET,
                        referer: String::from_str("https://www.wildberries.ru/lk/basket"),
                        delay_lo: 10,
                        delay_hi: 20,
                    }))
                } else {
                    let form = chrt_form(foreign);
                    Some(TaskCall::Site(SiteRequest {
                        url: String::from_str("https://www.wildberries.ru/lk/basket/spa/delete"),
                        method: RequestMethod::POST(Some(form)),
                        referer: String::from_str("https://www.wildberries.ru/lk/basket"),
                        delay_lo: 5,
                        delay_hi: 10,
                    }))
                }
            },
            Step::Process { cart, order } => {
                if self.substep == 0 {
                    let vid = crate::digits::u64_to_dec(self.variant.id);
                    Some(TaskCall::Site(SiteRequest {
                        url: String::from_str("https://www.wildberries.ru/").concat(
                            vid.as_str(),
                        ).concat("/product/data?targetUrl=XS"),
                        method: RequestMethod::GET,
                        referer: String::from_str("https://www.wildberries.ru/catalog/").concat(
                            vid.as_str(),
                        ).concat("/detail.aspx?targetUrl=XS"),
                        delay_lo: 25,
                        delay_hi: 30,
                    }))
                } else if self.substep == 1 {
                    let vid = crate::digits::u64_to_dec(self.variant.id);
                    let form = add_form(self.variant.id, self.size.id);
                    Some(TaskCall::Site(SiteRequest {
                        url: String::from_str("https://www.wildberries.ru/product/addtobasket"),
                        method: RequestMethod::POST(Some(form)),
                        referer: String::from_str("https://www.wildberries.ru/catalog/").concat(
                            vid.as_str(),
                        ).concat("/detail.aspx?targetUrl=XS"),
                        delay_lo: 25,
                        delay_hi: 30,
                    }))
                } else if self.substep == 2 {
                    Some(TaskCall::Site(SiteRequest {
                        url: String::from_str("https://www.wildberries.ru/lk/basket/data"),
                        method: RequestMethod::GET,
                        referer: String::from_str("https://www.wildberries.ru/lk/basket"),
                        delay_lo: 15,
                        delay_hi: 25,
                    }))
                } else if self.substep == 3 {
                    let form = build_submit_form(cart);
                    Some(TaskCall::Site(SiteRequest {
                        url: String::from_str(
                            "https://www.wildberries.ru/lk/basket/spa/submitorder",
                        ),
                        method: RequestMethod::POST(Some(form)),
                        referer: String::from_str("https://www.wildberries.ru/lk/basket"),
                        delay_lo: 15,
                        delay_hi: 20,
                    }))
                } else if self.substep == 4 {
                    match order {
                        Some(orf) => Some(TaskCall::Site(SiteRequest {
                            url: String::from_str(
                                "https://www.wildberries.ru/lk/order/confirmed/data?orderId=",
                            ).concat(orf.oid.as_str()).concat("&paid=True"),
                            method: RequestMethod::GET,
                            referer: String::from_str("https://www.wildberries.ru/lk/basket"),
                            delay_lo: 10,
                            delay_hi: 15,
                        })),
                        None => {
                            proof {
                                assert(false);
                            }
                            None
                        },
                    }
                } else {
                    Some(TaskCall::Site(SiteRequest {
                        url: String::from_str("https://www.wildberries.ru/lk/payment/fail"),
                        method: RequestMethod::GET,
                        referer: String::from_str("https://www.wildberries.ru/lk/basket"),
                        delay_lo: 10,
                        delay_hi: 15,
                    }))
                }
            },
            Step::End { .. } => Some(TaskCall::Notify),
        }
    }
}

/// At the end step the only pending call is the outcome notification:
/// re-entering the step (after a webhook failure and a retry) can
/// never re-submit the order.
pub proof fn lemma_end_step_only_notifies(t: Task, call: TaskCall)
    requires
        t.step is End,
        t.pending_call_ok(call),
    ensures
        call is Notify,
{
}

/// A task whose progress is terminal is inert: `poll` issues no
/// further call for it, and no operation of the engine applies to it.
pub proof fn lemma_terminal_is_inert(t: Task)
    requires
        t.progress.is_terminal(),
    ensures
        t.inert(),
{
}

/// The message of a network failure at the given tier.
pub open spec fn net_msg(st: ResponseStatus, tier: Seq<char>) -> Seq<char> {
    st.label() + " ("@ + tier + ")"@
}

/// The message of a surfaced protection ban at the given tier.
pub open spec fn ban_msg(k: BanKind, tier: Seq<char>) -> Seq<char> {
    "Banned: "@ + k.label() + " ("@ + tier + ")"@
}

/// The message of an engine-side failure class at the given tier.
pub open spec fn terr_msg(te: TaskError, tier: Seq<char>) -> Seq<char> {
    te.label() + " ("@ + tier + ")"@
}

/// Formats a surfaced ban with its tier tag.
fn ban_err(k: &BanKind, tier: &str) -> (r: String)
    ensures
        r@ == ban_msg(*k, tier@),
{
    String::from_str("Banned: ").concat(k.name()).concat(" (").concat(tier).concat(")")
}

/// The task halted at an error with message `m`, its position kept.
pub open spec fn halts_err(o: Task, f: Task, m: Seq<char>) -> bool {
    &&& f.progress matches TaskProgress::Error(msg) && msg@ == m
    &&& f.step == o.step
    &&& f.substep == o.substep
}

/// The task moved to the next sub-step of the same step.
pub open spec fn sub_advanced(o: Task, f: Task) -> bool {
    &&& f.step == o.step
    &&& f.substep == o.substep + 1
    &&& f.progress == o.progress
}

/// A cart with nothing in it.
pub open spec fn is_empty_basket(b: Basket) -> bool {
    &&& b.payment_type.id@.len() == 0
    &&& b.payment_type.card@.len() == 0
    &&& b.delivery_ways@.len() == 0
    &&& b.delivery_way@.len() == 0
    &&& b.delivery_interval_str is None
    &&& b.delivery_point.id == 0
    &&& b.delivery_point.address@.len() == 0
    &&& b.order_items@.len() == 0
    &&& b.total_price == 0
}

/// The task entered the processing step afresh: an empty cart, no
/// submitted order, the first sub-step, progress `Processing`.
pub open spec fn entered_process(f: Task) -> bool {
    &&& f.step matches Step::Process { cart, order } && is_empty_basket(cart) && order is None
    &&& f.substep == 0
    &&& f.progress is Processing
}

/// After the session-validation exchange: an expired token or an
/// unreadable reply halts the task; otherwise warm-up proceeds.
pub open spec fn post_token_check(o: Task, f: Task, e: SiteEvent) -> bool {
    match e {
        SiteEvent::Net(st) => halts_err(o, f, net_msg(st, "A"@)),
        SiteEvent::Ban(k) => halts_err(o, f, ban_msg(k, "A"@)),
        SiteEvent::Reply(rep) => match rep.parsed {
            None => halts_err(o, f, terr_msg(TaskError::Response, "A"@)),
            Some(res) => if res.state == -1 {
                halts_err(o, f, "Account token is expired"@)
            } else {
                sub_advanced(o, f)
            },
        },
    }
}

/// After the location-state exchange: a refusal or an unreadable reply
/// halts the task; otherwise warm-up proceeds.
pub open spec fn post_location(o: Task, f: Task, e: SiteEvent) -> bool {
    match e {
        SiteEvent::Net(st) => halts_err(o, f, net_msg(st, "B"@)),
        SiteEvent::Ban(k) => halts_err(o, f, ban_msg(k, "B"@)),
        SiteEvent::Reply(rep) => match rep.parsed {
            None => halts_err(o, f, terr_msg(TaskError::Response, "B"@)),
            Some(res) => if res.state == -1 {
                halts_err(o, f, "Can't get user location (B)"@)
            } else {
                sub_advanced(o, f)
            },
        },
    }
}

/// After the cart-inspection exchange: an empty cart enters
/// processing; a cart with foreign items moves on to the clearing
/// exchange when anomalies are tolerated and halts the task otherwise.
pub open spec fn post_cart_check(o: Task, f: Task, e: SiteEvent, tolerate: bool) -> bool {
    match e {
        SiteEvent::Net(st) => halts_err(o, f, net_msg(st, "C"@)),
        SiteEvent::Ban(k) => halts_err(o, f, ban_msg(k, "C"@)),
        SiteEvent::Reply(rep) => match rep.parsed {
            None => halts_err(o, f, terr_msg(TaskError::Response, "C"@)),
            Some(res) => if res.state != 0 {
                halts_err(o, f, "Can't retrieve cart data"@)
            } else {
                match res.value {
                    ResponseValue::Value(v) => match v.data.basket {
                        None => halts_err(o, f, terr_msg(TaskError::Scheme, "C/B"@)),
                        Some(b) => if b.order_items@.len() == 0 {
                            entered_process(f)
                        } else if tolerate {
                            &&& f.step matches Step::Warmup { foreign } && foreign@
                                == b.order_items@
                            &&& f.substep == 3
                            &&& f.progress == o.progress
                        } else {
                            halts_err(o, f, "Cart contains other items"@)
                        },
                    },
                    _ => entered_process(f),
                }
            },
        },
    }
}

/// After the cart-clearing exchange: a refusal halts the task;
/// otherwise processing begins.
pub open spec fn post_cart_clear(o: Task, f: Task, e: SiteEvent) -> bool {
    match e {
        SiteEvent::Net(st) => halts_err(o, f, net_msg(st, "D"@)),
        SiteEvent::Ban(k) => halts_err(o, f, ban_msg(k, "D"@)),
        SiteEvent::Reply(rep) => match rep.parsed {
            None => halts_err(o, f, terr_msg(TaskError::Response, "D"@)),
            Some(res) => if res.state == -1 {
                halts_err(o, f, "Can't remove other items from cart"@)
            } else {
                entered_process(f)
            },
        },
    }
}

/// After the availability exchange: a missing or sold-out product or
/// size halts the task; otherwise processing proceeds.
pub open spec fn post_availability(o: Task, f: Task, e: SiteEvent) -> bool {
    match e {
        SiteEvent::Net(st) => halts_err(o, f, net_msg(st, "E"@)),
        SiteEvent::Ban(k) => halts_err(o, f, ban_msg(k, "E"@)),
        SiteEvent::Reply(rep) => if rep.status == 404 {
            halts_err(o, f, "Product not found"@)
        } else {
            match rep.parsed {
                None => halts_err(o, f, terr_msg(TaskError::Response, "E"@)),
                Some(res) => match res.value {
                    ResponseValue::Value(v) => match v.data.variant {
                        None => halts_err(o, f, terr_msg(TaskError::Scheme, "E/VRT"@)),
                        Some(vr) => if vr.sold_out {
                            halts_err(o, f, "Product already sold out"@)
                        } else {
                            match spec_find_size(vr.sizes@, o.size.id) {
                                None => halts_err(o, f, "Product size not found"@),
                                Some(sz) => if sz.sold_out {
                                    halts_err(o, f, "Product size already sold out"@)
                                } else {
                                    sub_advanced(o, f)
                                },
                            }
                        },
                    },
                    _ => halts_err(o, f, terr_msg(TaskError::Scheme, "E/V"@)),
                },
            }
        },
    }
}

/// After the add-to-cart exchange: the short cart summary must show
/// exactly the one added line (more is tolerated only with the
/// anomaly flag); otherwise processing proceeds.
pub open spec fn post_add_to_cart(o: Task, f: Task, e: SiteEvent, tolerate: bool) -> bool {
    match e {
        SiteEvent::Net(st) => halts_err(o, f, net_msg(st, "F"@)),
        SiteEvent::Ban(k) => halts_err(o, f, ban_msg(k, "F"@)),
        SiteEvent::Reply(rep) => match rep.parsed {
            None => halts_err(o, f, terr_msg(TaskError::Response, "F"@)),
            Some(res) => if res.state == -1 {
                halts_err(o, f, "Something went wrong (F)"@)
            } else {
                match res.value {
                    ResponseValue::Basket(data) => match data.basket_info {
                        None => halts_err(o, f, terr_msg(TaskError::Scheme, "F/BS"@)),
                        Some(bi) => if bi.quantity == 0 {
                            halts_err(o, f, "Can't add product to cart"@)
                        } else if bi.quantity == 1 {
                            sub_advanced(o, f)
                        } else if tolerate {
                            sub_advanced(o, f)
                        } else {
                            halts_err(o, f, "Cart corrupted. Check it by yourself"@)
                        },
                    },
                    _ => halts_err(o, f, terr_msg(TaskError::Scheme, "F/V"@)),
                }
            },
        },
    }
}

/// After the cart-capture exchange: the priced cart is stored as the
/// step's working data when it can later be turned into an order form;
/// a malformed cart halts the task.
pub open spec fn post_cart_capture(o: Task, f: Task, e: SiteEvent) -> bool {
    match o.step {
        Step::Process { cart: _, order: oo } => match e {
            SiteEvent::Net(st) => halts_err(o, f, net_msg(st, "G"@)),
            SiteEvent::Ban(k) => halts_err(o, f, ban_msg(k, "G"@)),
            SiteEvent::Reply(rep) => match rep.parsed {
                None => halts_err(o, f, terr_msg(TaskError::Response, "G"@)),
                Some(res) => if res.state != 0 {
                    halts_err(o, f, "Can't retrieve cart data"@)
                } else {
                    match res.value {
                        ResponseValue::Value(v) => match v.data.basket {
                            None => halts_err(o, f, terr_msg(TaskError::Scheme, "G/B"@)),
                            Some(b) => if submit_form_ok(b) {
                                &&& f.step matches Step::Process { cart, order } && cart == b
                                    && order == oo
                                &&& f.substep == 3
                                &&& f.progress == o.progress
                            } else {
                                halts_err(o, f, terr_msg(TaskError::Scheme, "G/DT"@))
                            },
                        },
                        _ => halts_err(o, f, terr_msg(TaskError::Scheme, "G/V"@)),
                    }
                },
            },
        },
        _ => true,
    }
}

/// After the order-submission exchange: the confirmation URL is
/// classified by shape into the payment-failure shortcut, a pending
/// bank confirmation, or a submitted order awaiting confirmation.
pub open spec fn post_submit(o: Task, f: Task, e: SiteEvent) -> bool {
    match o.step {
        Step::Process { cart: oc, order: _ } => match e {
            SiteEvent::Net(st) => halts_err(o, f, net_msg(st, "H"@)),
            SiteEvent::Ban(k) => halts_err(o, f, ban_msg(k, "H"@)),
            SiteEvent::Reply(rep) => match rep.parsed {
                None => halts_err(o, f, terr_msg(TaskError::Response, "H"@)),
                Some(res) => if res.state == -1 {
                    halts_err(o, f, terr_msg(TaskError::Unknown, "H"@))
                } else {
                    match res.value {
                        ResponseValue::Order { url } => if has_suffix(url@, "payment/fail"@) {
                            &&& f.step == o.step
                            &&& f.substep == 5
                            &&& f.progress == o.progress
                        } else if has_prefix(url@, "https://beta.paywb.com"@) {
                            &&& f.step matches Step::End { content, cart, kind } && content == url
                                && cart == oc && kind is UserAction
                            &&& f.substep == 0
                            &&& f.progress matches TaskProgress::Completing(m) && m is None
                        } else if has_sub(url@, "orderId"@) {
                            match retrieve_spec(url@, "?orderId="@, "&paid"@) {
                                Some(oidv) => {
                                    &&& f.step matches Step::Process { cart, order }
                                    &&& cart == oc
                                    &&& order matches Some(orf) && orf.url == url && orf.oid@
                                        == oidv
                                    &&& f.substep == 4
                                    &&& f.progress == o.progress
                                },
                                None => {
                                    &&& f.step matches Step::End { content, cart, kind }
                                    &&& content == url
                                    &&& cart == oc
                                    &&& kind matches EndKind::Succeed(c) && c == false
                                    &&& f.substep == 0
                                    &&& f.progress matches TaskProgress::Completing(m)
                                    &&& m matches Some(t) && t@ == "Sending embed"@
                                },
                            }
                        } else {
                            halts_err(o, f, terr_msg(TaskError::Scheme, "H/URL"@))
                        },
                        _ => halts_err(o, f, terr_msg(TaskError::Scheme, "H/V"@)),
                    }
                },
            },
        },
        _ => true,
    }
}

/// After the payment-confirmation exchange: the task always reaches
/// the end step; the outcome is confirmed exactly when the reply
/// parsed and reported success, and any failure only leaves it
/// unconfirmed.
pub open spec fn post_confirm(o: Task, f: Task, e: SiteEvent) -> bool {
    match o.step {
        Step::Process { cart: oc, order: oo } => {
            let confirmed = e matches SiteEvent::Reply(rep) && rep.parsed matches Some(res)
                && res.state == 0;
            &&& (match (oo, f.step) {
                (Option::Some(orf), Step::End { content, cart, kind }) => {
                    &&& content == orf.url
                    &&& cart == oc
                    &&& kind matches EndKind::Succeed(c) && c == confirmed
                },
                _ => false,
            })
            &&& f.substep == 0
            &&& f.progress matches TaskProgress::Completing(m)
            &&& m matches Some(t) && t@ == "Sending embed"@
        },
        _ => true,
    }
}

/// After the payment-failure page exchange: the human-readable reason
/// is scraped from the page and the task reaches the end step with a
/// failed outcome.
pub open spec fn post_fail_page(o: Task, f: Task, e: SiteEvent) -> bool {
    match o.step {
        Step::Process { cart: oc, order: _ } => match e {
            SiteEvent::Net(st) => halts_err(o, f, net_msg(st, "I"@)),
            SiteEvent::Ban(k) => halts_err(o, f, ban_msg(k, "I"@)),
            SiteEvent::Reply(rep) => {
                &&& f.step matches Step::End { content, cart, kind } && cart == oc && kind
                    is Failed && (match retrieve_spec(
                    rep.body@,
                    "<p class=\"field-validation-error\">"@,
                    "</p>"@,
                ) {
                    Some(d) => content@ == d,
                    None => content@ == "<Can't parse error>"@,
                })
                &&& f.substep == 0
                &&& f.progress matches TaskProgress::Completing(m) && m is None
            },
        },
        _ => true,
    }
}

impl Task {
    /// Enters the processing step afresh.
    fn enter_process(&mut self)
        ensures
            entered_process(*final (self)),
            keeps_inputs(*old(self), *final (self)),
            final (self).stopped == old(self).stopped,
    {
        self.step = Step::Process { cart: Basket::default(), order: None };
        self.substep = 0;
        self.progress = TaskProgress::Processing;
    }

    /// Advances the machine on the outcome of a warm-up exchange.
    fn resolve_warmup(&mut self, e: SiteEvent)
        requires
            old(self).wf(),
            !old(self).inert(),
            old(self).step is Warmup,
        ensures
            final (self).wf(),
            keeps_inputs(*old(self), *final (self)),
            final (self).stopped == old(self).stopped,
            progress_step_ok(old(self).progress, final (self).progress),
            !final (self).progress.is_terminal(),
            old(self).substep == 0 ==> post_token_check(*old(self), *final (self), e),
            old(self).substep == 1 ==> post_location(*old(self), *final (self), e),
            old(self).substep == 2 ==> post_cart_check(
                *old(self),
                *final (self),
                e,
                old(self).tolerate(),
            ),
            old(self).substep == 3 ==> post_cart_clear(*old(self), *final (self), e),
    {
        let tier = if self.substep == 0 {
            "A"
        } else if self.substep == 1 {
            "B"
        } else if self.substep == 2 {
            "C"
        } else {
            "D"
        };
        match e {
            SiteEvent::Net(st) => {
                self.progress = TaskProgress::Error(st.to_string(tier));
            },
            SiteEvent::Ban(k) => {
                self.progress = TaskProgress::Error(ban_err(&k, tier));
            },
            SiteEvent::Reply(rep) => {
                if self.substep == 0 {
                    match rep.parsed {
                        None => {
                            self.progress = TaskProgress::Error(
                                TaskError::Response.to_string("A"),
                            );
                        },
                        Some(res) => {
                            if res.state == -1 {
                                self.progress = TaskProgress::Error(
                                    String::from_str("Account token is expired"),
                                );
                            } else {
                                self.substep = self.substep + 1;
                            }
                        },
                    }
                } else if self.substep == 1 {
                    match rep.parsed {
                        None => {
                            self.progress = TaskProgress::Error(
                                TaskError::Response.to_string("B"),
                            );
                        },
                        Some(res) => {
                            if res.state == -1 {
                                self.progress = TaskProgress::Error(
                                    String::from_str("Can't get user location (B)"),
                                );
                            } else {
                                self.substep = self.substep + 1;
                            }
                        },
                    }
                } else if self.substep == 2 {
                    match rep.parsed {
                        None => {
                            self.progress = TaskProgress::Error(
                                TaskError::Response.to_string("C"),
                            );
                        },
                        Some(res) => {
                            if res.state != 0 {
                                self.progress = TaskProgress::Error(
                                    String::from_str("Can't retrieve cart data"),
                                );
                            } else {
                                match res.value {
                                    ResponseValue::Value(v) => match v.data.basket {
                                        None => {
                                            self.progress = TaskProgress::Error(
                                                TaskError::Scheme.to_string("C/B"),
                                            );
                                        },
                                        Some(b) => {
                                            if b.order_items.len() == 0 {
                                                self.enter_process();
                                            } else if self.flags.1 {
                                                self.step = Step::Warmup {
                                                    foreign: b.order_items,
                                                };
                                                self.substep = 3;
                                            } else {
                                                self.progress = TaskProgress::Error(
                                                    String::from_str(
                                                        "Cart contains other items",
                                                    ),
                                                );
                                            }
                                        },
                                    },
                                    _ => {
                                        self.enter_process();
                                    },
                                }
                            }
                        },
                    }
                } else {
                    match rep.parsed {
                        None => {
                            self.progress = TaskProgress::Error(
                                TaskError::Response.to_string("D"),
                            );
                        },
                        Some(res) => {
                            if res.state == -1 {
                                self.progress = TaskProgress::Error(
                                    String::from_str("Can't remove other items from cart"),
                                );
                            } else {
                                self.enter_process();
                            }
                        },
                    }
                }
            },
        }
    }

    /// Advances the machine on the outcome of a processing exchange.
    fn resolve_process(&mut self, e: SiteEvent)
        requires
            old(self).wf(),
            !old(self).inert(),
            old(self).step is Process,
        ensures
            final (self).wf(),
            keeps_inputs(*old(self), *final (self)),
            final (self).stopped == old(self).stopped,
            progress_step_ok(old(self).progress, final (self).progress),
            !final (self).progress.is_terminal(),
            old(self).substep == 0 ==> post_availability(*old(self), *final (self), e),
            old(self).substep == 1 ==> post_add_to_cart(
                *old(self),
                *final (self),
                e,
                old(self).tolerate(),
            ),
            old(self).substep == 2 ==> post_cart_capture(*old(self), *final (self), e),
            old(self).substep == 3 ==> post_submit(*old(self), *final (self), e),
            old(self).substep == 4 ==> post_confirm(*old(self), *final (self), e),
            old(self).substep == 5 ==> post_fail_page(*old(self), *final (self), e),
    {
        if self.substep == 4 {
            let confirmed = match &e {
                SiteEvent::Reply(rep) => match &rep.parsed {
                    Some(res) => res.state == 0,
                    None => false,
                },
                _ => false,
            };
            let mut prev = Step::Start;
            core::mem::swap(&mut self.step, &mut prev);
            match prev {
                Step::Process { cart, order } => match order {
                    Some(orf) => {
                        self.step = Step::End {
                            content: orf.url,
                            cart,
                            kind: EndKind::Succeed(confirmed),
                        };
                    },
                    None => {
                        proof {
                            assert(false);
                        }
                    },
                },
                _ => {
                    proof {
                        assert(false);
                    }
                },
            }
            self.substep = 0;
            self.progress = TaskProgress::Completing(Some(String::from_str("Sending embed")));
            return ;
        }
        let tier = if self.substep == 0 {
            "E"
        } else if self.substep == 1 {
            "F"
        } else if self.substep == 2 {
            "G"
        } else if self.substep == 3 {
            "H"
        } else {
            "I"
        };
        match e {
            SiteEvent::Net(st) => {
                self.progress = TaskProgress::Error(st.to_string(tier));
            },
            SiteEvent::Ban(k) => {
                self.progress = TaskProgress::Error(ban_err(&k, tier));
            },
            SiteEvent::Reply(rep) => {
                if self.substep == 0 {
                    if rep.status == 404 {
                        self.progress = TaskProgress::Error(
                            String::from_str("Product not found"),
                        );
                        return ;
                    }
                    match rep.parsed {
                        None => {
                            self.progress = TaskProgress::Error(
                                TaskError::Response.to_string("E"),
                            );
                        },
                        Some(res) => match res.value {
                            ResponseValue::Value(v) => match v.data.variant {
                                None => {
                                    self.progress = TaskProgress::Error(
                                        TaskError::Scheme.to_string("E/VRT"),
                                    );
                                },
                                Some(vr) => {
                                    if vr.sold_out {
                                        self.progress = TaskProgress::Error(
                                            String::from_str("Product already sold out"),
                                        );
                                    } else {
                                        match vr.find_size(self.size.id) {
                                            None => {
                                                self.progress = TaskProgress::Error(
                                                    String::from_str("Product size not found"),
                                                );
                                            },
                                            Some(sz) => {
                                                if sz.sold_out {
                                                    self.progress = TaskProgress::Error(
                                                        String::from_str(
                                                            "Product size already sold out",
                                                        ),
                                                    );
                                                } else {
                                                    self.substep = self.substep + 1;
                                                }
                                            },
                                        }
                                    }
                                },
                            },
                            _ => {
                                self.progress = TaskProgress::Error(
                                    TaskError::Scheme.to_string("E/V"),
                                );
                            },
                        },
                    }
                } else if self.substep == 1 {
                    match rep.parsed {
                        None => {
                            self.progress = TaskProgress::Error(
                                TaskError::Response.to_string("F"),
                            );
                        },
                        Some(res) => {
                            if res.state == -1 {
                                self.progress = TaskProgress::Error(
                                    String::from_str("Something went wrong (F)"),
                                );
                            } else {
                                match res.value {
                                    ResponseValue::Basket(data) => match data.basket_info {
                                        None => {
                                            self.progress = TaskProgress::Error(
                                                TaskError::Scheme.to_string("F/BS"),
                                            );
                                        },
                                        Some(bi) => {
                                            if bi.quantity == 0 {
                                                self.progress = TaskProgress::Error(
                                                    String::from_str("Can't add product to cart"),
                                                );
                                            } else if bi.quantity == 1 {
                                                self.substep = self.substep + 1;
                                            } else if self.flags.1 {
                                                self.substep = self.substep + 1;
                                            } else {
                                                self.progress = TaskProgress::Error(
                                                    String::from_str(
                                                        "Cart corrupted. Check it by yourself",
                                                    ),
                                                );
                                            }
                                        },
                                    },
                                    _ => {
                                        self.progress = TaskProgress::Error(
                                            TaskError::Scheme.to_string("F/V"),
                                        );
                                    },
                                }
                            }
                        },
                    }
                } else if self.substep == 2 {
                    match rep.parsed {
                        None => {
                            self.progress = TaskProgress::Error(
                                TaskError::Response.to_string("G"),
                            );
                        },
                        Some(res) => {
                            if res.state != 0 {
                                self.progress = TaskProgress::Error(
                                    String::from_str("Can't retrieve cart data"),
                                );
                            } else {
                                match res.value {
                                    ResponseValue::Value(v) => match v.data.basket {
                                        None => {
                                            self.progress = TaskProgress::Error(
                                                TaskError::Scheme.to_string("G/B"),
                                            );
                                        },
                                        Some(b) => {
                                            if check_cart_form(&b) {
                                                let mut prev = Step::Start;
                                                core::mem::swap(&mut self.step, &mut prev);
                                                match prev {
                                                    Step::Process { cart: _, order } => {
                                                        self.step = Step::Process {
                                                            cart: b,
                                                            order,
                                                        };
                                                    },
                                                    _ => {
                                                        proof {
                                                            assert(false);
                                                        }
                                                    },
                                                }
                                                self.substep = 3;
                                            } else {
                                                self.progress = TaskProgress::Error(
                                                    TaskError::Scheme.to_string("G/DT"),
                                                );
                                            }
                                        },
                                    },
                                    _ => {
                                        self.progress = TaskProgress::Error(
                                            TaskError::Scheme.to_string("G/V"),
                                        );
                                    },
                                }
                            }
                        },
                    }
                } else if self.substep == 3 {
                    match rep.parsed {
                        None => {
                            self.progress = TaskProgress::Error(
                                TaskError::Response.to_string("H"),
                            );
                        },
                        Some(res) => {
                            if res.state == -1 {
                                self.progress = TaskProgress::Error(
                                    TaskError::Unknown.to_string("H"),
                                );
                            } else {
                                match res.value {
                                    ResponseValue::Order { url } => {
                                        if ends_with(url.as_str(), "payment/fail") {
                                            self.substep = 5;
                                        } else if starts_with(
                                            url.as_str(),
                                            "https://beta.paywb.com",
                                        ) {
                                            let mut prev = Step::Start;
                                            core::mem::swap(&mut self.step, &mut prev);
                                            match prev {
                                                Step::Process { cart, order: _ } => {
                                                    self.step = Step::End {
                                                        content: url,
                                                        cart,
                                                        kind: EndKind::UserAction,
                                                    };
                                                },
                                                _ => {
                                                    proof {
                                                        assert(false);
                                                    }
                                                },
                                            }
                                            self.substep = 0;
                                            self.progress = TaskProgress::Completing(None);
                                        } else if contains_sub(url.as_str(), "orderId") {
                                            match retrieve(&url, "?orderId=", "&paid") {
                                                Some(oid) => {
                                                    let mut prev = Step::Start;
                                                    core::mem::swap(&mut self.step, &mut prev);
                                                    match prev {
                                                        Step::Process { cart, order: _ } => {
                                                            self.step = Step::Process {
                                                                cart,
                                                                order: Some(
                                                                    OrderRef { url, oid },
                                                                ),
                                                            };
                                                        },
                                                        _ => {
                                                            proof {
                                                                assert(false);
                                                            }
                                                        },
                                                    }
                                                    self.substep = 4;
                                                },
                                                None => {
                                                    let mut prev = Step::Start;
                                                    core::mem::swap(&mut self.step, &mut prev);
                                                    match prev {
                                                        Step::Process { cart, order: _ } => {
                                                            self.step = Step::End {
                                                                content: url,
                                                                cart,
                                                                kind: EndKind::Succeed(false),
                                                            };
                                                        },
                                                        _ => {
                                                            proof {
                                                                assert(false);
                                                            }
                                                        },
                                                    }
                                                    self.substep = 0;
                                                    self.progress = TaskProgress::Completing(
                                                        Some(String::from_str("Sending embed")),
                                                    );
                                                },
                                            }
                                        } else {
                                            self.progress = TaskProgress::Error(
                                                TaskError::Scheme.to_string("H/URL"),
                                            );
                                        }
                                    },
                                    _ => {
                                        self.progress = TaskProgress::Error(
                                            TaskError::Scheme.to_string("H/V"),
                                        );
                                    },
                                }
                            }
                        },
                    }
                } else {
                    let content = match retrieve(
                        &rep.body,
                        "<p class=\"field-validation-error\">",
                        "</p>",
                    ) {
                        Some(desc) => desc,
                        None => String::from_str("<Can't parse error>"),
                    };
                    let mut prev = Step::Start;
                    core::mem::swap(&mut self.step, &mut prev);
                    match prev {
                        Step::Process { cart, order: _ } => {
                            self.step = Step::End { content, cart, kind: EndKind::Failed };
                        },
                        _ => {
                            proof {
                                assert(false);
                            }
                        },
                    }
                    self.substep = 0;
                    self.progress = TaskProgress::Completing(None);
                }
            },
        }
    }

    /// Settles the task on the outcome of its notification delivery.
    /// Delivery is judged solely by the remote returning the empty-body
    /// success status: then the task ends `Complete` for a succeeded or
    /// user-action outcome and `Failed` for a failed one.  Any other
    /// status (or none) leaves the task at the `webhook error`, with the
    /// end step kept so a retry re-sends only the notification.
    pub fn resolve_notify(&mut self, status: Option<u16>)
        requires
            old(self).wf(),
            !old(self).inert(),
            old(self).step is End,
        ensures
            final (self).wf(),
            keeps_inputs(*old(self), *final (self)),
            final (self).stopped == old(self).stopped,
            progress_step_ok(old(self).progress, final (self).progress),
            final (self).step == old(self).step,
            final (self).substep == old(self).substep,
            (match old(self).step {
                Step::End { content: _, cart: _, kind } => {
                    if status matches Some(st) && st == 204 {
                        match kind {
                            EndKind::Succeed(confirmed) => if confirmed {
                                &&& final (self).progress matches TaskProgress::Complete(m)
                                &&& m matches Some(t) && t@ == "Success"@
                            } else {
                                &&& final (self).progress matches TaskProgress::Complete(m)
                                &&& m matches Some(t) && t@ == "Success (Unconfirmed)"@
                            },
                            EndKind::UserAction => {
                                &&& final (self).progress matches TaskProgress::Complete(m)
                                &&& m matches Some(t) && t@ == "User Action Required"@
                            },
                            EndKind::Failed => {
                                &&& final (self).progress matches TaskProgress::Failed(m)
                                &&& m matches Some(t) && t@ == "Bank error"@
                            },
                        }
                    } else {
                        final (self).progress matches TaskProgress::Error(m) && m@
                            == "webhook error"@
                    }
                },
                _ => true,
            }),
    {
        let delivered = match status {
            Some(st) => st == 204,
            None => false,
        };
        if delivered {
            match &self.step {
                Step::End { content: _, cart: _, kind } => match kind {
                    EndKind::Succeed(confirmed) => {
                        if *confirmed {
                            self.progress = TaskProgress::Complete(
                                Some(String::from_str("Success")),
                            );
                        } else {
                            self.progress = TaskProgress::Complete(
                                Some(String::from_str("Success (Unconfirmed)")),
                            );
                        }
                    },
                    EndKind::UserAction => {
                        self.progress = TaskProgress::Complete(
                            Some(String::from_str("User Action Required")),
                        );
                    },
                    EndKind::Failed => {
                        self.progress = TaskProgress::Failed(
                            Some(String::from_str("Bank error")),
                        );
                    },
                },
                _ => {
                    proof {
                        assert(false);
                    }
                },
            }
        } else {
            self.progress = TaskProgress::Error(String::from_str("webhook error"));
        }
    }

    /// Advances the machine on the outcome of one site exchange, per
    /// the sub-step the task stands at.  Transport failures and
    /// surfaced bans halt the task with a tier-tagged error (except at
    /// the confirmation exchange, which only leaves the outcome
    /// unconfirmed); replies advance, redirect, or halt the task as
    /// the per-sub-step contracts state.
    pub fn resolve_site(&mut self, e: SiteEvent)
        requires
            old(self).wf(),
            !old(self).inert(),
            old(self).step is Warmup || old(self).step is Process,
        ensures
            final (self).wf(),
            keeps_inputs(*old(self), *final (self)),
            final (self).stopped == old(self).stopped,
            progress_step_ok(old(self).progress, final (self).progress),
            !final (self).progress.is_terminal(),
            old(self).step is Warmup ==> {
                &&& old(self).substep == 0 ==> post_token_check(*old(self), *final (self), e)
                &&& old(self).substep == 1 ==> post_location(*old(self), *final (self), e)
                &&& old(self).substep == 2 ==> post_cart_check(
                    *old(self),
                    *final (self),
                    e,
                    old(self).tolerate(),
                )
                &&& old(self).substep == 3 ==> post_cart_clear(*old(self), *final (self), e)
            },
            old(self).step is Process ==> {
                &&& old(self).substep == 0 ==> post_availability(*old(self), *final (self), e)
                &&& old(self).substep == 1 ==> post_add_to_cart(
                    *old(self),
                    *final (self),
                    e,
                    old(self).tolerate(),
                )
                &&& old(self).substep == 2 ==> post_cart_capture(*old(self), *final (self), e)
                &&& old(self).substep == 3 ==> post_submit(*old(self), *final (self), e)
                &&& old(self).substep == 4 ==> post_confirm(*old(self), *final (self), e)
                &&& old(self).substep == 5 ==> post_fail_page(*old(self), *final (self), e)
            },
    {
        if matches!(&self.step, Step::Warmup { .. }) {
            self.resolve_warmup(e);
        } else {
            self.resolve_process(e);
        }
    }
}

} // verus!
