//! The outcome notification a finished task sends to its webhook: an
//! embed with an outcome-dependent title, color and field list.

use vstd::prelude::*;
use crate::digits::{spec_dec, u64_to_dec};
use crate::engine::{EndKind, Step, Task};

verus! {

/// One field of the notification embed.
#[derive(Clone, Debug, PartialEq)]
pub struct NotifyField {
    pub name: String,
    pub value: String,
    pub inline: bool,
}

/// The outcome notification: the webhook target and the embed's
/// content, ready for the caller to serialize and send.
#[derive(Clone, Debug, PartialEq)]
pub struct Notification {
    pub webhook_id: u64,
    pub webhook_token: String,
    pub username: String,
    pub title: String,
    pub description: String,
    pub color: u32,
    pub fields: Vec<NotifyField>,
    pub footer_text: String,
    pub footer_icon: String,
}

/// Field `f` carries exactly this name, value and inline flag.
pub open spec fn nf(f: NotifyField, name: Seq<char>, value: Seq<char>, inline: bool) -> bool {
    f.name@ == name && f.value@ == value && f.inline == inline
}

/// The embed's field list for a task that reached the end step:
/// always the task identity, masked account, site, product, variant
/// and size, elapsed and start time; plus the outcome-specific lead
/// field, total, and (except for a failed outcome) the estimated
/// delivery.
pub open spec fn notification_fields_ok(
    t: Task,
    elapsed: Seq<char>,
    started: Seq<char>,
    fields: Seq<NotifyField>,
) -> bool {
    match t.step {
        Step::End { content, cart, kind } => {
            let vname = match t.variant.name {
                Some(n) => n@,
                None => "-"@,
            };
            let sname = if t.variant.sizes@.len() == 1 {
                "-"@
            } else {
                t.size.name@
            };
            let deliv = match cart.delivery_interval_str {
                Some(d) => d@,
                None => "-"@,
            };
            &&& nf(fields[1], "Task ID"@, "#"@ + spec_dec(t.uid as nat), true)
            &&& nf(fields[2], "Account"@, "||"@ + t.account.0@ + "||"@, true)
            &&& nf(fields[3], "Site"@, "Wildberries"@, true)
            &&& nf(fields[4], "Product"@, t.card.name@, false)
            &&& nf(fields[5], "Variant (Color)"@, vname, true)
            &&& nf(fields[6], "Size"@, sname, true)
            &&& (match kind {
                EndKind::Succeed(_) => {
                    &&& fields.len() == 11
                    &&& nf(
                        fields[0],
                        "Order details"@,
                        "[Click](https://www.wildberries.ru"@ + content@ + ")"@,
                        false,
                    )
                    &&& nf(fields[7], "Total"@, spec_dec(cart.total_price as nat) + " RUB"@, true)
                    &&& nf(fields[8], "Estimated delivery"@, deliv, true)
                    &&& nf(fields[9], "Elapsed"@, elapsed + " sec"@, true)
                    &&& nf(fields[10], "Start Time"@, started, true)
                },
                EndKind::UserAction => {
                    &&& fields.len() == 11
                    &&& nf(
                        fields[0],
                        "Payment confirmation"@,
                        "[Click]("@ + content@ + ")"@,
                        false,
                    )
                    &&& nf(
                        fields[7],
                        "Amount of payment"@,
                        spec_dec(cart.total_price as nat) + " RUB"@,
                        true,
                    )
                    &&& nf(fields[8], "Estimated delivery"@, deliv, true)
                    &&& nf(fields[9], "Elapsed"@, elapsed + " sec"@, true)
                    &&& nf(fields[10], "Start Time"@, started, true)
                },
                EndKind::Failed => {
                    &&& fields.len() == 10
                    &&& nf(fields[0], "Description"@, content@, false)
                    &&& nf(fields[7], "Total"@, spec_dec(cart.total_price as nat) + " RUB"@, true)
                    &&& nf(fields[8], "Elapsed"@, elapsed + " sec"@, true)
                    &&& nf(fields[9], "Start Time"@, started, true)
                },
            })
        },
        _ => true,
    }
}

/// The embed title an outcome carries.
pub open spec fn notification_title(kind: EndKind) -> Seq<char> {
    match kind {
        EndKind::Succeed(confirmed) => if confirmed {
            "Successful Payment"@
        } else {
            "Successful Payment (Unconfirmed)"@
        },
        EndKind::UserAction => "Bank Payment Confirmation (3D-Secure)"@,
        EndKind::Failed => "Payment Failed"@,
    }
}

/// The embed description an outcome carries.
pub open spec fn notification_description(kind: EndKind) -> Seq<char> {
    match kind {
        EndKind::Succeed(_) => "Click the link below to see details of your order."@,
        EndKind::UserAction =>
            "User action required. Click the link below to complete your order payment."@,
        EndKind::Failed => ""@,
    }
}

/// The embed color an outcome carries.
pub open spec fn notification_color(kind: EndKind) -> u32 {
    match kind {
        EndKind::Succeed(confirmed) => if confirmed {
            51283
        } else {
            2712319
        },
        EndKind::UserAction => 16771584,
        EndKind::Failed => 16717636,
    }
}

impl Task {
    /// Builds the outcome notification for a task at the end step.
    /// `elapsed` is the formatted elapsed seconds and `started` the
    /// formatted start time, both rendered by the caller from its
    /// clock.
    pub fn notification(&self, elapsed: &str, started: &str) -> (r: Notification)
        requires
            self.wf(),
            self.step is End,
        ensures
            r.webhook_id == self.webhook.id,
            r.webhook_token@ == self.webhook.token@,
            r.username@ == "SDP Pre-Alpha"@,
            r.footer_text@ == "SDP Pre-Alpha (v0.1.0) (eWILDBERRIES)"@,
            r.footer_icon@
                == "https://en.gravatar.com/userimage/182691345/3ce2e13566d08dd3ae6513f6b0404900.png"@,
            (match self.step {
                Step::End { content: _, cart: _, kind } => {
                    &&& r.title@ == notification_title(kind)
                    &&& r.description@ == notification_description(kind)
                    &&& r.color == notification_color(kind)
                },
                _ => true,
            }),
            notification_fields_ok(*self, elapsed@, started@, r.fields@),
    {
        match &self.step {
            Step::End { content, cart, kind } => {
                let title = match kind {
                    EndKind::Succeed(confirmed) => if *confirmed {
                        "Successful Payment"
                    } else {
                        "Successful Payment (Unconfirmed)"
                    },
                    EndKind::UserAction => "Bank Payment Confirmation (3D-Secure)",
                    EndKind::Failed => "Payment Failed",
                };
                let description = match kind {
                    EndKind::Succeed(_) => "Click the link below to see details of your order.",
                    EndKind::UserAction =>
                        "User action required. Click the link below to complete your order payment.",
                    EndKind::Failed => "",
                };
                let color: u32 = match kind {
                    EndKind::Succeed(confirmed) => if *confirmed {
                        51283
                    } else {
                        2712319
                    },
                    EndKind::UserAction => 16771584,
                    EndKind::Failed => 16717636,
                };
                let mut fields: Vec<NotifyField> = Vec::new();
                match kind {
                    EndKind::Succeed(_) => {
                        fields.push(NotifyField {
                            name: String::from_str("Order details"),
                            value: String::from_str("[Click](https://www.wildberries.ru").concat(
                                content.as_str(),
                            ).concat(")"),
                            inline: false,
                        });
                    },
                    EndKind::UserAction => {
                        fields.push(NotifyField {
                            name: String::from_str("Payment confirmation"),
                            value: String::from_str("[Click](").concat(content.as_str()).concat(
                                ")",
                            ),
                            inline: false,
                        });
                    },
                    EndKind::Failed => {
                        fields.push(NotifyField {
                            name: String::from_str("Description"),
                            value: content.clone(),
                            inline: false,
                        });
                    },
                }
                fields.push(NotifyField {
                    name: String::from_str("Task ID"),
                    value: String::from_str("#").concat(u64_to_dec(self.uid).as_str()),
                    inline: true,
                });
                fields.push(NotifyField {
                    name: String::from_str("Account"),
                    value: String::from_str("||").concat(self.account.0.as_str()).concat("||"),
                    inline: true,
                });
                fields.push(NotifyField {
                    name: String::from_str("Site"),
                    value: String::from_str("Wildberries"),
                    inline: true,
                });
                fields.push(NotifyField {
                    name: String::from_str("Product"),
                    value: self.card.name.clone(),
                    inline: false,
                });
                fields.push(NotifyField {
                    name: String::from_str("Variant (Color)"),
                    value: match &self.variant.name {
                        Some(n) => n.clone(),
                        None => String::from_str("-"),
                    },
                    inline: true,
                });
                fields.push(NotifyField {
                    name: String::from_str("Size"),
                    value: if self.variant.sizes.len() == 1 {
                        String::from_str("-")
                    } else {
                        self.size.name.clone()
                    },
                    inline: true,
                });
                let total = u64_to_dec(cart.total_price).concat(" RUB");
                match kind {
                    EndKind::UserAction => {
                        fields.push(NotifyField {
                            name: String::from_str("Amount of payment"),
                            value: total,
                            inline: true,
                        });
                    },
                    _ => {
                        fields.push(NotifyField {
                            name: String::from_str("Total"),
                            value: total,
                            inline: true,
                        });
                    },
                }
                if !matches!(kind, EndKind::Failed) {
                    fields.push(NotifyField {
                        name: String::from_str("Estimated delivery"),
                        value: match &cart.delivery_interval_str {
                            Some(d) => d.clone(),
                            None => String::from_str("-"),
                        },
                        inline: true,
                    });
                }
                fields.push(NotifyField {
                    name: String::from_str("Elapsed"),
                    value: String::from_str(elapsed).concat(" sec"),
                    inline: true,
                });
                fields.push(NotifyField {
                    name: String::from_str("Start Time"),
                    value: String::from_str(started),
                    inline: true,
                });
                Notification {
                    webhook_id: self.webhook.id,
                    webhook_token: self.webhook.token.clone(),
                    username: String::from_str("SDP Pre-Alpha"),
                    title: String::from_str(title),
                    description: String::from_str(description),
                    color,
                    fields,
                    footer_text: String::from_str("SDP Pre-Alpha (v0.1.0) (eWILDBERRIES)"),
                    footer_icon: String::from_str(
                        "https://en.gravatar.com/userimage/182691345/3ce2e13566d08dd3ae6513f6b0404900.png",
                    ),
                }
            },
            _ => {
                proof {
                    assert(false);
                }
                Notification {
                    webhook_id: 0,
                    webhook_token: String::new(),
                    username: String::new(),
                    title: String::new(),
                    description: String::new(),
                    color: 0,
                    fields: Vec::new(),
                    footer_text: String::new(),
                    footer_icon: String::new(),
                }
            },
        }
    }
}

} // verus!
