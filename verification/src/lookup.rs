//! Decisions over parsed lookups the application performs before
//! creating tasks: reading the account's profile out of the
//! personal-cabinet reply, and reading a product card and variant out
//! of the product reply.

use vstd::prelude::*;
use crate::models::{ProductCard, ResponseResult, ResponseValue, User, Variant};

verus! {

/// Why an account check failed: the session token is not accepted, or
/// the reply was unusable.
#[derive(Clone, Copy, PartialEq, Eq, Structural, Debug)]
pub enum AccountError {
    InvalidToken,
    Unknown,
}

impl AccountError {
    /// What `message` renders for this failure.
    pub open spec fn label(self) -> Seq<char> {
        match self {
            AccountError::InvalidToken => "Invalid token"@,
            AccountError::Unknown => "Unknown error"@,
        }
    }

    /// The human-readable description of this failure.
    pub fn message(&self) -> (r: String)
        ensures
            r@ == self.label(),
    {
        match self {
            AccountError::InvalidToken => String::from_str("Invalid token"),
            AccountError::Unknown => String::from_str("Unknown error"),
        }
    }
}

/// Reads the account holder's profile out of the personal-cabinet
/// reply: the token is invalid when the reply is not of the `Value`
/// shape, and a reply that did not parse or carries no user record is
/// unusable.
pub fn account_user(parsed: Option<ResponseResult>) -> (r: Result<User, AccountError>)
    ensures
        match parsed {
            Some(res) => match res.value {
                ResponseValue::Value(v) => match v.user {
                    Some(u) => r matches Ok(out) && out == u,
                    None => r matches Err(e) && e is Unknown,
                },
                _ => r matches Err(e) && e is InvalidToken,
            },
            None => r matches Err(e) && e is Unknown,
        },
{
    match parsed {
        Some(res) => match res.value {
            ResponseValue::Value(v) => match v.user {
                Some(u) => Ok(u),
                None => Err(AccountError::Unknown),
            },
            _ => Err(AccountError::InvalidToken),
        },
        None => Err(AccountError::Unknown),
    }
}

/// Reads the product card and its selected variant out of the product
/// reply, with the message shown for each way the reply can fall
/// short.
pub fn product_check(parsed: Option<ResponseResult>) -> (r: Result<
    (ProductCard, Variant),
    String,
>)
    ensures
        match parsed {
            Some(res) => match res.value {
                ResponseValue::Value(v) => match (v.data.variant, v.data.product_card) {
                    (Some(vr), Some(card)) => r matches Ok(p) && p.0 == card && p.1 == vr,
                    (None, _) => r matches Err(m) && m@ == "Can't parse product variant"@,
                    (Some(_), None) => r matches Err(m) && m@ == "Can't parse product info"@,
                },
                _ => r matches Err(m) && m@ == "Product scheme error"@,
            },
            None => r matches Err(m) && m@ == "Product not found"@,
        },
{
    match parsed {
        Some(res) => match res.value {
            ResponseValue::Value(v) => match v.data.variant {
                Some(vr) => match v.data.product_card {
                    Some(card) => Ok((card, vr)),
                    None => Err(String::from_str("Can't parse product info")),
                },
                None => Err(String::from_str("Can't parse product variant")),
            },
            _ => Err(String::from_str("Product scheme error")),
        },
        None => Err(String::from_str("Product not found")),
    }
}

} // verus!
