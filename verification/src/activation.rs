//! The license-activation records: key-format validation, the payload
//! an activation request carries, and the activation error taxonomy.
//! The activation exchange itself is a single request/response flow
//! the surrounding application performs.

use vstd::prelude::*;

verus! {

/// An activation record as the license service issues it.
#[derive(Clone, Debug, PartialEq)]
pub struct Activation {
    pub fingerprint: String,
    pub key: String,
    pub name: String,
    pub email: String,
    pub company: String,
    pub suspended: bool,
    pub aid: String,
    pub exp: u64,
}

/// The payload of an activation request: the machine identity, the
/// application version, and the license key.
#[derive(Clone, Debug, PartialEq)]
pub struct ActivationPayload {
    pub os: String,
    pub os_version: String,
    pub fingerprint: String,
    pub hostname: String,
    pub app_version: String,
    pub user_hash: String,
    pub product_id: String,
    pub key: String,
}

/// `c` is an ASCII letter or digit.
pub open spec fn ascii_alnum(c: char) -> bool {
    ('0' <= c && c <= '9') || ('a' <= c && c <= 'z') || ('A' <= c && c <= 'Z')
}

/// A well-formed license key: forty-one characters, a dash at every
/// seventh position, ASCII letters and digits everywhere else.
pub open spec fn key_ok(s: Seq<char>) -> bool {
    &&& s.len() == 41
    &&& forall|i: int|
        0 <= i < 41 ==> (if (i + 1) % 7 == 0 {
            #[trigger] s[i] == '-'
        } else {
            ascii_alnum(s[i])
        })
}

impl Activation {
    /// Checks that a license key is well-formed.
    pub fn validate_key(key: &String) -> (r: bool)
        ensures
            r == key_ok(key@),
    {
        let s = key.as_str();
        if s.unicode_len() != 41 {
            return false;
        }
        let mut i: usize = 0;
        while i < 41
            invariant
                s@ == key@,
                key@.len() == 41,
                i <= 41,
                forall|k: int|
                    0 <= k < i ==> (if (k + 1) % 7 == 0 {
                        #[trigger] key@[k] == '-'
                    } else {
                        ascii_alnum(key@[k])
                    }),
            decreases 41 - i,
        {
            let c = s.get_char(i);
            if (i + 1) % 7 == 0 {
                if c != '-' {
                    proof {
                        if key_ok(key@) {
                            assert(key@[i as int] == '-');
                        }
                    }
                    return false;
                }
            } else {
                if !((c >= '0' && c <= '9') || (c >= 'a' && c <= 'z') || (c >= 'A' && c <= 'Z')) {
                    proof {
                        if key_ok(key@) {
                            assert(key@[i as int] == '-' || ascii_alnum(key@[i as int]));
                        }
                    }
                    return false;
                }
            }
            i = i + 1;
        }
        true
    }

    /// Assembles the activation payload from the license key and the
    /// machine identity the caller gathered (hostname, fingerprint,
    /// operating system and its version).
    pub fn payload(
        key: String,
        hostname: String,
        fingerprint: String,
        os: String,
        os_version: String,
    ) -> (r: ActivationPayload)
        ensures
            r.os@ == os@,
            r.os_version@ == os_version@,
            r.fingerprint@ == fingerprint@,
            r.hostname@ == hostname@,
            r.app_version@ == "0.1.0"@,
            r.user_hash@ == fingerprint@,
            r.product_id@ == "29c8e4a3-a2a6-411c-a4da-61b440be3f82"@,
            r.key@ == key@,
    {
        let user_hash = fingerprint.clone();
        ActivationPayload {
            os,
            os_version,
            user_hash,
            fingerprint,
            hostname,
            app_version: String::from_str("0.1.0"),
            product_id: String::from_str("29c8e4a3-a2a6-411c-a4da-61b440be3f82"),
            key,
        }
    }
}

/// The stage the activation flow stands at: waiting for a key,
/// checking one with the license service, or failed with an error.
#[derive(Clone, Copy, PartialEq, Eq, Structural, Debug)]
pub enum Stage {
    Waiting,
    Checking,
    Failed(ActivationError),
}

impl Default for Stage {
    /// The flow starts waiting for a key.
    fn default() -> (r: Stage)
        ensures
            r is Waiting,
    {
        Stage::Waiting
    }
}

/// Why an activation attempt failed.
#[derive(Clone, Copy, PartialEq, Eq, Structural, Debug)]
pub enum ActivationError {
    InvalidKeyFormat,
    InvalidKey,
    Connection,
    ConnectionTimeout,
    ActivationService,
    ActivationLimit,
    InvalidLicenseToken,
    LicenseExpired,
    RevokedLicense,
    Unknown,
}

impl ActivationError {
    /// A stable numeric code for each failure, zero for the unknown
    /// one.
    pub fn code(&self) -> (r: u8)
        ensures
            r == match *self {
                ActivationError::InvalidKeyFormat => 1u8,
                ActivationError::InvalidKey => 2u8,
                ActivationError::Connection => 3u8,
                ActivationError::ConnectionTimeout => 4u8,
                ActivationError::ActivationService => 5u8,
                ActivationError::ActivationLimit => 6u8,
                ActivationError::InvalidLicenseToken => 7u8,
                ActivationError::LicenseExpired => 8u8,
                ActivationError::RevokedLicense => 9u8,
                ActivationError::Unknown => 0u8,
            },
    {
        match *self {
            ActivationError::InvalidKeyFormat => 1,
            ActivationError::InvalidKey => 2,
            ActivationError::Connection => 3,
            ActivationError::ConnectionTimeout => 4,
            ActivationError::ActivationService => 5,
            ActivationError::ActivationLimit => 6,
            ActivationError::InvalidLicenseToken => 7,
            ActivationError::LicenseExpired => 8,
            ActivationError::RevokedLicense => 9,
            ActivationError::Unknown => 0,
        }
    }

    /// What `as_str` renders for this failure.
    pub open spec fn label(self) -> Seq<char> {
        match self {
            ActivationError::InvalidKeyFormat => "Incorrect key format"@,
            ActivationError::InvalidKey => "Invalid license key"@,
            ActivationError::Connection => "Connection error"@,
            ActivationError::ConnectionTimeout => "Connection timeout"@,
            ActivationError::ActivationService => "Activation service error"@,
            ActivationError::ActivationLimit => "Activation limit reached"@,
            ActivationError::InvalidLicenseToken => "Invalid license token"@,
            ActivationError::LicenseExpired => "License expired"@,
            ActivationError::RevokedLicense => "License has been revoked"@,
            ActivationError::Unknown => "Unknown error"@,
        }
    }

    /// The human-readable description of this failure.
    pub fn as_str(&self) -> (r: &'static str)
        ensures
            r@ == self.label(),
    {
        match *self {
            ActivationError::InvalidKeyFormat => "Incorrect key format",
            ActivationError::InvalidKey => "Invalid license key",
            ActivationError::Connection => "Connection error",
            ActivationError::ConnectionTimeout => "Connection timeout",
            ActivationError::ActivationService => "Activation service error",
            ActivationError::ActivationLimit => "Activation limit reached",
            ActivationError::InvalidLicenseToken => "Invalid license token",
            ActivationError::LicenseExpired => "License expired",
            ActivationError::RevokedLicense => "License has been revoked",
            ActivationError::Unknown => "Unknown error",
        }
    }
}

} // verus!
