//! The failure taxonomy of the service and its mapping to wire status codes
//! and sanitized user-facing messages.

use vstd::prelude::*;
use vstd::string::*;

verus! {

/// A failure of a service operation.
///
/// The carried text of `StoreFailure` and `ConfigError` is internal detail:
/// it is recorded to the observability pipeline only and never echoed to the
/// caller. `NotFound` carries the identifier that matched no item, and
/// `InvalidInput` carries the validation message shown verbatim.
#[derive(Debug)]
pub enum AppError {
    StoreFailure(String),
    ConfigError(String),
    NotFound(u128),
    InvalidInput(String),
}

/// The wire status owed to each failure kind: store and configuration
/// failures surface as an internal server error, a missing item as not
/// found, a rejected payload as a bad request.
pub open spec fn status_of(e: AppError) -> u16 {
    match e {
        AppError::StoreFailure(_) => 500,
        AppError::ConfigError(_) => 500,
        AppError::NotFound(_) => 404,
        AppError::InvalidInput(_) => 400,
    }
}

/// The sanitized user-facing message of each failure kind. Internal detail
/// never appears here: store and configuration failures map to generic
/// text, a missing item names its identifier, a validation failure passes
/// its message through verbatim.
pub open spec fn message_of(e: AppError) -> Seq<char> {
    match e {
        AppError::StoreFailure(_) => "An internal database error occurred"@,
        AppError::ConfigError(_) => "Server configuration error"@,
        AppError::NotFound(id) => "Item with ID "@ + uuid_text(id) + " not found"@,
        AppError::InvalidInput(m) => m@,
    }
}

/// The character standing for a hex nibble, lowercase.
pub open spec fn hex_char(n: u128) -> char
    recommends
        n < 16,
{
    seq!['0', '1', '2', '3', '4', '5', '6', '7', '8', '9', 'a', 'b', 'c', 'd', 'e', 'f'][n as int]
}

/// The 32 lowercase hex digits of a 128-bit value, most significant nibble
/// first.
pub open spec fn uuid_hex(v: u128) -> Seq<char> {
    Seq::new(32, |i: int| hex_char((v >> (((31 - i) * 4) as u128)) & 0xf))
}

/// The canonical hyphenated text of a 128-bit identifier: the 32 hex digits
/// grouped 8-4-4-4-12 with hyphens between the groups.
pub open spec fn uuid_text(v: u128) -> Seq<char> {
    uuid_hex(v).subrange(0, 8) + seq!['-'] + uuid_hex(v).subrange(8, 12) + seq!['-'] + uuid_hex(
        v,
    ).subrange(12, 16) + seq!['-'] + uuid_hex(v).subrange(16, 20) + seq!['-'] + uuid_hex(
        v,
    ).subrange(20, 32)
}

/// Relies on `uuid::Uuid::from_u128`, which takes the value in big-endian
/// byte order, and on the `Display` of its hyphenated form: 32 lowercase hex
/// digits of the value, most significant nibble first, with hyphens after
/// the 8th, 12th, 16th and 20th digits.
#[verifier::external_body]
fn uuid_hyphenated(id: u128) -> (r: String)
    ensures
        r@ == uuid_text(id),
{
    uuid::Uuid::from_u128(id).hyphenated().to_string()
}

impl AppError {
    /// The wire status code of this failure.
    pub fn status_code(&self) -> (s: u16)
        ensures
            s == status_of(*self),
    {
        match self {
            AppError::StoreFailure(_) => 500,
            AppError::ConfigError(_) => 500,
            AppError::NotFound(_) => 404,
            AppError::InvalidInput(_) => 400,
        }
    }

    /// The sanitized message owed to the caller for this failure.
    pub fn user_message(&self) -> (m: String)
        ensures
            m@ == message_of(*self),
    {
        match self {
            AppError::StoreFailure(_) => String::from_str("An internal database error occurred"),
            AppError::ConfigError(_) => String::from_str("Server configuration error"),
            AppError::NotFound(id) => {
                let u = uuid_hyphenated(*id);
                String::from_str("Item with ID ").concat(u.as_str()).concat(" not found")
            },
            AppError::InvalidInput(m) => m.clone(),
        }
    }
}

} // verus!
