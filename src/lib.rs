//! Validation and decomposition of Ukrainian phone numbers.
//!
//! A number is written either in full international form (`+380` followed by
//! nine digits) or in local form (the nine digits alone). The nine digits split
//! into a two-digit operator or area code and a seven-digit subscriber number;
//! the code is resolved to a display name through a fixed registry.

pub mod registry;

pub use registry::get_operator_or_area_name;
pub use registry::is_mobile_operator;
pub mod parser;

pub use parser::{
    parse_phone_number, parse_phone_number_local, InputError, ParsePhoneNumberError,
    ParsedPhoneNumber, PhoneNumberParser,
};
pub mod laws;
