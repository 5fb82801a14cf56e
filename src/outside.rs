use vstd::prelude::*;

verus! {

#[verifier::external_type_specification]
#[verifier::external_body]
pub struct ExInvalidHeaderName(http::header::InvalidHeaderName);

#[verifier::external_type_specification]
#[verifier::external_body]
pub struct ExInvalidHeaderValue(http::header::InvalidHeaderValue);

#[verifier::external_type_specification]
#[verifier::external_body]
pub struct ExUrlParseError(url::ParseError);

#[verifier::external_type_specification]
#[verifier::external_body]
pub struct ExIoError(std::io::Error);

/// Relies on the `Debug` impl of `http::header::InvalidHeaderName`, which
/// writes the struct's name and no field.
#[verifier::external_body]
pub(crate) fn header_name_debug(e: &http::header::InvalidHeaderName) -> (r: String)
    ensures
        r@ == "InvalidHeaderName"@,
{
    format!("{:?}", e)
}

/// Relies on the `Debug` impl of `http::header::InvalidHeaderValue`, which
/// writes the struct's name and no field.
#[verifier::external_body]
pub(crate) fn header_value_debug(e: &http::header::InvalidHeaderValue) -> (r: String)
    ensures
        r@ == "InvalidHeaderValue"@,
{
    format!("{:?}", e)
}

/// Relies on the `Debug` impl that url derives for `url::ParseError`.
#[verifier::external_body]
pub(crate) fn url_error_debug(e: &url::ParseError) -> String {
    format!("{:?}", e)
}

/// Relies on the `Debug` impl of `std::io::Error`, whose text may come from
/// the operating system.
#[verifier::external_body]
pub(crate) fn io_error_debug(e: &std::io::Error) -> String {
    format!("{:?}", e)
}

} // verus!
