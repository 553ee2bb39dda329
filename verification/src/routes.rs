use vstd::prelude::*;

verus! {

/// Body of the JSON response for a route that does not exist.
pub struct ErrorResponse {
    pub error: String,
    pub message: String,
}

/// The response body served for unknown routes; the HTTP layer attaches the
/// 404 status code.
pub fn not_found_body() -> (r: ErrorResponse)
    ensures
        r.error@ == "404"@,
        r.message@ == "Page Not Found"@,
{
    ErrorResponse {
        error: String::from_str("404"),
        message: String::from_str("Page Not Found"),
    }
}

/// The body served on the generate page.
pub fn generate_text() -> (r: &'static str)
    ensures
        r@ == "Welcome to the generate page"@,
{
    "Welcome to the generate page"
}

/// The body served on the service listing.
pub fn list_services_text() -> (r: &'static str)
    ensures
        r@ == "list services"@,
{
    "list services"
}

} // verus!
