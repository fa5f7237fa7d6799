//! The decision logic of the external product lookup: given the plain
//! outcome of a product-database request (performed by the surrounding
//! service), decide whether the response is usable and which error to
//! report otherwise. The engine itself performs no network traffic.

use vstd::prelude::*;

verus! {

/// Why a product lookup was rejected.
#[derive(Debug, PartialEq)]
pub enum PostIngredientPropertiesError {
    /// The request carried an empty product code; the empty code is
    /// echoed back.
    ProductCodeIsEmpty(String),
    /// The product database answered with a non-success status; the
    /// status text and the response body are carried along.
    HttpStatusNotSuccess(String, String),
    /// The product database does not know the product code.
    ProductCodeNotFound(String),
}

/// Validates a product code before any lookup is made: an empty code is
/// rejected, any other code passes through unchanged.
pub fn validate_product_code(product_code: String) -> (r: Result<
    String,
    PostIngredientPropertiesError,
>)
    ensures
        r == if product_code@.len() == 0 {
            Result::<String, PostIngredientPropertiesError>::Err(
                PostIngredientPropertiesError::ProductCodeIsEmpty(product_code),
            )
        } else {
            Result::<String, PostIngredientPropertiesError>::Ok(product_code)
        },
{
    if product_code.as_str().is_empty() {
        Err(PostIngredientPropertiesError::ProductCodeIsEmpty(product_code))
    } else {
        Ok(product_code)
    }
}

/// Decides what a completed product-database response means: a
/// non-success transport status is rejected first (with the status text
/// and body); a response whose payload marks the product as absent — a
/// lookup status of zero — is rejected as an unknown product code; any
/// other response yields its body, to be stored verbatim.
pub fn interpret_food_facts_response(
    product_code: String,
    status_is_success: bool,
    status_text: String,
    body: String,
    lookup_status: i64,
) -> (r: Result<String, PostIngredientPropertiesError>)
    ensures
        r == if !status_is_success {
            Result::<String, PostIngredientPropertiesError>::Err(
                PostIngredientPropertiesError::HttpStatusNotSuccess(status_text, body),
            )
        } else if lookup_status == 0 {
            Result::<String, PostIngredientPropertiesError>::Err(
                PostIngredientPropertiesError::ProductCodeNotFound(product_code),
            )
        } else {
            Result::<String, PostIngredientPropertiesError>::Ok(body)
        },
{
    if !status_is_success {
        return Err(PostIngredientPropertiesError::HttpStatusNotSuccess(status_text, body));
    }
    if lookup_status == 0 {
        return Err(PostIngredientPropertiesError::ProductCodeNotFound(product_code));
    }
    Ok(body)
}

} // verus!
