use vstd::prelude::*;

verus! {

/// The claims that an intent token carries.
#[derive(Debug, Clone, PartialEq, Eq)]
pub struct Claims {
    pub sub: String,
    pub exp: i64,
    pub iat: i64,
    pub intent_hash: String,
    pub permissions: Vec<String>,
}

} // verus!
