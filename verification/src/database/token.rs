use vstd::prelude::*;

verus! {

/// A bearer token and the user it authenticates.
#[derive(Clone)]
pub struct Token {
    pub token: String,
    pub user_id: u32,
}

} // verus!
