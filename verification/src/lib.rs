use vstd::prelude::*;

pub mod cache;
pub mod expiry;
pub mod query;
pub mod render;
pub mod retry;
pub mod types;
pub mod utils;

verus! {

/// Fixed identifying header value sent on every outbound request.
pub const USER_AGENT: &'static str =
    "Mozilla/5.0 (X11; Linux x86_64) AppleWebKit/537.36 (KHTML, like Gecko) Chrome/107.0.0.0 Safari/537.36 Edg/107.0.1418.24";

} // verus!
