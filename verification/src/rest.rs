//! The request side: where the control API's resources are.

use crate::text::{decimal, push_decimal};
use vstd::prelude::*;
use vstd::string::StringExecFns;

verus! {

/// The address of the control API's resource `endpoint` on this machine's port `port`.
pub open spec fn address(port: u16, endpoint: Seq<char>) -> Seq<char> {
    "https://127.0.0.1:"@ + decimal(port as nat) + endpoint
}

/// The address of the control API's resource `endpoint` on this machine's port `port`.
pub fn url(port: u16, endpoint: &str) -> (r: String)
    ensures
        r@ == address(port, endpoint@),
{
    let mut out = String::from_str("https://127.0.0.1:");
    push_decimal(&mut out, port as u64);
    out.append(endpoint);
    out
}

} // verus!
