//! Models

use crate::text::{decimal, to_decimal};
use vstd::prelude::*;

verus! {

/// A status code on its way into a `ConnectAPIError`, which holds it as
/// text.
#[derive(Debug)]
pub struct StatusWrapper {
    /// The status code.
    pub status: u16,
}

impl From<StatusWrapper> for String {
    fn from(val: StatusWrapper) -> (s: String)
        ensures
            s@ == decimal(val.status as nat),
    {
        to_decimal(val.status as u64)
    }
}

impl vstd::std_specs::convert::FromSpecImpl<StatusWrapper> for String {
    open spec fn obeys_from_spec() -> bool {
        false
    }

    open spec fn from_spec(val: StatusWrapper) -> String {
        choose|s: String| s@ == decimal(val.status as nat)
    }
}

} // verus!
