//! Constants of the service.

use vstd::prelude::*;

verus! {

/// The base URL of the service, which every builder starts with.
pub const DEFAULT_SERVER: &'static str = "https://authserver.mojang.com";

} // verus!
