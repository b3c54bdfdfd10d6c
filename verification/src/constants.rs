use vstd::prelude::*;

verus! {

/// The version date sent with every request as the `v` query parameter.
pub const CURRENT_VERSION: &'static str = "20240304";

/// The maximum byte length of a text handed to the message endpoint.
pub const MAX_TEXT_LENGTH: usize = 280;

/// The base URL under which every endpoint lives.
pub const BASE_URL: &'static str = "https://api.wit.ai/";

} // verus!
