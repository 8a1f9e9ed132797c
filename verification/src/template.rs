//! Data for the verification mail template.

use vstd::prelude::*;

verus! {

/// What the verification mail's template is rendered from: the recipient's
/// chosen username, the issued code, and the site's display name.
#[derive(Debug)]
pub struct EmailVerify {
    pub username: String,
    pub code: u64,
    pub site_name: String,
}

impl EmailVerify {
    /// Pair a registration's username and code with the site name.
    pub fn new(username: String, code: u64, site_name: String) -> (r: Self)
        ensures
            r.username == username,
            r.code == code,
            r.site_name == site_name,
    {
        EmailVerify { username, code, site_name }
    }
}

} // verus!
