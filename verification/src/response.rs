//! The normalized result of one fetch: a status code and the body text.
//! Converting the HTTP library's response type into this form happens at the
//! I/O boundary, outside the verified core.

use vstd::prelude::*;
use crate::digest::{fingerprint_of, sha224_digest, to_hex};

verus! {

/// Classification of a poll outcome: valid exactly when the HTTP status is
/// 200 (OK), whatever the body holds.
pub open spec fn is_valid_status(status: u16) -> bool {
    status == 200
}

/// A URL response reduced to its status code and body text.
pub struct UrlResponse {
    pub status: u16,
    pub body: String,
}

impl UrlResponse {
    /// The degenerate outcome substituted when the transport itself fails:
    /// a "no content" status and an empty body. It is never classified as
    /// valid, so a transport error counts as a failure like any bad status.
    pub fn invalid() -> (r: UrlResponse)
        ensures
            r.status == 204,
            r.body@ == Seq::<char>::empty(),
            !is_valid_status(r.status),
    {
        UrlResponse { status: 204, body: String::new() }
    }

    /// The fingerprint of the body: its SHA-224 digest as lowercase hex.
    pub fn hash(&self) -> (r: String)
        ensures
            r@ == fingerprint_of(self.body@),
    {
        let digest = sha224_digest(&self.body);
        to_hex(&digest)
    }

    /// Whether this outcome counts as a successful fetch.
    pub fn is_valid(&self) -> (r: bool)
        ensures
            r == is_valid_status(self.status),
    {
        self.status == 200
    }
}

} // verus!
