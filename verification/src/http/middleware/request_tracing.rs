//! Every request gets an id of its own, by which its answer and its log
//! lines are found again.

use crate::time::Timestamp;
use crate::utils::{epoch_millis, fresh_identifier, is_v7_text};
use vstd::prelude::*;

verus! {

#[derive(Clone, Debug)]
pub struct RequestContext {
    uuid: String,
}

impl RequestContext {
    pub closed spec fn id(&self) -> Seq<char> {
        self.uuid@
    }

    /// The context of a request that came in at `now`, with a fresh id.
    pub fn new(now: Timestamp) -> (context: Self)
        ensures
            is_v7_text(context.id(), epoch_millis(now)),
    {
        RequestContext { uuid: fresh_identifier(now) }
    }

    /// The id of the request, as it goes out in the `x-request-id` header.
    pub fn request_id(&self) -> (id: &str)
        ensures
            id@ == self.id(),
    {
        self.uuid.as_str()
    }
}

} // verus!
