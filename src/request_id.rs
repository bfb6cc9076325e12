//! The per-request identifier that routes may ask for.
use vstd::prelude::*;

verus! {

/// An identifier of one request.
pub struct RequestId<T = String>(pub T);

impl RequestId {
    /// The identifier stored for a request, or status 500 where none was
    /// stored.
    pub fn from_cached(cached: &Option<String>) -> (r: Result<RequestId, u16>)
        ensures
            match cached {
                Some(id) => (r matches Ok(RequestId(v)) && v@ == id@),
                None => r == Err::<RequestId, u16>(500),
            },
    {
        match cached {
            Some(id) => Ok(RequestId(id.clone())),
            None => Err(500),
        }
    }
}

} // verus!
