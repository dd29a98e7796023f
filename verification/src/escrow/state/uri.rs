//! The link to what a market is about.

use vstd::prelude::*;
use vstd::string::StringSliceAdditionalSpecFns;

use crate::escrow::error::ErrorCode;

verus! {

/// The longest URI that a market can hold, in bytes.
pub const URI_MAX_LEN: usize = 256;

/// A string URI.
#[derive(Clone, Copy, Debug)]
pub struct UriResource {
    /// The length of the URI.
    pub len: u16,
    /// The URI buffer.
    pub uri: [u8; 256],
}

impl View for UriResource {
    type V = Seq<u8>;

    /// The bytes of the URI: the first `len` bytes of the buffer.
    open spec fn view(&self) -> Seq<u8> {
        self.uri@.subrange(0, self.len as int)
    }
}

impl UriResource {
    /// The number of bytes that a stored URI takes.
    pub const LEN: usize = 2 + URI_MAX_LEN;

    /// The length fits the buffer, and the buffer holds zeros behind the URI.
    pub open spec fn wf(&self) -> bool {
        &&& self.len <= URI_MAX_LEN
        &&& forall|i: int| self.len <= i < URI_MAX_LEN ==> self.uri[i] == 0
    }

    /// Validates the resource.
    ///
    /// A URI of up to 256 bytes is stored with its length, in a buffer that
    /// is zero behind it. A longer one is refused.
    pub fn validate(uri: &str) -> (res: Result<UriResource, ErrorCode>)
        ensures
            uri.spec_bytes().len() > URI_MAX_LEN ==> res == Err::<UriResource, ErrorCode>(
                ErrorCode::InvalidMarketResource,
            ),
            uri.spec_bytes().len() <= URI_MAX_LEN ==> res.is_ok() && res.unwrap().wf()
                && res.unwrap()@ == uri.spec_bytes(),
    {
        let source = uri.as_bytes();
        let len: usize = source.len();
        if len > URI_MAX_LEN {
            return Err(ErrorCode::InvalidMarketResource);
        }
        let mut bytes = [0u8; 256];
        let mut i: usize = 0;
        while i < len
            invariant
                i <= len <= URI_MAX_LEN,
                len == source@.len(),
                forall|j: int| 0 <= j < i ==> bytes[j] == source@[j],
                forall|j: int| i <= j < URI_MAX_LEN ==> bytes[j] == 0,
            decreases len - i,
        {
            bytes[i] = source[i];
            i += 1;
        }
        let res = UriResource { len: len as u16, uri: bytes };
        assert(res@ =~= uri.spec_bytes());
        Ok(res)
    }
}

impl Default for UriResource {
    /// The empty URI.
    fn default() -> (res: UriResource)
        ensures
            res.wf(),
            res.len == 0,
    {
        UriResource { len: 0, uri: [0u8; 256] }
    }
}

} // verus!
