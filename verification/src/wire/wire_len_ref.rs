use vstd::prelude::*;
use vstd::string::StringSliceAdditionalSpecFns;
use vstd::utf8::valid_utf8;

verus! {

/// LEN wire value: a borrowed byte span that the caller reinterprets as a
/// `string`, opaque `bytes`, an embedded message, or a packed repeated
/// field.
#[derive(Debug, Copy, Clone, Eq, PartialEq, Hash, Ord, PartialOrd)]
pub struct WireLenRef<'a> {
    /// The borrowed payload bytes.
    pub data: &'a [u8],
}

impl<'a> WireLenRef<'a> {
    /// Returns the payload bytes.
    pub fn as_bytes(&self) -> (r: &[u8])
        ensures
            r@ == self.data@,
    {
        self.data
    }

    /// Interprets the payload as a UTF-8 string; returns `None` when the
    /// bytes are not valid UTF-8.
    pub fn try_as_string(&self) -> (r: Option<&str>)
        ensures
            r is Some <==> valid_utf8(self.data@),
            r matches Some(s) ==> s.spec_bytes() == self.data@,
    {
        bytes_to_str(self.data)
    }
}

/// Relies on `core::str::from_utf8`: it succeeds exactly on valid UTF-8,
/// and the returned string views the same bytes.
#[verifier::external_body]
fn bytes_to_str(data: &[u8]) -> (r: Option<&str>)
    ensures
        r is Some <==> valid_utf8(data@),
        r matches Some(s) ==> s.spec_bytes() == data@,
{
    core::str::from_utf8(data).ok()
}

} // verus!
