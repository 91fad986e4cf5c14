//! Requests of the plugin protocol: a JSON body, read as text.
use vstd::prelude::*;
use crate::codec::utf8_text;

verus! {

/// A request whose body has been read as a `T`.
pub struct RpcRequest<T>(pub T);

impl<T: Default> Default for RpcRequest<T> {
    fn default() -> (r: Self) {
        RpcRequest(T::default())
    }
}

/// The settings of reading a request (there are none).
#[derive(Clone)]
pub struct RpcRequestConfig {}

impl Default for RpcRequestConfig {
    fn default() -> (r: Self)
        ensures
            r == (RpcRequestConfig {}),
    {
        RpcRequestConfig {}
    }
}

/// The text of a request body that is parsed as JSON: the body as UTF-8, or
/// nothing where it is not UTF-8 (which then fails as JSON).
pub fn payload_text(body: Vec<u8>) -> (r: String)
    ensures
        vstd::utf8::valid_utf8(body@) ==> r@ == vstd::utf8::decode_utf8(body@),
        !vstd::utf8::valid_utf8(body@) ==> r@ == Seq::<char>::empty(),
{
    match utf8_text(body) {
        Some(v) => v,
        None => String::new(),
    }
}

} // verus!
