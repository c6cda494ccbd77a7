//! Small conversions used at the edges: absent values and foreign errors
//! become a [`ProxyError`] with a message, and bytes become text.

use vstd::prelude::*;
use vstd::utf8::{decode_utf8, is_char_boundary, valid_utf8};
use vstd::string::to_string_from_display_ensures;
use vstd::string::StringSliceAdditionalSpecFns;

verus! {

/// An error that is nothing but its message.
#[derive(Debug, PartialEq, Eq)]
pub struct ProxyError {
    pub message: String,
}

impl View for ProxyError {
    type V = Seq<char>;

    open spec fn view(&self) -> Seq<char> {
        self.message@
    }
}

impl Clone for ProxyError {
    fn clone(&self) -> (e: ProxyError)
        ensures
            e@ == self@,
    {
        ProxyError { message: self.message.clone() }
    }
}

/// The error type of `core::str::from_utf8`. Nothing is said of what is in
/// it.
#[verifier::external_type_specification]
#[verifier::external_body]
pub struct ExUtf8Error(core::str::Utf8Error);

/// What is taken on trust of `core::str::from_utf8`, as its documentation
/// has it: it succeeds on the byte sequences that are well-formed UTF-8 and
/// on no others, and the text it returns has those bytes.
pub assume_specification[ core::str::from_utf8 ](v: &[u8]) -> (r: Result<
    &str,
    core::str::Utf8Error,
>)
    ensures
        r is Ok <==> valid_utf8(v@),
        r matches Ok(s) ==> s.spec_bytes() == v@,
;

/// Turns an absent value into an error with the message `msg`.
pub trait OptionConvert<T> {
    fn option_to_res(self, msg: &str) -> Result<T, ProxyError>;
}

impl<T> OptionConvert<T> for Option<T> {
    fn option_to_res(self, msg: &str) -> (r: Result<T, ProxyError>)
        ensures
            self matches Some(v) ==> r == Ok::<T, ProxyError>(v),
            self is None ==> (r matches Err(e) && e@ == msg@),
    {
        option_convert(self, msg)
    }
}

/// Turns a foreign error into an error whose message `f` makes of it.
pub trait StdResConvert<T, E>: Sized {
    /// The foreign error that the value holds, if it holds one.
    spec fn failure(self) -> Option<E>;

    /// `f` is called on the foreign error only, so it need accept nothing
    /// else.
    fn res_convert<F: FnOnce(E) -> String>(self, f: F) -> (r: Result<T, ProxyError>)
        requires
            self.failure() matches Some(e) ==> call_requires(f, (e,)),
    ;
}

impl<T, E> StdResConvert<T, E> for Result<T, E> {
    open spec fn failure(self) -> Option<E> {
        match self {
            Ok(_) => None,
            Err(e) => Some(e),
        }
    }

    fn res_convert<F: FnOnce(E) -> String>(self, f: F) -> (r: Result<T, ProxyError>)
        ensures
            self matches Ok(v) ==> r == Ok::<T, ProxyError>(v),
            self matches Err(e) ==> (r matches Err(p) && call_ensures(f, (e,), p.message)),
    {
        std_res_convert(self, f)
    }
}

/// Turns a foreign error into an error whose message is the error's own
/// text.
pub trait StdResAutoConvert<T, E: core::fmt::Display> {
    fn res_auto_convert(self) -> Result<T, ProxyError>;
}

impl<T, E: core::fmt::Display> StdResAutoConvert<T, E> for Result<T, E> {
    fn res_auto_convert(self) -> (r: Result<T, ProxyError>)
        ensures
            self matches Ok(v) ==> r == Ok::<T, ProxyError>(v),
            self matches Err(e) ==> (r matches Err(p) && to_string_from_display_ensures::<E>(
                &e,
                p.message,
            )),
    {
        match self {
            Ok(v) => Ok(v),
            Err(e) => Err(ProxyError { message: e.to_string() }),
        }
    }
}

/// The value of `o`, or an error with the message `msg` where there is none.
pub fn option_convert<T>(o: Option<T>, msg: &str) -> (r: Result<T, ProxyError>)
    ensures
        o matches Some(v) ==> r == Ok::<T, ProxyError>(v),
        o is None ==> (r matches Err(e) && e@ == msg@),
{
    match o {
        Some(v) => Ok(v),
        None => Err(ProxyError { message: msg.to_owned() }),
    }
}

/// The value of `res`, or an error whose message is what `f` returns for
/// the error of `res`. `f` is called on an error only.
pub fn std_res_convert<T, E, F: FnOnce(E) -> String>(res: Result<T, E>, f: F) -> (r: Result<
    T,
    ProxyError,
>)
    requires
        res matches Err(e) ==> call_requires(f, (e,)),
    ensures
        res matches Ok(v) ==> r == Ok::<T, ProxyError>(v),
        res matches Err(e) ==> (r matches Err(p) && call_ensures(f, (e,), p.message)),
{
    match res {
        Ok(v) => Ok(v),
        Err(e) => Err(ProxyError { message: f(e) }),
    }
}

/// The text of the first `len` bytes of `bytes`.
///
/// Bytes that are not well-formed UTF-8 give an error. Where they are, `len`
/// must not lie beyond them nor inside the encoding of a character.
pub fn str_convert(bytes: &[u8], len: usize) -> (r: Result<String, ProxyError>)
    requires
        valid_utf8(bytes@) ==> is_char_boundary(bytes@, len as int),
    ensures
        valid_utf8(bytes@) ==> (r matches Ok(s) && s@ == decode_utf8(
            bytes@.subrange(0, len as int),
        )),
        !valid_utf8(bytes@) ==> r is Err,
{
    broadcast use vstd::utf8::encode_utf8_decode_utf8;

    match core::str::from_utf8(bytes) {
        Ok(text) => {
            let (head, _) = text.split_at(len);
            Ok(head.to_owned())
        },
        Err(e) => Err(ProxyError { message: e.to_string() }),
    }
}

} // verus!
