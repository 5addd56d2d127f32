//! The failure vocabulary shared by every decoder, and the text that
//! describes a rejected field.
use vstd::prelude::*;
use vstd::string::StringExecFns;
use vstd::utf8::{decode_utf8, valid_utf8};

verus! {

broadcast use vstd::slice::group_slice_axioms;

#[verifier::external_type_specification]
#[verifier::external_body]
pub struct ExIoError(std::io::Error);

#[verifier::external_type_specification]
#[verifier::external_body]
pub struct ExFromUtf8Error(std::string::FromUtf8Error);

/// Why a header, a body or the stream could not be decoded.
#[derive(Debug)]
pub enum Error {
    /// A field failed a structural or semantic check.
    BadValue { expected: String, got: String },
    /// The byte source could not supply the bytes that were asked for.
    IO(std::io::Error),
    /// A precondition of the format failed, with no expected/got pair.
    Message(String),
    /// A field declared as text is not valid UTF-8.
    UTF8(std::string::FromUtf8Error),
}

/// `e` is a `BadValue` whose two descriptions read `expected` and `got`.
pub open spec fn is_bad_value(e: Error, expected: Seq<char>, got: Seq<char>) -> bool {
    &&& e matches Error::BadValue { expected: x, got: g }
    &&& x@ == expected
    &&& g@ == got
}

impl Error {
    /// A `BadValue` error.
    pub fn bad_value(expected: String, got: String) -> (r: Error)
        ensures
            r == (Error::BadValue { expected, got }),
    {
        Error::BadValue { expected, got }
    }

    /// A `Message` error.
    pub fn msg(s: String) -> (r: Error)
        ensures
            r == Error::Message(s),
    {
        Error::Message(s)
    }
}

/// The decimal digit for `d < 10`.
pub open spec fn digit(d: nat) -> char {
    ((d + 48) as u8) as char
}

/// Decimal notation of `n`, without leading zeros.
pub open spec fn dec(n: nat) -> Seq<char>
    decreases n,
{
    if n < 10 {
        seq![digit(n)]
    } else {
        dec(n / 10) + seq![digit(n % 10)]
    }
}

/// The bytes of `s` in decimal, separated by `", "`.
pub open spec fn join_dec(s: Seq<u8>) -> Seq<char>
    decreases s.len(),
{
    if s.len() == 0 {
        Seq::empty()
    } else if s.len() == 1 {
        dec(s[0] as nat)
    } else {
        join_dec(s.drop_last()) + ", "@ + dec(s.last() as nat)
    }
}

/// How many bytes of a rejected field an error message shows.
pub const PREVIEW: usize = 16;

/// The number of bytes shown of a field of `len` bytes.
pub open spec fn preview_len(len: nat) -> nat {
    if len > PREVIEW {
        PREVIEW as nat
    } else {
        len
    }
}

/// Description of a rejected byte field: its length, then at most
/// `PREVIEW` of its bytes, e.g. `3 B: [1, 2, 3]`.
pub open spec fn bytes_desc(s: Seq<u8>) -> Seq<char> {
    dec(s.len()) + " B: ["@ + join_dec(s.take(preview_len(s.len()) as int)) + (if s.len()
        > PREVIEW {
        ", ..."@
    } else {
        Seq::empty()
    }) + "]"@
}

/// Relies on `u64::to_string`: the decimal notation of `n`.
#[verifier::external_body]
pub(crate) fn decimal(n: u64) -> (r: String)
    ensures
        r@ == dec(n as nat),
{
    n.to_string()
}

/// Describes a rejected byte field for an error message.
pub fn describe_bytes(d: &[u8]) -> (r: String)
    ensures
        r@ == bytes_desc(d@),
{
    let len = d.len();
    let mut r = decimal(len as u64);
    r.append(" B: [");
    let n: usize = if len > PREVIEW {
        PREVIEW
    } else {
        len
    };
    let mut i: usize = 0;
    while i < n
        invariant
            n == preview_len(d@.len()),
            n <= d@.len(),
            i <= n,
            r@ == dec(d@.len()) + " B: ["@ + join_dec(d@.take(i as int)),
        decreases n - i,
    {
        if i > 0 {
            r.append(", ");
        }
        let s = decimal(d[i] as u64);
        r.append(s.as_str());
        assert(d@.take(i + 1).drop_last() =~= d@.take(i as int));
        i = i + 1;
    }
    if len > PREVIEW {
        r.append(", ...");
    }
    r.append("]");
    r
}

/// A `BadValue` error for the byte field `d`, which should have been `expected`.
pub fn bad_bytes(expected: &str, d: &[u8]) -> (e: Error)
    ensures
        is_bad_value(e, expected@, bytes_desc(d@)),
{
    Error::bad_value(String::from_str(expected), describe_bytes(d))
}

/// Relies on `String::from_utf8`: it accepts exactly the valid UTF-8 byte
/// sequences and keeps the bytes as they are.
#[verifier::external_body]
pub(crate) fn utf8_string(b: Vec<u8>) -> (r: Result<String, std::string::FromUtf8Error>)
    ensures
        match r {
            Ok(s) => valid_utf8(b@) && s@ == decode_utf8(b@),
            Err(_) => !valid_utf8(b@),
        },
{
    String::from_utf8(b)
}

/// Relies on `std::io::Error::from` with `ErrorKind::UnexpectedEof`: the
/// error of a source that ends before the bytes asked for.
#[verifier::external_body]
pub(crate) fn unexpected_eof() -> std::io::Error {
    std::io::Error::from(std::io::ErrorKind::UnexpectedEof)
}

} // verus!
