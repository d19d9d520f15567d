use vstd::prelude::*;

verus! {

/// The errors of the library.
#[derive(Debug, Clone, Copy, PartialEq, Eq, Structural)]
pub enum N2NError {
    /// The configuration names no supernode.
    SnNumIsZero,
    /// The community name of the configuration is empty.
    CommunityNameNull,
    /// A pointer handed to the library was null.
    PtrNull,
    /// A negative `i32` cannot be handed on as a C `int` here.
    I32NegativeToCInt,
    /// A C character buffer of the first length cannot hold a slice of the
    /// second length.
    CCharLenTooLong(usize, usize),
    /// Any other error.
    UnKnown,
}

/// The character of the decimal digit `d`.
pub open spec fn digit_char(d: nat) -> char {
    (('0' as nat) + d) as char
}

/// The decimal digits of `n`, most significant first, with no leading zero.
pub open spec fn decimal(n: nat) -> Seq<char>
    decreases n,
{
    if n < 10 {
        seq![digit_char(n)]
    } else {
        decimal(n / 10).push(digit_char(n % 10))
    }
}

/// The message that describes `e`.
pub open spec fn error_message(e: N2NError) -> Seq<char> {
    match e {
        N2NError::SnNumIsZero => "no supernode"@,
        N2NError::CommunityNameNull => "conf.community_name is null"@,
        N2NError::PtrNull => "ptr is null"@,
        N2NError::I32NegativeToCInt => "i32 is negative when transform to c_int"@,
        N2NError::CCharLenTooLong(len, slice_len) => "c_char length "@ + decimal(len as nat)
            + " shorter than slice length "@ + decimal(slice_len as nat),
        N2NError::UnKnown => "Unknown error"@,
    }
}

/// The decimal text of `n`.
///
/// Calls `ToString::to_string` on the `usize`, which formats it with its
/// `Display` impl: the decimal digits, with no sign, padding or leading
/// zero.
#[verifier::external_body]
fn usize_to_decimal(n: usize) -> (s: String)
    ensures
        s@ == decimal(n as nat),
{
    n.to_string()
}

impl N2NError {
    /// The message that describes the error.
    pub fn message(&self) -> (m: String)
        ensures
            m@ == error_message(*self),
    {
        match self {
            N2NError::SnNumIsZero => String::from_str("no supernode"),
            N2NError::CommunityNameNull => String::from_str("conf.community_name is null"),
            N2NError::PtrNull => String::from_str("ptr is null"),
            N2NError::I32NegativeToCInt => String::from_str(
                "i32 is negative when transform to c_int",
            ),
            N2NError::CCharLenTooLong(len, slice_len) => {
                let mut m = String::from_str("c_char length ");
                m.append(usize_to_decimal(*len).as_str());
                m.append(" shorter than slice length ");
                m.append(usize_to_decimal(*slice_len).as_str());
                m
            },
            N2NError::UnKnown => String::from_str("Unknown error"),
        }
    }
}

} // verus!
