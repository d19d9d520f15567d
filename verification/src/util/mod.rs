//! Fixed-size C character buffers: filling them from bytes and reading the
//! C string they hold.

use vstd::prelude::*;
use vstd::utf8::{decode_utf8, valid_utf8};

use libc::c_char;

use crate::util::error::N2NError;

pub mod error;

verus! {

/// The contents of a C character buffer of `len` characters after the bytes
/// of `slice` were copied into its front and the rest was cleared to zero.
pub open spec fn padded_c_chars(slice: Seq<u8>, len: nat) -> Seq<c_char> {
    Seq::new(len, |i: int| if i < slice.len() { slice[i] as c_char } else { 0 as c_char })
}

/// The position of the first NUL character of `s`, or its length when it
/// holds none.
pub open spec fn first_nul(s: Seq<c_char>) -> nat
    decreases s.len(),
{
    if s.len() == 0 || s[0] == 0 {
        0
    } else {
        1 + first_nul(s.drop_first())
    }
}

/// The bytes of the C string that starts at the front of `s`: the
/// characters before its first NUL, each read as a byte.
pub open spec fn c_str_bytes(s: Seq<c_char>) -> Seq<u8> {
    s.take(first_nul(s) as int).map_values(|c: c_char| c as u8)
}

/// The position of the first zero byte of `s`, or its length when it holds
/// none.
pub open spec fn first_zero(s: Seq<u8>) -> nat
    decreases s.len(),
{
    if s.len() == 0 || s[0] == 0 {
        0
    } else {
        1 + first_zero(s.drop_first())
    }
}

/// The text that a lossy UTF-8 decoding makes of `bytes`: every maximal
/// invalid sequence is replaced by U+FFFD.
pub uninterp spec fn utf8_lossy(bytes: Seq<u8>) -> Seq<char>;

/// Decodes `bytes` as UTF-8, replacing what is not valid UTF-8.
///
/// Calls `String::from_utf8_lossy` and takes the owned string. The contract
/// names the result `utf8_lossy(bytes)` and states what the documentation
/// of `from_utf8_lossy` promises of valid input: it comes back decoded
/// unchanged. What becomes of invalid sequences is left to the name.
#[verifier::external_body]
fn decode_utf8_lossy(bytes: &[u8]) -> (s: String)
    ensures
        s@ == utf8_lossy(bytes@),
        valid_utf8(bytes@) ==> s@ == decode_utf8(bytes@),
{
    String::from_utf8_lossy(bytes).into_owned()
}

/// `n` is the position of the first NUL of `s`.
pub proof fn lemma_first_nul_at(s: Seq<c_char>, n: int)
    requires
        0 <= n <= s.len(),
        n < s.len() ==> s[n] == 0,
        forall|j: int| 0 <= j < n ==> s[j] != 0,
    ensures
        first_nul(s) == n,
    decreases n,
{
    if n > 0 {
        assert(s[0] != 0);
        lemma_first_nul_at(s.drop_first(), n - 1);
    }
}

/// `n` is the position of the first zero byte of `s`.
pub proof fn lemma_first_zero_at(s: Seq<u8>, n: int)
    requires
        0 <= n <= s.len(),
        n < s.len() ==> s[n] == 0,
        forall|j: int| 0 <= j < n ==> s[j] != 0,
    ensures
        first_zero(s) == n,
    decreases n,
{
    if n > 0 {
        assert(s[0] != 0);
        lemma_first_zero_at(s.drop_first(), n - 1);
    }
}

/// The first zero of `s` lies within `s`, and no zero comes before it.
pub proof fn lemma_first_zero_bounds(s: Seq<u8>)
    ensures
        first_zero(s) <= s.len(),
        first_zero(s) < s.len() ==> s[first_zero(s) as int] == 0,
        forall|j: int| 0 <= j < first_zero(s) ==> s[j] != 0,
    decreases s.len(),
{
    if s.len() > 0 && s[0] != 0 {
        lemma_first_zero_bounds(s.drop_first());
        assert forall|j: int| 0 <= j < first_zero(s) implies s[j] != 0 by {
            if j > 0 {
                assert(s[j] == s.drop_first()[j - 1]);
            }
        }
    }
}

/// A buffer filled from `slice` keeps its length, holds every byte of
/// `slice` at the same place, zero bytes included, and zeros after it.
pub proof fn theorem_padded_holds_slice(slice: Seq<u8>, len: nat)
    requires
        slice.len() < len,
    ensures
        padded_c_chars(slice, len).len() == len,
        forall|i: int|
            0 <= i < slice.len() ==> #[trigger] padded_c_chars(slice, len)[i] == slice[i] as c_char,
        forall|i: int| slice.len() <= i < len ==> #[trigger] padded_c_chars(slice, len)[i] == 0,
        forall|i: int|
            0 <= i < slice.len() ==> (#[trigger] padded_c_chars(slice, len)[i]) as u8 == slice[i],
{
    assert forall|i: int| 0 <= i < slice.len() implies (#[trigger] padded_c_chars(
        slice,
        len,
    )[i]) as u8 == slice[i] by {
        lemma_byte_as_c_char(slice[i]);
    }
}

/// A byte read as a C character and back is the same byte, and it is NUL
/// exactly when it is zero.
pub proof fn lemma_byte_as_c_char(b: u8)
    ensures
        (b as c_char) as u8 == b,
        ((b as c_char) == 0) == (b == 0),
{
    assert((b as i8) as u8 == b) by (bit_vector);
    assert(((b as i8) == 0) == (b == 0)) by (bit_vector);
}

/// Reading back what was copied: once a buffer longer than `slice` has been
/// filled from `slice`, the C string that the buffer holds is `slice` up to
/// its first zero byte (all of `slice` when it holds none), and the buffer
/// holds a NUL, so that it can be read.
pub proof fn theorem_copy_then_read(slice: Seq<u8>, len: nat)
    requires
        slice.len() < len,
    ensures
        padded_c_chars(slice, len).contains(0 as c_char),
        c_str_bytes(padded_c_chars(slice, len)) == slice.take(first_zero(slice) as int),
{
    let p = padded_c_chars(slice, len);
    let z = first_zero(slice) as int;
    lemma_first_zero_bounds(slice);
    if z < slice.len() {
        lemma_byte_as_c_char(slice[z]);
    }
    assert(p[z] == 0);
    assert forall|j: int| 0 <= j < z implies p[j] != 0 by {
        lemma_byte_as_c_char(slice[j]);
    }
    lemma_first_nul_at(p, z);
    let read = c_str_bytes(p);
    assert forall|j: int| 0 <= j < z implies #[trigger] read[j] == slice.take(z)[j] by {
        lemma_byte_as_c_char(slice[j]);
    }
    assert(read =~= slice.take(z));
}

/// Reading a buffer as a C string.
pub trait ToString {
    /// The buffer holds a NUL character, so that a C string ends in it.
    spec fn holds_c_str(&self) -> bool;

    /// The C string at the front of the buffer, decoded as UTF-8.
    fn to_string(&self) -> String
        requires
            self.holds_c_str(),
    ;
}

/// Filling a buffer from a byte slice.
pub trait CopyFromU8Slice {
    /// Copies `slice` into the buffer.
    fn copy_from_u8_slice(&mut self, slice: &[u8]) -> Result<(), N2NError>;
}

impl ToString for [c_char] {
    open spec fn holds_c_str(&self) -> bool {
        self@.contains(0 as c_char)
    }

    /// Reads the characters before the first NUL as bytes and decodes them
    /// lossily as UTF-8.
    fn to_string(&self) -> (s: String)
        ensures
            s@ == utf8_lossy(c_str_bytes(self@)),
            valid_utf8(c_str_bytes(self@)) ==> s@ == decode_utf8(c_str_bytes(self@)),
    {
        let len = self.len();
        let mut n: usize = 0;
        while self[n] != 0
            invariant
                len == self@.len(),
                n < len,
                forall|j: int| 0 <= j < n ==> self@[j] != 0,
                exists|k: int| n <= k < len && self@[k] == 0,
            decreases len - n,
        {
            n = n + 1;
        }
        proof {
            lemma_first_nul_at(self@, n as int);
        }
        let mut bytes: Vec<u8> = Vec::new();
        let mut i: usize = 0;
        while i < n
            invariant
                len == self@.len(),
                n < len,
                i <= n,
                bytes@ == self@.take(i as int).map_values(|c: c_char| c as u8),
            decreases n - i,
        {
            bytes.push(self[i] as u8);
            i = i + 1;
            assert(bytes@ =~= self@.take(i as int).map_values(|c: c_char| c as u8));
        }
        decode_utf8_lossy(bytes.as_slice())
    }
}

impl CopyFromU8Slice for [c_char] {
    /// A buffer shorter than `slice` is left unchanged and reported as
    /// `CCharLenTooLong` with both lengths. A buffer exactly as long as
    /// `slice` is left unchanged and reported as `Ok`. A longer buffer
    /// receives the bytes of `slice` at its front and zeros after them.
    fn copy_from_u8_slice(&mut self, slice: &[u8]) -> (r: Result<(), N2NError>)
        ensures
            old(self)@.len() < slice@.len() ==> r == Err::<(), N2NError>(
                N2NError::CCharLenTooLong(old(self)@.len() as usize, slice@.len() as usize),
            ),
            old(self)@.len() >= slice@.len() ==> r == Ok::<(), N2NError>(()),
            old(self)@.len() <= slice@.len() ==> final(self)@ == old(self)@,
            old(self)@.len() > slice@.len() ==> final(self)@ == padded_c_chars(
                slice@,
                old(self)@.len(),
            ),
            final(self)@.len() == old(self)@.len(),
            old(self)@.len() > slice@.len() ==> forall|i: int|
                0 <= i < slice@.len() ==> #[trigger] final(self)@[i] == slice@[i] as c_char,
            old(self)@.len() > slice@.len() ==> forall|i: int|
                slice@.len() <= i < old(self)@.len() ==> #[trigger] final(self)@[i] == 0,
    {
        let len = self.len();
        let slice_len = slice.len();
        if len < slice_len {
            return Err(N2NError::CCharLenTooLong(len, slice_len));
        }
        if len == slice_len {
            return Ok(());
        }
        let ghost target = padded_c_chars(slice@, len as nat);
        let mut i: usize = 0;
        while i < len
            invariant
                len == self@.len(),
                slice_len == slice@.len(),
                slice_len < len,
                target == padded_c_chars(slice@, len as nat),
                i <= len,
                forall|j: int| 0 <= j < i ==> self@[j] == target[j],
            decreases len - i,
        {
            if i < slice_len {
                self[i] = slice[i] as c_char;
            } else {
                self[i] = 0;
            }
            i = i + 1;
        }
        assert(self@ =~= target);
        Ok(())
    }
}

} // verus!
