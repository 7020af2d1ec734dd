use crate::error::FastStringError;
use vstd::prelude::*;
use vstd::slice::slice_subrange;
use vstd::string::StringSliceAdditionalSpecFns;
use vstd::utf8::{decode_utf8, encode_utf8, valid_utf8};

verus! {

/// A string with inline storage for at most `N` bytes.
///
/// Its view is the sequence of content bytes: the first `len` bytes of the
/// storage. The bytes behind them are never observed.
#[derive(Debug)]
pub struct FastString<const N: usize> {
    buffer: [u8; N],
    len: usize,
}

impl<const N: usize> View for FastString<N> {
    type V = Seq<u8>;

    closed spec fn view(&self) -> Seq<u8> {
        self.buffer@.subrange(0, self.len as int)
    }
}

impl<const N: usize> Clone for FastString<N> {
    /// A copy with its own storage and the same content.
    fn clone(&self) -> (res: Self)
        ensures
            res@ == self@,
    {
        proof {
            use_type_invariant(self);
        }
        Self { buffer: self.buffer, len: self.len }
    }
}

/// The text that a sequence of content bytes stands for, if it is valid UTF-8.
pub open spec fn text_of(content: Seq<u8>) -> Result<Seq<char>, FastStringError> {
    if valid_utf8(content) {
        Ok(decode_utf8(content))
    } else {
        Err(FastStringError::MalformedText)
    }
}

/// What remains of `data` when it is appended to a string that holds `held`
/// bytes and has room for `capacity`: the longest prefix that still fits.
pub open spec fn fitting_prefix(held: int, capacity: int, data: Seq<u8>) -> Seq<u8> {
    if held + data.len() <= capacity {
        data
    } else if held <= capacity {
        data.take(capacity - held)
    } else {
        Seq::empty()
    }
}

/// `std::str::from_utf8`: the bytes are accepted exactly when they are valid
/// UTF-8, and the text returned is encoded by those very bytes.
#[verifier::external_body]
fn str_from_utf8(bytes: &[u8]) -> (res: Option<&str>)
    ensures
        res is Some <==> valid_utf8(bytes@),
        res is Some ==> res.unwrap().spec_bytes() == bytes@,
{
    match std::str::from_utf8(bytes) {
        Ok(text) => Some(text),
        Err(_) => None,
    }
}

impl<const N: usize> FastString<N> {
    #[verifier::type_invariant]
    spec fn inv(self) -> bool {
        self.len <= N
    }

    /// An empty string.
    pub fn new() -> (res: Self)
        ensures
            res@ == Seq::<u8>::empty(),
    {
        Self::from_buffer([0u8; N], 0)
    }

    /// Takes a full-size buffer and the number of its leading bytes that are
    /// content.
    pub fn from_buffer(buffer: [u8; N], len: usize) -> (res: Self)
        requires
            len <= N,
        ensures
            res@ == buffer@.take(len as int),
    {
        Self { buffer, len }
    }

    /// Copies `data` into a fresh string.
    pub fn from_slice(data: &[u8]) -> (res: Self)
        requires
            data@.len() <= N,
        ensures
            res@ == data@,
    {
        let mut buffer = [0u8; N];
        let mut i: usize = 0;
        while i < data.len()
            invariant
                i <= data@.len() <= N,
                buffer@.take(i as int) == data@.take(i as int),
            decreases data@.len() - i,
        {
            buffer[i] = data[i];
            i += 1;
            assert(buffer@.take(i as int) =~= data@.take(i as int)) by {
                assert forall|k: int| 0 <= k < i implies buffer@[k] == data@[k] by {
                    if k < i - 1 {
                        assert(buffer@[k] == buffer@.take(i - 1)[k]);
                        assert(data@[k] == data@.take(i - 1)[k]);
                    }
                }
            }
        }
        assert(data@.take(i as int) =~= data@);
        Self { buffer, len: i }
    }

    /// The bytes of `data` as a string.
    pub fn from_str(data: &str) -> (res: Self)
        requires
            data.spec_bytes().len() <= N,
        ensures
            res@ == data.spec_bytes(),
            res@.len() <= N,
            text_of(res@) == Ok::<Seq<char>, FastStringError>(data@),
    {
        proof {
            vstd::utf8::encode_utf8_valid_utf8(data@);
            vstd::utf8::encode_utf8_decode_utf8(data@);
        }
        Self::from_slice(data.as_bytes())
    }

    /// The number of content bytes.
    pub fn len(&self) -> (res: usize)
        ensures
            res == self@.len(),
            res <= N,
    {
        proof {
            use_type_invariant(self);
        }
        self.len
    }

    pub fn is_empty(&self) -> (res: bool)
        ensures
            res == (self@.len() == 0),
    {
        proof {
            use_type_invariant(self);
        }
        self.len == 0
    }

    /// The largest number of bytes that a string of this type holds.
    pub fn capacity() -> (res: usize)
        ensures
            res == N,
    {
        N
    }

    /// Appends one byte. The string must not be full.
    pub fn push(&mut self, c: u8)
        requires
            old(self)@.len() < N,
        ensures
            final(self)@ == old(self)@.push(c),
    {
        proof {
            use_type_invariant(&*self);
        }
        let ghost before = self@;
        self.buffer[self.len] = c;
        self.len += 1;
        assert(self@ =~= before.push(c));
    }

    /// Appends the bytes of `data`, all of which must fit.
    pub fn extend(&mut self, data: &str)
        requires
            old(self)@.len() + data.spec_bytes().len() <= N,
        ensures
            final(self)@ == old(self)@ + data.spec_bytes(),
    {
        let bytes = data.as_bytes();
        let mut i: usize = 0;
        while i < bytes.len()
            invariant
                i <= bytes@.len(),
                old(self)@.len() + bytes@.len() <= N,
                self@ == old(self)@ + bytes@.take(i as int),
            decreases bytes@.len() - i,
        {
            self.push(bytes[i]);
            i += 1;
            assert(bytes@.take(i as int) =~= bytes@.take(i - 1).push(bytes@[i - 1]));
            assert(self@ =~= old(self)@ + bytes@.take(i as int));
        }
        assert(bytes@.take(i as int) =~= bytes@);
    }

    /// Appends the bytes of `data` one by one and stops, without failing, when
    /// the string is full.
    pub fn extend_safe(&mut self, data: &str)
        ensures
            final(self)@ == old(self)@ + fitting_prefix(
                old(self)@.len() as int,
                N as int,
                data.spec_bytes(),
            ),
    {
        proof {
            use_type_invariant(&*self);
        }
        let bytes = data.as_bytes();
        let mut i: usize = 0;
        while i < bytes.len() && self.len() < N
            invariant
                i <= bytes@.len(),
                self@.len() <= N,
                self@ == old(self)@ + bytes@.take(i as int),
            decreases bytes@.len() - i,
        {
            self.push(bytes[i]);
            i += 1;
            assert(bytes@.take(i as int) =~= bytes@.take(i - 1).push(bytes@[i - 1]));
            assert(self@ =~= old(self)@ + bytes@.take(i as int));
        }
        proof {
            if i == bytes@.len() {
                assert(bytes@.take(i as int) =~= bytes@);
            }
        }
    }

    /// The content bytes.
    pub fn as_bytes(&self) -> (res: &[u8])
        ensures
            res@ == self@,
    {
        proof {
            use_type_invariant(self);
        }
        slice_subrange(self.buffer.as_slice(), 0, self.len)
    }

    /// The content as text, borrowed from the string.
    pub fn to_str(&self) -> (res: Result<&str, FastStringError>)
        ensures
            match text_of(self@) {
                Ok(text) => res is Ok && res->Ok_0@ == text && res->Ok_0.spec_bytes() == self@,
                Err(e) => res is Err && res->Err_0 == e,
            },
    {
        match str_from_utf8(self.as_bytes()) {
            Some(text) => {
                proof {
                    vstd::utf8::encode_utf8_decode_utf8(text@);
                }
                Ok(text)
            },
            None => Err(FastStringError::MalformedText),
        }
    }

    /// The content as text, in a string of its own.
    pub fn to_string(&self) -> (res: Result<String, FastStringError>)
        ensures
            match text_of(self@) {
                Ok(text) => res is Ok && res->Ok_0@ == text,
                Err(e) => res is Err && res->Err_0 == e,
            },
    {
        match self.to_str() {
            Ok(text) => Ok(text.to_owned()),
            Err(e) => Err(e),
        }
    }

    /// The text to show for this string: its content, or a placeholder where
    /// the content is not valid UTF-8.
    pub fn to_display_string(&self) -> (res: String)
        ensures
            res@ == display_text(self@),
    {
        match self.to_str() {
            Ok(text) => text.to_owned(),
            Err(_) => "<invalid UTF-8 string>".to_owned(),
        }
    }

    /// The content as an ordinary string; the bounded string is consumed.
    pub fn try_into(self) -> (res: Result<String, FastStringError>)
        ensures
            match text_of(self@) {
                Ok(text) => res is Ok && res->Ok_0@ == text,
                Err(e) => res is Err && res->Err_0 == e,
            },
    {
        self.to_string()
    }

    /// A bounded string with the bytes of `value`, or an error where they do
    /// not fit.
    pub fn try_from(value: &str) -> (res: Result<Self, FastStringError>)
        ensures
            yields(res, bounded_from_text(N as nat, value@)),
    {
        let bytes = value.as_bytes();
        if bytes.len() > N {
            return Err(FastStringError::CapacityExceeded);
        }
        Ok(Self::from_slice(bytes))
    }

    /// As [`FastString::try_from`], from an owned string.
    pub fn try_from_string(value: String) -> (res: Result<Self, FastStringError>)
        ensures
            yields(res, bounded_from_text(N as nat, value@)),
    {
        Self::try_from(value.as_str())
    }
}

impl<const N: usize> Default for FastString<N> {
    /// The empty string.
    fn default() -> (res: Self)
        ensures
            res@ == Seq::<u8>::empty(),
    {
        Self::new()
    }
}

/// The text shown for a string with the given content.
pub open spec fn display_text(content: Seq<u8>) -> Seq<char> {
    if valid_utf8(content) {
        decode_utf8(content)
    } else {
        "<invalid UTF-8 string>"@
    }
}

/// The bytes that a bounded string of the given capacity holds when it is
/// made from `text`, or the refusal where the encoded text does not fit.
pub open spec fn bounded_from_text(capacity: nat, text: Seq<char>) -> Result<
    Seq<u8>,
    FastStringError,
> {
    if encode_utf8(text).len() <= capacity {
        Ok(encode_utf8(text))
    } else {
        Err(FastStringError::CapacityExceeded)
    }
}

/// Whether `res` is what is owed for the outcome `expected`: a string with the
/// expected content, or the expected error.
pub open spec fn yields<const N: usize>(
    res: Result<FastString<N>, FastStringError>,
    expected: Result<Seq<u8>, FastStringError>,
) -> bool {
    match expected {
        Ok(content) => res is Ok && res->Ok_0@ == content,
        Err(e) => res is Err && res->Err_0 == e,
    }
}

/// Text that fits survives the way into a bounded string and back: the
/// conversion into the bounded string succeeds, and the bytes it holds are read
/// back as the same text.
pub proof fn lemma_text_round_trip(capacity: nat, text: Seq<char>)
    requires
        encode_utf8(text).len() <= capacity,
    ensures
        bounded_from_text(capacity, text) == Ok::<Seq<u8>, FastStringError>(encode_utf8(text)),
        text_of(encode_utf8(text)) == Ok::<Seq<char>, FastStringError>(text),
{
    vstd::utf8::encode_utf8_valid_utf8(text);
    vstd::utf8::encode_utf8_decode_utf8(text);
}

/// Text that does not fit is refused with `CapacityExceeded`.
pub proof fn lemma_oversized_text_refused(capacity: nat, text: Seq<char>)
    requires
        encode_utf8(text).len() > capacity,
    ensures
        bounded_from_text(capacity, text) == Err::<Seq<u8>, FastStringError>(
            FastStringError::CapacityExceeded,
        ),
{
}

} // verus!
