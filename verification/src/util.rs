//! Small types that the rest of the crate builds on: a string that is stored
//! inline, and values that the site writes as strings.

use vstd::prelude::*;
use vstd::std_specs::cmp::PartialEqSpecImpl;
use vstd::utf8::*;
use vstd::string::*;
use serde_json::Value;
use crate::json::{value_from_str, value_model, JsonModel};
use crate::protocol::fields::{bool_of, read_bool, read_u64, u64_of};
use crate::text::{decimal_string, decimal_text, lemma_decimal_text, text_eq};

verus! {

/// `core::str::from_utf8`: the text that a byte slice encodes, when the bytes
/// are well-formed UTF-8, and nothing otherwise.
#[verifier::external_body]
fn utf8_text(bytes: &[u8]) -> (r: Option<&str>)
    ensures
        r.is_some() == valid_utf8(bytes@),
        r matches Some(s) ==> s.spec_bytes() == bytes@,
{
    core::str::from_utf8(bytes).ok()
}

/// Whether a text takes at most `max` bytes in UTF-8.
pub open spec fn fits(s: Seq<char>, max: nat) -> bool {
    encode_utf8(s).len() <= max
}

/// A string of at most `N` bytes, stored inline.
///
/// The bytes past the length are zero, so two values that hold the same text
/// are the same value.
#[derive(Clone, Copy, Debug)]
pub struct StackString<const N: usize>([u8; N], usize);

impl<const N: usize> StackString<N> {
    /// The bytes of the text.
    pub closed spec fn bytes(self) -> Seq<u8> {
        self.0@.subrange(0, self.1 as int)
    }

    /// Well-formedness: the length fits, the bytes are UTF-8, the rest is zero.
    #[verifier::type_invariant]
    pub closed spec fn wf(self) -> bool {
        &&& self.1 <= N
        &&& valid_utf8(self.bytes())
        &&& forall|i: int| self.1 <= i < N ==> self.0@[i] == 0u8
    }

    /// Stores `from`, which must fit.
    pub fn new(from: &str) -> (s: Self)
        requires
            fits(from@, N as nat),
        ensures
            s.wf(),
            s@ == from@,
    {
        let src = from.as_bytes();
        let len = src.len();
        let mut data = [0u8; N];
        let mut i: usize = 0;
        while i < len
            invariant
                len == src@.len(),
                len <= N,
                i <= len,
                forall|j: int| 0 <= j < i ==> data@[j] == src@[j],
                forall|j: int| i <= j < N ==> data@[j] == 0u8,
            decreases len - i,
        {
            data[i] = src[i];
            i += 1;
        }
        proof {
            broadcast use group_utf8_lib;
            assert(data@.subrange(0, len as int) =~= src@);
        }
        StackString(data, len)
    }

    /// Stores `from` if it fits in `N` bytes.
    pub fn try_new(from: &str) -> (r: Result<Self, ()>)
        ensures
            match r {
                Ok(s) => fits(from@, N as nat) && s.wf() && s@ == from@,
                Err(_) => !fits(from@, N as nat),
            },
    {
        if from.as_bytes().len() > N {
            Err(())
        } else {
            Ok(Self::new(from))
        }
    }

    /// A well-formed value holds a text that fits.
    pub proof fn lemma_fits(self)
        requires
            self.wf(),
        ensures
            fits(self@, N as nat),
    {
        broadcast use group_utf8_lib;

    }

    /// The number of bytes that the text takes.
    pub fn len(&self) -> (n: usize)
        ensures
            n == encode_utf8(self@).len(),
            n <= N,
    {
        proof {
            use_type_invariant(self);
            broadcast use group_utf8_lib;

        }
        self.1
    }

    /// The text.
    pub fn as_str(&self) -> (s: &str)
        ensures
            s@ == self@,
    {
        proof {
            use_type_invariant(self);
        }
        let bytes = vstd::slice::slice_subrange(self.0.as_slice(), 0, self.1);
        match utf8_text(bytes) {
            Some(s) => {
                proof {
                    broadcast use group_utf8_lib;
                }
                s
            },
            None => "",
        }
    }
}

impl<const N: usize> Default for StackString<N> {
    /// The empty text.
    fn default() -> (s: Self)
        ensures
            s.wf(),
            s@ == Seq::<char>::empty(),
    {
        let s = StackString([0u8; N], 0);
        assert(s.bytes() =~= Seq::<u8>::empty());
        s
    }
}

impl<const N: usize> PartialEq for StackString<N> {
    fn eq(&self, other: &Self) -> (r: bool) {
        text_eq(self.as_str(), other.as_str())
    }
}

impl<const N: usize> PartialEqSpecImpl for StackString<N> {
    open spec fn obeys_eq_spec() -> bool {
        true
    }

    open spec fn eq_spec(&self, other: &Self) -> bool {
        self@ == other@
    }
}

impl<const N: usize> Eq for StackString<N> {

}

impl<const N: usize> View for StackString<N> {
    type V = Seq<char>;

    closed spec fn view(&self) -> Seq<char> {
        decode_utf8(self.bytes())
    }
}

/// A truth value that is written as one of the strings `true` and `false`,
/// and read from such a string or from a boolean.
#[derive(Clone, Copy, Debug, PartialEq, Eq, PartialOrd, Ord, Hash, Structural)]
pub struct StringBool(pub bool);

impl StringBool {
    /// The document that stands for the value.
    pub open spec fn json(self) -> JsonModel {
        JsonModel::Str(
            if self.0 {
                "true"@
            } else {
                "false"@
            },
        )
    }

    /// Writes the value as a document.
    pub fn to_value(&self) -> (v: Value)
        ensures
            value_model(v) == self.json(),
    {
        if self.0 {
            value_from_str("true")
        } else {
            value_from_str("false")
        }
    }

    /// Reads a document.
    pub fn read(v: &Value) -> (r: Option<StringBool>)
        ensures
            r == (match bool_of(value_model(*v)) {
                Some(b) => Some(StringBool(b)),
                None => None,
            }),
    {
        match read_bool(v) {
            Some(b) => Some(StringBool(b)),
            None => None,
        }
    }

    /// Every value is read back from its own document.
    pub proof fn lemma_round_trip(self)
        ensures
            bool_of(self.json()) == Some(self.0),
    {
        reveal_strlit("true");
        reveal_strlit("false");
        assert("true"@.len() == 4);
        assert("false"@.len() == 5);
    }
}

/// A number that is written as a string of digits, and read from such a
/// string or from a number.
#[derive(Clone, Copy, Debug, PartialEq, Eq, PartialOrd, Ord, Hash, Structural)]
pub struct StringInteger(pub u64);

impl StringInteger {
    /// The document that stands for the number.
    pub open spec fn json(self) -> JsonModel {
        JsonModel::Str(decimal_text(self.0 as nat))
    }

    /// Writes the number as a document.
    pub fn to_value(&self) -> (v: Value)
        ensures
            value_model(v) == self.json(),
    {
        let text = decimal_string(self.0);
        value_from_str(text.as_str())
    }

    /// Reads a document.
    pub fn read(v: &Value) -> (r: Option<StringInteger>)
        ensures
            r == (match u64_of(value_model(*v)) {
                Some(n) => Some(StringInteger(n)),
                None => None,
            }),
    {
        match read_u64(v) {
            Some(n) => Some(StringInteger(n)),
            None => None,
        }
    }

    /// Every number is read back from its own document.
    pub proof fn lemma_round_trip(self)
        ensures
            u64_of(self.json()) == Some(self.0),
    {
        lemma_decimal_text(self.0 as nat);
    }
}

} // verus!
