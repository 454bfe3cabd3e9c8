//! Reading one variable of the process environment: the name is validated
//! before the table is consulted, and what the table holds is decoded after.

use crate::error::Error;
use crate::text::{contains_nul, has_nul};
use vstd::prelude::*;
use vstd::utf8::{
    decode_utf8, encode_utf8, encode_utf8_decode_utf8, encode_utf8_valid_utf8, valid_utf8,
};

verus! {

/// `String::from_utf8` of the standard library, with the error discarded. The
/// standard library documents that it succeeds exactly when the bytes are
/// valid UTF-8, and that the string then holds those bytes. Not proved here.
#[verifier::external_body]
fn string_from_utf8(bytes: Vec<u8>) -> (text: Option<String>)
    ensures
        text is Some <==> valid_utf8(bytes@),
        text matches Some(s) ==> encode_utf8(s@) == bytes@,
{
    String::from_utf8(bytes).ok()
}

/// What looking up `name` comes to when the environment table holds `stored`
/// under it: `None` for an unset variable, else the bytes of its value.
///
/// A name with a NUL byte is an encoding error whatever the table holds. An
/// unset variable is not found. A value that is not valid UTF-8 is a decoding
/// error.
pub open spec fn lookup(name: Seq<char>, stored: Option<Seq<u8>>) -> Result<Seq<char>, Error> {
    if has_nul(name) {
        Err(Error::Encoding)
    } else {
        match stored {
            None => Err(Error::NotFound),
            Some(bytes) => if valid_utf8(bytes) {
                Ok(decode_utf8(bytes))
            } else {
                Err(Error::Decoding)
            },
        }
    }
}

/// The name of an environment variable that may be handed to the operating
/// system: it holds no NUL byte.
#[derive(Debug, PartialEq, Eq)]
pub struct VarName {
    text: String,
}

impl View for VarName {
    type V = Seq<char>;

    closed spec fn view(&self) -> Seq<char> {
        self.text@
    }
}

impl VarName {
    #[verifier::type_invariant]
    spec fn nul_free(self) -> bool {
        !has_nul(self@)
    }

    /// Validates the name of a variable. Nothing is read yet.
    pub fn new(var_id: &str) -> (r: Result<VarName, Error>)
        ensures
            match r {
                Ok(name) => !has_nul(var_id@) && name@ == var_id@,
                Err(e) => has_nul(var_id@) && e == Error::Encoding,
            },
    {
        if contains_nul(var_id) {
            Err(Error::Encoding)
        } else {
            Ok(VarName { text: var_id.to_owned() })
        }
    }

    /// The validated name.
    pub fn as_str(&self) -> (name: &str)
        ensures
            name@ == self@,
            !has_nul(name@),
    {
        proof {
            use_type_invariant(self);
        }
        self.text.as_str()
    }
}

/// Turns what the environment table holds under `var_id` into the variable's
/// text: `stored` is `None` where the variable is unset, else the bytes of its
/// value.
pub fn getenv(var_id: &VarName, stored: Option<Vec<u8>>) -> (r: Result<String, Error>)
    ensures
        !has_nul(var_id@),
        match r {
            Ok(text) => lookup(var_id@, stored.deep_view()) == Ok::<Seq<char>, Error>(text@),
            Err(e) => lookup(var_id@, stored.deep_view()) == Err::<Seq<char>, Error>(e),
        },
{
    proof {
        use_type_invariant(var_id);
    }
    match stored {
        None => Err(Error::NotFound),
        Some(bytes) => {
            assert(bytes.deep_view() =~= bytes@);
            match string_from_utf8(bytes) {
                Some(text) => {
                    proof {
                        encode_utf8_decode_utf8(text@);
                    }
                    Ok(text)
                },
                None => Err(Error::Decoding),
            }
        },
    }
}

/// Looking up a variable that is unset fails with `NotFound` unless the name
/// is rejected first, and a name with a NUL byte is rejected with `Encoding`
/// whatever the environment holds.
pub proof fn lemma_lookup_failures(name: Seq<char>, stored: Option<Seq<u8>>)
    ensures
        has_nul(name) ==> lookup(name, stored) == Err::<Seq<char>, Error>(Error::Encoding),
        !has_nul(name) ==> lookup(name, None) == Err::<Seq<char>, Error>(Error::NotFound),
{
}

/// A variable whose stored bytes are the UTF-8 encoding of a text is looked
/// up as that text.
pub proof fn lemma_lookup_text(name: Seq<char>, text: Seq<char>)
    requires
        !has_nul(name),
    ensures
        lookup(name, Some(encode_utf8(text))) == Ok::<Seq<char>, Error>(text),
{
    encode_utf8_valid_utf8(text);
    encode_utf8_decode_utf8(text);
}

} // verus!
