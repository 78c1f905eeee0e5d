//! The error handle: empty, or the owner of exactly one error record.

use crate::quark::Quark;
use crate::text::{decode, fallback_text, Converted};
use vstd::prelude::*;
use vstd::utf8::*;

verus! {

/// One error record, as plain values: the domain it belongs to, the code
/// within that domain, and the message bytes, whose encoding is not known.
#[derive(Debug)]
pub struct GError {
    pub domain: Quark,
    pub code: i32,
    pub message: Vec<u8>,
}

/// What a record says.
pub struct Record {
    pub domain: Quark,
    pub code: i32,
    pub message: Seq<u8>,
}

impl View for GError {
    type V = Record;

    open spec fn view(&self) -> Record {
        Record { domain: self.domain, code: self.code, message: self.message@ }
    }
}

impl Clone for GError {
    /// An independent record that says the same.
    fn clone(&self) -> (copy: GError)
        ensures
            copy@ == self@,
    {
        GError { domain: self.domain, code: self.code, message: self.message.clone() }
    }
}

/// What a slot holds: nothing, or what its record says.
pub open spec fn slot_view(slot: Option<GError>) -> Option<Record> {
    match slot {
        Some(record) => Some(record@),
        None => None,
    }
}

/// A handle that is either unset or owns one error record.
#[derive(Debug)]
pub struct Error {
    record: Option<GError>,
}

impl View for Error {
    type V = Option<Record>;

    closed spec fn view(&self) -> Option<Record> {
        slot_view(self.record)
    }
}

/// A handle with no record in it.
pub fn unset() -> (e: Error)
    ensures
        e@ is None,
{
    Error { record: None }
}

/// A capability of an enumeration of error codes: the domain that the codes
/// belong to, and the mapping between codes and variants.
pub trait ErrorDomain: Sized {
    /// The quark of the domain. The argument serves only to name the
    /// enumeration.
    fn error_domain(of: Option<Self>) -> Quark;

    /// The code that stands for this variant.
    fn code(&self) -> i32;

    /// The variant that `code` stands for, if the enumeration has one.
    fn from_code(code: i32) -> Option<Self>;
}

/// How a record stands to a typed error domain.
#[derive(Debug, PartialEq, Eq)]
pub enum ErrorMatch<T> {
    /// The record belongs to another domain.
    NotInDomain,
    /// The record belongs to the domain, and its code is this variant.
    Known(T),
    /// The record belongs to the domain, but the enumeration has no variant
    /// for its code.
    Unknown(i32),
}

/// How a record stands to an enumeration of error codes, given the domain of
/// the enumeration and the variant, if any, that it has for the record's
/// code. The domain is compared first: a record of another domain is not in
/// the domain, whatever its code.
pub open spec fn classification<E>(
    record: Record,
    domain: Quark,
    variant: Option<E>,
) -> ErrorMatch<E> {
    if record.domain != domain {
        ErrorMatch::NotInDomain
    } else {
        match variant {
            Some(v) => ErrorMatch::Known(v),
            None => ErrorMatch::Unknown(record.code),
        }
    }
}

impl Clone for Error {
    /// An unset handle clones to an unset handle; a set one to a handle on
    /// an independent record with the same domain, code and message.
    fn clone(&self) -> (copy: Error)
        ensures
            copy@ == self@,
    {
        match &self.record {
            None => unset(),
            Some(record) => Error { record: Some(record.clone()) },
        }
    }
}

/// A clone owns a record exactly when the handle it was made from does, and
/// the two records have the same domain, the same code and the same message.
/// Each handle owns its record alone, so neither is changed by what becomes
/// of the other.
pub proof fn lemma_clone_says_the_same(handle: Error, copy: Error)
    requires
        call_ensures(Error::clone, (&handle,), copy),
    ensures
        copy.is_set() == handle.is_set(),
        handle.is_set() ==> copy@->0.domain == handle@->0.domain,
        handle.is_set() ==> copy@->0.code == handle@->0.code,
        handle.is_set() ==> copy@->0.message == handle@->0.message,
{
}

impl Default for Error {
    fn default() -> (e: Error)
        ensures
            e@ is None,
    {
        unset()
    }
}

impl Error {
    /// Whether the handle owns a record.
    pub open spec fn spec_is_set(&self) -> bool {
        self@ is Some
    }

    /// The slot that an operation reports its error through. A failing
    /// operation writes one record into it, and the handle then owns that
    /// record; an operation that succeeds leaves it alone.
    pub fn slot_ptr(&mut self) -> (slot: &mut Option<GError>)
        ensures
            slot_view(*slot) == old(self)@,
            final(self)@ == slot_view(*final(slot)),
    {
        &mut self.record
    }

    /// Whether the handle owns a record.
    #[verifier::when_used_as_spec(spec_is_set)]
    pub fn is_set(&self) -> (set: bool)
        ensures
            set == self.spec_is_set(),
    {
        self.record.is_some()
    }

    /// The domain and the code of the record.
    pub fn key(&self) -> (key: (Quark, i32))
        requires
            self.is_set(),
        ensures
            key == (self@->0.domain, self@->0.code),
    {
        let record = self.record.as_ref().unwrap();
        (record.domain, record.code)
    }

    /// The message as text. An unset handle answers `"no error"`. The
    /// message of a record is decoded as UTF-8 if it is UTF-8; otherwise
    /// `to_utf8` is asked to convert it from the locale's encoding, and its
    /// answer is taken only if it consumed the whole message; otherwise the
    /// message is rendered lossily.
    pub fn message<F: FnOnce(&[u8]) -> Option<Converted>>(&self, to_utf8: F) -> (text: String)
        requires
            self@ matches Some(record) ==> !valid_utf8(record.message) ==> forall|bytes: &[u8]|
                bytes@ == record.message ==> call_requires(to_utf8, (bytes,)),
        ensures
            self@ is None ==> text@ == "no error"@,
            self@ matches Some(record) ==> valid_utf8(record.message) ==> text@ == decode_utf8(
                record.message,
            ),
            self@ matches Some(record) ==> !valid_utf8(record.message) ==> exists|
                bytes: &[u8],
                conversion: Option<Converted>,
            |
                bytes@ == record.message && call_ensures(to_utf8, (bytes,), conversion) && text@
                    == fallback_text(record.message, conversion),
    {
        match &self.record {
            None => "no error".to_owned(),
            Some(record) => decode(record.message.as_slice(), to_utf8),
        }
    }

    /// Whether the record matches `expected`, by the judgement of `equals`:
    /// the predicate is handed the record's domain and code, then the domain
    /// and code of `expected`, and its answer is returned as it is.
    pub fn matches<E: ErrorDomain + Copy, F: FnOnce(Quark, i32, Quark, i32) -> bool>(
        &self,
        expected: E,
        equals: F,
    ) -> (matched: bool)
        requires
            self.is_set(),
            forall|domain: Quark, code: i32|
                call_requires(equals, (self@->0.domain, self@->0.code, domain, code)),
        ensures
            exists|domain: Quark, code: i32|
                call_ensures(E::error_domain, (Some(expected),), domain) && call_ensures(
                    E::code,
                    (&expected,),
                    code,
                ) && call_ensures(equals, (self@->0.domain, self@->0.code, domain, code), matched),
    {
        let key = self.key();
        let domain = E::error_domain(Some(expected));
        let code = expected.code();
        equals(key.0, key.1, domain, code)
    }

    /// Classifies the record against the enumeration `E`: asks `E` for its
    /// domain and, if that is the record's domain, for the variant of the
    /// record's code. The result is the [`classification`] of the record
    /// under those two answers.
    pub fn to_domain<E: ErrorDomain>(&self) -> (found: ErrorMatch<E>)
        requires
            self.is_set(),
        ensures
            exists|domain: Quark, variant: Option<E>|
                call_ensures(E::error_domain, (None,), domain) && (domain == self@->0.domain
                    ==> call_ensures(E::from_code, (self@->0.code,), variant)) && found
                    == classification(self@->0, domain, variant),
    {
        let key = self.key();
        let domain = E::error_domain(None);
        if key.0 != domain {
            assert(ErrorMatch::<E>::NotInDomain == classification::<E>(self@->0, domain, None));
            return ErrorMatch::NotInDomain;
        }
        let variant = E::from_code(key.1);
        assert(classification(self@->0, domain, variant) == match variant {
            Some(v) => ErrorMatch::Known(v),
            None => ErrorMatch::Unknown(key.1),
        });
        match variant {
            Some(v) => ErrorMatch::Known(v),
            None => ErrorMatch::Unknown(key.1),
        }
    }
}

} // verus!
