//! Quarks: the small integers that the registry hands out for interned
//! strings, and a cache slot that remembers the quark of one fixed string.

use std::sync::atomic::{AtomicUsize, Ordering};
use vstd::prelude::*;
use vstd::string::StringSliceAdditionalSpecFns;
use vstd::utf8::*;

verus! {

/// The identifier that the registry has assigned to a string. Zero is the
/// identifier of no string.
#[derive(Clone, Copy, Debug, PartialEq, Eq, Structural)]
pub struct Quark(pub u32);

/// Whether `bytes` end in a NUL byte, as the registry expects of the strings
/// it is handed.
pub open spec fn terminated(bytes: Seq<u8>) -> bool {
    bytes.len() > 0 && bytes.last() == 0
}

/// Whether `s` ends in a NUL byte.
pub fn is_terminated(s: &str) -> (yes: bool)
    ensures
        yes == terminated(s.spec_bytes()),
{
    let bytes = s.as_bytes();
    bytes.len() > 0 && bytes[bytes.len() - 1] == 0
}

impl Quark {
    /// Wraps an identifier that came from the registry.
    pub fn new(raw: u32) -> (q: Quark)
        ensures
            q == Quark(raw),
    {
        Quark(raw)
    }

    /// Interns `s`, a string that lives as long as the process and ends in a
    /// NUL byte, by one call of `intern`.
    pub fn from_static_str<F: FnOnce(&'static str) -> u32>(s: &'static str, intern: F) -> (q: Quark)
        requires
            terminated(s.spec_bytes()),
            call_requires(intern, (s,)),
        ensures
            call_ensures(intern, (s,), q.0),
    {
        Quark::new(intern(s))
    }

    /// The identifier as an unsigned machine word.
    pub fn to_uint(&self) -> (n: usize)
        ensures
            n == self.0,
    {
        self.0 as usize
    }

    /// The bytes of the string that this quark was assigned to, as `resolve`
    /// finds them in the registry.
    pub fn to_bytes<F: FnOnce(u32) -> &'static [u8]>(&self, resolve: F) -> (bytes: &'static [u8])
        requires
            call_requires(resolve, (self.0,)),
        ensures
            call_ensures(resolve, (self.0,), bytes),
    {
        resolve(self.0)
    }

    /// The string that this quark was assigned to, if its bytes are UTF-8.
    pub fn to_str<F: FnOnce(u32) -> &'static [u8]>(
        &self,
        resolve: F,
    ) -> (text: Result<&'static str, core::str::Utf8Error>)
        requires
            call_requires(resolve, (self.0,)),
        ensures
            exists|bytes: &'static [u8]|
                call_ensures(resolve, (self.0,), bytes) && (text is Ok <==> valid_utf8(bytes@))
                    && (text matches Ok(s) ==> s@ == decode_utf8(bytes@)),
    {
        let bytes = self.to_bytes(resolve);
        let text = core::str::from_utf8(bytes);
        proof {
            if let Ok(s) = text {
                encode_utf8_decode_utf8(s@);
            }
        }
        text
    }
}

/// A cache slot for the quark of one fixed string: the string, and a word
/// that is zero until the quark is known.
pub struct StaticQuark(pub &'static [u8], pub AtomicUsize);

/// One lookup through a slot: the quark it yields and the word the slot
/// holds afterwards, given the word `seen` in the slot and the identifier
/// `interned` that the registry has for the string. A filled slot answers by
/// itself; an empty one takes the registry's answer and keeps it.
pub open spec fn slot_lookup(seen: usize, interned: u32) -> (Quark, usize) {
    if seen != 0 {
        (Quark(seen as u32), seen)
    } else {
        (Quark(interned), interned as usize)
    }
}

/// Two lookups in a row through one slot yield the same quark, and the
/// second neither changes the slot nor depends on the registry, provided the
/// registry answered the first with the identifier of a string.
pub proof fn lemma_slot_lookup_twice(seen: usize, first: u32, second: u32)
    requires
        seen == 0 ==> first != 0,
    ensures
        slot_lookup(slot_lookup(seen, first).1, second).0 == slot_lookup(seen, first).0,
        slot_lookup(slot_lookup(seen, first).1, second).1 == slot_lookup(seen, first).1,
        slot_lookup(seen, first).1 != 0,
{
}

fn load_relaxed(slot: &AtomicUsize) -> usize {
    slot.load(Ordering::Relaxed)
}

fn store_relaxed(slot: &AtomicUsize, word: usize) {
    slot.store(word, Ordering::Relaxed)
}

impl StaticQuark {
    /// One lookup for `name` through a slot that was seen to hold `seen`:
    /// the quark, and the word for the slot to hold from now on. The result
    /// is [`slot_lookup`] of `seen` and of what `intern` answers; `intern` is
    /// called only if the slot was empty.
    pub fn lookup<F: FnOnce(&'static [u8]) -> u32>(
        seen: usize,
        name: &'static [u8],
        intern: F,
    ) -> (found: (Quark, usize))
        requires
            seen == 0 ==> call_requires(intern, (name,)),
        ensures
            exists|interned: u32|
                found == slot_lookup(seen, interned) && (seen == 0 ==> call_ensures(
                    intern,
                    (name,),
                    interned,
                )),
    {
        if seen != 0 {
            let found = (Quark::new(#[verifier::truncate] (seen as u32)), seen);
            assert(found == slot_lookup(seen, 0));
            found
        } else {
            let raw: u32 = intern(name);
            let found = (Quark::new(raw), raw as usize);
            assert(found == slot_lookup(seen, raw));
            found
        }
    }

    /// The quark of the slot's string. The slot is read once; if it is
    /// filled its quark is returned, and if it is empty the string is
    /// interned by one call of `intern` and the slot is filled. What other
    /// threads have stored is not known here, so the result is stated for
    /// some word that the slot may have held.
    pub fn get<F: FnOnce(&'static [u8]) -> u32>(&self, intern: F) -> (q: Quark)
        requires
            call_requires(intern, (self.0,)),
        ensures
            exists|seen: usize, interned: u32|
                q == slot_lookup(seen, interned).0 && (seen == 0 ==> call_ensures(
                    intern,
                    (self.0,),
                    interned,
                )),
    {
        let seen: usize = load_relaxed(&self.1);
        let (q, word) = StaticQuark::lookup(seen, self.0, intern);
        if seen == 0 {
            store_relaxed(&self.1, word);
        }
        q
    }
}

} // verus!
