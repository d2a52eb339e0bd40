use std::collections::hash_map::DefaultHasher;
use std::hash::{Hash, Hasher};
use vstd::prelude::*;
use vstd::std_specs::convert::FromSpecImpl;
use vstd::std_specs::hash::DefaultHasherAdditionalSpecFns;

verus! {

/// The state of a `DefaultHasher` (as vstd models it: the list of byte
/// strings written so far) after `<str as Hash>::hash` has fed it the text `s`.
pub uninterp spec fn str_hash_state(state: Seq<Seq<u8>>, s: Seq<char>) -> Seq<Seq<u8>>;

/// Trusted: `<str as std::hash::Hash>::hash`.
///
/// Claims that the hasher state it leaves behind depends on nothing but the
/// state it found and the characters of `s` (it writes the bytes of the text
/// and a terminator, the same on every machine). Which bytes it writes is not
/// stated.
#[verifier::external_body]
fn feed_str(s: &str, hasher: &mut DefaultHasher)
    ensures
        final(hasher)@ == str_hash_state(old(hasher)@, s@),
{
    s.hash(hasher)
}

/// Trusted: `<usize as std::hash::Hash>::hash`.
///
/// Nothing is stated of the state it leaves behind: it writes the integer's
/// bytes in the machine's own width and byte order, so the hash of a `usize`
/// differs from one kind of machine to another.
#[verifier::external_body]
fn feed_usize(n: usize, hasher: &mut DefaultHasher) {
    n.hash(hasher)
}

/// The hash that a fresh `DefaultHasher` gives for the text `s`.
pub open spec fn spec_str_hash(s: Seq<char>) -> u64 {
    DefaultHasher::spec_finish(str_hash_state(Seq::<Seq<u8>>::empty(), s))
}

/// Hashes a text with a freshly created `DefaultHasher`.
pub fn str_hashed(s: &str) -> (h: u64)
    ensures
        h == spec_str_hash(s@),
        h == DefaultHasher::spec_finish(str_hash_state(Seq::<Seq<u8>>::empty(), s@)),
{
    let mut hasher = DefaultHasher::new();
    feed_str(s, &mut hasher);
    hasher.finish()
}

/// Hashes an index with a freshly created `DefaultHasher`.
pub fn usize_hashed(n: usize) -> (h: u64) {
    let mut hasher = DefaultHasher::new();
    feed_usize(n, &mut hasher);
    hasher.finish()
}

/// The identifier of a text is what a fresh `DefaultHasher` finishes with
/// after being fed the whole text: every character counts, not only a
/// prefix. Texts with the same characters get the same identifier, and the
/// identifier of a `String` is that of its text.
pub proof fn lemma_text_identifier_is_whole_text_hash(s: Seq<char>, t: Seq<char>)
    ensures
        spec_str_hash(s) == DefaultHasher::spec_finish(str_hash_state(Seq::<Seq<u8>>::empty(), s)),
        s == t ==> spec_str_hash(s) == spec_str_hash(t),
{
}

/// An identifier made from anything hashable: timers and subscriptions are
/// found again by it. Two identifiers are the same when their hashes are.
#[derive(Clone, Copy, PartialEq, Eq, Hash, Debug, Structural)]
pub struct AnyHashable(u64);

impl AnyHashable {
    /// The hash that identifies this value.
    pub closed spec fn spec_id(&self) -> u64 {
        self.0
    }

    #[verifier::when_used_as_spec(spec_id)]
    pub fn id(&self) -> (r: u64)
        ensures
            r == self.spec_id(),
    {
        self.0
    }

    /// The identifier that is the given hash.
    pub closed spec fn spec_from_id(id: u64) -> AnyHashable {
        AnyHashable(id)
    }

    pub proof fn lemma_spec_from_id(id: u64)
        ensures
            Self::spec_from_id(id).spec_id() == id,
    {
    }

    /// An identifier that is a given hash.
    pub fn from_id(id: u64) -> (r: Self)
        ensures
            r.spec_id() == id,
    {
        AnyHashable(id)
    }

    /// The identifier of a text.
    pub fn from_str(value: &str) -> (r: Self)
        ensures
            r.spec_id() == spec_str_hash(value@),
            r.spec_id() == DefaultHasher::spec_finish(
                str_hash_state(Seq::<Seq<u8>>::empty(), value@),
            ),
    {
        AnyHashable(str_hashed(value))
    }

    /// The identifier of a string: the same as that of its text.
    pub fn from_string(value: &String) -> (r: Self)
        ensures
            r.spec_id() == spec_str_hash(value@),
    {
        AnyHashable(str_hashed(value.as_str()))
    }

    /// The identifier of an index.
    pub fn from_usize(value: usize) -> (r: Self) {
        AnyHashable(usize_hashed(value))
    }
}

impl From<&str> for AnyHashable {
    fn from(value: &str) -> (r: Self) {
        AnyHashable(str_hashed(value))
    }
}

impl FromSpecImpl<&str> for AnyHashable {
    open spec fn obeys_from_spec() -> bool {
        true
    }

    open spec fn from_spec(v: &str) -> AnyHashable {
        AnyHashable::spec_from_id(spec_str_hash(v@))
    }
}

impl From<String> for AnyHashable {
    fn from(value: String) -> (r: Self) {
        AnyHashable(str_hashed(value.as_str()))
    }
}

impl FromSpecImpl<String> for AnyHashable {
    open spec fn obeys_from_spec() -> bool {
        true
    }

    open spec fn from_spec(v: String) -> AnyHashable {
        AnyHashable::spec_from_id(spec_str_hash(v@))
    }
}

impl From<&String> for AnyHashable {
    fn from(value: &String) -> (r: Self) {
        AnyHashable(str_hashed(value.as_str()))
    }
}

impl FromSpecImpl<&String> for AnyHashable {
    open spec fn obeys_from_spec() -> bool {
        true
    }

    open spec fn from_spec(v: &String) -> AnyHashable {
        AnyHashable::spec_from_id(spec_str_hash(v@))
    }
}

impl From<usize> for AnyHashable {
    fn from(value: usize) -> (r: Self) {
        AnyHashable(usize_hashed(value))
    }
}

/// The identifier of an index depends on the machine (see `feed_usize`), so
/// this conversion promises nothing of its result.
impl FromSpecImpl<usize> for AnyHashable {
    open spec fn obeys_from_spec() -> bool {
        false
    }

    open spec fn from_spec(v: usize) -> AnyHashable {
        arbitrary()
    }
}

} // verus!
