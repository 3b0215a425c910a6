//! An owned UTF-8 string and the byte and string vectors that go with it.

use vstd::prelude::*;
use vstd::utf8::encode_utf8;

verus! {

/// A growable byte vector.
pub type U8Vec = Vec<u8>;

/// A vector of strings.
pub type StringVec = Vec<AzString>;

/// `String::into_bytes` of the standard library: the vector holds the UTF-8
/// encoding of the string it was made from.
pub assume_specification[ String::into_bytes ](s: String) -> (bytes: Vec<u8>)
    ensures
        bytes@ == encode_utf8(s@),
;

/// An owned string. Its view is the sequence of its characters.
#[derive(Debug, Eq, PartialOrd, Ord, Hash)]
pub struct AzString {
    s: String,
}

impl View for AzString {
    type V = Seq<char>;

    closed spec fn view(&self) -> Seq<char> {
        self.s@
    }
}

impl AzString {
    /// The UTF-8 encoding of the string.
    pub open spec fn spec_bytes(&self) -> Seq<u8> {
        encode_utf8(self@)
    }

    /// The owned string that holds the characters of `input`.
    pub closed spec fn spec_from_string(input: String) -> AzString {
        AzString { s: input }
    }

    /// The standard string that holds the characters of `self`.
    pub closed spec fn spec_into_string(self) -> String {
        self.s
    }

    /// Conversion from and to a standard string keeps the characters.
    pub broadcast proof fn lemma_string_conversions(input: String, this: AzString)
        ensures
            (#[trigger] AzString::spec_from_string(input))@ == input@,
            (#[trigger] this.spec_into_string())@ == this@,
    {
    }

    /// The string as a slice.
    pub fn as_str(&self) -> (r: &str)
        ensures
            r@ == self@,
    {
        self.s.as_str()
    }

    /// The string's UTF-8 encoding.
    pub fn as_bytes(&self) -> (r: &[u8])
        ensures
            r@ == self.spec_bytes(),
    {
        self.s.as_str().as_bytes()
    }

    /// The string as a standard string.
    pub fn into_string(self) -> (r: String)
        ensures
            r@ == self@,
            r == self.spec_into_string(),
    {
        self.s
    }

    /// The string's UTF-8 encoding as a vector.
    pub fn into_bytes(self) -> (r: U8Vec)
        ensures
            r@ == self.spec_bytes(),
    {
        self.s.into_bytes()
    }

    /// Copies a string slice into an owned string.
    pub fn from_str(s: &str) -> (r: AzString)
        ensures
            r@ == s@,
    {
        AzString { s: s.to_owned() }
    }
}

impl Default for AzString {
    fn default() -> (r: AzString)
        ensures
            r@ == Seq::<char>::empty(),
    {
        AzString { s: String::new() }
    }
}

impl Clone for AzString {
    fn clone(&self) -> (r: AzString)
        ensures
            r@ == self@,
    {
        AzString { s: self.s.clone() }
    }
}

impl PartialEq for AzString {
    fn eq(&self, other: &AzString) -> (r: bool) {
        self.s == other.s
    }
}

impl vstd::std_specs::cmp::PartialEqSpecImpl for AzString {
    open spec fn obeys_eq_spec() -> bool {
        true
    }

    open spec fn eq_spec(&self, other: &AzString) -> bool {
        self@ == other@
    }
}

impl From<String> for AzString {
    fn from(input: String) -> (r: AzString) {
        AzString { s: input }
    }
}

impl vstd::std_specs::convert::FromSpecImpl<String> for AzString {
    open spec fn obeys_from_spec() -> bool {
        true
    }

    open spec fn from_spec(input: String) -> AzString {
        AzString::spec_from_string(input)
    }
}

impl From<AzString> for String {
    fn from(input: AzString) -> (r: String) {
        input.s
    }
}

impl vstd::std_specs::convert::FromSpecImpl<AzString> for String {
    open spec fn obeys_from_spec() -> bool {
        true
    }

    open spec fn from_spec(input: AzString) -> String {
        input.spec_into_string()
    }
}

/// The bytes of `input` followed by one zero byte, as a driver expects a
/// shader source.
pub fn str_to_bytes(input: &str) -> (v: Vec<u8>)
    ensures
        v@ == encode_utf8(input@).push(0u8),
{
    let bytes = input.as_bytes();
    let mut v: Vec<u8> = Vec::new();
    let mut i: usize = 0;
    while i < bytes.len()
        invariant
            i <= bytes@.len(),
            bytes@ == encode_utf8(input@),
            v@ == bytes@.subrange(0, i as int),
        decreases bytes@.len() - i,
    {
        v.push(bytes[i]);
        i += 1;
        assert(v@ =~= bytes@.subrange(0, i as int));
    }
    assert(bytes@.subrange(0, i as int) =~= bytes@);
    v.push(0u8);
    v
}


/// The characters of each of `strings`.
pub open spec fn string_views(strings: Seq<String>) -> Seq<Seq<char>> {
    Seq::new(strings.len(), |i: int| strings[i]@)
}

/// The characters of each of `strings`.
pub open spec fn az_string_views(strings: Seq<AzString>) -> Seq<Seq<char>> {
    Seq::new(strings.len(), |i: int| strings[i]@)
}

/// A vector of owned strings from a vector of standard strings, in the same
/// order.
pub fn string_vec_from_strings(strings: Vec<String>) -> (r: StringVec)
    ensures
        az_string_views(r@) == string_views(strings@),
{
    let mut r: Vec<AzString> = Vec::new();
    let mut i: usize = 0;
    while i < strings.len()
        invariant
            i <= strings@.len(),
            r@.len() == i,
            forall|k: int| 0 <= k < i ==> (#[trigger] r@[k])@ == strings@[k]@,
        decreases strings@.len() - i,
    {
        r.push(AzString::from_str(strings[i].as_str()));
        i += 1;
    }
    assert(az_string_views(r@) =~= string_views(strings@));
    r
}

/// A vector of standard strings from a vector of owned strings, in the same
/// order.
pub fn string_vec_into_strings(strings: StringVec) -> (r: Vec<String>)
    ensures
        string_views(r@) == az_string_views(strings@),
{
    let mut r: Vec<String> = Vec::new();
    let mut i: usize = 0;
    while i < strings.len()
        invariant
            i <= strings@.len(),
            r@.len() == i,
            forall|k: int| 0 <= k < i ==> (#[trigger] r@[k])@ == strings@[k]@,
        decreases strings@.len() - i,
    {
        r.push(strings[i].as_str().to_owned());
        i += 1;
    }
    assert(string_views(r@) =~= az_string_views(strings@));
    r
}

} // verus!
