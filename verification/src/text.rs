//! Text primitives shared by the collector and the dispatcher.
//!
//! Case mapping and UTF-8 decoding are left to the standard library. Each of
//! those calls sits behind one small function of this module whose contract
//! is taken on trust; everything else here is proved.

use vstd::prelude::*;
use vstd::string::{StrSliceExecFns, StringExecFns};
use vstd::utf8::{decode_utf8, valid_utf8};

verus! {

/// The upper-case form that `str::to_uppercase` gives to a text.
pub uninterp spec fn uppercase_of(s: Seq<char>) -> Seq<char>;

/// The lower-case form that `str::to_lowercase` gives to a text.
pub uninterp spec fn lowercase_of(s: Seq<char>) -> Seq<char>;

/// The text that `String::from_utf8_lossy` reads out of a byte string.
pub uninterp spec fn lossy_decoding(bytes: Seq<u8>) -> Seq<char>;

/// The description that `String::from_utf8` gives of a byte string it rejects.
pub uninterp spec fn utf8_failure_text(bytes: Seq<u8>) -> Seq<char>;

/// Trusted: calls `str::to_uppercase`. The contract only names the result;
/// nothing is claimed about which characters change.
#[verifier::external_body]
pub(crate) fn uppercase(s: &str) -> (r: String)
    ensures
        r@ == uppercase_of(s@),
{
    s.to_uppercase()
}

/// Trusted: calls `str::to_lowercase`. The contract only names the result;
/// nothing is claimed about which characters change.
#[verifier::external_body]
pub(crate) fn lowercase(s: &str) -> (r: String)
    ensures
        r@ == lowercase_of(s@),
{
    s.to_lowercase()
}

/// Trusted: calls `String::from_utf8`. It is taken to accept exactly the
/// well-formed UTF-8 byte strings and to return the text they encode; for the
/// others the description of the failure is only named.
#[verifier::external_body]
pub(crate) fn decode_text(bytes: Vec<u8>) -> (r: Result<String, String>)
    ensures
        r is Ok <==> valid_utf8(bytes@),
        r matches Ok(s) ==> s@ == decode_utf8(bytes@),
        r matches Err(m) ==> m@ == utf8_failure_text(bytes@),
{
    match String::from_utf8(bytes) {
        Ok(s) => Ok(s),
        Err(e) => Err(e.to_string()),
    }
}

/// Trusted: calls `String::from_utf8_lossy`. On well-formed UTF-8 it is taken
/// to return the encoded text unchanged; otherwise the result is only named.
#[verifier::external_body]
pub(crate) fn lossy_text(bytes: &Vec<u8>) -> (r: String)
    ensures
        r@ == lossy_decoding(bytes@),
        valid_utf8(bytes@) ==> r@ == decode_utf8(bytes@),
{
    String::from_utf8_lossy(bytes).into_owned()
}

/// Trusted: calls `String::push`, which puts one character at the end of a
/// text.
#[verifier::external_body]
pub(crate) fn push_char(s: &mut String, c: char)
    ensures
        final(s)@ == old(s)@.push(c),
{
    s.push(c);
}

/// The lower-case form of an ASCII capital letter; any other character
/// stands for itself.
pub open spec fn lower_char(c: char) -> char {
    if 'A' <= c && c <= 'Z' {
        ((c as u8) + 32) as char
    } else {
        c
    }
}

/// A text with its ASCII capital letters in lower case.
pub open spec fn ascii_lower(s: Seq<char>) -> Seq<char> {
    s.map_values(|c: char| lower_char(c))
}

/// A text whose first character is kept and whose other characters have
/// their ASCII capital letters in lower case.
pub open spec fn lowered_after_first(s: Seq<char>) -> Seq<char> {
    if s.len() == 0 {
        s
    } else {
        seq![s[0]] + ascii_lower(s.drop_first())
    }
}

/// The number of characters before the first underscore of a text, or its
/// length if it has none.
pub open spec fn word_end(s: Seq<char>) -> int
    decreases s.len(),
{
    if s.len() == 0 || s[0] == '_' {
        0
    } else {
        1 + word_end(s.drop_first())
    }
}

/// The part of a text before its first underscore.
pub open spec fn first_word_of(s: Seq<char>) -> Seq<char> {
    s.take(word_end(s))
}

/// The first underscore of a text stands where `word_end` says, and no
/// earlier.
pub proof fn lemma_word_end(s: Seq<char>, n: int)
    requires
        0 <= n <= s.len(),
        forall|j: int| 0 <= j < n ==> s[j] != '_',
        n == s.len() || s[n] == '_',
    ensures
        word_end(s) == n,
    decreases n,
{
    if n > 0 {
        lemma_word_end(s.drop_first(), n - 1);
    }
}

/// The lower-case form of an ASCII capital letter; any other character
/// stands for itself.
pub fn to_lower_char(c: char) -> (r: char)
    ensures
        r == lower_char(c),
{
    if 'A' <= c && c <= 'Z' {
        let code: u8 = c as u8;
        (code + 32) as char
    } else {
        c
    }
}

/// Puts the ASCII capital letters of a text in lower case.
pub fn ascii_lowercase(s: &str) -> (r: String)
    ensures
        r@ == ascii_lower(s@),
{
    let n: usize = s.unicode_len();
    let mut out = String::new();
    let mut i: usize = 0;
    while i < n
        invariant
            n == s@.len(),
            i <= n,
            out@ == ascii_lower(s@.take(i as int)),
        decreases n - i,
    {
        let c = s.get_char(i);
        push_char(&mut out, to_lower_char(c));
        i = i + 1;
    }
    out
}

/// Keeps the first character of a text and puts the ASCII capital letters
/// of the rest in lower case.
pub fn lower_after_first(s: &str) -> (r: String)
    ensures
        r@ == lowered_after_first(s@),
{
    let n: usize = s.unicode_len();
    if n == 0 {
        return String::from_str(s);
    }
    let mut out = String::from_str(s.substring_char(0, 1));
    let rest = ascii_lowercase(s.substring_char(1, n));
    out.append(rest.as_str());
    out
}

/// The part of a text before its first underscore.
pub fn first_word(s: &str) -> (r: String)
    ensures
        r@ == first_word_of(s@),
{
    let n: usize = s.unicode_len();
    let mut i: usize = 0;
    while i < n && s.get_char(i) != '_'
        invariant
            n == s@.len(),
            i <= n,
            forall|j: int| 0 <= j < i ==> s@[j] != '_',
        decreases n - i,
    {
        i = i + 1;
    }
    proof {
        lemma_word_end(s@, i as int);
    }
    String::from_str(s.substring_char(0, i))
}

/// Whether two texts hold the same characters.
pub fn same_text(a: &str, b: &str) -> (r: bool)
    ensures
        r == (a@ == b@),
{
    let x = String::from_str(a);
    let y = String::from_str(b);
    x == y
}

/// `a` followed by `b`.
pub fn concat2(a: &str, b: &str) -> (r: String)
    ensures
        r@ == a@ + b@,
{
    let mut out = String::from_str(a);
    out.append(b);
    out
}

/// The view of an optional text.
pub open spec fn opt_view(s: Option<String>) -> Option<Seq<char>> {
    match s {
        Some(t) => Some(t@),
        None => None,
    }
}

/// The views of a list of texts, in order.
pub open spec fn texts(v: Seq<String>) -> Seq<Seq<char>> {
    v.map_values(|s: String| s@)
}

/// Whether `suffix` stands at the end of `s`.
pub open spec fn ends_with(s: Seq<char>, suffix: Seq<char>) -> bool {
    s.len() >= suffix.len() && s.subrange(s.len() - suffix.len(), s.len() as int) == suffix
}

} // verus!
