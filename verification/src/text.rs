//! Verified text helpers: decimal rendering of key codes, substring
//! search, and file-name extraction from a path.

use vstd::prelude::*;

verus! {

/// The ASCII digits of `n`, most significant first.
pub open spec fn spec_decimal_digits(n: nat) -> Seq<u8>
    decreases n,
{
    if n < 10 {
        seq![(0x30 + n) as u8]
    } else {
        spec_decimal_digits(n / 10).push((0x30 + n % 10) as u8)
    }
}

/// The decimal text of `n`, as the characters a pattern is matched
/// against.
pub open spec fn spec_decimal_chars(n: nat) -> Seq<char> {
    spec_decimal_digits(n).map_values(|b: u8| b as char)
}

/// Every decimal digit byte lies between `'0'` and `'9'`.
pub proof fn lemma_decimal_digits_ascii(n: nat)
    ensures
        forall|i: int|
            0 <= i < spec_decimal_digits(n).len() ==> 0x30 <= #[trigger] spec_decimal_digits(n)[i]
                <= 0x39,
    decreases n,
{
    if n >= 10 {
        lemma_decimal_digits_ascii(n / 10);
        let digits = spec_decimal_digits(n);
        let prefix = spec_decimal_digits(n / 10);
        assert forall|i: int| 0 <= i < digits.len() implies 0x30 <= #[trigger] digits[i]
            <= 0x39 by {
            if i < prefix.len() {
                assert(digits[i] == prefix[i]);
            } else {
                assert(digits[i] == (0x30 + n % 10) as u8);
            }
        }
    }
}

/// Renders `n` in decimal as ASCII digit bytes.
pub fn decimal_digits(n: u16) -> (digits: Vec<u8>)
    ensures
        digits@ == spec_decimal_digits(n as nat),
    decreases n,
{
    if n < 10 {
        let mut digits: Vec<u8> = Vec::new();
        digits.push(0x30 + n as u8);
        proof {
            assert(digits@ =~= spec_decimal_digits(n as nat));
        }
        digits
    } else {
        let mut digits = decimal_digits(n / 10);
        digits.push(0x30 + (n % 10) as u8);
        digits
    }
}

/// Relies on `String::from_utf8`: bytes below `0x80` are valid UTF-8
/// and decode to the characters with the same values.
#[verifier::external_body]
fn ascii_string(bytes: Vec<u8>) -> (text: String)
    requires
        forall|i: int| 0 <= i < bytes@.len() ==> bytes@[i] < 0x80,
    ensures
        text@ == bytes@.map_values(|b: u8| b as char),
{
    match String::from_utf8(bytes) {
        Ok(text) => text,
        Err(_) => String::new(),
    }
}

/// Renders `n` in decimal, the text a key-code pattern is applied to.
pub fn decimal_string(n: u16) -> (text: String)
    ensures
        text@ == spec_decimal_chars(n as nat),
{
    let digits = decimal_digits(n);
    proof {
        lemma_decimal_digits_ascii(n as nat);
    }
    ascii_string(digits)
}

/// Whether `needle` occurs in `hay` starting at position `i`.
pub open spec fn spec_match_at(hay: Seq<char>, needle: Seq<char>, i: int) -> bool {
    &&& 0 <= i
    &&& i + needle.len() <= hay.len()
    &&& hay.subrange(i, i + needle.len()) == needle
}

/// Whether `needle` occurs anywhere in `hay`.
pub open spec fn spec_contains(hay: Seq<char>, needle: Seq<char>) -> bool {
    exists|i: int| spec_match_at(hay, needle, i)
}

/// Compares the characters of `hay` at offset `i` with `needle`.
fn str_match_at(hay: &str, needle: &str, i: usize) -> (matched: bool)
    requires
        i + needle@.len() <= hay@.len(),
    ensures
        matched == spec_match_at(hay@, needle@, i as int),
{
    let hlen = hay.unicode_len();
    let nlen = needle.unicode_len();
    let mut j: usize = 0;
    while j < nlen
        invariant
            j <= nlen,
            nlen == needle@.len(),
            hlen == hay@.len(),
            i + nlen <= hlen,
            forall|t: int| 0 <= t < j ==> hay@[i + t] == needle@[t],
        decreases nlen - j,
    {
        if hay.get_char(i + j) != needle.get_char(j) {
            proof {
                assert(!spec_match_at(hay@, needle@, i as int)) by {
                    if spec_match_at(hay@, needle@, i as int) {
                        assert(hay@.subrange(i as int, i + needle@.len())[j as int]
                            == needle@[j as int]);
                    }
                }
            }
            return false;
        }
        j += 1;
    }
    proof {
        assert(hay@.subrange(i as int, i + needle@.len()) =~= needle@);
    }
    true
}

/// Whether the text `needle` occurs anywhere in `hay`.
pub fn str_contains(hay: &str, needle: &str) -> (found: bool)
    ensures
        found == spec_contains(hay@, needle@),
{
    let hlen = hay.unicode_len();
    let nlen = needle.unicode_len();
    if nlen > hlen {
        return false;
    }
    if nlen == 0 {
        proof {
            assert(hay@.subrange(0, 0) =~= needle@);
            assert(spec_match_at(hay@, needle@, 0));
        }
        return true;
    }
    let mut i: usize = 0;
    while i <= hlen - nlen
        invariant
            0 < nlen <= hlen,
            hlen == hay@.len(),
            nlen == needle@.len(),
            i <= hlen - nlen + 1,
            forall|k: int| 0 <= k < i ==> !spec_match_at(hay@, needle@, k),
        decreases hlen - nlen + 1 - i,
    {
        if str_match_at(hay, needle, i) {
            return true;
        }
        i += 1;
    }
    proof {
        assert(!spec_contains(hay@, needle@)) by {
            if spec_contains(hay@, needle@) {
                let k = choose|k: int| spec_match_at(hay@, needle@, k);
            }
        }
    }
    false
}

/// Whether two pieces of text hold the same characters.
pub fn str_eq(a: &str, b: &str) -> (eq: bool)
    ensures
        eq == (a@ == b@),
{
    let alen = a.unicode_len();
    let blen = b.unicode_len();
    if alen != blen {
        return false;
    }
    let mut i: usize = 0;
    while i < alen
        invariant
            i <= alen,
            alen == a@.len(),
            alen == b@.len(),
            forall|j: int| 0 <= j < i ==> a@[j] == b@[j],
        decreases alen - i,
    {
        if a.get_char(i) != b.get_char(i) {
            return false;
        }
        i += 1;
    }
    proof {
        assert(a@ =~= b@);
    }
    true
}

/// The part of `path` after its last `/`: the whole path when it
/// holds no `/`, empty when it ends in one. This is a deliberately
/// plain textual rule: unlike a platform path parser it gives no
/// special meaning to `.` or `..` components or to trailing
/// separators.
pub open spec fn spec_file_name(path: Seq<char>) -> Seq<char>
    decreases path.len(),
{
    if path.len() == 0 {
        path
    } else if path.last() == '/' {
        Seq::<char>::empty()
    } else {
        spec_file_name(path.drop_last()).push(path.last())
    }
}

/// A suffix that starts right after a `/` (or at the start of the
/// path) and holds no further `/` is the file name.
proof fn lemma_file_name_suffix(path: Seq<char>, cut: int)
    requires
        0 <= cut <= path.len(),
        cut == 0 || path[cut - 1] == '/',
        forall|k: int| cut <= k < path.len() ==> path[k] != '/',
    ensures
        spec_file_name(path) == path.subrange(cut, path.len() as int),
    decreases path.len(),
{
    if path.len() == 0 {
        assert(path.subrange(0, 0) =~= path);
    } else if cut == path.len() {
        assert(path.last() == '/');
        assert(path.subrange(cut, path.len() as int) =~= Seq::<char>::empty());
    } else {
        assert(path.last() != '/');
        lemma_file_name_suffix(path.drop_last(), cut);
        assert(path.subrange(cut, path.len() as int) =~= path.drop_last().subrange(
            cut,
            path.len() - 1,
        ).push(path.last()));
    }
}

/// The file name component of `path`: everything after the last `/`.
pub fn file_name_of(path: &str) -> (name: String)
    ensures
        name@ == spec_file_name(path@),
{
    let len = path.unicode_len();
    let mut cut: usize = len;
    loop
        invariant
            cut <= len,
            len == path@.len(),
            forall|k: int| cut <= k < len ==> path@[k] != '/',
        ensures
            cut <= len,
            cut == 0 || path@[cut - 1] == '/',
            forall|k: int| cut <= k < len ==> path@[k] != '/',
        decreases cut,
    {
        if cut == 0 {
            break ;
        }
        if path.get_char(cut - 1) == '/' {
            break ;
        }
        cut = cut - 1;
    }
    proof {
        lemma_file_name_suffix(path@, cut as int);
    }
    let name = path.substring_char(cut, len);
    name.to_owned()
}

} // verus!
