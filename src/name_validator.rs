use vstd::prelude::*;
use vstd::string::*;

verus! {

pub open spec fn is_ascii_letter(c: char) -> bool {
    ('a' <= c && c <= 'z') || ('A' <= c && c <= 'Z')
}

pub open spec fn is_name_start(c: char) -> bool {
    is_ascii_letter(c) || c == '_'
}

pub open spec fn is_name_char(c: char) -> bool {
    is_ascii_letter(c) || ('0' <= c && c <= '9') || c == '.' || c == '_' || c == '~' || c == '-'
}

/// The pattern `^[A-Za-z_][A-Za-z0-9._~-]*$`.
pub open spec fn matches_name_pattern(s: Seq<char>) -> bool {
    &&& s.len() >= 1
    &&& is_name_start(s[0])
    &&& forall|i: int| 1 <= i < s.len() ==> is_name_char(#[trigger] s[i])
}

pub open spec fn system_prefix() -> Seq<char> {
    seq!['s', 'y', 's', 't', 'e', 'm', '.']
}

pub open spec fn system_infix() -> Seq<char> {
    seq!['.', 's', 'y', 's', 't', 'e', 'm', '.']
}

pub open spec fn occurs_at(s: Seq<char>, w: Seq<char>, i: int) -> bool {
    0 <= i && i + w.len() <= s.len() && s.subrange(i, i + w.len()) == w
}

pub open spec fn contains_word(s: Seq<char>, w: Seq<char>) -> bool {
    exists|i: int| occurs_at(s, w, i)
}

/// A collection name: the pattern, at most 47 characters, not starting with
/// `system.` and not containing `.system.`.
pub open spec fn valid_collection_name(s: Seq<char>) -> bool {
    &&& matches_name_pattern(s)
    &&& s.len() <= 47
    &&& !occurs_at(s, system_prefix(), 0)
    &&& !contains_word(s, system_infix())
}

/// Relies on regex::Regex::is_match for the pattern
/// `^[a-zA-Z_][a-zA-Z0-9._~-]*$`: the whole text is one start character
/// followed by any number of name characters.
#[verifier::external_body]
fn matches_collection_pattern(name: &str) -> (r: bool)
    ensures
        r == matches_name_pattern(name@),
{
    regex::Regex::new(r"^[a-zA-Z_][a-zA-Z0-9._~-]*$").unwrap().is_match(name)
}

fn occurs_at_exec(s: &str, n: usize, w: &[char], i: usize) -> (r: bool)
    requires
        n == s@.len(),
    ensures
        r == occurs_at(s@, w@, i as int),
{
    if i > n || w.len() > n - i {
        return false;
    }
    let mut k: usize = 0;
    while k < w.len()
        invariant
            i + w@.len() <= n,
            n == s@.len(),
            0 <= k <= w@.len(),
            forall|j: int| 0 <= j < k ==> s@[i + j] == w@[j],
        decreases w@.len() - k,
    {
        if s.get_char(i + k) != w[k] {
            assert(s@.subrange(i as int, i + w@.len())[k as int] != w@[k as int]);
            return false;
        }
        k += 1;
    }
    assert(s@.subrange(i as int, i + w@.len()) =~= w@);
    true
}

/// Whether `name` may name a collection.
pub fn is_valid_collection_name(name: &str) -> (r: bool)
    ensures
        r == valid_collection_name(name@),
{
    let n = name.unicode_len();
    if n == 0 || n > 47 {
        return false;
    }
    if !matches_collection_pattern(name) {
        return false;
    }
    let prefix = ['s', 'y', 's', 't', 'e', 'm', '.'];
    assert(prefix@ =~= system_prefix());
    if occurs_at_exec(name, n, &prefix, 0) {
        return false;
    }
    let infix = ['.', 's', 'y', 's', 't', 'e', 'm', '.'];
    assert(infix@ =~= system_infix());
    let mut i: usize = 0;
    while i < n
        invariant
            n == name@.len(),
            0 <= i <= n,
            infix@ == system_infix(),
            forall|j: int| 0 <= j < i ==> !occurs_at(name@, system_infix(), j),
        decreases n - i,
    {
        if occurs_at_exec(name, n, &infix, i) {
            return false;
        }
        i += 1;
    }
    assert(!contains_word(name@, system_infix())) by {
        if contains_word(name@, system_infix()) {
            let j = choose|j: int| occurs_at(name@, system_infix(), j);
            assert(j < n);
        }
    }
    true
}

/// A datatype key: not empty, at most 255 bytes, no NUL character, and not
/// starting with `$`.
pub open spec fn valid_datatype_key(s: &str) -> bool {
    &&& s@.len() > 0
    &&& s.spec_bytes().len() <= 255
    &&& !s@.contains('\0')
    &&& s@[0] != '$'
}

/// Whether `key` may name a datatype.
pub fn is_valid_datatype_key(key: &str) -> (r: bool)
    ensures
        r == valid_datatype_key(key),
{
    let n = key.unicode_len();
    let bytes = key.as_bytes();
    proof {
        vstd::slice::axiom_spec_len(bytes);
    }
    if n == 0 || bytes.len() > 255 {
        return false;
    }
    if key.get_char(0) == '$' {
        return false;
    }
    let mut i: usize = 0;
    while i < n
        invariant
            n == key@.len(),
            0 <= i <= n,
            forall|j: int| 0 <= j < i ==> key@[j] != '\0',
        decreases n - i,
    {
        if key.get_char(i) == '\0' {
            return false;
        }
        i += 1;
    }
    true
}

} // verus!
