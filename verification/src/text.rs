use vstd::prelude::*;

verus! {

/// `s` begins with `p`.
pub open spec fn has_prefix(s: Seq<char>, p: Seq<char>) -> bool {
    p.len() <= s.len() && s.subrange(0, p.len() as int) == p
}

/// `s` ends with `p`.
pub open spec fn has_suffix(s: Seq<char>, p: Seq<char>) -> bool {
    p.len() <= s.len() && s.subrange(s.len() - p.len(), s.len() as int) == p
}

/// The characters of a string slice, in order.
pub fn chars_of(s: &str) -> (v: Vec<char>)
    ensures
        v@ == s@,
{
    let mut v: Vec<char> = Vec::new();
    for c in it: s.chars()
        invariant
            v@ == it.seq().take(it.index() as int),
    {
        v.push(c);
    }
    v
}


/// ASCII lower-casing of one character: `A`..=`Z` map to `a`..=`z`, all else is kept.
pub open spec fn lower_char(c: char) -> char {
    if 'A' <= c && c <= 'Z' {
        ((c as u32) + 32) as char
    } else {
        c
    }
}

/// ASCII lower-casing of a text, character by character.
pub open spec fn ascii_lower(s: Seq<char>) -> Seq<char> {
    s.map_values(|c: char| lower_char(c))
}

proof fn lemma_lower_code(c: char, d: char)
    requires
        'A' <= c <= 'Z',
        (c as u32) + 32 == (d as u32),
    ensures
        lower_char(c) == d,
{
}

/// Whether two texts are the same.
pub fn chars_eq(a: &[char], b: &[char]) -> (r: bool)
    ensures
        r == (a@ == b@),
{
    if a.len() != b.len() {
        return false;
    }
    let mut i: usize = 0;
    while i < a.len()
        invariant
            a@.len() == b@.len(),
            i <= a@.len(),
            forall|j: int| 0 <= j < i ==> a@[j] == b@[j],
        decreases a@.len() - i,
    {
        if a[i] != b[i] {
            return false;
        }
        i = i + 1;
    }
    assert(a@ =~= b@);
    true
}

/// Whether `s[start..start + p.len()]` is `p`, lower-casing `s` first when `fold` holds.
fn matches_at(s: &[char], start: usize, p: &[char], fold: bool) -> (r: bool)
    requires
        start + p@.len() <= s@.len(),
    ensures
        r == if fold {
            ascii_lower(s@).subrange(start as int, start + p@.len()) == p@
        } else {
            s@.subrange(start as int, start + p@.len()) == p@
        },
{
    let ghost t = if fold { ascii_lower(s@) } else { s@ };
    let n = s.len();
    let mut i: usize = 0;
    while i < p.len()
        invariant
            start + p@.len() <= s@.len(),
            n == s@.len(),
            t.len() == s@.len(),
            t == if fold { ascii_lower(s@) } else { s@ },
            i <= p@.len(),
            forall|j: int| 0 <= j < i ==> t[start + j] == p@[j],
        decreases p@.len() - i,
    {
        assert(start + i < s@.len());
        let k: usize = start + i;
        let c = s[k];
        let d = p[i];
        let same = if fold && 'A' <= c && c <= 'Z' {
            (c as u32) + 32 == (d as u32)
        } else {
            c == d
        };
        if !same {
            assert(t.subrange(start as int, start + p@.len())[i as int] != p@[i as int]);
            return false;
        }
        proof {
            if fold && 'A' <= c && c <= 'Z' {
                lemma_lower_code(c, d);
            }
        }
        assert(t[k as int] == d);
        i = i + 1;
    }
    assert(t.subrange(start as int, start + p@.len()) =~= p@);
    true
}

/// Whether `s` begins with `p`.
pub fn starts_with(s: &[char], p: &[char]) -> (r: bool)
    ensures
        r == has_prefix(s@, p@),
{
    p.len() <= s.len() && matches_at(s, 0, p, false)
}

/// Whether `s` ends with `p`.
pub fn ends_with(s: &[char], p: &[char]) -> (r: bool)
    ensures
        r == has_suffix(s@, p@),
{
    p.len() <= s.len() && matches_at(s, s.len() - p.len(), p, false)
}

/// Whether the ASCII lower-casing of `s` begins with `p`.
pub fn lower_starts_with(s: &[char], p: &[char]) -> (r: bool)
    ensures
        r == has_prefix(ascii_lower(s@), p@),
{
    p.len() <= s.len() && matches_at(s, 0, p, true)
}

/// Whether the ASCII lower-casing of `s` ends with `p`.
pub fn lower_ends_with(s: &[char], p: &[char]) -> (r: bool)
    ensures
        r == has_suffix(ascii_lower(s@), p@),
{
    p.len() <= s.len() && matches_at(s, s.len() - p.len(), p, true)
}


/// A header byte that `http` accepts in a header value read as text: a visible ASCII
/// character or a horizontal tab.
pub open spec fn is_visible_ascii(b: u8) -> bool {
    (32 <= b && b < 127) || b == 9
}

/// The text of a header value as `http`'s `HeaderValue::to_str` gives it, with the empty text
/// where that call fails: the bytes as characters when all are visible ASCII or tabs.
pub open spec fn header_text(bytes: Seq<u8>) -> Seq<char> {
    if forall|i: int| 0 <= i < bytes.len() ==> is_visible_ascii(#[trigger] bytes[i]) {
        bytes.map_values(|b: u8| b as char)
    } else {
        Seq::<char>::empty()
    }
}

proof fn lemma_byte_char(b: u8, c: char)
    requires
        (b as u32) == (c as u32),
    ensures
        (b as char) == c,
{
}

/// Whether the text of the header value `bytes` differs from `configured`.
pub fn header_text_differs(configured: &[char], host: &[u8]) -> (r: bool)
    ensures
        r == (header_text(host@) != configured@),
{
    let n = host.len();
    let mut i: usize = 0;
    while i < n
        invariant
            n == host@.len(),
            i <= n,
            forall|j: int| 0 <= j < i ==> is_visible_ascii(#[trigger] host@[j]),
        decreases n - i,
    {
        let b = host[i];
        if !((32 <= b && b < 127) || b == 9) {
            assert(!is_visible_ascii(host@[i as int]));
            assert(header_text(host@) =~= Seq::<char>::empty());
            if configured.len() == 0 {
                assert(configured@ =~= Seq::<char>::empty());
                return false;
            }
            return true;
        }
        i = i + 1;
    }
    let ghost text = host@.map_values(|b: u8| b as char);
    assert(header_text(host@) == text);
    if configured.len() != n {
        return true;
    }
    let mut k: usize = 0;
    while k < n
        invariant
            n == host@.len(),
            n == configured@.len(),
            text == host@.map_values(|b: u8| b as char),
            k <= n,
            forall|j: int| 0 <= j < k ==> text[j] == configured@[j],
        decreases n - k,
    {
        let b = host[k];
        let c = configured[k];
        if (b as u32) != (c as u32) {
            assert(text[k as int] != configured@[k as int]);
            return true;
        }
        proof {
            lemma_byte_char(b, c);
        }
        k = k + 1;
    }
    assert(text =~= configured@);
    false
}

/// The text of the header value `bytes` as `http`'s `HeaderValue::to_str` gives it: the bytes
/// as characters when all are visible ASCII or tabs, and `None` otherwise.
pub fn header_value_chars(bytes: &[u8]) -> (r: Option<Vec<char>>)
    ensures
        r is Some <==> forall|i: int| 0 <= i < bytes@.len() ==> is_visible_ascii(#[trigger] bytes@[i]),
        r matches Some(v) ==> v@ == bytes@.map_values(|b: u8| b as char),
{
    let n = bytes.len();
    let mut v: Vec<char> = Vec::new();
    let mut i: usize = 0;
    while i < n
        invariant
            n == bytes@.len(),
            i <= n,
            forall|j: int| 0 <= j < i ==> is_visible_ascii(#[trigger] bytes@[j]),
            v@ == bytes@.subrange(0, i as int).map_values(|b: u8| b as char),
        decreases n - i,
    {
        let b = bytes[i];
        if !((32 <= b && b < 127) || b == 9) {
            assert(!is_visible_ascii(bytes@[i as int]));
            return None;
        }
        v.push(b as char);
        assert(bytes@.subrange(0, i + 1).map_values(|b: u8| b as char) =~= bytes@.subrange(
            0,
            i as int,
        ).map_values(|b: u8| b as char).push(b as char));
        i = i + 1;
    }
    assert(bytes@.subrange(0, n as int) =~= bytes@);
    Some(v)
}

} // verus!
