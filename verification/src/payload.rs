//! The provider's wire payloads.
//!
//! The provider answers a read with a JSON-style object holding an
//! `ip_address` field, and an update is sent as `{"ip_address":"…"}`.
//! Reading looks for the first occurrence of the quoted key, then a
//! colon and a quoted value; values containing a backslash (an escape
//! sequence) or bodies without such a field are rejected as malformed.

use vstd::prelude::*;

use crate::text::is_space_char;

verus! {

/// Holds when the twelve characters of `s` starting at `i` spell the
/// quoted key `"ip_address"`.
pub open spec fn key_at(s: Seq<char>, i: int) -> bool {
    &&& 0 <= i
    &&& i + 12 <= s.len()
    &&& s[i] == '"'
    &&& s[i + 1] == 'i'
    &&& s[i + 2] == 'p'
    &&& s[i + 3] == '_'
    &&& s[i + 4] == 'a'
    &&& s[i + 5] == 'd'
    &&& s[i + 6] == 'd'
    &&& s[i + 7] == 'r'
    &&& s[i + 8] == 'e'
    &&& s[i + 9] == 's'
    &&& s[i + 10] == 's'
    &&& s[i + 11] == '"'
}

/// The first position at or past `i` where the quoted key starts.
pub open spec fn find_key_from(s: Seq<char>, i: int) -> Option<int>
    decreases s.len() - i when 0 <= i <= s.len()
{
    if i + 12 > s.len() {
        None
    } else if key_at(s, i) {
        Some(i)
    } else {
        find_key_from(s, i + 1)
    }
}

/// The first position at or past `i` holding a non-whitespace
/// character, or the length of `s` if there is none.
pub open spec fn skip_space_from(s: Seq<char>, i: int) -> int
    decreases s.len() - i when 0 <= i <= s.len()
{
    if i < s.len() && is_space_char(s[i]) {
        skip_space_from(s, i + 1)
    } else {
        i
    }
}

/// The first position at or past `i` holding `c`.
pub open spec fn find_char_from(s: Seq<char>, i: int, c: char) -> Option<int>
    decreases s.len() - i when 0 <= i <= s.len()
{
    if i >= s.len() {
        None
    } else if s[i] == c {
        Some(i)
    } else {
        find_char_from(s, i + 1, c)
    }
}

/// The `ip_address` value carried by `s`, if any: after the first
/// occurrence of the quoted key come an optional run of whitespace, a
/// colon, more optional whitespace, and a quoted value free of
/// backslashes.
pub open spec fn ip_field_value(s: Seq<char>) -> Option<Seq<char>> {
    match find_key_from(s, 0) {
        Option::None => Option::None,
        Option::Some(k) => {
            let c = skip_space_from(s, k + 12);
            if c < s.len() && s[c] == ':' {
                let q = skip_space_from(s, c + 1);
                if q < s.len() && s[q] == '"' {
                    match find_char_from(s, q + 1, '"') {
                        Option::None => Option::None,
                        Option::Some(e) => {
                            let v = s.subrange(q + 1, e);
                            if exists|m: int| 0 <= m < v.len() && v[m] == '\\' {
                                Option::None
                            } else {
                                Option::Some(v)
                            }
                        },
                    }
                } else {
                    Option::None
                }
            } else {
                Option::None
            }
        },
    }
}

/// `find_key_from` lands on `j` when the key starts there and nowhere
/// earlier at or past `i`.
proof fn lemma_find_key_some(s: Seq<char>, i: int, j: int)
    requires
        0 <= i <= j,
        key_at(s, j),
        forall|k: int| i <= k < j ==> !key_at(s, k),
    ensures
        find_key_from(s, i) == Some(j),
    decreases j - i,
{
    if i < j {
        lemma_find_key_some(s, i + 1, j);
    }
}

/// `find_key_from` finds nothing when the key starts nowhere at or
/// past `i`.
proof fn lemma_find_key_none(s: Seq<char>, i: int)
    requires
        0 <= i <= s.len(),
        forall|k: int| i <= k ==> !key_at(s, k),
    ensures
        find_key_from(s, i) is None,
    decreases s.len() - i,
{
    if i + 12 <= s.len() {
        lemma_find_key_none(s, i + 1);
    }
}

/// `skip_space_from` lands on `j` when everything from `i` up to `j`
/// is whitespace and `j` is the end or holds something else.
proof fn lemma_skip_space(s: Seq<char>, i: int, j: int)
    requires
        0 <= i <= j <= s.len(),
        forall|k: int| i <= k < j ==> is_space_char(s[k]),
        j < s.len() ==> !is_space_char(s[j]),
    ensures
        skip_space_from(s, i) == j,
    decreases j - i,
{
    if i < j {
        lemma_skip_space(s, i + 1, j);
    }
}

/// `find_char_from` lands on `j` when `c` stands there and nowhere
/// earlier at or past `i`.
proof fn lemma_find_char_some(s: Seq<char>, i: int, c: char, j: int)
    requires
        0 <= i <= j < s.len(),
        s[j] == c,
        forall|k: int| i <= k < j ==> s[k] != c,
    ensures
        find_char_from(s, i, c) == Some(j),
    decreases j - i,
{
    if i < j {
        lemma_find_char_some(s, i + 1, c, j);
    }
}

/// `find_char_from` finds nothing when `c` stands nowhere at or past
/// `i`.
proof fn lemma_find_char_none(s: Seq<char>, i: int, c: char)
    requires
        0 <= i <= s.len(),
        forall|k: int| i <= k < s.len() ==> s[k] != c,
    ensures
        find_char_from(s, i, c) is None,
    decreases s.len() - i,
{
    if i < s.len() {
        lemma_find_char_none(s, i + 1, c);
    }
}

/// Reports whether the quoted key starts at `i`.
fn key_at_exec(s: &str, n: usize, i: usize) -> (r: bool)
    requires
        n == s@.len(),
        i + 12 <= n,
    ensures
        r == key_at(s@, i as int),
{
    s.get_char(i) == '"' && s.get_char(i + 1) == 'i' && s.get_char(i + 2) == 'p' && s.get_char(
        i + 3,
    ) == '_' && s.get_char(i + 4) == 'a' && s.get_char(i + 5) == 'd' && s.get_char(i + 6) == 'd'
        && s.get_char(i + 7) == 'r' && s.get_char(i + 8) == 'e' && s.get_char(i + 9) == 's'
        && s.get_char(i + 10) == 's' && s.get_char(i + 11) == '"'
}

/// Finds the first start of the quoted key in `s`.
fn find_key(s: &str, n: usize) -> (r: Option<usize>)
    requires
        n == s@.len(),
    ensures
        match r {
            Option::Some(j) => j + 12 <= n && find_key_from(s@, 0) == Some(j as int),
            Option::None => find_key_from(s@, 0) is None,
        },
{
    if n < 12 {
        proof {
            lemma_find_key_none(s@, 0);
        }
        return Option::None;
    }
    let mut i: usize = 0;
    while i <= n - 12
        invariant
            n == s@.len(),
            12 <= n,
            0 <= i <= n - 11,
            forall|k: int| 0 <= k < i ==> !key_at(s@, k),
        decreases n - i,
    {
        if key_at_exec(s, n, i) {
            proof {
                lemma_find_key_some(s@, 0, i as int);
            }
            return Option::Some(i);
        }
        i = i + 1;
    }
    proof {
        lemma_find_key_none(s@, 0);
    }
    Option::None
}

/// Walks past whitespace starting at `i`.
fn skip_space(s: &str, n: usize, i: usize) -> (r: usize)
    requires
        n == s@.len(),
        i <= n,
    ensures
        i <= r <= n,
        r as int == skip_space_from(s@, i as int),
{
    let mut j: usize = i;
    while j < n && crate::text::is_space(s.get_char(j))
        invariant
            n == s@.len(),
            i <= j <= n,
            forall|k: int| i <= k < j ==> is_space_char(s@[k]),
        decreases n - j,
    {
        j = j + 1;
    }
    proof {
        lemma_skip_space(s@, i as int, j as int);
    }
    j
}

/// Finds the first double quote at or past `i`.
fn find_quote(s: &str, n: usize, i: usize) -> (r: Option<usize>)
    requires
        n == s@.len(),
        i <= n,
    ensures
        match r {
            Option::Some(e) => i <= e < n && find_char_from(s@, i as int, '"') == Some(e as int),
            Option::None => find_char_from(s@, i as int, '"') is None,
        },
{
    let mut j: usize = i;
    while j < n
        invariant
            n == s@.len(),
            i <= j <= n,
            forall|k: int| i <= k < j ==> s@[k] != '"',
        decreases n - j,
    {
        if s.get_char(j) == '"' {
            proof {
                lemma_find_char_some(s@, i as int, '"', j as int);
            }
            return Option::Some(j);
        }
        j = j + 1;
    }
    proof {
        lemma_find_char_none(s@, i as int, '"');
    }
    Option::None
}

/// Extracts the `ip_address` value from a provider payload, or reports
/// the payload malformed.
#[verifier::loop_isolation(false)]
pub fn extract_ip_address(body: &str) -> (r: Option<String>)
    ensures
        match r {
            Option::Some(ip) => ip_field_value(body@) == Some(ip@),
            Option::None => ip_field_value(body@) is None,
        },
{
    let n: usize = body.unicode_len();
    let k = match find_key(body, n) {
        Option::None => {
            return Option::None;
        },
        Option::Some(k) => k,
    };
    let c = skip_space(body, n, k + 12);
    if c == n || body.get_char(c) != ':' {
        return Option::None;
    }
    let q = skip_space(body, n, c + 1);
    if q == n || body.get_char(q) != '"' {
        return Option::None;
    }
    let e = match find_quote(body, n, q + 1) {
        Option::None => {
            return Option::None;
        },
        Option::Some(e) => e,
    };
    let ghost v = body@.subrange(q + 1, e as int);
    let mut m: usize = q + 1;
    while m < e
        invariant
            n == body@.len(),
            q + 1 <= m <= e < n,
            forall|k2: int| q + 1 <= k2 < m ==> body@[k2] != '\\',
        decreases e - m,
    {
        if body.get_char(m) == '\\' {
            proof {
                assert(v[m - q - 1] == '\\');
            }
            return Option::None;
        }
        m = m + 1;
    }
    proof {
        assert(forall|m2: int| 0 <= m2 < v.len() ==> v[m2] == body@[q + 1 + m2] && v[m2] != '\\');
    }
    let sub = body.substring_char(q + 1, e);
    Option::Some(String::from_str(sub))
}

/// The update payload sent to the provider: the new IP inserted
/// verbatim into `{"ip_address":"…"}`.
pub open spec fn payload_spec(ip: Seq<char>) -> Seq<char> {
    "{\"ip_address\":\""@ + ip + "\"}"@
}

/// Reading back an update payload yields exactly the IP that was
/// encoded, for any value free of double quotes and backslashes.
pub proof fn lemma_payload_round_trip(ip: Seq<char>)
    requires
        forall|k: int| 0 <= k < ip.len() ==> ip[k] != '"' && ip[k] != '\\',
    ensures
        ip_field_value(payload_spec(ip)) == Some(ip),
{
    reveal_strlit("{\"ip_address\":\"");
    reveal_strlit("\"}");
    let s = payload_spec(ip);
    let n = ip.len() as int;
    assert(s.len() == 17 + n);
    assert(forall|i: int| 0 <= i < 15 ==> s[i] == "{\"ip_address\":\""@[i]);
    assert(forall|k: int| 0 <= k < n ==> s[15 + k] == ip[k]);
    assert(s[15 + n] == "\"}"@[0]);
    assert(key_at(s, 1));
    assert(!key_at(s, 0));
    lemma_find_key_some(s, 0, 1);
    lemma_skip_space(s, 13, 13);
    lemma_skip_space(s, 14, 14);
    lemma_find_char_some(s, 15, '"', 15 + n);
    assert(s.subrange(15, 15 + n) =~= ip);
}

/// Builds the update payload for `ip`.
pub fn encode_ip_payload(ip: &str) -> (r: String)
    ensures
        r@ == payload_spec(ip@),
{
    let mut r = String::from_str("{\"ip_address\":\"");
    r.append(ip);
    r.append("\"}");
    r
}

} // verus!
