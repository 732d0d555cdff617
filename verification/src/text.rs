//! Verified text helpers: character search, whitespace handling, decimal
//! formatting, and the one trusted step that decodes a byte buffer as UTF-8.

use vstd::prelude::*;

verus! {

/// Whether `c` has the Unicode `White_Space` property, the set that
/// `char::is_whitespace` recognises.
pub open spec fn is_ws(c: char) -> bool {
    let u = c as u32;
    u == 0x20 || (0x09 <= u && u <= 0x0D) || u == 0x85 || u == 0xA0 || u == 0x1680
        || (0x2000 <= u && u <= 0x200A) || u == 0x2028 || u == 0x2029 || u == 0x202F
        || u == 0x205F || u == 0x3000
}

/// Executable check for `is_ws`.
pub fn is_whitespace_char(c: char) -> (r: bool)
    ensures
        r == is_ws(c),
{
    let u = c as u32;
    u == 0x20 || (0x09 <= u && u <= 0x0D) || u == 0x85 || u == 0xA0 || u == 0x1680
        || (0x2000 <= u && u <= 0x200A) || u == 0x2028 || u == 0x2029 || u == 0x202F
        || u == 0x205F || u == 0x3000
}

/// The first index in `[i, end)` holding `c`, or `-1` if there is none.
pub open spec fn spec_find(s: Seq<char>, c: char, i: int, end: int) -> int
    decreases end - i,
{
    if i < 0 || i >= end || i >= s.len() {
        -1
    } else if s[i] == c {
        i
    } else {
        spec_find(s, c, i + 1, end)
    }
}

/// `spec_find` returns `-1` exactly when `c` does not occur in `[i, end)`,
/// and otherwise the first index in that range holding `c`.
pub proof fn lemma_spec_find(s: Seq<char>, c: char, i: int, end: int)
    requires
        0 <= i,
        end <= s.len(),
    ensures
        spec_find(s, c, i, end) == -1 ==> forall|j: int| i <= j < end ==> s[j] != c,
        spec_find(s, c, i, end) != -1 ==> {
            let f = spec_find(s, c, i, end);
            &&& i <= f < end
            &&& s[f] == c
            &&& forall|j: int| i <= j < f ==> s[j] != c
        },
    decreases end - i,
{
    if i < end && i < s.len() && s[i] != c {
        lemma_spec_find(s, c, i + 1, end);
    }
}

/// The first index in `[i, end)` holding `c` within `s`, if any.
pub fn find_char_upto(s: &str, c: char, from: usize, end: usize) -> (r: Option<usize>)
    requires
        from <= end <= s@.len(),
    ensures
        match r {
            Some(k) => spec_find(s@, c, from as int, end as int) == k && from <= k < end,
            None => spec_find(s@, c, from as int, end as int) == -1,
        },
{
    let mut i: usize = from;
    while i < end
        invariant
            from <= i <= end <= s@.len(),
            spec_find(s@, c, from as int, end as int) == spec_find(s@, c, i as int, end as int),
        decreases end - i,
    {
        if s.get_char(i) == c {
            return Some(i);
        }
        i += 1;
    }
    None
}

/// The first index at or after `i`, but below `end`, whose character is not
/// whitespace; `end` if all of `[i, end)` is whitespace.
pub open spec fn spec_skip_ws(s: Seq<char>, i: int, end: int) -> int
    decreases end - i,
{
    if i < 0 || i >= end || i >= s.len() {
        end
    } else if is_ws(s[i]) {
        spec_skip_ws(s, i + 1, end)
    } else {
        i
    }
}

/// Skip whitespace forward from `from`, staying below `end`.
pub fn skip_ws(s: &str, from: usize, end: usize) -> (r: usize)
    requires
        from <= end <= s@.len(),
    ensures
        r == spec_skip_ws(s@, from as int, end as int),
        from <= r <= end,
{
    proof {
        lemma_spec_skip_ws_bounds(s@, from as int, end as int);
    }
    let mut i: usize = from;
    while i < end
        invariant
            from <= i <= end <= s@.len(),
            spec_skip_ws(s@, from as int, end as int) == spec_skip_ws(s@, i as int, end as int),
        decreases end - i,
    {
        if !is_whitespace_char(s.get_char(i)) {
            return i;
        }
        i += 1;
    }
    end
}

/// `spec_skip_ws` stays within `[i, end]`.
pub proof fn lemma_spec_skip_ws_bounds(s: Seq<char>, i: int, end: int)
    requires
        0 <= i,
        end <= s.len(),
    ensures
        i <= end ==> i <= spec_skip_ws(s, i, end) <= end,
    decreases end - i,
{
    if i < end && i < s.len() && is_ws(s[i]) {
        lemma_spec_skip_ws_bounds(s, i + 1, end);
    }
}

/// The end of the token that starts at `i`: the first index in `[i, end)`
/// whose character is whitespace, or `end`.
pub open spec fn spec_scan_token(s: Seq<char>, i: int, end: int) -> int
    decreases end - i,
{
    if i < 0 || i >= end || i >= s.len() {
        end
    } else if is_ws(s[i]) {
        i
    } else {
        spec_scan_token(s, i + 1, end)
    }
}

/// Scan forward from `from` to the end of the current token, staying below
/// `end`.
pub fn scan_token(s: &str, from: usize, end: usize) -> (r: usize)
    requires
        from <= end <= s@.len(),
    ensures
        r == spec_scan_token(s@, from as int, end as int),
        from <= r <= end,
{
    proof {
        lemma_spec_scan_token_bounds(s@, from as int, end as int);
    }
    let mut i: usize = from;
    while i < end
        invariant
            from <= i <= end <= s@.len(),
            spec_scan_token(s@, from as int, end as int) == spec_scan_token(s@, i as int, end as int),
        decreases end - i,
    {
        if is_whitespace_char(s.get_char(i)) {
            return i;
        }
        i += 1;
    }
    end
}

/// `spec_scan_token` stays within `[i, end]`.
pub proof fn lemma_spec_scan_token_bounds(s: Seq<char>, i: int, end: int)
    requires
        0 <= i,
        end <= s.len(),
    ensures
        i <= end ==> i <= spec_scan_token(s, i, end) <= end,
    decreases end - i,
{
    if i < end && i < s.len() && !is_ws(s[i]) {
        lemma_spec_scan_token_bounds(s, i + 1, end);
    }
}

/// The end of `[i, end)` after dropping trailing whitespace: the least `e`
/// with `i <= e <= end` such that everything in `[e, end)` is whitespace and
/// `s[e - 1]` (if `e > i`) is not.
pub open spec fn spec_rskip_ws(s: Seq<char>, i: int, end: int) -> int
    decreases end - i,
{
    if end <= i || end > s.len() || end <= 0 {
        i
    } else if is_ws(s[end - 1]) {
        spec_rskip_ws(s, i, end - 1)
    } else {
        end
    }
}

/// Drop trailing whitespace: scan backward from `end` toward `from`.
pub fn rskip_ws(s: &str, from: usize, end: usize) -> (r: usize)
    requires
        from <= end <= s@.len(),
    ensures
        r == spec_rskip_ws(s@, from as int, end as int),
        from <= r <= end,
{
    let mut e: usize = end;
    while e > from
        invariant
            from <= e <= end <= s@.len(),
            spec_rskip_ws(s@, from as int, end as int) == spec_rskip_ws(s@, from as int, e as int),
        decreases e,
    {
        if !is_whitespace_char(s.get_char(e - 1)) {
            return e;
        }
        e -= 1;
    }
    from
}

/// Whether two string slices hold the same characters.
pub fn str_eq(a: &str, b: &str) -> (r: bool)
    ensures
        r == (a@ == b@),
{
    let alen = a.unicode_len();
    let blen = b.unicode_len();
    if alen != blen {
        proof {
            if a@ == b@ {
                assert(a@.len() == b@.len());
            }
        }
        return false;
    }
    let mut i: usize = 0;
    while i < alen
        invariant
            alen == a@.len(),
            alen == b@.len(),
            i <= alen,
            forall|j: int| 0 <= j < i ==> a@[j] == b@[j],
        decreases alen - i,
    {
        if a.get_char(i) != b.get_char(i) {
            proof {
                if a@ == b@ {
                    assert(a@[i as int] == b@[i as int]);
                }
            }
            return false;
        }
        i += 1;
    }
    proof {
        assert(a@ =~= b@);
    }
    true
}

/// The decimal digits of `n`, most significant first.
pub open spec fn dec_str(n: nat) -> Seq<char>
    decreases n,
{
    if n < 10 {
        seq![digit_char(n)]
    } else {
        dec_str(n / 10).push(digit_char(n % 10))
    }
}

/// The character for the decimal digit `d`.
pub open spec fn digit_char(d: nat) -> char {
    if d == 0 {
        '0'
    } else if d == 1 {
        '1'
    } else if d == 2 {
        '2'
    } else if d == 3 {
        '3'
    } else if d == 4 {
        '4'
    } else if d == 5 {
        '5'
    } else if d == 6 {
        '6'
    } else if d == 7 {
        '7'
    } else if d == 8 {
        '8'
    } else {
        '9'
    }
}

/// The one-character string of the decimal digit `d`.
fn digit_str(d: u16) -> (r: &'static str)
    requires
        d < 10,
    ensures
        r@ == seq![digit_char(d as nat)],
{
    proof {
        reveal_strlit("0");
        reveal_strlit("1");
        reveal_strlit("2");
        reveal_strlit("3");
        reveal_strlit("4");
        reveal_strlit("5");
        reveal_strlit("6");
        reveal_strlit("7");
        reveal_strlit("8");
        reveal_strlit("9");
    }
    let r: &'static str = match d {
        0 => "0",
        1 => "1",
        2 => "2",
        3 => "3",
        4 => "4",
        5 => "5",
        6 => "6",
        7 => "7",
        8 => "8",
        _ => "9",
    };
    proof {
        assert(r@ =~= seq![digit_char(d as nat)]);
    }
    r
}

/// `n` written in decimal.
pub fn u16_to_string(n: u16) -> (r: String)
    ensures
        r@ == dec_str(n as nat),
    decreases n,
{
    if n < 10 {
        String::from_str(digit_str(n))
    } else {
        let mut s = u16_to_string(n / 10);
        s.append(digit_str(n % 10));
        proof {
            assert(s@ =~= dec_str(n as nat));
        }
        s
    }
}

/// Relies on `core::str::from_utf8`: it succeeds exactly on valid UTF-8 and
/// yields the characters that `vstd::utf8::decode_utf8` gives for the bytes.
#[verifier::external_body]
pub fn decode_utf8_bytes(buffer: &[u8]) -> (r: Option<String>)
    ensures
        r is Some <==> vstd::utf8::valid_utf8(buffer@),
        r matches Some(s) ==> s@ == vstd::utf8::decode_utf8(buffer@),
{
    match core::str::from_utf8(buffer) {
        Ok(s) => Some(s.to_string()),
        Err(_) => None,
    }
}

} // verus!
