//! Text rules shared by the library: Unicode white space, trimming and
//! decimal rendering.

use vstd::prelude::*;

verus! {

/// The characters with the Unicode `White_Space` property, which is what
/// `char::is_whitespace` tests.
pub open spec fn is_ws(c: char) -> bool {
    let n = c as u32;
    ||| 0x09 <= n <= 0x0D
    ||| n == 0x20
    ||| n == 0x85
    ||| n == 0xA0
    ||| n == 0x1680
    ||| 0x2000 <= n <= 0x200A
    ||| n == 0x2028
    ||| n == 0x2029
    ||| n == 0x202F
    ||| n == 0x205F
    ||| n == 0x3000
}

/// Index of the first character at or after `i` that is not white space,
/// or the length of `s` when there is none.
pub open spec fn skip_ws_from(s: Seq<char>, i: int) -> int
    decreases s.len() - i,
{
    if i < 0 || i >= s.len() {
        s.len() as int
    } else if is_ws(s[i]) {
        skip_ws_from(s, i + 1)
    } else {
        i
    }
}

/// End of `s[lo..j]` once white space at its end is dropped.
pub open spec fn drop_ws_back(s: Seq<char>, lo: int, j: int) -> int
    decreases j - lo,
{
    if j <= lo {
        lo
    } else if is_ws(s[j - 1]) {
        drop_ws_back(s, lo, j - 1)
    } else {
        j
    }
}

/// `s` without the white space at its start and at its end.
pub open spec fn trimmed(s: Seq<char>) -> Seq<char> {
    let a = skip_ws_from(s, 0);
    s.subrange(a, drop_ws_back(s, a, s.len() as int))
}

/// Tests a character for the Unicode `White_Space` property.
pub fn is_whitespace(c: char) -> (r: bool)
    ensures
        r == is_ws(c),
{
    let n = c as u32;
    (0x09 <= n && n <= 0x0D) || n == 0x20 || n == 0x85 || n == 0xA0 || n == 0x1680 || (0x2000
        <= n && n <= 0x200A) || n == 0x2028 || n == 0x2029 || n == 0x202F || n == 0x205F || n
        == 0x3000
}

proof fn lemma_skip_ws_from(s: Seq<char>, i: int)
    requires
        0 <= i <= s.len(),
    ensures
        i <= skip_ws_from(s, i) <= s.len(),
        skip_ws_from(s, i) < s.len() ==> !is_ws(s[skip_ws_from(s, i)]),
        forall|k: int| i <= k < skip_ws_from(s, i) ==> is_ws(#[trigger] s[k]),
    decreases s.len() - i,
{
    if i < s.len() && is_ws(s[i]) {
        lemma_skip_ws_from(s, i + 1);
    }
}

proof fn lemma_drop_ws_back(s: Seq<char>, lo: int, j: int)
    requires
        0 <= lo <= j <= s.len(),
    ensures
        lo <= drop_ws_back(s, lo, j) <= j,
        drop_ws_back(s, lo, j) > lo ==> !is_ws(s[drop_ws_back(s, lo, j) - 1]),
        forall|k: int| drop_ws_back(s, lo, j) <= k < j ==> is_ws(#[trigger] s[k]),
    decreases j - lo,
{
    if j > lo && is_ws(s[j - 1]) {
        lemma_drop_ws_back(s, lo, j - 1);
    }
}

/// What trimming leaves has no white space at either end.
pub proof fn lemma_trimmed_ends(s: Seq<char>)
    ensures
        trimmed(s).len() <= s.len(),
        trimmed(s).len() > 0 ==> !is_ws(trimmed(s)[0]) && !is_ws(
            trimmed(s)[trimmed(s).len() - 1],
        ),
{
    lemma_skip_ws_from(s, 0);
    let a = skip_ws_from(s, 0);
    lemma_drop_ws_back(s, a, s.len() as int);
}

/// A sequence without white space at either end is left as it is.
pub proof fn lemma_trimmed_fixed(t: Seq<char>)
    requires
        t.len() > 0 ==> !is_ws(t[0]) && !is_ws(t[t.len() - 1]),
    ensures
        trimmed(t) == t,
{
    if t.len() > 0 {
        assert(skip_ws_from(t, 0) == 0);
        assert(drop_ws_back(t, 0, t.len() as int) == t.len());
    }
    assert(trimmed(t) =~= t);
}

/// Trimming twice gives what trimming once gives.
pub proof fn lemma_trimmed_idempotent(s: Seq<char>)
    ensures
        trimmed(trimmed(s)) == trimmed(s),
{
    lemma_trimmed_ends(s);
    lemma_trimmed_fixed(trimmed(s));
}

/// Trimming leaves nothing exactly when every character is white space, and
/// otherwise leaves the piece of `s` from its first to its last character
/// that is not white space.
pub proof fn lemma_trimmed_characterized(s: Seq<char>)
    ensures
        trimmed(s).len() == 0 <==> forall|k: int| 0 <= k < s.len() ==> is_ws(#[trigger] s[k]),
        trimmed(s).len() > 0 ==> exists|a: int, b: int|
            0 <= a < b <= s.len() && trimmed(s) == s.subrange(a, b) && !is_ws(s[a]) && !is_ws(
                s[b - 1],
            ) && (forall|k: int| 0 <= k < a ==> is_ws(#[trigger] s[k])) && (forall|k: int|
                b <= k < s.len() ==> is_ws(#[trigger] s[k])),
{
    lemma_skip_ws_from(s, 0);
    let a = skip_ws_from(s, 0);
    lemma_drop_ws_back(s, a, s.len() as int);
    let b = drop_ws_back(s, a, s.len() as int);
    if trimmed(s).len() == 0 {
        assert(a == b);
        if a < s.len() {
            assert(!is_ws(s[a]));
            assert(is_ws(s[a]));
        }
    } else {
        assert(trimmed(s) == s.subrange(a, b));
    }
}

/// Removes the white space at the start and at the end of `s`, as
/// `str::trim` does.
pub fn trim(s: &str) -> (r: String)
    ensures
        r@ == trimmed(s@),
{
    let n = s.unicode_len();
    let mut i: usize = 0;
    while i < n && is_whitespace(s.get_char(i))
        invariant
            n == s@.len(),
            0 <= i <= n,
            skip_ws_from(s@, i as int) == skip_ws_from(s@, 0),
        decreases n - i,
    {
        i = i + 1;
    }
    assert(skip_ws_from(s@, i as int) == i);
    let mut j: usize = n;
    while j > i && is_whitespace(s.get_char(j - 1))
        invariant
            n == s@.len(),
            0 <= i <= j <= n,
            drop_ws_back(s@, i as int, j as int) == drop_ws_back(s@, i as int, n as int),
        decreases j,
    {
        j = j - 1;
    }
    assert(drop_ws_back(s@, i as int, j as int) == j);
    String::from_str(s.substring_char(i, j))
}

/// The decimal digit for `d`, for `d` below ten.
pub open spec fn digit(d: nat) -> char {
    seq!['0', '1', '2', '3', '4', '5', '6', '7', '8', '9'][d as int]
}

/// The decimal rendering of `n`, without sign or leading zeros.
pub open spec fn decimal(n: nat) -> Seq<char>
    decreases n,
{
    if n < 10 {
        seq![digit(n)]
    } else {
        decimal(n / 10) + seq![digit(n % 10)]
    }
}

/// The one-character string of the decimal digit `d`.
fn digit_string(d: u64) -> (r: String)
    requires
        d < 10,
    ensures
        r@ == seq![digit(d as nat)],
{
    let digits = "0123456789";
    proof {
        reveal_strlit("0123456789");
    }
    assert(digits@ =~= seq!['0', '1', '2', '3', '4', '5', '6', '7', '8', '9']);
    let i = d as usize;
    let r = String::from_str(digits.substring_char(i, i + 1));
    assert(r@ =~= seq![digit(d as nat)]);
    r
}

/// Renders `n` in decimal, as `Display` does for unsigned integers.
pub fn decimal_string(n: u64) -> (r: String)
    ensures
        r@ == decimal(n as nat),
    decreases n,
{
    if n < 10 {
        digit_string(n)
    } else {
        let mut r = decimal_string(n / 10);
        let last = digit_string(n % 10);
        r.append(last.as_str());
        r
    }
}

/// Joins two pieces of text.
pub fn joined(a: &str, b: &str) -> (r: String)
    ensures
        r@ == a@ + b@,
{
    let mut r = String::from_str(a);
    r.append(b);
    r
}

/// The text held by an optional string.
pub open spec fn opt_view(o: Option<String>) -> Option<Seq<char>> {
    match o {
        Some(s) => Some(s@),
        None => None,
    }
}

/// Copies an optional string.
pub fn clone_opt(o: &Option<String>) -> (r: Option<String>)
    ensures
        opt_view(r) == opt_view(*o),
{
    match o {
        Some(s) => Some(s.clone()),
        None => None,
    }
}

} // verus!
