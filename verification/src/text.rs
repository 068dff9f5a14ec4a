//! Character-level string helpers shared by the labels, forms and history rows.
use vstd::prelude::*;

verus! {

broadcast use vstd::string::group_string_axioms;

/// Unicode `White_Space` (PropList.txt), the property `char::is_whitespace` tests:
/// U+0009..U+000D, U+0020, U+0085, U+00A0, U+1680, U+2000..U+200A, U+2028, U+2029, U+202F,
/// U+205F and U+3000.
pub open spec fn char_is_whitespace(c: char) -> bool {
    let u = c as u32;
    ||| (0x9 <= u && u <= 0xD)
    ||| u == 0x20
    ||| u == 0x85
    ||| u == 0xA0
    ||| u == 0x1680
    ||| (0x2000 <= u && u <= 0x200A)
    ||| u == 0x2028
    ||| u == 0x2029
    ||| u == 0x202F
    ||| u == 0x205F
    ||| u == 0x3000
}

/// Unicode `Alphabetic` or `Numeric`, as `char::is_alphanumeric` decides it.
pub uninterp spec fn char_is_alphanumeric(c: char) -> bool;

/// ASCII letters and digits.
pub open spec fn is_ascii_alphanumeric_spec(c: char) -> bool {
    ||| ('a' as u32 <= c as u32 && c as u32 <= 'z' as u32)
    ||| ('A' as u32 <= c as u32 && c as u32 <= 'Z' as u32)
    ||| ('0' as u32 <= c as u32 && c as u32 <= '9' as u32)
}

/// `char::is_whitespace`: whether the character has the Unicode `White_Space` property.
pub fn is_whitespace(c: char) -> (r: bool)
    ensures
        r == char_is_whitespace(c),
{
    let u = c as u32;
    (0x9 <= u && u <= 0xD) || u == 0x20 || u == 0x85 || u == 0xA0 || u == 0x1680 || (0x2000 <= u
        && u <= 0x200A) || u == 0x2028 || u == 0x2029 || u == 0x202F || u == 0x205F || u == 0x3000
}

/// Calls `char::is_alphanumeric`, which is documented as `is_alphabetic() || is_numeric()`
/// (the Unicode `Alphabetic` and `Numeric` properties). Within ASCII those properties hold
/// exactly of the letters and the digits, and no `White_Space` character has either property
/// (they are controls and separators); the contract states those facts and otherwise names
/// the result, whose tables are not restated here.
#[verifier::external_body]
fn is_alphanumeric(c: char) -> (r: bool)
    ensures
        r == char_is_alphanumeric(c),
        (c as u32) < 128 ==> (r <==> is_ascii_alphanumeric_spec(c)),
        char_is_whitespace(c) ==> !r,
{
    c.is_alphanumeric()
}

/// Calls `String::push`, documented to append the character to the end of the string.
#[verifier::external_body]
fn push_char(s: &mut String, c: char)
    ensures
        final(s)@ == old(s)@.push(c),
{
    s.push(c);
}

/// `char::is_alphanumeric` as far as it is stated: the ASCII letters and digits within
/// ASCII, the Unicode `Alphabetic`/`Numeric` properties (named) beyond it.
pub open spec fn alphanumeric_spec(c: char) -> bool {
    if (c as u32) < 128 {
        is_ascii_alphanumeric_spec(c)
    } else if char_is_whitespace(c) {
        false
    } else {
        char_is_alphanumeric(c)
    }
}

/// Whether the character is Unicode alphabetic or numeric.
pub fn char_alphanumeric(c: char) -> (r: bool)
    ensures
        r == char_is_alphanumeric(c),
        r == alphanumeric_spec(c),
        (c as u32) < 128 ==> (r <==> is_ascii_alphanumeric_spec(c)),
{
    is_alphanumeric(c)
}

/// `char::to_ascii_uppercase`: ASCII lower-case letters map to upper case, all else stays.
pub open spec fn ascii_upper(c: char) -> char {
    if 'a' as u32 <= c as u32 && c as u32 <= 'z' as u32 {
        ((c as u32) - 32) as char
    } else {
        c
    }
}

/// Maps an ASCII lower-case letter to upper case and leaves every other character unchanged.
pub fn to_ascii_upper(c: char) -> (r: char)
    ensures
        r == ascii_upper(c),
{
    if 'a' <= c && c <= 'z' {
        let code: u32 = (c as u32) - 32;
        assert(65 <= code <= 90);
        char_from_ascii(code)
    } else {
        c
    }
}

/// The character with an ASCII upper-case letter's code.
fn char_from_ascii(code: u32) -> (r: char)
    requires
        65 <= code <= 90,
    ensures
        r == code as char,
{
    let b: u8 = code as u8;
    b as char
}

/// The characters of `s`, in order.
pub fn chars_of(s: &str) -> (r: Vec<char>)
    ensures
        r@ == s@,
{
    let mut out: Vec<char> = Vec::new();
    for c in it: s.chars()
        invariant
            it.seq() == s@,
            out@ == it.seq().take(it.index() as int),
    {
        out.push(c);
    }
    out
}

/// The string made of `v[lo..hi]`.
pub fn string_of(v: &Vec<char>, lo: usize, hi: usize) -> (r: String)
    requires
        lo <= hi <= v.len(),
    ensures
        r@ == v@.subrange(lo as int, hi as int),
{
    let mut out = String::new();
    let mut i = lo;
    while i < hi
        invariant
            lo <= i <= hi <= v.len(),
            out@ == v@.subrange(lo as int, i as int),
        decreases hi - i,
    {
        push_char(&mut out, v[i]);
        assert(v@.subrange(lo as int, i + 1) == v@.subrange(lo as int, i as int).push(v@[i as int]));
        i = i + 1;
    }
    out
}

/// Whether two strings hold the same characters.
pub fn str_eq(a: &str, b: &str) -> (r: bool)
    ensures
        r == (a@ == b@),
{
    let x = chars_of(a);
    let y = chars_of(b);
    if x.len() != y.len() {
        return false;
    }
    let mut i: usize = 0;
    while i < x.len()
        invariant
            x@ == a@,
            y@ == b@,
            x.len() == y.len(),
            i <= x.len(),
            forall|k: int| 0 <= k < i ==> x@[k] == y@[k],
        decreases x.len() - i,
    {
        if x[i] != y[i] {
            return false;
        }
        i = i + 1;
    }
    assert(x@ =~= y@);
    true
}

/// `s` with the leading whitespace removed.
pub open spec fn trim_start_spec(s: Seq<char>) -> Seq<char>
    decreases s.len(),
{
    if s.len() > 0 && char_is_whitespace(s[0]) {
        trim_start_spec(s.drop_first())
    } else {
        s
    }
}

/// `s` with the trailing whitespace removed.
pub open spec fn trim_end_spec(s: Seq<char>) -> Seq<char>
    decreases s.len(),
{
    if s.len() > 0 && char_is_whitespace(s.last()) {
        trim_end_spec(s.drop_last())
    } else {
        s
    }
}

/// `str::trim`: `s` without leading and trailing whitespace.
pub open spec fn trim_spec(s: Seq<char>) -> Seq<char> {
    trim_end_spec(trim_start_spec(s))
}

proof fn lemma_trim_start_at(s: Seq<char>, i: int)
    requires
        0 <= i <= s.len(),
        forall|m: int| 0 <= m < i ==> char_is_whitespace(#[trigger] s[m]),
        i == s.len() || !char_is_whitespace(s[i]),
    ensures
        trim_start_spec(s) == s.subrange(i, s.len() as int),
    decreases i,
{
    if i == 0 {
        assert(s.subrange(0, s.len() as int) =~= s);
    } else {
        let t = s.drop_first();
        assert forall|m: int| 0 <= m < i - 1 implies char_is_whitespace(#[trigger] t[m]) by {
            assert(t[m] == s[m + 1]);
        }
        lemma_trim_start_at(t, i - 1);
        assert(t.subrange(i - 1, t.len() as int) =~= s.subrange(i, s.len() as int));
    }
}

proof fn lemma_trim_end_at(s: Seq<char>, j: int)
    requires
        0 <= j <= s.len(),
        forall|m: int| j <= m < s.len() ==> char_is_whitespace(#[trigger] s[m]),
        j == 0 || !char_is_whitespace(s[j - 1]),
    ensures
        trim_end_spec(s) == s.subrange(0, j),
    decreases s.len() - j,
{
    if j == s.len() {
        assert(s.subrange(0, j) =~= s);
    } else {
        let t = s.drop_last();
        assert forall|m: int| j <= m < t.len() implies char_is_whitespace(#[trigger] t[m]) by {
            assert(t[m] == s[m]);
        }
        assert(char_is_whitespace(s[s.len() - 1]));
        lemma_trim_end_at(t, j);
        assert(t.subrange(0, j) =~= s.subrange(0, j));
    }
}

/// Trimming `s[i..j]`, where `s[..i]` and `s[j..]` are whitespace and the ends of `s[i..j]`
/// are not, gives `s[i..j]`.
proof fn lemma_trim_window(s: Seq<char>, i: int, j: int)
    requires
        0 <= i <= j <= s.len(),
        forall|m: int| 0 <= m < i ==> char_is_whitespace(#[trigger] s[m]),
        forall|m: int| j <= m < s.len() ==> char_is_whitespace(#[trigger] s[m]),
        i < j ==> !char_is_whitespace(s[i]) && !char_is_whitespace(s[j - 1]),
        i == j ==> j == s.len(),
    ensures
        trim_spec(s) == s.subrange(i, j),
{
    lemma_trim_start_at(s, i);
    let t = s.subrange(i, s.len() as int);
    assert forall|m: int| j - i <= m < t.len() implies char_is_whitespace(#[trigger] t[m]) by {
        assert(t[m] == s[m + i]);
    }
    if i < j {
        assert(t[j - i - 1] == s[j - 1]);
    }
    lemma_trim_end_at(t, j - i);
    assert(t.subrange(0, j - i) =~= s.subrange(i, j));
}

/// Trimming is idempotent.
pub proof fn lemma_trim_idempotent(s: Seq<char>)
    ensures
        trim_spec(trim_spec(s)) == trim_spec(s),
{
    let (i, j) = trim_bounds(s);
    lemma_trim_window(s, i, j);
    let t = s.subrange(i, j);
    assert forall|m: int| 0 <= m < 0 implies char_is_whitespace(#[trigger] t[m]) by {}
    if i < j {
        assert(t[0] == s[i]);
        assert(t[j - i - 1] == s[j - 1]);
    }
    lemma_trim_window(t, 0, j - i);
    assert(t.subrange(0, j - i) =~= t);
}

/// The predicate `char::is_alphanumeric`.
pub open spec fn alphanumeric_pred() -> spec_fn(char) -> bool {
    |c: char| alphanumeric_spec(c)
}

/// Trimming removes no alphanumeric character: the alphanumerics of `s` and of its trimmed
/// form are the same.
pub proof fn lemma_trim_keeps_alphanumerics(s: Seq<char>)
    ensures
        trim_spec(s).filter(alphanumeric_pred()) == s.filter(alphanumeric_pred()),
{
    let pred = alphanumeric_pred();
    let (i, j) = trim_bounds(s);
    lemma_trim_window(s, i, j);
    let a = s.subrange(0, i);
    let b = s.subrange(i, j);
    let c = s.subrange(j, s.len() as int);
    assert(s =~= a + b + c);
    Seq::filter_distributes_over_add(a + b, c, pred);
    Seq::filter_distributes_over_add(a, b, pred);
    assert(a.all(|x: char| !pred(x))) by {
        assert forall|k: int| 0 <= k < a.len() implies !pred(#[trigger] a[k]) by {
            assert(a[k] == s[k]);
            assert(char_is_whitespace(s[k]));
        }
    }
    assert(c.all(|x: char| !pred(x))) by {
        assert forall|k: int| 0 <= k < c.len() implies !pred(#[trigger] c[k]) by {
            assert(c[k] == s[j + k]);
            assert(char_is_whitespace(s[j + k]));
        }
    }
    a.lemma_all_neg_filter_empty(pred);
    c.lemma_all_neg_filter_empty(pred);
    assert(a.filter(pred) =~= Seq::<char>::empty());
    assert(c.filter(pred) =~= Seq::<char>::empty());
    assert(s.filter(pred) =~= b.filter(pred));
}

/// Trimming keeps a contiguous run of `s` that neither starts nor ends with whitespace and
/// drops only whitespace before and after it.
pub proof fn lemma_trim_law(s: Seq<char>)
    ensures
        exists|i: int, j: int| #![trigger s.subrange(i, j)]
            0 <= i <= j <= s.len() && trim_spec(s) == s.subrange(i, j)
            && (forall|m: int| 0 <= m < i ==> char_is_whitespace(#[trigger] s[m]))
            && (forall|m: int| j <= m < s.len() ==> char_is_whitespace(#[trigger] s[m]))
            && (i < j ==> !char_is_whitespace(s[i]) && !char_is_whitespace(s[j - 1])),
{
    let (i, j) = trim_bounds(s);
    lemma_trim_window(s, i, j);
    assert(trim_spec(s) == s.subrange(i, j));
}

/// Bounds `(i, j)` of the trimmed window of `s`, chosen so that `lemma_trim_window` applies.
proof fn trim_bounds(s: Seq<char>) -> (r: (int, int))
    ensures
        0 <= r.0 <= r.1 <= s.len(),
        forall|m: int| 0 <= m < r.0 ==> char_is_whitespace(#[trigger] s[m]),
        forall|m: int| r.1 <= m < s.len() ==> char_is_whitespace(#[trigger] s[m]),
        r.0 < r.1 ==> !char_is_whitespace(s[r.0]) && !char_is_whitespace(s[r.1 - 1]),
        r.0 == r.1 ==> r.1 == s.len(),
    decreases s.len(),
{
    if s.len() == 0 {
        (0, 0)
    } else if char_is_whitespace(s[0]) {
        let (a, b) = trim_bounds(s.drop_first());
        assert forall|m: int| 0 <= m < a + 1 implies char_is_whitespace(#[trigger] s[m]) by {
            if m > 0 {
                assert(s[m] == s.drop_first()[m - 1]);
            }
        }
        assert forall|m: int| b + 1 <= m < s.len() implies char_is_whitespace(#[trigger] s[m]) by {
            assert(s[m] == s.drop_first()[m - 1]);
        }
        if a < b {
            assert(s[a + 1] == s.drop_first()[a]);
            assert(s[b] == s.drop_first()[b - 1]);
        }
        (a + 1, b + 1)
    } else {
        let j = last_non_ws(s, s.len() as int);
        (0, j)
    }
}

/// Position after the last non-whitespace character of `s[..k]` (the first character of `s`
/// is known not to be whitespace).
proof fn last_non_ws(s: Seq<char>, k: int) -> (j: int)
    requires
        1 <= k <= s.len(),
        !char_is_whitespace(s[0]),
        forall|m: int| k <= m < s.len() ==> char_is_whitespace(#[trigger] s[m]),
    ensures
        1 <= j <= k,
        !char_is_whitespace(s[j - 1]),
        forall|m: int| j <= m < s.len() ==> char_is_whitespace(#[trigger] s[m]),
    decreases k,
{
    if !char_is_whitespace(s[k - 1]) {
        k
    } else {
        last_non_ws(s, k - 1)
    }
}

/// Start and end of the trimmed window of `v`.
fn trim_window(v: &Vec<char>) -> (r: (usize, usize))
    ensures
        r.0 <= r.1 <= v.len(),
        trim_spec(v@) == v@.subrange(r.0 as int, r.1 as int),
{
    let n = v.len();
    let mut i: usize = 0;
    while i < n && is_whitespace(v[i])
        invariant
            n == v.len(),
            i <= n,
            forall|m: int| 0 <= m < i ==> char_is_whitespace(#[trigger] v@[m]),
        decreases n - i,
    {
        i = i + 1;
    }
    let mut j: usize = n;
    while j > i && is_whitespace(v[j - 1])
        invariant
            n == v.len(),
            i <= j <= n,
            forall|m: int| j <= m < n ==> char_is_whitespace(#[trigger] v@[m]),
        decreases j,
    {
        j = j - 1;
    }
    proof {
        if i == j && j < n {
            assert(!char_is_whitespace(v@[i as int]));
            assert(char_is_whitespace(v@[j as int]));
        }
        lemma_trim_window(v@, i as int, j as int);
    }
    (i, j)
}

/// `str::trim`: `s` without its leading and trailing whitespace.
pub fn trim(s: &str) -> (r: String)
    ensures
        r@ == trim_spec(s@),
{
    let v = chars_of(s);
    let (i, j) = trim_window(&v);
    string_of(&v, i, j)
}

/// Whether the trimmed string is empty, i.e. `s` is all whitespace.
pub fn is_blank(s: &str) -> (r: bool)
    ensures
        r == (trim_spec(s@).len() == 0),
{
    let v = chars_of(s);
    let (i, j) = trim_window(&v);
    i == j
}

/// The decimal digit character of `d` (0 to 9).
pub open spec fn digit_char(d: nat) -> char {
    (48 + d) as char
}

/// The decimal representation of `n`, without leading zeros (`0` is `"0"`).
pub open spec fn decimal_spec(n: nat) -> Seq<char>
    decreases n,
{
    if n < 10 {
        seq![digit_char(n)]
    } else {
        decimal_spec(n / 10).push(digit_char(n % 10))
    }
}

/// The decimal representation of a signed integer, with a leading `-` when negative, as
/// `Display` writes it.
pub open spec fn signed_decimal_spec(n: int) -> Seq<char> {
    if n < 0 {
        seq!['-'] + decimal_spec((-n) as nat)
    } else {
        decimal_spec(n as nat)
    }
}

/// The character of a decimal digit.
fn digit(d: u64) -> (r: char)
    requires
        d < 10,
    ensures
        r == digit_char(d as nat),
{
    let b: u8 = 48u8 + (d as u8);
    b as char
}

/// Decimal digits of `n`.
pub fn decimal(n: u64) -> (r: Vec<char>)
    ensures
        r@ == decimal_spec(n as nat),
{
    let mut q: u64 = n;
    let mut acc: Vec<char> = Vec::new();
    while q >= 10
        invariant
            decimal_spec(n as nat) == decimal_spec(q as nat) + acc@,
        decreases q,
    {
        let d = digit(q % 10);
        let ghost before = acc@;
        acc.insert(0, d);
        proof {
            assert(decimal_spec(q as nat) == decimal_spec((q / 10) as nat).push(d));
            assert(acc@ =~= seq![d] + before);
            assert(decimal_spec((q / 10) as nat).push(d) + before =~= decimal_spec((q / 10) as nat) + acc@);
        }
        q = q / 10;
    }
    let d = digit(q);
    let ghost before = acc@;
    acc.insert(0, d);
    proof {
        assert(acc@ =~= seq![d] + before);
    }
    acc
}

/// The decimal representation of `n` as `Display` writes it.
pub fn signed_decimal(n: i64) -> (r: Vec<char>)
    ensures
        r@ == signed_decimal_spec(n as int),
{
    if n < 0 {
        let magnitude: u64 = if n == i64::MIN { 9223372036854775808u64 } else { (-n) as u64 };
        let digits = decimal(magnitude);
        let mut out: Vec<char> = Vec::new();
        out.push('-');
        let mut i: usize = 0;
        while i < digits.len()
            invariant
                i <= digits.len(),
                out@ == seq!['-'] + digits@.take(i as int),
            decreases digits.len() - i,
        {
            out.push(digits[i]);
            assert(digits@.take(i + 1) == digits@.take(i as int).push(digits@[i as int]));
            i = i + 1;
        }
        assert(digits@.take(digits.len() as int) =~= digits@);
        out
    } else {
        decimal(n as u64)
    }
}

/// Whether `t` occurs in `s` as a contiguous run of characters.
pub open spec fn occurs_in(s: Seq<char>, t: Seq<char>) -> bool {
    exists|i: int| 0 <= i && i + t.len() <= s.len() && #[trigger] s.subrange(i, i + t.len()) == t
}

/// `str::contains` for a string pattern.
pub fn contains(s: &str, t: &str) -> (r: bool)
    ensures
        r == occurs_in(s@, t@),
{
    let x = chars_of(s);
    let y = chars_of(t);
    if y.len() > x.len() {
        return false;
    }
    if y.len() == 0 {
        assert(s@.subrange(0int, 0int + t@.len()) =~= t@);
        return true;
    }
    let last = x.len() - y.len();
    let mut i: usize = 0;
    while i <= last
        invariant
            x@ == s@,
            y@ == t@,
            last == x.len() - y.len(),
            0 < y.len() <= x.len(),
            i <= last + 1,
            forall|p: int| 0 <= p < i ==> #[trigger] x@.subrange(p, p + y@.len()) != y@,
        decreases last + 1 - i,
    {
        let mut k: usize = 0;
        let mut same = true;
        while k < y.len()
            invariant
                x@ == s@,
                y@ == t@,
                i <= last,
                last == x.len() - y.len(),
                k <= y.len(),
                same ==> forall|q: int| 0 <= q < k ==> x@[i + q] == y@[q],
                !same ==> x@.subrange(i as int, i + y@.len()) != y@,
            decreases y.len() - k,
        {
            if same && x[i + k] != y[k] {
                same = false;
                assert(x@.subrange(i as int, i + y@.len())[k as int] == x@[i + k]);
            }
            k = k + 1;
        }
        if same {
            assert(x@.subrange(i as int, i + y@.len()) =~= y@);
            return true;
        }
        i = i + 1;
    }
    proof {
        assert forall|p: int| 0 <= p && p + t@.len() <= s@.len() implies #[trigger] s@.subrange(p, p + t@.len()) != t@ by {
            assert(p < i);
        }
    }
    false
}

} // verus!
