//! Text helpers over the characters of a string: equality, substring search,
//! white-space trimming and decimal formatting.

use vstd::prelude::*;
use vstd::string::*;

verus! {

broadcast use vstd::string::group_string_axioms;

/// The characters of `s`, one by one.
pub fn chars_of(s: &str) -> (v: Vec<char>)
    ensures
        v@ == s@,
{
    let n = s.unicode_len();
    let mut v: Vec<char> = Vec::new();
    let mut i: usize = 0;
    while i < n
        invariant
            n == s@.len(),
            i <= n,
            v@ == s@.subrange(0, i as int),
        decreases n - i,
    {
        let c = s.get_char(i);
        v.push(c);
        i = i + 1;
        assert(v@ =~= s@.subrange(0, i as int));
    }
    assert(v@ =~= s@);
    v
}

/// Whether two strings hold the same characters.
pub fn text_eq(a: &str, b: &str) -> (r: bool)
    ensures
        r == (a@ == b@),
{
    let x = chars_of(a);
    let y = chars_of(b);
    if x.len() != y.len() {
        return false;
    }
    let mut i: usize = 0;
    while i < x.len()
        invariant
            x@ == a@,
            y@ == b@,
            x.len() == y.len(),
            i <= x.len(),
            forall|j: int| 0 <= j < i ==> x@[j] == y@[j],
        decreases x.len() - i,
    {
        if x[i] != y[i] {
            return false;
        }
        i = i + 1;
    }
    assert(x@ =~= y@);
    true
}

/// `needle` occurs in `hay` starting at position `i`.
pub open spec fn occurs_at(hay: Seq<char>, needle: Seq<char>, i: int) -> bool {
    &&& 0 <= i
    &&& i + needle.len() <= hay.len()
    &&& hay.subrange(i, i + needle.len()) == needle
}

/// `needle` occurs somewhere in `hay`.
pub open spec fn contains_chars(hay: Seq<char>, needle: Seq<char>) -> bool {
    exists|i: int| occurs_at(hay, needle, i)
}

fn matches_at(hay: &Vec<char>, needle: &Vec<char>, i: usize) -> (r: bool)
    requires
        i + needle.len() <= hay.len(),
    ensures
        r == occurs_at(hay@, needle@, i as int),
{
    let mut j: usize = 0;
    while j < needle.len()
        invariant
            i + needle.len() <= hay.len(),
            j <= needle.len(),
            forall|k: int| 0 <= k < j ==> hay@[i + k] == needle@[k],
        decreases needle.len() - j,
    {
        if hay[i + j] != needle[j] {
            assert(hay@.subrange(i as int, i + needle.len())[j as int] != needle@[j as int]);
            return false;
        }
        j = j + 1;
    }
    assert(hay@.subrange(i as int, i + needle.len()) =~= needle@);
    true
}

/// Whether `needle` occurs in `hay` (an empty needle occurs everywhere).
pub fn text_contains(hay: &str, needle: &str) -> (r: bool)
    ensures
        r == contains_chars(hay@, needle@),
{
    let h = chars_of(hay);
    let n = chars_of(needle);
    if n.len() > h.len() {
        assert forall|i: int| !occurs_at(hay@, needle@, i) by {}
        return false;
    }
    let last = h.len() - n.len();
    let mut i: usize = 0;
    loop
        invariant
            h@ == hay@,
            n@ == needle@,
            last == h.len() - n.len(),
            n.len() <= h.len(),
            i <= last,
            forall|k: int| 0 <= k < i ==> !occurs_at(hay@, needle@, k),
        ensures
            forall|k: int| 0 <= k <= last ==> !occurs_at(hay@, needle@, k),
        decreases last - i,
    {
        if matches_at(&h, &n, i) {
            return true;
        }
        if i == last {
            break;
        }
        i = i + 1;
    }
    assert forall|k: int| !occurs_at(hay@, needle@, k) by {
        if 0 <= k && k + needle@.len() <= hay@.len() {
            assert(k <= last);
        }
    }
    false
}


/// Characters with the Unicode `White_Space` property.
pub open spec fn is_white_space(c: char) -> bool {
    let u = c as u32;
    ||| 0x09 <= u <= 0x0d
    ||| u == 0x20
    ||| u == 0x85
    ||| u == 0xa0
    ||| u == 0x1680
    ||| 0x2000 <= u <= 0x200a
    ||| u == 0x2028
    ||| u == 0x2029
    ||| u == 0x202f
    ||| u == 0x205f
    ||| u == 0x3000
}

/// `s` without its leading and trailing white space.
pub open spec fn trimmed(s: Seq<char>) -> Seq<char>
    decreases s.len(),
{
    if s.len() == 0 {
        s
    } else if is_white_space(s.first()) {
        trimmed(s.drop_first())
    } else if is_white_space(s.last()) {
        trimmed(s.drop_last())
    } else {
        s
    }
}

/// Whether `c` is a white-space character.
pub fn white_space(c: char) -> (r: bool)
    ensures
        r == is_white_space(c),
{
    let u = c as u32;
    (0x09 <= u && u <= 0x0d) || u == 0x20 || u == 0x85 || u == 0xa0 || u == 0x1680 || (0x2000
        <= u && u <= 0x200a) || u == 0x2028 || u == 0x2029 || u == 0x202f || u == 0x205f || u
        == 0x3000
}

/// The trimmed text is the part between the first and the last character
/// that is not white space.
proof fn lemma_trimmed_range(s: Seq<char>, a: int, b: int)
    requires
        0 <= a <= b <= s.len(),
        forall|k: int| 0 <= k < a ==> is_white_space(#[trigger] s[k]),
        forall|k: int| b <= k < s.len() ==> is_white_space(#[trigger] s[k]),
        a < b ==> !is_white_space(s[a]) && !is_white_space(s[b - 1]),
    ensures
        trimmed(s) == s.subrange(a, b),
    decreases s.len(),
{
    if s.len() == 0 {
        assert(s.subrange(a, b) =~= s);
    } else if is_white_space(s.first()) {
        let t = s.drop_first();
        if a == 0 {
            assert(b == 0);
            lemma_trimmed_range(t, 0, 0);
            assert(t.subrange(0, 0) =~= s.subrange(a, b));
        } else {
            lemma_trimmed_range(t, a - 1, b - 1);
            assert(t.subrange(a - 1, b - 1) =~= s.subrange(a, b));
        }
    } else if is_white_space(s.last()) {
        let t = s.drop_last();
        assert(a == 0);
        assert(b < s.len());
        lemma_trimmed_range(t, a, b);
        assert(t.subrange(a, b) =~= s.subrange(a, b));
    } else {
        assert(a == 0);
        assert(b == s.len());
        assert(s.subrange(a, b) =~= s);
    }
}

/// `s` with leading and trailing white space removed.
pub fn trim_white_space(s: &str) -> (t: &str)
    ensures
        t@ == trimmed(s@),
{
    let v = chars_of(s);
    let n = v.len();
    let mut start: usize = 0;
    while start < n && white_space(v[start])
        invariant
            v@ == s@,
            n == v.len(),
            start <= n,
            forall|k: int| 0 <= k < start ==> is_white_space(#[trigger] s@[k]),
        decreases n - start,
    {
        start = start + 1;
    }
    let mut end: usize = n;
    while end > start && white_space(v[end - 1])
        invariant
            v@ == s@,
            n == v.len(),
            start <= end <= n,
            forall|k: int| end <= k < n ==> is_white_space(#[trigger] s@[k]),
        decreases end - start,
    {
        end = end - 1;
    }
    proof {
        lemma_trimmed_range(s@, start as int, end as int);
    }
    s.substring_char(start, end)
}


/// The decimal digit character for `d` (below ten).
pub open spec fn digit_char(d: nat) -> char {
    (('0' as u32) + d) as char
}

/// The decimal notation of `n`, most significant digit first, without
/// leading zeros.
pub open spec fn decimal(n: nat) -> Seq<char>
    decreases n,
{
    if n < 10 {
        seq![digit_char(n)]
    } else {
        decimal(n / 10).push(digit_char(n % 10))
    }
}

fn digit_text(d: u64) -> (t: &'static str)
    requires
        d < 10,
    ensures
        t@ == seq![digit_char(d as nat)],
{
    proof {
        reveal_strlit("0");
        reveal_strlit("1");
        reveal_strlit("2");
        reveal_strlit("3");
        reveal_strlit("4");
        reveal_strlit("5");
        reveal_strlit("6");
        reveal_strlit("7");
        reveal_strlit("8");
        reveal_strlit("9");
    }
    match d {
        0 => "0",
        1 => "1",
        2 => "2",
        3 => "3",
        4 => "4",
        5 => "5",
        6 => "6",
        7 => "7",
        8 => "8",
        _ => "9",
    }
}

/// Appends the decimal notation of `n` to `out`.
pub fn append_decimal(out: &mut String, n: u64)
    ensures
        final(out)@ == old(out)@ + decimal(n as nat),
    decreases n,
{
    if n >= 10 {
        append_decimal(out, n / 10);
    }
    let d = digit_text(n % 10);
    out.append(d);
    proof {
        if n >= 10 {
            assert(decimal(n as nat) == decimal((n / 10) as nat).push(digit_char((n % 10) as nat)));
        }
    }
    assert(out@ =~= old(out)@ + decimal(n as nat));
}


/// Every character of `s` is white space.
pub open spec fn all_white_space(s: Seq<char>) -> bool {
    forall|k: int| 0 <= k < s.len() ==> is_white_space(#[trigger] s[k])
}

/// Trimming ignores white space added before or after a text: the trimmed
/// form of `pre + s + post` is that of `s` when `pre` and `post` are white
/// space only.
pub proof fn lemma_trim_ignores_surrounding_white_space(pre: Seq<char>, s: Seq<char>, post: Seq<char>)
    requires
        all_white_space(pre),
        all_white_space(post),
    ensures
        trimmed(pre + s + post) == trimmed(s),
{
    let t = pre + s + post;
    let a0 = leading_white_space(s, 0);
    let b0 = trailing_end(s, a0, s.len() as int);
    lemma_trim_bounds(s);
    assert(t.subrange(pre.len() + a0, pre.len() + b0) =~= s.subrange(a0, b0));
    if a0 < b0 {
        lemma_trimmed_range(t, pre.len() + a0, pre.len() + b0);
    } else {
        lemma_trimmed_range(t, t.len() as int, t.len() as int);
        assert(t.subrange(t.len() as int, t.len() as int) =~= s.subrange(a0, b0));
    }
    lemma_trimmed_range(s, a0, b0);
}

/// Trimming twice trims no more than trimming once.
pub proof fn lemma_trim_idempotent(s: Seq<char>)
    ensures
        trimmed(trimmed(s)) == trimmed(s),
{
    lemma_trim_bounds(s);
    let a = leading_white_space(s, 0);
    let b = trailing_end(s, a, s.len() as int);
    lemma_trimmed_range(s, a, b);
    let u = s.subrange(a, b);
    lemma_trimmed_range(u, 0, u.len() as int);
    assert(u.subrange(0, u.len() as int) =~= u);
}

/// Position of the first character at or after `i` that is not white space
/// (the length when there is none).
pub open spec fn leading_white_space(s: Seq<char>, i: int) -> int
    decreases s.len() - i,
{
    if i >= s.len() || !is_white_space(s[i]) {
        i
    } else {
        leading_white_space(s, i + 1)
    }
}

/// Going back from `j`, the end of the last character not in white space,
/// stopping at `a`.
pub open spec fn trailing_end(s: Seq<char>, a: int, j: int) -> int
    decreases j - a,
{
    if j <= a || !is_white_space(s[j - 1]) {
        j
    } else {
        trailing_end(s, a, j - 1)
    }
}

proof fn lemma_leading(s: Seq<char>, i: int)
    requires
        0 <= i <= s.len(),
    ensures
        i <= leading_white_space(s, i) <= s.len(),
        forall|k: int| i <= k < leading_white_space(s, i) ==> is_white_space(#[trigger] s[k]),
        leading_white_space(s, i) < s.len() ==> !is_white_space(s[leading_white_space(s, i)]),
    decreases s.len() - i,
{
    if i < s.len() && is_white_space(s[i]) {
        lemma_leading(s, i + 1);
    }
}

proof fn lemma_trailing(s: Seq<char>, a: int, j: int)
    requires
        0 <= a <= j <= s.len(),
    ensures
        a <= trailing_end(s, a, j) <= j,
        forall|k: int| trailing_end(s, a, j) <= k < j ==> is_white_space(#[trigger] s[k]),
        a < trailing_end(s, a, j) ==> !is_white_space(s[trailing_end(s, a, j) - 1]),
    decreases j - a,
{
    if a < j && is_white_space(s[j - 1]) {
        lemma_trailing(s, a, j - 1);
    }
}

/// The bounds of the trimmed part of `s`.
proof fn lemma_trim_bounds(s: Seq<char>)
    ensures
        ({
            let a = leading_white_space(s, 0);
            let b = trailing_end(s, a, s.len() as int);
            &&& 0 <= a <= b <= s.len()
            &&& forall|k: int| 0 <= k < a ==> is_white_space(#[trigger] s[k])
            &&& forall|k: int| b <= k < s.len() ==> is_white_space(#[trigger] s[k])
            &&& a < b ==> !is_white_space(s[a]) && !is_white_space(s[b - 1])
        }),
{
    lemma_leading(s, 0);
    let a = leading_white_space(s, 0);
    lemma_trailing(s, a, s.len() as int);
}

} // verus!
