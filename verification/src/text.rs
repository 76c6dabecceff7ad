//! Character and string helpers shared by the whole crate.
//!
//! Text is modelled at the character level: the view of a `String` or `&str`
//! is its `Seq<char>`. Whitespace is the Unicode `White_Space` set, the same
//! set `char::is_whitespace` and `str::trim` use.

use vstd::prelude::*;
use vstd::string::*;

verus! {

/// Whitespace as this crate defines it: the Unicode `White_Space` set.
pub open spec fn is_wschar(c: char) -> bool {
    ||| c == ' '
    ||| c == '\t'
    ||| c == '\n'
    ||| c == '\r'
    ||| c == '\u{000B}'
    ||| c == '\u{000C}'
    ||| c == '\u{0085}'
    ||| c == '\u{00A0}'
    ||| c == '\u{1680}'
    ||| (0x2000 <= c as u32 && c as u32 <= 0x200A)
    ||| c == '\u{2028}'
    ||| c == '\u{2029}'
    ||| c == '\u{202F}'
    ||| c == '\u{205F}'
    ||| c == '\u{3000}'
}

/// A sequence is blank when every character is whitespace (so in particular
/// the empty sequence is blank).
pub open spec fn is_blank(s: Seq<char>) -> bool {
    forall|i: int| 0 <= i < s.len() ==> is_wschar(s[i])
}

/// The sequence with all trailing whitespace removed.
pub open spec fn trim_end_spec(s: Seq<char>) -> Seq<char>
    decreases s.len(),
{
    if s.len() == 0 {
        s
    } else if is_wschar(s.last()) {
        trim_end_spec(s.drop_last())
    } else {
        s
    }
}

/// The sequence with all leading whitespace removed.
pub open spec fn trim_start_spec(s: Seq<char>) -> Seq<char>
    decreases s.len(),
{
    if s.len() == 0 {
        s
    } else if is_wschar(s.first()) {
        trim_start_spec(s.drop_first())
    } else {
        s
    }
}

/// The sequence with whitespace removed from both ends.
pub open spec fn trim_spec(s: Seq<char>) -> Seq<char> {
    trim_start_spec(trim_end_spec(s))
}

/// The sequences of `ss` concatenated, with `sep` between adjacent ones.
pub open spec fn join_with(ss: Seq<Seq<char>>, sep: Seq<char>) -> Seq<char>
    decreases ss.len(),
{
    if ss.len() == 0 {
        Seq::empty()
    } else if ss.len() == 1 {
        ss[0]
    } else {
        join_with(ss.drop_last(), sep) + sep + ss.last()
    }
}

/// Whether `c` is whitespace.
pub fn is_ws(c: char) -> (b: bool)
    ensures
        b == is_wschar(c),
{
    c == ' ' || c == '\t' || c == '\n' || c == '\r' || c == '\u{000B}' || c == '\u{000C}'
        || c == '\u{0085}' || c == '\u{00A0}' || c == '\u{1680}' || (0x2000 <= c as u32 && c
        as u32 <= 0x200A) || c == '\u{2028}' || c == '\u{2029}' || c == '\u{202F}' || c
        == '\u{205F}' || c == '\u{3000}'
}

/// Character-for-character equality of two string slices.
pub fn str_eq(a: &str, b: &str) -> (r: bool)
    ensures
        r == (a@ == b@),
{
    let a_len = a.unicode_len();
    let b_len = b.unicode_len();
    if a_len != b_len {
        assert(a@.len() != b@.len());
        return false;
    }
    let mut i: usize = 0;
    while i < a_len
        invariant
            a_len == a@.len(),
            b_len == b@.len(),
            a_len == b_len,
            i <= a_len,
            forall|j: int| 0 <= j < i ==> a@[j] == b@[j],
        decreases a_len - i,
    {
        if a.get_char(i) != b.get_char(i) {
            assert(a@[i as int] != b@[i as int]);
            return false;
        }
        i = i + 1;
    }
    assert(a@ =~= b@);
    true
}

proof fn lemma_trim_end_step(s: Seq<char>, i: int)
    requires
        0 < i <= s.len(),
        is_wschar(s[i - 1]),
    ensures
        trim_end_spec(s.subrange(0, i)) == trim_end_spec(s.subrange(0, i - 1)),
{
    let sub = s.subrange(0, i);
    assert(sub.last() == s[i - 1]);
    assert(sub.drop_last() =~= s.subrange(0, i - 1));
}

/// The length of the longest prefix of `s` that ends in a non-whitespace
/// character; equivalently, where trailing whitespace begins.
pub fn trimmed_end_index(s: &str) -> (i: usize)
    ensures
        i <= s@.len(),
        trim_end_spec(s@) == s@.subrange(0, i as int),
        i > 0 ==> !is_wschar(s@[i - 1]),
{
    let len = s.unicode_len();
    let mut i: usize = len;
    proof {
        assert(s@.subrange(0, len as int) =~= s@);
    }
    while i > 0 && is_ws(s.get_char(i - 1))
        invariant
            i <= len,
            len == s@.len(),
            trim_end_spec(s@) == trim_end_spec(s@.subrange(0, i as int)),
        decreases i,
    {
        proof {
            lemma_trim_end_step(s@, i as int);
        }
        i = i - 1;
    }
    proof {
        let sub = s@.subrange(0, i as int);
        if i == 0 {
            assert(sub.len() == 0);
        } else {
            assert(sub.last() == s@[i - 1]);
            assert(!is_wschar(sub.last()));
        }
        assert(trim_end_spec(sub) == sub);
    }
    i
}

/// A copy of `s` with trailing whitespace removed.
pub fn trim_end_str(s: &str) -> (r: String)
    ensures
        r@ == trim_end_spec(s@),
{
    let i = trimmed_end_index(s);
    let sub = s.substring_char(0, i);
    String::from_str(sub)
}

/// Whether `s` consists of whitespace only.
pub fn is_blank_str(s: &str) -> (r: bool)
    ensures
        r == is_blank(s@),
{
    let len = s.unicode_len();
    let mut i: usize = 0;
    while i < len
        invariant
            i <= len,
            len == s@.len(),
            forall|j: int| 0 <= j < i ==> is_wschar(s@[j]),
        decreases len - i,
    {
        if !is_ws(s.get_char(i)) {
            assert(!is_wschar(s@[i as int]));
            return false;
        }
        i = i + 1;
    }
    true
}

proof fn lemma_trim_start_step(s: Seq<char>, i: int, e: int)
    requires
        0 <= i < e <= s.len(),
        is_wschar(s[i]),
    ensures
        trim_start_spec(s.subrange(i, e)) == trim_start_spec(s.subrange(i + 1, e)),
{
    let sub = s.subrange(i, e);
    assert(sub.first() == s[i]);
    assert(sub.drop_first() =~= s.subrange(i + 1, e));
}

/// The number of characters left after trimming whitespace from both ends.
pub fn trimmed_len(s: &str) -> (n: usize)
    ensures
        n == trim_spec(s@).len(),
{
    let e = trimmed_end_index(s);
    let mut i: usize = 0;
    while i < e && is_ws(s.get_char(i))
        invariant
            i <= e,
            e <= s@.len(),
            trim_end_spec(s@) == s@.subrange(0, e as int),
            trim_start_spec(s@.subrange(0, e as int)) == trim_start_spec(
                s@.subrange(i as int, e as int),
            ),
        decreases e - i,
    {
        proof {
            lemma_trim_start_step(s@, i as int, e as int);
        }
        i = i + 1;
    }
    proof {
        let sub = s@.subrange(i as int, e as int);
        if i == e {
            assert(sub.len() == 0);
        } else {
            assert(sub.first() == s@[i as int]);
            assert(!is_wschar(sub.first()));
        }
        assert(trim_start_spec(sub) == sub);
    }
    e - i
}

/// The character of a single decimal digit.
pub open spec fn digit_char_spec(d: int) -> char {
    if d == 0 {
        '0'
    } else if d == 1 {
        '1'
    } else if d == 2 {
        '2'
    } else if d == 3 {
        '3'
    } else if d == 4 {
        '4'
    } else if d == 5 {
        '5'
    } else if d == 6 {
        '6'
    } else if d == 7 {
        '7'
    } else if d == 8 {
        '8'
    } else {
        '9'
    }
}

/// The decimal digits of a natural number, most significant first.
pub open spec fn dec_spec(n: nat) -> Seq<char>
    decreases n,
{
    if n < 10 {
        seq![digit_char_spec(n as int)]
    } else {
        dec_spec(n / 10).push(digit_char_spec((n % 10) as int))
    }
}

/// The string of one decimal digit.
fn digit_str(d: usize) -> (r: &'static str)
    requires
        d < 10,
    ensures
        r@ == seq![digit_char_spec(d as int)],
{
    proof {
        reveal_strlit("0");
        reveal_strlit("1");
        reveal_strlit("2");
        reveal_strlit("3");
        reveal_strlit("4");
        reveal_strlit("5");
        reveal_strlit("6");
        reveal_strlit("7");
        reveal_strlit("8");
        reveal_strlit("9");
    }
    let r = match d {
        0 => "0",
        1 => "1",
        2 => "2",
        3 => "3",
        4 => "4",
        5 => "5",
        6 => "6",
        7 => "7",
        8 => "8",
        _ => "9",
    };
    proof {
        assert(r@ =~= seq![digit_char_spec(d as int)]);
    }
    r
}

/// Format a number in decimal.
pub fn usize_to_string(n: usize) -> (r: String)
    ensures
        r@ == dec_spec(n as nat),
    decreases n,
{
    if n < 10 {
        String::from_str(digit_str(n))
    } else {
        let q = n / 10;
        let d = n % 10;
        let prefix = usize_to_string(q);
        let r = prefix.concat(digit_str(d));
        proof {
            assert(r@ =~= dec_spec((n / 10) as nat).push(digit_char_spec((n % 10) as int)));
        }
        r
    }
}

/// A copy of a vector of strings.
pub fn clone_string_vec(v: &Vec<String>) -> (r: Vec<String>)
    ensures
        r@ == v@,
{
    let n = v.len();
    let mut r: Vec<String> = Vec::new();
    let mut i: usize = 0;
    while i < n
        invariant
            i <= n,
            n == v@.len(),
            r@.len() == i,
            forall|j: int| 0 <= j < i ==> r@[j] == v@[j],
        decreases n - i,
    {
        r.push(v[i].clone());
        i = i + 1;
    }
    proof {
        assert(r@ =~= v@);
    }
    r
}

/// Join the strings of `v` with `sep` between adjacent ones.
pub fn join_strings(v: &Vec<String>, sep: &str) -> (r: String)
    ensures
        r@ == join_with(v.deep_view(), sep@),
{
    let n = v.len();
    let mut r = String::new();
    let mut i: usize = 0;
    proof {
        assert(v.deep_view().subrange(0, 0) =~= Seq::<Seq<char>>::empty());
    }
    while i < n
        invariant
            i <= n,
            n == v@.len(),
            v.deep_view().len() == n,
            r@ == join_with(v.deep_view().subrange(0, i as int), sep@),
        decreases n - i,
    {
        let ghost prefix = v.deep_view().subrange(0, i as int);
        let ghost next_prefix = v.deep_view().subrange(0, i as int + 1);
        proof {
            assert(next_prefix.drop_last() =~= prefix);
            assert(next_prefix.last() == v.deep_view()[i as int]);
            assert(v.deep_view()[i as int] == v@[i as int]@);
        }
        if i > 0 {
            r.append(sep);
        }
        r.append(v[i].as_str());
        i = i + 1;
    }
    proof {
        assert(v.deep_view().subrange(0, n as int) =~= v.deep_view());
    }
    r
}

/// Split at the first occurrence of `c`: the parts before and after it,
/// or nothing when `c` does not occur.
pub open spec fn split_once_spec(s: Seq<char>, c: char) -> Option<(Seq<char>, Seq<char>)>
    decreases s.len(),
{
    if s.len() == 0 {
        None
    } else if s[0] == c {
        Some((Seq::empty(), s.drop_first()))
    } else {
        match split_once_spec(s.drop_first(), c) {
            Some((a, b)) => Some((seq![s[0]] + a, b)),
            None => None,
        }
    }
}

/// `split_once_spec` splits exactly at the first occurrence.
proof fn lemma_split_once_at(s: Seq<char>, c: char, k: int)
    requires
        0 <= k <= s.len(),
        forall|i: int| 0 <= i < k ==> s[i] != c,
        k == s.len() || s[k] == c,
    ensures
        k == s.len() ==> split_once_spec(s, c) is None,
        k < s.len() ==> split_once_spec(s, c) == Some(
            (s.subrange(0, k), s.subrange(k + 1, s.len() as int)),
        ),
    decreases s.len(),
{
    if s.len() == 0 {
    } else if s[0] == c {
        assert(k == 0);
        assert(s.drop_first() =~= s.subrange(1, s.len() as int));
        assert(Seq::<char>::empty() =~= s.subrange(0, 0));
    } else {
        assert(k > 0);
        let rest = s.drop_first();
        assert(forall|i: int| 0 <= i < k - 1 ==> #[trigger] rest[i] != c);
        lemma_split_once_at(rest, c, k - 1);
        if k < s.len() {
            assert(seq![s[0]] + rest.subrange(0, k - 1) =~= s.subrange(0, k));
            assert(rest.subrange(k, rest.len() as int) =~= s.subrange(k + 1, s.len() as int));
        }
    }
}

/// Split a string at the first occurrence of `c`.
pub fn str_split_once(s: &str, c: char) -> (r: Option<(String, String)>)
    ensures
        match r {
            Some((a, b)) => split_once_spec(s@, c) == Some((a@, b@)),
            None => split_once_spec(s@, c) is None,
        },
{
    let n = s.unicode_len();
    let mut k: usize = 0;
    while k < n && s.get_char(k) != c
        invariant
            k <= n,
            n == s@.len(),
            forall|i: int| 0 <= i < k ==> s@[i] != c,
        decreases n - k,
    {
        k = k + 1;
    }
    proof {
        lemma_split_once_at(s@, c, k as int);
    }
    if k >= n {
        None
    } else {
        let a = String::from_str(s.substring_char(0, k));
        let b = String::from_str(s.substring_char(k + 1, n));
        Some((a, b))
    }
}

/// Strict lexicographic order on character sequences, by character code.
pub open spec fn lex_lt(a: Seq<char>, b: Seq<char>) -> bool
    decreases a.len(),
{
    if b.len() == 0 {
        false
    } else if a.len() == 0 {
        true
    } else if a[0] != b[0] {
        (a[0] as u32) < (b[0] as u32)
    } else {
        lex_lt(a.drop_first(), b.drop_first())
    }
}

/// Dropping an equal prefix does not change the lexicographic order.
proof fn lemma_lex_skip(a: Seq<char>, b: Seq<char>, i: int)
    requires
        0 <= i <= a.len(),
        i <= b.len(),
        forall|j: int| 0 <= j < i ==> a[j] == b[j],
    ensures
        lex_lt(a, b) == lex_lt(
            a.subrange(i, a.len() as int),
            b.subrange(i, b.len() as int),
        ),
    decreases i,
{
    if i > 0 {
        assert(a.len() > 0 && b.len() > 0);
        assert(a[0] == b[0]);
        let a1 = a.drop_first();
        let b1 = b.drop_first();
        assert(forall|j: int| 0 <= j < i - 1 ==> #[trigger] a1[j] == b1[j]);
        lemma_lex_skip(a1, b1, i - 1);
        assert(a1.subrange(i - 1, a1.len() as int) =~= a.subrange(i, a.len() as int));
        assert(b1.subrange(i - 1, b1.len() as int) =~= b.subrange(i, b.len() as int));
    } else {
        assert(a.subrange(0, a.len() as int) =~= a);
        assert(b.subrange(0, b.len() as int) =~= b);
    }
}

/// Distinct characters have distinct Unicode scalar values.
proof fn lemma_char_code_neq(a: char, b: char)
    requires
        a != b,
    ensures
        (a as u32) != (b as u32),
{
    if (a as u32) == (b as u32) {
        vstd::utf8::char_u32_cast(a, a as u32);
        vstd::utf8::char_u32_cast(b, b as u32);
    }
}

/// Lexicographic order is total: two sequences are ordered one way or the
/// other, or are equal.
pub proof fn lemma_lex_total(a: Seq<char>, b: Seq<char>)
    ensures
        lex_lt(a, b) || lex_lt(b, a) || a == b,
    decreases a.len(),
{
    if b.len() == 0 {
        if a.len() == 0 {
            assert(a =~= b);
        }
    } else if a.len() == 0 {
    } else if a[0] != b[0] {
        lemma_char_code_neq(a[0], b[0]);
    } else {
        lemma_lex_total(a.drop_first(), b.drop_first());
        if a.drop_first() == b.drop_first() {
            assert(a.len() == a.drop_first().len() + 1);
            assert(b.len() == b.drop_first().len() + 1);
            assert(a.len() == b.len());
            assert forall|i: int| 0 <= i < a.len() implies a[i] == b[i] by {
                if i == 0 {
                    assert(a[0] == b[0]);
                } else {
                    assert(a.drop_first()[i - 1] == a[i]);
                    assert(b.drop_first()[i - 1] == b[i]);
                    assert(a.drop_first()[i - 1] == b.drop_first()[i - 1]);
                }
            }
            assert(a =~= b);
        }
    }
}

/// Lexicographic order is transitive.
pub proof fn lemma_lex_trans(a: Seq<char>, b: Seq<char>, c: Seq<char>)
    requires
        lex_lt(a, b),
        lex_lt(b, c),
    ensures
        lex_lt(a, c),
    decreases a.len(),
{
    if a.len() == 0 {
    } else {
        assert(b.len() > 0 && c.len() > 0);
        if a[0] == b[0] && b[0] == c[0] {
            lemma_lex_trans(a.drop_first(), b.drop_first(), c.drop_first());
        } else {
            if a[0] != b[0] {
                lemma_char_code_neq(a[0], b[0]);
            }
            if b[0] != c[0] {
                lemma_char_code_neq(b[0], c[0]);
            }
            assert((a[0] as u32) < (c[0] as u32));
            if a[0] == c[0] {
            } else {
                lemma_char_code_neq(a[0], c[0]);
            }
        }
    }
}

/// Whether `a` is lexicographically before `b`, by character code.
pub fn str_lt(a: &str, b: &str) -> (r: bool)
    ensures
        r == lex_lt(a@, b@),
{
    let an = a.unicode_len();
    let bn = b.unicode_len();
    let mut i: usize = 0;
    while i < an && i < bn
        invariant
            i <= an,
            i <= bn,
            an == a@.len(),
            bn == b@.len(),
            forall|j: int| 0 <= j < i ==> a@[j] == b@[j],
        decreases an - i,
    {
        let ca = a.get_char(i);
        let cb = b.get_char(i);
        if ca != cb {
            proof {
                lemma_lex_skip(a@, b@, i as int);
                let ar = a@.subrange(i as int, an as int);
                let br = b@.subrange(i as int, bn as int);
                assert(ar[0] == ca && br[0] == cb);
            }
            return (ca as u32) < (cb as u32);
        }
        i = i + 1;
    }
    proof {
        lemma_lex_skip(a@, b@, i as int);
        let ar = a@.subrange(i as int, an as int);
        let br = b@.subrange(i as int, bn as int);
        assert(ar.len() == an - i && br.len() == bn - i);
    }
    an < bn
}

/// Trimming trailing whitespace leaves a prefix: every kept character is
/// unchanged.
pub proof fn lemma_trim_end_prefix(s: Seq<char>)
    ensures
        trim_end_spec(s).len() <= s.len(),
        forall|i: int| 0 <= i < trim_end_spec(s).len() ==> trim_end_spec(s)[i] == s[i],
    decreases s.len(),
{
    if s.len() > 0 && is_wschar(s.last()) {
        lemma_trim_end_prefix(s.drop_last());
        assert forall|i: int|
            0 <= i < trim_end_spec(s).len() implies trim_end_spec(s)[i] == s[i] by {
            assert(trim_end_spec(s) == trim_end_spec(s.drop_last()));
            assert(trim_end_spec(s.drop_last())[i] == s.drop_last()[i]);
            assert(s.drop_last()[i] == s[i]);
        }
    }
}

/// Trimming trailing whitespace from a non-blank sequence leaves a non-empty
/// sequence that ends in a non-whitespace character and is still non-blank.
pub proof fn lemma_trim_end_nonblank(s: Seq<char>)
    requires
        !is_blank(s),
    ensures
        trim_end_spec(s).len() > 0,
        !is_wschar(trim_end_spec(s).last()),
        !is_blank(trim_end_spec(s)),
    decreases s.len(),
{
    if s.len() == 0 {
        assert(is_blank(s));
    } else if is_wschar(s.last()) {
        assert(!is_blank(s.drop_last())) by {
            let i = choose|i: int| 0 <= i < s.len() && !is_wschar(s[i]);
            assert(s.drop_last()[i] == s[i]);
        }
        lemma_trim_end_nonblank(s.drop_last());
    } else {
        let t = trim_end_spec(s);
        assert(t == s);
        assert(!is_wschar(t.last()));
    }
}

} // verus!
