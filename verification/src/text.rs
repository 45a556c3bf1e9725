//! Plain-text helpers: substring search for the name filter, and the
//! fixed-width pieces of the tabular task display.

use vstd::prelude::*;

verus! {

use vstd::string::StrSliceExecFns;
use vstd::string::StringExecFns;

/// `needle` occurs in `hay` starting at position `k`.
pub open spec fn match_at(hay: Seq<char>, needle: Seq<char>, k: int) -> bool {
    forall|j: int| 0 <= j < needle.len() ==> hay[k + j] == needle[j]
}

/// `needle` occurs somewhere in `hay`; the empty needle occurs everywhere.
pub open spec fn is_substring(hay: Seq<char>, needle: Seq<char>) -> bool {
    exists|k: int| 0 <= k && k + needle.len() <= hay.len() && match_at(hay, needle, k)
}

/// `needle` occurs in `hay` at position `k`.
fn match_at_exec(hay: &str, needle: &str, k: usize) -> (r: bool)
    requires
        k + needle@.len() <= hay@.len(),
    ensures
        r == match_at(hay@, needle@, k as int),
{
    let hl = hay.unicode_len();
    let nl = needle.unicode_len();
    let mut j: usize = 0;
    while j < nl
        invariant
            j <= nl,
            hl == hay@.len(),
            nl == needle@.len(),
            k + nl <= hl,
            forall|j2: int| 0 <= j2 < j ==> hay@[k + j2] == needle@[j2],
        decreases nl - j,
    {
        if hay.get_char(k + j) != needle.get_char(j) {
            return false;
        }
        j += 1;
    }
    true
}

/// Whether `needle` occurs in `hay` as a contiguous run of characters.
pub fn contains_str(hay: &str, needle: &str) -> (r: bool)
    ensures
        r == is_substring(hay@, needle@),
{
    let hl = hay.unicode_len();
    let nl = needle.unicode_len();
    if nl == 0 {
        proof {
            assert(match_at(hay@, needle@, 0));
        }
        return true;
    }
    if nl > hl {
        return false;
    }
    let mut k: usize = 0;
    while k <= hl - nl
        invariant
            1 <= nl <= hl,
            hl == hay@.len(),
            nl == needle@.len(),
            k <= hl - nl + 1,
            forall|k2: int| 0 <= k2 < k ==> !match_at(hay@, needle@, k2),
        decreases hl - nl + 1 - k,
    {
        if match_at_exec(hay, needle, k) {
            return true;
        }
        k += 1;
    }
    false
}


/// `n` copies of one character.
pub open spec fn repeat_char(c: char, n: nat) -> Seq<char> {
    Seq::new(n, |i| c)
}

/// A run of `n` copies of the single character in `piece`.
pub fn repeat_str(piece: &str, n: usize) -> (r: String)
    requires
        piece@.len() == 1,
    ensures
        r@ == repeat_char(piece@[0], n as nat),
{
    let mut r = String::new();
    let mut i: usize = 0;
    proof {
        assert(r@ =~= repeat_char(piece@[0], 0));
    }
    while i < n
        invariant
            i <= n,
            piece@.len() == 1,
            r@ == repeat_char(piece@[0], i as nat),
        decreases n - i,
    {
        r.append(piece);
        i += 1;
        proof {
            assert(r@ =~= repeat_char(piece@[0], i as nat));
        }
    }
    r
}

/// `s` cut down or padded with spaces to exactly `w` characters.
pub open spec fn pad_trunc_spec(s: Seq<char>, w: nat) -> Seq<char> {
    if s.len() >= w {
        s.take(w as int)
    } else {
        s + repeat_char(' ', (w - s.len()) as nat)
    }
}

/// Cuts or pads `s` to the fixed display width `w`.
pub fn pad_trunc(s: &str, w: usize) -> (r: String)
    ensures
        r@ == pad_trunc_spec(s@, w as nat),
{
    let l = s.unicode_len();
    if l >= w {
        let t = s.substring_char(0, w);
        t.to_owned()
    } else {
        let mut r = s.to_owned();
        let mut c = l;
        proof {
            reveal_strlit(" ");
            assert(r@ =~= s@ + repeat_char(' ', 0));
        }
        while c < w
            invariant
                l <= c <= w,
                l == s@.len(),
                r@ == s@ + repeat_char(' ', (c - l) as nat),
        decreases w - c,
        {
            r.append(" ");
            c += 1;
            proof {
                reveal_strlit(" ");
                assert(r@ =~= s@ + repeat_char(' ', (c - l) as nat));
            }
        }
        r
    }
}

/// How many characters come before the first line break (all of them if
/// there is none).
pub open spec fn first_line_len(s: Seq<char>) -> int
    decreases s.len(),
{
    if s.len() == 0 {
        0
    } else if s[0] == '\n' {
        0
    } else {
        1 + first_line_len(s.subrange(1, s.len() as int))
    }
}

/// The first line of `s`: everything before the first line break.
pub open spec fn first_line_spec(s: Seq<char>) -> Seq<char> {
    s.take(first_line_len(s))
}

/// If no break stands before position `i`, and `i` is a break or the end,
/// then `i` is the first line's length.
proof fn lemma_first_line_len_at(s: Seq<char>, i: int)
    requires
        0 <= i <= s.len(),
        forall|j: int| 0 <= j < i ==> s[j] != '\n',
        i < s.len() ==> s[i] == '\n',
    ensures
        first_line_len(s) == i,
    decreases s.len(),
{
    if s.len() == 0 {
    } else if s[0] == '\n' {
    } else {
        let tail = s.subrange(1, s.len() as int);
        assert forall|j: int| 0 <= j < i - 1 implies tail[j] != '\n' by {
            assert(tail[j] == s[j + 1]);
        }
        assert(i - 1 < tail.len() ==> tail[i - 1] == s[i]);
        lemma_first_line_len_at(tail, i - 1);
    }
}

/// The first line of `s`, for the one-line task display.
pub fn first_line(s: &str) -> (r: String)
    ensures
        r@ == first_line_spec(s@),
{
    let l = s.unicode_len();
    let mut i: usize = 0;
    while i < l
        invariant
            i <= l,
            l == s@.len(),
            forall|j: int| 0 <= j < i ==> s@[j] != '\n',
        decreases l - i,
    {
        if s.get_char(i) == '\n' {
            proof {
                lemma_first_line_len_at(s@, i as int);
            }
            let t = s.substring_char(0, i);
            return t.to_owned();
        }
        i += 1;
    }
    proof {
        lemma_first_line_len_at(s@, l as int);
        assert(s@.take(l as int) =~= s@);
    }
    s.to_owned()
}

/// The decimal digit character for `d`.
pub open spec fn digit_char(d: int) -> char {
    if d == 0 {
        '0'
    } else if d == 1 {
        '1'
    } else if d == 2 {
        '2'
    } else if d == 3 {
        '3'
    } else if d == 4 {
        '4'
    } else if d == 5 {
        '5'
    } else if d == 6 {
        '6'
    } else if d == 7 {
        '7'
    } else if d == 8 {
        '8'
    } else {
        '9'
    }
}

/// The decimal writing of `n`, most significant digit first.
pub open spec fn u64_str(n: int) -> Seq<char>
    recommends
        n >= 0,
    decreases n,
{
    if n < 10 {
        seq![digit_char(n)]
    } else {
        u64_str(n / 10).push(digit_char(n % 10))
    }
}

/// The one-character string for a decimal digit.
fn digit_str(d: u64) -> (r: &'static str)
    requires
        d < 10,
    ensures
        r@ == seq![digit_char(d as int)],
{
    let r: &'static str = if d == 0 {
        "0"
    } else if d == 1 {
        "1"
    } else if d == 2 {
        "2"
    } else if d == 3 {
        "3"
    } else if d == 4 {
        "4"
    } else if d == 5 {
        "5"
    } else if d == 6 {
        "6"
    } else if d == 7 {
        "7"
    } else if d == 8 {
        "8"
    } else {
        "9"
    };
    proof {
        reveal_strlit("0");
        reveal_strlit("1");
        reveal_strlit("2");
        reveal_strlit("3");
        reveal_strlit("4");
        reveal_strlit("5");
        reveal_strlit("6");
        reveal_strlit("7");
        reveal_strlit("8");
        reveal_strlit("9");
        assert(r@ =~= seq![digit_char(d as int)]);
    }
    r
}

/// The digit characters of `ds`, last digit first.
spec fn rev_digit_chars(ds: Seq<u64>) -> Seq<char>
    decreases ds.len(),
{
    if ds.len() == 0 {
        Seq::empty()
    } else {
        seq![digit_char(ds.last() as int)] + rev_digit_chars(ds.drop_last())
    }
}

/// Peeling the first digit off the front appends its character at the
/// back of the reversed writing.
proof fn lemma_rev_digit_chars_cons(ds: Seq<u64>)
    requires
        ds.len() > 0,
    ensures
        rev_digit_chars(ds) == rev_digit_chars(ds.subrange(1, ds.len() as int)) + seq![
            digit_char(ds[0] as int),
        ],
    decreases ds.len(),
{
    if ds.len() == 1 {
        assert(ds.drop_last() =~= Seq::<u64>::empty());
        assert(ds.subrange(1, 1) =~= Seq::<u64>::empty());
        assert(rev_digit_chars(ds) =~= rev_digit_chars(ds.subrange(1, 1)) + seq![
            digit_char(ds[0] as int),
        ]);
    } else {
        let head = ds.drop_last();
        let tail = ds.subrange(1, ds.len() as int);
        lemma_rev_digit_chars_cons(head);
        assert(head.subrange(1, head.len() as int) =~= tail.drop_last());
        assert(head[0] == ds[0]);
        assert(tail.last() == ds.last());
        assert(rev_digit_chars(ds) =~= rev_digit_chars(tail) + seq![digit_char(ds[0] as int)]);
    }
}

/// Writes `n` in decimal, most significant digit first and no leading
/// zero (except for zero itself).
pub fn u64_to_string(n: u64) -> (r: String)
    ensures
        r@ == u64_str(n as int),
{
    if n == 0 {
        proof {
            reveal_strlit("0");
            assert(u64_str(0) =~= "0"@);
        }
        return String::from_str("0");
    }
    let mut digits: Vec<u64> = Vec::new();
    let mut m = n;
    proof {
        assert(u64_str(n as int) =~= u64_str(n as int) + rev_digit_chars(digits@));
    }
    while m > 0
        invariant
            m > 0 ==> u64_str(n as int) == u64_str(m as int) + rev_digit_chars(digits@),
            m == 0 ==> u64_str(n as int) == rev_digit_chars(digits@) && digits@.len() > 0,
            forall|j: int| 0 <= j < digits@.len() ==> #[trigger] digits@[j] < 10,
        decreases m,
    {
        let ghost pre = digits@;
        let ghost m0 = m as int;
        let d = m % 10;
        digits.push(d);
        m = m / 10;
        proof {
            assert(digits@.last() == d);
            assert(digits@.drop_last() =~= pre);
            assert(rev_digit_chars(digits@) =~= seq![digit_char(d as int)] + rev_digit_chars(pre));
            if m0 < 10 {
                assert(u64_str(m0) =~= seq![digit_char(d as int)]);
                assert(u64_str(n as int) =~= rev_digit_chars(digits@));
            } else {
                assert(u64_str(m0) == u64_str(m0 / 10).push(digit_char(m0 % 10)));
                assert(u64_str(m0 / 10).push(digit_char(d as int)) + rev_digit_chars(pre)
                    =~= u64_str(m0 / 10) + (seq![digit_char(d as int)] + rev_digit_chars(pre)));
                assert(u64_str(n as int) =~= u64_str(m as int) + rev_digit_chars(digits@));
            }
        }
    }
    let mut r = String::new();
    let mut idx = digits.len();
    proof {
        assert(digits@.skip(idx as int) =~= Seq::<u64>::empty());
        assert(r@ =~= rev_digit_chars(digits@.skip(idx as int)));
    }
    while idx > 0
        invariant
            idx <= digits@.len(),
            forall|j: int| 0 <= j < digits@.len() ==> #[trigger] digits@[j] < 10,
            u64_str(n as int) == rev_digit_chars(digits@),
            r@ == rev_digit_chars(digits@.skip(idx as int)),
        decreases idx,
    {
        idx -= 1;
        r.append(digit_str(digits[idx]));
        proof {
            let rest = digits@.skip(idx as int);
            lemma_rev_digit_chars_cons(rest);
            assert(rest.subrange(1, rest.len() as int) =~= digits@.skip(idx as int + 1));
            assert(rest[0] == digits@[idx as int]);
            assert(r@ =~= rev_digit_chars(digits@.skip(idx as int)));
        }
    }
    proof {
        assert(digits@.skip(0) =~= digits@);
    }
    r
}
} // verus!
