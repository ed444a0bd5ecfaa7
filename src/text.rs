//! Small verified text routines: comparing, cutting at a separator, and
//! reading and writing decimal numbers.
use vstd::prelude::*;
use vstd::string::*;

verus! {

/// The characters of an optional string.
pub open spec fn opt_text(s: Option<String>) -> Option<Seq<char>> {
    match s {
        Some(t) => Some(t@),
        None => None,
    }
}

pub open spec fn is_digit(c: char) -> bool {
    '0' <= c && c <= '9'
}

pub open spec fn digit_value(c: char) -> nat {
    (c as int - '0' as int) as nat
}

pub open spec fn digit_char(d: nat) -> char {
    if d == 0 {
        '0'
    } else if d == 1 {
        '1'
    } else if d == 2 {
        '2'
    } else if d == 3 {
        '3'
    } else if d == 4 {
        '4'
    } else if d == 5 {
        '5'
    } else if d == 6 {
        '6'
    } else if d == 7 {
        '7'
    } else if d == 8 {
        '8'
    } else {
        '9'
    }
}

pub open spec fn all_digits(s: Seq<char>) -> bool {
    forall|i: int| 0 <= i < s.len() ==> is_digit(#[trigger] s[i])
}

/// The number that a string of decimal digits denotes.
pub open spec fn digits_value(s: Seq<char>) -> nat
    decreases s.len(),
{
    if s.len() == 0 {
        0
    } else {
        digits_value(s.drop_last()) * 10 + digit_value(s.last())
    }
}

/// `s` without the one `+` that may lead it.
pub open spec fn unsigned_digits(s: Seq<char>) -> Seq<char> {
    if s.len() > 0 && s[0] == '+' {
        s.drop_first()
    } else {
        s
    }
}

/// What reading `s` as an unsigned decimal number gives: an optional `+`
/// followed by one or more digits.
pub open spec fn parse_decimal(s: Seq<char>) -> Option<nat> {
    let d = unsigned_digits(s);
    if d.len() > 0 && all_digits(d) {
        Some(digits_value(d))
    } else {
        None
    }
}

/// `parse_decimal`, restricted to the values that fit in a `usize`.
pub open spec fn parse_usize_spec(s: Seq<char>) -> Option<usize> {
    match parse_decimal(s) {
        Some(v) => if v <= usize::MAX {
            Some(v as usize)
        } else {
            None
        },
        None => None,
    }
}

/// The shortest decimal spelling of `n`.
pub open spec fn decimal(n: nat) -> Seq<char>
    decreases n,
{
    if n < 10 {
        seq![digit_char(n)]
    } else {
        decimal(n / 10).push(digit_char(n % 10))
    }
}

/// The part of `s` before its first `/`; all of `s` when it has none.
pub open spec fn before_slash(s: Seq<char>) -> Seq<char>
    decreases s.len(),
{
    if s.len() == 0 {
        s
    } else if s[0] == '/' {
        Seq::empty()
    } else {
        seq![s[0]] + before_slash(s.drop_first())
    }
}

proof fn lemma_digits_value_prefix(s: Seq<char>, i: int)
    requires
        0 <= i <= s.len(),
    ensures
        digits_value(s.take(i)) <= digits_value(s),
    decreases s.len() - i,
{
    if i < s.len() {
        lemma_digits_value_prefix(s, i + 1);
        assert(s.take(i + 1).drop_last() =~= s.take(i));
    } else {
        assert(s.take(i) =~= s);
    }
}

/// Whether two strings hold the same characters.
pub fn text_eq(a: &str, b: &str) -> (r: bool)
    ensures
        r == (a@ == b@),
{
    let n = a.unicode_len();
    if n != b.unicode_len() {
        return false;
    }
    let mut i: usize = 0;
    while i < n
        invariant
            n == a@.len(),
            n == b@.len(),
            i <= n,
            a@.take(i as int) == b@.take(i as int),
        decreases n - i,
    {
        if a.get_char(i) != b.get_char(i) {
            assert(a@[i as int] != b@[i as int]);
            return false;
        }
        assert(a@.take(i + 1) =~= a@.take(i as int).push(a@[i as int]));
        assert(b@.take(i + 1) =~= b@.take(i as int).push(b@[i as int]));
        i = i + 1;
    }
    assert(a@.take(n as int) =~= a@);
    assert(b@.take(n as int) =~= b@);
    true
}

/// Reads `s` as an unsigned decimal number that fits in a `usize`, as
/// `str::parse::<usize>` does.
pub fn parse_usize(s: &str) -> (r: Option<usize>)
    ensures
        r == parse_usize_spec(s@),
{
    let n = s.unicode_len();
    let start: usize = if n > 0 && s.get_char(0) == '+' {
        1
    } else {
        0
    };
    let ghost d = unsigned_digits(s@);
    assert(d =~= s@.subrange(start as int, n as int));
    if start == n {
        return None;
    }
    let mut acc: usize = 0;
    let mut i: usize = start;
    while i < n
        invariant
            start <= i <= n,
            n == s@.len(),
            start < n,
            d =~= s@.subrange(start as int, n as int),
            d == unsigned_digits(s@),
            forall|k: int| 0 <= k < i - start ==> is_digit(#[trigger] d[k]),
            acc == digits_value(d.take(i - start)),
        decreases n - i,
    {
        let c = s.get_char(i);
        if !('0' <= c && c <= '9') {
            assert(!is_digit(d[i - start]));
            assert(!all_digits(d));
            return None;
        }
        let ghost k = i - start;
        assert(d.take(k + 1).drop_last() =~= d.take(k));
        assert(d.take(k + 1).last() == c);
        let v = (c as u32 - '0' as u32) as usize;
        assert(digits_value(d.take(k + 1)) == acc * 10 + v);
        match acc.checked_mul(10) {
            Some(m) => match m.checked_add(v) {
                Some(next) => {
                    acc = next;
                },
                None => {
                    proof {
                        lemma_digits_value_prefix(d, k + 1);
                    }
                    return None;
                },
            },
            None => {
                proof {
                    lemma_digits_value_prefix(d, k + 1);
                }
                return None;
            },
        }
        i = i + 1;
    }
    assert(d.take(n - start) =~= d);
    Some(acc)
}

fn digit_text(d: usize) -> (r: &'static str)
    requires
        d < 10,
    ensures
        r@ == seq![digit_char(d as nat)],
{
    proof {
        reveal_strlit("0");
        reveal_strlit("1");
        reveal_strlit("2");
        reveal_strlit("3");
        reveal_strlit("4");
        reveal_strlit("5");
        reveal_strlit("6");
        reveal_strlit("7");
        reveal_strlit("8");
        reveal_strlit("9");
    }
    let r = if d == 0 {
        "0"
    } else if d == 1 {
        "1"
    } else if d == 2 {
        "2"
    } else if d == 3 {
        "3"
    } else if d == 4 {
        "4"
    } else if d == 5 {
        "5"
    } else if d == 6 {
        "6"
    } else if d == 7 {
        "7"
    } else if d == 8 {
        "8"
    } else {
        "9"
    };
    assert(r@ =~= seq![digit_char(d as nat)]);
    r
}

/// The decimal spelling of `n`, as `usize::to_string` writes it.
pub fn usize_to_text(n: usize) -> (r: String)
    ensures
        r@ == decimal(n as nat),
    decreases n,
{
    if n < 10 {
        String::from_str(digit_text(n))
    } else {
        let mut s = usize_to_text(n / 10);
        s.append(digit_text(n % 10));
        s
    }
}

/// The part of `s` before its first `/`, as the left side of
/// `str::split_once("/")`, or all of `s` where it holds no `/`.
pub fn text_before_slash(s: &str) -> (r: String)
    ensures
        r@ == before_slash(s@),
{
    let n = s.unicode_len();
    let mut i: usize = 0;
    while i < n && s.get_char(i) != '/'
        invariant
            n == s@.len(),
            i <= n,
            forall|k: int| 0 <= k < i ==> #[trigger] s@[k] != '/',
        decreases n - i,
    {
        i = i + 1;
    }
    proof {
        lemma_before_slash(s@, i as int);
    }
    String::from_str(s.substring_char(0, i))
}

proof fn lemma_before_slash(s: Seq<char>, i: int)
    requires
        0 <= i <= s.len(),
        forall|k: int| 0 <= k < i ==> #[trigger] s[k] != '/',
        i < s.len() ==> s[i] == '/',
    ensures
        before_slash(s) == s.subrange(0, i),
    decreases i,
{
    if s.len() == 0 {
        assert(s.subrange(0, i) =~= s);
    } else if i == 0 {
        assert(s.subrange(0, i) =~= Seq::<char>::empty());
    } else {
        let t = s.drop_first();
        assert forall|k: int| 0 <= k < i - 1 implies #[trigger] t[k] != '/' by {
            assert(t[k] == s[k + 1]);
        }
        lemma_before_slash(t, i - 1);
        assert(s.subrange(0, i) =~= seq![s[0]] + t.subrange(0, i - 1));
    }
}

} // verus!
