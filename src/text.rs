use vstd::prelude::*;

verus! {

pub open spec fn is_digit(c: char) -> bool {
    '0' <= c && c <= '9'
}

/// A non-empty run of ASCII digits.
pub open spec fn all_digits(s: Seq<char>) -> bool {
    s.len() > 0 && forall|i: int| 0 <= i < s.len() ==> is_digit(#[trigger] s[i])
}

pub open spec fn digit_value(c: char) -> nat {
    (c as int - '0' as int) as nat
}

/// The number that a run of decimal digits writes, most significant first.
pub open spec fn digits_value(s: Seq<char>) -> nat
    decreases s.len(),
{
    if s.len() == 0 {
        0
    } else {
        digits_value(s.drop_last()) * 10 + digit_value(s.last())
    }
}

/// Length of the leading sign: `+` always counts, `-` only where the reading is signed.
pub open spec fn sign_len(s: Seq<char>, signed: bool) -> int {
    if s.len() > 0 && (s[0] == '+' || (signed && s[0] == '-')) {
        1
    } else {
        0
    }
}

/// The integer that `s` writes in decimal: an optional sign followed by one or
/// more ASCII digits, with nothing before or after.
pub open spec fn decimal_of(s: Seq<char>, signed: bool) -> Option<int> {
    let body = s.skip(sign_len(s, signed));
    if all_digits(body) {
        if sign_len(s, signed) == 1 && s[0] == '-' {
            Some(-(digits_value(body) as int))
        } else {
            Some(digits_value(body) as int)
        }
    } else {
        None
    }
}

/// The decimal reading of `s`, kept only where it lies within `lo ..= hi`.
pub open spec fn decimal_in(s: Seq<char>, signed: bool, lo: int, hi: int) -> Option<int> {
    match decimal_of(s, signed) {
        Some(v) => if lo <= v && v <= hi {
            Some(v)
        } else {
            None
        },
        None => None,
    }
}

proof fn lemma_digits_step(s: Seq<char>, k: int)
    requires
        0 <= k < s.len(),
    ensures
        digits_value(s.take(k + 1)) == digits_value(s.take(k)) * 10 + digit_value(s[k]),
{
    assert(s.take(k + 1).drop_last() =~= s.take(k));
}

/// Reads `s` as a decimal integer of the range `lo ..= hi`; a `-` sign is
/// accepted only where `signed` holds.
pub fn read_decimal(s: &str, signed: bool, lo: i128, hi: i128) -> (r: Option<i128>)
    requires
        -0x8000_0000_0000_0000 <= lo <= 0,
        0 <= hi <= 0xffff_ffff_ffff_ffff,
    ensures
        r matches Some(v) ==> decimal_in(s@, signed, lo as int, hi as int) == Some(v as int),
        r is None ==> decimal_in(s@, signed, lo as int, hi as int) is None,
{
    let n = s.unicode_len();
    let mut start: usize = 0;
    let mut negative = false;
    if n > 0 {
        let c0 = s.get_char(0);
        if c0 == '+' {
            start = 1;
        } else if signed && c0 == '-' {
            start = 1;
            negative = true;
        }
    }
    proof {
        assert(start as int == sign_len(s@, signed));
    }
    let ghost body = s@.skip(start as int);
    if start >= n {
        assert(body.len() == 0);
        return None;
    }
    let bound: i128 = if negative {
        -lo
    } else {
        hi
    };
    let mut acc: i128 = 0;
    let mut over = false;
    let mut i: usize = start;
    while i < n
        invariant
            start <= i <= n,
            n == s@.len(),
            body == s@.skip(start as int),
            start as int == sign_len(s@, signed),
            negative == (start == 1 && s@[0] == '-'),
            bound as int == (if negative { -(lo as int) } else { hi as int }),
            0 <= bound <= 0xffff_ffff_ffff_ffff,
            forall|j: int| 0 <= j < i - start ==> is_digit(#[trigger] body[j]),
            !over ==> acc as int == digits_value(body.take(i - start)) && acc <= bound,
            over ==> digits_value(body.take(i - start)) > bound,
        decreases n - i,
    {
        let c = s.get_char(i);
        let k: usize = i - start;
        assert(body[k as int] == c);
        if !('0' <= c && c <= '9') {
            assert(!is_digit(body[k as int]));
            assert(!all_digits(body));
            assert(decimal_of(s@, signed) is None);
            return None;
        }
        proof {
            lemma_digits_step(body, k as int);
        }
        if !over {
            let d: i128 = (c as u32 - '0' as u32) as i128;
            assert(d as int == digit_value(c));
            let next: i128 = acc * 10 + d;
            if next > bound {
                over = true;
            } else {
                acc = next;
            }
        } else {
            assert(digits_value(body.take(k + 1)) >= digits_value(body.take(k as int)));
        }
        i = i + 1;
    }
    assert(body.take(n - start) =~= body);
    assert(all_digits(body));
    if over {
        if negative {
            assert(decimal_of(s@, signed) == Some(-(digits_value(body) as int)));
        }
        None
    } else if negative {
        assert(decimal_of(s@, signed) == Some(-(digits_value(body) as int)));
        Some(-acc)
    } else {
        Some(acc)
    }
}

/// `c` is the lower-case ASCII letter `lower` or its upper-case form.
pub open spec fn same_letter(c: char, lower: char) -> bool {
    c == lower || c as int + 32 == lower as int
}

/// `s` spells `word` (lower-case ASCII letters) with ASCII case ignored.
pub open spec fn spells(s: Seq<char>, word: Seq<char>) -> bool {
    s.len() == word.len() && forall|i: int| 0 <= i < s.len() ==> same_letter(#[trigger] s[i], word[i])
}

/// The truth value that `s` writes: `true` or `false`, in any ASCII case.
pub open spec fn bool_of(s: Seq<char>) -> Option<bool> {
    if spells(s, seq!['t', 'r', 'u', 'e']) {
        Some(true)
    } else if spells(s, seq!['f', 'a', 'l', 's', 'e']) {
        Some(false)
    } else {
        None
    }
}

fn is_letter(c: char, lower: char) -> (r: bool)
    requires
        'a' <= lower <= 'z',
    ensures
        r == same_letter(c, lower),
{
    c == lower || (c as u32) + 32 == lower as u32
}

fn spells_at(s: &str, n: usize, word: &[char]) -> (r: bool)
    requires
        n == s@.len(),
        forall|i: int| 0 <= i < word@.len() ==> 'a' <= #[trigger] word@[i] <= 'z',
    ensures
        r == spells(s@, word@),
{
    if n != word.len() {
        return false;
    }
    let mut i: usize = 0;
    while i < n
        invariant
            n == s@.len() == word@.len(),
            forall|i: int| 0 <= i < word@.len() ==> 'a' <= #[trigger] word@[i] <= 'z',
            i <= n,
            forall|j: int| 0 <= j < i ==> same_letter(#[trigger] s@[j], word@[j]),
        decreases n - i,
    {
        if !is_letter(s.get_char(i), word[i]) {
            return false;
        }
        i = i + 1;
    }
    true
}

/// Whether `s` is exactly the word `w`.
pub fn is_exactly(s: &str, w: &[char]) -> (r: bool)
    ensures
        r == (s@ == w@),
{
    let n = s.unicode_len();
    if n != w.len() {
        return false;
    }
    let mut i: usize = 0;
    while i < n
        invariant
            n == s@.len() == w@.len(),
            i <= n,
            forall|j: int| 0 <= j < i ==> s@[j] == w@[j],
        decreases n - i,
    {
        if s.get_char(i) != w[i] {
            return false;
        }
        i = i + 1;
    }
    assert(s@ =~= w@);
    true
}

/// Reads `s` as a truth value, `true` or `false` in any ASCII case.
pub fn read_bool(s: &str) -> (r: Option<bool>)
    ensures
        r == bool_of(s@),
{
    let n = s.unicode_len();
    let t = ['t', 'r', 'u', 'e'];
    let f = ['f', 'a', 'l', 's', 'e'];
    assert(t@ =~= seq!['t', 'r', 'u', 'e']);
    assert(f@ =~= seq!['f', 'a', 'l', 's', 'e']);
    if spells_at(s, n, &t) {
        Some(true)
    } else if spells_at(s, n, &f) {
        Some(false)
    } else {
        None
    }
}

} // verus!
