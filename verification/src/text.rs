//! Characters of a text: finding separators and reading unsigned numbers.

use vstd::prelude::*;

verus! {

/// Index of the first `c` in `s`, or the length of `s` where it holds none.
pub open spec fn first_index(s: Seq<char>, c: char) -> int
    decreases s.len(),
{
    if s.len() == 0 || s[0] == c {
        0
    } else {
        1 + first_index(s.skip(1), c)
    }
}

/// Index of the last `c` in `s`, or -1 where it holds none.
pub open spec fn last_index(s: Seq<char>, c: char) -> int
    decreases s.len(),
{
    if s.len() == 0 {
        -1
    } else if s.last() == c {
        s.len() - 1
    } else {
        last_index(s.drop_last(), c)
    }
}

/// [`first_index`] is the one position at or before the end of `s` that
/// holds `c`, unless it is the end, with no `c` before it.
pub proof fn lemma_first_index(s: Seq<char>, c: char, k: int)
    ensures
        first_index(s, c) == k <==> {
            &&& 0 <= k <= s.len()
            &&& forall|i: int| 0 <= i < k ==> s[i] != c
            &&& k < s.len() ==> s[k] == c
        },
    decreases s.len(),
{
    if s.len() == 0 || s[0] == c {
        if k > 0 && s.len() > 0 {
            assert(s[0] == c);
        }
    } else {
        let rest = s.skip(1);
        lemma_first_index(rest, c, k - 1);
        if first_index(rest, c) == k - 1 {
            assert forall|i: int| 0 <= i < k implies s[i] != c by {
                if i > 0 {
                    assert(s[i] == rest[i - 1]);
                }
            }
            if k < s.len() {
                assert(s[k] == rest[k - 1]);
            }
        }
        if (0 <= k <= s.len() && (forall|i: int| 0 <= i < k ==> s[i] != c) && (k < s.len()
            ==> s[k] == c)) {
            assert(k > 0);
            assert forall|i: int| 0 <= i < k - 1 implies rest[i] != c by {
                assert(rest[i] == s[i + 1]);
            }
            if k - 1 < rest.len() {
                assert(rest[k - 1] == s[k]);
            }
        }
    }
}

/// [`last_index`] is the one position in `s` that holds `c`, unless it is
/// -1, with no `c` behind it.
pub proof fn lemma_last_index(s: Seq<char>, c: char, k: int)
    ensures
        last_index(s, c) == k <==> {
            &&& -1 <= k < s.len()
            &&& forall|i: int| k < i < s.len() ==> s[i] != c
            &&& 0 <= k ==> s[k] == c
        },
    decreases s.len(),
{
    if s.len() == 0 {
    } else if s.last() == c {
        if k < s.len() - 1 {
            assert(s[s.len() - 1] == c);
        }
    } else {
        let rest = s.drop_last();
        lemma_last_index(rest, c, k);
        if last_index(rest, c) == k {
            assert forall|i: int| k < i < s.len() implies s[i] != c by {
                if i < s.len() - 1 {
                    assert(s[i] == rest[i]);
                }
            }
            if 0 <= k {
                assert(s[k] == rest[k]);
            }
        }
        if (-1 <= k < s.len() && (forall|i: int| k < i < s.len() ==> s[i] != c) && (0 <= k
            ==> s[k] == c)) {
            assert(k < s.len() - 1);
            assert forall|i: int| k < i < rest.len() implies rest[i] != c by {
                assert(rest[i] == s[i]);
            }
            if 0 <= k {
                assert(rest[k] == s[k]);
            }
        }
    }
}

/// The value of `c` as a digit in the given radix, in the way of
/// `char::to_digit`: `0` to `9`, then the letters in either case from ten on.
pub open spec fn digit_value(c: char, radix: nat) -> Option<nat> {
    let value: int = if '0' <= c <= '9' {
        c as int - '0' as int
    } else if 'a' <= c <= 'z' {
        c as int - 'a' as int + 10
    } else if 'A' <= c <= 'Z' {
        c as int - 'A' as int + 10
    } else {
        radix as int
    };
    if value < radix {
        Some(value as nat)
    } else {
        None
    }
}

/// Every character of `s` is a digit in the given radix.
pub open spec fn all_digits(s: Seq<char>, radix: nat) -> bool {
    forall|i: int| 0 <= i < s.len() ==> (#[trigger] digit_value(s[i], radix)) is Some
}

/// The number that the digits of `s` spell, most significant first.
pub open spec fn number_value(s: Seq<char>, radix: nat) -> nat
    decreases s.len(),
{
    if s.len() == 0 {
        0
    } else {
        number_value(s.drop_last(), radix) * radix + digit_value(s.last(), radix).unwrap()
    }
}

/// The digits of a number text: the text without one leading `+`.
pub open spec fn unsigned_digits(s: Seq<char>) -> Seq<char> {
    if s.len() > 0 && s[0] == '+' {
        s.skip(1)
    } else {
        s
    }
}

/// Reads `s` as an unsigned 32-bit number, as `u32::from_str_radix` does:
/// an optional `+`, then at least one digit and nothing else, and a value
/// that fits.
pub open spec fn unsigned(s: Seq<char>, radix: nat) -> Option<u32> {
    let digits = unsigned_digits(s);
    if digits.len() > 0 && all_digits(digits, radix) && number_value(digits, radix) <= u32::MAX {
        Some(number_value(digits, radix) as u32)
    } else {
        None
    }
}

/// A number never shrinks when digits are appended to it.
pub proof fn lemma_number_value_grows(s: Seq<char>, radix: nat, k: int)
    requires
        0 <= k <= s.len(),
        radix >= 1,
        all_digits(s, radix),
    ensures
        number_value(s.take(k), radix) <= number_value(s, radix),
    decreases s.len() - k,
{
    if k == s.len() {
        assert(s.take(k) =~= s);
    } else {
        lemma_number_value_grows(s, radix, k + 1);
        let longer = s.take(k + 1);
        assert(longer.drop_last() =~= s.take(k));
        let shorter = number_value(s.take(k), radix);
        assert(shorter * radix >= shorter) by (nonlinear_arith)
            requires
                radix >= 1,
                shorter >= 0,
        ;
        assert(digit_value(longer.last(), radix) is Some) by {
            assert(longer.last() == s[k]);
        }
    }
}

/// Collects the characters of a string.
pub fn chars_of(s: &str) -> (chars: Vec<char>)
    ensures
        chars@ == s@,
{
    let len = s.unicode_len();
    let mut chars: Vec<char> = Vec::new();
    let mut i: usize = 0;
    while i < len
        invariant
            len == s@.len(),
            i <= len,
            chars@ == s@.take(i as int),
        decreases len - i,
    {
        chars.push(s.get_char(i));
        assert(chars@ =~= s@.take(i + 1));
        i += 1;
    }
    assert(s@.take(len as int) =~= s@);
    chars
}

/// Finds the first `c` among the characters from `from` up to `to`.  Hands
/// back `to` where there is none.
pub fn find_first(text: &[char], from: usize, to: usize, c: char) -> (at: usize)
    requires
        from <= to <= text@.len(),
    ensures
        from <= at <= to,
        at == from + first_index(text@.subrange(from as int, to as int), c),
{
    let mut i: usize = from;
    while i < to && text[i] != c
        invariant
            from <= i <= to <= text@.len(),
            forall|j: int| from <= j < i ==> text@[j] != c,
        decreases to - i,
    {
        i += 1;
    }
    proof {
        lemma_first_index(text@.subrange(from as int, to as int), c, i - from);
    }
    i
}

/// Finds the last `c` among the characters from `from` up to `to`.
pub fn find_last(text: &[char], from: usize, to: usize, c: char) -> (at: Option<usize>)
    requires
        from <= to <= text@.len(),
    ensures
        match at {
            Some(at) => from <= at < to && at == from + last_index(
                text@.subrange(from as int, to as int),
                c,
            ),
            None => last_index(text@.subrange(from as int, to as int), c) == -1,
        },
{
    let mut i: usize = to;
    while i > from && text[i - 1] != c
        invariant
            from <= i <= to <= text@.len(),
            forall|j: int| i <= j < to ==> text@[j] != c,
        decreases i - from,
    {
        i -= 1;
    }
    proof {
        lemma_last_index(text@.subrange(from as int, to as int), c, i - from - 1);
    }
    if i > from {
        Some(i - 1)
    } else {
        None
    }
}

/// The value of a character as a digit in the given radix.
pub fn digit(c: char, radix: u32) -> (value: Option<u32>)
    requires
        radix <= 36,
    ensures
        match value {
            Some(value) => digit_value(c, radix as nat) == Some(value as nat),
            None => digit_value(c, radix as nat) is None,
        },
{
    let value: u32 = if '0' <= c && c <= '9' {
        c as u32 - '0' as u32
    } else if 'a' <= c && c <= 'z' {
        c as u32 - 'a' as u32 + 10
    } else if 'A' <= c && c <= 'Z' {
        c as u32 - 'A' as u32 + 10
    } else {
        radix
    };
    if value < radix {
        Some(value)
    } else {
        None
    }
}

/// Reads the characters from `from` up to `to` as an unsigned number in the
/// given radix: an optional `+`, then at least one digit and nothing else.
/// Hands back `None` for any other text and for a value above `u32::MAX`.
pub fn parse_unsigned(text: &[char], from: usize, to: usize, radix: u32) -> (value: Option<u32>)
    requires
        from <= to <= text@.len(),
        1 <= radix <= 36,
    ensures
        value == unsigned(text@.subrange(from as int, to as int), radix as nat),
{
    let ghost whole = text@.subrange(from as int, to as int);
    let start: usize = if from < to && text[from] == '+' {
        from + 1
    } else {
        from
    };
    let ghost digits = unsigned_digits(whole);
    assert(digits =~= text@.subrange(start as int, to as int));
    if start == to {
        return None;
    }
    let mut value: u32 = 0;
    let mut i: usize = start;
    while i < to
        invariant
            start <= i <= to <= text@.len(),
            from <= start,
            1 <= radix <= 36,
            digits == text@.subrange(start as int, to as int),
            digits == unsigned_digits(text@.subrange(from as int, to as int)),
            all_digits(digits.take(i - start), radix as nat),
            value == number_value(digits.take(i - start), radix as nat),
        decreases to - i,
    {
        let ghost shorter = digits.take(i - start);
        let ghost longer = digits.take(i - start + 1);
        proof {
            assert(longer.drop_last() =~= shorter);
            assert(longer.last() == text@[i as int]);
        }
        let d = match digit(text[i], radix) {
            Some(d) => d,
            None => {
                assert(digit_value(digits[i - start], radix as nat) is None);
                return None;
            },
        };
        proof {
            assert forall|j: int| 0 <= j < longer.len() implies (#[trigger] digit_value(
                longer[j],
                radix as nat,
            )) is Some by {
                if j < shorter.len() {
                    assert(longer[j] == shorter[j]);
                }
            }
        }
        let next = match value.checked_mul(radix) {
            Some(scaled) => scaled.checked_add(d),
            None => None,
        };
        value = match next {
            Some(next) => next,
            None => {
                proof {
                    assert(number_value(longer, radix as nat) > u32::MAX);
                    if all_digits(digits, radix as nat) {
                        lemma_number_value_grows(digits, radix as nat, i - start + 1);
                    }
                }
                return None;
            },
        };
        i += 1;
    }
    assert(digits.take(to - start) =~= digits);
    Some(value)
}

} // verus!
