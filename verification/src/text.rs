//! Text as sequences of characters: trimming, numbers, searching, joining, letters.

use vstd::prelude::*;

verus! {

/// `String::push`: the text grows by the character at its end.
pub assume_specification[ String::push ](s: &mut String, c: char)
    ensures
        final(s)@ == old(s)@.push(c),
;

/// `str::eq`: two slices are equal when they hold the same characters.
pub assume_specification[ <str as PartialEq>::eq ](s: &str, other: &str) -> (res: bool)
    ensures
        res == (s@ == other@),
;

/// Do two texts hold the same characters?
pub fn same(a: &str, b: &str) -> (r: bool)
    ensures
        r == (a@ == b@),
{
    *a == *b
}

/// The characters of a text.
pub fn chars_of(s: &str) -> (r: Vec<char>)
    ensures
        r@ == s@,
{
    let mut r: Vec<char> = Vec::new();
    for c in it: s.chars()
        invariant
            it.seq() == s@,
            r@ == it.seq().take(it.index()),
    {
        r.push(c);
        proof {
            assert(it.seq().take(it.index() + 1) =~= it.seq().take(it.index()).push(c));
        }
    }
    assert(s@.take(s@.len() as int) =~= s@);
    r
}

/// The text made of the characters from `lo` up to `hi`.
pub fn slice_text(v: &Vec<char>, lo: usize, hi: usize) -> (r: String)
    requires
        lo <= hi <= v@.len(),
    ensures
        r@ == v@.subrange(lo as int, hi as int),
{
    let mut r = String::new();
    let mut i: usize = lo;
    while i < hi
        invariant
            lo <= i <= hi <= v@.len(),
            r@ == v@.subrange(lo as int, i as int),
        decreases hi - i,
    {
        r.push(v[i]);
        i += 1;
        proof {
            assert(v@.subrange(lo as int, i as int) =~= v@.subrange(lo as int, i - 1).push(v@[i - 1]));
        }
    }
    r
}

/// An owned copy of a text.
pub fn owned(s: &str) -> (r: String)
    ensures
        r@ == s@,
{
    s.to_owned()
}

/// One text after another.
pub fn cat(a: &str, b: &str) -> (r: String)
    ensures
        r@ == a@ + b@,
{
    let mut r = owned(a);
    r.append(b);
    r
}

// ── Whitespace ─────────────────────────────────────────────────────────────

/// Characters with the Unicode property `White_Space`.
pub open spec fn white(c: char) -> bool {
    let n = c as int;
    ||| 0x9 <= n <= 0xd
    ||| n == 0x20
    ||| n == 0x85
    ||| n == 0xa0
    ||| n == 0x1680
    ||| 0x2000 <= n <= 0x200a
    ||| n == 0x2028
    ||| n == 0x2029
    ||| n == 0x202f
    ||| n == 0x205f
    ||| n == 0x3000
}

/// Is the character Unicode whitespace?
pub fn is_white(c: char) -> (r: bool)
    ensures
        r == white(c),
{
    let n: u32 = c as u32;
    (0x9 <= n && n <= 0xd) || n == 0x20 || n == 0x85 || n == 0xa0 || n == 0x1680 || (0x2000 <= n
        && n <= 0x200a) || n == 0x2028 || n == 0x2029 || n == 0x202f || n == 0x205f || n == 0x3000
}

/// The text without the whitespace it starts with.
pub open spec fn trimmed_start(s: Seq<char>) -> Seq<char>
    decreases s.len(),
{
    if s.len() > 0 && white(s[0]) {
        trimmed_start(s.subrange(1, s.len() as int))
    } else {
        s
    }
}

/// The text without the whitespace it ends with.
pub open spec fn trimmed_end(s: Seq<char>) -> Seq<char>
    decreases s.len(),
{
    if s.len() > 0 && white(s.last()) {
        trimmed_end(s.drop_last())
    } else {
        s
    }
}

/// The text without the whitespace around it.
pub open spec fn trimmed(s: Seq<char>) -> Seq<char> {
    trimmed_end(trimmed_start(s))
}

/// Drops the whitespace around a text.
pub fn trim(s: &str) -> (r: String)
    ensures
        r@ == trimmed(s@),
{
    let v = chars_of(s);
    let n: usize = v.len();
    let mut lo: usize = 0;
    assert(v@.subrange(0, n as int) =~= v@);
    while lo < n && is_white(v[lo])
        invariant
            n == v@.len(),
            lo <= n,
            trimmed_start(v@) == trimmed_start(v@.subrange(lo as int, n as int)),
        decreases n - lo,
    {
        proof {
            let here = v@.subrange(lo as int, n as int);
            assert(here.subrange(1, here.len() as int) =~= v@.subrange(lo + 1, n as int));
        }
        lo += 1;
    }
    let mut hi: usize = n;
    let ghost start = v@.subrange(lo as int, n as int);
    while lo < hi && is_white(v[hi - 1])
        invariant
            lo <= hi <= n == v@.len(),
            start == v@.subrange(lo as int, n as int),
            trimmed_end(start) == trimmed_end(v@.subrange(lo as int, hi as int)),
        decreases hi,
    {
        proof {
            let here = v@.subrange(lo as int, hi as int);
            assert(here.drop_last() =~= v@.subrange(lo as int, hi - 1));
        }
        hi -= 1;
    }
    slice_text(&v, lo, hi)
}

/// The text without any run of `c` at its end.
pub open spec fn without_trailing(s: Seq<char>, c: char) -> Seq<char>
    decreases s.len(),
{
    if s.len() > 0 && s.last() == c {
        without_trailing(s.drop_last(), c)
    } else {
        s
    }
}

/// Drops every `c` at the end of a text.
pub fn trim_end_matches(s: &str, c: char) -> (r: String)
    ensures
        r@ == without_trailing(s@, c),
{
    let v = chars_of(s);
    let mut hi: usize = v.len();
    assert(v@.subrange(0, hi as int) =~= v@);
    while 0 < hi && v[hi - 1] == c
        invariant
            hi <= v@.len(),
            without_trailing(v@, c) == without_trailing(v@.subrange(0, hi as int), c),
        decreases hi,
    {
        proof {
            assert(v@.subrange(0, hi as int).drop_last() =~= v@.subrange(0, hi - 1));
        }
        hi -= 1;
    }
    slice_text(&v, 0, hi)
}

// ── Numbers ────────────────────────────────────────────────────────────────

/// Is the character one of `0` to `9`?
pub open spec fn is_digit(c: char) -> bool {
    '0' <= c <= '9'
}

/// Does the text consist of decimal digits only?
pub open spec fn all_digits(s: Seq<char>) -> bool {
    forall|i: int| 0 <= i < s.len() ==> is_digit(#[trigger] s[i])
}

/// The number that a run of decimal digits stands for.
pub open spec fn digits_value(s: Seq<char>) -> nat
    decreases s.len(),
{
    if s.len() == 0 {
        0
    } else {
        digits_value(s.drop_last()) * 10 + (s.last() as int - '0' as int) as nat
    }
}

/// The number written as an optional sign and decimal digits, when it lies in `lo..=hi`.
pub open spec fn signed_number(s: Seq<char>, lo: int, hi: int) -> Option<int> {
    let negative = s.len() > 0 && s[0] == '-';
    let body = if s.len() > 0 && (s[0] == '-' || s[0] == '+') {
        s.subrange(1, s.len() as int)
    } else {
        s
    };
    let magnitude = digits_value(body) as int;
    let n = if negative { -magnitude } else { magnitude };
    if body.len() > 0 && all_digits(body) && lo <= n <= hi {
        Some(n)
    } else {
        None
    }
}

/// The number written as an optional `+` and decimal digits, when it is at most `hi`.
pub open spec fn unsigned_number(s: Seq<char>, hi: int) -> Option<int> {
    let body = if s.len() > 0 && s[0] == '+' {
        s.subrange(1, s.len() as int)
    } else {
        s
    };
    if body.len() > 0 && all_digits(body) && digits_value(body) <= hi {
        Some(digits_value(body) as int)
    } else {
        None
    }
}

proof fn lemma_digits_value_grows(s: Seq<char>, i: int)
    requires
        0 <= i <= s.len(),
        all_digits(s),
    ensures
        digits_value(s.take(i)) <= digits_value(s),
    decreases s.len() - i,
{
    if i < s.len() {
        lemma_digits_value_grows(s, i + 1);
        assert(s.take(i + 1).drop_last() =~= s.take(i));
    } else {
        assert(s.take(i) =~= s);
    }
}

/// Reads the digits from `from` to the end of `v`.
fn read_digits(v: &Vec<char>, from: usize) -> (r: Option<u64>)
    requires
        from <= v@.len(),
    ensures
        ({
            let body = v@.subrange(from as int, v@.len() as int);
            let ok = body.len() > 0 && all_digits(body) && digits_value(body) <= u64::MAX;
            r == (if ok { Some(digits_value(body) as u64) } else { None })
        }),
{
    let n: usize = v.len();
    let ghost body = v@.subrange(from as int, n as int);
    if from == n {
        return None;
    }
    let mut acc: u64 = 0;
    let mut i: usize = from;
    while i < n
        invariant
            from <= i <= n == v@.len(),
            body == v@.subrange(from as int, n as int),
            all_digits(body.take(i - from)),
            acc == digits_value(body.take(i - from)),
        decreases n - i,
    {
        let c = v[i];
        assert(body[i - from] == c);
        if c < '0' || c > '9' {
            assert(!is_digit(body[i - from]));
            return None;
        }
        let d: u64 = (c as u32 - 48) as u64;
        proof {
            let k = i - from;
            assert(body.take(k + 1).drop_last() =~= body.take(k));
            assert(all_digits(body.take(k + 1))) by {
                assert forall|j: int| 0 <= j < k + 1 implies is_digit(
                    #[trigger] body.take(k + 1)[j],
                ) by {
                    if j < k {
                        assert(body.take(k)[j] == body.take(k + 1)[j]);
                    }
                }
            }
            assert(digits_value(body.take(k + 1)) == acc * 10 + d);
        }
        if acc > (u64::MAX - d) / 10 {
            proof {
                if all_digits(body) {
                    lemma_digits_value_grows(body, i - from + 1);
                }
            }
            return None;
        }
        acc = acc * 10 + d;
        i += 1;
    }
    assert(body.take(n - from) =~= body);
    Some(acc)
}

/// Reads a signed 64-bit number written in decimal.
pub fn parse_i64(s: &str) -> (r: Option<i64>)
    ensures
        match r {
            Some(n) => signed_number(s@, i64::MIN as int, i64::MAX as int) == Some(n as int),
            None => signed_number(s@, i64::MIN as int, i64::MAX as int) is None,
        },
{
    let v = chars_of(s);
    if v.len() == 0 {
        return None;
    }
    let negative = v[0] == '-';
    let from: usize = if negative || v[0] == '+' {
        1
    } else {
        0
    };
    assert(v@.subrange(0, v@.len() as int) =~= v@);
    match read_digits(&v, from) {
        None => None,
        Some(m) => {
            if negative {
                if m <= 0x7fff_ffff_ffff_ffff {
                    Some(-(m as i64))
                } else if m == 0x8000_0000_0000_0000 {
                    Some(i64::MIN)
                } else {
                    None
                }
            } else if m <= 0x7fff_ffff_ffff_ffff {
                Some(m as i64)
            } else {
                None
            }
        },
    }
}

/// Reads an unsigned 64-bit number written in decimal.
pub fn parse_u64(s: &str) -> (r: Option<u64>)
    ensures
        match r {
            Some(n) => unsigned_number(s@, u64::MAX as int) == Some(n as int),
            None => unsigned_number(s@, u64::MAX as int) is None,
        },
{
    let v = chars_of(s);
    if v.len() == 0 {
        return None;
    }
    let from: usize = if v[0] == '+' {
        1
    } else {
        0
    };
    assert(v@.subrange(0, v@.len() as int) =~= v@);
    read_digits(&v, from)
}

/// The decimal digits of a number.
pub open spec fn digits(n: nat) -> Seq<char>
    decreases n,
{
    if n < 10 {
        seq![(('0' as int) + n) as char]
    } else {
        digits(n / 10).push((('0' as int) + n % 10) as char)
    }
}

/// A number in decimal, with a minus sign when it is negative.
pub open spec fn decimal(n: int) -> Seq<char> {
    if n < 0 {
        seq!['-'] + digits((-n) as nat)
    } else {
        digits(n as nat)
    }
}

fn push_digits(out: &mut String, n: u128)
    ensures
        final(out)@ == old(out)@ + digits(n as nat),
    decreases n,
{
    if n >= 10 {
        push_digits(out, n / 10);
    }
    let c: char = (48 + (n % 10) as u8) as char;
    out.push(c);
    assert(out@ =~= old(out)@ + digits(n as nat));
}

/// Appends a number in decimal.
pub fn push_decimal(out: &mut String, n: i64)
    ensures
        final(out)@ == old(out)@ + decimal(n as int),
{
    if n < 0 {
        out.push('-');
        let m: u64 = if n == i64::MIN {
            0x8000_0000_0000_0000
        } else {
            (-n) as u64
        };
        push_digits(out, m as u128);
        assert(out@ =~= old(out)@ + decimal(n as int));
    } else {
        push_digits(out, n as u128);
    }
}

/// Appends an unsigned number in decimal.
pub fn push_decimal_u64(out: &mut String, n: u64)
    ensures
        final(out)@ == old(out)@ + decimal(n as int),
{
    push_digits(out, n as u128);
}

/// Appends a large unsigned number in decimal.
pub fn push_decimal_u128(out: &mut String, n: u128)
    ensures
        final(out)@ == old(out)@ + decimal(n as int),
{
    push_digits(out, n);
}

/// The digits of a number are digits, and say the number.
pub proof fn lemma_digits_are_digits(n: nat)
    ensures
        digits(n).len() > 0,
        all_digits(digits(n)),
        digits_value(digits(n)) == n,
    decreases n,
{
    let s = digits(n);
    if n < 10 {
        assert(s.drop_last() =~= Seq::<char>::empty());
        assert(digits_value(s.drop_last()) == 0);
        assert(s.last() as int == '0' as int + n);
    } else {
        lemma_digits_are_digits(n / 10);
        assert(s.drop_last() =~= digits(n / 10));
        assert(s.last() as int == '0' as int + n % 10);
        assert forall|i: int| 0 <= i < s.len() implies is_digit(#[trigger] s[i]) by {
            if i < s.len() - 1 {
                assert(s[i] == digits(n / 10)[i]);
            }
        }
    }
}

/// Reading back a number that was written in decimal gives the number.
pub proof fn law_decimal_round_trip(n: i64)
    ensures
        signed_number(decimal(n as int), i64::MIN as int, i64::MAX as int) == Some(n as int),
{
    let s = decimal(n as int);
    if n < 0 {
        lemma_digits_are_digits((-n) as nat);
        assert(s.subrange(1, s.len() as int) =~= digits((-n) as nat));
        assert(s[0] == '-');
    } else {
        lemma_digits_are_digits(n as nat);
        assert(is_digit(s[0]));
    }
}

// ── Searching ──────────────────────────────────────────────────────────────

/// Does `pattern` stand in `s` at position `i`?
pub open spec fn stands_at(s: Seq<char>, pattern: Seq<char>, i: int) -> bool {
    0 <= i && i + pattern.len() <= s.len() && s.subrange(i, i + pattern.len()) == pattern
}

/// The first position from `from` on at which `pattern` stands in `s`.
pub open spec fn first_at(s: Seq<char>, pattern: Seq<char>, from: int) -> Option<int>
    decreases s.len() - from + 1,
{
    if from + pattern.len() > s.len() {
        None
    } else if stands_at(s, pattern, from) {
        Some(from)
    } else {
        first_at(s, pattern, from + 1)
    }
}

/// Where a pattern is found first, it stands, and nowhere before.
pub proof fn lemma_first_at_is_inside(s: Seq<char>, pattern: Seq<char>, from: int)
    ensures
        first_at(s, pattern, from) matches Some(i) ==> from <= i && stands_at(s, pattern, i)
            && forall|j: int| from <= j < i ==> !stands_at(s, pattern, j),
    decreases s.len() - from + 1,
{
    if from + pattern.len() <= s.len() && !stands_at(s, pattern, from) {
        lemma_first_at_is_inside(s, pattern, from + 1);
    }
}

/// Does `pattern` stand anywhere in `s`?
pub open spec fn occurs_in(s: Seq<char>, pattern: Seq<char>) -> bool {
    exists|i: int| stands_at(s, pattern, i)
}

/// Does `pattern` stand in `v` at position `i`?
fn is_at(v: &Vec<char>, pattern: &Vec<char>, i: usize) -> (r: bool)
    requires
        i <= v@.len(),
    ensures
        r == stands_at(v@, pattern@, i as int),
{
    if v.len() - i < pattern.len() {
        return false;
    }
    let m: usize = v.len();
    let n: usize = pattern.len();
    let mut k: usize = 0;
    while k < n
        invariant
            k <= n == pattern@.len(),
            i + n <= v@.len() == m,
            forall|j: int| 0 <= j < k ==> #[trigger] v@[i + j] == pattern@[j],
        decreases n - k,
    {
        if v[i + k] != pattern[k] {
            proof {
                assert(v@.subrange(i as int, i + n)[k as int] == v@[i + k]);
            }
            return false;
        }
        k += 1;
    }
    proof {
        assert forall|j: int| 0 <= j < n implies v@.subrange(i as int, i + n)[j] == pattern@[j] by {
            assert(v@[i + j] == pattern@[j]);
        }
        assert(v@.subrange(i as int, i + n) =~= pattern@);
    }
    true
}

/// Finds the first place from `from` on at which `pattern` stands.
pub fn find_from(v: &Vec<char>, pattern: &str, from: usize) -> (r: Option<usize>)
    requires
        from <= v@.len(),
    ensures
        match r {
            Some(i) => first_at(v@, pattern@, from as int) == Some(i as int) && i + pattern@.len()
                <= v@.len(),
            None => first_at(v@, pattern@, from as int) is None,
        },
{
    let p = chars_of(pattern);
    let n: usize = v.len();
    let mut i: usize = from;
    while n - i >= p.len()
        invariant
            p@ == pattern@,
            from <= i <= n == v@.len(),
            first_at(v@, pattern@, from as int) == first_at(v@, pattern@, i as int),
        decreases n - i,
    {
        if is_at(v, &p, i) {
            return Some(i);
        }
        assert(i < n) by {
            if i == n {
                assert(v@.subrange(i as int, i as int) =~= pattern@);
            }
        }
        i += 1;
    }
    None
}

/// Does `pattern` stand anywhere in `s`?
pub fn contains(s: &str, pattern: &str) -> (r: bool)
    ensures
        r == occurs_in(s@, pattern@),
{
    let v = chars_of(s);
    let found = find_from(&v, pattern, 0);
    proof {
        lemma_first_at(s@, pattern@, 0);
    }
    found.is_some()
}

/// Where a pattern is found, it stands, and where it is not found, it stands nowhere.
pub proof fn lemma_first_at(s: Seq<char>, pattern: Seq<char>, from: int)
    requires
        0 <= from,
    ensures
        match first_at(s, pattern, from) {
            Some(i) => from <= i && stands_at(s, pattern, i),
            None => forall|i: int| from <= i ==> !stands_at(s, pattern, i),
        },
    decreases s.len() - from + 1,
{
    if from + pattern.len() <= s.len() && !stands_at(s, pattern, from) {
        lemma_first_at(s, pattern, from + 1);
    }
}

/// What follows `prefix`, when the text starts with it.
pub open spec fn after_prefix(s: Seq<char>, prefix: Seq<char>) -> Option<Seq<char>> {
    if stands_at(s, prefix, 0) {
        Some(s.subrange(prefix.len() as int, s.len() as int))
    } else {
        None
    }
}

/// What follows `prefix`, when the text starts with it.
pub fn strip_prefix(s: &str, prefix: &str) -> (r: Option<String>)
    ensures
        match r {
            Some(rest) => after_prefix(s@, prefix@) == Some(rest@),
            None => after_prefix(s@, prefix@) is None,
        },
{
    let v = chars_of(s);
    let p = chars_of(prefix);
    if is_at(&v, &p, 0) {
        let n: usize = v.len();
        Some(slice_text(&v, p.len(), n))
    } else {
        None
    }
}

/// The text with every `pattern`, read from the left, replaced by `with`.
pub open spec fn replaced(s: Seq<char>, pattern: Seq<char>, with: Seq<char>) -> Seq<char>
    decreases s.len(),
{
    if pattern.len() == 0 || s.len() == 0 {
        s
    } else if stands_at(s, pattern, 0) {
        with + replaced(s.subrange(pattern.len() as int, s.len() as int), pattern, with)
    } else {
        seq![s[0]] + replaced(s.subrange(1, s.len() as int), pattern, with)
    }
}

/// Replaces every `pattern`, read from the left, by `with`.
pub fn replace(s: &str, pattern: &str, with: &str) -> (r: String)
    requires
        pattern@.len() > 0,
    ensures
        r@ == replaced(s@, pattern@, with@),
{
    let v = chars_of(s);
    let p = chars_of(pattern);
    let n: usize = v.len();
    let mut out = String::new();
    let mut i: usize = 0;
    assert(v@.subrange(0, n as int) =~= v@);
    assert(out@ + replaced(v@, pattern@, with@) =~= replaced(v@, pattern@, with@));
    while i < n
        invariant
            i <= n == v@.len(),
            p@ == pattern@,
            v@ == s@,
            pattern@.len() > 0,
            replaced(s@, pattern@, with@) == out@ + replaced(
                v@.subrange(i as int, n as int),
                pattern@,
                with@,
            ),
        decreases n - i,
    {
        let ghost rest = v@.subrange(i as int, n as int);
        let ghost before = out@;
        if is_at(&v, &p, i) {
            out.append(with);
            proof {
                assert(rest.subrange(0, p@.len() as int) =~= v@.subrange(i as int, i + p@.len()));
                assert(rest.subrange(p@.len() as int, rest.len() as int) =~= v@.subrange(
                    i + p@.len(),
                    n as int,
                ));
                assert(out@ + replaced(v@.subrange(i + p@.len(), n as int), pattern@, with@)
                    =~= before + replaced(rest, pattern@, with@));
            }
            i += p.len();
        } else {
            out.push(v[i]);
            proof {
                if stands_at(rest, p@, 0) {
                    assert(rest.subrange(0, p@.len() as int) =~= v@.subrange(i as int, i + p@.len()));
                }
                assert(rest.subrange(1, rest.len() as int) =~= v@.subrange(i + 1, n as int));
                assert(out@ + replaced(v@.subrange(i + 1, n as int), pattern@, with@) =~= before
                    + replaced(rest, pattern@, with@));
            }
            i += 1;
        }
    }
    assert(replaced(v@.subrange(n as int, n as int), pattern@, with@) =~= Seq::<char>::empty());
    assert(out@ =~= replaced(s@, pattern@, with@));
    out
}

// ── Joining ────────────────────────────────────────────────────────────────

/// The texts that a list of strings holds.
pub open spec fn texts(v: Seq<String>) -> Seq<Seq<char>> {
    Seq::new(v.len(), |i: int| v[i]@)
}

/// The parts, one after the other, with `separator` between any two.
pub open spec fn joined(parts: Seq<Seq<char>>, separator: Seq<char>) -> Seq<char>
    decreases parts.len(),
{
    if parts.len() == 0 {
        Seq::empty()
    } else if parts.len() == 1 {
        parts[0]
    } else {
        joined(parts.drop_last(), separator) + separator + parts.last()
    }
}

/// What stands between two texts stands in the whole.
pub proof fn lemma_middle_occurs(before: Seq<char>, pattern: Seq<char>, after: Seq<char>)
    ensures
        occurs_in(before + pattern + after, pattern),
{
    let all = before + pattern + after;
    let at = before.len() as int;
    assert(all.subrange(at, at + pattern.len()) =~= pattern);
    assert(stands_at(all, pattern, at));
}

/// What stands within one of the parts stands in all of them together.
pub proof fn lemma_part_occurs(
    parts: Seq<Seq<char>>,
    separator: Seq<char>,
    i: int,
    before: Seq<char>,
    pattern: Seq<char>,
    after: Seq<char>,
)
    requires
        0 <= i < parts.len(),
        parts[i] == before + pattern + after,
    ensures
        occurs_in(joined(parts, separator), pattern),
    decreases parts.len(),
{
    let all = joined(parts, separator);
    if parts.len() == 1 {
        lemma_middle_occurs(before, pattern, after);
    } else if i == parts.len() - 1 {
        let head = joined(parts.drop_last(), separator) + separator + before;
        lemma_middle_occurs(head, pattern, after);
        assert(all =~= head + pattern + after);
    } else {
        let rest = joined(parts.drop_last(), separator);
        lemma_part_occurs(parts.drop_last(), separator, i, before, pattern, after);
        let at = choose|at: int| stands_at(rest, pattern, at);
        assert(all.subrange(at, at + pattern.len()) =~= rest.subrange(at, at + pattern.len()));
        assert(stands_at(all, pattern, at));
    }
}

/// Puts the parts one after the other, with `separator` between any two.
pub fn join(parts: &Vec<String>, separator: &str) -> (r: String)
    ensures
        r@ == joined(texts(parts@), separator@),
{
    let mut out = String::new();
    let n: usize = parts.len();
    let mut i: usize = 0;
    let ghost all = texts(parts@);
    while i < n
        invariant
            i <= n == parts@.len(),
            all == texts(parts@),
            out@ == joined(all.take(i as int), separator@),
        decreases n - i,
    {
        if i > 0 {
            out.append(separator);
        }
        out.append(parts[i].as_str());
        proof {
            assert(all.take(i + 1).drop_last() =~= all.take(i as int));
            assert(out@ =~= joined(all.take(i + 1), separator@));
        }
        i += 1;
    }
    assert(all.take(n as int) =~= all);
    out
}

// ── Letters ────────────────────────────────────────────────────────────────

/// The character with an ASCII capital turned into its small letter.
pub open spec fn small(c: char) -> char {
    if 'A' <= c <= 'Z' {
        (c as int + 32) as char
    } else {
        c
    }
}

/// The character with an ASCII small letter turned into its capital.
pub open spec fn capital(c: char) -> char {
    if 'a' <= c <= 'z' {
        (c as int - 32) as char
    } else {
        c
    }
}

/// The text with every ASCII capital turned into its small letter.
pub open spec fn lowered(s: Seq<char>) -> Seq<char> {
    Seq::new(s.len(), |i: int| small(s[i]))
}

fn to_small(c: char) -> (r: char)
    ensures
        r == small(c),
{
    if 'A' <= c && c <= 'Z' {
        (c as u8 + 32) as char
    } else {
        c
    }
}

/// Turns every ASCII capital into its small letter.
pub fn to_ascii_lowercase(s: &str) -> (r: String)
    ensures
        r@ == lowered(s@),
{
    let v = chars_of(s);
    let mut out = String::new();
    let n: usize = v.len();
    let mut i: usize = 0;
    while i < n
        invariant
            i <= n == v@.len(),
            v@ == s@,
            out@ == lowered(s@).take(i as int),
        decreases n - i,
    {
        out.push(to_small(v[i]));
        proof {
            assert(lowered(s@).take(i + 1) =~= lowered(s@).take(i as int).push(small(s@[i as int])));
        }
        i += 1;
    }
    assert(lowered(s@).take(n as int) =~= lowered(s@));
    out
}

/// Are the texts equal when ASCII capitals and small letters are not told apart?
pub fn eq_ignore_ascii_case(a: &str, b: &str) -> (r: bool)
    ensures
        r == (lowered(a@) == lowered(b@)),
{
    let x = to_ascii_lowercase(a);
    let y = to_ascii_lowercase(b);
    same(x.as_str(), y.as_str())
}

/// The text in capitals, by the Unicode mapping of every character.
pub uninterp spec fn uppercased(s: Seq<char>) -> Seq<char>;

/// `str::to_uppercase`, whose result has the name `uppercased`. A text of ASCII characters keeps
/// its length, and every small letter in it becomes the capital.
#[verifier::external_body]
pub(crate) fn to_uppercase(s: &str) -> (r: String)
    ensures
        r@ == uppercased(s@),
        vstd::utf8::is_ascii_chars(s@) ==> r@ == Seq::new(s@.len(), |i: int| capital(s@[i])),
{
    s.to_uppercase()
}

/// A text and its capitals are the same when case is not told apart.
pub proof fn law_capitals_differ_in_case_only(s: Seq<char>)
    ensures
        lowered(Seq::new(s.len(), |i: int| capital(s[i]))) == lowered(s),
{
    let t = Seq::new(s.len(), |i: int| capital(s[i]));
    assert forall|i: int| 0 <= i < s.len() implies #[trigger] lowered(t)[i] == lowered(s)[i] by {
        assert(t[i] == capital(s[i]));
    }
    assert(lowered(t) =~= lowered(s));
}

/// A character as it stands in the text of a page.
pub open spec fn page_char(c: char) -> Seq<char> {
    if c == '&' {
        "&amp;"@
    } else if c == '<' {
        "&lt;"@
    } else if c == '>' {
        "&gt;"@
    } else {
        seq![c]
    }
}

/// A text as it stands in the text of a page.
pub open spec fn page_text(s: Seq<char>) -> Seq<char>
    decreases s.len(),
{
    if s.len() == 0 {
        Seq::empty()
    } else {
        page_text(s.drop_last()) + page_char(s.last())
    }
}

/// Escapes a text so that it can stand in a page.
pub fn escape_html(s: &str) -> (r: String)
    ensures
        r@ == page_text(s@),
{
    let v = chars_of(s);
    let mut out = String::new();
    let n: usize = v.len();
    let mut i: usize = 0;
    while i < n
        invariant
            i <= n == v@.len(),
            v@ == s@,
            out@ == page_text(s@.take(i as int)),
        decreases n - i,
    {
        let c = v[i];
        if c == '&' {
            out.append("&amp;");
        } else if c == '<' {
            out.append("&lt;");
        } else if c == '>' {
            out.append("&gt;");
        } else {
            out.push(c);
        }
        proof {
            assert(s@.take(i + 1).drop_last() =~= s@.take(i as int));
            assert(out@ =~= page_text(s@.take(i + 1)));
        }
        i += 1;
    }
    assert(s@.take(n as int) =~= s@);
    out
}

proof fn lemma_page_text_holds_no_bracket(s: Seq<char>, i: int)
    requires
        0 <= i < page_text(s).len(),
    ensures
        page_text(s)[i] != '<' && page_text(s)[i] != '>',
    decreases s.len(),
{
    reveal_strlit("&amp;");
    reveal_strlit("&lt;");
    reveal_strlit("&gt;");
    let head = page_text(s.drop_last());
    if i < head.len() {
        lemma_page_text_holds_no_bracket(s.drop_last(), i);
    } else {
        assert(page_text(s)[i] == page_char(s.last())[i - head.len()]);
    }
}

/// Escaped text opens and closes no tag.
pub proof fn law_escaped_text_holds_no_tag(s: Seq<char>)
    ensures
        !page_text(s).contains('<'),
        !page_text(s).contains('>'),
{
    assert forall|i: int| 0 <= i < page_text(s).len() implies page_text(s)[i] != '<' && page_text(
        s,
    )[i] != '>' by {
        lemma_page_text_holds_no_bracket(s, i);
    }
}

// ── What trimming and escaping leave ───────────────────────────────────────

/// Trimming takes white space from both ends and nothing else: what is left stands in the text from
/// the place that is found, neither begins nor ends with white space, and all around it is white
/// space.
pub proof fn law_trimming_takes_white_space_from_the_ends(s: Seq<char>) -> (at: int)
    ensures
        0 <= at <= at + trimmed(s).len() <= s.len(),
        trimmed(s) == s.subrange(at, at + trimmed(s).len()),
        forall|i: int| 0 <= i < at ==> white(#[trigger] s[i]),
        forall|i: int| at + trimmed(s).len() <= i < s.len() ==> white(#[trigger] s[i]),
        trimmed(s).len() > 0 ==> !white(trimmed(s)[0]) && !white(trimmed(s).last()),
{
    let at = lemma_trimmed_start(s);
    let rest = trimmed_start(s);
    lemma_trimmed_end(rest);
    let t = trimmed_end(rest);
    assert(t =~= s.subrange(at, at + t.len()));
    assert forall|i: int| at + t.len() <= i < s.len() implies white(#[trigger] s[i]) by {
        assert(rest[i - at] == s[i]);
    }
    if t.len() > 0 {
        assert(t[0] == rest[0]);
    }
    at
}

proof fn lemma_trimmed_start(s: Seq<char>) -> (at: int)
    ensures
        0 <= at <= s.len(),
        trimmed_start(s) == s.subrange(at, s.len() as int),
        forall|i: int| 0 <= i < at ==> white(#[trigger] s[i]),
        trimmed_start(s).len() > 0 ==> !white(trimmed_start(s)[0]),
    decreases s.len(),
{
    if s.len() > 0 && white(s[0]) {
        let rest = s.subrange(1, s.len() as int);
        let at = lemma_trimmed_start(rest);
        assert(trimmed_start(s) =~= s.subrange(at + 1, s.len() as int));
        assert forall|i: int| 0 <= i < at + 1 implies white(#[trigger] s[i]) by {
            if i > 0 {
                assert(rest[i - 1] == s[i]);
            }
        }
        at + 1
    } else {
        assert(s =~= s.subrange(0, s.len() as int));
        0
    }
}

proof fn lemma_trimmed_end(s: Seq<char>)
    ensures
        trimmed_end(s).len() <= s.len(),
        trimmed_end(s) == s.subrange(0, trimmed_end(s).len() as int),
        forall|i: int| trimmed_end(s).len() <= i < s.len() ==> white(#[trigger] s[i]),
        trimmed_end(s).len() > 0 ==> !white(trimmed_end(s).last()),
    decreases s.len(),
{
    if s.len() > 0 && white(s.last()) {
        let rest = s.drop_last();
        lemma_trimmed_end(rest);
        let t = trimmed_end(rest);
        assert(t =~= s.subrange(0, t.len() as int));
        assert forall|i: int| t.len() <= i < s.len() implies white(#[trigger] s[i]) by {
            if i < rest.len() {
                assert(rest[i] == s[i]);
            }
        }
    } else {
        assert(s =~= s.subrange(0, s.len() as int));
    }
}

/// A text that neither begins nor ends with white space is left as it is.
pub proof fn law_trimming_leaves_the_rest(s: Seq<char>)
    requires
        s.len() == 0 || (!white(s[0]) && !white(s.last())),
    ensures
        trimmed(s) == s,
{
}

/// Letters, digits and signs are no white space; the blank, the tab and the ends of lines are.
pub proof fn law_white_space_is_what_shows_nothing(c: char)
    ensures
        '!' <= c <= '~' ==> !white(c),
        white(' ') && white('\t') && white('\n') && white('\r'),
{
}

/// Of a run of one character at the end of a text nothing is left, and before it nothing is lost.
pub proof fn law_trailing_runs_are_dropped(s: Seq<char>, c: char)
    ensures
        without_trailing(s, c).len() <= s.len(),
        without_trailing(s, c) == s.take(without_trailing(s, c).len() as int),
        without_trailing(s, c).len() > 0 ==> without_trailing(s, c).last() != c,
        forall|i: int| without_trailing(s, c).len() <= i < s.len() ==> #[trigger] s[i] == c,
    decreases s.len(),
{
    if s.len() > 0 && s.last() == c {
        let rest = s.drop_last();
        law_trailing_runs_are_dropped(rest, c);
        let t = without_trailing(rest, c);
        assert(t =~= s.take(t.len() as int));
        assert forall|i: int| t.len() <= i < s.len() implies #[trigger] s[i] == c by {
            if i < rest.len() {
                assert(rest[i] == s[i]);
            }
        }
    } else {
        assert(s =~= s.take(s.len() as int));
    }
}

/// Text without special characters stands in a page as it is, and escaping goes character by
/// character.
pub proof fn law_plain_text_is_not_escaped(s: Seq<char>, t: Seq<char>)
    ensures
        page_text(s + t) == page_text(s) + page_text(t),
        !s.contains('&') && !s.contains('<') && !s.contains('>') ==> page_text(s) == s,
    decreases s.len() + t.len(),
{
    if t.len() > 0 {
        law_plain_text_is_not_escaped(s, t.drop_last());
        assert((s + t).drop_last() =~= s + t.drop_last());
        assert(page_text(s + t) =~= page_text(s) + page_text(t));
    } else {
        assert(s + t =~= s);
        assert(page_text(s) + page_text(t) =~= page_text(s));
        if s.len() > 0 && !s.contains('&') && !s.contains('<') && !s.contains('>') {
            let rest = s.drop_last();
            assert(s.contains(s.last()));
            assert forall|c: char| rest.contains(c) implies s.contains(c) by {
                let i = choose|i: int| 0 <= i < rest.len() && rest[i] == c;
                assert(s[i] == c);
            }
            law_plain_text_is_not_escaped(rest, t);
            assert(page_text(s) =~= s);
        }
    }
}

/// A text in which the pattern does not stand is left as it is; one that begins with the pattern
/// begins with what replaces it, and goes on with what follows.
pub proof fn law_every_pattern_is_replaced(s: Seq<char>, pattern: Seq<char>, with: Seq<char>)
    requires
        pattern.len() > 0,
    ensures
        !occurs_in(s, pattern) ==> replaced(s, pattern, with) == s,
        forall|rest: Seq<char>| #[trigger]
            replaced(pattern + rest, pattern, with) == with + replaced(rest, pattern, with),
    decreases s.len(),
{
    if !occurs_in(s, pattern) && s.len() > 0 {
        let rest = s.subrange(1, s.len() as int);
        if occurs_in(rest, pattern) {
            let i = choose|i: int| stands_at(rest, pattern, i);
            assert(s.subrange(i + 1, i + 1 + pattern.len()) =~= rest.subrange(
                i,
                i + pattern.len(),
            ));
            assert(stands_at(s, pattern, i + 1));
        }
        law_every_pattern_is_replaced(rest, pattern, with);
        assert(!stands_at(s, pattern, 0));
        assert(seq![s[0]] + rest =~= s);
    }
    assert forall|rest: Seq<char>| #[trigger]
        replaced(pattern + rest, pattern, with) == with + replaced(rest, pattern, with) by {
        let all = pattern + rest;
        assert(all.subrange(0, pattern.len() as int) =~= pattern);
        assert(stands_at(all, pattern, 0));
        assert(all.subrange(pattern.len() as int, all.len() as int) =~= rest);
    }
}

/// An unsigned number that is written in decimal is read back.
pub proof fn law_unsigned_round_trip(n: u64)
    ensures
        unsigned_number(decimal(n as int), u64::MAX as int) == Some(n as int),
        trimmed(decimal(n as int)) == decimal(n as int),
{
    lemma_digits_are_digits(n as nat);
    let s = decimal(n as int);
    assert(is_digit(s[0]));
    assert(is_digit(s[s.len() - 1]));
}

/// Each character that a page would read as its own becomes the entity with its name, wherever it
/// stands.
pub proof fn law_each_sign_has_its_entity(s: Seq<char>, t: Seq<char>)
    ensures
        page_text(s + seq!['<'] + t) == page_text(s) + "&lt;"@ + page_text(t),
        page_text(s + seq!['>'] + t) == page_text(s) + "&gt;"@ + page_text(t),
        page_text(s + seq!['&'] + t) == page_text(s) + "&amp;"@ + page_text(t),
{
    assert forall|c: char| #[trigger]
        page_text(s + seq![c] + t) == page_text(s) + page_char(c) + page_text(t) by {
        law_plain_text_is_not_escaped(s + seq![c], t);
        law_plain_text_is_not_escaped(s, seq![c]);
        assert(seq![c].drop_last() =~= Seq::<char>::empty());
        assert(page_text(Seq::<char>::empty()) == Seq::<char>::empty());
        assert(page_text(seq![c]) =~= page_text(seq![c].drop_last()) + page_char(c));
        assert(page_text(seq![c]) =~= page_char(c));
    }
}

/// Joined texts stand one after the other, with the separator between any two: a part that is added
/// at either end comes to stand there, behind or before a separator.
pub proof fn law_joined_texts_stand_in_a_row(
    parts: Seq<Seq<char>>,
    part: Seq<char>,
    separator: Seq<char>,
)
    ensures
        joined(Seq::empty(), separator) == Seq::<char>::empty(),
        joined(seq![part], separator) == part,
        parts.len() > 0 ==> joined(parts.push(part), separator) == joined(parts, separator)
            + separator + part,
        parts.len() > 0 ==> joined(seq![part] + parts, separator) == part + separator + joined(
            parts,
            separator,
        ),
    decreases parts.len(),
{
    assert(parts.push(part).drop_last() =~= parts);
    if parts.len() == 1 {
        let both = seq![part] + parts;
        assert(both.drop_last() =~= seq![part]);
        assert(both.last() == parts[0]);
        assert(joined(seq![part], separator) == part);
        assert(joined(both, separator) =~= part + separator + parts[0]);
    } else if parts.len() > 1 {
        let rest = parts.drop_last();
        law_joined_texts_stand_in_a_row(rest, part, separator);
        let all = seq![part] + parts;
        assert(all.drop_last() =~= seq![part] + rest);
        assert(all.last() == parts.last());
        assert(joined(all, separator) =~= part + separator + joined(parts, separator));
    }
}

/// A number may be written with a plus sign, and one that lies outside the range is none; one more
/// digit makes a number ten times as large and adds what the digit stands for.
pub proof fn law_numbers_are_read_in_decimal(s: Seq<char>, d: char, lo: int, hi: int)
    requires
        s.len() > 0,
        all_digits(s),
        '0' <= d <= '9',
    ensures
        digits_value(s.push(d)) == 10 * digits_value(s) + (d as int - '0' as int),
        signed_number(seq!['+'] + s, lo, hi) == signed_number(s, lo, hi),
        unsigned_number(seq!['+'] + s, hi) == unsigned_number(s, hi),
        signed_number(s, lo, hi) is Some <==> lo <= digits_value(s) <= hi,
        signed_number(seq!['-'] + s, lo, hi) is Some <==> lo <= -digits_value(s) <= hi,
        signed_number(seq!['-'] + s, lo, hi) matches Some(n) ==> n == -digits_value(s),
        unsigned_number(s, hi) is Some <==> digits_value(s) <= hi,
        unsigned_number(seq!['-'] + s, hi) is None,
{
    assert(s.push(d).drop_last() =~= s);
    let plus = seq!['+'] + s;
    assert(plus.subrange(1, plus.len() as int) =~= s);
    let minus = seq!['-'] + s;
    assert(minus.subrange(1, minus.len() as int) =~= s);
    assert(is_digit(s[0]));
    assert(minus[0] == '-' && !is_digit(minus[0]));
}

/// Lowering turns each capital from A to Z into the small letter of the same place in the alphabet,
/// and leaves every other character.
pub proof fn law_lowering_changes_capitals_only(s: Seq<char>, i: int, k: int)
    requires
        0 <= i < s.len(),
        0 <= k < 26,
    ensures
        lowered(s).len() == s.len(),
        s[i] as int == 'A' as int + k ==> lowered(s)[i] as int == 'a' as int + k,
        !('A' <= s[i] <= 'Z') ==> lowered(s)[i] == s[i],
{
}

/// The capital of a small letter from a to z has the same place in the alphabet, and every other
/// character is its own capital.
pub proof fn law_capitals_come_from_small_letters(c: char, k: int)
    requires
        0 <= k < 26,
    ensures
        c as int == 'a' as int + k ==> capital(c) as int == 'A' as int + k,
        !('a' <= c <= 'z') ==> capital(c) == c,
{
}

/// What follows a prefix is found exactly where the text begins with it.
pub proof fn law_a_prefix_is_taken_off(s: Seq<char>, prefix: Seq<char>, rest: Seq<char>)
    ensures
        after_prefix(prefix + rest, prefix) == Some(rest),
        after_prefix(s, prefix) matches Some(t) ==> s == prefix + t,
{
    let all = prefix + rest;
    assert(all.subrange(0, prefix.len() as int) =~= prefix);
    assert(stands_at(all, prefix, 0));
    assert(all.subrange(prefix.len() as int, all.len() as int) =~= rest);
    if let Some(t) = after_prefix(s, prefix) {
        assert(s =~= prefix + t);
    }
}

} // verus!
