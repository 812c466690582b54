//! Building and reading the short texts that the windows show and the command history keeps.
use vstd::prelude::*;

verus! {

/// The character of one decimal digit.
pub open spec fn digit_char(d: nat) -> char {
    if d == 0 {
        '0'
    } else if d == 1 {
        '1'
    } else if d == 2 {
        '2'
    } else if d == 3 {
        '3'
    } else if d == 4 {
        '4'
    } else if d == 5 {
        '5'
    } else if d == 6 {
        '6'
    } else if d == 7 {
        '7'
    } else if d == 8 {
        '8'
    } else {
        '9'
    }
}

/// A number written in decimal, without leading zeros.
pub open spec fn dec(n: nat) -> Seq<char>
    decreases n,
{
    if n < 10 {
        seq![digit_char(n)]
    } else {
        dec(n / 10).push(digit_char(n % 10))
    }
}

fn digit_text(d: u64) -> (r: &'static str)
    requires
        d < 10,
    ensures
        r@ == seq![digit_char(d as nat)],
{
    proof {
        reveal_strlit("0");
        reveal_strlit("1");
        reveal_strlit("2");
        reveal_strlit("3");
        reveal_strlit("4");
        reveal_strlit("5");
        reveal_strlit("6");
        reveal_strlit("7");
        reveal_strlit("8");
        reveal_strlit("9");
    }
    if d == 0 {
        "0"
    } else if d == 1 {
        "1"
    } else if d == 2 {
        "2"
    } else if d == 3 {
        "3"
    } else if d == 4 {
        "4"
    } else if d == 5 {
        "5"
    } else if d == 6 {
        "6"
    } else if d == 7 {
        "7"
    } else if d == 8 {
        "8"
    } else {
        "9"
    }
}

/// Writes a number in decimal.
pub fn dec_text(n: u64) -> (r: String)
    ensures
        r@ == dec(n as nat),
    decreases n,
{
    if n < 10 {
        String::from_str(digit_text(n))
    } else {
        let mut r = dec_text(n / 10);
        r.append(digit_text(n % 10));
        r
    }
}

/// Writes a large number in decimal.
pub fn dec_text_wide(n: u128) -> (r: String)
    ensures
        r@ == dec(n as nat),
    decreases n,
{
    if n < 10 {
        String::from_str(digit_text(n as u64))
    } else {
        let mut r = dec_text_wide(n / 10);
        r.append(digit_text((n % 10) as u64));
        r
    }
}

/// Two texts one after the other.
pub fn cat2(a: &str, b: &str) -> (r: String)
    ensures
        r@ == a@ + b@,
{
    let mut r = String::from_str(a);
    r.append(b);
    r
}

/// Three texts one after the other.
pub fn cat3(a: &str, b: &str, c: &str) -> (r: String)
    ensures
        r@ == a@ + b@ + c@,
{
    let mut r = cat2(a, b);
    r.append(c);
    r
}

/// Four texts one after the other.
pub fn cat4(a: &str, b: &str, c: &str, d: &str) -> (r: String)
    ensures
        r@ == a@ + b@ + c@ + d@,
{
    let mut r = cat3(a, b, c);
    r.append(d);
    r
}

/// Five texts one after the other.
pub fn cat5(a: &str, b: &str, c: &str, d: &str, e: &str) -> (r: String)
    ensures
        r@ == a@ + b@ + c@ + d@ + e@,
{
    let mut r = cat4(a, b, c, d);
    r.append(e);
    r
}

/// Seven texts one after the other.
pub fn cat7(a: &str, b: &str, c: &str, d: &str, e: &str, f: &str, g: &str) -> (r: String)
    ensures
        r@ == a@ + b@ + c@ + d@ + e@ + f@ + g@,
{
    let mut r = cat5(a, b, c, d, e);
    r.append(f);
    r.append(g);
    r
}

/// The ASCII lower case of a character; every other character is kept.
pub open spec fn lower_char(c: char) -> char {
    if 'A' <= c <= 'Z' {
        (c as u32 + 32) as char
    } else {
        c
    }
}

/// A text with its ASCII letters in lower case.
pub open spec fn lowered(s: Seq<char>) -> Seq<char> {
    s.map_values(|c: char| lower_char(c))
}

/// Whether `s` ends in `tail`.
pub open spec fn ends_in(s: Seq<char>, tail: Seq<char>) -> bool {
    tail.len() <= s.len() && s.subrange(s.len() - tail.len(), s.len() as int) == tail
}

/// Whether `s` begins with `head`.
pub open spec fn begins_with(s: Seq<char>, head: Seq<char>) -> bool {
    head.len() <= s.len() && s.subrange(0, head.len() as int) == head
}

/// Whether `part` stands somewhere in `s`.
pub open spec fn holds_text(s: Seq<char>, part: Seq<char>) -> bool {
    exists|i: int|
        0 <= i <= s.len() - part.len() && #[trigger] s.subrange(i, i + part.len()) == part
}

fn lower_code(c: char) -> (r: u32)
    ensures
        r == lower_char(c) as u32,
{
    let k: u32 = c as u32;
    if 65 <= k && k <= 90 {
        k + 32
    } else {
        k
    }
}

/// Whether `s`, with its ASCII letters in lower case, ends in `tail`.
pub fn lower_ends_with(s: &str, tail: &str) -> (r: bool)
    ensures
        r == ends_in(lowered(s@), tail@),
{
    let n: usize = s.unicode_len();
    let m: usize = tail.unicode_len();
    if m > n {
        return false;
    }
    let ghost part = lowered(s@).subrange(n - m, n as int);
    let mut i: usize = 0;
    while i < m
        invariant
            i <= m <= n,
            n == s@.len(),
            m == tail@.len(),
            part == lowered(s@).subrange(n - m, n as int),
            forall|j: int| 0 <= j < i ==> part[j] == tail@[j],
        decreases m - i,
    {
        let a: u32 = lower_code(s.get_char(n - m + i));
        let b: u32 = tail.get_char(i) as u32;
        if a != b {
            assert(part[i as int] != tail@[i as int]);
            return false;
        }
        i += 1;
    }
    assert(part =~= tail@);
    true
}

/// Whether `s`, with its ASCII letters in lower case, is `t`.
pub fn lower_is(s: &str, t: &str) -> (r: bool)
    ensures
        r == (lowered(s@) == t@),
{
    if s.unicode_len() != t.unicode_len() {
        assert(lowered(s@).len() == s@.len());
        return false;
    }
    assert(lowered(s@).subrange(0, s@.len() as int) =~= lowered(s@));
    lower_ends_with(s, t)
}

/// Whether `s` begins with `head`.
pub fn starts_with(s: &str, head: &str) -> (r: bool)
    ensures
        r == begins_with(s@, head@),
{
    let n: usize = s.unicode_len();
    let m: usize = head.unicode_len();
    if m > n {
        return false;
    }
    let ghost part = s@.subrange(0, m as int);
    let mut i: usize = 0;
    while i < m
        invariant
            i <= m <= n,
            n == s@.len(),
            m == head@.len(),
            part == s@.subrange(0, m as int),
            forall|j: int| 0 <= j < i ==> part[j] == head@[j],
        decreases m - i,
    {
        let a: char = s.get_char(i);
        let b: char = head.get_char(i);
        if a != b {
            assert(part[i as int] != head@[i as int]);
            return false;
        }
        i += 1;
    }
    assert(part =~= head@);
    true
}

/// Whether `part`, as it stands, occurs in `s` with its ASCII letters in lower case.
pub fn lower_holds(s: &str, part: &str) -> (r: bool)
    ensures
        r == holds_text(lowered(s@), part@),
{
    let n: usize = s.unicode_len();
    let m: usize = part.unicode_len();
    if m > n {
        return false;
    }
    let ghost low = lowered(s@);
    let mut i: usize = 0;
    while i <= n - m
        invariant
            m <= n,
            i <= n - m + 1,
            n == s@.len(),
            m == part@.len(),
            low == lowered(s@),
            forall|j: int| 0 <= j < i ==> #[trigger] low.subrange(j, j + m) != part@,
        decreases n - m + 1 - i,
    {
        let ghost here = low.subrange(i as int, i + m);
        let mut k: usize = 0;
        while k < m && lower_code(s.get_char(i + k)) == part.get_char(k) as u32
            invariant
                k <= m <= n,
                i <= n - m,
                n == s@.len(),
                m == part@.len(),
                low == lowered(s@),
                here == low.subrange(i as int, i + m),
                forall|j: int| 0 <= j < k ==> here[j] == part@[j],
            ensures
                k <= m,
                k < m ==> here[k as int] != part@[k as int],
                forall|j: int| 0 <= j < k ==> here[j] == part@[j],
            decreases m - k,
        {
            k += 1;
        }
        if k == m {
            assert(here =~= part@);
            return true;
        }
        i += 1;
    }
    assert(low.len() == n);
    false
}

/// Whether `part` occurs in `s`, ASCII letters in either case.
pub fn holds_any_case(s: &str, part: &str) -> (r: bool)
    ensures
        r == holds_text(lowered(s@), lowered(part@)),
{
    let n: usize = s.unicode_len();
    let m: usize = part.unicode_len();
    let ghost low = lowered(s@);
    let ghost want = lowered(part@);
    if m > n {
        assert(want.len() > low.len());
        return false;
    }
    let mut i: usize = 0;
    while i <= n - m
        invariant
            m <= n,
            i <= n - m + 1,
            n == s@.len(),
            m == part@.len(),
            low == lowered(s@),
            want == lowered(part@),
            forall|j: int| 0 <= j < i ==> #[trigger] low.subrange(j, j + m) != want,
        decreases n - m + 1 - i,
    {
        let ghost here = low.subrange(i as int, i + m);
        let mut k: usize = 0;
        while k < m && lower_code(s.get_char(i + k)) == lower_code(part.get_char(k))
            invariant
                k <= m <= n,
                i <= n - m,
                n == s@.len(),
                m == part@.len(),
                low == lowered(s@),
                want == lowered(part@),
                here == low.subrange(i as int, i + m),
                forall|j: int| 0 <= j < k ==> here[j] == want[j],
            ensures
                k <= m,
                k < m ==> here[k as int] != want[k as int],
                forall|j: int| 0 <= j < k ==> here[j] == want[j],
            decreases m - k,
        {
            k += 1;
        }
        if k == m {
            assert(here =~= want);
            return true;
        }
        i += 1;
    }
    assert(low.len() == n);
    assert(want.len() == m);
    false
}

/// The digit that stands for a value below sixteen.
pub open spec fn hex_digit(d: nat) -> Seq<char> {
    if d < 10 {
        dec(d)
    } else if d == 10 {
        "A"@
    } else if d == 11 {
        "B"@
    } else if d == 12 {
        "C"@
    } else if d == 13 {
        "D"@
    } else if d == 14 {
        "E"@
    } else {
        "F"@
    }
}

/// A number in hexadecimal, in capitals and without leading zeros.
pub open spec fn hex(n: nat) -> Seq<char>
    decreases n,
{
    if n < 16 {
        hex_digit(n)
    } else {
        hex(n / 16) + hex_digit(n % 16)
    }
}

fn hex_digit_text(d: u64) -> (r: String)
    requires
        d < 16,
    ensures
        r@ == hex_digit(d as nat),
{
    if d < 10 {
        dec_text(d)
    } else if d == 10 {
        String::from_str("A")
    } else if d == 11 {
        String::from_str("B")
    } else if d == 12 {
        String::from_str("C")
    } else if d == 13 {
        String::from_str("D")
    } else if d == 14 {
        String::from_str("E")
    } else {
        String::from_str("F")
    }
}

/// A number in hexadecimal, in capitals and without leading zeros.
pub fn hex_text(n: u64) -> (r: String)
    ensures
        r@ == hex(n as nat),
    decreases n,
{
    if n < 16 {
        hex_digit_text(n)
    } else {
        let head = hex_text(n / 16);
        let last = hex_digit_text(n % 16);
        cat2(head.as_str(), last.as_str())
    }
}

/// A byte in hexadecimal, in two capitals.
pub open spec fn hex_byte(b: u8) -> Seq<char> {
    hex_digit((b / 16) as nat) + hex_digit((b % 16) as nat)
}

/// A byte in hexadecimal, in two capitals.
pub fn hex_byte_text(b: u8) -> (r: String)
    ensures
        r@ == hex_byte(b),
{
    let hi = hex_digit_text((b / 16) as u64);
    let lo = hex_digit_text((b % 16) as u64);
    cat2(hi.as_str(), lo.as_str())
}

/// The characters that count as white space.
pub open spec fn is_white(c: char) -> bool {
    let k = c as u32;
    9 <= k <= 13 || k == 0x20 || k == 0x85 || k == 0xa0 || k == 0x1680 || 0x2000 <= k <= 0x200a
        || k == 0x2028 || k == 0x2029 || k == 0x202f || k == 0x205f || k == 0x3000
}

fn white(c: char) -> (r: bool)
    ensures
        r == is_white(c),
{
    let k: u32 = c as u32;
    9 <= k && k <= 13 || k == 0x20 || k == 0x85 || k == 0xa0 || k == 0x1680 || 0x2000 <= k && k
        <= 0x200a || k == 0x2028 || k == 0x2029 || k == 0x202f || k == 0x205f || k == 0x3000
}

/// A text without the white space it begins with.
pub open spec fn trim_start(s: Seq<char>) -> Seq<char>
    decreases s.len(),
{
    if s.len() > 0 && is_white(s[0]) {
        trim_start(s.drop_first())
    } else {
        s
    }
}

/// A text without the white space it ends in.
pub open spec fn trim_end(s: Seq<char>) -> Seq<char>
    decreases s.len(),
{
    if s.len() > 0 && is_white(s.last()) {
        trim_end(s.drop_last())
    } else {
        s
    }
}

/// A text without white space at either end.
pub open spec fn trimmed(s: Seq<char>) -> Seq<char> {
    trim_end(trim_start(s))
}

/// Takes the white space off both ends.
pub fn trim(s: &str) -> (r: &str)
    ensures
        r@ == trimmed(s@),
{
    let n: usize = s.unicode_len();
    let mut lo: usize = 0;
    assert(s@.subrange(0, n as int) =~= s@);
    while lo < n && white(s.get_char(lo))
        invariant
            lo <= n,
            n == s@.len(),
            trim_start(s@) == trim_start(s@.subrange(lo as int, n as int)),
        ensures
            lo <= n,
            trim_start(s@) == s@.subrange(lo as int, n as int),
        decreases n - lo,
    {
        assert(s@.subrange(lo as int, n as int).drop_first() =~= s@.subrange(lo + 1, n as int));
        lo += 1;
    }
    let ghost front = s@.subrange(lo as int, n as int);
    let mut hi: usize = n;
    while hi > lo && white(s.get_char(hi - 1))
        invariant
            lo <= hi <= n,
            n == s@.len(),
            trim_end(front) == trim_end(s@.subrange(lo as int, hi as int)),
        ensures
            lo <= hi <= n,
            trim_end(front) == s@.subrange(lo as int, hi as int),
        decreases hi - lo,
    {
        assert(s@.subrange(lo as int, hi as int).drop_last() =~= s@.subrange(lo as int, hi - 1));
        hi -= 1;
    }
    s.substring_char(lo, hi)
}

/// Whether a text is blank: empty once the white space is taken off both ends.
pub open spec fn is_blank(s: Seq<char>) -> bool {
    trimmed(s).len() == 0
}

/// Whether a text is blank.
pub fn blank(s: &str) -> (r: bool)
    ensures
        r == is_blank(s@),
{
    trim(s).unicode_len() == 0
}

/// Whether two texts are the same.
pub fn same(a: &str, b: &str) -> (r: bool)
    ensures
        r == (a@ == b@),
{
    let n: usize = a.unicode_len();
    if n != b.unicode_len() {
        return false;
    }
    let mut i: usize = 0;
    while i < n
        invariant
            i <= n,
            n == a@.len(),
            n == b@.len(),
            forall|j: int| 0 <= j < i ==> a@[j] == b@[j],
        decreases n - i,
    {
        if a.get_char(i) != b.get_char(i) {
            return false;
        }
        i += 1;
    }
    assert(a@ =~= b@);
    true
}

/// The value of a decimal digit.
pub open spec fn digit_of(c: char) -> Option<nat> {
    if '0' <= c <= '9' {
        Some((c as u32 - 48) as nat)
    } else {
        None
    }
}

/// The value of a run of decimal digits; nothing for the empty text or another character.
pub open spec fn digits_value(s: Seq<char>) -> Option<nat>
    decreases s.len(),
{
    if s.len() == 0 {
        None
    } else if s.len() == 1 {
        digit_of(s[0])
    } else {
        match (digits_value(s.drop_last()), digit_of(s.last())) {
            (Some(a), Some(d)) => Some(a * 10 + d),
            _ => None,
        }
    }
}

/// The number that a text writes out, with or without a plus sign, where it is at most `max`.
pub open spec fn unsigned(s: Seq<char>, max: nat) -> Option<nat> {
    let body = if s.len() > 0 && s[0] == '+' {
        s.drop_first()
    } else {
        s
    };
    match digits_value(body) {
        Some(v) => if v <= max {
            Some(v)
        } else {
            None
        },
        None => None,
    }
}

proof fn digits_value_front(s: Seq<char>, n: int)
    requires
        0 < n <= s.len(),
        digits_value(s) is Some,
    ensures
        digits_value(s.subrange(0, n)) is Some,
        digits_value(s.subrange(0, n))->0 <= digits_value(s)->0,
    decreases s.len() - n,
{
    if n == s.len() {
        assert(s.subrange(0, n) =~= s);
    } else {
        digits_value_front(s, n + 1);
        assert(s.subrange(0, n + 1).drop_last() =~= s.subrange(0, n));
    }
}

/// Reads the number that a text writes out.
pub fn parse_unsigned(s: &str, max: u64) -> (r: Option<u64>)
    ensures
        match r {
            Some(v) => unsigned(s@, max as nat) == Some(v as nat),
            None => unsigned(s@, max as nat) is None,
        },
{
    let n: usize = s.unicode_len();
    let start: usize = if n > 0 && s.get_char(0) == '+' {
        1
    } else {
        0
    };
    let ghost body = if s@.len() > 0 && s@[0] == '+' {
        s@.drop_first()
    } else {
        s@
    };
    assert(body =~= s@.subrange(start as int, n as int));
    if start == n {
        return None;
    }
    let mut v: u64 = 0;
    let mut i: usize = start;
    while i < n
        invariant
            start <= i <= n,
            start < n,
            n == s@.len(),
            body == s@.subrange(start as int, n as int),
            unsigned(s@, max as nat) == match digits_value(body) {
                Some(v) => if v <= max {
                    Some(v)
                } else {
                    None
                },
                None => None,
            },
            v <= max,
            i == start ==> v == 0,
            i > start ==> digits_value(body.subrange(0, i - start)) == Some(v as nat),
        decreases n - i,
    {
        let c: char = s.get_char(i);
        let k: u32 = c as u32;
        let ghost front = body.subrange(0, i + 1 - start);
        proof {
            assert(front.last() == c);
            if i > start {
                assert(front.drop_last() =~= body.subrange(0, i - start));
            }
            if digits_value(body) is Some {
                digits_value_front(body, i + 1 - start);
            }
        }
        if k < 48 || k > 57 {
            return None;
        }
        let next: u128 = v as u128 * 10 + (k - 48) as u128;
        assert(digits_value(front) == Some(next as nat));
        if next > max as u128 {
            return None;
        }
        v = next as u64;
        i += 1;
    }
    assert(body.subrange(0, n - start) =~= body);
    Some(v)
}

/// The decimal text of a number reads as that number, and holds digits only.
pub proof fn number_text_reads_back(n: nat)
    ensures
        dec(n).len() >= 1,
        digits_value(dec(n)) == Some(n),
        forall|i: int| 0 <= i < dec(n).len() ==> '0' <= #[trigger] dec(n)[i] <= '9',
        n >= 10 ==> dec(n)[0] != '0',
    decreases n,
{
    if n >= 10 {
        number_text_reads_back(n / 10);
        if n / 10 < 10 {
            assert(dec(n / 10)[0] == digit_char(n / 10));
        }
        assert(dec(n).drop_last() =~= dec(n / 10));
        assert(dec(n)[0] == dec(n / 10)[0]);
    }
}

/// A number that is typed in decimal is taken as it is, as far as it may be that great.
pub proof fn typed_number_is_taken(n: nat, max: nat)
    ensures
        n <= max ==> unsigned(dec(n), max) == Some(n),
        n > max ==> unsigned(dec(n), max) is None,
{
    number_text_reads_back(n);
}

/// Trimming takes white space off both ends, and nothing else: what is left stands in the text as
/// it is, between white space, and neither begins nor ends with any.
pub proof fn trimming_takes_white_space(s: Seq<char>)
    ensures
        exists|a: int, b: int|
            0 <= a <= b <= s.len() && trimmed(s) == #[trigger] s.subrange(a, b) && (forall|i: int|
                0 <= i < a ==> is_white(#[trigger] s[i])) && (forall|i: int|
                b <= i < s.len() ==> is_white(#[trigger] s[i])),
        trimmed(s).len() > 0 ==> !is_white(trimmed(s)[0]) && !is_white(trimmed(s).last()),
        trimmed(s).len() == 0 <==> forall|i: int| 0 <= i < s.len() ==> is_white(#[trigger] s[i]),
{
    let t = trim_start(s);
    let a = start_trimmed(s);
    let n = end_trimmed(t);
    let b = a + n;
    assert(trimmed(s) =~= s.subrange(a, b));
    assert forall|i: int| b <= i < s.len() implies is_white(#[trigger] s[i]) by {
        assert(t[i - a] == s[i]);
    }
    if trimmed(s).len() > 0 {
        assert(trimmed(s)[0] == t[0]);
        assert(trimmed(s)[0] == s[a]);
    } else {
        assert(a == b);
    }
}

proof fn start_trimmed(s: Seq<char>) -> (a: int)
    ensures
        0 <= a <= s.len(),
        trim_start(s) == s.subrange(a, s.len() as int),
        forall|i: int| 0 <= i < a ==> is_white(#[trigger] s[i]),
        a < s.len() ==> !is_white(s[a]),
    decreases s.len(),
{
    if s.len() > 0 && is_white(s[0]) {
        let rest = s.drop_first();
        let a = start_trimmed(rest);
        assert(rest.subrange(a, rest.len() as int) =~= s.subrange(a + 1, s.len() as int));
        assert forall|i: int| 0 <= i < a + 1 implies is_white(#[trigger] s[i]) by {
            if i > 0 {
                assert(rest[i - 1] == s[i]);
            }
        }
        a + 1
    } else {
        assert(s.subrange(0, s.len() as int) =~= s);
        0
    }
}

proof fn end_trimmed(s: Seq<char>) -> (b: int)
    ensures
        0 <= b <= s.len(),
        trim_end(s) == s.subrange(0, b),
        forall|i: int| b <= i < s.len() ==> is_white(#[trigger] s[i]),
        b > 0 ==> !is_white(s[b - 1]),
    decreases s.len(),
{
    if s.len() > 0 && is_white(s.last()) {
        let rest = s.drop_last();
        let b = end_trimmed(rest);
        assert(rest.subrange(0, b) =~= s.subrange(0, b));
        assert forall|i: int| b <= i < s.len() implies is_white(#[trigger] s[i]) by {
            if i < rest.len() {
                assert(rest[i] == s[i]);
            }
        }
        b
    } else {
        assert(s.subrange(0, s.len() as int) =~= s);
        s.len() as int
    }
}

/// Lower case has a small letter for each capital, at its place, and everything else as it was.
pub proof fn lower_case_is_by_letter(s: Seq<char>, i: int)
    requires
        0 <= i < s.len(),
    ensures
        lowered(s).len() == s.len(),
        !('A' <= s[i] <= 'Z') ==> lowered(s)[i] == s[i],
        'A' <= s[i] <= 'Z' ==> 'a' <= lowered(s)[i] <= 'z' && lowered(s)[i] as int - 'a' as int == s[i]
            as int - 'A' as int,
        lowered(lowered(s)) == lowered(s),
{
    assert(lowered(lowered(s)) =~= lowered(s));
}

/// A byte in base sixteen has two digits, and no two bytes have the same.
pub proof fn bytes_have_their_own_digits(a: u8, b: u8)
    ensures
        hex_byte(a).len() == 2,
        hex_byte(a) == hex_byte(b) ==> a == b,
{
    hex_digits_differ((a / 16) as nat, (b / 16) as nat);
    hex_digits_differ((a % 16) as nat, (b % 16) as nat);
    if hex_byte(a) == hex_byte(b) {
        assert(hex_byte(a)[0] == hex_digit((a / 16) as nat)[0]);
        assert(hex_byte(b)[0] == hex_digit((b / 16) as nat)[0]);
        assert(hex_byte(a)[1] == hex_digit((a % 16) as nat)[0]);
        assert(hex_byte(b)[1] == hex_digit((b % 16) as nat)[0]);
    }
}

proof fn hex_digits_differ(d: nat, e: nat)
    requires
        d < 16,
        e < 16,
    ensures
        hex_digit(d).len() == 1,
        hex_digit(e).len() == 1,
        hex_digit(d)[0] == hex_digit(e)[0] ==> d == e,
{
    reveal_strlit("A");
    reveal_strlit("B");
    reveal_strlit("C");
    reveal_strlit("D");
    reveal_strlit("E");
    reveal_strlit("F");
}

} // verus!
