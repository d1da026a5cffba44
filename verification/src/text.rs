//! Text utilities the data-entry engine rests on: whitespace trimming,
//! character-exact string comparison, and decimal parsing and formatting
//! for the numeric fields of a record.

use vstd::prelude::*;
use vstd::string::StrSliceExecFns;
use vstd::string::StringExecFns;

verus! {

/// A character the trimming step strips from either end of a raw answer.
pub open spec fn is_space_char(c: char) -> bool {
    c == ' ' || c == '\t' || c == '\n' || c == '\r'
}

pub open spec fn trim_start_spec(s: Seq<char>) -> Seq<char>
    decreases s.len(),
{
    if s.len() > 0 && is_space_char(s[0]) {
        trim_start_spec(s.drop_first())
    } else {
        s
    }
}

pub open spec fn trim_end_spec(s: Seq<char>) -> Seq<char>
    decreases s.len(),
{
    if s.len() > 0 && is_space_char(s.last()) {
        trim_end_spec(s.drop_last())
    } else {
        s
    }
}

/// `s` with leading and trailing whitespace removed.
pub open spec fn trim_spec(s: Seq<char>) -> Seq<char> {
    trim_end_spec(trim_start_spec(s))
}

proof fn lemma_trim_start_at(s: Seq<char>, i: int)
    requires
        0 <= i <= s.len(),
        forall|k: int| 0 <= k < i ==> is_space_char(s[k]),
        i == s.len() || !is_space_char(s[i]),
    ensures
        trim_start_spec(s) == s.skip(i),
    decreases i,
{
    if i == 0 {
        assert(s.skip(0) =~= s);
    } else {
        lemma_trim_start_at(s.drop_first(), i - 1);
        assert(s.drop_first().skip(i - 1) =~= s.skip(i));
    }
}

proof fn lemma_trim_end_at(s: Seq<char>, j: int)
    requires
        0 <= j <= s.len(),
        forall|k: int| j <= k < s.len() ==> is_space_char(s[k]),
        j == 0 || !is_space_char(s[j - 1]),
    ensures
        trim_end_spec(s) == s.take(j),
    decreases s.len() - j,
{
    if j == s.len() {
        if j == 0 {
            assert(s.take(0) =~= s);
        } else {
            assert(s.take(j) =~= s);
        }
    } else {
        lemma_trim_end_at(s.drop_last(), j);
        assert(s.drop_last().take(j) =~= s.take(j));
    }
}

/// Whether `c` is one of the whitespace characters the engine trims.
pub fn is_space(c: char) -> (r: bool)
    ensures
        r == is_space_char(c),
{
    c == ' ' || c == '\t' || c == '\n' || c == '\r'
}

/// A copy of `s` with leading and trailing whitespace removed.
pub fn trim(s: &str) -> (r: String)
    ensures
        r@ == trim_spec(s@),
{
    let n = s.unicode_len();
    let mut start: usize = 0;
    while start < n && is_space(s.get_char(start))
        invariant
            n == s@.len(),
            start <= n,
            forall|k: int| 0 <= k < start ==> is_space_char(s@[k]),
        decreases n - start,
    {
        start = start + 1;
    }
    let mut end: usize = n;
    while end > start && is_space(s.get_char(end - 1))
        invariant
            n == s@.len(),
            start <= end <= n,
            forall|k: int| end <= k < n ==> is_space_char(s@[k]),
        decreases end,
    {
        end = end - 1;
    }
    proof {
        lemma_trim_start_at(s@, start as int);
        lemma_trim_end_at(s@.skip(start as int), end - start);
        assert(s@.skip(start as int).take(end - start) =~= s@.subrange(
            start as int,
            end as int,
        ));
    }
    s.substring_char(start, end).to_owned()
}

/// Character-for-character equality of two string slices.
pub fn str_eq(a: &str, b: &str) -> (r: bool)
    ensures
        r == (a@ == b@),
{
    let an = a.unicode_len();
    let bn = b.unicode_len();
    if an != bn {
        return false;
    }
    let mut i: usize = 0;
    while i < an
        invariant
            an == a@.len(),
            an == b@.len(),
            i <= an,
            forall|k: int| 0 <= k < i ==> a@[k] == b@[k],
        decreases an - i,
    {
        if a.get_char(i) != b.get_char(i) {
            return false;
        }
        i = i + 1;
    }
    proof {
        assert(a@ =~= b@);
    }
    true
}

/// Whether `c` is a decimal digit.
pub open spec fn is_digit_char(c: char) -> bool {
    48 <= c as int <= 57
}

/// The numeric value of the decimal digit `c`.
pub open spec fn digit_val(c: char) -> int {
    c as int - 48
}

pub open spec fn all_digits(s: Seq<char>) -> bool {
    forall|i: int| 0 <= i < s.len() ==> is_digit_char(s[i])
}

/// The value of a sequence of decimal digits, most significant first.
pub open spec fn dec_val(s: Seq<char>) -> int
    decreases s.len(),
{
    if s.len() == 0 {
        0
    } else {
        dec_val(s.drop_last()) * 10 + digit_val(s.last())
    }
}

proof fn lemma_dec_val_nonneg(s: Seq<char>)
    requires
        all_digits(s),
    ensures
        dec_val(s) >= 0,
    decreases s.len(),
{
    if s.len() > 0 {
        assert(all_digits(s.drop_last())) by {
            assert(forall|i: int|
                0 <= i < s.drop_last().len() ==> is_digit_char(#[trigger] s.drop_last()[i]));
        }
        lemma_dec_val_nonneg(s.drop_last());
    }
}

/// The reason a raw answer fails to parse as an integer.
#[derive(Clone, Copy, Debug, PartialEq, Eq, Structural)]
pub enum NumError {
    Empty,
    InvalidDigit,
    TooLarge,
}

/// The digits of an unsigned number, after an optional leading plus sign.
pub open spec fn strip_plus(s: Seq<char>) -> Seq<char> {
    if s.len() > 0 && s[0] == '+' {
        s.drop_first()
    } else {
        s
    }
}

/// What parsing `s` as a `u32` yields: the number written with an optional
/// leading `+` and decimal digits, or the first applicable failure.
pub open spec fn parse_u32_spec(s: Seq<char>) -> Result<u32, NumError> {
    let d = strip_plus(s);
    if s.len() == 0 {
        Err(NumError::Empty)
    } else if d.len() == 0 || !all_digits(d) {
        Err(NumError::InvalidDigit)
    } else if dec_val(d) > u32::MAX {
        Err(NumError::TooLarge)
    } else {
        Ok(dec_val(d) as u32)
    }
}

/// What parsing `s` as an `i32` yields: an optional sign, then decimal
/// digits, or the first applicable failure.
pub open spec fn parse_i32_spec(s: Seq<char>) -> Result<i32, NumError> {
    if s.len() == 0 {
        Err(NumError::Empty)
    } else if s[0] == '-' {
        let d = s.drop_first();
        if d.len() == 0 || !all_digits(d) {
            Err(NumError::InvalidDigit)
        } else if dec_val(d) > 0x8000_0000 {
            Err(NumError::TooLarge)
        } else {
            Ok((-dec_val(d)) as i32)
        }
    } else {
        let d = strip_plus(s);
        if d.len() == 0 || !all_digits(d) {
            Err(NumError::InvalidDigit)
        } else if dec_val(d) > 0x7FFF_FFFF {
            Err(NumError::TooLarge)
        } else {
            Ok(dec_val(d) as i32)
        }
    }
}

/// Parses the characters of `s` from position `from` on as decimal digits
/// whose value must not exceed `limit`.
fn parse_digits(s: &str, from: usize, limit: u64) -> (r: Result<u64, NumError>)
    requires
        from <= s@.len(),
        limit <= 0xFFFF_FFFFu64,
    ensures
        ({
            let d = s@.skip(from as int);
            if d.len() == 0 || !all_digits(d) {
                r == Err::<u64, NumError>(NumError::InvalidDigit)
            } else if dec_val(d) > limit {
                r == Err::<u64, NumError>(NumError::TooLarge)
            } else {
                r == Ok::<u64, NumError>(dec_val(d) as u64) && 0 <= dec_val(d) <= limit
            }
        }),
{
    let n = s.unicode_len();
    if from == n {
        proof {
            assert(s@.skip(from as int).len() == 0);
        }
        return Err(NumError::InvalidDigit);
    }
    let mut i: usize = from;
    let mut acc: u64 = 0;
    let mut over = false;
    while i < n
        invariant
            n == s@.len(),
            from <= i <= n,
            limit <= 0xFFFF_FFFFu64,
            forall|k: int| from <= k < i ==> is_digit_char(s@[k]),
            over <==> dec_val(s@.subrange(from as int, i as int)) > limit,
            !over ==> acc as int == dec_val(s@.subrange(from as int, i as int)),
            !over ==> acc <= limit,
        decreases n - i,
    {
        let c = s.get_char(i);
        let v = c as u32;
        if v < 48 || v > 57 {
            proof {
                assert(s@.skip(from as int)[i - from] == s@[i as int]);
                assert(!all_digits(s@.skip(from as int)));
            }
            return Err(NumError::InvalidDigit);
        }
        proof {
            let pre = s@.subrange(from as int, i as int);
            let post = s@.subrange(from as int, i + 1);
            assert(post.drop_last() =~= pre);
            assert(post.last() == s@[i as int]);
        }
        let d = (v - 48) as u64;
        if over {
            proof {
                let pre = s@.subrange(from as int, i as int);
                assert(dec_val(pre) * 10 >= (limit + 1) * 10) by (nonlinear_arith)
                    requires
                        dec_val(pre) >= limit + 1,
                ;
            }
        } else {
            let candidate = acc * 10 + d;
            if candidate > limit {
                over = true;
            } else {
                acc = candidate;
            }
        }
        i = i + 1;
    }
    proof {
        assert(s@.subrange(from as int, n as int) =~= s@.skip(from as int));
        assert forall|j: int| 0 <= j < s@.skip(from as int).len() implies is_digit_char(
            #[trigger] s@.skip(from as int)[j],
        ) by {
            assert(s@.skip(from as int)[j] == s@[j + from]);
        }
    }
    if over {
        Err(NumError::TooLarge)
    } else {
        Ok(acc)
    }
}

/// Parses a decimal integer with an optional leading `+`, as a `u32`.
pub fn parse_u32(s: &str) -> (r: Result<u32, NumError>)
    ensures
        r == parse_u32_spec(s@),
{
    let n = s.unicode_len();
    if n == 0 {
        return Err(NumError::Empty);
    }
    let from: usize = if s.get_char(0) == '+' {
        1
    } else {
        0
    };
    proof {
        assert(strip_plus(s@) =~= s@.skip(from as int));
    }
    match parse_digits(s, from, 0xFFFF_FFFFu64) {
        Ok(v) => Ok(v as u32),
        Err(e) => Err(e),
    }
}

/// Parses a decimal integer with an optional leading `+` or `-`, as an `i32`.
pub fn parse_i32(s: &str) -> (r: Result<i32, NumError>)
    ensures
        r == parse_i32_spec(s@),
{
    let n = s.unicode_len();
    if n == 0 {
        return Err(NumError::Empty);
    }
    if s.get_char(0) == '-' {
        proof {
            assert(s@.drop_first() =~= s@.skip(1));
        }
        match parse_digits(s, 1, 0x8000_0000u64) {
            Ok(v) => {
                let m: i64 = -(v as i64);
                Ok(m as i32)
            },
            Err(e) => Err(e),
        }
    } else {
        let from: usize = if s.get_char(0) == '+' {
            1
        } else {
            0
        };
        proof {
            assert(strip_plus(s@) =~= s@.skip(from as int));
        }
        match parse_digits(s, from, 0x7FFF_FFFFu64) {
            Ok(v) => Ok(v as i32),
            Err(e) => Err(e),
        }
    }
}

/// The character for the decimal digit `d`.
pub open spec fn digit_char(d: int) -> char {
    if d == 0 {
        '0'
    } else if d == 1 {
        '1'
    } else if d == 2 {
        '2'
    } else if d == 3 {
        '3'
    } else if d == 4 {
        '4'
    } else if d == 5 {
        '5'
    } else if d == 6 {
        '6'
    } else if d == 7 {
        '7'
    } else if d == 8 {
        '8'
    } else {
        '9'
    }
}

/// The decimal digits of the non-negative number `n`, most significant first.
pub open spec fn dec_digits(n: int) -> Seq<char>
    decreases n,
{
    if n < 10 {
        seq![digit_char(n)]
    } else {
        dec_digits(n / 10).push(digit_char(n % 10))
    }
}

/// Writing a number in decimal and reading the digits back yields the number.
pub proof fn lemma_dec_digits_val(n: int)
    requires
        0 <= n,
    ensures
        all_digits(dec_digits(n)),
        dec_val(dec_digits(n)) == n,
        dec_digits(n).len() >= 1,
        is_digit_char(dec_digits(n)[0]),
    decreases n,
{
    if n < 10 {
        let w = seq![digit_char(n)];
        assert(w.len() == 1);
        assert(w.last() == digit_char(n));
        assert(w.drop_last() =~= Seq::<char>::empty());
        assert(dec_val(w.drop_last()) == 0);
        assert(dec_val(w) == digit_val(digit_char(n)));
    } else {
        lemma_dec_digits_val(n / 10);
        let t = dec_digits(n / 10);
        let w = t.push(digit_char(n % 10));
        assert(w.drop_last() =~= t);
        assert(forall|i: int| 0 <= i < w.len() ==> is_digit_char(#[trigger] w[i]));
    }
}

fn digit_str(d: u64) -> (r: &'static str)
    requires
        d < 10,
    ensures
        r@ == seq![digit_char(d as int)],
{
    if d == 0 {
        proof {
            reveal_strlit("0");
            assert("0"@ =~= seq![digit_char(0int)]);
        }
        "0"
    } else if d == 1 {
        proof {
            reveal_strlit("1");
            assert("1"@ =~= seq![digit_char(1int)]);
        }
        "1"
    } else if d == 2 {
        proof {
            reveal_strlit("2");
            assert("2"@ =~= seq![digit_char(2int)]);
        }
        "2"
    } else if d == 3 {
        proof {
            reveal_strlit("3");
            assert("3"@ =~= seq![digit_char(3int)]);
        }
        "3"
    } else if d == 4 {
        proof {
            reveal_strlit("4");
            assert("4"@ =~= seq![digit_char(4int)]);
        }
        "4"
    } else if d == 5 {
        proof {
            reveal_strlit("5");
            assert("5"@ =~= seq![digit_char(5int)]);
        }
        "5"
    } else if d == 6 {
        proof {
            reveal_strlit("6");
            assert("6"@ =~= seq![digit_char(6int)]);
        }
        "6"
    } else if d == 7 {
        proof {
            reveal_strlit("7");
            assert("7"@ =~= seq![digit_char(7int)]);
        }
        "7"
    } else if d == 8 {
        proof {
            reveal_strlit("8");
            assert("8"@ =~= seq![digit_char(8int)]);
        }
        "8"
    } else {
        proof {
            reveal_strlit("9");
            assert("9"@ =~= seq![digit_char(9int)]);
        }
        "9"
    }
}

/// The decimal rendering of `n`.
pub fn u64_to_string(n: u64) -> (r: String)
    ensures
        r@ == dec_digits(n as int),
    decreases n,
{
    if n < 10 {
        digit_str(n).to_owned()
    } else {
        let mut r = u64_to_string(n / 10);
        r.append(digit_str(n % 10));
        proof {
            assert(r@ =~= dec_digits(n as int));
        }
        r
    }
}

/// The decimal rendering of `n`.
pub fn u32_to_string(n: u32) -> (r: String)
    ensures
        r@ == dec_digits(n as int),
{
    u64_to_string(n as u64)
}

/// The decimal rendering of `n`, with a leading `-` when `n` is negative.
pub open spec fn i32_dec_spec(n: int) -> Seq<char> {
    if n < 0 {
        seq!['-'] + dec_digits(-n)
    } else {
        dec_digits(n)
    }
}

/// The decimal rendering of `n`, with a leading `-` when `n` is negative.
pub fn i32_to_string(n: i32) -> (r: String)
    ensures
        r@ == i32_dec_spec(n as int),
{
    if n >= 0 {
        u64_to_string(n as u64)
    } else {
        let m: i64 = -(n as i64);
        let mut r = "-".to_owned();
        let digits = u64_to_string(m as u64);
        r.append(digits.as_str());
        proof {
            reveal_strlit("-");
            assert("-"@ =~= seq!['-']);
            assert(r@ =~= i32_dec_spec(n as int));
        }
        r
    }
}

/// `n` in decimal, padded with a leading zero to at least two digits.
pub open spec fn pad2_spec(n: int) -> Seq<char> {
    if n < 10 {
        seq!['0'] + dec_digits(n)
    } else {
        dec_digits(n)
    }
}

/// `n` in decimal, padded with a leading zero to at least two digits.
pub fn pad2_u32(n: u32) -> (r: String)
    ensures
        r@ == pad2_spec(n as int),
{
    if n < 10 {
        let mut r = "0".to_owned();
        let digits = u32_to_string(n);
        r.append(digits.as_str());
        proof {
            reveal_strlit("0");
            assert("0"@ =~= seq!['0']);
            assert(r@ =~= pad2_spec(n as int));
        }
        r
    } else {
        u32_to_string(n)
    }
}

/// The message shown for a numeric parse failure.
pub open spec fn num_error_message_spec(e: NumError) -> Seq<char> {
    match e {
        NumError::Empty => "cannot parse integer from empty string"@,
        NumError::InvalidDigit => "invalid digit found in string"@,
        NumError::TooLarge => "number too large to fit in target type"@,
    }
}

impl NumError {
    /// The message shown for this parse failure.
    pub fn message(&self) -> (r: String)
        ensures
            r@ == num_error_message_spec(*self),
    {
        match self {
            NumError::Empty => "cannot parse integer from empty string".to_owned(),
            NumError::InvalidDigit => "invalid digit found in string".to_owned(),
            NumError::TooLarge => "number too large to fit in target type".to_owned(),
        }
    }
}

/// Rendering a `u32` in decimal and parsing it back yields the same number.
pub proof fn lemma_u32_round_trip(n: u32)
    ensures
        parse_u32_spec(dec_digits(n as int)) == Ok::<u32, NumError>(n),
{
    lemma_dec_digits_val(n as int);
    let d = dec_digits(n as int);
    assert(d[0] != '+');
    assert(strip_plus(d) == d);
}

/// Rendering an `i32` in decimal and parsing it back yields the same number.
pub proof fn lemma_i32_round_trip(n: i32)
    ensures
        parse_i32_spec(i32_dec_spec(n as int)) == Ok::<i32, NumError>(n),
{
    if n >= 0 {
        lemma_dec_digits_val(n as int);
        let d = dec_digits(n as int);
        assert(d[0] != '-' && d[0] != '+');
        assert(strip_plus(d) == d);
    } else {
        lemma_dec_digits_val(-n as int);
        let d = dec_digits(-n as int);
        let s = seq!['-'] + d;
        assert(s[0] == '-');
        assert(s.drop_first() =~= d);
    }
}

} // verus!
