//! The textual rules every prompt answer runs through: trimming, default
//! substitution, boolean keywords, and integer parsing.

use vstd::prelude::*;
use vstd::string::StrSliceExecFns;

verus! {

/// The Unicode white-space characters, exactly those that
/// `char::is_whitespace` recognises.
pub open spec fn is_space(c: char) -> bool {
    ||| c as u32 == 0x09
    ||| c as u32 == 0x0A
    ||| c as u32 == 0x0B
    ||| c as u32 == 0x0C
    ||| c as u32 == 0x0D
    ||| c as u32 == 0x20
    ||| c as u32 == 0x85
    ||| c as u32 == 0xA0
    ||| c as u32 == 0x1680
    ||| (0x2000 <= c as u32 && c as u32 <= 0x200A)
    ||| c as u32 == 0x2028
    ||| c as u32 == 0x2029
    ||| c as u32 == 0x202F
    ||| c as u32 == 0x205F
    ||| c as u32 == 0x3000
}

fn is_space_char(c: char) -> (r: bool)
    ensures
        r == is_space(c),
{
    let u = c as u32;
    u == 0x09 || u == 0x0A || u == 0x0B || u == 0x0C || u == 0x0D || u == 0x20 || u == 0x85
        || u == 0xA0 || u == 0x1680 || (0x2000 <= u && u <= 0x200A) || u == 0x2028 || u == 0x2029
        || u == 0x202F || u == 0x205F || u == 0x3000
}

/// The sequence with its leading white space removed.
pub open spec fn trim_front(s: Seq<char>) -> Seq<char>
    decreases s.len(),
{
    if s.len() > 0 && is_space(s[0]) {
        trim_front(s.drop_first())
    } else {
        s
    }
}

/// The sequence with its trailing white space removed.
pub open spec fn trim_back(s: Seq<char>) -> Seq<char>
    decreases s.len(),
{
    if s.len() > 0 && is_space(s[s.len() - 1]) {
        trim_back(s.drop_last())
    } else {
        s
    }
}

/// What trimming an answer leaves: the input without leading and trailing
/// white space.
pub open spec fn trim_seq(s: Seq<char>) -> Seq<char> {
    trim_back(trim_front(s))
}

proof fn lemma_trim_front_subrange(s: Seq<char>, i: int)
    requires
        0 <= i <= s.len(),
        forall|k: int| 0 <= k < i ==> is_space(s[k]),
        i == s.len() || !is_space(s[i]),
    ensures
        trim_front(s) == s.subrange(i, s.len() as int),
    decreases i,
{
    if i == 0 {
        assert(s.subrange(0, s.len() as int) =~= s);
    } else {
        assert(is_space(s[0]));
        lemma_trim_front_subrange(s.drop_first(), i - 1);
        assert(s.drop_first().subrange(i - 1, s.drop_first().len() as int) =~= s.subrange(
            i,
            s.len() as int,
        ));
    }
}

proof fn lemma_trim_back_subrange(s: Seq<char>, j: int)
    requires
        0 <= j <= s.len(),
        forall|k: int| j <= k < s.len() ==> is_space(s[k]),
        j == 0 || !is_space(s[j - 1]),
    ensures
        trim_back(s) == s.subrange(0, j),
    decreases s.len() - j,
{
    if j == s.len() {
        if s.len() > 0 && is_space(s[s.len() - 1]) {
            assert(!is_space(s[j - 1]));
        }
        assert(s.subrange(0, j) =~= s);
    } else {
        assert(is_space(s[s.len() - 1]));
        lemma_trim_back_subrange(s.drop_last(), j);
        assert(s.drop_last().subrange(0, j) =~= s.subrange(0, j));
    }
}

/// `str::trim`, written out: scan past white space from both ends.
pub fn trimmed(s: &str) -> (r: &str)
    ensures
        r@ == trim_seq(s@),
{
    let n = s.unicode_len();
    let mut lo: usize = 0;
    while lo < n && is_space_char(s.get_char(lo))
        invariant
            0 <= lo <= n,
            n == s@.len(),
            forall|k: int| 0 <= k < lo ==> is_space(s@[k]),
        decreases n - lo,
    {
        lo = lo + 1;
    }
    let mut hi: usize = n;
    while hi > lo && is_space_char(s.get_char(hi - 1))
        invariant
            lo <= hi <= n,
            n == s@.len(),
            forall|k: int| hi <= k < n ==> is_space(s@[k]),
        decreases hi,
    {
        hi = hi - 1;
    }
    let r = s.substring_char(lo, hi);
    proof {
        lemma_trim_front_subrange(s@, lo as int);
        let t = s@.subrange(lo as int, n as int);
        assert(forall|k: int|
            hi - lo <= k < t.len() ==> is_space(#[trigger] t[k]) && t[k] == s@[k + lo]);
        lemma_trim_back_subrange(t, hi - lo);
        assert(t.subrange(0, hi - lo) =~= s@.subrange(lo as int, hi as int));
    }
    r
}

/// What a raw answer resolves to: trim it, then substitute the configured
/// default if the trimmed answer is empty.
pub open spec fn resolve_seq(default_value: Option<Seq<char>>, raw: Seq<char>) -> Seq<char> {
    let t = trim_seq(raw);
    if t.len() == 0 && default_value is Some {
        default_value->0
    } else {
        t
    }
}

/// Trim a raw answer and substitute the default for an empty result.
pub fn resolve_input(default_value: &Option<String>, raw: &str) -> (r: String)
    ensures
        r@ == resolve_seq(default_value.deep_view(), raw@),
{
    let t = trimmed(raw);
    if t.is_empty() {
        if let Some(d) = default_value {
            return d.clone();
        }
    }
    t.to_owned()
}

/// Substituting a configured default never triggers rejection logic: an
/// answer whose trimmed form is empty resolves to the default itself.
pub proof fn lemma_default_substitution(default_value: Seq<char>, raw: Seq<char>)
    requires
        trim_seq(raw).len() == 0,
    ensures
        resolve_seq(Some(default_value), raw) == default_value,
{
}

/// Without a configured default, an answer resolves to its trimmed form,
/// which may be empty.
pub proof fn lemma_resolve_without_default(raw: Seq<char>)
    ensures
        resolve_seq(None, raw) == trim_seq(raw),
{
}

/// ASCII lower-casing of one character, as a scalar.
pub open spec fn lower_u32(c: char) -> u32 {
    if 65 <= c as u32 && c as u32 <= 90 {
        (c as u32 + 32) as u32
    } else {
        c as u32
    }
}

/// Case-insensitive equality of two character sequences.
pub open spec fn eq_ignore_case(s: Seq<char>, t: Seq<char>) -> bool {
    s.len() == t.len() && (forall|i: int| 0 <= i < s.len() ==> lower_u32(s[i]) == lower_u32(t[i]))
}

fn lower_char(c: char) -> (r: u32)
    ensures
        r == lower_u32(c),
{
    let u = c as u32;
    if 65 <= u && u <= 90 {
        u + 32
    } else {
        u
    }
}

fn str_eq_ignore_case(s: &str, t: &str) -> (r: bool)
    ensures
        r == eq_ignore_case(s@, t@),
{
    let n = s.unicode_len();
    if n != t.unicode_len() {
        return false;
    }
    let mut i: usize = 0;
    while i < n
        invariant
            0 <= i <= n,
            n == s@.len(),
            n == t@.len(),
            forall|k: int| 0 <= k < i ==> lower_u32(s@[k]) == lower_u32(t@[k]),
        decreases n - i,
    {
        if lower_char(s.get_char(i)) != lower_char(t.get_char(i)) {
            return false;
        }
        i = i + 1;
    }
    true
}

/// The boolean keywords: y/yes/t/true read as true, n/no/f/false read as
/// false, case-insensitively; anything else is not a boolean answer.
pub open spec fn bool_of(s: Seq<char>) -> Option<bool> {
    if eq_ignore_case(s, "y"@) || eq_ignore_case(s, "yes"@) || eq_ignore_case(s, "t"@)
        || eq_ignore_case(s, "true"@) {
        Some(true)
    } else if eq_ignore_case(s, "n"@) || eq_ignore_case(s, "no"@) || eq_ignore_case(s, "f"@)
        || eq_ignore_case(s, "false"@) {
        Some(false)
    } else {
        None
    }
}

/// Read an answer as a boolean, or report that it is not one.
pub fn classify_bool(s: &str) -> (r: Option<bool>)
    ensures
        r == bool_of(s@),
{
    if str_eq_ignore_case(s, "y") || str_eq_ignore_case(s, "yes") || str_eq_ignore_case(s, "t")
        || str_eq_ignore_case(s, "true") {
        Some(true)
    } else if str_eq_ignore_case(s, "n") || str_eq_ignore_case(s, "no") || str_eq_ignore_case(
        s,
        "f",
    ) || str_eq_ignore_case(s, "false") {
        Some(false)
    } else {
        None
    }
}

/// An answer reads as true exactly when it is one of the true keywords, and
/// as false exactly when it is one of the false keywords and none of the
/// true ones; every other answer is rejected.
pub proof fn lemma_bool_keywords(s: Seq<char>)
    ensures
        bool_of(s) == Some(true) <==> (eq_ignore_case(s, "y"@) || eq_ignore_case(s, "yes"@)
            || eq_ignore_case(s, "t"@) || eq_ignore_case(s, "true"@)),
        bool_of(s) == Some(false) <==> ((eq_ignore_case(s, "n"@) || eq_ignore_case(s, "no"@)
            || eq_ignore_case(s, "f"@) || eq_ignore_case(s, "false"@)) && !(eq_ignore_case(s, "y"@)
            || eq_ignore_case(s, "yes"@) || eq_ignore_case(s, "t"@) || eq_ignore_case(s, "true"@))),
        bool_of(s) is None <==> !(eq_ignore_case(s, "y"@) || eq_ignore_case(s, "yes"@)
            || eq_ignore_case(s, "t"@) || eq_ignore_case(s, "true"@) || eq_ignore_case(s, "n"@)
            || eq_ignore_case(s, "no"@) || eq_ignore_case(s, "f"@) || eq_ignore_case(s, "false"@)),
{
}

/// An ASCII decimal digit.
pub open spec fn is_digit(c: char) -> bool {
    48 <= c as u32 && c as u32 <= 57
}

/// The value of one digit character.
pub open spec fn digit_val(c: char) -> int {
    c as u32 - 48
}

/// At least one character, all of them digits.
pub open spec fn all_digits(s: Seq<char>) -> bool {
    s.len() > 0 && (forall|i: int| 0 <= i < s.len() ==> is_digit(s[i]))
}

/// The number a digit string stands for, most significant digit first.
pub open spec fn digits_val(s: Seq<char>) -> int
    decreases s.len(),
{
    if s.len() == 0 {
        0
    } else {
        digits_val(s.drop_last()) * 10 + digit_val(s.last())
    }
}

/// What `i64::from_str` accepts and returns: an optional sign, then one or
/// more ASCII digits, rejected when the value falls outside the type.
pub open spec fn parse_i64_seq(s: Seq<char>) -> Option<i64> {
    let neg = s.len() > 0 && s[0] == '-';
    let ds = if s.len() > 0 && (s[0] == '+' || s[0] == '-') {
        s.drop_first()
    } else {
        s
    };
    if !all_digits(ds) {
        None
    } else {
        let v = if neg {
            -digits_val(ds)
        } else {
            digits_val(ds)
        };
        if i64::MIN <= v <= i64::MAX {
            Some(v as i64)
        } else {
            None
        }
    }
}

proof fn lemma_digits_val_nonneg(s: Seq<char>)
    requires
        forall|i: int| 0 <= i < s.len() ==> is_digit(s[i]),
    ensures
        digits_val(s) >= 0,
    decreases s.len(),
{
    if s.len() > 0 {
        lemma_digits_val_nonneg(s.drop_last());
    }
}

proof fn lemma_digits_val_prefix(s: Seq<char>, m: int)
    requires
        0 <= m <= s.len(),
        forall|i: int| 0 <= i < s.len() ==> is_digit(s[i]),
    ensures
        digits_val(s.subrange(0, m)) <= digits_val(s),
    decreases s.len() - m,
{
    if m == s.len() {
        assert(s.subrange(0, m) =~= s);
    } else {
        assert(s.drop_last() =~= s.subrange(0, s.len() - 1));
        lemma_digits_val_prefix(s.subrange(0, s.len() - 1), m);
        assert(s.subrange(0, s.len() - 1).subrange(0, m) =~= s.subrange(0, m));
        lemma_digits_val_nonneg(s.subrange(0, s.len() - 1));
    }
}

/// `i64::from_str`, written out: sign, digits, and an overflow check.
pub fn parse_i64(s: &str) -> (r: Option<i64>)
    ensures
        r == parse_i64_seq(s@),
{
    let n = s.unicode_len();
    if n == 0 {
        return None;
    }
    let first = s.get_char(0);
    let neg = first == '-';
    let start: usize = if first == '-' || first == '+' {
        1
    } else {
        0
    };
    if start == n {
        return None;
    }
    let limit: u128 = if neg {
        9223372036854775808
    } else {
        9223372036854775807
    };
    let ghost ds = if start == 1 {
        s@.drop_first()
    } else {
        s@
    };
    proof {
        assert(forall|k: int| 0 <= k < ds.len() ==> ds[k] == s@[k + start]);
    }
    let mut acc: u128 = 0;
    let mut i: usize = start;
    while i < n
        invariant
            start <= i <= n,
            n == s@.len(),
            n > 0,
            start == 0 || start == 1,
            neg == (s@[0] == '-'),
            (start == 1) == (s@[0] == '+' || s@[0] == '-'),
            start == 1 ==> ds == s@.drop_first(),
            start == 0 ==> ds == s@,
            ds.len() == n - start,
            forall|k: int| 0 <= k < ds.len() ==> ds[k] == s@[k + start],
            forall|k: int| start <= k < i ==> is_digit(s@[k]),
            acc == digits_val(ds.subrange(0, i - start)),
            acc <= limit,
            limit == (if neg {
                9223372036854775808u128
            } else {
                9223372036854775807u128
            }),
        decreases n - i,
    {
        let c = s.get_char(i);
        let u = c as u32;
        if !(48 <= u && u <= 57) {
            proof {
                assert(!is_digit(ds[i - start]));
            }
            return None;
        }
        let next: u128 = acc * 10 + (u - 48) as u128;
        proof {
            assert(ds.subrange(0, i + 1 - start).drop_last() =~= ds.subrange(0, i - start));
            assert(ds.subrange(0, i + 1 - start).last() == s@[i as int]);
        }
        if next > limit {
            proof {
                if all_digits(ds) {
                    lemma_digits_val_prefix(ds, i + 1 - start);
                    lemma_digits_val_nonneg(ds);
                }
            }
            return None;
        }
        acc = next;
        i = i + 1;
    }
    proof {
        assert(ds.subrange(0, (n - start) as int) =~= ds);
        assert(all_digits(ds));
    }
    if neg {
        if acc == 9223372036854775808 {
            Some(i64::MIN)
        } else {
            Some(-(acc as i64))
        }
    } else {
        Some(acc as i64)
    }
}

/// What `u64::from_str` accepts and returns: an optional plus sign, then
/// one or more ASCII digits, rejected when the value falls outside the
/// type. A minus sign is not part of the unsigned grammar.
pub open spec fn parse_u64_seq(s: Seq<char>) -> Option<u64> {
    let ds = if s.len() > 0 && s[0] == '+' {
        s.drop_first()
    } else {
        s
    };
    if !all_digits(ds) {
        None
    } else if digits_val(ds) <= u64::MAX {
        Some(digits_val(ds) as u64)
    } else {
        None
    }
}

/// `u64::from_str`, written out: an optional plus sign, digits, and an
/// overflow check.
pub fn parse_u64(s: &str) -> (r: Option<u64>)
    ensures
        r == parse_u64_seq(s@),
{
    let n = s.unicode_len();
    if n == 0 {
        return None;
    }
    let first = s.get_char(0);
    let start: usize = if first == '+' {
        1
    } else {
        0
    };
    if start == n {
        return None;
    }
    let ghost ds = if start == 1 {
        s@.drop_first()
    } else {
        s@
    };
    proof {
        assert(forall|k: int| 0 <= k < ds.len() ==> ds[k] == s@[k + start]);
    }
    let mut acc: u128 = 0;
    let mut i: usize = start;
    while i < n
        invariant
            start <= i <= n,
            n == s@.len(),
            n > 0,
            start == 0 || start == 1,
            (start == 1) == (s@[0] == '+'),
            start == 1 ==> ds == s@.drop_first(),
            start == 0 ==> ds == s@,
            ds.len() == n - start,
            forall|k: int| 0 <= k < ds.len() ==> ds[k] == s@[k + start],
            forall|k: int| start <= k < i ==> is_digit(s@[k]),
            acc == digits_val(ds.subrange(0, i - start)),
            acc <= u64::MAX,
        decreases n - i,
    {
        let c = s.get_char(i);
        let u = c as u32;
        if !(48 <= u && u <= 57) {
            proof {
                assert(!is_digit(ds[i - start]));
            }
            return None;
        }
        let next: u128 = acc * 10 + (u - 48) as u128;
        proof {
            assert(ds.subrange(0, i + 1 - start).drop_last() =~= ds.subrange(0, i - start));
            assert(ds.subrange(0, i + 1 - start).last() == s@[i as int]);
        }
        if next > u64::MAX as u128 {
            proof {
                if all_digits(ds) {
                    lemma_digits_val_prefix(ds, i + 1 - start);
                    lemma_digits_val_nonneg(ds);
                }
            }
            return None;
        }
        acc = next;
        i = i + 1;
    }
    proof {
        assert(ds.subrange(0, (n - start) as int) =~= ds);
        assert(all_digits(ds));
    }
    Some(acc as u64)
}

/// `i32::from_str`: the same grammar as the 64-bit parse, held to the
/// type's own range.
pub open spec fn parse_i32_seq(s: Seq<char>) -> Option<i32> {
    match parse_i64_seq(s) {
        Some(v) => if i32::MIN <= v <= i32::MAX {
            Some(v as i32)
        } else {
            None
        },
        None => None,
    }
}

/// Parse a 32-bit signed answer.
pub fn parse_i32(s: &str) -> (r: Option<i32>)
    ensures
        r == parse_i32_seq(s@),
{
    match parse_i64(s) {
        Some(v) => {
            if i32::MIN as i64 <= v && v <= i32::MAX as i64 {
                Some(v as i32)
            } else {
                None
            }
        },
        None => None,
    }
}

/// `u32::from_str`: the unsigned grammar, held to the type's own range.
pub open spec fn parse_u32_seq(s: Seq<char>) -> Option<u32> {
    match parse_u64_seq(s) {
        Some(v) => if v <= u32::MAX {
            Some(v as u32)
        } else {
            None
        },
        None => None,
    }
}

/// Parse a 32-bit unsigned answer.
pub fn parse_u32(s: &str) -> (r: Option<u32>)
    ensures
        r == parse_u32_seq(s@),
{
    match parse_u64(s) {
        Some(v) => {
            if v <= u32::MAX as u64 {
                Some(v as u32)
            } else {
                None
            }
        },
        None => None,
    }
}

/// `usize::from_str`: the unsigned grammar, held to the machine's own
/// range.
pub open spec fn parse_usize_seq(s: Seq<char>) -> Option<usize> {
    match parse_u64_seq(s) {
        Some(v) => if v <= usize::MAX {
            Some(v as usize)
        } else {
            None
        },
        None => None,
    }
}

/// Parse an answer as a machine-sized index.
pub fn parse_usize(s: &str) -> (r: Option<usize>)
    ensures
        r == parse_usize_seq(s@),
{
    match parse_u64(s) {
        Some(v) => {
            if v <= usize::MAX as u64 {
                Some(v as usize)
            } else {
                None
            }
        },
        None => None,
    }
}

/// A type a prompt can parse an answer into. The parse rule is the type's
/// own; implementations must prove that the executable parser matches it.
pub trait Answer: Sized {
    /// The type's textual-parse rule.
    spec fn parse_spec(s: Seq<char>) -> Option<Self>;

    /// Parse an answer, or report that it is not one of this type.
    fn parse_answer(s: &str) -> (r: Option<Self>)
        ensures
            r == Self::parse_spec(s@),
    ;
}

impl Answer for i64 {
    open spec fn parse_spec(s: Seq<char>) -> Option<i64> {
        parse_i64_seq(s)
    }

    fn parse_answer(s: &str) -> (r: Option<i64>) {
        parse_i64(s)
    }
}

impl Answer for u64 {
    open spec fn parse_spec(s: Seq<char>) -> Option<u64> {
        parse_u64_seq(s)
    }

    fn parse_answer(s: &str) -> (r: Option<u64>) {
        parse_u64(s)
    }
}

impl Answer for i32 {
    open spec fn parse_spec(s: Seq<char>) -> Option<i32> {
        parse_i32_seq(s)
    }

    fn parse_answer(s: &str) -> (r: Option<i32>) {
        parse_i32(s)
    }
}

impl Answer for u32 {
    open spec fn parse_spec(s: Seq<char>) -> Option<u32> {
        parse_u32_seq(s)
    }

    fn parse_answer(s: &str) -> (r: Option<u32>) {
        parse_u32(s)
    }
}

impl Answer for usize {
    open spec fn parse_spec(s: Seq<char>) -> Option<usize> {
        parse_usize_seq(s)
    }

    fn parse_answer(s: &str) -> (r: Option<usize>) {
        parse_usize(s)
    }
}

} // verus!
