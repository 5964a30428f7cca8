//! Small operations on text: comparing, trimming, parsing a count, joining paths.
use vstd::prelude::*;

verus! {

/// Whether `c` has the Unicode property White_Space, as `char::is_whitespace` decides:
/// tab, line feed, vertical tab, form feed, carriage return, space, next line,
/// no-break space, Ogham space mark, the spaces U+2000 to U+200A, line separator,
/// paragraph separator, narrow no-break space, medium mathematical space and
/// ideographic space.
pub open spec fn is_white_space(c: char) -> bool {
    let n = c as u32;
    ||| 0x09 <= n <= 0x0D
    ||| n == 0x20
    ||| n == 0x85
    ||| n == 0xA0
    ||| n == 0x1680
    ||| 0x2000 <= n <= 0x200A
    ||| n == 0x2028
    ||| n == 0x2029
    ||| n == 0x202F
    ||| n == 0x205F
    ||| n == 0x3000
}

/// `s` without its leading white space.
pub open spec fn without_leading_white_space(s: Seq<char>) -> Seq<char>
    decreases s.len(),
{
    if s.len() > 0 && is_white_space(s[0]) {
        without_leading_white_space(s.drop_first())
    } else {
        s
    }
}

/// `s` without its trailing white space.
pub open spec fn without_trailing_white_space(s: Seq<char>) -> Seq<char>
    decreases s.len(),
{
    if s.len() > 0 && is_white_space(s.last()) {
        without_trailing_white_space(s.drop_last())
    } else {
        s
    }
}

/// What `str::trim` returns for a string with characters `s`: `s` without its leading
/// and trailing white space.
pub open spec fn trimmed(s: Seq<char>) -> Seq<char> {
    without_trailing_white_space(without_leading_white_space(s))
}

/// Calls `str::trim`. The contract claims what its documentation says: the result is
/// the argument without leading and trailing characters with the Unicode property
/// White_Space (`trimmed`), a slice of it.
#[verifier::external_body]
pub(crate) fn trim(s: &str) -> (t: &str)
    ensures
        t@ == trimmed(s@),
{
    s.trim()
}

/// Whether `c` is one of the ASCII digits `0` to `9`.
pub open spec fn is_digit(c: char) -> bool {
    '0' <= c && c <= '9'
}

/// The value of the digit `c`.
pub open spec fn digit_value(c: char) -> nat {
    (c as nat - '0' as nat) as nat
}

/// The number that the decimal digits `ds` write, most significant first.
pub open spec fn digits_value(ds: Seq<char>) -> nat
    decreases ds.len(),
{
    if ds.len() == 0 {
        0
    } else {
        digits_value(ds.drop_last()) * 10 + digit_value(ds.last())
    }
}

/// Whether every character of `ds` is a digit.
pub open spec fn all_digits(ds: Seq<char>) -> bool {
    forall|i: int| 0 <= i < ds.len() ==> is_digit(#[trigger] ds[i])
}

/// The digits of a decimal number written with an optional leading `+`.
pub open spec fn unsigned_digits(s: Seq<char>) -> Seq<char> {
    if s.len() > 0 && s[0] == '+' {
        s.drop_first()
    } else {
        s
    }
}

/// What `s.parse::<usize>()` yields, as its documentation states it: an optional `+`
/// followed by one or more digits only, whose value fits in a `usize`; anything else,
/// white space included, is an error.
pub open spec fn parsed_usize(s: Seq<char>) -> Option<usize> {
    let ds = unsigned_digits(s);
    if ds.len() > 0 && all_digits(ds) && digits_value(ds) <= usize::MAX {
        Some(digits_value(ds) as usize)
    } else {
        None
    }
}

proof fn lemma_digits_value_grows(ds: Seq<char>, i: int)
    requires
        0 <= i <= ds.len(),
    ensures
        digits_value(ds.take(i)) <= digits_value(ds),
    decreases ds.len() - i,
{
    if i < ds.len() {
        lemma_digits_value_grows(ds, i + 1);
        let t = ds.take(i + 1);
        assert(t.drop_last() =~= ds.take(i));
    } else {
        assert(ds.take(i) =~= ds);
    }
}

/// The number that `s` writes in decimal, as `s.parse::<usize>()` reads it: see
/// `parsed_usize`.
pub fn parse_usize(s: &str) -> (n: Option<usize>)
    ensures
        n == parsed_usize(s@),
{
    let len = s.unicode_len();
    let start: usize = if len > 0 && s.get_char(0) == '+' { 1 } else { 0 };
    let ghost ds = unsigned_digits(s@);
    assert(ds =~= s@.subrange(start as int, len as int));
    if start == len {
        return None;
    }
    let mut value: usize = 0;
    let mut i: usize = start;
    while i < len
        invariant
            start <= i <= len,
            len == s@.len(),
            ds =~= s@.subrange(start as int, len as int),
            ds == unsigned_digits(s@),
            forall|k: int| 0 <= k < i - start ==> is_digit(#[trigger] ds[k]),
            value == digits_value(ds.take(i - start)),
        decreases len - i,
    {
        let c = s.get_char(i);
        if !('0' <= c && c <= '9') {
            proof {
                let k = i - start;
                assert(ds[k] == s@[i as int]);
                assert(!is_digit(ds[k]));
                assert(!all_digits(ds));
            }
            return None;
        }
        let digit = (c as u32 - '0' as u32) as usize;
        assert(ds.take(i - start + 1).drop_last() =~= ds.take(i - start));
        proof {
            lemma_digits_value_grows(ds, i - start + 1);
        }
        let times_ten = match value.checked_mul(10) {
            Some(v) => v,
            None => {
                return None;
            },
        };
        value = match times_ten.checked_add(digit) {
            Some(v) => v,
            None => {
                return None;
            },
        };
        i = i + 1;
    }
    assert(ds.take(len - start) =~= ds);
    Some(value)
}

/// Whether two strings hold the same characters.
pub fn same_text(a: &str, b: &str) -> (eq: bool)
    ensures
        eq == (a@ == b@),
{
    let n = a.unicode_len();
    if n != b.unicode_len() {
        return false;
    }
    let mut i: usize = 0;
    while i < n
        invariant
            n == a@.len(),
            n == b@.len(),
            i <= n,
            forall|k: int| 0 <= k < i ==> a@[k] == b@[k],
        decreases n - i,
    {
        if a.get_char(i) != b.get_char(i) {
            return false;
        }
        i = i + 1;
    }
    assert(a@ =~= b@);
    true
}

/// `s` without every trailing `c`, as `str::trim_end_matches(c)` gives it.
pub open spec fn without_trailing(s: Seq<char>, c: char) -> Seq<char>
    decreases s.len(),
{
    if s.len() > 0 && s.last() == c {
        without_trailing(s.drop_last(), c)
    } else {
        s
    }
}

/// The characters of `s` without every trailing `c`.
pub fn trim_end_char(s: &str, c: char) -> (t: String)
    ensures
        t@ == without_trailing(s@, c),
{
    let n = s.unicode_len();
    let mut end: usize = n;
    assert(s@.subrange(0, n as int) =~= s@);
    while end > 0 && s.get_char(end - 1) == c
        invariant
            n == s@.len(),
            end <= n,
            without_trailing(s@.subrange(0, end as int), c) == without_trailing(s@, c),
        decreases end,
    {
        assert(s@.subrange(0, end as int).drop_last() =~= s@.subrange(0, end - 1));
        end = end - 1;
    }
    assert(s@.subrange(0, n as int) =~= s@);
    String::from_str(s.substring_char(0, end))
}

/// `prefix` without trailing slashes, a slash, and then `file_name`.
pub open spec fn joined(prefix: Seq<char>, file_name: Seq<char>) -> Seq<char> {
    without_trailing(prefix, '/') + seq!['/'] + file_name
}

/// Joins `file_name` onto the directory or URI `prefix`, with exactly the slash
/// between them: trailing slashes of `prefix` collapse into it.
pub fn join(prefix: &str, file_name: &str) -> (path: String)
    ensures
        path@ == joined(prefix@, file_name@),
{
    let mut path = trim_end_char(prefix, '/');
    path.append("/");
    path.append(file_name);
    proof {
        reveal_strlit("/");
    }
    path
}

/// Trailing slashes of a prefix do not matter when joining: one more slash at its end
/// gives the same path.
pub proof fn law_join_ignores_trailing_slashes(prefix: Seq<char>, file_name: Seq<char>)
    ensures
        joined(prefix.push('/'), file_name) == joined(prefix, file_name),
{
    assert(prefix.push('/').drop_last() =~= prefix);
}

/// Reading a decimal count: nothing, a lone `+`, or a leading non-digit is no count; a
/// digit reads as its value, with or without a leading `+`; and one more digit after a
/// count `n` reads as `10 * n` plus that digit, as long as the result fits a `usize`.
pub proof fn law_parsed_usize_reads_decimal(s: Seq<char>, c: char, n: usize)
    ensures
        parsed_usize(Seq::<char>::empty()) is None,
        parsed_usize(seq!['+']) is None,
        (!is_digit(c) && c != '+') ==> parsed_usize(seq![c] + s) is None,
        is_digit(c) ==> parsed_usize(seq![c]) == Some(digit_value(c) as usize),
        is_digit(c) ==> parsed_usize(seq!['+', c]) == Some(digit_value(c) as usize),
        (parsed_usize(s) == Some(n) && is_digit(c) && n * 10 + digit_value(c) <= usize::MAX)
            ==> parsed_usize(s.push(c)) == Some((n * 10 + digit_value(c)) as usize),
{
    let one = seq![c];
    assert(one.drop_last() =~= Seq::<char>::empty());
    if is_digit(c) {
        assert(digits_value(one) == digit_value(c));
        assert(c as nat <= '9' as nat);
        assert(digit_value(c) <= 9);
        assert(all_digits(one));
    }
    assert(unsigned_digits(seq!['+', c]) =~= one);
    let t = seq![c] + s;
    if !is_digit(c) && c != '+' {
        assert(unsigned_digits(t) == t);
        assert(t[0] == c);
        assert(!all_digits(t));
    }
    if parsed_usize(s) == Some(n) && is_digit(c) {
        let ds = unsigned_digits(s);
        assert(s.len() > 0);
        assert(unsigned_digits(s.push(c)) =~= ds.push(c));
        assert(ds.push(c).drop_last() =~= ds);
        assert(all_digits(ds.push(c))) by {
            assert forall|k: int| 0 <= k < ds.push(c).len() implies is_digit(#[trigger] ds.push(c)[k]) by {
                if k < ds.len() {
                    assert(ds.push(c)[k] == ds[k]);
                }
            }
        }
    }
}

} // verus!
