//! Text helpers over `Seq<char>`: whitespace, trimming, prefixes and suffixes,
//! joining, and decimal numerals.

use vstd::prelude::*;

verus! {

broadcast use vstd::string::group_string_axioms;

/// Whether `c` has the Unicode `White_Space` property.
pub open spec fn is_whitespace(c: char) -> bool {
    let n = c as u32;
    ||| 0x09 <= n <= 0x0d
    ||| n == 0x20
    ||| n == 0x85
    ||| n == 0xa0
    ||| n == 0x1680
    ||| 0x2000 <= n <= 0x200a
    ||| n == 0x2028
    ||| n == 0x2029
    ||| n == 0x202f
    ||| n == 0x205f
    ||| n == 0x3000
}

/// `s` without its leading whitespace.
pub open spec fn trim_start(s: Seq<char>) -> Seq<char>
    decreases s.len(),
{
    if s.len() > 0 && is_whitespace(s.first()) {
        trim_start(s.drop_first())
    } else {
        s
    }
}

/// `s` without its trailing whitespace.
pub open spec fn trim_end(s: Seq<char>) -> Seq<char>
    decreases s.len(),
{
    if s.len() > 0 && is_whitespace(s.last()) {
        trim_end(s.drop_last())
    } else {
        s
    }
}

/// `s` without leading and trailing whitespace.
pub open spec fn trim(s: Seq<char>) -> Seq<char> {
    trim_end(trim_start(s))
}

/// `s` without the leading `prefix`, or `s` itself when it does not start with it.
pub open spec fn without_prefix(s: Seq<char>, prefix: Seq<char>) -> Seq<char> {
    if prefix.is_prefix_of(s) {
        s.skip(prefix.len() as int)
    } else {
        s
    }
}

/// `s` without the trailing `suffix`, or `s` itself when it does not end with it.
pub open spec fn without_suffix(s: Seq<char>, suffix: Seq<char>) -> Seq<char> {
    if suffix.is_suffix_of(s) {
        s.take(s.len() - suffix.len())
    } else {
        s
    }
}

/// The parts in order, with `separator` between each two neighbours.
pub open spec fn join(parts: Seq<Seq<char>>, separator: Seq<char>) -> Seq<char>
    decreases parts.len(),
{
    if parts.len() == 0 {
        Seq::empty()
    } else if parts.len() == 1 {
        parts[0]
    } else {
        join(parts.drop_last(), separator) + separator + parts.last()
    }
}

/// The numeral of a single digit.
pub open spec fn digit(d: int) -> Seq<char>
    recommends
        0 <= d <= 9,
{
    if d == 0 {
        "0"@
    } else if d == 1 {
        "1"@
    } else if d == 2 {
        "2"@
    } else if d == 3 {
        "3"@
    } else if d == 4 {
        "4"@
    } else if d == 5 {
        "5"@
    } else if d == 6 {
        "6"@
    } else if d == 7 {
        "7"@
    } else if d == 8 {
        "8"@
    } else {
        "9"@
    }
}

/// The decimal numeral of a natural number, without leading zeros.
pub open spec fn natural(n: nat) -> Seq<char>
    decreases n,
{
    if n < 10 {
        digit(n as int)
    } else {
        natural(n / 10) + digit((n % 10) as int)
    }
}

/// The decimal numeral of an integer: a minus sign before a negative one.
pub open spec fn decimal(n: int) -> Seq<char> {
    if n < 0 {
        "-"@ + natural((-n) as nat)
    } else {
        natural(n as nat)
    }
}

/// Whether `s` is empty or begins with a character that is no whitespace.
pub open spec fn starts_solid(s: Seq<char>) -> bool {
    s.len() == 0 || !is_whitespace(s.first())
}

/// Whether `s` is empty or ends with a character that is no whitespace.
pub open spec fn ends_solid(s: Seq<char>) -> bool {
    s.len() == 0 || !is_whitespace(s.last())
}

/// What `trim_start` leaves is the end of `s`, and it begins with no whitespace.
pub proof fn lemma_trim_start(s: Seq<char>)
    ensures
        starts_solid(trim_start(s)),
        trim_start(s).len() <= s.len(),
        trim_start(s) == s.skip(s.len() - trim_start(s).len()),
        starts_solid(s) ==> trim_start(s) == s,
    decreases s.len(),
{
    if s.len() > 0 && is_whitespace(s.first()) {
        lemma_trim_start(s.drop_first());
    }
}

/// What `trim_end` leaves is the beginning of `s`, and it ends with no whitespace.
pub proof fn lemma_trim_end(s: Seq<char>)
    ensures
        ends_solid(trim_end(s)),
        trim_end(s).len() <= s.len(),
        trim_end(s) == s.take(trim_end(s).len() as int),
        ends_solid(s) ==> trim_end(s) == s,
    decreases s.len(),
{
    if s.len() > 0 && is_whitespace(s.last()) {
        lemma_trim_end(s.drop_last());
    }
}

/// Leading whitespace is trimmed through `x` into `y` where `x` is nothing
/// but whitespace, and within `x` otherwise.
pub proof fn lemma_trim_start_concat(x: Seq<char>, y: Seq<char>)
    ensures
        trim_start(x + y) == if trim_start(x).len() == 0 {
            trim_start(y)
        } else {
            trim_start(x) + y
        },
    decreases x.len(),
{
    if x.len() > 0 && is_whitespace(x.first()) {
        assert((x + y).drop_first() =~= x.drop_first() + y);
        lemma_trim_start_concat(x.drop_first(), y);
    }
}

/// Trailing whitespace is trimmed through `y` into `x` where `y` is nothing
/// but whitespace, and within `y` otherwise.
pub proof fn lemma_trim_end_concat(x: Seq<char>, y: Seq<char>)
    ensures
        trim_end(x + y) == if trim_end(y).len() == 0 {
            trim_end(x)
        } else {
            x + trim_end(y)
        },
    decreases y.len(),
{
    if y.len() > 0 && is_whitespace(y.last()) {
        assert((x + y).drop_last() =~= x + y.drop_last());
        lemma_trim_end_concat(x, y.drop_last());
    }
}

/// A trimmed text has no whitespace at either end, and trimming it again changes nothing.
pub proof fn lemma_trim(s: Seq<char>)
    ensures
        starts_solid(trim(s)),
        ends_solid(trim(s)),
        trim(trim(s)) == trim(s),
        starts_solid(s) && ends_solid(s) ==> trim(s) == s,
{
    lemma_trim_start(s);
    lemma_trim_end(trim_start(s));
}

/// Executable test for [`is_whitespace`].
pub fn whitespace(c: char) -> (r: bool)
    ensures
        r == is_whitespace(c),
{
    let n: u32 = c as u32;
    (0x09 <= n && n <= 0x0d) || n == 0x20 || n == 0x85 || n == 0xa0 || n == 0x1680 || (0x2000 <= n
        && n <= 0x200a) || n == 0x2028 || n == 0x2029 || n == 0x202f || n == 0x205f || n == 0x3000
}

/// The characters of `s`, in order.
pub fn chars_of(s: &str) -> (v: Vec<char>)
    ensures
        v@ == s@,
{
    let mut v: Vec<char> = Vec::new();
    for c in it: s.chars()
        invariant
            it.seq() == s@,
            v@.len() == it.index(),
            forall|i: int| 0 <= i < v@.len() ==> v@[i] == it.seq()[i],
    {
        v.push(c);
    }
    v
}

/// First position in `from..to` that holds no whitespace, or `to`.
pub(crate) fn skip_whitespace(chars: &Vec<char>, from: usize, to: usize) -> (at: usize)
    requires
        from <= to <= chars@.len(),
    ensures
        from <= at <= to,
        chars@.subrange(at as int, to as int) == trim_start(
            chars@.subrange(from as int, to as int),
        ),
{
    let mut at: usize = from;
    while at < to && whitespace(chars[at])
        invariant
            from <= at <= to <= chars@.len(),
            trim_start(chars@.subrange(at as int, to as int)) == trim_start(
                chars@.subrange(from as int, to as int),
            ),
        decreases to - at,
    {
        assert(chars@.subrange(at as int, to as int).drop_first() =~= chars@.subrange(
            at + 1,
            to as int,
        ));
        at = at + 1;
    }
    at
}

/// End of the part of `from..to` that is left when trailing whitespace goes.
pub(crate) fn skip_whitespace_back(chars: &Vec<char>, from: usize, to: usize) -> (end: usize)
    requires
        from <= to <= chars@.len(),
    ensures
        from <= end <= to,
        chars@.subrange(from as int, end as int) == trim_end(
            chars@.subrange(from as int, to as int),
        ),
{
    let mut end: usize = to;
    while from < end && whitespace(chars[end - 1])
        invariant
            from <= end <= to <= chars@.len(),
            trim_end(chars@.subrange(from as int, end as int)) == trim_end(
                chars@.subrange(from as int, to as int),
            ),
        decreases end - from,
    {
        assert(chars@.subrange(from as int, end as int).drop_last() =~= chars@.subrange(
            from as int,
            end - 1,
        ));
        end = end - 1;
    }
    end
}

/// Whether the part `from..to` of `chars` starts with `pattern`.
pub(crate) fn starts_with(
    chars: &Vec<char>,
    from: usize,
    to: usize,
    pattern: &Vec<char>,
) -> (r: bool)
    requires
        from <= to <= chars@.len(),
    ensures
        r == pattern@.is_prefix_of(chars@.subrange(from as int, to as int)),
{
    if pattern.len() > to - from {
        return false;
    }
    let ghost part = chars@.subrange(from as int, to as int);
    let mut i: usize = 0;
    while i < pattern.len()
        invariant
            from <= to <= chars@.len(),
            pattern@.len() <= to - from,
            part == chars@.subrange(from as int, to as int),
            0 <= i <= pattern@.len(),
            forall|j: int| 0 <= j < i ==> pattern@[j] == part[j],
        decreases pattern@.len() - i,
    {
        if pattern[i] != chars[from + i] {
            return false;
        }
        i = i + 1;
    }
    true
}

/// Whether the part `from..to` of `chars` ends with `pattern`.
pub(crate) fn ends_with(
    chars: &Vec<char>,
    from: usize,
    to: usize,
    pattern: &Vec<char>,
) -> (r: bool)
    requires
        from <= to <= chars@.len(),
    ensures
        r == pattern@.is_suffix_of(chars@.subrange(from as int, to as int)),
{
    if pattern.len() > to - from {
        return false;
    }
    let ghost part = chars@.subrange(from as int, to as int);
    let start: usize = to - pattern.len();
    let ghost tail = part.subrange(part.len() - pattern@.len(), part.len() as int);
    let mut i: usize = 0;
    while i < pattern.len()
        invariant
            from <= start <= to <= chars@.len(),
            start + pattern@.len() == to,
            part == chars@.subrange(from as int, to as int),
            tail == part.subrange(part.len() - pattern@.len(), part.len() as int),
            0 <= i <= pattern@.len(),
            forall|j: int| 0 <= j < i ==> pattern@[j] == tail[j],
        decreases pattern@.len() - i,
    {
        if pattern[i] != chars[start + i] {
            return false;
        }
        i = i + 1;
    }
    true
}

/// The numeral of the digit `d`.
pub(crate) fn digit_text(d: u64) -> (r: &'static str)
    requires
        d <= 9,
    ensures
        r@ == digit(d as int),
{
    if d == 0 {
        "0"
    } else if d == 1 {
        "1"
    } else if d == 2 {
        "2"
    } else if d == 3 {
        "3"
    } else if d == 4 {
        "4"
    } else if d == 5 {
        "5"
    } else if d == 6 {
        "6"
    } else if d == 7 {
        "7"
    } else if d == 8 {
        "8"
    } else {
        "9"
    }
}

/// The decimal numeral of `n`.
pub fn natural_text(n: u64) -> (r: String)
    ensures
        r@ == natural(n as nat),
    decreases n,
{
    if n < 10 {
        digit_text(n).to_string()
    } else {
        let mut r = natural_text(n / 10);
        r.append(digit_text(n % 10));
        r
    }
}

/// The decimal numeral of `n`, as `i64`'s own formatting writes it.
pub fn decimal_text(n: i64) -> (r: String)
    ensures
        r@ == decimal(n as int),
{
    if n < 0 {
        let magnitude: u64 = if n == i64::MIN {
            9223372036854775808u64
        } else {
            (-n) as u64
        };
        let mut r = "-".to_string();
        r.append(natural_text(magnitude).as_str());
        r
    } else {
        natural_text(n as u64)
    }
}

/// The strings in order, with `separator` between each two neighbours.
pub fn join_text(parts: &Vec<String>, separator: &str) -> (r: String)
    ensures
        r@ == join(parts.deep_view(), separator@),
{
    let mut r = String::new();
    let mut i: usize = 0;
    while i < parts.len()
        invariant
            0 <= i <= parts@.len(),
            r@ == join(parts.deep_view().take(i as int), separator@),
        decreases parts@.len() - i,
    {
        assert(parts.deep_view().take(i + 1).drop_last() =~= parts.deep_view().take(i as int));
        if i > 0 {
            r.append(separator);
        }
        r.append(parts[i].as_str());
        i = i + 1;
    }
    assert(parts.deep_view().take(parts@.len() as int) =~= parts.deep_view());
    r
}

} // verus!
