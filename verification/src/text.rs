//! Text building blocks: the character-level operations from which rows,
//! status lines and paths are assembled.

use vstd::prelude::*;
use vstd::string::*;

verus! {

/// `n` copies of `c`.
pub open spec fn repeated(c: char, n: nat) -> Seq<char> {
    Seq::new(n, |i: int| c)
}

/// `s` left-aligned in a field of `width` characters: spaces are added on the
/// right until the text is `width` characters long; longer text is kept whole.
pub open spec fn padded(s: Seq<char>, width: nat) -> Seq<char> {
    if s.len() >= width {
        s
    } else {
        s + repeated(' ', (width - s.len()) as nat)
    }
}

/// The decimal digit for `d`, `0 <= d <= 9`.
pub open spec fn digit(d: nat) -> char {
    if d == 0 {
        '0'
    } else if d == 1 {
        '1'
    } else if d == 2 {
        '2'
    } else if d == 3 {
        '3'
    } else if d == 4 {
        '4'
    } else if d == 5 {
        '5'
    } else if d == 6 {
        '6'
    } else if d == 7 {
        '7'
    } else if d == 8 {
        '8'
    } else {
        '9'
    }
}

/// Decimal notation of `n`, without leading zeros.
pub open spec fn decimal(n: nat) -> Seq<char>
    decreases n,
{
    if n < 10 {
        seq![digit(n)]
    } else {
        decimal(n / 10).push(digit(n % 10))
    }
}

/// Decimal notation of a signed number: a minus sign before the digits of a
/// negative one.
pub open spec fn signed_decimal(n: int) -> Seq<char> {
    if n < 0 {
        seq!['-'] + decimal((-n) as nat)
    } else {
        decimal(n as nat)
    }
}

/// Number of bytes that `s` takes in UTF-8, as `str::len` reports it.
pub open spec fn byte_len(s: Seq<char>) -> usize {
    vstd::utf8::encode_utf8(s).len() as usize
}

/// The greatest byte length among `names`, and at least `floor`: the width
/// of a column that holds them.
pub open spec fn widest(names: Seq<Seq<char>>, floor: usize) -> usize
    decreases names.len(),
{
    if names.len() == 0 {
        floor
    } else {
        let w = widest(names.drop_last(), floor);
        if byte_len(names.last()) > w {
            byte_len(names.last())
        } else {
            w
        }
    }
}

/// Position of the first `c` in `s`, or `s.len()` where there is none.
pub open spec fn find_first(s: Seq<char>, c: char) -> int
    decreases s.len(),
{
    if s.len() == 0 {
        0
    } else if s[0] == c {
        0
    } else {
        1 + find_first(s.drop_first(), c)
    }
}

/// Position just behind the last `c` in `s`, or 0 where there is none.
pub open spec fn after_last(s: Seq<char>, c: char) -> int
    decreases s.len(),
{
    if s.len() == 0 {
        0
    } else if s.last() == c {
        s.len() as int
    } else {
        after_last(s.drop_last(), c)
    }
}

/// What stands behind the last `c` of `s`; all of `s` where it holds no `c`.
pub open spec fn last_segment(s: Seq<char>, c: char) -> Seq<char> {
    s.skip(after_last(s, c))
}

/// `name` as seen from `prefix`: without that prefix where `prefix` is not
/// empty and `name` starts with it, and unchanged otherwise.
pub open spec fn relative_to(name: Seq<char>, prefix: Seq<char>) -> Seq<char> {
    if prefix.len() > 0 && prefix.is_prefix_of(name) {
        name.skip(prefix.len() as int)
    } else {
        name
    }
}

/// The `parts` in a row, with `sep` between each two of them.
pub open spec fn joined(parts: Seq<Seq<char>>, sep: Seq<char>) -> Seq<char>
    decreases parts.len(),
{
    if parts.len() == 0 {
        Seq::empty()
    } else if parts.len() == 1 {
        parts[0]
    } else {
        joined(parts.drop_last(), sep) + sep + parts.last()
    }
}

/// White space as Unicode defines it (the property `White_Space`).
pub open spec fn is_space(c: char) -> bool {
    let u = c as u32;
    ||| 0x09 <= u <= 0x0D
    ||| u == 0x20
    ||| u == 0x85
    ||| u == 0xA0
    ||| u == 0x1680
    ||| 0x2000 <= u <= 0x200A
    ||| u == 0x2028
    ||| u == 0x2029
    ||| u == 0x202F
    ||| u == 0x205F
    ||| u == 0x3000
}

/// Number of characters at the start of `s` that are white space (`space`
/// true) or are not (`space` false).
pub open spec fn run_length(s: Seq<char>, space: bool) -> int
    decreases s.len(),
{
    if s.len() == 0 || is_space(s[0]) != space {
        0
    } else {
        1 + run_length(s.drop_first(), space)
    }
}

/// The first word of `s`: what stands between the white space at its start
/// and the next white space. A text without a word is its own first word.
pub open spec fn first_word(s: Seq<char>) -> Seq<char> {
    let start = run_length(s, true);
    if start >= s.len() {
        s
    } else {
        s.subrange(start, start + run_length(s.skip(start), false))
    }
}

/// `find_first` returns the least position that holds `c`.
pub proof fn lemma_find_first(s: Seq<char>, c: char)
    ensures
        0 <= find_first(s, c) <= s.len(),
        find_first(s, c) < s.len() ==> s[find_first(s, c)] == c,
        forall|j: int| 0 <= j < find_first(s, c) ==> s[j] != c,
    decreases s.len(),
{
    if s.len() > 0 && s[0] != c {
        let t = s.drop_first();
        lemma_find_first(t, c);
        assert forall|j: int| 0 <= j < find_first(s, c) implies s[j] != c by {
            if j > 0 {
                assert(s[j] == t[j - 1]);
            }
        }
        if find_first(s, c) < s.len() {
            assert(s[find_first(s, c)] == t[find_first(t, c)]);
        }
    }
}

/// A position that holds `c` with none before it is the one `find_first` names.
pub proof fn lemma_find_first_unique(s: Seq<char>, c: char, i: int)
    requires
        0 <= i <= s.len(),
        i < s.len() ==> s[i] == c,
        forall|j: int| 0 <= j < i ==> s[j] != c,
    ensures
        find_first(s, c) == i,
{
    lemma_find_first(s, c);
    let f = find_first(s, c);
    if f < i {
        assert(s[f] != c);
    } else if i < f {
        assert(s[i] != c);
    }
}

/// `after_last` returns the position behind the greatest one that holds `c`.
pub proof fn lemma_after_last(s: Seq<char>, c: char)
    ensures
        0 <= after_last(s, c) <= s.len(),
        after_last(s, c) > 0 ==> s[after_last(s, c) - 1] == c,
        forall|j: int| after_last(s, c) <= j < s.len() ==> s[j] != c,
    decreases s.len(),
{
    if s.len() > 0 && s.last() != c {
        let t = s.drop_last();
        lemma_after_last(t, c);
        assert forall|j: int| after_last(s, c) <= j < s.len() implies s[j] != c by {
            if j < s.len() - 1 {
                assert(s[j] == t[j]);
            }
        }
        if after_last(s, c) > 0 {
            assert(s[after_last(s, c) - 1] == t[after_last(t, c) - 1]);
        }
    }
}

/// A position behind a `c` with none after it is the one `after_last` names.
pub proof fn lemma_after_last_unique(s: Seq<char>, c: char, i: int)
    requires
        0 <= i <= s.len(),
        i > 0 ==> s[i - 1] == c,
        forall|j: int| i <= j < s.len() ==> s[j] != c,
    ensures
        after_last(s, c) == i,
{
    lemma_after_last(s, c);
    let f = after_last(s, c);
    if f < i {
        assert(s[i - 1] != c);
    } else if i < f {
        assert(s[f - 1] != c);
    }
}

/// Appends `c` to `s` with `String::push` of the standard library. Trusted:
/// the text is afterwards the text before with `c` as one more character at
/// its end.
#[verifier::external_body]
pub(crate) fn push_char(s: &mut String, c: char)
    ensures
        final(s)@ == old(s)@.push(c),
{
    s.push(c)
}

/// The characters of `s`, one by one.
pub fn to_chars(s: &str) -> (v: Vec<char>)
    ensures
        v@ == s@,
{
    let mut v: Vec<char> = Vec::new();
    for c in it: s.chars()
        invariant
            it.seq() == s@,
            v@ == it.seq().take(it.index() as int),
    {
        v.push(c);
    }
    v
}

/// The text made of `v[from..to]`.
pub fn from_chars(v: &Vec<char>, from: usize, to: usize) -> (s: String)
    requires
        from <= to <= v.len(),
    ensures
        s@ == v@.subrange(from as int, to as int),
{
    let mut s = String::new();
    let mut i: usize = from;
    while i < to
        invariant
            from <= i <= to <= v.len(),
            s@ == v@.subrange(from as int, i as int),
        decreases to - i,
    {
        push_char(&mut s, v[i]);
        i += 1;
        assert(v@.subrange(from as int, i as int) == v@.subrange(from as int, i - 1).push(
            v@[i - 1],
        ));
    }
    s
}

/// The column width `w` widened to hold `name` too.
pub fn widen(w: usize, name: &str) -> (r: usize)
    ensures
        r == (if byte_len(name@) > w {
            byte_len(name@)
        } else {
            w
        }),
{
    let n = name.len();
    if n > w {
        n
    } else {
        w
    }
}

/// Whether `c` is white space.
pub fn is_whitespace(c: char) -> (b: bool)
    ensures
        b == is_space(c),
{
    let u = c as u32;
    (0x09 <= u && u <= 0x0D) || u == 0x20 || u == 0x85 || u == 0xA0 || u == 0x1680 || (0x2000
        <= u && u <= 0x200A) || u == 0x2028 || u == 0x2029 || u == 0x202F || u == 0x205F || u
        == 0x3000
}

/// Length of the run of white space (`space` true) or of other characters
/// (`space` false) that starts at `from`.
fn run_from(v: &Vec<char>, from: usize, space: bool) -> (n: usize)
    requires
        from <= v.len(),
    ensures
        from + n <= v.len(),
        n == run_length(v@.skip(from as int), space),
{
    let mut i: usize = from;
    while i < v.len() && is_whitespace(v[i]) == space
        invariant
            from <= i <= v.len(),
            run_length(v@.skip(from as int), space) == (i - from) + run_length(
                v@.skip(i as int),
                space,
            ),
        decreases v.len() - i,
    {
        assert(v@.skip(i as int).drop_first() =~= v@.skip(i + 1));
        i += 1;
    }
    i - from
}

/// The first word of `s`.
pub fn first_word_of(s: &str) -> (w: String)
    ensures
        w@ == first_word(s@),
{
    let v = to_chars(s);
    let start = run_from(&v, 0, true);
    assert(v@.skip(0) =~= v@);
    if start >= v.len() {
        from_chars(&v, 0, v.len())
    } else {
        let n = run_from(&v, start, false);
        from_chars(&v, start, start + n)
    }
}

/// What stands behind the last `c` of `s`.
pub fn last_segment_of(s: &str, c: char) -> (r: String)
    ensures
        r@ == last_segment(s@, c),
{
    let v = to_chars(s);
    let mut i: usize = v.len();
    while i > 0 && v[i - 1] != c
        invariant
            i <= v.len(),
            forall|j: int| i <= j < v.len() ==> v@[j] != c,
        decreases i,
    {
        i -= 1;
    }
    proof {
        lemma_after_last_unique(v@, c, i as int);
    }
    from_chars(&v, i, v.len())
}

/// Whether `name` starts with `prefix`.
fn starts_with(name: &Vec<char>, prefix: &Vec<char>) -> (b: bool)
    ensures
        b == prefix@.is_prefix_of(name@),
{
    if prefix.len() > name.len() {
        return false;
    }
    let mut i: usize = 0;
    while i < prefix.len()
        invariant
            i <= prefix.len() <= name.len(),
            forall|j: int| 0 <= j < i ==> prefix@[j] == name@[j],
        decreases prefix.len() - i,
    {
        if prefix[i] != name[i] {
            assert(prefix@ != name@.subrange(0, prefix@.len() as int)) by {
                if prefix@ == name@.subrange(0, prefix@.len() as int) {
                    assert(name@.subrange(0, prefix@.len() as int)[i as int] == name@[i as int]);
                }
            }
            return false;
        }
        i += 1;
    }
    assert(prefix@ =~= name@.subrange(0, prefix@.len() as int));
    true
}

/// `name` as seen from `prefix`.
pub fn relative_name(name: &str, prefix: &str) -> (r: String)
    ensures
        r@ == relative_to(name@, prefix@),
{
    let n = to_chars(name);
    let p = to_chars(prefix);
    if p.len() > 0 && starts_with(&n, &p) {
        from_chars(&n, p.len(), n.len())
    } else {
        from_chars(&n, 0, n.len())
    }
}

/// The `parts` in a row, with `sep` between each two of them.
pub fn join(parts: &Vec<String>, sep: &str) -> (s: String)
    ensures
        s@ == joined(parts.deep_view(), sep@),
{
    let ghost texts = parts.deep_view();
    let mut s = String::new();
    let mut i: usize = 0;
    while i < parts.len()
        invariant
            i <= parts.len(),
            texts == parts.deep_view(),
            s@ == joined(texts.take(i as int), sep@),
        decreases parts.len() - i,
    {
        if i > 0 {
            s.append(sep);
        }
        s.append(parts[i].as_str());
        i += 1;
        proof {
            let upto = texts.take(i as int);
            assert(upto.drop_last() =~= texts.take(i - 1));
            assert(upto.last() == parts[i - 1]@);
            if i == 1 {
                assert(s@ =~= upto[0]);
            }
        }
    }
    assert(texts.take(i as int) =~= texts);
    s
}

/// Whether `a` and `b` are the same text.
pub fn same_text(a: &str, b: &str) -> (e: bool)
    ensures
        e == (a@ == b@),
{
    let x = to_chars(a);
    let y = to_chars(b);
    if x.len() != y.len() {
        return false;
    }
    let e = starts_with(&x, &y);
    assert(x@.subrange(0, y@.len() as int) =~= x@);
    e
}

/// `a` followed by `b`.
pub fn concat(a: &str, b: &str) -> (s: String)
    ensures
        s@ == a@ + b@,
{
    let mut s = String::from_str(a);
    s.append(b);
    s
}

/// `a`, `b` and `c` in a row.
pub fn concat3(a: &str, b: &str, c: &str) -> (s: String)
    ensures
        s@ == a@ + b@ + c@,
{
    let mut s = String::from_str(a);
    s.append(b);
    s.append(c);
    s
}

/// `n` copies of `c` as a text.
pub fn repeat_char(c: char, n: usize) -> (s: String)
    ensures
        s@ == repeated(c, n as nat),
{
    let mut s = String::new();
    let mut i: usize = 0;
    while i < n
        invariant
            i <= n,
            s@ == repeated(c, i as nat),
        decreases n - i,
    {
        push_char(&mut s, c);
        i += 1;
        assert(s@ =~= repeated(c, i as nat));
    }
    assert(s@ =~= repeated(c, n as nat));
    s
}

/// `s` left-aligned in a field of `width` characters.
pub fn pad_right(s: &str, width: usize) -> (r: String)
    ensures
        r@ == padded(s@, width as nat),
{
    let n = s.unicode_len();
    let mut r = String::from_str(s);
    if n < width {
        let fill = repeat_char(' ', width - n);
        r.append(fill.as_str());
    }
    r
}

/// Appends `b`, left-aligned in a field of `width` characters, to `a`.
pub fn append_padded(a: &mut String, b: &str, width: usize)
    ensures
        final(a)@ == old(a)@ + padded(b@, width as nat),
{
    let p = pad_right(b, width);
    a.append(p.as_str());
}

fn push_decimal(out: &mut String, n: u64)
    ensures
        final(out)@ == old(out)@ + decimal(n as nat),
    decreases n,
{
    if n >= 10 {
        push_decimal(out, n / 10);
    }
    let d: u64 = n % 10;
    let c: char = if d == 0 {
        '0'
    } else if d == 1 {
        '1'
    } else if d == 2 {
        '2'
    } else if d == 3 {
        '3'
    } else if d == 4 {
        '4'
    } else if d == 5 {
        '5'
    } else if d == 6 {
        '6'
    } else if d == 7 {
        '7'
    } else if d == 8 {
        '8'
    } else {
        '9'
    };
    push_char(out, c);
    assert(final(out)@ =~= old(out)@ + decimal(n as nat));
}

/// Decimal notation of `n`.
pub fn decimal_string(n: u64) -> (s: String)
    ensures
        s@ == decimal(n as nat),
{
    let mut s = String::new();
    push_decimal(&mut s, n);
    assert(s@ =~= decimal(n as nat));
    s
}

/// Decimal notation of a count.
pub fn count_string(n: usize) -> (s: String)
    ensures
        s@ == decimal(n as nat),
{
    decimal_string(n as u64)
}

/// Decimal notation of a signed number.
pub fn signed_decimal_string(n: i64) -> (s: String)
    ensures
        s@ == signed_decimal(n as int),
{
    if n < 0 {
        let m: u64 = if n == i64::MIN {
            9223372036854775808u64
        } else {
            (-n) as u64
        };
        let mut s = String::from_str("-");
        proof {
            reveal_strlit("-");
        }
        push_decimal(&mut s, m);
        assert(s@ =~= signed_decimal(n as int));
        s
    } else {
        decimal_string(n as u64)
    }
}

} // verus!
