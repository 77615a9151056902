//! Character classes and string building blocks, stated over `Seq<char>`.
use vstd::prelude::*;
use vstd::string::*;

verus! {

broadcast use vstd::seq_lib::group_seq_properties;

// ---------------------------------------------------------------------------
// Character classes
// ---------------------------------------------------------------------------
/// `'0'..='9'`.
pub open spec fn is_ascii_digit(c: char) -> bool {
    '0' <= c && c <= '9'
}

/// ASCII punctuation: `!"#$%&'()*+,-./`, `:;<=>?@`, `` [\]^_` ``, `{|}~`.
pub open spec fn is_ascii_punctuation(c: char) -> bool {
    ('!' <= c && c <= '/') || (':' <= c && c <= '@') || ('[' <= c && c <= '`') || ('{' <= c
        && c <= '~')
}

/// The characters with the Unicode `White_Space` property.
pub open spec fn is_whitespace(c: char) -> bool {
    let u = c as u32;
    (0x09 <= u && u <= 0x0d) || u == 0x20 || u == 0x85 || u == 0xa0 || u == 0x1680 || (0x2000 <= u
        && u <= 0x200a) || u == 0x2028 || u == 0x2029 || u == 0x202f || u == 0x205f || u == 0x3000
}

pub fn char_is_ascii_digit(c: char) -> (b: bool)
    ensures
        b == is_ascii_digit(c),
{
    '0' <= c && c <= '9'
}

pub fn char_is_ascii_punctuation(c: char) -> (b: bool)
    ensures
        b == is_ascii_punctuation(c),
{
    ('!' <= c && c <= '/') || (':' <= c && c <= '@') || ('[' <= c && c <= '`') || ('{' <= c && c
        <= '~')
}

pub fn char_is_whitespace(c: char) -> (b: bool)
    ensures
        b == is_whitespace(c),
{
    let u = c as u32;
    (0x09 <= u && u <= 0x0d) || u == 0x20 || u == 0x85 || u == 0xa0 || u == 0x1680 || (0x2000 <= u
        && u <= 0x200a) || u == 0x2028 || u == 0x2029 || u == 0x202f || u == 0x205f || u == 0x3000
}

// ---------------------------------------------------------------------------
// Converting between `str`/`String` and sequences of characters
// ---------------------------------------------------------------------------
/// The characters of `s`, in order.
pub fn str_chars(s: &str) -> (v: Vec<char>)
    ensures
        v@ == s@,
{
    let mut v: Vec<char> = Vec::new();
    for c in it: s.chars()
        invariant
            it.seq() == s@,
            v@ == it.seq().take(it.index() as int),
    {
        v.push(c);
    }
    v
}

/// `String::push`, which appends one character at the end of the string.
#[verifier::external_body]
pub fn push_char(s: &mut String, c: char)
    ensures
        final(s)@ == old(s)@.push(c),
{
    s.push(c);
}

/// The string made of `v[lo..hi]`.
pub fn string_from_range(v: &Vec<char>, lo: usize, hi: usize) -> (s: String)
    requires
        lo <= hi <= v.len(),
    ensures
        s@ == v@.subrange(lo as int, hi as int),
{
    let mut s = String::new();
    let mut i = lo;
    while i < hi
        invariant
            lo <= i <= hi <= v.len(),
            s@ == v@.subrange(lo as int, i as int),
        decreases hi - i,
    {
        push_char(&mut s, v[i]);
        i += 1;
        assert(s@ =~= v@.subrange(lo as int, i as int));
    }
    s
}

/// The string made of all of `v`.
pub fn string_from_chars(v: &Vec<char>) -> (s: String)
    ensures
        s@ == v@,
{
    let s = string_from_range(v, 0, v.len());
    assert(v@.subrange(0, v@.len() as int) =~= v@);
    s
}

/// A fresh copy of a string.
pub fn copy_string(s: &String) -> (r: String)
    ensures
        r@ == s@,
{
    s.as_str().to_owned()
}

/// A fresh copy of an optional string.
pub fn copy_opt_string(s: &Option<String>) -> (r: Option<String>)
    ensures
        opt_view(r) == opt_view(*s),
{
    match s {
        Some(t) => Some(copy_string(t)),
        None => None,
    }
}

/// The characters of an optional string.
pub open spec fn opt_view(s: Option<String>) -> Option<Seq<char>> {
    match s {
        Some(t) => Some(t@),
        None => None,
    }
}

/// `a` followed by `b`.
pub fn concat2(a: &str, b: &str) -> (s: String)
    ensures
        s@ == a@ + b@,
{
    let mut s = a.to_owned();
    s.append(b);
    s
}

/// `a`, `b` and `c`, one after the other.
pub fn concat3(a: &str, b: &str, c: &str) -> (s: String)
    ensures
        s@ == a@ + b@ + c@,
{
    let mut s = a.to_owned();
    s.append(b);
    s.append(c);
    s
}

/// Whether `a` and `b` hold the same characters.
pub fn str_eq(a: &str, b: &str) -> (r: bool)
    ensures
        r == (a@ == b@),
{
    let x = str_chars(a);
    let y = str_chars(b);
    if x.len() != y.len() {
        return false;
    }
    let mut i: usize = 0;
    while i < x.len()
        invariant
            x@ == a@,
            y@ == b@,
            x@.len() == y@.len(),
            i <= x.len(),
            forall|k: int| 0 <= k < i ==> x@[k] == y@[k],
        decreases x.len() - i,
    {
        if x[i] != y[i] {
            assert(x@[i as int] != y@[i as int]);
            return false;
        }
        i += 1;
    }
    assert(x@ =~= y@);
    true
}

/// The strings of a sequence, each by its characters.
pub open spec fn strs_view(v: Seq<String>) -> Seq<Seq<char>> {
    v.map_values(|s: String| s@)
}

/// A list of two strings.
pub fn args2(a: String, b: String) -> (v: Vec<String>)
    ensures
        strs_view(v@) == seq![a@, b@],
{
    let v = vec![a, b];
    assert(strs_view(v@) =~= seq![a@, b@]);
    v
}

/// A list of three strings.
pub fn args3(a: String, b: String, c: String) -> (v: Vec<String>)
    ensures
        strs_view(v@) == seq![a@, b@, c@],
{
    let v = vec![a, b, c];
    assert(strs_view(v@) =~= seq![a@, b@, c@]);
    v
}

/// A list of four strings.
pub fn args4(a: String, b: String, c: String, d: String) -> (v: Vec<String>)
    ensures
        strs_view(v@) == seq![a@, b@, c@, d@],
{
    let v = vec![a, b, c, d];
    assert(strs_view(v@) =~= seq![a@, b@, c@, d@]);
    v
}

/// A list of five strings.
pub fn args5(a: String, b: String, c: String, d: String, e: String) -> (v: Vec<String>)
    ensures
        strs_view(v@) == seq![a@, b@, c@, d@, e@],
{
    let v = vec![a, b, c, d, e];
    assert(strs_view(v@) =~= seq![a@, b@, c@, d@, e@]);
    v
}

/// A list of six strings.
pub fn args6(a: String, b: String, c: String, d: String, e: String, f: String) -> (v: Vec<String>)
    ensures
        strs_view(v@) == seq![a@, b@, c@, d@, e@, f@],
{
    let v = vec![a, b, c, d, e, f];
    assert(strs_view(v@) =~= seq![a@, b@, c@, d@, e@, f@]);
    v
}

/// A list of seven strings.
pub fn args7(a: String, b: String, c: String, d: String, e: String, f: String, g: String) -> (v:
    Vec<String>)
    ensures
        strs_view(v@) == seq![a@, b@, c@, d@, e@, f@, g@],
{
    let v = vec![a, b, c, d, e, f, g];
    assert(strs_view(v@) =~= seq![a@, b@, c@, d@, e@, f@, g@]);
    v
}

// ---------------------------------------------------------------------------
// Filtering
// ---------------------------------------------------------------------------
/// The characters of `s` that are ASCII digits.
pub open spec fn digits_of(s: Seq<char>) -> Seq<char> {
    s.filter(|c: char| is_ascii_digit(c))
}

/// `s` without the characters that are whitespace or ASCII punctuation.
pub open spec fn nick_chars_of(s: Seq<char>) -> Seq<char> {
    s.filter(|c: char| !is_whitespace(c) && !is_ascii_punctuation(c))
}

/// `s` without its whitespace characters.
pub open spec fn without_whitespace(s: Seq<char>) -> Seq<char> {
    s.filter(|c: char| !is_whitespace(c))
}

pub proof fn lemma_filter_step<A>(s: Seq<A>, i: int, pred: spec_fn(A) -> bool)
    requires
        0 <= i < s.len(),
    ensures
        s.take(i + 1).filter(pred) == if pred(s[i]) {
            s.take(i).filter(pred).push(s[i])
        } else {
            s.take(i).filter(pred)
        },
{
    reveal_with_fuel(Seq::filter, 1);
    assert(s.take(i + 1).drop_last() =~= s.take(i));
}

pub proof fn lemma_map_values_step<A, B>(s: Seq<A>, i: int, f: spec_fn(A) -> B)
    requires
        0 <= i < s.len(),
    ensures
        s.take(i + 1).map_values(f) == s.take(i).map_values(f).push(f(s[i])),
{
    assert(s.take(i + 1).map_values(f) =~= s.take(i).map_values(f).push(f(s[i])));
}

pub proof fn lemma_map_values_push<A, B>(s: Seq<A>, x: A, f: spec_fn(A) -> B)
    ensures
        s.push(x).map_values(f) == s.map_values(f).push(f(x)),
{
    assert(s.push(x).map_values(f) =~= s.map_values(f).push(f(x)));
}

/// The pieces of a comma-separated list, trimmed, leaving out the empty ones.
pub open spec fn list_items(s: Seq<char>) -> Seq<Seq<char>> {
    split_on(s, ',').map_values(|p: Seq<char>| trim(p)).filter(|t: Seq<char>| t.len() > 0)
}

/// The ASCII digits of `v`, in order.
pub fn keep_digits(v: &Vec<char>) -> (s: String)
    ensures
        s@ == digits_of(v@),
{
    let mut s = String::new();
    let mut i: usize = 0;
    while i < v.len()
        invariant
            i <= v.len(),
            s@ == digits_of(v@.take(i as int)),
        decreases v.len() - i,
    {
        proof {
            lemma_filter_step(v@, i as int, |c: char| is_ascii_digit(c));
        }
        if char_is_ascii_digit(v[i]) {
            push_char(&mut s, v[i]);
        }
        i += 1;
    }
    assert(v@.take(v@.len() as int) =~= v@);
    s
}

/// The characters of `v` that are neither whitespace nor ASCII punctuation.
pub fn keep_nick_chars(v: &Vec<char>) -> (s: String)
    ensures
        s@ == nick_chars_of(v@),
{
    let mut s = String::new();
    let mut i: usize = 0;
    while i < v.len()
        invariant
            i <= v.len(),
            s@ == nick_chars_of(v@.take(i as int)),
        decreases v.len() - i,
    {
        proof {
            lemma_filter_step(
                v@,
                i as int,
                |c: char| !is_whitespace(c) && !is_ascii_punctuation(c),
            );
        }
        if !char_is_whitespace(v[i]) && !char_is_ascii_punctuation(v[i]) {
            push_char(&mut s, v[i]);
        }
        i += 1;
    }
    assert(v@.take(v@.len() as int) =~= v@);
    s
}

/// The characters of `v` that are not whitespace.
pub fn drop_whitespace(v: &Vec<char>) -> (s: String)
    ensures
        s@ == without_whitespace(v@),
{
    let mut s = String::new();
    let mut i: usize = 0;
    while i < v.len()
        invariant
            i <= v.len(),
            s@ == without_whitespace(v@.take(i as int)),
        decreases v.len() - i,
    {
        proof {
            lemma_filter_step(v@, i as int, |c: char| !is_whitespace(c));
        }
        if !char_is_whitespace(v[i]) {
            push_char(&mut s, v[i]);
        }
        i += 1;
    }
    assert(v@.take(v@.len() as int) =~= v@);
    s
}

// ---------------------------------------------------------------------------
// Splitting and trimming
// ---------------------------------------------------------------------------
/// The pieces of `s` between occurrences of `sep`, as `str::split` yields them:
/// `n` separators give `n + 1` pieces, some of which may be empty.
pub open spec fn split_on(s: Seq<char>, sep: char) -> Seq<Seq<char>>
    decreases s.len(),
{
    if s.len() == 0 {
        seq![Seq::<char>::empty()]
    } else {
        let init = split_on(s.drop_last(), sep);
        if s.last() == sep {
            init.push(Seq::<char>::empty())
        } else {
            init.update(init.len() - 1, init.last().push(s.last()))
        }
    }
}

pub proof fn lemma_split_on_nonempty(s: Seq<char>, sep: char)
    ensures
        split_on(s, sep).len() >= 1,
    decreases s.len(),
{
    if s.len() > 0 {
        lemma_split_on_nonempty(s.drop_last(), sep);
    }
}

/// `s` without its leading whitespace.
pub open spec fn trim_start(s: Seq<char>) -> Seq<char>
    decreases s.len(),
{
    if s.len() > 0 && is_whitespace(s[0]) {
        trim_start(s.drop_first())
    } else {
        s
    }
}

/// `s` without its trailing whitespace.
pub open spec fn trim_end(s: Seq<char>) -> Seq<char>
    decreases s.len(),
{
    if s.len() > 0 && is_whitespace(s.last()) {
        trim_end(s.drop_last())
    } else {
        s
    }
}

/// `s` without leading and trailing whitespace, as `str::trim` gives it.
pub open spec fn trim(s: Seq<char>) -> Seq<char> {
    trim_end(trim_start(s))
}

/// The pieces of `s` at `sep`, each as a string.
pub fn split_on_char(s: &str, sep: char) -> (r: Vec<String>)
    ensures
        strs_view(r@) == split_on(s@, sep),
{
    let v = str_chars(s);
    let mut pieces: Vec<String> = Vec::new();
    let mut cur = String::new();
    let mut i: usize = 0;
    assert(v@.take(0) =~= Seq::<char>::empty());
    assert(strs_view(pieces@).push(cur@) =~= split_on(v@.take(0), sep));
    while i < v.len()
        invariant
            i <= v.len(),
            v@ == s@,
            strs_view(pieces@).push(cur@) == split_on(v@.take(i as int), sep),
        decreases v.len() - i,
    {
        let c = v[i];
        let ghost prev = v@.take(i as int);
        assert(v@.take(i + 1).drop_last() =~= prev);
        proof {
            lemma_split_on_nonempty(prev, sep);
        }
        if c == sep {
            let done = cur;
            pieces.push(done);
            cur = String::new();
            assert(strs_view(pieces@).push(cur@) =~= split_on(v@.take(i + 1), sep));
        } else {
            push_char(&mut cur, c);
            assert(strs_view(pieces@).push(cur@) =~= split_on(v@.take(i + 1), sep));
        }
        i += 1;
    }
    pieces.push(cur);
    assert(v@.take(v@.len() as int) =~= v@);
    assert(strs_view(pieces@) =~= split_on(s@, sep));
    pieces
}

proof fn lemma_trim_start_skip(s: Seq<char>, i: int)
    requires
        0 <= i <= s.len(),
        forall|k: int| 0 <= k < i ==> is_whitespace(#[trigger] s[k]),
    ensures
        trim_start(s) == trim_start(s.skip(i)),
    decreases i,
{
    if i > 0 {
        assert(s.drop_first().skip(i - 1) =~= s.skip(i));
        lemma_trim_start_skip(s.drop_first(), i - 1);
    }
}

proof fn lemma_trim_end_take(s: Seq<char>, j: int)
    requires
        0 <= j <= s.len(),
        forall|k: int| j <= k < s.len() ==> is_whitespace(#[trigger] s[k]),
    ensures
        trim_end(s) == trim_end(s.take(j)),
    decreases s.len() - j,
{
    if j < s.len() {
        assert(s.drop_last().take(j) =~= s.take(j));
        lemma_trim_end_take(s.drop_last(), j);
    } else {
        assert(s.take(j) =~= s);
    }
}

/// `s` without leading and trailing whitespace.
pub fn trim_str(s: &str) -> (r: String)
    ensures
        r@ == trim(s@),
{
    let v = str_chars(s);
    let mut lo: usize = 0;
    while lo < v.len() && char_is_whitespace(v[lo])
        invariant
            lo <= v.len(),
            v@ == s@,
            forall|k: int| 0 <= k < lo ==> is_whitespace(#[trigger] v@[k]),
        decreases v.len() - lo,
    {
        lo += 1;
    }
    proof {
        lemma_trim_start_skip(v@, lo as int);
        assert(trim_start(v@.skip(lo as int)) == v@.skip(lo as int));
    }
    let mut hi: usize = v.len();
    while hi > lo && char_is_whitespace(v[hi - 1])
        invariant
            lo <= hi <= v.len(),
            v@ == s@,
            forall|k: int| hi <= k < v.len() ==> is_whitespace(#[trigger] v@[k]),
        decreases hi,
    {
        hi -= 1;
    }
    let ghost t = v@.skip(lo as int);
    proof {
        assert forall|k: int| hi - lo <= k < t.len() implies is_whitespace(#[trigger] t[k]) by {
            assert(t[k] == v@[k + lo]);
        }
        lemma_trim_end_take(t, hi - lo);
        assert(t.take(hi - lo) =~= v@.subrange(lo as int, hi as int));
        if hi > lo {
            assert(!is_whitespace(t.take(hi - lo).last()));
        }
    }
    string_from_range(&v, lo, hi)
}

/// The items of a comma-separated list: each piece trimmed, the empty ones left out.
pub fn list_items_of(s: &str) -> (r: Vec<String>)
    ensures
        strs_view(r@) == list_items(s@),
{
    let pieces = split_on_char(s, ',');
    let ghost trimmed = split_on(s@, ',').map_values(|p: Seq<char>| trim(p));
    let ghost keep = |t: Seq<char>| t.len() > 0;
    let mut out: Vec<String> = Vec::new();
    let mut i: usize = 0;
    assert(trimmed.take(0).filter(keep) =~= Seq::<Seq<char>>::empty()) by {
        reveal_with_fuel(Seq::filter, 1);
    }
    while i < pieces.len()
        invariant
            i <= pieces.len(),
            strs_view(pieces@) == split_on(s@, ','),
            trimmed == split_on(s@, ',').map_values(|p: Seq<char>| trim(p)),
            keep == (|t: Seq<char>| t.len() > 0),
            strs_view(out@) == trimmed.take(i as int).filter(keep),
        decreases pieces.len() - i,
    {
        let t = trim_str(pieces[i].as_str());
        proof {
            assert(strs_view(pieces@)[i as int] == pieces@[i as int]@);
            assert(trimmed[i as int] == t@);
            lemma_filter_step(trimmed, i as int, keep);
        }
        if !t.as_str().is_empty() {
            out.push(t);
            assert(strs_view(out@) =~= trimmed.take(i + 1).filter(keep));
        }
        i += 1;
    }
    assert(trimmed.take(i as int) =~= trimmed);
    out
}

// ---------------------------------------------------------------------------
// Decimal numbers
// ---------------------------------------------------------------------------
/// The character of the decimal digit `d`.
pub open spec fn digit_char(d: nat) -> char {
    (d + 48) as char
}

/// The value of the ASCII digit `c`.
pub open spec fn digit_value(c: char) -> nat {
    (c as u32 - 48) as nat
}

/// `n` written in decimal, without leading zeros.
pub open spec fn decimal(n: nat) -> Seq<char>
    decreases n,
{
    if n < 10 {
        seq![digit_char(n)]
    } else {
        decimal(n / 10).push(digit_char(n % 10))
    }
}

/// `n` written in decimal, with a leading `-` when it is negative.
pub open spec fn signed_decimal(n: int) -> Seq<char> {
    if n < 0 {
        seq!['-'] + decimal((-n) as nat)
    } else {
        decimal(n as nat)
    }
}

/// `s` preceded by as many `'0'` as it takes to make it `width` long.
pub open spec fn zero_pad(s: Seq<char>, width: nat) -> Seq<char> {
    if s.len() < width {
        Seq::new((width - s.len()) as nat, |i: int| '0') + s
    } else {
        s
    }
}

/// `n` written in decimal is a non-empty string of digits whose value is `n`.
pub proof fn lemma_decimal_digits(n: nat)
    ensures
        decimal(n).len() > 0,
        forall|i: int| 0 <= i < decimal(n).len() ==> is_ascii_digit(#[trigger] decimal(n)[i]),
        digits_value(decimal(n)) == n,
    decreases n,
{
    let d = (n % 10) as nat;
    assert(digit_value(digit_char(d)) == d);
    if n >= 10 {
        lemma_decimal_digits(n / 10);
        let s = decimal(n);
        assert(s.drop_last() == decimal(n / 10));
        assert(s.last() == digit_char(d));
        assert(digits_value(s) == digits_value(decimal(n / 10)) * 10 + d);
    } else {
        let s = decimal(n);
        assert(s.drop_last() =~= Seq::<char>::empty());
        assert(digits_value(s) == digits_value(s.drop_last()) * 10 + digit_value(s.last()));
    }
}

/// Ten to the power `w`.
pub open spec fn pow10(w: nat) -> nat
    decreases w,
{
    if w == 0 {
        1
    } else {
        10 * pow10((w - 1) as nat)
    }
}

/// A number below `10^w` has at most `w` decimal digits.
proof fn lemma_decimal_len(n: nat, w: nat)
    requires
        0 < w,
        n < pow10(w),
    ensures
        decimal(n).len() <= w,
    decreases n,
{
    if n >= 10 {
        if w == 1 {
            assert(pow10(1) == 10 * pow10(0));
        }
        assert(pow10(w) == 10 * pow10((w - 1) as nat));
        lemma_decimal_len(n / 10, (w - 1) as nat);
    }
}

/// A run of `k` zeros.
pub open spec fn zeros(k: nat) -> Seq<char> {
    Seq::new(k, |i: int| '0')
}

proof fn lemma_zeros_value(k: nat)
    ensures
        digits_value(zeros(k)) == 0,
    decreases k,
{
    if k > 0 {
        lemma_zeros_value((k - 1) as nat);
        assert(zeros(k).drop_last() =~= zeros((k - 1) as nat));
    }
}

/// Leading zeros add nothing to the value of a string of digits.
proof fn lemma_zeros_prefix_value(k: nat, s: Seq<char>)
    ensures
        digits_value(zeros(k) + s) == digits_value(s),
    decreases s.len(),
{
    if s.len() == 0 {
        assert(zeros(k) + s =~= zeros(k));
        lemma_zeros_value(k);
    } else {
        lemma_zeros_prefix_value(k, s.drop_last());
        assert((zeros(k) + s).drop_last() =~= zeros(k) + s.drop_last());
        assert((zeros(k) + s).last() == s.last());
    }
}

/// A number below `10^w`, zero-padded to `w` digits: exactly `w` digits
/// whose value is the number.
pub proof fn lemma_padded_digits(n: nat, w: nat)
    requires
        0 < w,
        n < pow10(w),
    ensures
        zero_pad(decimal(n), w).len() == w,
        all_digits(zero_pad(decimal(n), w)),
        digits_value(zero_pad(decimal(n), w)) == n,
{
    lemma_decimal_len(n, w);
    lemma_decimal_digits(n);
    let d = decimal(n);
    if d.len() < w {
        let k = (w - d.len()) as nat;
        assert(zeros(k) =~= Seq::new(k, |i: int| '0'));
        lemma_zeros_prefix_value(k, d);
        assert(zero_pad(d, w) == zeros(k) + d);
    }
}

/// The value of a string of ASCII digits.
pub open spec fn digits_value(s: Seq<char>) -> nat
    decreases s.len(),
{
    if s.len() == 0 {
        0
    } else {
        digits_value(s.drop_last()) * 10 + digit_value(s.last())
    }
}

/// Every character of `s` is an ASCII digit.
pub open spec fn all_digits(s: Seq<char>) -> bool {
    forall|i: int| 0 <= i < s.len() ==> is_ascii_digit(#[trigger] s[i])
}

fn digit_to_char(d: u64) -> (c: char)
    requires
        d < 10,
    ensures
        c == digit_char(d as nat),
{
    let b: u8 = 48u8 + (d as u8);
    b as char
}

fn push_decimal(v: &mut Vec<char>, n: u64)
    ensures
        final(v)@ == old(v)@ + decimal(n as nat),
    decreases n,
{
    if n >= 10 {
        push_decimal(v, n / 10);
    }
    v.push(digit_to_char(n % 10));
    assert(final(v)@ =~= old(v)@ + decimal(n as nat));
}

/// `n` in decimal.
pub fn u64_to_decimal(n: u64) -> (s: String)
    ensures
        s@ == decimal(n as nat),
{
    let mut v: Vec<char> = Vec::new();
    push_decimal(&mut v, n);
    assert(v@ =~= decimal(n as nat));
    string_from_chars(&v)
}

/// `n` in decimal, with a leading `-` when it is negative.
pub fn i64_to_decimal(n: i64) -> (s: String)
    ensures
        s@ == signed_decimal(n as int),
{
    let mut v: Vec<char> = Vec::new();
    if n < 0 {
        v.push('-');
        let m: u64 = (-(n as i128)) as u64;
        push_decimal(&mut v, m);
    } else {
        push_decimal(&mut v, n as u64);
    }
    assert(v@ =~= signed_decimal(n as int));
    string_from_chars(&v)
}

/// `n` in decimal, padded with leading zeros to at least `width` characters.
pub fn u64_to_padded_decimal(n: u64, width: usize) -> (s: String)
    ensures
        s@ == zero_pad(decimal(n as nat), width as nat),
{
    let mut digits: Vec<char> = Vec::new();
    push_decimal(&mut digits, n);
    assert(digits@ =~= decimal(n as nat));
    let mut v: Vec<char> = Vec::new();
    let len = digits.len();
    if len < width {
        let mut k: usize = 0;
        while k < width - len
            invariant
                len < width,
                k <= width - len,
                v@ =~= Seq::new(k as nat, |i: int| '0'),
            decreases width - len - k,
        {
            v.push('0');
            k += 1;
        }
    }
    let mut i: usize = 0;
    let ghost pad = v@;
    while i < len
        invariant
            len == digits@.len(),
            i <= len,
            v@ == pad + digits@.take(i as int),
        decreases len - i,
    {
        v.push(digits[i]);
        i += 1;
        assert(v@ =~= pad + digits@.take(i as int));
    }
    assert(digits@.take(len as int) =~= digits@);
    assert(v@ =~= zero_pad(decimal(n as nat), width as nat));
    string_from_chars(&v)
}

/// `a` and `b` have one length, agree before position `k`, and at `k` the
/// character of `a` comes first.
pub open spec fn first_diff_less(a: Seq<char>, b: Seq<char>, k: int) -> bool {
    &&& a.len() == b.len()
    &&& 0 <= k < a.len()
    &&& a.take(k) == b.take(k)
    &&& (a[k] as u32) < (b[k] as u32)
}

proof fn lemma_digit_value_bound(s: Seq<char>)
    requires
        s.len() > 0,
        all_digits(s),
    ensures
        digit_value(s.last()) <= 9,
        all_digits(s.drop_last()),
        digits_value(s) == digits_value(s.drop_last()) * 10 + digit_value(s.last()),
{
    assert(is_ascii_digit(s[s.len() - 1]));
    assert forall|i: int| 0 <= i < s.drop_last().len() implies is_ascii_digit(
        #[trigger] s.drop_last()[i],
    ) by {
        assert(s.drop_last()[i] == s[i]);
    }
}

/// Digit strings of one length with one value are equal.
proof fn lemma_digits_value_injective(s: Seq<char>, t: Seq<char>)
    requires
        s.len() == t.len(),
        all_digits(s),
        all_digits(t),
        digits_value(s) == digits_value(t),
    ensures
        s == t,
    decreases s.len(),
{
    if s.len() > 0 {
        lemma_digit_value_bound(s);
        lemma_digit_value_bound(t);
        lemma_digits_value_injective(s.drop_last(), t.drop_last());
        assert(is_ascii_digit(s.last()) && is_ascii_digit(t.last()));
        assert(s.last() == t.last());
        assert(s =~= s.drop_last().push(s.last()));
        assert(t =~= t.drop_last().push(t.last()));
    } else {
        assert(s =~= t);
    }
}

/// Of two digit strings of one length, the one with the smaller value comes
/// first in character order.
pub proof fn lemma_digits_less(s: Seq<char>, t: Seq<char>) -> (k: int)
    requires
        s.len() == t.len(),
        all_digits(s),
        all_digits(t),
        digits_value(s) < digits_value(t),
    ensures
        first_diff_less(s, t, k),
    decreases s.len(),
{
    if s.len() == 0 {
        assert(false);
        0
    } else {
        lemma_digit_value_bound(s);
        lemma_digit_value_bound(t);
        let n = s.len() - 1;
        let (s1, t1) = (s.drop_last(), t.drop_last());
        if digits_value(s1) < digits_value(t1) {
            let k = lemma_digits_less(s1, t1);
            assert(s.take(k) =~= s1.take(k));
            assert(t.take(k) =~= t1.take(k));
            assert(s[k] == s1[k] && t[k] == t1[k]);
            k
        } else {
            lemma_digits_value_injective(s1, t1);
            assert(is_ascii_digit(s.last()) && is_ascii_digit(t.last()));
            assert(s.take(n) =~= s1);
            assert(t.take(n) =~= t1);
            n
        }
    }
}

/// A first difference stays the first difference in longer strings that
/// begin with the two strings and have one length.
pub proof fn lemma_diff_extends(a: Seq<char>, b: Seq<char>, k: int, ta: Seq<char>, tb: Seq<char>)
    requires
        first_diff_less(a, b, k),
        ta.len() == tb.len(),
        a.len() <= ta.len(),
        ta.take(a.len() as int) == a,
        tb.take(b.len() as int) == b,
    ensures
        first_diff_less(ta, tb, k),
{
    assert(ta.take(k) =~= a.take(k));
    assert(tb.take(k) =~= b.take(k));
    assert(ta[k] == ta.take(a.len() as int)[k]);
    assert(tb[k] == tb.take(b.len() as int)[k]);
}

/// A first difference after a common beginning.
pub proof fn lemma_diff_after(x: Seq<char>, a: Seq<char>, b: Seq<char>, k: int)
    requires
        first_diff_less(a, b, k),
    ensures
        first_diff_less(x + a, x + b, x.len() + k),
{
    assert((x + a).take(x.len() + k) =~= x + a.take(k));
    assert((x + b).take(x.len() + k) =~= x + b.take(k));
}

proof fn lemma_digits_value_mono(s: Seq<char>, k: int)
    requires
        0 <= k <= s.len(),
    ensures
        digits_value(s.take(k)) <= digits_value(s),
    decreases s.len() - k,
{
    if k < s.len() {
        assert(s.drop_last().take(k) =~= s.take(k));
        lemma_digits_value_mono(s.drop_last(), k);
    } else {
        assert(s.take(k) =~= s);
    }
}

/// The value of the digit string `v` when it is not empty and at most `max`.
pub fn parse_digits(v: &Vec<char>, max: u64) -> (r: Option<u64>)
    requires
        all_digits(v@),
    ensures
        r == (if v@.len() > 0 && digits_value(v@) <= max {
            Some(digits_value(v@) as u64)
        } else {
            None::<u64>
        }),
{
    if v.len() == 0 {
        return None;
    }
    let mut acc: u128 = 0;
    let mut i: usize = 0;
    while i < v.len()
        invariant
            i <= v.len(),
            all_digits(v@),
            acc == digits_value(v@.take(i as int)),
            acc <= max,
        decreases v.len() - i,
    {
        assert(v@.take(i + 1).drop_last() =~= v@.take(i as int));
        assert(is_ascii_digit(v@[i as int]));
        let d = (v[i] as u32 - 48) as u128;
        acc = acc * 10 + d;
        i += 1;
        if acc > max as u128 {
            proof {
                lemma_digits_value_mono(v@, i as int);
            }
            return None;
        }
    }
    assert(v@.take(v@.len() as int) =~= v@);
    Some(acc as u64)
}

/// The value of the digit string `v` when it is not empty and at most `max`,
/// for bounds up to `u128::MAX`.
pub fn parse_digits_wide(v: &Vec<char>, max: u128) -> (r: Option<u128>)
    requires
        all_digits(v@),
    ensures
        r == (if v@.len() > 0 && digits_value(v@) <= max {
            Some(digits_value(v@) as u128)
        } else {
            None::<u128>
        }),
{
    if v.len() == 0 {
        return None;
    }
    let mut acc: u128 = 0;
    let mut i: usize = 0;
    while i < v.len()
        invariant
            i <= v.len(),
            all_digits(v@),
            acc == digits_value(v@.take(i as int)),
            acc <= max,
        decreases v.len() - i,
    {
        assert(v@.take(i + 1).drop_last() =~= v@.take(i as int));
        assert(is_ascii_digit(v@[i as int]));
        let d = (v[i] as u32 - 48) as u128;
        let next = match acc.checked_mul(10) {
            Some(m) => m.checked_add(d),
            None => None,
        };
        i += 1;
        match next {
            Some(n) => {
                if n > max {
                    proof {
                        lemma_digits_value_mono(v@, i as int);
                    }
                    return None;
                }
                acc = n;
            },
            None => {
                proof {
                    lemma_digits_value_mono(v@, i as int);
                }
                return None;
            },
        }
    }
    assert(v@.take(v@.len() as int) =~= v@);
    Some(acc)
}

} // verus!
