//! Character-level string helpers shared by the pipeline modules.

use vstd::prelude::*;
use vstd::string::*;

verus! {

/// Appends one character to a string (`String::push`).
#[verifier::external_body]
pub fn push_char(s: &mut String, c: char)
    ensures
        final(s)@ == old(s)@.push(c),
{
    s.push(c)
}

/// What `str::to_lowercase` returns for a string with these characters.
pub uninterp spec fn lowercase_of(s: Seq<char>) -> Seq<char>;

/// Whether every character is ASCII.
pub open spec fn ascii_only(s: Seq<char>) -> bool {
    forall|i: int| 0 <= i < s.len() ==> (#[trigger] s[i] as u32) < 128
}

/// Whether `c` is an ASCII capital letter.
pub open spec fn ascii_upper(c: char) -> bool {
    'A' <= c && c <= 'Z'
}

/// The ASCII lowercase of a character: capitals to small letters, every
/// other character kept.
pub open spec fn ascii_lower(c: char) -> char {
    if ascii_upper(c) {
        ((c as u32) + 32) as char
    } else {
        c
    }
}

/// `str::to_lowercase`: the Unicode lowercase mapping of the string, named
/// by [`lowercase_of`]. Of an ASCII string it states what Unicode's mapping
/// gives there: each capital letter becomes its small letter and every other
/// character stays. Of other strings nothing further is stated.
#[verifier::external_body]
pub fn to_lowercase(s: &str) -> (r: String)
    ensures
        r@ == lowercase_of(s@),
        ascii_only(s@) ==> r@ == s@.map_values(|c: char| ascii_lower(c)),
{
    s.to_lowercase()
}

/// What `str::to_uppercase` returns for a string with these characters.
pub uninterp spec fn uppercase_of(s: Seq<char>) -> Seq<char>;

/// The ASCII uppercase of a character: small letters to capitals, every
/// other character kept.
pub open spec fn ascii_upper_of(c: char) -> char {
    if 'a' <= c && c <= 'z' {
        ((c as u32) - 32) as char
    } else {
        c
    }
}

/// `str::to_uppercase`: the Unicode uppercase mapping of the string, named
/// by [`uppercase_of`]. Of an ASCII string it states what Unicode's mapping
/// gives there: each small letter becomes its capital and every other
/// character stays. Of other strings nothing further is stated.
#[verifier::external_body]
pub fn to_uppercase(s: &str) -> (r: String)
    ensures
        r@ == uppercase_of(s@),
        ascii_only(s@) ==> r@ == s@.map_values(|c: char| ascii_upper_of(c)),
{
    s.to_uppercase()
}

/// What `char::is_alphanumeric` returns for a character.
pub uninterp spec fn alphanumeric(c: char) -> bool;

/// Whether `c` is an ASCII letter or digit.
pub open spec fn ascii_alphanumeric(c: char) -> bool {
    ('a' <= c && c <= 'z') || ('A' <= c && c <= 'Z') || ('0' <= c && c <= '9')
}

/// `char::is_alphanumeric`: whether the character is Unicode alphabetic or
/// numeric, named by [`alphanumeric`]. Of an ASCII character it states what
/// those properties hold there: exactly the letters and the digits. Of other
/// characters nothing further is stated.
#[verifier::external_body]
pub fn is_alphanumeric(c: char) -> (r: bool)
    ensures
        r == alphanumeric(c),
        (c as u32) < 128 ==> r == ascii_alphanumeric(c),
{
    c.is_alphanumeric()
}

/// Whether a character has the Unicode `White_Space` property: tab, line
/// feed, vertical tab, form feed, carriage return, space, next line,
/// no-break space, ogham space mark, the spaces U+2000 to U+200A, line and
/// paragraph separators, narrow no-break space, medium mathematical space
/// and ideographic space.
pub open spec fn whitespace(c: char) -> bool {
    let u = c as u32;
    ||| 0x09 <= u <= 0x0D
    ||| u == 0x20 || u == 0x85 || u == 0xA0 || u == 0x1680
    ||| 0x2000 <= u <= 0x200A
    ||| u == 0x2028 || u == 0x2029 || u == 0x202F || u == 0x205F || u == 0x3000
}

/// Whether the character has the Unicode `White_Space` property (what
/// `char::is_whitespace` answers): the 25 characters that [`whitespace`]
/// lists.
pub fn is_whitespace(c: char) -> (r: bool)
    ensures
        r == whitespace(c),
{
    let u = c as u32;
    (0x09 <= u && u <= 0x0D) || u == 0x20 || u == 0x85 || u == 0xA0 || u == 0x1680 || (0x2000 <= u && u <= 0x200A) || u == 0x2028
        || u == 0x2029 || u == 0x202F || u == 0x205F || u == 0x3000
}

/// Every character is white space (the string trims to nothing).
pub open spec fn blank(s: Seq<char>) -> bool {
    forall|i: int| 0 <= i < s.len() ==> whitespace(#[trigger] s[i])
}

/// Whether `s.trim()` is empty.
pub fn is_blank(s: &str) -> (r: bool)
    ensures
        r == blank(s@),
{
    let cs = chars_of(s);
    let mut i: usize = 0;
    while i < cs.len()
        invariant
            cs@ == s@,
            i <= cs@.len(),
            forall|j: int| 0 <= j < i ==> whitespace(#[trigger] cs@[j]),
        decreases cs@.len() - i,
    {
        if !is_whitespace(cs[i]) {
            return false;
        }
        i = i + 1;
    }
    true
}

/// The decimal digit `d` (`d < 10`).
pub open spec fn digit_char(d: nat) -> char {
    if d == 0 { '0' } else if d == 1 { '1' } else if d == 2 { '2' } else if d == 3 { '3' } else if d == 4 { '4' }
    else if d == 5 { '5' } else if d == 6 { '6' } else if d == 7 { '7' } else if d == 8 { '8' } else { '9' }
}

/// The decimal text of `n`, without leading zeros.
pub open spec fn decimal_spec(n: nat) -> Seq<char>
    decreases n,
{
    if n < 10 {
        seq![digit_char(n)]
    } else {
        decimal_spec(n / 10).push(digit_char(n % 10))
    }
}

/// The decimal text of `n`, padded with leading zeros to at least `w`
/// digits.
pub open spec fn padded_decimal(n: nat, w: nat) -> Seq<char> {
    let d = decimal_spec(n);
    if d.len() >= w {
        d
    } else {
        Seq::new((w - d.len()) as nat, |i: int| '0') + d
    }
}

/// The decimal text of a signed number: `-` before the magnitude when negative.
pub open spec fn signed_decimal_spec(n: int) -> Seq<char> {
    if n < 0 {
        seq!['-'] + decimal_spec((-n) as nat)
    } else {
        decimal_spec(n as nat)
    }
}

fn digit(d: u64) -> (c: char)
    requires
        d < 10,
    ensures
        c == digit_char(d as nat),
{
    if d == 0 { '0' } else if d == 1 { '1' } else if d == 2 { '2' } else if d == 3 { '3' } else if d == 4 { '4' }
    else if d == 5 { '5' } else if d == 6 { '6' } else if d == 7 { '7' } else if d == 8 { '8' } else { '9' }
}

/// The decimal text of an unsigned number.
pub fn u64_text(n: u64) -> (r: String)
    ensures
        r@ == decimal_spec(n as nat),
    decreases n,
{
    if n < 10 {
        let mut s = String::new();
        push_char(&mut s, digit(n));
        assert(s@ =~= seq![digit_char(n as nat)]);
        s
    } else {
        let mut s = u64_text(n / 10);
        push_char(&mut s, digit(n % 10));
        s
    }
}

/// The decimal text of a signed number.
pub fn i64_text(n: i64) -> (r: String)
    ensures
        r@ == signed_decimal_spec(n as int),
{
    if n < 0 {
        let m: u64 = if n == i64::MIN { 9_223_372_036_854_775_808u64 } else { (-n) as u64 };
        let mut s = String::new();
        push_char(&mut s, '-');
        let t = u64_text(m);
        s.append(t.as_str());
        assert(s@ =~= seq!['-'] + decimal_spec((-(n as int)) as nat));
        s
    } else {
        u64_text(n as u64)
    }
}

/// `s` with every occurrence of `from` (non-empty), scanned from the left
/// and not overlapping, replaced by `to` (as `str::replace` does).
pub open spec fn replace_spec(s: Seq<char>, from: Seq<char>, to: Seq<char>) -> Seq<char>
    decreases s.len(),
{
    if s.len() == 0 || from.len() == 0 {
        s
    } else if from.len() <= s.len() && s.subrange(0, from.len() as int) == from {
        to + replace_spec(s.subrange(from.len() as int, s.len() as int), from, to)
    } else {
        seq![s[0]] + replace_spec(s.subrange(1, s.len() as int), from, to)
    }
}

/// Whether `needle` occurs in `s` at position `i`.
pub open spec fn occurs_at(s: Seq<char>, needle: Seq<char>, i: int) -> bool {
    0 <= i && i + needle.len() <= s.len() && s.subrange(i, i + needle.len()) == needle
}

/// Whether `needle` occurs in `s`.
pub open spec fn contains_spec(s: Seq<char>, needle: Seq<char>) -> bool {
    exists|i: int| occurs_at(s, needle, i)
}

fn matches_at(cs: &Vec<char>, ns: &Vec<char>, i: usize) -> (r: bool)
    requires
        i <= cs@.len(),
    ensures
        r == occurs_at(cs@, ns@, i as int),
{
    if ns.len() > cs.len() - i {
        return false;
    }
    let mut j: usize = 0;
    while j < ns.len()
        invariant
            i <= cs@.len(),
            i + ns@.len() <= cs@.len(),
            j <= ns@.len(),
            forall|q: int| 0 <= q < j ==> cs@[i + q] == ns@[q],
        decreases ns@.len() - j,
    {
        assert(i + j < cs@.len());
        assert(cs@.len() == cs.len());
        let p: usize = i + j;
        if cs[p] != ns[j] {
            assert(cs@.subrange(i as int, i + ns@.len())[j as int] != ns@[j as int]);
            return false;
        }
        j = j + 1;
    }
    assert(cs@.subrange(i as int, i + ns@.len()) =~= ns@);
    true
}

/// Whether `needle` occurs in `s` (`str::contains`).
pub fn contains_str(s: &str, needle: &str) -> (r: bool)
    ensures
        r == contains_spec(s@, needle@),
{
    let cs = chars_of(s);
    let ns = chars_of(needle);
    let mut i: usize = 0;
    while i < cs.len()
        invariant
            cs@ == s@,
            ns@ == needle@,
            i <= cs@.len(),
            forall|q: int| 0 <= q < i ==> !occurs_at(s@, needle@, q),
        decreases cs@.len() - i,
    {
        if matches_at(&cs, &ns, i) {
            return true;
        }
        i = i + 1;
    }
    if matches_at(&cs, &ns, i) {
        return true;
    }
    assert forall|q: int| !occurs_at(s@, needle@, q) by {
        if 0 <= q && q <= i {
        }
    }
    false
}

/// `to` before, between and after the characters of `s`.
pub open spec fn interleave_spec(s: Seq<char>, to: Seq<char>) -> Seq<char>
    decreases s.len(),
{
    if s.len() == 0 {
        to
    } else {
        interleave_spec(s.drop_last(), to) + seq![s.last()] + to
    }
}

/// `s` with every occurrence of `from` replaced by `to`; an empty `from`
/// occurs before, between and after the characters.
pub fn replace_str(s: &str, from: &str, to: &str) -> (r: String)
    ensures
        from@.len() > 0 ==> r@ == replace_spec(s@, from@, to@),
        from@.len() == 0 ==> r@ == interleave_spec(s@, to@),
{
    let cs = chars_of(s);
    if from.unicode_len() == 0 {
        let mut r = owned(to);
        let mut i: usize = 0;
        while i < cs.len()
            invariant
                cs@ == s@,
                i <= cs@.len(),
                r@ == interleave_spec(cs@.subrange(0, i as int), to@),
            decreases cs@.len() - i,
        {
            assert(cs@.subrange(0, i + 1).drop_last() =~= cs@.subrange(0, i as int));
            push_char(&mut r, cs[i]);
            r.append(to);
            i = i + 1;
        }
        assert(cs@.subrange(0, cs@.len() as int) =~= cs@);
        return r;
    }
    let fs = chars_of(from);
    let mut r = String::new();
    let mut i: usize = 0;
    assert(cs@.subrange(0, cs@.len() as int) =~= cs@);
    while i < cs.len()
        invariant
            cs@ == s@,
            fs@ == from@,
            fs@.len() > 0,
            i <= cs@.len(),
            r@ + replace_spec(cs@.subrange(i as int, cs@.len() as int), fs@, to@) == replace_spec(s@, from@, to@),
        decreases cs@.len() - i,
    {
        let ghost rest = cs@.subrange(i as int, cs@.len() as int);
        if matches_at(&cs, &fs, i) {
            assert(rest.subrange(0, fs@.len() as int) =~= cs@.subrange(i as int, i + fs@.len()));
            assert(rest.subrange(fs@.len() as int, rest.len() as int) =~= cs@.subrange(i + fs@.len(), cs@.len() as int));
            r.append(to);
            i = i + fs.len();
        } else {
            assert(rest.len() >= fs@.len() ==> rest.subrange(0, fs@.len() as int) =~= cs@.subrange(i as int, i + fs@.len()));
            assert(rest.subrange(1, rest.len() as int) =~= cs@.subrange(i + 1, cs@.len() as int));
            push_char(&mut r, cs[i]);
            i = i + 1;
        }
    }
    assert(r@ + replace_spec(Seq::<char>::empty(), fs@, to@) =~= r@);
    r
}

/// The number of leading white-space characters of `s`.
pub open spec fn leading_ws(s: Seq<char>) -> nat
    decreases s.len(),
{
    if s.len() > 0 && whitespace(s[0]) {
        1 + leading_ws(s.subrange(1, s.len() as int))
    } else {
        0
    }
}

/// `s` without its leading and trailing white space (`str::trim`).
pub open spec fn trim_spec(s: Seq<char>) -> Seq<char> {
    let a = s.subrange(leading_ws(s) as int, s.len() as int);
    let b = a.reverse();
    b.subrange(leading_ws(b) as int, b.len() as int).reverse()
}

proof fn lemma_leading_ws_bound(s: Seq<char>)
    ensures
        leading_ws(s) <= s.len(),
    decreases s.len(),
{
    if s.len() > 0 && whitespace(s[0]) {
        lemma_leading_ws_bound(s.subrange(1, s.len() as int));
    }
}

fn leading_ws_count(cs: &Vec<char>) -> (n: usize)
    ensures
        n == leading_ws(cs@),
{
    proof {
        lemma_leading_ws_bound(cs@);
    }
    let mut i: usize = 0;
    assert(cs@.subrange(0, cs@.len() as int) =~= cs@);
    while i < cs.len() && is_whitespace(cs[i])
        invariant
            i <= cs@.len(),
            leading_ws(cs@) == i + leading_ws(cs@.subrange(i as int, cs@.len() as int)),
        decreases cs@.len() - i,
    {
        let ghost rest = cs@.subrange(i as int, cs@.len() as int);
        assert(rest.subrange(1, rest.len() as int) =~= cs@.subrange(i + 1, cs@.len() as int));
        i = i + 1;
    }
    i
}

/// `s` without leading and trailing white space.
pub fn trim_str(s: &str) -> (r: String)
    ensures
        r@ == trim_spec(s@),
{
    let cs = chars_of(s);
    let k = leading_ws_count(&cs);
    proof {
        lemma_leading_ws_bound(cs@);
    }
    let mut a: Vec<char> = Vec::new();
    let mut i: usize = k;
    while i < cs.len()
        invariant
            k <= i <= cs@.len(),
            a@ == cs@.subrange(k as int, i as int),
        decreases cs@.len() - i,
    {
        a.push(cs[i]);
        assert(a@ =~= cs@.subrange(k as int, i + 1));
        i = i + 1;
    }
    let b = reverse_chars(&a);
    let m = leading_ws_count(&b);
    proof {
        lemma_leading_ws_bound(b@);
    }
    let mut c: Vec<char> = Vec::new();
    let mut j: usize = m;
    while j < b.len()
        invariant
            m <= j <= b@.len(),
            c@ == b@.subrange(m as int, j as int),
        decreases b@.len() - j,
    {
        c.push(b[j]);
        assert(c@ =~= b@.subrange(m as int, j + 1));
        j = j + 1;
    }
    let d = reverse_chars(&c);
    proof {
        assert(a@ =~= s@.subrange(leading_ws(s@) as int, s@.len() as int));
    }
    from_chars(&d)
}

fn reverse_chars(v: &Vec<char>) -> (r: Vec<char>)
    ensures
        r@ == v@.reverse(),
{
    let mut r: Vec<char> = Vec::new();
    let mut i: usize = v.len();
    while i > 0
        invariant
            i <= v@.len(),
            r@ == v@.subrange(i as int, v@.len() as int).reverse(),
        decreases i,
    {
        i = i - 1;
        r.push(v[i]);
        assert(r@ =~= v@.subrange(i as int, v@.len() as int).reverse());
    }
    assert(v@.subrange(0, v@.len() as int) =~= v@);
    r
}

/// The value of a sequence of decimal digits.
pub open spec fn digits_value(s: Seq<char>) -> int
    decreases s.len(),
{
    if s.len() == 0 {
        0
    } else {
        digits_value(s.drop_last()) * 10 + ((s.last() as u32) as int - 48)
    }
}

/// Every character is a decimal digit.
pub open spec fn all_digits(s: Seq<char>) -> bool {
    forall|i: int| 0 <= i < s.len() ==> 48 <= (#[trigger] s[i] as u32) <= 57
}

/// What `str::parse::<u64>` gives: an optional `+` and at least one digit,
/// with a value that fits.
pub open spec fn parse_u64_spec(s: Seq<char>) -> Option<u64> {
    let t = if s.len() > 0 && s[0] == '+' { s.subrange(1, s.len() as int) } else { s };
    if t.len() > 0 && all_digits(t) && digits_value(t) <= u64::MAX {
        Some(digits_value(t) as u64)
    } else {
        None
    }
}

pub proof fn lemma_digits_value_nonneg(s: Seq<char>)
    requires
        all_digits(s),
    ensures
        digits_value(s) >= 0,
    decreases s.len(),
{
    if s.len() > 0 {
        assert(all_digits(s.drop_last()));
        lemma_digits_value_nonneg(s.drop_last());
    }
}

pub proof fn lemma_digits_value_grows(s: Seq<char>, i: int)
    requires
        all_digits(s),
        0 <= i <= s.len(),
    ensures
        digits_value(s.subrange(0, i)) <= digits_value(s),
    decreases s.len() - i,
{
    if i < s.len() {
        lemma_digits_value_grows(s, i + 1);
        let p = s.subrange(0, i + 1);
        assert(p.drop_last() =~= s.subrange(0, i));
        assert(all_digits(s.subrange(0, i)));
        lemma_digits_value_nonneg(s.subrange(0, i));
    } else {
        assert(s.subrange(0, i) =~= s);
    }
}

/// What `str::parse::<u32>` gives.
pub open spec fn parse_u32_spec(s: Seq<char>) -> Option<u32> {
    match parse_u64_spec(s) {
        Some(n) => if n <= u32::MAX { Some(n as u32) } else { None },
        None => None,
    }
}

/// Parses a decimal `u32` as `str::parse` does.
pub fn parse_u32(s: &str) -> (r: Option<u32>)
    ensures
        r == parse_u32_spec(s@),
{
    match parse_u64(s) {
        Some(n) => if n <= 0xffff_ffff {
            Some(n as u32)
        } else {
            None
        },
        None => None,
    }
}

/// Parses a decimal `u64` as `str::parse` does.
pub fn parse_u64(s: &str) -> (r: Option<u64>)
    ensures
        r == parse_u64_spec(s@),
{
    let cs = chars_of(s);
    let start: usize = if cs.len() > 0 && cs[0] == '+' { 1 } else { 0 };
    let ghost t = if s@.len() > 0 && s@[0] == '+' { s@.subrange(1, s@.len() as int) } else { s@ };
    assert(t =~= cs@.subrange(start as int, cs@.len() as int));
    if start >= cs.len() {
        return None;
    }
    let mut v: u64 = 0;
    let mut i: usize = start;
    while i < cs.len()
        invariant
            cs@ == s@,
            start <= i <= cs@.len(),
            t == cs@.subrange(start as int, cs@.len() as int),
            t == (if s@.len() > 0 && s@[0] == '+' { s@.subrange(1, s@.len() as int) } else { s@ }),
            all_digits(cs@.subrange(start as int, i as int)),
            v as int == digits_value(cs@.subrange(start as int, i as int)),
        decreases cs@.len() - i,
    {
        let c = cs[i];
        let cu = c as u32;
        let ghost p = cs@.subrange(start as int, i + 1);
        assert(p.drop_last() =~= cs@.subrange(start as int, i as int));
        assert(t[i - start] == c);
        assert(cu == (t[i - start] as u32));
        if cu < 48 || cu > 57 {
            assert(!all_digits(t)) by {
                assert(!(48 <= (t[i - start] as u32) <= 57));
            }
            return None;
        }
        let d: u64 = (cu - 48) as u64;
        assert(all_digits(p));
        assert(digits_value(p) == v * 10 + d);
        if v > (u64::MAX - d) / 10 {
            proof {
                if all_digits(t) {
                    lemma_digits_value_grows(t, i + 1 - start);
                    assert(t.subrange(0, i + 1 - start) =~= p);
                    assert(v * 10 + d > u64::MAX) by (nonlinear_arith)
                        requires
                            v > (u64::MAX - d) / 10,
                            d <= 9,
                    ;
                }
            }
            return None;
        }
        v = v * 10 + d;
        i = i + 1;
    }
    assert(cs@.subrange(start as int, cs@.len() as int) =~= t);
    Some(v)
}

/// The characters of a string slice, in order.
pub fn chars_of(s: &str) -> (r: Vec<char>)
    ensures
        r@ == s@,
{
    let n = s.unicode_len();
    let mut r: Vec<char> = Vec::new();
    let mut i: usize = 0;
    while i < n
        invariant
            n == s@.len(),
            i <= n,
            r@ == s@.subrange(0, i as int),
        decreases n - i,
    {
        let c = s.get_char(i);
        r.push(c);
        assert(r@ == s@.subrange(0, i + 1));
        i = i + 1;
    }
    r
}

/// Builds a string from a sequence of characters.
pub fn from_chars(cs: &Vec<char>) -> (r: String)
    ensures
        r@ == cs@,
{
    let mut r = String::new();
    let mut i: usize = 0;
    while i < cs.len()
        invariant
            i <= cs@.len(),
            r@ == cs@.subrange(0, i as int),
        decreases cs@.len() - i,
    {
        push_char(&mut r, cs[i]);
        assert(r@ == cs@.subrange(0, i + 1));
        i = i + 1;
    }
    assert(cs@.subrange(0, cs@.len() as int) == cs@);
    r
}

/// Whether two string slices have the same characters.
pub fn str_eq(a: &str, b: &str) -> (r: bool)
    ensures
        r == (a@ == b@),
{
    owned(a) == owned(b)
}

/// An owned copy of a string slice.
pub fn owned(s: &str) -> (r: String)
    ensures
        r@ == s@,
{
    String::from_str(s)
}

/// The view of an optional string.
pub open spec fn opt_view(o: Option<String>) -> Option<Seq<char>> {
    match o {
        Some(s) => Some(s@),
        None => None,
    }
}

/// Whether two optional strings are equal.
pub fn opt_str_eq(a: &Option<String>, b: &Option<String>) -> (r: bool)
    ensures
        r == (opt_view(*a) == opt_view(*b)),
{
    match a {
        Some(x) => match b {
            Some(y) => *x == *y,
            None => false,
        },
        None => b.is_none(),
    }
}

/// An owned copy of an optional string.
pub fn opt_clone(a: &Option<String>) -> (r: Option<String>)
    ensures
        opt_view(r) == opt_view(*a),
{
    match a {
        Some(x) => Some(x.clone()),
        None => None,
    }
}

/// The pieces of `parts` separated by `sep` (`[a, b, c]` gives `a sep b sep c`).
pub open spec fn join_spec(parts: Seq<Seq<char>>, sep: Seq<char>) -> Seq<char>
    decreases parts.len(),
{
    if parts.len() == 0 {
        Seq::empty()
    } else if parts.len() == 1 {
        parts[0]
    } else {
        join_spec(parts.drop_last(), sep) + sep + parts.last()
    }
}

/// Joins strings with a separator.
pub fn join(parts: &Vec<String>, sep: &str) -> (r: String)
    ensures
        r@ == join_spec(parts@.map_values(|s: String| s@), sep@),
{
    let ghost ps = parts@.map_values(|s: String| s@);
    let mut r = String::new();
    let mut i: usize = 0;
    while i < parts.len()
        invariant
            i <= parts@.len(),
            ps == parts@.map_values(|s: String| s@),
            r@ == join_spec(ps.subrange(0, i as int), sep@),
        decreases parts@.len() - i,
    {
        let ghost before = r@;
        if i > 0 {
            r.append(sep);
        }
        r.append(parts[i].as_str());
        let ghost pre = ps.subrange(0, i + 1);
        assert(pre.drop_last() =~= ps.subrange(0, i as int));
        assert(pre.last() == ps[i as int]);
        if i == 0 {
            assert(r@ =~= pre[0]);
        }
        i = i + 1;
    }
    assert(ps.subrange(0, parts@.len() as int) =~= ps);
    r
}

/// The pieces of `m` between occurrences of `d`, as `str::split` gives them
/// (always at least one, possibly empty).
pub open spec fn split_spec(m: Seq<char>, d: char) -> Seq<Seq<char>>
    decreases m.len(),
{
    if m.len() == 0 {
        seq![Seq::empty()]
    } else {
        let prev = split_spec(m.drop_last(), d);
        if m.last() == d {
            prev.push(Seq::empty())
        } else {
            prev.update(prev.len() - 1, prev.last().push(m.last()))
        }
    }
}

proof fn lemma_split_nonempty(m: Seq<char>, d: char)
    ensures
        split_spec(m, d).len() >= 1,
    decreases m.len(),
{
    if m.len() > 0 {
        lemma_split_nonempty(m.drop_last(), d);
    }
}

/// Splits a character sequence at every `d`.
pub fn split_chars(m: &Vec<char>, d: char) -> (r: Vec<String>)
    ensures
        r@.map_values(|s: String| s@) == split_spec(m@, d),
{
    let mut r: Vec<String> = Vec::new();
    let mut cur = String::new();
    let mut i: usize = 0;
    while i < m.len()
        invariant
            i <= m@.len(),
            r@.map_values(|s: String| s@).push(cur@) == split_spec(m@.subrange(0, i as int), d),
        decreases m@.len() - i,
    {
        let ghost pre = m@.subrange(0, i + 1);
        let ghost old_r = r@.map_values(|s: String| s@);
        let ghost old_cur = cur@;
        assert(pre.drop_last() =~= m@.subrange(0, i as int));
        proof {
            lemma_split_nonempty(pre.drop_last(), d);
        }
        if m[i] == d {
            let done = cur;
            r.push(done);
            cur = String::new();
            assert(r@.map_values(|s: String| s@) =~= old_r.push(old_cur));
            assert(r@.map_values(|s: String| s@).push(cur@) =~= split_spec(pre, d));
        } else {
            push_char(&mut cur, m[i]);
            assert(r@.map_values(|s: String| s@).push(cur@) =~= split_spec(pre, d));
        }
        i = i + 1;
    }
    assert(m@.subrange(0, m@.len() as int) =~= m@);
    let ghost old_r = r@.map_values(|s: String| s@);
    r.push(cur);
    assert(r@.map_values(|s: String| s@) =~= old_r.push(cur@));
    r
}

/// The pieces of `m` between occurrences of `d1` or `d2`, as `str::split`
/// with the two characters gives them.
pub open spec fn split2_spec(m: Seq<char>, d1: char, d2: char) -> Seq<Seq<char>>
    decreases m.len(),
{
    if m.len() == 0 {
        seq![Seq::empty()]
    } else {
        let prev = split2_spec(m.drop_last(), d1, d2);
        if m.last() == d1 || m.last() == d2 {
            prev.push(Seq::empty())
        } else {
            prev.update(prev.len() - 1, prev.last().push(m.last()))
        }
    }
}

proof fn lemma_split2_nonempty(m: Seq<char>, d1: char, d2: char)
    ensures
        split2_spec(m, d1, d2).len() >= 1,
    decreases m.len(),
{
    if m.len() > 0 {
        lemma_split2_nonempty(m.drop_last(), d1, d2);
    }
}

/// Splits a text at every `d1` or `d2`.
pub fn split_at_either(text: &str, d1: char, d2: char) -> (r: Vec<String>)
    ensures
        r@.map_values(|s: String| s@) == split2_spec(text@, d1, d2),
{
    let m = chars_of(text);
    let mut r: Vec<String> = Vec::new();
    let mut cur = String::new();
    let mut i: usize = 0;
    while i < m.len()
        invariant
            m@ == text@,
            i <= m@.len(),
            r@.map_values(|s: String| s@).push(cur@) == split2_spec(m@.subrange(0, i as int), d1, d2),
        decreases m@.len() - i,
    {
        let ghost pre = m@.subrange(0, i + 1);
        let ghost old_r = r@.map_values(|s: String| s@);
        let ghost old_cur = cur@;
        assert(pre.drop_last() =~= m@.subrange(0, i as int));
        proof {
            lemma_split2_nonempty(pre.drop_last(), d1, d2);
        }
        if m[i] == d1 || m[i] == d2 {
            let done = cur;
            r.push(done);
            cur = String::new();
            assert(r@.map_values(|s: String| s@) =~= old_r.push(old_cur));
            assert(r@.map_values(|s: String| s@).push(cur@) =~= split2_spec(pre, d1, d2));
        } else {
            push_char(&mut cur, m[i]);
            assert(r@.map_values(|s: String| s@).push(cur@) =~= split2_spec(pre, d1, d2));
        }
        i = i + 1;
    }
    assert(m@.subrange(0, m@.len() as int) =~= m@);
    let ghost old_r = r@.map_values(|s: String| s@);
    r.push(cur);
    assert(r@.map_values(|s: String| s@) =~= old_r.push(cur@));
    r
}

/// Each text trimmed.
pub fn trim_each(v: &Vec<String>) -> (r: Vec<String>)
    ensures
        r@.map_values(|s: String| s@) == v@.map_values(|s: String| trim_spec(s@)),
{
    let mut r: Vec<String> = Vec::new();
    let mut i: usize = 0;
    while i < v.len()
        invariant
            i <= v@.len(),
            r@.map_values(|s: String| s@) == v@.subrange(0, i as int).map_values(|s: String| trim_spec(s@)),
        decreases v@.len() - i,
    {
        let ghost old_r = r@.map_values(|s: String| s@);
        r.push(trim_str(v[i].as_str()));
        assert(r@.map_values(|s: String| s@) =~= old_r.push(trim_spec(v@[i as int]@)));
        assert(v@.subrange(0, i + 1).map_values(|s: String| trim_spec(s@)) =~= v@.subrange(0, i as int).map_values(|s: String| trim_spec(s@)).push(trim_spec(v@[i as int]@)));
        i = i + 1;
    }
    assert(v@.subrange(0, v@.len() as int) =~= v@);
    r
}

/// The last piece of `split_chars`: what follows the last `d`.
pub fn after_last(s: &str, d: char) -> (r: String)
    ensures
        split_spec(s@, d).len() >= 1,
        r@ == split_spec(s@, d).last(),
{
    proof {
        lemma_split_nonempty(s@, d);
    }
    let cs = chars_of(s);
    let mut pieces = split_chars(&cs, d);
    assert(pieces@.len() >= 1) by {
        assert(pieces@.map_values(|x: String| x@).len() == pieces@.len());
    }
    let ghost pv = pieces@.map_values(|x: String| x@);
    let last = pieces.pop().unwrap();
    assert(last@ == pv.last());
    last
}

/// The pieces of `m` between white-space characters (each white-space
/// character ends a piece; pieces may be empty).
pub open spec fn split_ws_spec(m: Seq<char>) -> Seq<Seq<char>>
    decreases m.len(),
{
    if m.len() == 0 {
        seq![Seq::empty()]
    } else {
        let prev = split_ws_spec(m.drop_last());
        if whitespace(m.last()) {
            prev.push(Seq::empty())
        } else {
            prev.update(prev.len() - 1, prev.last().push(m.last()))
        }
    }
}

proof fn lemma_split_ws_nonempty(m: Seq<char>)
    ensures
        split_ws_spec(m).len() >= 1,
    decreases m.len(),
{
    if m.len() > 0 {
        lemma_split_ws_nonempty(m.drop_last());
    }
}

/// The words of `s` (`str::split_whitespace`).
pub open spec fn words_spec(s: Seq<char>) -> Seq<Seq<char>> {
    non_empty_spec(split_ws_spec(s))
}

/// The words of `s`: its non-empty pieces between white space.
pub fn split_whitespace(s: &str) -> (r: Vec<String>)
    ensures
        r@.map_values(|x: String| x@) == words_spec(s@),
{
    let m = chars_of(s);
    let mut r: Vec<String> = Vec::new();
    let mut cur = String::new();
    let mut i: usize = 0;
    while i < m.len()
        invariant
            m@ == s@,
            i <= m@.len(),
            r@.map_values(|x: String| x@).push(cur@) == split_ws_spec(m@.subrange(0, i as int)),
        decreases m@.len() - i,
    {
        let ghost pre = m@.subrange(0, i + 1);
        let ghost old_r = r@.map_values(|x: String| x@);
        let ghost old_cur = cur@;
        assert(pre.drop_last() =~= m@.subrange(0, i as int));
        proof {
            lemma_split_ws_nonempty(pre.drop_last());
        }
        if is_whitespace(m[i]) {
            let done = cur;
            r.push(done);
            cur = String::new();
            assert(r@.map_values(|x: String| x@) =~= old_r.push(old_cur));
            assert(r@.map_values(|x: String| x@).push(cur@) =~= split_ws_spec(pre));
        } else {
            push_char(&mut cur, m[i]);
            assert(r@.map_values(|x: String| x@).push(cur@) =~= split_ws_spec(pre));
        }
        i = i + 1;
    }
    assert(m@.subrange(0, m@.len() as int) =~= m@);
    let ghost old_r = r@.map_values(|x: String| x@);
    r.push(cur);
    assert(r@.map_values(|x: String| x@) =~= old_r.push(cur@));
    non_empty(r)
}

/// The non-empty sequences of `s`, in order.
pub open spec fn non_empty_spec(s: Seq<Seq<char>>) -> Seq<Seq<char>>
    decreases s.len(),
{
    if s.len() == 0 {
        s
    } else {
        let p = non_empty_spec(s.drop_last());
        if s.last().len() > 0 {
            p.push(s.last())
        } else {
            p
        }
    }
}

/// The non-empty strings of `v`, in order.
pub fn non_empty(v: Vec<String>) -> (r: Vec<String>)
    ensures
        r@.map_values(|s: String| s@) == non_empty_spec(v@.map_values(|s: String| s@)),
{
    let ghost vs = v@.map_values(|s: String| s@);
    let mut r: Vec<String> = Vec::new();
    let mut i: usize = 0;
    while i < v.len()
        invariant
            i <= v@.len(),
            vs == v@.map_values(|s: String| s@),
            r@.map_values(|s: String| s@) == non_empty_spec(vs.subrange(0, i as int)),
        decreases v@.len() - i,
    {
        let ghost pre = vs.subrange(0, i + 1);
        let ghost old_r = r@.map_values(|s: String| s@);
        assert(pre.drop_last() =~= vs.subrange(0, i as int));
        assert(pre.last() == v@[i as int]@);
        if v[i].unicode_len() > 0 {
            r.push(owned(v[i].as_str()));
            assert(r@.map_values(|s: String| s@) =~= old_r.push(pre.last()));
        }
        i = i + 1;
    }
    assert(vs.subrange(0, v@.len() as int) =~= vs);
    r
}

/// A copy of a list of strings.
pub fn copy_texts(v: &Vec<String>) -> (r: Vec<String>)
    ensures
        r@.map_values(|x: String| x@) == v@.map_values(|x: String| x@),
{
    let mut r: Vec<String> = Vec::new();
    let mut i: usize = 0;
    while i < v.len()
        invariant
            i <= v@.len(),
            r@.map_values(|x: String| x@) == v@.subrange(0, i as int).map_values(|x: String| x@),
        decreases v@.len() - i,
    {
        let ghost before = r@.map_values(|x: String| x@);
        let t = owned(v[i].as_str());
        assert(t@ == v@[i as int]@);
        r.push(t);
        assert(r@.map_values(|x: String| x@) =~= before.push(v@[i as int]@));
        assert(v@.subrange(0, i + 1).map_values(|x: String| x@) =~= v@.subrange(0, i as int).map_values(|x: String| x@).push(v@[i as int]@));
        i = i + 1;
    }
    assert(v@.subrange(0, v@.len() as int) =~= v@);
    r
}

/// What `{:?}` (std's `Debug`) writes for a list of strings.
pub uninterp spec fn debug_list_of(items: Seq<Seq<char>>) -> Seq<char>;

/// Whether `Debug` writes a string's characters as they are: printable
/// ASCII other than `"` and `\`.
pub open spec fn debug_plain(s: Seq<char>) -> bool {
    forall|i: int| 0 <= i < s.len() ==> 0x20 <= (#[trigger] s[i] as u32) <= 0x7E && s[i] != '"' && s[i] != '\\'
}

/// The items each in double quotes, joined by `, `.
pub open spec fn quoted_items(items: Seq<Seq<char>>) -> Seq<char>
    decreases items.len(),
{
    if items.len() == 0 {
        Seq::empty()
    } else if items.len() == 1 {
        "\""@ + items[0] + "\""@
    } else {
        quoted_items(items.drop_last()) + ", "@ + "\""@ + items.last() + "\""@
    }
}

/// `format!("{:?}", items)` for a `Vec<String>`, named by [`debug_list_of`]:
/// `[`, each string as its `Debug` text (in double quotes, with characters
/// escaped as `char::escape_debug` does) joined by `, `, then `]`. Where every
/// character is printable ASCII other than `"` and `\`, nothing is escaped,
/// and that text is stated.
#[verifier::external_body]
pub fn debug_list(items: &Vec<String>) -> (r: String)
    ensures
        r@ == debug_list_of(items@.map_values(|x: String| x@)),
        (forall|i: int| 0 <= i < items@.len() ==> debug_plain(#[trigger] items@[i]@)) ==> r@ == "["@ + quoted_items(
            items@.map_values(|x: String| x@),
        ) + "]"@,
{
    format!("{:?}", items)
}

/// The text `String::from_utf8_lossy` makes of `bytes`.
pub uninterp spec fn utf8_lossy_of(bytes: Seq<u8>) -> Seq<char>;

/// std `String::from_utf8_lossy`, owned: the bytes read as UTF-8, each
/// invalid sequence replaced by U+FFFD; named by [`utf8_lossy_of`]. Of ASCII
/// bytes, which are valid UTF-8 one character each, it states the text.
#[verifier::external_body]
pub fn utf8_lossy(bytes: &[u8]) -> (r: String)
    ensures
        r@ == utf8_lossy_of(bytes@),
        (forall|i: int| 0 <= i < bytes@.len() ==> #[trigger] bytes@[i] < 128) ==> r@ == bytes@.map_values(|b: u8| b as char),
{
    String::from_utf8_lossy(bytes).into_owned()
}

} // verus!
