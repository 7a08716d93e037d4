//! Character and string helpers: whitespace trimming,
//! decimal rendering of numbers, and the few standard-library string and
//! character operations the library relies on.

use vstd::prelude::*;

verus! {

/// The characters with the Unicode `White_Space` property, which
/// `char::is_whitespace` tests for: tab to carriage return, space, next
/// line, no-break space, ogham space mark, the spaces from en quad to hair
/// space, line and paragraph separators, narrow no-break space, medium
/// mathematical space and ideographic space.
pub open spec fn spec_is_whitespace(c: char) -> bool {
    let v = c as u32;
    ||| 0x09 <= v <= 0x0D
    ||| v == 0x20
    ||| v == 0x85
    ||| v == 0xA0
    ||| v == 0x1680
    ||| 0x2000 <= v <= 0x200A
    ||| v == 0x2028
    ||| v == 0x2029
    ||| v == 0x202F
    ||| v == 0x205F
    ||| v == 0x3000
}

/// The result of `char::is_alphanumeric` (alphabetic or numeric in Unicode).
pub uninterp spec fn spec_is_alphanumeric(c: char) -> bool;

/// Whether `c` has the Unicode `White_Space` property, as
/// `char::is_whitespace` tests.
pub(crate) fn char_is_whitespace(c: char) -> (r: bool)
    ensures
        r == spec_is_whitespace(c),
{
    let v = c as u32;
    (0x09 <= v && v <= 0x0D) || v == 0x20 || v == 0x85 || v == 0xA0 || v == 0x1680 || (0x2000
        <= v && v <= 0x200A) || v == 0x2028 || v == 0x2029 || v == 0x202F || v == 0x205F || v
        == 0x3000
}

/// Calls `char::is_alphanumeric`. Its result is named `spec_is_alphanumeric`;
/// ASCII letters and digits are alphanumeric, and the ASCII characters that are
/// neither letters nor digits are not. Nothing more is stated of other
/// characters.
#[verifier::external_body]
pub(crate) fn char_is_alphanumeric(c: char) -> (r: bool)
    ensures
        r == spec_is_alphanumeric(c),
        ('a' <= c <= 'z') || ('A' <= c <= 'Z') || ('0' <= c <= '9') ==> r,
        (c as u32) < 128 && !(('a' <= c <= 'z') || ('A' <= c <= 'Z') || ('0' <= c <= '9')) ==> !r,
{
    c.is_alphanumeric()
}

/// Calls `String::push`: appends one character.
#[verifier::external_body]
pub(crate) fn string_push(s: &mut String, c: char)
    ensures
        final(s)@ == old(s)@.push(c),
{
    s.push(c)
}

/// The characters of a string, in order.
pub fn chars_of(s: &str) -> (r: Vec<char>)
    ensures
        r@ == s@,
{
    let mut out: Vec<char> = Vec::new();
    for c in it: s.chars()
        invariant
            it.seq() == s@,
            out@ == it.seq().take(it.index() as int),
    {
        out.push(c);
    }
    out
}

/// Whether two strings hold the same characters.
pub fn str_eq(a: &str, b: &str) -> (r: bool)
    ensures
        r == (a@ == b@),
{
    let x = chars_of(a);
    let y = chars_of(b);
    if x.len() != y.len() {
        return false;
    }
    let mut i: usize = 0;
    while i < x.len()
        invariant
            i <= x.len(),
            x.len() == y.len(),
            x@ == a@,
            y@ == b@,
            forall|k: int| 0 <= k < i ==> x@[k] == y@[k],
        decreases x.len() - i,
    {
        if x[i] != y[i] {
            return false;
        }
        i = i + 1;
    }
    assert(x@ =~= y@);
    true
}

/// A string holding exactly the given characters.
pub fn string_from_chars(cs: &[char]) -> (r: String)
    ensures
        r@ == cs@,
{
    let mut s = String::new();
    let mut i: usize = 0;
    while i < cs.len()
        invariant
            i <= cs.len(),
            s@ == cs@.take(i as int),
        decreases cs.len() - i,
    {
        string_push(&mut s, cs[i]);
        assert(cs@.take(i as int).push(cs@[i as int]) =~= cs@.take(i + 1));
        i = i + 1;
    }
    assert(cs@.take(cs.len() as int) =~= cs@);
    s
}

/// `s` with its leading whitespace removed.
pub open spec fn trim_start(s: Seq<char>) -> Seq<char>
    decreases s.len(),
{
    if s.len() > 0 && spec_is_whitespace(s[0]) {
        trim_start(s.drop_first())
    } else {
        s
    }
}

/// `s` with its trailing whitespace removed.
pub open spec fn trim_end(s: Seq<char>) -> Seq<char>
    decreases s.len(),
{
    if s.len() > 0 && spec_is_whitespace(s.last()) {
        trim_end(s.drop_last())
    } else {
        s
    }
}

/// `s` with leading and trailing whitespace removed, as `str::trim` does.
pub open spec fn trimmed(s: Seq<char>) -> Seq<char> {
    trim_end(trim_start(s))
}

proof fn lemma_trim_start_from(s: Seq<char>, i: int)
    requires
        0 <= i <= s.len(),
        forall|k: int| 0 <= k < i ==> spec_is_whitespace(#[trigger] s[k]),
    ensures
        trim_start(s) == trim_start(s.subrange(i, s.len() as int)),
    decreases i,
{
    if i > 0 {
        let t = s.drop_first();
        assert forall|k: int| 0 <= k < i - 1 implies spec_is_whitespace(#[trigger] t[k]) by {
            assert(t[k] == s[k + 1]);
        }
        lemma_trim_start_from(t, i - 1);
        assert(t.subrange(i - 1, t.len() as int) =~= s.subrange(i, s.len() as int));
    } else {
        assert(s.subrange(0, s.len() as int) =~= s);
    }
}

proof fn lemma_trim_end_to(s: Seq<char>, j: int)
    requires
        0 <= j <= s.len(),
        forall|k: int| j <= k < s.len() ==> spec_is_whitespace(#[trigger] s[k]),
    ensures
        trim_end(s) == trim_end(s.subrange(0, j)),
    decreases s.len() - j,
{
    if j < s.len() {
        let t = s.drop_last();
        assert forall|k: int| j <= k < t.len() implies spec_is_whitespace(#[trigger] t[k]) by {
            assert(t[k] == s[k]);
        }
        lemma_trim_end_to(t, j);
        assert(t.subrange(0, j) =~= s.subrange(0, j));
    } else {
        assert(s.subrange(0, j) =~= s);
    }
}

/// The characters of `s` with leading and trailing whitespace removed.
pub fn trim_chars(s: &[char]) -> (r: Vec<char>)
    ensures
        r@ == trimmed(s@),
{
    let n = s.len();
    let mut i: usize = 0;
    while i < n && char_is_whitespace(s[i])
        invariant
            i <= n,
            n == s@.len(),
            forall|k: int| 0 <= k < i ==> spec_is_whitespace(#[trigger] s@[k]),
        decreases n - i,
    {
        i = i + 1;
    }
    proof {
        lemma_trim_start_from(s@, i as int);
    }
    let ghost rest = s@.subrange(i as int, n as int);
    assert(rest.len() == 0 || !spec_is_whitespace(rest[0]));
    assert(trim_start(s@) == rest);
    let mut j: usize = n;
    while j > i && char_is_whitespace(s[j - 1])
        invariant
            i <= j <= n,
            n == s@.len(),
            forall|k: int| j <= k < n ==> spec_is_whitespace(#[trigger] s@[k]),
        decreases j,
    {
        j = j - 1;
    }
    proof {
        assert forall|k: int| j - i <= k < rest.len() implies spec_is_whitespace(
            #[trigger] rest[k],
        ) by {
            assert(rest[k] == s@[k + i]);
        }
        lemma_trim_end_to(rest, j - i);
        assert(rest.subrange(0, j - i) =~= s@.subrange(i as int, j as int));
        let body = s@.subrange(i as int, j as int);
        assert(body.len() == 0 || !spec_is_whitespace(body.last()));
    }
    let mut out: Vec<char> = Vec::new();
    let mut k: usize = i;
    while k < j
        invariant
            i <= k <= j <= n,
            n == s@.len(),
            out@ == s@.subrange(i as int, k as int),
        decreases j - k,
    {
        out.push(s[k]);
        assert(s@.subrange(i as int, k as int).push(s@[k as int]) =~= s@.subrange(
            i as int,
            k + 1,
        ));
        k = k + 1;
    }
    out
}

/// The decimal digit character for `d < 10`.
pub open spec fn digit_char(d: nat) -> char {
    if d == 0 {
        '0'
    } else if d == 1 {
        '1'
    } else if d == 2 {
        '2'
    } else if d == 3 {
        '3'
    } else if d == 4 {
        '4'
    } else if d == 5 {
        '5'
    } else if d == 6 {
        '6'
    } else if d == 7 {
        '7'
    } else if d == 8 {
        '8'
    } else {
        '9'
    }
}

/// The decimal rendering of `n`, without leading zeros.
pub open spec fn decimal(n: nat) -> Seq<char>
    decreases n,
{
    if n < 10 {
        seq![digit_char(n)]
    } else {
        decimal(n / 10).push(digit_char(n % 10))
    }
}

fn digit_of(d: usize) -> (c: char)
    requires
        d < 10,
    ensures
        c == digit_char(d as nat),
{
    if d == 0 {
        '0'
    } else if d == 1 {
        '1'
    } else if d == 2 {
        '2'
    } else if d == 3 {
        '3'
    } else if d == 4 {
        '4'
    } else if d == 5 {
        '5'
    } else if d == 6 {
        '6'
    } else if d == 7 {
        '7'
    } else if d == 8 {
        '8'
    } else {
        '9'
    }
}

/// Appends the decimal rendering of `n` to `s`.
pub fn push_decimal(s: &mut String, n: usize)
    ensures
        final(s)@ == old(s)@ + decimal(n as nat),
    decreases n,
{
    if n >= 10 {
        push_decimal(s, n / 10);
    }
    string_push(s, digit_of(n % 10));
    proof {
        if n >= 10 {
            assert(old(s)@ + decimal(n as nat) =~= old(s)@ + decimal((n / 10) as nat) + seq![
                digit_char((n % 10) as nat),
            ]);
        } else {
            assert(old(s)@ + decimal(n as nat) =~= old(s)@.push(digit_char((n % 10) as nat)));
        }
    }
}

/// Strict lexicographic order on character sequences, by code point, as
/// `String`'s `Ord` orders strings.
pub open spec fn chars_less(a: Seq<char>, b: Seq<char>) -> bool
    decreases a.len(),
{
    if a.len() == 0 {
        b.len() > 0
    } else if b.len() == 0 {
        false
    } else if a[0] != b[0] {
        a[0] < b[0]
    } else {
        chars_less(a.drop_first(), b.drop_first())
    }
}

/// No sequence is less than itself.
pub proof fn lemma_chars_less_irreflexive(a: Seq<char>)
    ensures
        !chars_less(a, a),
    decreases a.len(),
{
    if a.len() > 0 {
        lemma_chars_less_irreflexive(a.drop_first());
    }
}

/// Two different sequences are ordered one way or the other.
pub proof fn lemma_chars_less_total(a: Seq<char>, b: Seq<char>)
    ensures
        a == b || chars_less(a, b) || chars_less(b, a),
    decreases a.len(),
{
    if a.len() > 0 && b.len() > 0 && a[0] == b[0] {
        lemma_chars_less_total(a.drop_first(), b.drop_first());
        if a.drop_first() == b.drop_first() {
            assert(a =~= seq![a[0]] + a.drop_first());
            assert(b =~= seq![b[0]] + b.drop_first());
        }
    } else if a.len() > 0 && b.len() > 0 {
        assert(a[0] < b[0] || b[0] < a[0]);
    } else if a.len() == 0 && b.len() == 0 {
        assert(a =~= b);
    }
}

/// The order is transitive.
pub proof fn lemma_chars_less_transitive(a: Seq<char>, b: Seq<char>, c: Seq<char>)
    requires
        chars_less(a, b),
        chars_less(b, c),
    ensures
        chars_less(a, c),
    decreases a.len(),
{
    if a.len() > 0 && b.len() > 0 && c.len() > 0 && a[0] == b[0] && b[0] == c[0] {
        lemma_chars_less_transitive(a.drop_first(), b.drop_first(), c.drop_first());
    }
}

/// Whether `a` orders strictly before `b`.
pub fn str_less(a: &str, b: &str) -> (r: bool)
    ensures
        r == chars_less(a@, b@),
{
    let x = chars_of(a);
    let y = chars_of(b);
    let mut i: usize = 0;
    assert(a@.skip(0) =~= a@);
    assert(b@.skip(0) =~= b@);
    while i < x.len() && i < y.len() && x[i] == y[i]
        invariant
            i <= x.len(),
            i <= y.len(),
            x@ == a@,
            y@ == b@,
            forall|k: int| 0 <= k < i ==> x@[k] == y@[k],
            chars_less(a@, b@) == chars_less(a@.skip(i as int), b@.skip(i as int)),
        decreases x.len() - i,
    {
        proof {
            let s = a@.skip(i as int);
            let t = b@.skip(i as int);
            assert(s.drop_first() =~= a@.skip(i + 1));
            assert(t.drop_first() =~= b@.skip(i + 1));
        }
        i = i + 1;
    }
    if i == x.len() {
        i < y.len()
    } else if i == y.len() {
        false
    } else {
        x[i] < y[i]
    }
}

} // verus!

verus! {

/// A decimal digit.
pub open spec fn is_digit(c: char) -> bool {
    '0' <= c <= '9'
}

/// `c` is the lowercase ASCII letter `l` in either case.
pub open spec fn same_letter(c: char, l: char) -> bool {
    c == l || c as u32 + 32 == l as u32
}

/// `u` spells the lowercase word `w`, ignoring ASCII case.
pub open spec fn spells(u: Seq<char>, w: Seq<char>) -> bool {
    u.len() == w.len() && forall|i: int| 0 <= i < u.len() ==> same_letter(#[trigger] u[i], w[i])
}

/// Digits with at most one decimal point among them, and at least one digit.
pub open spec fn mantissa(m: Seq<char>) -> bool {
    &&& forall|i: int| 0 <= i < m.len() ==> is_digit(#[trigger] m[i]) || m[i] == '.'
    &&& forall|i: int, j: int| 0 <= i < j < m.len() && #[trigger] m[i] == '.' ==> #[trigger] m[j] != '.'
    &&& exists|i: int| 0 <= i < m.len() && is_digit(#[trigger] m[i])
}

/// An optional sign followed by at least one digit.
pub open spec fn exponent_digits(t: Seq<char>) -> bool {
    &&& forall|i: int|
        0 <= i < t.len() ==> is_digit(#[trigger] t[i]) || (i == 0 && (t[0] == '+' || t[0] == '-'))
    &&& exists|i: int| 0 <= i < t.len() && is_digit(#[trigger] t[i])
}

/// A decimal number: a mantissa, optionally followed by `e` and an exponent.
pub open spec fn decimal_number(u: Seq<char>) -> bool {
    mantissa(u) || exists|j: int|
        0 <= j < u.len() && same_letter(#[trigger] u[j], 'e') && mantissa(u.take(j))
            && exponent_digits(u.skip(j + 1))
}

/// `s` without a leading sign.
pub open spec fn unsigned_part(s: Seq<char>) -> Seq<char> {
    if s.len() > 0 && (s[0] == '+' || s[0] == '-') {
        s.drop_first()
    } else {
        s
    }
}

/// The texts `str::parse` reads as a floating-point number, by the grammar
/// the standard library documents (ignoring ASCII case): an optional sign,
/// then `inf`, `infinity`, `nan`, or digits with at most one decimal point
/// and at least one digit, optionally followed by `e`, an optional sign and
/// digits. Surrounding whitespace is not accepted.
pub open spec fn number_text(s: Seq<char>) -> bool {
    let u = unsigned_part(s);
    spells(u, "inf"@) || spells(u, "infinity"@) || spells(u, "nan"@) || decimal_number(u)
}

fn sub_chars(cs: &Vec<char>, lo: usize, hi: usize) -> (r: Vec<char>)
    requires
        lo <= hi <= cs.len(),
    ensures
        r@ == cs@.subrange(lo as int, hi as int),
{
    let mut out: Vec<char> = Vec::new();
    let mut k: usize = lo;
    while k < hi
        invariant
            lo <= k <= hi <= cs.len(),
            out@ == cs@.subrange(lo as int, k as int),
        decreases hi - k,
    {
        out.push(cs[k]);
        assert(cs@.subrange(lo as int, k as int).push(cs@[k as int]) =~= cs@.subrange(
            lo as int,
            k + 1,
        ));
        k = k + 1;
    }
    out
}

fn same_letter_exec(c: char, l: char) -> (r: bool)
    ensures
        r == same_letter(c, l),
{
    c == l || (c as u32) + 32 == (l as u32)
}

fn spells_exec(u: &Vec<char>, w: &str) -> (r: bool)
    ensures
        r == spells(u@, w@),
{
    let ws = chars_of(w);
    if u.len() != ws.len() {
        return false;
    }
    let mut i: usize = 0;
    while i < u.len()
        invariant
            i <= u.len(),
            u.len() == ws@.len(),
            ws@ == w@,
            forall|k: int| 0 <= k < i ==> same_letter(#[trigger] u@[k], ws@[k]),
        decreases u.len() - i,
    {
        if !same_letter_exec(u[i], ws[i]) {
            return false;
        }
        i = i + 1;
    }
    true
}

fn mantissa_exec(m: &Vec<char>) -> (r: bool)
    ensures
        r == mantissa(m@),
{
    let mut seen_dot = false;
    let mut seen_digit = false;
    let mut k: usize = 0;
    while k < m.len()
        invariant
            k <= m.len(),
            forall|i: int| 0 <= i < k ==> is_digit(#[trigger] m@[i]) || m@[i] == '.',
            forall|i: int, j: int| 0 <= i < j < k && #[trigger] m@[i] == '.' ==> #[trigger] m@[j] != '.',
            seen_dot <==> exists|i: int| 0 <= i < k && #[trigger] m@[i] == '.',
            seen_digit <==> exists|i: int| 0 <= i < k && is_digit(#[trigger] m@[i]),
        decreases m.len() - k,
    {
        let c = m[k];
        if '0' <= c && c <= '9' {
            seen_digit = true;
        } else if c == '.' {
            if seen_dot {
                let ghost w = choose|i: int| 0 <= i < k && #[trigger] m@[i] == '.';
                assert(m@[w] == '.' && m@[k as int] == '.');
                return false;
            }
            seen_dot = true;
        } else {
            assert(!(is_digit(m@[k as int]) || m@[k as int] == '.'));
            return false;
        }
        k = k + 1;
    }
    seen_digit
}

fn exponent_exec(t: &Vec<char>) -> (r: bool)
    ensures
        r == exponent_digits(t@),
{
    let mut seen_digit = false;
    let mut k: usize = 0;
    while k < t.len()
        invariant
            k <= t.len(),
            forall|i: int|
                0 <= i < k ==> is_digit(#[trigger] t@[i]) || (i == 0 && (t@[0] == '+' || t@[0]
                    == '-')),
            seen_digit <==> exists|i: int| 0 <= i < k && is_digit(#[trigger] t@[i]),
        decreases t.len() - k,
    {
        let c = t[k];
        if '0' <= c && c <= '9' {
            seen_digit = true;
        } else if k == 0 && (c == '+' || c == '-') {
        } else {
            assert(!(is_digit(t@[k as int]) || (k == 0 && (t@[0] == '+' || t@[0] == '-'))));
            return false;
        }
        k = k + 1;
    }
    seen_digit
}

/// The three texts one after the other.
pub fn joined3(a: &str, b: &str, c: &str) -> (r: String)
    ensures
        r@ == a@ + b@ + c@,
{
    let mut t = String::from_str(a);
    t.append(b);
    t.append(c);
    t
}

/// Whether `str::parse` reads the text as a floating-point number.
pub fn is_number_text(s: &str) -> (r: bool)
    ensures
        r == number_text(s@),
{
    let cs = chars_of(s);
    let n = cs.len();
    let start: usize = if n > 0 && (cs[0] == '+' || cs[0] == '-') {
        1
    } else {
        0
    };
    let u = sub_chars(&cs, start, n);
    assert(u@ =~= unsigned_part(s@));
    if spells_exec(&u, "inf") || spells_exec(&u, "infinity") || spells_exec(&u, "nan") {
        return true;
    }
    let mut j: usize = 0;
    while j < u.len() && !same_letter_exec(u[j], 'e')
        invariant
            j <= u.len(),
            forall|i: int| 0 <= i < j ==> !same_letter(#[trigger] u@[i], 'e'),
        decreases u.len() - j,
    {
        j = j + 1;
    }
    if j == u.len() {
        let r = mantissa_exec(&u);
        assert(!exists|k: int|
            0 <= k < u@.len() && same_letter(#[trigger] u@[k], 'e') && mantissa(u@.take(k))
                && exponent_digits(u@.skip(k + 1)));
        r
    } else {
        let ghost uu = u@;
        assert(!mantissa(uu)) by {
            assert(!(is_digit(uu[j as int]) || uu[j as int] == '.'));
        }
        let head = sub_chars(&u, 0, j);
        let tail = sub_chars(&u, j + 1, u.len());
        assert(head@ =~= uu.take(j as int));
        assert(tail@ =~= uu.skip(j + 1));
        let r = mantissa_exec(&head) && exponent_exec(&tail);
        assert(decimal_number(uu) == (mantissa(uu.take(j as int)) && exponent_digits(uu.skip(j + 1))))
            by {
            if exists|k: int|
                0 <= k < uu.len() && same_letter(#[trigger] uu[k], 'e') && mantissa(uu.take(k))
                    && exponent_digits(uu.skip(k + 1)) {
                let k = choose|k: int|
                    0 <= k < uu.len() && same_letter(#[trigger] uu[k], 'e') && mantissa(uu.take(k))
                        && exponent_digits(uu.skip(k + 1));
                if k > j {
                    let m = uu.take(k);
                    assert(m[j as int] == uu[j as int]);
                    assert(!(is_digit(m[j as int]) || m[j as int] == '.'));
                }
                assert(k == j);
            }
            if mantissa(uu.take(j as int)) && exponent_digits(uu.skip(j + 1)) {
                assert(same_letter(uu[j as int], 'e'));
            }
        }
        r
    }
}

} // verus!
