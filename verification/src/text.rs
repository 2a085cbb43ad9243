//! Text helpers shared by the rules: Unicode trimming, lowercasing and
//! decimal formatting.
use vstd::prelude::*;

verus! {

/// Whether `c` has the Unicode `White_Space` property: tab, line feed,
/// vertical tab, form feed, carriage return, space, next line, no-break
/// space, ogham space mark, the eleven spaces from en quad to hair space,
/// line and paragraph separator, narrow no-break space, medium mathematical
/// space and ideographic space.
pub open spec fn is_white_space(c: char) -> bool {
    let u = c as u32;
    ||| 0x9 <= u <= 0xD
    ||| u == 0x20
    ||| u == 0x85
    ||| u == 0xA0
    ||| u == 0x1680
    ||| 0x2000 <= u <= 0x200A
    ||| u == 0x2028
    ||| u == 0x2029
    ||| u == 0x202F
    ||| u == 0x205F
    ||| u == 0x3000
}

/// Whether `c` is white space, as `char::is_whitespace` decides it.
pub fn char_is_whitespace(c: char) -> (r: bool)
    ensures
        r == is_white_space(c),
{
    let u = c as u32;
    (0x9 <= u && u <= 0xD) || u == 0x20 || u == 0x85 || u == 0xA0 || u == 0x1680 || (0x2000 <= u && u
        <= 0x200A) || u == 0x2028 || u == 0x2029 || u == 0x202F || u == 0x205F || u == 0x3000
}

/// `i..j` are the bounds of `s` once leading and trailing white space is cut.
pub open spec fn is_trim_of(s: Seq<char>, i: int, j: int) -> bool {
    &&& 0 <= i <= j <= s.len()
    &&& forall|k: int| 0 <= k < i ==> is_white_space(#[trigger] s[k])
    &&& forall|k: int| j <= k < s.len() ==> is_white_space(#[trigger] s[k])
    &&& i < j ==> !is_white_space(s[i]) && !is_white_space(s[j - 1])
}

/// `s` without its leading and trailing white space.
pub open spec fn trimmed(s: Seq<char>) -> Seq<char> {
    let (i, j) = choose|i: int, j: int| is_trim_of(s, i, j);
    s.subrange(i, j)
}

/// Any two trim bounds of a sequence cut out the same text.
pub proof fn lemma_trim_bounds_unique(s: Seq<char>, i1: int, j1: int, i2: int, j2: int)
    requires
        is_trim_of(s, i1, j1),
        is_trim_of(s, i2, j2),
    ensures
        s.subrange(i1, j1) == s.subrange(i2, j2),
{
    if i1 < j1 && i2 < j2 {
        if i1 < i2 {
            assert(is_white_space(s[i1]));
        }
        if i2 < i1 {
            assert(is_white_space(s[i2]));
        }
        if j1 < j2 {
            assert(is_white_space(s[j2 - 1]));
        }
        if j2 < j1 {
            assert(is_white_space(s[j1 - 1]));
        }
        assert(i1 == i2 && j1 == j2);
    } else if i1 < j1 {
        // i2 == j2: every character is white space, so s[i1] would be too
        if i1 < i2 {
            assert(is_white_space(s[i1]));
        } else {
            assert(is_white_space(s[i1]));
        }
    } else if i2 < j2 {
        if i2 < i1 {
            assert(is_white_space(s[i2]));
        } else {
            assert(is_white_space(s[i2]));
        }
    } else {
        assert(s.subrange(i1, j1) =~= s.subrange(i2, j2));
    }
}

/// The trimmed text is the one cut out by any trim bounds.
pub proof fn lemma_trimmed_by_bounds(s: Seq<char>, i: int, j: int)
    requires
        is_trim_of(s, i, j),
    ensures
        trimmed(s) == s.subrange(i, j),
{
    let (a, b) = choose|a: int, b: int| is_trim_of(s, a, b);
    lemma_trim_bounds_unique(s, a, b, i, j);
}

/// Trimming leaves nothing exactly when every character is white space.
pub proof fn lemma_trimmed_empty(s: Seq<char>, i: int, j: int)
    requires
        is_trim_of(s, i, j),
    ensures
        trimmed(s).len() == 0 <==> forall|k: int| 0 <= k < s.len() ==> is_white_space(#[trigger] s[k]),
{
    lemma_trimmed_by_bounds(s, i, j);
    if i < j {
        assert(!is_white_space(s[i]));
    }
}

/// The characters of `s`, in order.
pub fn chars_of(s: &str) -> (r: Vec<char>)
    ensures
        r@ == s@,
{
    broadcast use vstd::string::group_string_axioms;
    let mut v: Vec<char> = Vec::new();
    for c in it: s.chars()
        invariant
            v@ == it.seq().take(it.index()),
    {
        v.push(c);
    }
    v
}


/// Leading and trailing white-space bounds of a character vector.
fn trim_bounds(cs: &Vec<char>) -> (r: (usize, usize))
    ensures
        is_trim_of(cs@, r.0 as int, r.1 as int),
{
    let n = cs.len();
    let mut i: usize = 0;
    while i < n && char_is_whitespace(cs[i])
        invariant
            i <= n == cs@.len(),
            forall|k: int| 0 <= k < i ==> is_white_space(#[trigger] cs@[k]),
        decreases n - i,
    {
        i = i + 1;
    }
    let mut j: usize = n;
    while j > i && char_is_whitespace(cs[j - 1])
        invariant
            i <= j <= n == cs@.len(),
            forall|k: int| j <= k < n ==> is_white_space(#[trigger] cs@[k]),
            i < n ==> !is_white_space(cs@[i as int]),
        decreases j,
    {
        j = j - 1;
    }
    (i, j)
}

/// `str::trim`: the text without leading and trailing white space.
pub fn trim(s: &str) -> (r: &str)
    ensures
        r@ == trimmed(s@),
{
    let cs = chars_of(s);
    let (i, j) = trim_bounds(&cs);
    proof {
        lemma_trimmed_by_bounds(s@, i as int, j as int);
    }
    s.substring_char(i, j)
}

/// The trimmed text as an owned string.
pub fn trim_owned(s: &str) -> (r: String)
    ensures
        r@ == trimmed(s@),
{
    trim(s).to_owned()
}

/// Whether the text holds nothing but white space.
pub fn is_blank(s: &str) -> (r: bool)
    ensures
        r == (trimmed(s@).len() == 0),
        r == forall|k: int| 0 <= k < s@.len() ==> is_white_space(#[trigger] s@[k]),
{
    let cs = chars_of(s);
    let (i, j) = trim_bounds(&cs);
    proof {
        lemma_trimmed_empty(s@, i as int, j as int);
        lemma_trimmed_by_bounds(s@, i as int, j as int);
    }
    i == j
}

/// Trimming twice is trimming once.
pub proof fn lemma_trim_idempotent(s: Seq<char>)
    ensures
        trimmed(trimmed(s)) == trimmed(s),
{
    let (i, j) = lemma_trim_bounds_exist(s);
    lemma_trimmed_by_bounds(s, i, j);
    let t = s.subrange(i, j);
    assert(is_trim_of(t, 0, t.len() as int));
    lemma_trimmed_by_bounds(t, 0, t.len() as int);
    assert(t.subrange(0, t.len() as int) =~= t);
}

/// Every sequence has trim bounds.
pub proof fn lemma_trim_bounds_exist(s: Seq<char>) -> (r: (int, int))
    ensures
        is_trim_of(s, r.0, r.1),
    decreases s.len(),
{
    if s.len() == 0 {
        (0, 0)
    } else {
        let d = s.drop_last();
        let (i, j) = lemma_trim_bounds_exist(d);
        assert(forall|k: int| 0 <= k < d.len() ==> #[trigger] d[k] == s[k]);
        if i == j {
            assert forall|k: int| 0 <= k < d.len() implies is_white_space(#[trigger] s[k]) by {
                assert(d[k] == s[k]);
                if k < i {
                } else {
                }
            }
        }
        if is_white_space(s.last()) {
            if i < j {
                assert forall|k: int| j <= k < s.len() implies is_white_space(#[trigger] s[k]) by {
                    if k < d.len() {
                        assert(d[k] == s[k]);
                    }
                }
                assert forall|k: int| 0 <= k < i implies is_white_space(#[trigger] s[k]) by {
                    assert(d[k] == s[k]);
                }
                (i, j)
            } else {
                (s.len() as int, s.len() as int)
            }
        } else {
            if i < j {
                assert forall|k: int| 0 <= k < i implies is_white_space(#[trigger] s[k]) by {
                    assert(d[k] == s[k]);
                }
                assert(d[i] == s[i]);
                (i, s.len() as int)
            } else {
                (s.len() - 1, s.len() as int)
            }
        }
    }
}


/// The lowercase hexadecimal digit for `d` (below sixteen).
pub open spec fn hex_digit(d: int) -> char {
    if d == 0 { '0' }
    else if d == 1 { '1' }
    else if d == 2 { '2' }
    else if d == 3 { '3' }
    else if d == 4 { '4' }
    else if d == 5 { '5' }
    else if d == 6 { '6' }
    else if d == 7 { '7' }
    else if d == 8 { '8' }
    else if d == 9 { '9' }
    else if d == 10 { 'a' }
    else if d == 11 { 'b' }
    else if d == 12 { 'c' }
    else if d == 13 { 'd' }
    else if d == 14 { 'e' }
    else if d == 15 { 'f' }
    else { 'f' }
}

/// A one-character literal holding `hex_digit(d)`.
fn digit_str(d: u8) -> (r: &'static str)
    requires
        d < 16,
    ensures
        r@ == seq![hex_digit(d as int)],
{
    if d == 0 {
        proof { reveal_strlit("0"); }
        "0"
    } else if d == 1 {
        proof { reveal_strlit("1"); }
        "1"
    } else if d == 2 {
        proof { reveal_strlit("2"); }
        "2"
    } else if d == 3 {
        proof { reveal_strlit("3"); }
        "3"
    } else if d == 4 {
        proof { reveal_strlit("4"); }
        "4"
    } else if d == 5 {
        proof { reveal_strlit("5"); }
        "5"
    } else if d == 6 {
        proof { reveal_strlit("6"); }
        "6"
    } else if d == 7 {
        proof { reveal_strlit("7"); }
        "7"
    } else if d == 8 {
        proof { reveal_strlit("8"); }
        "8"
    } else if d == 9 {
        proof { reveal_strlit("9"); }
        "9"
    } else if d == 10 {
        proof { reveal_strlit("a"); }
        "a"
    } else if d == 11 {
        proof { reveal_strlit("b"); }
        "b"
    } else if d == 12 {
        proof { reveal_strlit("c"); }
        "c"
    } else if d == 13 {
        proof { reveal_strlit("d"); }
        "d"
    } else if d == 14 {
        proof { reveal_strlit("e"); }
        "e"
    } else {
        proof { reveal_strlit("f"); }
        "f"
    }
}

/// Decimal digits of `n`, most significant first, without sign.
pub open spec fn nat_text(n: nat) -> Seq<char>
    decreases n,
{
    if n < 10 {
        seq![hex_digit(n as int)]
    } else {
        nat_text(n / 10).push(hex_digit((n % 10) as int))
    }
}

/// Decimal text of an integer, as `Display` writes it: a minus sign for
/// negative numbers, then the digits.
pub open spec fn int_text(n: int) -> Seq<char> {
    if n < 0 {
        seq!['-'] + nat_text((-n) as nat)
    } else {
        nat_text(n as nat)
    }
}

/// `k` copies of the character zero.
pub open spec fn zeros(k: int) -> Seq<char> {
    Seq::new(if k > 0 { k as nat } else { 0 }, |_i: int| '0')
}

/// Decimal text of `n` zero-padded to `width` characters after any sign,
/// as the `{:0width}` format writes it.
pub open spec fn padded_int_text(n: int, width: int) -> Seq<char> {
    if n < 0 {
        seq!['-'] + zeros(width - 1 - nat_text((-n) as nat).len()) + nat_text((-n) as nat)
    } else {
        zeros(width - nat_text(n as nat).len()) + nat_text(n as nat)
    }
}

/// Append the decimal digits of `n`.
pub fn push_nat(out: &mut String, n: u64)
    ensures
        final(out)@ == old(out)@ + nat_text(n as nat),
    decreases n,
{
    if n >= 10 {
        push_nat(out, n / 10);
    }
    out.append(digit_str((n % 10) as u8));
    proof {
        if n >= 10 {
            assert(nat_text(n as nat) == nat_text((n / 10) as nat).push(hex_digit((n % 10) as int)));
        }
    }
}

/// `u64::to_string`.
pub fn u64_text(n: u64) -> (r: String)
    ensures
        r@ == nat_text(n as nat),
{
    let mut out = String::new();
    push_nat(&mut out, n);
    out
}

/// The magnitude of `n` as an unsigned number.
fn magnitude(n: i64) -> (r: u64)
    ensures
        r as int == if n < 0 { -n } else { n as int },
{
    if n < 0 {
        (0i128 - n as i128) as u64
    } else {
        n as u64
    }
}

/// Append the decimal text of `n`.
pub fn push_int(out: &mut String, n: i64)
    ensures
        final(out)@ == old(out)@ + int_text(n as int),
{
    if n < 0 {
        proof { reveal_strlit("-"); }
        out.append("-");
    }
    push_nat(out, magnitude(n));
}

/// `i64::to_string`.
pub fn i64_text(n: i64) -> (r: String)
    ensures
        r@ == int_text(n as int),
{
    let mut out = String::new();
    push_int(&mut out, n);
    out
}

/// Append `k` zeros.
fn push_zeros(out: &mut String, k: i64)
    ensures
        final(out)@ == old(out)@ + zeros(k as int),
{
    let mut i: i64 = 0;
    while i < k
        invariant
            0 <= i,
            i <= k || (k < 0 && i == 0),
            out@ == old(out)@ + zeros(i as int),
        decreases k - i,
    {
        proof { reveal_strlit("0"); }
        out.append("0");
        i = i + 1;
        assert(out@ =~= old(out)@ + zeros(i as int));
    }
    if k < 0 {
        assert(zeros(k as int) =~= zeros(i as int));
    }
}

/// Number of decimal digits of `n`.
fn digit_count(n: u64) -> (r: i64)
    ensures
        r as int == nat_text(n as nat).len(),
        1 <= r <= 20,
    decreases n,
{
    proof { lemma_nat_text_len(n as nat); }
    if n < 10 {
        1
    } else {
        1 + digit_count(n / 10)
    }
}

/// A `u64` has at most twenty decimal digits.
proof fn lemma_nat_text_len(n: nat)
    requires
        n <= u64::MAX,
    ensures
        1 <= nat_text(n).len(),
        n < 10 ==> nat_text(n).len() == 1,
        n >= 10 ==> nat_text(n).len() == nat_text(n / 10).len() + 1,
        nat_text(n).len() <= 20,
{
    assert(pow10(20) == 100000000000000000000) by {
        reveal_with_fuel(pow10, 21);
    }
    lemma_nat_text_shorter(n, 20);
    if n >= 10 {
        lemma_nat_text_shorter(n / 10, 20);
    }
}

/// Numbers below ten to the `k` have at most `k` digits.
proof fn lemma_nat_text_shorter(n: nat, k: nat)
    requires
        1 <= k,
        n < pow10(k),
    ensures
        nat_text(n).len() <= k,
    decreases n,
{
    if n >= 10 {
        assert(k >= 2) by {
            if k == 1 {
                assert(pow10(1) == 10 * pow10(0));
            }
        }
        assert(pow10(k) == 10 * pow10((k - 1) as nat));
        assert(n / 10 < pow10((k - 1) as nat));
        lemma_nat_text_shorter(n / 10, (k - 1) as nat);
    }
}

/// Ten to the `k`.
pub open spec fn pow10(k: nat) -> nat
    decreases k,
{
    if k == 0 { 1 } else { 10 * pow10((k - 1) as nat) }
}

/// `format!("{n:0width$}")` for a year-like number.
pub fn padded_i64_text(n: i64, width: i64) -> (r: String)
    requires
        0 <= width <= 64,
    ensures
        r@ == padded_int_text(n as int, width as int),
{
    let mut out = String::new();
    let m = magnitude(n);
    let digits = digit_count(m);
    if n < 0 {
        proof { reveal_strlit("-"); }
        out.append("-");
        push_zeros(&mut out, width - 1 - digits);
    } else {
        push_zeros(&mut out, width - digits);
    }
    push_nat(&mut out, m);
    proof {
        if n < 0 {
            assert(out@ =~= seq!['-'] + zeros(width - 1 - nat_text((-n) as nat).len()) + nat_text((-n) as nat));
        } else {
            assert(out@ =~= zeros(width - nat_text(n as nat).len()) + nat_text(n as nat));
        }
    }
    out
}

/// Lowercase hexadecimal text of a byte sequence, two digits per byte.
pub open spec fn hex_text(bytes: Seq<u8>) -> Seq<char>
    decreases bytes.len(),
{
    if bytes.len() == 0 {
        Seq::empty()
    } else {
        hex_text(bytes.drop_last()) + seq![
            hex_digit((bytes.last() / 16) as int),
            hex_digit((bytes.last() % 16) as int),
        ]
    }
}

/// Lowercase hexadecimal text of bytes, as `{:x}` writes a digest.
pub fn hex_lower(bytes: &[u8]) -> (r: String)
    ensures
        r@ == hex_text(bytes@),
{
    let mut out = String::new();
    let n = bytes.len();
    let mut i: usize = 0;
    while i < n
        invariant
            i <= n == bytes@.len(),
            out@ == hex_text(bytes@.take(i as int)),
        decreases n - i,
    {
        let b = bytes[i];
        out.append(digit_str(b / 16));
        out.append(digit_str(b % 16));
        proof {
            let t = bytes@.take(i as int + 1);
            assert(t.drop_last() =~= bytes@.take(i as int));
            assert(t.last() == b);
        }
        i = i + 1;
    }
    assert(bytes@.take(n as int) =~= bytes@);
    out
}


/// The Unicode lowercase mapping of a text, as `str::to_lowercase` computes it.
pub uninterp spec fn lowercase(s: Seq<char>) -> Seq<char>;

/// `str::to_lowercase`: the Unicode lowercase form of the text, named
/// `lowercase`; its tables are not restated here. Every character has a
/// lowercase form of at least one character, so only the empty text maps to
/// the empty text.
#[verifier::external_body]
pub(crate) fn to_lowercase(s: &str) -> (r: String)
    ensures
        r@ == lowercase(s@),
        r@.len() == 0 <==> s@.len() == 0,
{
    s.to_lowercase()
}

/// `s` with every `from` character replaced by the text `to`.
pub open spec fn replaced(s: Seq<char>, from: char, to: Seq<char>) -> Seq<char>
    decreases s.len(),
{
    if s.len() == 0 {
        Seq::empty()
    } else {
        replaced(s.drop_last(), from, to) + if s.last() == from {
            to
        } else {
            seq![s.last()]
        }
    }
}

/// Every occurrence of the character `from` replaced by the text `to`, as
/// `str::replace` does with a character pattern.
pub fn replace_char(s: &str, from: char, to: &str) -> (r: String)
    ensures
        r@ == replaced(s@, from, to@),
{
    let chars = chars_of(s);
    let mut out = String::new();
    let n = chars.len();
    let mut i: usize = 0;
    while i < n
        invariant
            i <= n == s@.len(),
            chars@ == s@,
            out@ == replaced(s@.take(i as int), from, to@),
        decreases n - i,
    {
        proof {
            let t = s@.take(i as int + 1);
            assert(t.drop_last() =~= s@.take(i as int));
            assert(t.last() == s@[i as int]);
        }
        if chars[i] == from {
            out.append(to);
        } else {
            let one = s.substring_char(i, i + 1);
            assert(one@ =~= seq![s@[i as int]]);
            out.append(one);
        }
        i = i + 1;
    }
    assert(s@.take(n as int) =~= s@);
    out
}

/// Whether two texts hold the same characters.
pub fn str_eq(a: &str, b: &str) -> (r: bool)
    ensures
        r == (a@ == b@),
{
    a.to_owned() == b.to_owned()
}

/// Whether `suffix` ends `s`.
pub open spec fn has_suffix(s: Seq<char>, suffix: Seq<char>) -> bool {
    suffix.len() <= s.len() && s.subrange(s.len() - suffix.len(), s.len() as int) == suffix
}

/// `str::ends_with` for a text suffix.
pub fn ends_with(s: &str, suffix: &str) -> (r: bool)
    ensures
        r == has_suffix(s@, suffix@),
{
    let a = chars_of(s);
    let b = chars_of(suffix);
    if b.len() > a.len() {
        return false;
    }
    let off = a.len() - b.len();
    let mut i: usize = 0;
    while i < b.len()
        invariant
            i <= b@.len(),
            off + b@.len() == a@.len(),
            a@.len() == a.len(),
            a@ == s@,
            b@ == suffix@,
            forall|k: int| 0 <= k < i ==> a@[off + k] == b@[k],
        decreases b.len() - i,
    {
        if a[off + i] != b[i] {
            proof {
                let t = s@.subrange(off as int, s@.len() as int);
                assert(t[i as int] != suffix@[i as int]);
            }
            return false;
        }
        i = i + 1;
    }
    assert(s@.subrange(off as int, s@.len() as int) =~= suffix@);
    true
}

/// Concatenation of two texts.
pub fn concat(a: &str, b: &str) -> (r: String)
    ensures
        r@ == a@ + b@,
{
    let mut out = a.to_owned();
    out.append(b);
    out
}

} // verus!
