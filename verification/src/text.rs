//! Decimal numerals, as the store and the menu write them.
use vstd::prelude::*;

verus! {

/// The character of a decimal digit.
pub open spec fn digit_char(d: nat) -> char {
    if d == 0 {
        '0'
    } else if d == 1 {
        '1'
    } else if d == 2 {
        '2'
    } else if d == 3 {
        '3'
    } else if d == 4 {
        '4'
    } else if d == 5 {
        '5'
    } else if d == 6 {
        '6'
    } else if d == 7 {
        '7'
    } else if d == 8 {
        '8'
    } else {
        '9'
    }
}

/// The decimal numeral of `n`, without leading zeros.
pub open spec fn digits(n: nat) -> Seq<char>
    decreases n,
{
    if n < 10 {
        seq![digit_char(n)]
    } else {
        digits(n / 10).push(digit_char(n % 10))
    }
}

/// The decimal numeral of `n`, with a leading `-` when it is negative.
pub open spec fn signed_digits(n: int) -> Seq<char> {
    if n < 0 {
        seq!['-'] + digits((-n) as nat)
    } else {
        digits(n as nat)
    }
}

/// A numeral has at least one digit, and two or more from ten on.
pub proof fn lemma_digits_len(n: nat)
    ensures
        digits(n).len() >= 1,
        n >= 10 ==> digits(n).len() >= 2,
    decreases n,
{
    if n >= 10 {
        lemma_digits_len(n / 10);
    }
}

/// Different numbers have different numerals.
pub proof fn lemma_digits_injective(a: nat, b: nat)
    requires
        digits(a) == digits(b),
    ensures
        a == b,
    decreases a,
{
    lemma_digits_len(a);
    lemma_digits_len(b);
    if a >= 10 && b >= 10 {
        assert(digits(a).drop_last() == digits(a / 10));
        assert(digits(b).drop_last() == digits(b / 10));
        lemma_digits_injective(a / 10, b / 10);
        assert(digits(a).last() == digit_char(a % 10));
    } else if a < 10 && b < 10 {
        assert(digits(a)[0] == digit_char(a));
        assert(digits(b)[0] == digit_char(b));
    } else {
        assert(digits(a).len() != digits(b).len());
    }
}

fn digit_str(d: u128) -> (s: &'static str)
    requires
        d < 10,
    ensures
        s@ == seq![digit_char(d as nat)],
{
    proof {
        reveal_strlit("0");
        reveal_strlit("1");
        reveal_strlit("2");
        reveal_strlit("3");
        reveal_strlit("4");
        reveal_strlit("5");
        reveal_strlit("6");
        reveal_strlit("7");
        reveal_strlit("8");
        reveal_strlit("9");
    }
    if d == 0 {
        "0"
    } else if d == 1 {
        "1"
    } else if d == 2 {
        "2"
    } else if d == 3 {
        "3"
    } else if d == 4 {
        "4"
    } else if d == 5 {
        "5"
    } else if d == 6 {
        "6"
    } else if d == 7 {
        "7"
    } else if d == 8 {
        "8"
    } else {
        "9"
    }
}

/// The decimal numeral of `n` (as `n.to_string()`).
pub fn decimal(n: u128) -> (s: String)
    ensures
        s@ == digits(n as nat),
    decreases n,
{
    if n < 10 {
        digit_str(n).to_owned()
    } else {
        let mut s = decimal(n / 10);
        s.append(digit_str(n % 10));
        s
    }
}

/// The decimal numeral of `n`, signed (as `n.to_string()`).
pub fn signed_decimal(n: i64) -> (s: String)
    ensures
        s@ == signed_digits(n as int),
{
    if n < 0 {
        let magnitude: u128 = (0 - (n as i128)) as u128;
        let mut s = "-".to_owned();
        proof {
            reveal_strlit("-");
        }
        let d = decimal(magnitude);
        s.append(d.as_str());
        s
    } else {
        decimal(n as u128)
    }
}

/// The three digits of `r` (below a thousand), with leading zeros.
pub open spec fn three_digits(r: nat) -> Seq<char> {
    seq![digit_char(r / 100), digit_char((r / 10) % 10), digit_char(r % 10)]
}

/// The decimal numeral of `n` with a comma before every group of three digits
/// counted from the right (1234567 is written 1,234,567).
pub open spec fn grouped_digits(n: nat) -> Seq<char>
    decreases n,
{
    if n < 1000 {
        digits(n)
    } else {
        grouped_digits(n / 1000) + seq![','] + three_digits(n % 1000)
    }
}

/// The decimal numeral of `n` with thousands separated by commas.
pub fn group_thousands(n: u64) -> (s: String)
    ensures
        s@ == grouped_digits(n as nat),
    decreases n,
{
    if n < 1000 {
        decimal(n as u128)
    } else {
        let mut s = group_thousands(n / 1000);
        let r = n % 1000;
        proof {
            reveal_strlit(",");
        }
        s.append(",");
        s.append(digit_str((r / 100) as u128));
        s.append(digit_str(((r / 10) % 10) as u128));
        s.append(digit_str((r % 10) as u128));
        s
    }
}

/// The numeral of a number from a thousand on: the numeral of its thousands
/// followed by its last three digits.
proof fn lemma_digits_split_thousands(n: nat)
    requires
        n >= 1000,
    ensures
        digits(n) == digits(n / 1000) + three_digits(n % 1000),
{
    let q = n / 1000;
    let r = n % 1000;
    let d2 = r / 100;
    let d1 = (r / 10) % 10;
    let d0 = r % 10;
    assert(r == 100 * d2 + 10 * d1 + d0);
    assert(n == 1000 * q + r);
    let a = n / 10;
    let b = a / 10;
    let c = b / 10;
    vstd::arithmetic::div_mod::lemma_fundamental_div_mod_converse(n as int, 10, (100 * q + 10 * d2 + d1) as int, d0 as int);
    vstd::arithmetic::div_mod::lemma_fundamental_div_mod_converse(a as int, 10, (10 * q + d2) as int, d1 as int);
    vstd::arithmetic::div_mod::lemma_fundamental_div_mod_converse(b as int, 10, q as int, d2 as int);
    assert(digits(n) == digits(a).push(digit_char(n % 10)));
    assert(digits(a) == digits(b).push(digit_char(a % 10)));
    assert(digits(b) == digits(c).push(digit_char(b % 10)));
    assert(digits(n) =~= digits(c) + three_digits(n % 1000));
}

/// Law: dropping the commas of a grouped numeral gives the plain numeral.
pub proof fn law_grouping_keeps_digits(n: nat)
    ensures
        grouped_digits(n).filter(|c: char| c != ',') == digits(n),
    decreases n,
{
    if n < 1000 {
        lemma_digits_have_no_comma(n);
    } else {
        law_grouping_keeps_digits(n / 1000);
        lemma_digits_split_thousands(n);
        let hi = grouped_digits(n / 1000);
        let lo = three_digits(n % 1000);
        Seq::filter_distributes_over_add(hi + seq![','], lo, |c: char| c != ',');
        Seq::filter_distributes_over_add(hi, seq![','], |c: char| c != ',');
        lemma_filter_single(',');
        lemma_filter_keeps_comma_free(lo);
    }
}

proof fn lemma_filter_single(x: char)
    ensures
        seq![x].filter(|c: char| c != ',') == (if x == ',' { Seq::<char>::empty() } else { seq![x] }),
{
    reveal_with_fuel(Seq::filter, 2);
    assert(seq![x].drop_last() =~= Seq::<char>::empty());
    if x == ',' {
        assert(seq![x].filter(|c: char| c != ',') =~= Seq::<char>::empty());
    } else {
        assert(seq![x].filter(|c: char| c != ',') =~= seq![x]);
    }
}

proof fn lemma_filter_keeps_comma_free(s: Seq<char>)
    requires
        forall|i: int| 0 <= i < s.len() ==> s[i] != ',',
    ensures
        s.filter(|c: char| c != ',') == s,
    decreases s.len(),
{
    reveal_with_fuel(Seq::filter, 1);
    if s.len() > 0 {
        lemma_filter_keeps_comma_free(s.drop_last());
        assert(s.drop_last().push(s.last()) =~= s);
    }
}

proof fn lemma_digits_comma_free(n: nat)
    ensures
        forall|i: int| 0 <= i < digits(n).len() ==> digits(n)[i] != ',',
    decreases n,
{
    if n >= 10 {
        lemma_digits_comma_free(n / 10);
        let last = digit_char(n % 10);
        assert(last != ',');
        assert forall|i: int| 0 <= i < digits(n).len() implies digits(n)[i] != ',' by {
            if i < digits(n / 10).len() {
                assert(digits(n)[i] == digits(n / 10)[i]);
            } else {
                assert(digits(n)[i] == last);
            }
        }
    } else {
        assert(digit_char(n) != ',');
        assert(digits(n)[0] == digit_char(n));
    }
}

proof fn lemma_digits_have_no_comma(n: nat)
    ensures
        digits(n).filter(|c: char| c != ',') == digits(n),
{
    lemma_digits_comma_free(n);
    lemma_filter_keeps_comma_free(digits(n));
}

/// The ASCII lower case of a character (as `char::to_ascii_lowercase`).
pub open spec fn ascii_lower(c: char) -> char {
    if 'A' <= c && c <= 'Z' {
        ((c as u32) + 32) as char
    } else {
        c
    }
}

/// The ASCII lower case of a text (as `str::to_ascii_lowercase`).
pub open spec fn ascii_lowercase(s: Seq<char>) -> Seq<char> {
    s.map_values(|c: char| ascii_lower(c))
}

/// Whether `needle` occurs in `haystack` (as `str::contains`).
pub open spec fn contains_text(haystack: Seq<char>, needle: Seq<char>) -> bool {
    exists|i: int| 0 <= i <= haystack.len() - needle.len() && #[trigger] haystack.subrange(i, i + needle.len()) == needle
}

fn lower_char(c: char) -> (r: char)
    ensures
        r == ascii_lower(c),
{
    if 'A' <= c && c <= 'Z' {
        let code: u32 = (c as u32) + 32;
        assert(65 <= code - 32 <= 90);
        let lowered = char_from_ascii(code);
        lowered
    } else {
        c
    }
}

fn char_from_ascii(code: u32) -> (c: char)
    requires
        97 <= code <= 122,
    ensures
        c == code as char,
{
    let table: [char; 26] = [
        'a', 'b', 'c', 'd', 'e', 'f', 'g', 'h', 'i', 'j', 'k', 'l', 'm', 'n', 'o', 'p', 'q', 'r',
        's', 't', 'u', 'v', 'w', 'x', 'y', 'z',
    ];
    let c = table[(code - 97) as usize];
    assert(c == code as char) by {
        assert(table@[(code - 97) as int] as u32 == code);
    }
    c
}

/// The characters of a text, in ASCII lower case.
pub fn lowercase_chars(s: &str) -> (r: Vec<char>)
    ensures
        r@ == ascii_lowercase(s@),
{
    let n = s.unicode_len();
    let mut r: Vec<char> = Vec::new();
    let mut i: usize = 0;
    while i < n
        invariant
            n == s@.len(),
            i <= n,
            r@ == ascii_lowercase(s@.take(i as int)),
        decreases n - i,
    {
        let c = lower_char(s.get_char(i));
        r.push(c);
        assert(ascii_lowercase(s@.take(i + 1)) =~= ascii_lowercase(s@.take(i as int)).push(ascii_lower(s@[i as int])));
        i += 1;
    }
    assert(s@.take(n as int) =~= s@);
    r
}

/// Whether `needle` occurs in `haystack`, both given as characters.
pub fn contains_chars(haystack: &Vec<char>, needle: &Vec<char>) -> (r: bool)
    ensures
        r == contains_text(haystack@, needle@),
{
    let h = haystack.len();
    let n = needle.len();
    if n > h {
        return false;
    }
    let mut i: usize = 0;
    while i <= h - n
        invariant
            h == haystack@.len(),
            n == needle@.len(),
            n <= h,
            i <= h - n + 1,
            forall|k: int| 0 <= k < i ==> #[trigger] haystack@.subrange(k, k + n) != needle@,
        decreases h - n + 1 - i,
    {
        let mut j: usize = 0;
        let mut same = true;
        while j < n
            invariant
                h == haystack@.len(),
                n == needle@.len(),
                i + n <= h,
                j <= n,
                same == (forall|t: int| 0 <= t < j ==> haystack@[i + t] == needle@[t]),
            decreases n - j,
        {
            if haystack[i + j] != needle[j] {
                same = false;
            }
            j += 1;
        }
        if same {
            assert(haystack@.subrange(i as int, i + n) =~= needle@);
            return true;
        }
        assert(haystack@.subrange(i as int, i + n) != needle@) by {
            let t = choose|t: int| 0 <= t < n && haystack@[i + t] != needle@[t];
            assert(haystack@.subrange(i as int, i + n)[t] == haystack@[i + t]);
        }
        i += 1;
    }
    false
}

/// The characters of a text.
pub fn chars_of(s: &str) -> (r: Vec<char>)
    ensures
        r@ == s@,
{
    let n = s.unicode_len();
    let mut r: Vec<char> = Vec::new();
    let mut i: usize = 0;
    while i < n
        invariant
            n == s@.len(),
            i <= n,
            r@ == s@.take(i as int),
        decreases n - i,
    {
        r.push(s.get_char(i));
        assert(s@.take(i + 1) =~= s@.take(i as int).push(s@[i as int]));
        i += 1;
    }
    assert(s@.take(n as int) =~= s@);
    r
}

} // verus!
