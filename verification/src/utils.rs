//! Small string utilities shared by the renderers: per-character folds,
//! decimal formatting and the kebab-case filename helper.

use vstd::prelude::*;

verus! {

/// Appends one character to a string.
///
/// Relies on `String::push`: appends the given `char` to the end of the
/// `String`.
#[verifier::external_body]
pub fn push_char(out: &mut String, c: char)
    ensures
        final(out)@ == old(out)@.push(c),
{
    out.push(c);
}

/// What an outside character classifier answers for `char::is_alphanumeric`;
/// the Unicode property is far too large to restate here.
pub uninterp spec fn unicode_alphanumeric(c: char) -> bool;

/// What an outside character classifier answers for `char::is_whitespace`.
pub uninterp spec fn unicode_whitespace(c: char) -> bool;

/// Relies on `char::is_alphanumeric`: true exactly for Unicode alphabetic
/// and numeric characters, a function of the character alone.
#[verifier::external_body]
pub fn char_is_alphanumeric(c: char) -> (r: bool)
    ensures
        r == unicode_alphanumeric(c),
{
    c.is_alphanumeric()
}

/// Relies on `char::is_whitespace`: true exactly for Unicode whitespace
/// characters, a function of the character alone.
#[verifier::external_body]
pub fn char_is_whitespace(c: char) -> (r: bool)
    ensures
        r == unicode_whitespace(c),
{
    c.is_whitespace()
}

/// ASCII lowercasing of a single character: `A`..`Z` map to `a`..`z`,
/// everything else is unchanged.
pub open spec fn ascii_lower(c: char) -> char {
    match c {
        'A' => 'a',
        'B' => 'b',
        'C' => 'c',
        'D' => 'd',
        'E' => 'e',
        'F' => 'f',
        'G' => 'g',
        'H' => 'h',
        'I' => 'i',
        'J' => 'j',
        'K' => 'k',
        'L' => 'l',
        'M' => 'm',
        'N' => 'n',
        'O' => 'o',
        'P' => 'p',
        'Q' => 'q',
        'R' => 'r',
        'S' => 's',
        'T' => 't',
        'U' => 'u',
        'V' => 'v',
        'W' => 'w',
        'X' => 'x',
        'Y' => 'y',
        'Z' => 'z',
        _ => c,
    }
}

/// Executable ASCII lowercasing, equal to [`ascii_lower`].
pub fn to_ascii_lower(c: char) -> (r: char)
    ensures
        r == ascii_lower(c),
{
    match c {
        'A' => 'a',
        'B' => 'b',
        'C' => 'c',
        'D' => 'd',
        'E' => 'e',
        'F' => 'f',
        'G' => 'g',
        'H' => 'h',
        'I' => 'i',
        'J' => 'j',
        'K' => 'k',
        'L' => 'l',
        'M' => 'm',
        'N' => 'n',
        'O' => 'o',
        'P' => 'p',
        'Q' => 'q',
        'R' => 'r',
        'S' => 's',
        'T' => 't',
        'U' => 'u',
        'V' => 'v',
        'W' => 'w',
        'X' => 'x',
        'Y' => 'y',
        'Z' => 'z',
        _ => c,
    }
}

/// The deep view of a vector indexes elementwise into the deep views of
/// its elements.
pub proof fn lemma_deep_view_all<T: DeepView>(v: &Vec<T>)
    ensures
        v.deep_view().len() == v@.len(),
        forall|i: int| 0 <= i < v@.len() ==> #[trigger] v.deep_view()[i] == v@[i].deep_view(),
{
}

/// The image of a single character under kebab-casing: alphanumeric
/// characters are kept in ASCII lower case, whitespace and `-` become `-`,
/// all other characters are dropped.
pub open spec fn kebab_char(c: char) -> Seq<char> {
    if unicode_alphanumeric(c) {
        seq![ascii_lower(c)]
    } else if unicode_whitespace(c) || c == '-' {
        seq!['-']
    } else {
        Seq::empty()
    }
}

/// The kebab-cased form of a whole string.
pub open spec fn kebab_spec(s: Seq<char>) -> Seq<char>
    decreases s.len(),
{
    if s.len() == 0 {
        Seq::empty()
    } else {
        kebab_char(s[0]) + kebab_spec(s.drop_first())
    }
}

/// Extending the input of [`kebab_spec`] by one character appends that
/// character's image to the output.
pub proof fn lemma_kebab_snoc(s: Seq<char>, i: int)
    requires
        0 <= i < s.len(),
    ensures
        kebab_spec(s.take(i + 1)) == kebab_spec(s.take(i)) + kebab_char(s[i]),
    decreases i,
{
    if i == 0 {
        assert(s.take(1).drop_first() =~= Seq::<char>::empty());
        assert(s.take(0) =~= Seq::<char>::empty());
        assert(s.take(1)[0] == s[0]);
        assert(kebab_spec(s.take(1)) =~= kebab_char(s[0]));
        assert(kebab_spec(s.take(0)) + kebab_char(s[0]) =~= kebab_char(s[0]));
    } else {
        let t = s.drop_first();
        lemma_kebab_snoc(t, i - 1);
        assert(s.take(i + 1).drop_first() =~= t.take(i));
        assert(s.take(i).drop_first() =~= t.take(i - 1));
        assert(s.take(i + 1)[0] == s[0]);
        assert(s.take(i)[0] == s[0]);
        let j = i - 1;
        assert(kebab_spec(s.take(i)) + kebab_char(s[i]) =~= kebab_char(s[0]) + (kebab_spec(
            t.take(j),
        ) + kebab_char(t[j])));
    }
}

/// Make a kebab-cased string: used to derive filenames from document titles.
pub fn kebab(s: &str) -> (r: String)
    ensures
        r@ == kebab_spec(s@),
{
    let n: usize = s.unicode_len();
    let mut r = String::new();
    let mut i: usize = 0;
    while i < n
        invariant
            i <= n,
            n == s@.len(),
            r@ == kebab_spec(s@.take(i as int)),
        decreases n - i,
    {
        let c = s.get_char(i);
        proof {
            lemma_kebab_snoc(s@, i as int);
        }
        let ghost r_prev = r@;
        if char_is_alphanumeric(c) {
            push_char(&mut r, to_ascii_lower(c));
        } else if char_is_whitespace(c) || c == '-' {
            push_char(&mut r, '-');
        }
        proof {
            assert(r@ =~= r_prev + kebab_char(s@[i as int]));
        }
        i = i + 1;
    }
    proof {
        assert(s@.take(n as int) =~= s@);
    }
    r
}

/// The character for one decimal digit.
pub open spec fn digit_char(d: nat) -> char {
    if d == 0 {
        '0'
    } else if d == 1 {
        '1'
    } else if d == 2 {
        '2'
    } else if d == 3 {
        '3'
    } else if d == 4 {
        '4'
    } else if d == 5 {
        '5'
    } else if d == 6 {
        '6'
    } else if d == 7 {
        '7'
    } else if d == 8 {
        '8'
    } else {
        '9'
    }
}

/// The decimal representation of a natural number, most significant digit
/// first.
pub open spec fn dec_of(n: nat) -> Seq<char>
    decreases n,
{
    if n < 10 {
        seq![digit_char(n)]
    } else {
        dec_of(n / 10).push(digit_char(n % 10))
    }
}

fn digit_to_char(d: u64) -> (r: char)
    requires
        d < 10,
    ensures
        r == digit_char(d as nat),
{
    match d {
        0u64 => '0',
        1u64 => '1',
        2u64 => '2',
        3u64 => '3',
        4u64 => '4',
        5u64 => '5',
        6u64 => '6',
        7u64 => '7',
        8u64 => '8',
        _ => '9',
    }
}

/// Appends the decimal representation of `n` to `out`.
pub fn append_dec(out: &mut String, n: u64)
    ensures
        final(out)@ == old(out)@ + dec_of(n as nat),
    decreases n,
{
    if n < 10 {
        push_char(out, digit_to_char(n));
        assert(out@ =~= old(out)@ + dec_of(n as nat));
    } else {
        append_dec(out, n / 10);
        push_char(out, digit_to_char(n % 10));
        assert(out@ =~= old(out)@ + dec_of(n as nat));
    }
}

} // verus!
