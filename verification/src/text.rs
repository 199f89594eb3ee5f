//! Verified text utilities: the lexicographic order on character sequences
//! that the grouped view sorts by, a three-way string comparator, decimal
//! rendering of the integer kinds, and the two character rewrites the
//! rendered page needs (doubling backslashes inside a quoted script string,
//! and turning `::` into `_` for element identifiers).

use vstd::prelude::*;
use vstd::string::StrSliceExecFns;
use vstd::string::StringExecFns;

verus! {

/// Strict lexicographic order on character sequences, by code point: `a`
/// comes before `b` iff at the first index where they differ `a` has the
/// smaller character, or `a` is a proper prefix of `b`.
pub open spec fn lex_lt(a: Seq<char>, b: Seq<char>) -> bool
    decreases a.len(),
{
    if b.len() == 0 {
        false
    } else if a.len() == 0 {
        true
    } else if a[0] < b[0] {
        true
    } else if a[0] == b[0] {
        lex_lt(a.skip(1), b.skip(1))
    } else {
        false
    }
}

/// Of two character sequences, exactly one holds: the first comes before the
/// second, they are equal, or the second comes before the first.
pub proof fn lemma_lex_lt_trichotomy(a: Seq<char>, b: Seq<char>)
    ensures
        lex_lt(a, b) || a == b || lex_lt(b, a),
        !(lex_lt(a, b) && lex_lt(b, a)),
        lex_lt(a, b) ==> a != b,
        lex_lt(b, a) ==> a != b,
    decreases a.len(),
{
    if a.len() == 0 && b.len() == 0 {
        assert(a =~= b);
    } else if a.len() > 0 && b.len() > 0 {
        if a[0] == b[0] {
            lemma_lex_lt_trichotomy(a.skip(1), b.skip(1));
            if a.skip(1) == b.skip(1) {
                assert(a =~= b) by {
                    assert(forall|i: int|
                        1 <= i < a.len() ==> a[i] == a.skip(1)[i - 1] && b[i] == b.skip(1)[i - 1]);
                }
            }
            if a == b {
                assert(a.skip(1) =~= b.skip(1));
            }
        } else {
            if a == b {
                assert(a[0] == b[0]);
            }
        }
    }
}

/// The lexicographic order is transitive.
pub proof fn lemma_lex_lt_trans(a: Seq<char>, b: Seq<char>, c: Seq<char>)
    requires
        lex_lt(a, b),
        lex_lt(b, c),
    ensures
        lex_lt(a, c),
    decreases a.len(),
{
    if b.len() == 0 {
        // lex_lt(b, c) forces c to be nonempty and lex_lt(a, b) is impossible
    } else if a.len() == 0 {
        // c is nonempty because lex_lt(b, c) holds with b nonempty
    } else {
        if a[0] == b[0] && b[0] == c[0] {
            lemma_lex_lt_trans(a.skip(1), b.skip(1), c.skip(1));
        }
    }
}

/// A sequence never comes lexicographically before itself.
pub proof fn lemma_lex_lt_irreflexive(a: Seq<char>)
    ensures
        !lex_lt(a, a),
    decreases a.len(),
{
    if a.len() > 0 {
        lemma_lex_lt_irreflexive(a.skip(1));
    }
}

/// With the first `i` characters of `a` and `b` equal, their order is the
/// order of their remainders.
pub proof fn lemma_lex_lt_common_prefix(a: Seq<char>, b: Seq<char>, i: int)
    requires
        0 <= i <= a.len(),
        i <= b.len(),
        forall|j: int| 0 <= j < i ==> a[j] == b[j],
    ensures
        lex_lt(a, b) == lex_lt(a.skip(i), b.skip(i)),
    decreases i,
{
    if i > 0 {
        assert(a.skip(1).skip(i - 1) =~= a.skip(i));
        assert(b.skip(1).skip(i - 1) =~= b.skip(i));
        assert(forall|j: int| 0 <= j < i - 1 ==> a.skip(1)[j] == b.skip(1)[j]);
        lemma_lex_lt_common_prefix(a.skip(1), b.skip(1), i - 1);
    } else {
        assert(a.skip(0) =~= a);
        assert(b.skip(0) =~= b);
    }
}

/// The outcome of a three-way comparison.
#[derive(Clone, Copy, Debug, PartialEq, Eq, Structural)]
pub enum TextOrder {
    Before,
    Same,
    After,
}

/// Three-way lexicographic comparison of two strings, by code point.
pub fn str_compare(a: &str, b: &str) -> (r: TextOrder)
    ensures
        (r == TextOrder::Before) == lex_lt(a@, b@),
        (r == TextOrder::Same) == (a@ == b@),
        (r == TextOrder::After) == lex_lt(b@, a@),
{
    let a_len: usize = a.unicode_len();
    let b_len: usize = b.unicode_len();
    let common: usize = if a_len < b_len {
        a_len
    } else {
        b_len
    };
    let mut i: usize = 0;
    while i < common
        invariant
            0 <= i <= common,
            common <= a@.len() && common <= b@.len(),
            common == a_len || common == b_len,
            a_len == a@.len() && b_len == b@.len(),
            forall|j: int| 0 <= j < i ==> a@[j] == b@[j],
        decreases common - i,
    {
        let ca: char = a.get_char(i);
        let cb: char = b.get_char(i);
        if ca < cb {
            proof {
                lemma_lex_lt_trichotomy(a@, b@);
                lemma_lex_lt_common_prefix(a@, b@, i as int);
                assert(a@.skip(i as int)[0] == ca && b@.skip(i as int)[0] == cb);
                assert(lex_lt(a@.skip(i as int), b@.skip(i as int)));
            }
            return TextOrder::Before;
        } else if cb < ca {
            proof {
                lemma_lex_lt_trichotomy(a@, b@);
                lemma_lex_lt_common_prefix(b@, a@, i as int);
                assert(b@.skip(i as int)[0] == cb && a@.skip(i as int)[0] == ca);
                assert(lex_lt(b@.skip(i as int), a@.skip(i as int)));
            }
            return TextOrder::After;
        }
        assert(ca == cb);
        i = i + 1;
    }
    if a_len < b_len {
        proof {
            lemma_lex_lt_trichotomy(a@, b@);
            lemma_lex_lt_common_prefix(a@, b@, common as int);
            assert(a@.skip(common as int).len() == 0);
            assert(b@.skip(common as int).len() > 0);
            assert(lex_lt(a@.skip(common as int), b@.skip(common as int)));
        }
        TextOrder::Before
    } else if b_len < a_len {
        proof {
            lemma_lex_lt_trichotomy(a@, b@);
            lemma_lex_lt_common_prefix(b@, a@, common as int);
            assert(b@.skip(common as int).len() == 0);
            assert(a@.skip(common as int).len() > 0);
            assert(lex_lt(b@.skip(common as int), a@.skip(common as int)));
        }
        TextOrder::After
    } else {
        proof {
            assert(a@ =~= b@);
            lemma_lex_lt_irreflexive(a@);
        }
        TextOrder::Same
    }
}

/// The character for one decimal digit.
pub open spec fn decimal_digit(d: int) -> char {
    if d == 0 {
        '0'
    } else if d == 1 {
        '1'
    } else if d == 2 {
        '2'
    } else if d == 3 {
        '3'
    } else if d == 4 {
        '4'
    } else if d == 5 {
        '5'
    } else if d == 6 {
        '6'
    } else if d == 7 {
        '7'
    } else if d == 8 {
        '8'
    } else {
        '9'
    }
}

/// The decimal rendering of a nonnegative integer, most significant digit
/// first, with no leading zeros.
pub open spec fn decimal_of(n: int) -> Seq<char>
    recommends
        n >= 0,
    decreases n,
{
    if n < 10 {
        seq![decimal_digit(n)]
    } else {
        decimal_of(n / 10).push(decimal_digit(n % 10))
    }
}

/// The decimal rendering of an integer: a minus sign before the magnitude
/// for a negative one.
pub open spec fn decimal_int(n: int) -> Seq<char> {
    if n < 0 {
        seq!['-'] + decimal_of(-n)
    } else {
        decimal_of(n)
    }
}

/// One decimal digit as a string slice.
fn digit_text(d: u64) -> (r: &'static str)
    requires
        d < 10,
    ensures
        r@ == seq![decimal_digit(d as int)],
{
    let r: &'static str = if d == 0 {
        "0"
    } else if d == 1 {
        "1"
    } else if d == 2 {
        "2"
    } else if d == 3 {
        "3"
    } else if d == 4 {
        "4"
    } else if d == 5 {
        "5"
    } else if d == 6 {
        "6"
    } else if d == 7 {
        "7"
    } else if d == 8 {
        "8"
    } else {
        "9"
    };
    proof {
        reveal_strlit("0");
        reveal_strlit("1");
        reveal_strlit("2");
        reveal_strlit("3");
        reveal_strlit("4");
        reveal_strlit("5");
        reveal_strlit("6");
        reveal_strlit("7");
        reveal_strlit("8");
        reveal_strlit("9");
        assert(r@ =~= seq![decimal_digit(d as int)]);
    }
    r
}

/// Renders an unsigned integer in decimal.
pub fn render_u64(n: u64) -> (r: String)
    ensures
        r@ == decimal_of(n as int),
    decreases n,
{
    let d: &'static str = digit_text(n % 10);
    if n < 10 {
        let r = d.to_owned();
        proof {
            assert(r@ =~= decimal_of(n as int));
        }
        r
    } else {
        let mut s = render_u64(n / 10);
        s.append(d);
        proof {
            assert(s@ =~= decimal_of(n as int));
        }
        s
    }
}

/// Renders a signed integer in decimal.
pub fn render_i64(n: i64) -> (r: String)
    ensures
        r@ == decimal_int(n as int),
{
    if n >= 0 {
        render_u64(n as u64)
    } else {
        let wide: i128 = n as i128;
        let magnitude: u64 = (-wide) as u64;
        proof {
            assert(magnitude as int == -(n as int));
        }
        let mut s = ("-").to_owned();
        let digits = render_u64(magnitude);
        s.append(digits.as_str());
        proof {
            reveal_strlit("-");
            assert(s@ =~= decimal_int(n as int));
        }
        s
    }
}

/// Renders a machine-word integer in decimal.
pub fn render_usize(n: usize) -> (r: String)
    ensures
        r@ == decimal_of(n as int),
{
    render_u64(n as u64)
}

/// The text with every backslash doubled, so it can sit inside a quoted
/// script string.
pub open spec fn backslash_escaped(s: Seq<char>) -> Seq<char>
    decreases s.len(),
{
    if s.len() == 0 {
        Seq::empty()
    } else if s[0] == '\\' {
        seq!['\\', '\\'] + backslash_escaped(s.skip(1))
    } else {
        seq![s[0]] + backslash_escaped(s.skip(1))
    }
}

/// Doubles every backslash in the string.
pub fn escape_backslashes(s: &str) -> (r: String)
    ensures
        r@ == backslash_escaped(s@),
{
    let len: usize = s.unicode_len();
    let mut r = String::new();
    let mut i: usize = 0;
    proof {
        assert(s@.skip(0) =~= s@);
        assert(r@ + backslash_escaped(s@) =~= backslash_escaped(s@));
    }
    while i < len
        invariant
            0 <= i <= len,
            len == s@.len(),
            backslash_escaped(s@) == r@ + backslash_escaped(s@.skip(i as int)),
        decreases len - i,
    {
        let ghost rest = s@.skip(i as int);
        let ghost prev = r@;
        proof {
            assert(rest[0] == s@[i as int]);
            assert(rest.skip(1) =~= s@.skip(i as int + 1));
        }
        let c: char = s.get_char(i);
        if c == '\\' {
            r.append("\\\\");
            proof {
                reveal_strlit("\\\\");
                assert(("\\\\")@ =~= seq!['\\', '\\']);
                assert(backslash_escaped(rest) == seq!['\\', '\\'] + backslash_escaped(
                    s@.skip(i as int + 1),
                ));
                assert(prev + (seq!['\\', '\\'] + backslash_escaped(s@.skip(i as int + 1))) =~= (
                prev + seq!['\\', '\\']) + backslash_escaped(s@.skip(i as int + 1)));
            }
        } else {
            let piece: &str = s.substring_char(i, i + 1);
            proof {
                assert(piece@ =~= seq![s@[i as int]]);
            }
            r.append(piece);
            proof {
                assert(backslash_escaped(rest) == seq![s@[i as int]] + backslash_escaped(
                    s@.skip(i as int + 1),
                ));
                assert(prev + (seq![s@[i as int]] + backslash_escaped(s@.skip(i as int + 1))) =~= (
                prev + seq![s@[i as int]]) + backslash_escaped(s@.skip(i as int + 1)));
            }
        }
        i = i + 1;
    }
    proof {
        assert(s@.skip(len as int) =~= Seq::<char>::empty());
        assert(r@ + Seq::<char>::empty() =~= r@);
        assert(backslash_escaped(Seq::<char>::empty()) =~= Seq::<char>::empty());
    }
    r
}

/// The module path with each `::` separator turned into `_`, as the page
/// uses for element identifiers.
pub open spec fn module_identifier(s: Seq<char>) -> Seq<char>
    decreases s.len(),
{
    if s.len() >= 2 && s[0] == ':' && s[1] == ':' {
        seq!['_'] + module_identifier(s.skip(2))
    } else if s.len() >= 1 {
        seq![s[0]] + module_identifier(s.skip(1))
    } else {
        Seq::empty()
    }
}

/// Replaces each `::` separator in the module path with `_`.
pub fn module_identifier_text(s: &str) -> (r: String)
    ensures
        r@ == module_identifier(s@),
{
    let len: usize = s.unicode_len();
    let mut r = String::new();
    let mut i: usize = 0;
    proof {
        assert(s@.skip(0) =~= s@);
        assert(r@ + module_identifier(s@) =~= module_identifier(s@));
    }
    while i < len
        invariant
            0 <= i <= len,
            len == s@.len(),
            module_identifier(s@) == r@ + module_identifier(s@.skip(i as int)),
        decreases len - i,
    {
        let ghost rest = s@.skip(i as int);
        let ghost prev = r@;
        proof {
            assert(rest[0] == s@[i as int]);
            if rest.len() >= 2 {
                assert(rest[1] == s@[i as int + 1]);
                assert(rest.skip(2) =~= s@.skip(i as int + 2));
            }
            assert(rest.skip(1) =~= s@.skip(i as int + 1));
        }
        let c: char = s.get_char(i);
        if c == ':' && i + 1 < len && s.get_char(i + 1) == ':' {
            r.append("_");
            proof {
                reveal_strlit("_");
                assert(("_")@ =~= seq!['_']);
                assert(module_identifier(rest) == seq!['_'] + module_identifier(
                    s@.skip(i as int + 2),
                ));
                assert(prev + (seq!['_'] + module_identifier(s@.skip(i as int + 2))) =~= (prev
                    + seq!['_']) + module_identifier(s@.skip(i as int + 2)));
            }
            i = i + 2;
        } else {
            let piece: &str = s.substring_char(i, i + 1);
            proof {
                assert(piece@ =~= seq![s@[i as int]]);
            }
            r.append(piece);
            proof {
                assert(module_identifier(rest) == seq![s@[i as int]] + module_identifier(
                    s@.skip(i as int + 1),
                ));
                assert(prev + (seq![s@[i as int]] + module_identifier(s@.skip(i as int + 1))) =~= (
                prev + seq![s@[i as int]]) + module_identifier(s@.skip(i as int + 1)));
            }
            i = i + 1;
        }
    }
    proof {
        assert(s@.skip(len as int) =~= Seq::<char>::empty());
        assert(r@ + Seq::<char>::empty() =~= r@);
        assert(module_identifier(Seq::<char>::empty()) =~= Seq::<char>::empty());
    }
    r
}

} // verus!
