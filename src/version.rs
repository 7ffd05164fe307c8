//! Version identifiers and their feature line ("major.minor").

use vstd::prelude::*;

verus! {

/// The decimal digit character for `d < 10`.
pub open spec fn digit_char(d: nat) -> char {
    if d == 0 { '0' }
    else if d == 1 { '1' }
    else if d == 2 { '2' }
    else if d == 3 { '3' }
    else if d == 4 { '4' }
    else if d == 5 { '5' }
    else if d == 6 { '6' }
    else if d == 7 { '7' }
    else if d == 8 { '8' }
    else { '9' }
}

/// The canonical decimal text of `n`: no sign, no leading zero.
pub open spec fn decimal_text(n: nat) -> Seq<char>
    decreases n,
{
    if n < 10 {
        seq![digit_char(n)]
    } else {
        decimal_text(n / 10).push(digit_char(n % 10))
    }
}

/// Number of `.` characters in `s`.
pub open spec fn dot_count(s: Seq<char>) -> nat
    decreases s.len(),
{
    if s.len() == 0 {
        0
    } else {
        dot_count(s.drop_last()) + if s.last() == '.' { 1nat } else { 0nat }
    }
}

/// `"a.b"` for the numbers `a` and `b`.
pub open spec fn two_part_text(a: nat, b: nat) -> Seq<char> {
    decimal_text(a) + seq!['.'] + decimal_text(b)
}

/// `"a.b.c"` for the numbers `a`, `b` and `c`: a plain three-part version.
pub open spec fn three_part_text(a: nat, b: nat, c: nat) -> Seq<char> {
    two_part_text(a, b) + seq!['.'] + decimal_text(c)
}

/// The major and minor numbers that semver's parser reads from `s`, or none
/// where it rejects `s`.
pub uninterp spec fn semver_major_minor(s: Seq<char>) -> Option<(u64, u64)>;

/// The feature line of an identifier: the identifier itself where it holds
/// exactly one dot, else `"major.minor"` of its semver reading; none where
/// that reading fails.
pub open spec fn feature_line(s: Seq<char>) -> Option<Seq<char>> {
    if dot_count(s) == 1 {
        Some(s)
    } else {
        match semver_major_minor(s) {
            Some((major, minor)) => Some(two_part_text(major as nat, minor as nat)),
            None => None,
        }
    }
}

/// semver's parse error, carried through as an opaque value.
#[verifier::external_type_specification]
#[verifier::external_body]
pub struct ExSemverError(semver::Error);

/// An identifier that could not be read as a version.
#[derive(Debug)]
pub struct VersionParseError {
    /// The offending identifier.
    pub input: String,
    /// What semver's parser reported.
    pub cause: semver::Error,
}

/// Relies on semver::Version::parse, keeping the major and minor numbers.
/// Its parser reads `major.minor.patch` as three dot-separated decimal
/// numbers without leading zeros that fit in a `u64`, followed by an optional
/// pre-release and build part; a plain `"a.b.c"` is therefore accepted.
#[verifier::external_body]
fn parse_major_minor(s: &str) -> (r: Result<(u64, u64), semver::Error>)
    ensures
        r is Ok <==> semver_major_minor(s@) is Some,
        r is Ok ==> semver_major_minor(s@) == Some(r->Ok_0),
        forall|t: (u64, u64, u64)|
            three_part_text(t.0 as nat, t.1 as nat, t.2 as nat) == s@ ==> r is Ok && r->Ok_0 == (
                t.0,
                t.1,
            ),
{
    semver::Version::parse(s).map(|v| (v.major, v.minor))
}

/// The one-character string of the decimal digit `d`.
fn digit_str(d: u64) -> (r: &'static str)
    requires
        d < 10,
    ensures
        r@ == seq![digit_char(d as nat)],
{
    proof {
        reveal_strlit("0");
        reveal_strlit("1");
        reveal_strlit("2");
        reveal_strlit("3");
        reveal_strlit("4");
        reveal_strlit("5");
        reveal_strlit("6");
        reveal_strlit("7");
        reveal_strlit("8");
        reveal_strlit("9");
    }
    if d == 0 {
        "0"
    } else if d == 1 {
        "1"
    } else if d == 2 {
        "2"
    } else if d == 3 {
        "3"
    } else if d == 4 {
        "4"
    } else if d == 5 {
        "5"
    } else if d == 6 {
        "6"
    } else if d == 7 {
        "7"
    } else if d == 8 {
        "8"
    } else {
        "9"
    }
}

/// Writes `n` in decimal.
fn decimal(n: u64) -> (r: String)
    ensures
        r@ == decimal_text(n as nat),
    decreases n,
{
    if n < 10 {
        String::from_str(digit_str(n))
    } else {
        let mut r = decimal(n / 10);
        r.append(digit_str(n % 10));
        r
    }
}

/// Counts the `.` characters of `s`.
fn count_dots(s: &str) -> (r: usize)
    ensures
        r as nat == dot_count(s@),
{
    let n = s.unicode_len();
    let mut count: usize = 0;
    let mut i: usize = 0;
    while i < n
        invariant
            n == s@.len(),
            i <= n,
            count as nat == dot_count(s@.subrange(0, i as int)),
            count <= i,
        decreases n - i,
    {
        assert(s@.subrange(0, i + 1).drop_last() =~= s@.subrange(0, i as int));
        if s.get_char(i) == '.' {
            count = count + 1;
        }
        i = i + 1;
    }
    assert(s@.subrange(0, n as int) =~= s@);
    count
}

/// The text `"major.minor"`.
pub fn major_minor_text(major: u64, minor: u64) -> (r: String)
    ensures
        r@ == two_part_text(major as nat, minor as nat),
{
    let mut line = decimal(major);
    proof {
        reveal_strlit(".");
    }
    line.append(".");
    line.append(decimal(minor).as_str());
    line
}

/// The feature line of a version identifier: the identifier itself where it
/// holds exactly one dot, else `"major.minor"` as semver's parser reads it.
/// A plain `"a.b.c"` gives `"a.b"`.
pub fn remove_semver_patch(input: &str) -> (r: Result<String, VersionParseError>)
    ensures
        match r {
            Ok(line) => feature_line(input@) == Some(line@),
            Err(e) => feature_line(input@) is None && e.input@ == input@,
        },
        dot_count(input@) == 1 ==> r is Ok && r->Ok_0@ == input@,
        forall|t: (u64, u64, u64)|
            #[trigger] three_part_text(t.0 as nat, t.1 as nat, t.2 as nat) == input@ ==> r is Ok
                && r->Ok_0@ == two_part_text(t.0 as nat, t.1 as nat),
{
    proof {
        assert forall|t: (u64, u64, u64)|
            #[trigger] three_part_text(t.0 as nat, t.1 as nat, t.2 as nat) == input@ implies dot_count(
            input@,
        ) == 2 by {
            lemma_three_part_dots(t.0 as nat, t.1 as nat, t.2 as nat);
        }
    }
    if count_dots(input) == 1 {
        return Ok(input.to_owned());
    }
    match parse_major_minor(input) {
        Ok((major, minor)) => Ok(major_minor_text(major, minor)),
        Err(cause) => Err(VersionParseError { input: input.to_owned(), cause }),
    }
}

/// Dots are counted piece by piece over a concatenation.
proof fn lemma_dot_count_concat(a: Seq<char>, b: Seq<char>)
    ensures
        dot_count(a + b) == dot_count(a) + dot_count(b),
    decreases b.len(),
{
    if b.len() > 0 {
        assert((a + b).drop_last() =~= a + b.drop_last());
        lemma_dot_count_concat(a, b.drop_last());
    } else {
        assert(a + b =~= a);
    }
}

/// Decimal text holds no dot.
proof fn lemma_decimal_no_dot(n: nat)
    ensures
        dot_count(decimal_text(n)) == 0,
    decreases n,
{
    if n >= 10 {
        lemma_decimal_no_dot(n / 10);
    }
    assert(decimal_text(n).len() > 0);
    assert(dot_count(decimal_text(n).drop_last()) == 0) by {
        if n < 10 {
            assert(decimal_text(n).drop_last() =~= Seq::<char>::empty());
        } else {
            assert(decimal_text(n).drop_last() =~= decimal_text(n / 10));
        }
    }
}

/// `"a.b.c"` holds exactly two dots.
proof fn lemma_three_part_dots(a: nat, b: nat, c: nat)
    ensures
        dot_count(three_part_text(a, b, c)) == 2,
{
    let dot = seq!['.'];
    assert(dot_count(dot) == 1) by {
        assert(dot.drop_last() =~= Seq::<char>::empty());
        assert(dot_count(Seq::<char>::empty()) == 0);
        assert(dot.last() == '.');
    }
    lemma_decimal_no_dot(a);
    lemma_decimal_no_dot(b);
    lemma_decimal_no_dot(c);
    lemma_dot_count_concat(decimal_text(a), dot);
    lemma_dot_count_concat(decimal_text(a) + dot, decimal_text(b));
    lemma_dot_count_concat(two_part_text(a, b), dot);
    lemma_dot_count_concat(two_part_text(a, b) + dot, decimal_text(c));
}

} // verus!
