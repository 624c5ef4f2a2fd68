//! Text helpers: white space, trimming, prefixes, equality and decimal
//! digits, all stated over sequences of characters.

use vstd::prelude::*;

verus! {

/// Whether `c` is a Unicode white-space character.
pub open spec fn is_whitespace(c: char) -> bool {
    ||| ('\u{9}' <= c && c <= '\u{D}')
    ||| c == ' '
    ||| c == '\u{85}'
    ||| c == '\u{A0}'
    ||| c == '\u{1680}'
    ||| ('\u{2000}' <= c && c <= '\u{200A}')
    ||| c == '\u{2028}'
    ||| c == '\u{2029}'
    ||| c == '\u{202F}'
    ||| c == '\u{205F}'
    ||| c == '\u{3000}'
}

/// `s` without its leading white space.
pub open spec fn trim_start(s: Seq<char>) -> Seq<char>
    decreases s.len(),
{
    if s.len() > 0 && is_whitespace(s[0]) {
        trim_start(s.drop_first())
    } else {
        s
    }
}

/// `s` without its trailing white space.
pub open spec fn trim_end(s: Seq<char>) -> Seq<char>
    decreases s.len(),
{
    if s.len() > 0 && is_whitespace(s.last()) {
        trim_end(s.drop_last())
    } else {
        s
    }
}

/// `s` without leading and trailing white space.
pub open spec fn trimmed(s: Seq<char>) -> Seq<char> {
    trim_end(trim_start(s))
}

/// Whether nothing is left of `s` once it is trimmed.
pub open spec fn is_blank(s: Seq<char>) -> bool {
    trimmed(s).len() == 0
}

/// The character of the decimal digit `d`.
pub open spec fn digit_char(d: nat) -> char {
    if d == 0 {
        '0'
    } else if d == 1 {
        '1'
    } else if d == 2 {
        '2'
    } else if d == 3 {
        '3'
    } else if d == 4 {
        '4'
    } else if d == 5 {
        '5'
    } else if d == 6 {
        '6'
    } else if d == 7 {
        '7'
    } else if d == 8 {
        '8'
    } else {
        '9'
    }
}

/// The decimal digits of `n`, most significant first.
pub open spec fn decimal(n: nat) -> Seq<char>
    decreases n,
{
    if n < 10 {
        seq![digit_char(n)]
    } else {
        decimal(n / 10).push(digit_char(n % 10))
    }
}

/// Trimming at the end never removes a leading character that is not white space.
pub proof fn lemma_trim_end_keeps_head(s: Seq<char>)
    requires
        s.len() > 0,
        !is_whitespace(s[0]),
    ensures
        trim_end(s).len() > 0,
        trim_end(s)[0] == s[0],
    decreases s.len(),
{
    if is_whitespace(s.last()) {
        assert(s.len() > 1);
        lemma_trim_end_keeps_head(s.drop_last());
    }
}

/// A text is blank exactly when each of its characters is white space.
pub proof fn lemma_blank_is_all_whitespace(s: Seq<char>)
    ensures
        is_blank(s) <==> forall|i: int| 0 <= i < s.len() ==> is_whitespace(#[trigger] s[i]),
    decreases s.len(),
{
    if s.len() > 0 && is_whitespace(s[0]) {
        let rest = s.drop_first();
        lemma_blank_is_all_whitespace(rest);
        if is_blank(rest) {
            assert forall|i: int| 0 <= i < s.len() implies is_whitespace(#[trigger] s[i]) by {
                if i > 0 {
                    assert(s[i] == rest[i - 1]);
                }
            }
        } else {
            let j = choose|j: int| 0 <= j < rest.len() && !is_whitespace(#[trigger] rest[j]);
            assert(!is_whitespace(s[j + 1]));
        }
    } else if s.len() > 0 {
        lemma_trim_end_keeps_head(s);
        assert(!is_whitespace(s[0]));
    }
}

/// Whether `c` is a Unicode white-space character.
pub fn char_is_whitespace(c: char) -> (b: bool)
    ensures
        b == is_whitespace(c),
{
    ('\u{9}' <= c && c <= '\u{D}') || c == ' ' || c == '\u{85}' || c == '\u{A0}' || c == '\u{1680}'
        || ('\u{2000}' <= c && c <= '\u{200A}') || c == '\u{2028}' || c == '\u{2029}' || c
        == '\u{202F}' || c == '\u{205F}' || c == '\u{3000}'
}

/// The characters of `s`, in order.
pub fn to_chars(s: &str) -> (v: Vec<char>)
    ensures
        v@ == s@,
{
    let mut v: Vec<char> = Vec::new();
    for c in it: s.chars()
        invariant
            v@ == it.seq().take(it.index() as int),
            it.seq() == s@,
    {
        v.push(c);
    }
    v
}

/// Whether two texts hold the same characters.
pub fn text_eq(a: &str, b: &str) -> (r: bool)
    ensures
        r == (a@ == b@),
{
    let x = a.to_owned();
    let y = b.to_owned();
    x == y
}

/// The first position in `from..to` that holds no white space, or `to`.
pub fn skip_whitespace(v: &Vec<char>, from: usize, to: usize) -> (at: usize)
    requires
        from <= to <= v.len(),
    ensures
        from <= at <= to,
        trim_start(v@.subrange(from as int, to as int)) == v@.subrange(at as int, to as int),
        at < to ==> !is_whitespace(v@[at as int]),
{
    let mut at: usize = from;
    while at < to && char_is_whitespace(v[at])
        invariant
            from <= at <= to <= v.len(),
            trim_start(v@.subrange(from as int, to as int)) == trim_start(
                v@.subrange(at as int, to as int),
            ),
        decreases to - at,
    {
        assert(v@.subrange(at as int, to as int).drop_first() == v@.subrange(
            at as int + 1,
            to as int,
        ));
        at = at + 1;
    }
    at
}

/// The end of `from..to` once its trailing white space is cut off.
pub fn skip_trailing_whitespace(v: &Vec<char>, from: usize, to: usize) -> (end: usize)
    requires
        from <= to <= v.len(),
    ensures
        from <= end <= to,
        trim_end(v@.subrange(from as int, to as int)) == v@.subrange(from as int, end as int),
        from < end ==> !is_whitespace(v@[end as int - 1]),
{
    let mut end: usize = to;
    while from < end && char_is_whitespace(v[end - 1])
        invariant
            from <= end <= to <= v.len(),
            trim_end(v@.subrange(from as int, to as int)) == trim_end(
                v@.subrange(from as int, end as int),
            ),
        decreases end - from,
    {
        assert(v@.subrange(from as int, end as int).drop_last() == v@.subrange(
            from as int,
            end as int - 1,
        ));
        end = end - 1;
    }
    end
}

/// Whether `from..to` of `v` begins with `prefix`.
pub fn has_prefix_at(v: &Vec<char>, from: usize, to: usize, prefix: &Vec<char>) -> (r: bool)
    requires
        from <= to <= v.len(),
    ensures
        r == prefix@.is_prefix_of(v@.subrange(from as int, to as int)),
{
    let ghost part = v@.subrange(from as int, to as int);
    if prefix.len() > to - from {
        return false;
    }
    let mut i: usize = 0;
    while i < prefix.len()
        invariant
            from <= to <= v.len(),
            i <= prefix.len() <= to - from,
            part == v@.subrange(from as int, to as int),
            forall|j: int| 0 <= j < i ==> prefix@[j] == part[j],
        decreases prefix.len() - i,
    {
        if prefix[i] != v[from + i] {
            assert(part[i as int] != prefix@[i as int]);
            assert(part.subrange(0, prefix@.len() as int)[i as int] == part[i as int]);
            return false;
        }
        i = i + 1;
    }
    assert(prefix@ =~= part.subrange(0, prefix@.len() as int));
    true
}

/// Whether nothing is left of `s` once it is trimmed.
pub fn blank(s: &str) -> (b: bool)
    ensures
        b == is_blank(s@),
{
    let v = to_chars(s);
    let at = skip_whitespace(&v, 0, v.len());
    proof {
        assert(v@.subrange(0, v@.len() as int) == v@);
        if at < v.len() {
            lemma_trim_end_keeps_head(trim_start(s@));
        }
    }
    at == v.len()
}

/// The text of one decimal digit.
fn digit_text(d: u16) -> (s: &'static str)
    requires
        d < 10,
    ensures
        s@ == seq![digit_char(d as nat)],
{
    proof {
        reveal_strlit("0");
        reveal_strlit("1");
        reveal_strlit("2");
        reveal_strlit("3");
        reveal_strlit("4");
        reveal_strlit("5");
        reveal_strlit("6");
        reveal_strlit("7");
        reveal_strlit("8");
        reveal_strlit("9");
    }
    let s = if d == 0 {
        "0"
    } else if d == 1 {
        "1"
    } else if d == 2 {
        "2"
    } else if d == 3 {
        "3"
    } else if d == 4 {
        "4"
    } else if d == 5 {
        "5"
    } else if d == 6 {
        "6"
    } else if d == 7 {
        "7"
    } else if d == 8 {
        "8"
    } else {
        "9"
    };
    assert(s@ =~= seq![digit_char(d as nat)]);
    s
}

/// The decimal digits of `n`.
pub fn decimal_text(n: u16) -> (s: String)
    ensures
        s@ == decimal(n as nat),
    decreases n,
{
    if n < 10 {
        digit_text(n).to_owned()
    } else {
        let mut s = decimal_text(n / 10);
        s.append(digit_text(n % 10));
        assert(s@ =~= decimal((n / 10) as nat).push(digit_char((n % 10) as nat)));
        s
    }
}

} // verus!
