//! Text helpers shared by the rest of the crate: line-ending normalisation,
//! substring search, decimal rendering and lossy decoding of captured bytes.

use vstd::prelude::*;

verus! {

/// `String::push` of the standard library: the character is appended to the
/// end of the string, and nothing else changes.
pub assume_specification[ String::push ](s: &mut String, c: char)
    ensures
        final(s)@ == old(s)@.push(c),
;

/// The text that `String::from_utf8_lossy` decodes from a byte sequence.
pub uninterp spec fn lossy_decoded(bytes: Seq<u8>) -> Seq<char>;

/// `String::from_utf8_lossy` of the standard library, with the result made
/// an owned string. The decoded text depends on the bytes alone; nothing
/// more is claimed of it here.
#[verifier::external_body]
pub(crate) fn decode_lossy(bytes: &[u8]) -> (r: String)
    ensures
        r@ == lossy_decoded(bytes@),
{
    String::from_utf8_lossy(bytes).into_owned()
}

/// The text that the standard `Debug` formatting of a string produces: the
/// string in double quotes with its special characters escaped.
pub uninterp spec fn debug_quoted(s: Seq<char>) -> Seq<char>;

/// `<str as Debug>::fmt` of the standard library, collected into a string.
/// The quoted text depends on the input text alone; nothing more is claimed
/// of it here.
#[verifier::external_body]
pub(crate) fn quote(s: &str) -> (r: String)
    ensures
        r@ == debug_quoted(s@),
{
    format!("{:?}", s)
}

/// The text with every carriage return that stands directly before a line
/// feed taken out.
pub open spec fn unify_line_endings(s: Seq<char>) -> Seq<char>
    decreases s.len(),
{
    if s.len() == 0 {
        s
    } else if s.len() >= 2 && s[0] == '\r' && s[1] == '\n' {
        seq!['\n'] + unify_line_endings(s.skip(2))
    } else {
        seq![s[0]] + unify_line_endings(s.skip(1))
    }
}

/// Unifies line endings: every `\r\n` becomes `\n`, all else is kept.
pub fn normalize(s: &str) -> (r: String)
    ensures
        r@ == unify_line_endings(s@),
{
    let mut r = String::new();
    let mut pending = false;
    assert(s@.skip(0) =~= s@);
    for c in it: s.chars()
        invariant
            it.seq() == s@,
            pending ==> it.index() >= 1 && s@[it.index() - 1] == '\r',
            unify_line_endings(s@) == r@ + unify_line_endings(
                s@.skip(it.index() - if pending { 1int } else { 0int }),
            ),
    {
        let ghost i = it.index() as int;
        let ghost before = r@;
        let ghost rest = s@.skip(i + 1);
        proof {
            assert(s@.skip(i).skip(1) =~= rest);
            assert(s@.skip(i)[0] == c);
            if pending {
                assert(s@.skip(i - 1).skip(1) =~= s@.skip(i));
                assert(s@.skip(i - 1).skip(2) =~= rest);
                assert(s@.skip(i - 1)[0] == '\r');
                assert(s@.skip(i - 1)[1] == c);
            }
        }
        if pending {
            if c == '\n' {
                r.push('\n');
                pending = false;
                assert(unify_line_endings(s@.skip(i - 1)) == seq!['\n'] + unify_line_endings(rest));
                assert(r@ + unify_line_endings(rest) =~= before + (seq!['\n']
                    + unify_line_endings(rest)));
            } else if c == '\r' {
                r.push('\r');
                assert(unify_line_endings(s@.skip(i - 1)) == seq!['\r'] + unify_line_endings(
                    s@.skip(i),
                ));
                assert(r@ + unify_line_endings(s@.skip(i)) =~= before + (seq!['\r']
                    + unify_line_endings(s@.skip(i))));
            } else {
                r.push('\r');
                r.push(c);
                pending = false;
                assert(unify_line_endings(s@.skip(i - 1)) == seq!['\r'] + unify_line_endings(
                    s@.skip(i),
                ));
                assert(unify_line_endings(s@.skip(i)) == seq![c] + unify_line_endings(rest));
                assert(r@ + unify_line_endings(rest) =~= before + (seq!['\r'] + (seq![c]
                    + unify_line_endings(rest))));
            }
        } else if c == '\r' {
            pending = true;
        } else {
            r.push(c);
            assert(unify_line_endings(s@.skip(i)) == seq![c] + unify_line_endings(rest));
            assert(r@ + unify_line_endings(rest) =~= before + (seq![c] + unify_line_endings(
                rest,
            )));
        }
    }
    let ghost n = s@.len() as int;
    if pending {
        let ghost before = r@;
        proof {
            assert(s@.skip(n - 1).len() == 1);
            assert(s@.skip(n - 1).skip(1).len() == 0);
            assert(unify_line_endings(s@.skip(n - 1)) == seq!['\r'] + unify_line_endings(
                s@.skip(n - 1).skip(1),
            ));
            assert(unify_line_endings(s@.skip(n - 1).skip(1)) =~= Seq::<char>::empty());
        }
        r.push('\r');
        assert(r@ =~= before + seq!['\r']);
        assert(r@ =~= unify_line_endings(s@));
    } else {
        assert(s@.skip(n).len() == 0);
        assert(unify_line_endings(s@.skip(n)) =~= Seq::<char>::empty());
        assert(r@ =~= unify_line_endings(s@));
    }
    r
}

/// The characters of a string, in order.
pub fn chars_of(s: &str) -> (v: Vec<char>)
    ensures
        v@ == s@,
{
    let mut v: Vec<char> = Vec::new();
    for c in it: s.chars()
        invariant
            it.seq() == s@,
            v@ == s@.take(it.index() as int),
    {
        v.push(c);
        assert(v@ =~= s@.take(it.index() + 1));
    }
    assert(s@.take(s@.len() as int) =~= s@);
    v
}

/// Whether two strings hold the same text.
pub fn same_text(a: &str, b: &str) -> (r: bool)
    ensures
        r == (a@ == b@),
{
    let x = a.to_owned();
    let y = b.to_owned();
    x == y
}

/// `needle` stands in `hay` starting at position `at`.
pub open spec fn occurs_at(hay: Seq<char>, needle: Seq<char>, at: int) -> bool {
    &&& 0 <= at
    &&& at + needle.len() <= hay.len()
    &&& hay.subrange(at, at + needle.len()) == needle
}

/// `needle` stands somewhere in `hay`. The empty text stands in every text.
pub open spec fn contains_text(hay: Seq<char>, needle: Seq<char>) -> bool {
    exists|at: int| occurs_at(hay, needle, at)
}

/// `prefix` stands at the start of `s`.
pub open spec fn starts_with_text(s: Seq<char>, prefix: Seq<char>) -> bool {
    occurs_at(s, prefix, 0)
}

fn matches_at(hay: &Vec<char>, needle: &Vec<char>, at: usize) -> (r: bool)
    requires
        at + needle.len() <= hay.len(),
    ensures
        r == occurs_at(hay@, needle@, at as int),
{
    let mut j: usize = 0;
    while j < needle.len()
        invariant
            j <= needle.len(),
            at + needle.len() <= hay.len(),
            forall|k: int| 0 <= k < j ==> hay@[at + k] == needle@[k],
        decreases needle.len() - j,
    {
        if hay[at + j] != needle[j] {
            assert(hay@.subrange(at as int, at + needle@.len())[j as int] != needle@[j as int]);
            return false;
        }
        j = j + 1;
    }
    assert(hay@.subrange(at as int, at + needle@.len()) =~= needle@);
    true
}

/// Whether `needle` occurs in `hay` as a contiguous run of characters.
pub fn contains(hay: &str, needle: &str) -> (r: bool)
    ensures
        r == contains_text(hay@, needle@),
{
    let h = chars_of(hay);
    let n = chars_of(needle);
    if n.len() > h.len() {
        return false;
    }
    let last: usize = h.len() - n.len();
    let mut at: usize = 0;
    loop
        invariant
            at <= last,
            last == h.len() - n.len(),
            n.len() <= h.len(),
            h@ == hay@,
            n@ == needle@,
            forall|k: int| 0 <= k < at ==> !occurs_at(hay@, needle@, k),
        decreases last - at,
    {
        if matches_at(&h, &n, at) {
            return true;
        }
        if at == last {
            return false;
        }
        at = at + 1;
    }
}

/// What follows `prefix` in `s`, if `s` begins with it.
pub fn strip_prefix(s: &str, prefix: &str) -> (r: Option<String>)
    ensures
        match r {
            Some(rest) => starts_with_text(s@, prefix@) && rest@ == s@.skip(prefix@.len() as int),
            None => !starts_with_text(s@, prefix@),
        },
{
    let h = chars_of(s);
    let n = chars_of(prefix);
    if n.len() > h.len() {
        return None;
    }
    if !matches_at(&h, &n, 0) {
        return None;
    }
    let mut rest = String::new();
    let mut i: usize = n.len();
    while i < h.len()
        invariant
            n.len() <= i <= h.len(),
            rest@ == h@.subrange(n.len() as int, i as int),
        decreases h.len() - i,
    {
        rest.push(h[i]);
        assert(rest@ =~= h@.subrange(n.len() as int, i + 1));
        i = i + 1;
    }
    assert(rest@ =~= s@.skip(prefix@.len() as int));
    Some(rest)
}

/// The decimal digit for a value below ten.
pub open spec fn digit_char(d: nat) -> char {
    seq!['0', '1', '2', '3', '4', '5', '6', '7', '8', '9'][d as int]
}

/// The decimal numeral of `n`, without a sign or leading zeros.
pub open spec fn decimal(n: nat) -> Seq<char>
    decreases n,
{
    if n < 10 {
        seq![digit_char(n)]
    } else {
        decimal(n / 10).push(digit_char(n % 10))
    }
}

fn digit(d: usize) -> (c: char)
    requires
        d < 10,
    ensures
        c == digit_char(d as nat),
{
    match d {
        0 => '0',
        1 => '1',
        2 => '2',
        3 => '3',
        4 => '4',
        5 => '5',
        6 => '6',
        7 => '7',
        8 => '8',
        _ => '9',
    }
}

/// Appends the decimal numeral of `n` to `out`.
pub fn push_decimal(out: &mut String, n: usize)
    ensures
        final(out)@ == old(out)@ + decimal(n as nat),
    decreases n,
{
    if n >= 10 {
        push_decimal(out, n / 10);
    }
    out.push(digit(n % 10));
    assert(out@ =~= old(out)@ + decimal(n as nat));
}

} // verus!
