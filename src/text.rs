//! Character-level helpers shared by the codecs.
use vstd::prelude::*;
use vstd::string::StringExecFns;

verus! {

/// Relies on `str::chars` collected into a `Vec`: the characters of `s`, in order.
#[verifier::external_body]
pub(crate) fn chars_of(s: &str) -> (r: Vec<char>)
    ensures
        r@ == s@,
{
    s.chars().collect()
}

/// Relies on collecting a `char` iterator into a `String`: the same characters, in order.
#[verifier::external_body]
pub(crate) fn string_of(v: &[char]) -> (r: String)
    ensures
        r@ == v@,
{
    v.iter().collect()
}

/// `true` when `p` is a prefix of `s`.
pub open spec fn is_prefix(p: Seq<char>, s: Seq<char>) -> bool {
    p.len() <= s.len() && s.subrange(0, p.len() as int) == p
}

/// `true` when `sep` occurs in `s` at position `i`.
pub open spec fn occurs_at(s: Seq<char>, sep: Seq<char>, i: int) -> bool {
    0 <= i && i + sep.len() <= s.len() && s.subrange(i, i + sep.len()) == sep
}

/// The first position at or after `from` where `sep` occurs in `s`.
pub open spec fn find_from(s: Seq<char>, sep: Seq<char>, from: int) -> Option<int>
    decreases s.len() - from,
{
    if from < 0 || from + sep.len() > s.len() {
        None
    } else if sep.len() == 0 || occurs_at(s, sep, from) {
        Some(from)
    } else {
        find_from(s, sep, from + 1)
    }
}

/// The pieces of `s[from..]` between the non-overlapping occurrences of `sep`,
/// found left to right (the pieces of `str::split` with a non-empty pattern).
pub open spec fn split_from(s: Seq<char>, sep: Seq<char>, from: int) -> Seq<Seq<char>>
    decreases s.len() - from,
{
    if from < 0 || from > s.len() {
        seq![]
    } else {
        match find_from(s, sep, from) {
            Some(i) if sep.len() > 0 && from <= i && i + sep.len() <= s.len() => seq![s.subrange(from, i)] + split_from(
                s,
                sep,
                i + sep.len(),
            ),
            _ => seq![s.subrange(from, s.len() as int)],
        }
    }
}

/// The pieces of `s` between the occurrences of `sep`.
pub open spec fn split(s: Seq<char>, sep: Seq<char>) -> Seq<Seq<char>> {
    split_from(s, sep, 0)
}

/// A found occurrence lies at or after the starting position.
pub proof fn lemma_find_from_bounds(s: Seq<char>, sep: Seq<char>, from: int)
    ensures
        find_from(s, sep, from) matches Some(i) ==> from <= i && occurs_at(s, sep, i),
    decreases s.len() - from,
{
    if sep.len() == 0 && 0 <= from <= s.len() {
        assert(s.subrange(from, from) =~= sep);
    }
    if !(from < 0 || from + sep.len() > s.len()) && sep.len() > 0 && !occurs_at(s, sep, from) {
        lemma_find_from_bounds(s, sep, from + 1);
    }
}

/// Whether `s` starts with `p`.
pub fn starts_with(s: &[char], p: &[char]) -> (r: bool)
    ensures
        r == is_prefix(p@, s@),
{
    if p.len() > s.len() {
        return false;
    }
    let mut i: usize = 0;
    while i < p.len()
        invariant
            p@.len() <= s@.len(),
            i <= p@.len(),
            forall|k: int| 0 <= k < i ==> s@[k] == p@[k],
        decreases p@.len() - i,
    {
        if s[i] != p[i] {
            assert(s@.subrange(0, p@.len() as int)[i as int] != p@[i as int]);
            return false;
        }
        i = i + 1;
    }
    assert(s@.subrange(0, p@.len() as int) =~= p@);
    true
}

/// Whether `sep` occurs in `s` at position `at`.
pub fn matches_at(s: &[char], sep: &[char], at: usize) -> (r: bool)
    ensures
        r == occurs_at(s@, sep@, at as int),
{
    if at > s.len() || sep.len() > s.len() - at {
        return false;
    }
    let mut i: usize = 0;
    while i < sep.len()
        invariant
            at + sep@.len() <= s.len(),
            i <= sep@.len(),
            forall|k: int| 0 <= k < i ==> s@[at + k] == sep@[k],
        decreases sep@.len() - i,
    {
        if s[at + i] != sep[i] {
            assert(s@.subrange(at as int, at + sep@.len())[i as int] != sep@[i as int]);
            return false;
        }
        i = i + 1;
    }
    assert(s@.subrange(at as int, at + sep@.len()) =~= sep@);
    true
}

/// The first position at or after `from` where `sep` occurs in `s`.
pub fn find(s: &[char], sep: &[char], from: usize) -> (r: Option<usize>)
    ensures
        match r {
            Some(i) => find_from(s@, sep@, from as int) == Some(i as int),
            None => find_from(s@, sep@, from as int) is None,
        },
{
    if sep.len() == 0 {
        if from <= s.len() {
            assert(s@.subrange(from as int, from as int) =~= sep@);
            return Some(from);
        }
        return None;
    }
    let mut k: usize = from;
    while k <= s.len() && sep.len() <= s.len() - k
        invariant
            from <= k,
            sep@.len() > 0,
            find_from(s@, sep@, from as int) == find_from(s@, sep@, k as int),
        decreases s@.len() + 1 - k,
    {
        if matches_at(s, sep, k) {
            return Some(k);
        }
        k = k + 1;
    }
    None
}

/// The characters of `v` from `from` up to `to`.
pub fn slice_of(v: &[char], from: usize, to: usize) -> (r: Vec<char>)
    requires
        from <= to <= v@.len(),
    ensures
        r@ == v@.subrange(from as int, to as int),
{
    let mut r: Vec<char> = Vec::new();
    let mut i: usize = from;
    while i < to
        invariant
            from <= i <= to <= v@.len(),
            r@ == v@.subrange(from as int, i as int),
        decreases to - i,
    {
        r.push(v[i]);
        i = i + 1;
        assert(r@ =~= v@.subrange(from as int, i as int));
    }
    r
}

/// Concatenation of the characters of `a` and `b` as a new `String`.
pub fn concat(a: &str, b: &str) -> (r: String)
    ensures
        r@ == a@ + b@,
{
    let mut s = a.to_owned();
    s.append(b);
    s
}

} // verus!

verus! {

/// The lower-case mapping of `s`, as Rust's `str::to_lowercase` computes it.
pub uninterp spec fn lowercase_of(s: Seq<char>) -> Seq<char>;

/// Relies on `str::to_lowercase`: the result depends on the characters alone.
#[verifier::external_body]
pub(crate) fn to_lowercase(s: &str) -> (r: String)
    ensures
        r@ == lowercase_of(s@),
{
    s.to_lowercase()
}

/// The ten decimal digits, in order.
pub open spec fn digits() -> Seq<char> {
    seq!['0', '1', '2', '3', '4', '5', '6', '7', '8', '9']
}

/// The decimal text of `n`, without leading zeros.
pub open spec fn decimal_of(n: nat) -> Seq<char>
    decreases n,
{
    if n < 10 {
        seq![digits()[n as int]]
    } else {
        decimal_of(n / 10).push(digits()[(n % 10) as int])
    }
}

/// `n` in decimal, left-padded with zeros to at least `width` characters.
pub open spec fn padded_decimal_of(n: nat, width: nat) -> Seq<char> {
    let d = decimal_of(n);
    if d.len() >= width {
        d
    } else {
        Seq::new((width - d.len()) as nat, |i: int| '0') + d
    }
}

/// The character of decimal digit `d`.
pub fn digit_char(d: u64) -> (r: char)
    requires
        d < 10,
    ensures
        r == digits()[d as int],
{
    match d {
        0 => '0',
        1 => '1',
        2 => '2',
        3 => '3',
        4 => '4',
        5 => '5',
        6 => '6',
        7 => '7',
        8 => '8',
        _ => '9',
    }
}

/// The decimal digits of `n`.
pub fn decimal_chars(n: u64) -> (r: Vec<char>)
    ensures
        r@ == decimal_of(n as nat),
    decreases n,
{
    if n < 10 {
        let mut v: Vec<char> = Vec::new();
        v.push(digit_char(n));
        v
    } else {
        let mut v = decimal_chars(n / 10);
        v.push(digit_char(n % 10));
        v
    }
}

/// `n` in decimal, left-padded with zeros to at least `width` characters.
pub fn padded_decimal(n: u64, width: usize) -> (r: String)
    ensures
        r@ == padded_decimal_of(n as nat, width as nat),
{
    let d = decimal_chars(n);
    if d.len() >= width {
        return string_of(&d);
    }
    let mut v: Vec<char> = Vec::new();
    let pad: usize = width - d.len();
    let mut i: usize = 0;
    while i < pad
        invariant
            i <= pad,
            v@ == Seq::new(i as nat, |k: int| '0'),
        decreases pad - i,
    {
        v.push('0');
        i = i + 1;
        assert(v@ =~= Seq::new(i as nat, |k: int| '0'));
    }
    let mut j: usize = 0;
    while j < d.len()
        invariant
            j <= d@.len(),
            v@ == Seq::new(pad as nat, |k: int| '0') + d@.subrange(0, j as int),
        decreases d@.len() - j,
    {
        v.push(d[j]);
        j = j + 1;
        assert(v@ =~= Seq::new(pad as nat, |k: int| '0') + d@.subrange(0, j as int));
    }
    assert(d@.subrange(0, d@.len() as int) =~= d@);
    string_of(&v)
}

} // verus!

verus! {

/// `s[from..]` with every occurrence of `pat` (non-overlapping, left to right) removed.
pub open spec fn removed_from(s: Seq<char>, pat: Seq<char>, from: int) -> Seq<char>
    decreases s.len() - from,
{
    if from < 0 || from > s.len() {
        Seq::empty()
    } else {
        match find_from(s, pat, from) {
            Some(i) if pat.len() > 0 && from <= i && i + pat.len() <= s.len() => s.subrange(from, i)
                + removed_from(s, pat, i + pat.len()),
            _ => s.subrange(from, s.len() as int),
        }
    }
}

/// `s` with every occurrence of `pat` removed, as `str::replace(pat, "")` gives it.
pub open spec fn removed(s: Seq<char>, pat: Seq<char>) -> Seq<char> {
    removed_from(s, pat, 0)
}

/// `s` with every occurrence of `pat` removed.
pub fn remove_all(s: &[char], pat: &[char]) -> (r: Vec<char>)
    ensures
        r@ == removed(s@, pat@),
{
    let mut out: Vec<char> = Vec::new();
    let mut pos: usize = 0;
    loop
        invariant_except_break
            removed(s@, pat@) == out@ + removed_from(s@, pat@, pos as int),
        invariant
            pos <= s@.len(),
        ensures
            removed(s@, pat@) == out@,
        decreases s@.len() - pos,
    {
        let next = if pat.len() == 0 {
            None
        } else {
            find(s, pat, pos)
        };
        proof {
            lemma_find_from_bounds(s@, pat@, pos as int);
        }
        let n = s.len();
        match next {
            None => {
                let piece = slice_of(s, pos, n);
                proof {
                    assert(removed_from(s@, pat@, pos as int) == piece@);
                }
                let ghost before = out@;
                let mut j: usize = 0;
                while j < piece.len()
                    invariant
                        j <= piece@.len(),
                        out@ == before + piece@.subrange(0, j as int),
                    decreases piece@.len() - j,
                {
                    out.push(piece[j]);
                    j = j + 1;
                    assert(out@ =~= before + piece@.subrange(0, j as int));
                }
                assert(piece@.subrange(0, piece@.len() as int) =~= piece@);
                assert(removed(s@, pat@) =~= out@);
                break ;
            },
            Some(i) => {
                assert(i + pat@.len() <= n);
                let piece = slice_of(s, pos, i);
                let ghost before = out@;
                let mut j: usize = 0;
                while j < piece.len()
                    invariant
                        j <= piece@.len(),
                        out@ == before + piece@.subrange(0, j as int),
                    decreases piece@.len() - j,
                {
                    out.push(piece[j]);
                    j = j + 1;
                    assert(out@ =~= before + piece@.subrange(0, j as int));
                }
                assert(piece@.subrange(0, piece@.len() as int) =~= piece@);
                assert(removed(s@, pat@) =~= out@ + removed_from(s@, pat@, i + pat@.len()));
                pos = i + pat.len();
            },
        }
    }
    out
}

/// Whether `c` has the Unicode `White_Space` property, which `char::is_whitespace` tests.
pub open spec fn is_white_space(c: char) -> bool {
    let v = c as u32;
    (0x09 <= v <= 0x0d) || v == 0x20 || v == 0x85 || v == 0xa0 || v == 0x1680 || (0x2000 <= v
        <= 0x200a) || v == 0x2028 || v == 0x2029 || v == 0x202f || v == 0x205f || v == 0x3000
}

/// `s` without its trailing white space.
pub open spec fn trimmed_end_of(s: Seq<char>) -> Seq<char>
    decreases s.len(),
{
    if s.len() > 0 && is_white_space(s.last()) {
        trimmed_end_of(s.drop_last())
    } else {
        s
    }
}

/// `s` without its leading white space.
pub open spec fn trimmed_start_of(s: Seq<char>) -> Seq<char>
    decreases s.len(),
{
    if s.len() > 0 && is_white_space(s[0]) {
        trimmed_start_of(s.drop_first())
    } else {
        s
    }
}

/// `s` without its leading and trailing white space.
pub open spec fn trimmed_of(s: Seq<char>) -> Seq<char> {
    trimmed_start_of(trimmed_end_of(s))
}

/// Relies on `str::trim`: removes leading and trailing characters for which
/// `char::is_whitespace` holds.
#[verifier::external_body]
pub(crate) fn trim(s: &str) -> (r: String)
    ensures
        r@ == trimmed_of(s@),
{
    s.trim().to_owned()
}

/// Relies on `str::trim_end`: removes trailing characters for which
/// `char::is_whitespace` holds.
#[verifier::external_body]
pub(crate) fn trim_end(s: &str) -> (r: String)
    ensures
        r@ == trimmed_end_of(s@),
{
    s.trim_end().to_owned()
}

} // verus!

verus! {

/// The views of a sequence of character vectors.
pub open spec fn pieces_view(v: Seq<Vec<char>>) -> Seq<Seq<char>> {
    v.map_values(|p: Vec<char>| p@)
}

/// The pieces of `s` between the occurrences of a non-empty `sep`.
pub fn split_all(s: &[char], sep: &[char]) -> (r: Vec<Vec<char>>)
    requires
        sep@.len() > 0,
    ensures
        pieces_view(r@) == split(s@, sep@),
{
    let mut out: Vec<Vec<char>> = Vec::new();
    let mut pos: usize = 0;
    loop
        invariant_except_break
            split(s@, sep@) == pieces_view(out@) + split_from(s@, sep@, pos as int),
        invariant
            pos <= s@.len(),
            sep@.len() > 0,
        ensures
            split(s@, sep@) == pieces_view(out@),
        decreases s@.len() - pos,
    {
        let next = find(s, sep, pos);
        proof {
            lemma_find_from_bounds(s@, sep@, pos as int);
        }
        let n = s.len();
        let end: usize = match next {
            Some(i) => i,
            None => n,
        };
        let piece = slice_of(s, pos, end);
        let ghost before = out@;
        out.push(piece);
        assert(pieces_view(out@) =~= pieces_view(before).push(piece@));
        match next {
            None => {
                assert(split_from(s@, sep@, pos as int) == seq![piece@]);
                assert(split(s@, sep@) =~= pieces_view(out@));
                break ;
            },
            Some(i) => {
                assert(i + sep@.len() <= n);
                assert(split_from(s@, sep@, pos as int) =~= seq![piece@] + split_from(
                    s@,
                    sep@,
                    i + sep@.len(),
                ));
                assert(split(s@, sep@) =~= pieces_view(out@) + split_from(
                    s@,
                    sep@,
                    i + sep@.len(),
                ));
                pos = i + sep.len();
            },
        }
    }
    out
}

} // verus!
