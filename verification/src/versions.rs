//! Release versions: reading `major.minor.patch` numbers and picking the
//! newest release tag out of `git ls-remote --tags` output.
use vstd::prelude::*;
use crate::text::{
    all_digits, decimal, is_digit, lemma_decimal_digits, lemma_parse_decimal, split_acc,
    after_last, after_last_chars, chars_of, lines, lines_chars, parse_u64, parse_u64_chars, split,
    split_chars, string_from_chars, strip_prefix, strip_prefix_chars, trim, trim_chars,
    trim_start_by, trim_start_chars, views, CharClass,
};

verus! {

/// A release version: major, minor and patch number.
pub type Version = (u64, u64, u64);

/// The text a version is read from: white space trimmed, then every
/// leading `v` removed.
pub open spec fn version_text(s: Seq<char>) -> Seq<char> {
    trim_start_by(trim(s), CharClass::Exactly('v'))
}

/// What `parse_version` returns: the first three `.`-separated pieces of
/// the version text, each read as a `u64`; pieces after the third are ignored.
pub open spec fn spec_parse_version(s: Seq<char>) -> Option<Version> {
    let p = split(version_text(s), '.');
    if p.len() >= 3 {
        match (parse_u64(p[0]), parse_u64(p[1]), parse_u64(p[2])) {
            (Some(a), Some(b), Some(c)) => Some((a, b, c)),
            _ => None,
        }
    } else {
        None
    }
}

/// Versions are ordered by major, then minor, then patch number.
pub open spec fn version_le(a: Version, b: Version) -> bool {
    ||| a.0 < b.0
    ||| (a.0 == b.0 && a.1 < b.1)
    ||| (a.0 == b.0 && a.1 == b.1 && a.2 <= b.2)
}

pub open spec fn version_lt(a: Version, b: Version) -> bool {
    version_le(a, b) && a != b
}

/// Whether `a` comes before `b` or equals it.
pub fn version_at_most(a: Version, b: Version) -> (r: bool)
    ensures
        r == version_le(a, b),
{
    a.0 < b.0 || (a.0 == b.0 && a.1 < b.1) || (a.0 == b.0 && a.1 == b.1 && a.2 <= b.2)
}

/// Whether `a` comes strictly before `b`.
pub fn version_before(a: Version, b: Version) -> (r: bool)
    ensures
        r == version_lt(a, b),
{
    version_at_most(a, b) && !(a.0 == b.0 && a.1 == b.1 && a.2 == b.2)
}

/// Reads a version from characters.
pub fn parse_version_chars(v: &[char]) -> (r: Option<Version>)
    ensures
        r == spec_parse_version(v@),
{
    let t = trim_chars(v, CharClass::Whitespace);
    let c = trim_start_chars(t.as_slice(), CharClass::Exactly('v'));
    let parts = split_chars(c.as_slice(), '.');
    assert(views(parts@).len() == parts@.len());
    if parts.len() < 3 {
        return None;
    }
    assert(views(parts@)[0] == parts@[0]@);
    assert(views(parts@)[1] == parts@[1]@);
    assert(views(parts@)[2] == parts@[2]@);
    let a = parse_u64_chars(parts[0].as_slice());
    if a.is_none() {
        return None;
    }
    let b = parse_u64_chars(parts[1].as_slice());
    if b.is_none() {
        return None;
    }
    let c = parse_u64_chars(parts[2].as_slice());
    if c.is_none() {
        return None;
    }
    Some((a.unwrap(), b.unwrap(), c.unwrap()))
}

/// Reads `major.minor.patch` from a version string such as `v1.2.3`.
pub fn parse_version(value: &str) -> (r: Option<Version>)
    ensures
        r == spec_parse_version(value@),
{
    let v = chars_of(value);
    parse_version_chars(v.as_slice())
}

/// The tag named by one line of `git ls-remote --tags` output: the text
/// after the last tab, without its `refs/tags/` prefix.
pub open spec fn tag_of_line(line: Seq<char>) -> Option<Seq<char>> {
    match after_last(line, '\t') {
        Some(r) => strip_prefix(r, "refs/tags/"@),
        None => None,
    }
}

/// The version of a release.
pub open spec fn release_version(c: (Version, Seq<char>)) -> Version {
    c.0
}

/// A line's release, when it names a tag that reads as a version.
pub open spec fn candidate(line: Seq<char>) -> Option<(Version, Seq<char>)> {
    match tag_of_line(line) {
        Some(tag) => match spec_parse_version(tag) {
            Some(v) => Some((v, tag)),
            None => None,
        },
        None => None,
    }
}

/// The release with the greatest version among the lines; among equal
/// versions the one that comes last wins.
pub open spec fn best_candidate(ls: Seq<Seq<char>>) -> Option<(Version, Seq<char>)>
    decreases ls.len(),
{
    if ls.len() == 0 {
        None
    } else {
        let prev = best_candidate(ls.drop_last());
        match candidate(ls.last()) {
            None => prev,
            Some(c) => match prev {
                None => Some(c),
                Some(p) => if version_le(p.0, c.0) {
                    Some(c)
                } else {
                    Some(p)
                },
            },
        }
    }
}

/// What `latest_version_from_tags` returns.
pub open spec fn spec_latest_tag(output: Seq<char>) -> Option<Seq<char>> {
    match best_candidate(lines(output)) {
        Some(c) => Some(c.1),
        None => None,
    }
}

fn line_candidate(line: &[char]) -> (r: Option<(Version, Vec<char>)>)
    ensures
        match r {
            Some(c) => candidate(line@) == Some((c.0, c.1@)),
            None => candidate(line@) is None,
        },
{
    let after = after_last_chars(line, '\t');
    match after {
        None => None,
        Some(rest) => {
            let tag = strip_prefix_chars(rest.as_slice(), "refs/tags/");
            match tag {
                None => None,
                Some(tag) => {
                    let v = parse_version_chars(tag.as_slice());
                    match v {
                        Some(v) => Some((v, tag)),
                        None => None,
                    }
                },
            }
        },
    }
}

/// The newest release tag in `git ls-remote --tags --refs` output: among the
/// lines whose tag reads as a version, the one with the greatest version
/// (the last of them on a tie).
pub fn latest_version_from_tags(output: &str) -> (r: Option<String>)
    ensures
        match r {
            Some(t) => spec_latest_tag(output@) == Some(t@),
            None => spec_latest_tag(output@) is None,
        },
{
    let chars = chars_of(output);
    let ls = lines_chars(chars.as_slice());
    let ghost lv = views(ls@);
    let mut best: Option<(Version, Vec<char>)> = None;
    let mut i: usize = 0;
    while i < ls.len()
        invariant
            0 <= i <= ls@.len(),
            lv == views(ls@),
            lv.len() == ls@.len(),
            match best {
                Some(b) => best_candidate(lv.take(i as int)) == Some((b.0, b.1@)),
                None => best_candidate(lv.take(i as int)) is None,
            },
        decreases ls@.len() - i,
    {
        assert(lv.take(i + 1).drop_last() =~= lv.take(i as int));
        assert(lv.take(i + 1).last() == ls@[i as int]@);
        let c = line_candidate(ls[i].as_slice());
        match c {
            None => {},
            Some(c) => {
                let replace = match &best {
                    None => true,
                    Some(b) => version_at_most(b.0, c.0),
                };
                if replace {
                    best = Some(c);
                }
            },
        }
        i = i + 1;
    }
    assert(lv.take(ls@.len() as int) =~= lv);
    match best {
        Some(b) => Some(string_from_chars(b.1.as_slice())),
        None => None,
    }
}

/// The release that `latest_version_from_tags` picks comes from one of the
/// lines, its version is at least that of every line's release, and there
/// is none exactly when no line names a release.
pub proof fn lemma_best_candidate_is_greatest(ls: Seq<Seq<char>>)
    ensures
        best_candidate(ls) is None <==> (forall|i: int| 0 <= i < ls.len() ==> #[trigger] candidate(ls[i]) is None),
        best_candidate(ls) matches Some(b) ==> {
            &&& exists|i: int| 0 <= i < ls.len() && #[trigger] candidate(ls[i]) == Some(b)
            &&& forall|j: int| 0 <= j < ls.len() && #[trigger] candidate(ls[j]) is Some
                ==> version_le(release_version(candidate(ls[j])->0), b.0)
        },
    decreases ls.len(),
{
    if ls.len() > 0 {
        let t = ls.drop_last();
        lemma_best_candidate_is_greatest(t);
        assert forall|i: int| 0 <= i < t.len() implies #[trigger] t[i] == ls[i] by {}
        let n = ls.len() - 1;
        match best_candidate(t) {
            Some(p) => {
                let i0 = choose|i: int| 0 <= i < t.len() && #[trigger] candidate(t[i]) == Some(p);
                assert(candidate(ls[i0]) == Some(p));
            },
            None => {},
        }
        if best_candidate(ls) is None {
            assert forall|i: int| 0 <= i < ls.len() implies #[trigger] candidate(ls[i]) is None by {
                if i < n {
                    assert(candidate(t[i]) is None);
                }
            }
        }
        if forall|i: int| 0 <= i < ls.len() ==> #[trigger] candidate(ls[i]) is None {
            assert(candidate(ls[n]) is None);
            assert forall|i: int| 0 <= i < t.len() implies #[trigger] candidate(t[i]) is None by {
                assert(candidate(ls[i]) is None);
            }
        }
        match best_candidate(ls) {
            Some(b) => {
                assert forall|j: int| 0 <= j < ls.len() && #[trigger] candidate(ls[j]) is Some implies version_le(
                    release_version(candidate(ls[j])->0),
                    b.0,
                ) by {
                    if j < n {
                        assert(candidate(t[j]) is Some);
                    }
                }
                if candidate(ls[n]) == Some(b) {
                } else {
                    let i0 = choose|i: int| 0 <= i < t.len() && #[trigger] candidate(t[i]) == Some(b);
                    assert(candidate(ls[i0]) == Some(b));
                }
            },
            None => {},
        }
    }
}


/// `major.minor.patch` written in decimal.
pub open spec fn version_string(v: Version) -> Seq<char> {
    decimal(v.0 as nat) + seq!['.'] + decimal(v.1 as nat) + seq!['.'] + decimal(v.2 as nat)
}

proof fn lemma_split_acc_append(s: Seq<char>, t: Seq<char>, sep: char)
    requires
        forall|i: int| 0 <= i < t.len() ==> #[trigger] t[i] != sep,
    ensures
        split_acc(s + t, sep) == (split_acc(s, sep).0, split_acc(s, sep).1 + t),
    decreases t.len(),
{
    if t.len() == 0 {
        assert(s + t =~= s);
        assert(split_acc(s, sep).1 + t =~= split_acc(s, sep).1);
    } else {
        let u = t.drop_last();
        lemma_split_acc_append(s, u, sep);
        assert((s + t).drop_last() =~= s + u);
        assert((s + t).last() == t.last());
        assert(split_acc(s, sep).1 + u.push(t.last()) =~= split_acc(s, sep).1 + t);
        assert(u.push(t.last()) =~= t);
    }
}

proof fn lemma_split_acc_sep(s: Seq<char>, sep: char)
    ensures
        split_acc(s.push(sep), sep) == (split_acc(s, sep).0.push(split_acc(s, sep).1), Seq::<char>::empty()),
{
    assert(s.push(sep).drop_last() =~= s);
}

proof fn lemma_digits_free_of(s: Seq<char>, c: char)
    requires
        all_digits(s),
        !is_digit(c),
    ensures
        forall|i: int| 0 <= i < s.len() ==> #[trigger] s[i] != c,
{
    assert forall|i: int| 0 <= i < s.len() implies #[trigger] s[i] != c by {
        assert(is_digit(s[i]));
    }
}

/// Reading back a version written as `major.minor.patch` gives the
/// version again.
pub proof fn lemma_parse_version_string(v: Version)
    ensures
        spec_parse_version(version_string(v)) == Some(v),
{
    let d0 = decimal(v.0 as nat);
    let d1 = decimal(v.1 as nat);
    let d2 = decimal(v.2 as nat);
    lemma_decimal_digits(v.0 as nat);
    lemma_decimal_digits(v.1 as nat);
    lemma_decimal_digits(v.2 as nat);
    lemma_parse_decimal(v.0);
    lemma_parse_decimal(v.1);
    lemma_parse_decimal(v.2);
    lemma_digits_free_of(d0, '.');
    lemma_digits_free_of(d1, '.');
    lemma_digits_free_of(d2, '.');
    let s = version_string(v);
    let e = Seq::<char>::empty();
    // the version text is the string itself
    assert(is_digit(s[0])) by {
        assert(s[0] == d0[0]);
    }
    assert(is_digit(s.last())) by {
        assert(s.last() == d2[d2.len() - 1]);
    }
    assert(trim_start_by(s, CharClass::Whitespace) == s);
    assert(trim(s) == s);
    assert(version_text(s) == s);
    // the three pieces
    lemma_split_acc_append(e, d0, '.');
    assert(e + d0 =~= d0);
    lemma_split_acc_sep(d0, '.');
    lemma_split_acc_append(d0.push('.'), d1, '.');
    assert(split_acc(d0.push('.'), '.').1 + d1 =~= d1);
    lemma_split_acc_sep(d0.push('.') + d1, '.');
    lemma_split_acc_append((d0.push('.') + d1).push('.'), d2, '.');
    assert(((d0.push('.') + d1).push('.') + d2) =~= s);
    let p = split(s, '.');
    assert(p =~= seq![d0, d1, d2]);
}


/// Versions are totally ordered.
pub proof fn lemma_version_order(a: Version, b: Version, c: Version)
    ensures
        version_le(a, a),
        version_le(a, b) || version_le(b, a),
        version_le(a, b) && version_le(b, a) ==> a == b,
        version_le(a, b) && version_le(b, c) ==> version_le(a, c),
        version_lt(a, b) <==> !version_le(b, a),
{
}

/// A version as one number: major, minor and patch as the digits of a
/// number in base 2^64, so that comparing versions is comparing numbers.
pub open spec fn version_key(v: Version) -> int {
    v.0 as int * 0x1_0000_0000_0000_0000_0000_0000_0000_0000int + v.1 as int * 0x1_0000_0000_0000_0000int
        + v.2 as int
}

/// Versions compare by major number first, then minor, then patch, each
/// in numeric order: a higher patch number is newer when major and minor
/// agree, and `version_le` is the order of the versions read as numbers in
/// base 2^64.
pub proof fn lemma_version_order_numeric(a: Version, b: Version)
    ensures
        version_le(a, b) <==> version_key(a) <= version_key(b),
        version_lt(a, b) <==> version_key(a) < version_key(b),
        a.0 < b.0 ==> version_lt(a, b),
        a.0 == b.0 && a.1 < b.1 ==> version_lt(a, b),
        a.0 == b.0 && a.1 == b.1 ==> (version_le(a, b) <==> a.2 <= b.2),
        a.0 == b.0 && a.1 == b.1 ==> (version_lt(a, b) <==> a.2 < b.2),
{
    let m: int = 0x1_0000_0000_0000_0000int;
    assert(m * m == 0x1_0000_0000_0000_0000_0000_0000_0000_0000int);
    assert(a.1 as int * m + a.2 < m * m) by (nonlinear_arith)
        requires
            0 <= a.1 < m,
            0 <= a.2 < m,
            m == 0x1_0000_0000_0000_0000int,
    ;
    assert(b.1 as int * m + b.2 < m * m) by (nonlinear_arith)
        requires
            0 <= b.1 < m,
            0 <= b.2 < m,
            m == 0x1_0000_0000_0000_0000int,
    ;
    if a.0 < b.0 {
        assert(a.0 as int * (m * m) + m * m <= b.0 as int * (m * m)) by (nonlinear_arith)
            requires
                a.0 < b.0,
                m * m > 0,
        ;
    } else if a.0 > b.0 {
        assert(b.0 as int * (m * m) + m * m <= a.0 as int * (m * m)) by (nonlinear_arith)
            requires
                b.0 < a.0,
                m * m > 0,
        ;
    } else if a.1 < b.1 {
        assert(a.1 as int * m + m <= b.1 as int * m) by (nonlinear_arith)
            requires
                a.1 < b.1,
                m > 0,
        ;
    } else if a.1 > b.1 {
        assert(b.1 as int * m + m <= a.1 as int * m) by (nonlinear_arith)
            requires
                b.1 < a.1,
                m > 0,
        ;
    }
}

} // verus!
