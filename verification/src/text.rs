//! Verified text utilities: trimming, prefix tests, splitting and joining.
//!
//! Every payload on the wire is text, so the parser and the panels all lean
//! on these helpers. Whitespace means the characters with the Unicode
//! white-space property, as the standard library's whitespace test
//! recognizes them.

use vstd::prelude::*;
use vstd::string::*;

verus! {

/// The characters with the Unicode white-space property: the ASCII
/// whitespace controls and space, next line, no-break space, ogham space
/// mark, the typographic spaces, the two line separators, narrow no-break
/// space, medium mathematical space, and ideographic space.
pub open spec fn is_space_char(c: char) -> bool {
    let v = c as int;
    (0x09 <= v && v <= 0x0d) || v == 0x20 || v == 0x85 || v == 0xa0 || v == 0x1680 || (0x2000
        <= v && v <= 0x200a) || v == 0x2028 || v == 0x2029 || v == 0x202f || v == 0x205f || v
        == 0x3000
}

/// Executable test for [`is_space_char`].
pub fn is_space(c: char) -> (r: bool)
    ensures
        r == is_space_char(c),
{
    let v = c as u32;
    (0x09 <= v && v <= 0x0d) || v == 0x20 || v == 0x85 || v == 0xa0 || v == 0x1680 || (0x2000
        <= v && v <= 0x200a) || v == 0x2028 || v == 0x2029 || v == 0x202f || v == 0x205f || v
        == 0x3000
}

/// A string with the leading and trailing whitespace removed.
pub open spec fn trim_spec(s: Seq<char>) -> Seq<char>
    decreases s.len(),
{
    if s.len() > 0 && is_space_char(s[0]) {
        trim_spec(s.drop_first())
    } else if s.len() > 0 && is_space_char(s[s.len() - 1]) {
        trim_spec(s.drop_last())
    } else {
        s
    }
}

/// Removes leading and trailing whitespace, as [`trim_spec`] describes.
pub fn trim_str<'a>(s: &'a str) -> (r: &'a str)
    ensures
        r@ == trim_spec(s@),
{
    let n = s.unicode_len();
    let mut i: usize = 0;
    let mut j: usize = n;
    proof {
        assert(s@.subrange(0, n as int) =~= s@);
    }
    while i < j
        invariant
            0 <= i <= j <= n,
            n == s@.len(),
            trim_spec(s@) == trim_spec(s@.subrange(i as int, j as int)),
        ensures
            0 <= i <= j <= n,
            trim_spec(s@) == s@.subrange(i as int, j as int),
        decreases j - i,
    {
        let sub = Ghost(s@.subrange(i as int, j as int));
        if is_space(s.get_char(i)) {
            proof {
                assert(sub@.drop_first() =~= s@.subrange(i + 1, j as int));
            }
            i = i + 1;
        } else if is_space(s.get_char(j - 1)) {
            proof {
                assert(sub@.drop_last() =~= s@.subrange(i as int, j - 1));
            }
            j = j - 1;
        } else {
            break;
        }
    }
    s.substring_char(i, j)
}

/// Whether `s` begins with `prefix`.
pub fn starts_with_str(s: &str, prefix: &str) -> (r: bool)
    ensures
        r == prefix@.is_prefix_of(s@),
{
    let pn = prefix.unicode_len();
    let sn = s.unicode_len();
    if pn > sn {
        return false;
    }
    let mut k: usize = 0;
    while k < pn
        invariant
            0 <= k <= pn <= sn,
            pn == prefix@.len(),
            sn == s@.len(),
            forall|t: int| 0 <= t < k ==> s@[t] == prefix@[t],
        decreases pn - k,
    {
        if s.get_char(k) != prefix.get_char(k) {
            proof {
                assert(!prefix@.is_prefix_of(s@)) by {
                    if prefix@.is_prefix_of(s@) {
                        assert(prefix@[k as int] == s@.subrange(0, pn as int)[k as int]);
                    }
                }
            }
            return false;
        }
        k = k + 1;
    }
    proof {
        assert(prefix@ =~= s@.subrange(0, pn as int));
    }
    true
}

/// Whether two string slices hold the same characters.
pub fn str_eq(a: &str, b: &str) -> (r: bool)
    ensures
        r == (a@ == b@),
{
    let an = a.unicode_len();
    let bn = b.unicode_len();
    if an != bn {
        return false;
    }
    let r = starts_with_str(b, a);
    proof {
        if r {
            assert(a@ =~= b@);
        } else {
            assert(a@.len() == b@.len());
            if a@ == b@ {
                assert(a@ =~= b@.subrange(0, a@.len() as int));
            }
        }
    }
    r
}


/// Splits `s` at every character satisfying `sep`; `n` separators give
/// `n + 1` segments, so the result is never empty.
pub open spec fn split_by(s: Seq<char>, sep: spec_fn(char) -> bool) -> Seq<Seq<char>>
    decreases s.len(),
{
    if s.len() == 0 {
        seq![Seq::<char>::empty()]
    } else if sep(s[0]) {
        seq![Seq::<char>::empty()] + split_by(s.drop_first(), sep)
    } else {
        let rest = split_by(s.drop_first(), sep);
        seq![seq![s[0]] + rest[0]] + rest.drop_first()
    }
}

pub proof fn lemma_split_by_len(s: Seq<char>, sep: spec_fn(char) -> bool)
    ensures
        split_by(s, sep).len() >= 1,
    decreases s.len(),
{
    if s.len() > 0 {
        lemma_split_by_len(s.drop_first(), sep);
    }
}

/// Splitting a string without separators yields the string itself.
pub proof fn lemma_split_by_none(s: Seq<char>, sep: spec_fn(char) -> bool)
    requires
        forall|t: int| 0 <= t < s.len() ==> !sep(s[t]),
    ensures
        split_by(s, sep) == seq![s],
    decreases s.len(),
{
    if s.len() == 0 {
        assert(s =~= Seq::<char>::empty());
        assert(split_by(s, sep) =~= seq![s]);
    } else {
        assert(!sep(s[0]));
        lemma_split_by_none(s.drop_first(), sep);
        let rest = split_by(s.drop_first(), sep);
        assert(rest == seq![s.drop_first()]);
        assert(rest[0] == s.drop_first());
        assert(rest.drop_first() =~= Seq::<Seq<char>>::empty());
        assert(seq![s[0]] + s.drop_first() =~= s);
        assert(split_by(s, sep) =~= seq![s]);
    }
}

/// Splitting at the first separator: the segment before it, then the split
/// of everything after it.
pub proof fn lemma_split_by_cut(s: Seq<char>, sep: spec_fn(char) -> bool, k: int)
    requires
        0 <= k < s.len(),
        sep(s[k]),
        forall|t: int| 0 <= t < k ==> !sep(s[t]),
    ensures
        split_by(s, sep) == seq![s.take(k)] + split_by(s.skip(k + 1), sep),
    decreases s.len(),
{
    if k == 0 {
        assert(s.take(0) =~= Seq::<char>::empty());
        assert(s.skip(1) =~= s.drop_first());
        assert(split_by(s, sep) =~= seq![s.take(0)] + split_by(s.skip(1), sep));
    } else {
        assert(!sep(s[0]));
        assert(s.drop_first()[k - 1] == s[k]);
        assert(forall|t: int| 0 <= t < k - 1 ==> s.drop_first()[t] == s[t + 1] && !sep(#[trigger] s.drop_first()[t]));
        lemma_split_by_cut(s.drop_first(), sep, k - 1);
        let rest = split_by(s.drop_first(), sep);
        assert(rest == seq![s.drop_first().take(k - 1)] + split_by(s.drop_first().skip(k), sep));
        lemma_split_by_len(s.drop_first().skip(k), sep);
        assert(rest[0] == s.drop_first().take(k - 1));
        assert(s.drop_first().skip(k) =~= s.skip(k + 1));
        assert(rest.drop_first() =~= split_by(s.skip(k + 1), sep));
        assert(seq![s[0]] + s.drop_first().take(k - 1) =~= s.take(k));
        assert(split_by(s, sep) =~= seq![s.take(k)] + split_by(s.skip(k + 1), sep));
    }
}

/// The newline separator, named so that specifications and code share one
/// function value.
pub open spec fn newline_sep() -> spec_fn(char) -> bool {
    |c: char| c == '\n'
}

/// The whitespace separator.
pub open spec fn space_sep() -> spec_fn(char) -> bool {
    |c: char| is_space_char(c)
}

/// The segments of `s` between newline characters, in order.
pub open spec fn split_lines_spec(s: Seq<char>) -> Seq<Seq<char>> {
    split_by(s, newline_sep())
}

/// The segments of `s` between whitespace characters, in order.
pub open spec fn split_spaces_spec(s: Seq<char>) -> Seq<Seq<char>> {
    split_by(s, space_sep())
}

/// Splits `s` at every newline, as [`split_lines_spec`] describes.
pub fn split_lines(s: &str) -> (r: Vec<String>)
    ensures
        r@.map_values(|x: String| x@) == split_lines_spec(s@),
        r@.len() >= 1,
{
    let ghost sep = newline_sep();
    let n = s.unicode_len();
    let mut r: Vec<String> = Vec::new();
    let mut start: usize = 0;
    let mut i: usize = 0;
    proof {
        assert(s@.subrange(0, n as int) =~= s@);
    }
    while i < n
        invariant
            0 <= start <= i <= n,
            n == s@.len(),
            sep == newline_sep(),
            split_by(s@, sep) =~= r@.map_values(|x: String| x@) + split_by(
                s@.subrange(start as int, n as int),
                sep,
            ),
            forall|t: int| start <= t < i ==> s@[t] != '\n',
        decreases n - i,
    {
        if s.get_char(i) == '\n' {
            let seg = s.substring_char(start, i).to_owned();
            proof {
                let tail = s@.subrange(start as int, n as int);
                assert(sep(tail[i - start]));
                assert forall|t: int| 0 <= t < i - start implies !sep(tail[t]) by {
                    assert(tail[t] == s@[start + t]);
                }
                lemma_split_by_cut(tail, sep, i - start);
                assert(tail.take(i - start) =~= s@.subrange(start as int, i as int));
                assert(tail.skip(i - start + 1) =~= s@.subrange(i + 1, n as int));
                assert(r@.push(seg).map_values(|x: String| x@) =~= r@.map_values(
                    |x: String| x@,
                ).push(seg@));
            }
            r.push(seg);
            start = i + 1;
        } else {
            proof {
                assert(s@[i as int] != '\n');
            }
        }
        i = i + 1;
    }
    let seg = s.substring_char(start, n).to_owned();
    proof {
        let tail = s@.subrange(start as int, n as int);
        assert forall|t: int| 0 <= t < tail.len() implies !sep(tail[t]) by {
            assert(tail[t] == s@[start + t]);
        }
        lemma_split_by_none(tail, sep);
        assert(r@.push(seg).map_values(|x: String| x@) =~= r@.map_values(|x: String| x@).push(
            seg@,
        ));
        assert(r@.push(seg).map_values(|x: String| x@) =~= split_by(s@, sep));
    }
    r.push(seg);
    r
}

/// Splits `s` at every whitespace character, as [`split_spaces_spec`]
/// describes.
pub fn split_spaces(s: &str) -> (r: Vec<String>)
    ensures
        r@.map_values(|x: String| x@) == split_spaces_spec(s@),
        r@.len() >= 1,
{
    let ghost sep = space_sep();
    let n = s.unicode_len();
    let mut r: Vec<String> = Vec::new();
    let mut start: usize = 0;
    let mut i: usize = 0;
    proof {
        assert(s@.subrange(0, n as int) =~= s@);
    }
    while i < n
        invariant
            0 <= start <= i <= n,
            n == s@.len(),
            sep == space_sep(),
            split_by(s@, sep) =~= r@.map_values(|x: String| x@) + split_by(
                s@.subrange(start as int, n as int),
                sep,
            ),
            forall|t: int| start <= t < i ==> !is_space_char(s@[t]),
        decreases n - i,
    {
        if is_space(s.get_char(i)) {
            let seg = s.substring_char(start, i).to_owned();
            proof {
                let tail = s@.subrange(start as int, n as int);
                assert(sep(tail[i - start]));
                assert forall|t: int| 0 <= t < i - start implies !sep(tail[t]) by {
                    assert(tail[t] == s@[start + t]);
                }
                lemma_split_by_cut(tail, sep, i - start);
                assert(tail.take(i - start) =~= s@.subrange(start as int, i as int));
                assert(tail.skip(i - start + 1) =~= s@.subrange(i + 1, n as int));
                assert(r@.push(seg).map_values(|x: String| x@) =~= r@.map_values(
                    |x: String| x@,
                ).push(seg@));
            }
            r.push(seg);
            start = i + 1;
        } else {
            proof {
                assert(!is_space_char(s@[i as int]));
            }
        }
        i = i + 1;
    }
    let seg = s.substring_char(start, n).to_owned();
    proof {
        let tail = s@.subrange(start as int, n as int);
        assert forall|t: int| 0 <= t < tail.len() implies !sep(tail[t]) by {
            assert(tail[t] == s@[start + t]);
        }
        lemma_split_by_none(tail, sep);
        assert(r@.push(seg).map_values(|x: String| x@) =~= r@.map_values(|x: String| x@).push(
            seg@,
        ));
        assert(r@.push(seg).map_values(|x: String| x@) =~= split_by(s@, sep));
    }
    r.push(seg);
    r
}

/// The parts joined with a single newline between consecutive parts.
pub open spec fn join_lines_spec(parts: Seq<Seq<char>>) -> Seq<char>
    decreases parts.len(),
{
    if parts.len() == 0 {
        Seq::<char>::empty()
    } else if parts.len() == 1 {
        parts[0]
    } else {
        parts[0] + seq!['\n'] + join_lines_spec(parts.drop_first())
    }
}

proof fn lemma_join_lines_step(parts: Seq<Seq<char>>, i: int)
    requires
        1 <= i < parts.len(),
    ensures
        join_lines_spec(parts.take(i + 1)) == join_lines_spec(parts.take(i)) + seq!['\n']
            + parts[i],
    decreases i,
{
    if i == 1 {
        let two = parts.take(2);
        assert(two.drop_first() =~= seq![parts[1]]);
        assert(join_lines_spec(seq![parts[1]]) == parts[1]);
        assert(parts.take(1) =~= seq![parts[0]]);
        assert(join_lines_spec(seq![parts[0]]) == parts[0]);
        assert(join_lines_spec(two) == parts[0] + seq!['\n'] + parts[1]);
    } else {
        lemma_join_lines_step(parts.drop_first(), i - 1);
        let a = parts.take(i + 1);
        let b = parts.take(i);
        assert(a.drop_first() =~= parts.drop_first().take(i));
        assert(b.drop_first() =~= parts.drop_first().take(i - 1));
        assert(join_lines_spec(a) == a[0] + seq!['\n'] + join_lines_spec(parts.drop_first().take(
            i,
        )));
        assert(join_lines_spec(b) == b[0] + seq!['\n'] + join_lines_spec(parts.drop_first().take(
            i - 1,
        )));
        assert(parts.drop_first()[i - 1] == parts[i]);
        assert(join_lines_spec(a) =~= join_lines_spec(b) + seq!['\n'] + parts[i]);
    }
}

/// Joins the strings with a newline between consecutive elements, as
/// [`join_lines_spec`] describes.
pub fn join_lines(parts: &Vec<String>) -> (r: String)
    ensures
        r@ == join_lines_spec(parts@.map_values(|x: String| x@)),
{
    let ghost view = parts@.map_values(|x: String| x@);
    let mut r = String::new();
    let mut i: usize = 0;
    while i < parts.len()
        invariant
            0 <= i <= parts.len(),
            view == parts@.map_values(|x: String| x@),
            r@ == join_lines_spec(view.take(i as int)),
        decreases parts.len() - i,
    {
        if i > 0 {
            r.append("\n");
            proof {
                reveal_strlit("\n");
                assert("\n"@ =~= seq!['\n']);
            }
        }
        r.append(parts[i].as_str());
        proof {
            if i == 0 {
                assert(view.take(1) =~= seq![view[0]]);
                assert(join_lines_spec(seq![view[0]]) == view[0]);
                assert(r@ =~= view[0]);
            } else {
                lemma_join_lines_step(view, i as int);
            }
        }
        i = i + 1;
    }
    proof {
        assert(view.take(parts@.len() as int) =~= view);
    }
    r
}


/// The payload's lines: the newline-separated segments, with a final empty
/// segment (from a trailing newline, or an empty payload) dropped.
pub open spec fn payload_lines(s: Seq<char>) -> Seq<Seq<char>> {
    let parts = split_lines_spec(s);
    if parts.len() > 0 && parts.last().len() == 0 {
        parts.drop_last()
    } else {
        parts
    }
}

/// Every part trimmed of leading and trailing whitespace.
pub open spec fn trim_each(parts: Seq<Seq<char>>) -> Seq<Seq<char>> {
    parts.map_values(|x: Seq<char>| trim_spec(x))
}


/// Whether the list holds a string equal to `needle`.
pub fn contains_str(list: &Vec<String>, needle: &str) -> (r: bool)
    ensures
        r == list@.map_values(|x: String| x@).contains(needle@),
{
    let ghost cv = list@.map_values(|x: String| x@);
    let mut i: usize = 0;
    while i < list.len()
        invariant
            i <= list@.len(),
            cv == list@.map_values(|x: String| x@),
            cv.len() == list@.len(),
            forall|t: int| 0 <= t < i ==> cv[t] != needle@,
        decreases list@.len() - i,
    {
        if str_eq(list[i].as_str(), needle) {
            proof {
                assert(cv[i as int] == needle@);
            }
            return true;
        }
        i = i + 1;
    }
    return false;
}

/// The lines of a response body, each trimmed: [`payload_lines`] mapped
/// through [`trim_spec`].
pub fn body_lines(resp: &str) -> (r: Vec<String>)
    ensures
        r@.map_values(|x: String| x@) == trim_each(payload_lines(resp@)),
{
    let mut raw = split_lines(resp);
    if raw[raw.len() - 1].as_str().is_empty() {
        let ghost mapped = raw@.map_values(|x: String| x@);
        proof {
            assert(mapped.drop_last() =~= raw@.drop_last().map_values(|x: String| x@));
        }
        raw.pop();
    }
    let ghost pl = payload_lines(resp@);
    proof {
        assert(raw@.map_values(|x: String| x@) =~= pl);
    }
    let mut out: Vec<String> = Vec::new();
    let mut k: usize = 0;
    while k < raw.len()
        invariant
            k <= raw@.len(),
            pl == raw@.map_values(|x: String| x@),
            pl.len() == raw@.len(),
            out@.len() == k,
            forall|t: int| #![trigger pl[t]] 0 <= t < k ==> out@.map_values(|x: String| x@)[t]
                == trim_spec(pl[t]),
        decreases raw@.len() - k,
    {
        out.push(trim_str(raw[k].as_str()).to_owned());
        k = k + 1;
    }
    proof {
        assert(out@.map_values(|x: String| x@) =~= trim_each(pl));
    }
    out
}

/// Splits a string into a pair at its first whitespace character: the part
/// before, and the part after. `None` where it has no whitespace.
pub fn split_once_space(s: &str) -> (r: Option<(String, String)>)
    ensures
        (match r {
            Some(p) => crate::response::first_space(s@) is Some && p.0@ == s@.take(
                crate::response::first_space(s@).unwrap(),
            ) && p.1@ == s@.skip(crate::response::first_space(s@).unwrap() + 1),
            None => crate::response::first_space(s@) is None,
        }),
{
    let n = s.unicode_len();
    let mut i: usize = 0;
    while i < n
        invariant
            0 <= i <= n,
            n == s@.len(),
            forall|t: int| 0 <= t < i ==> !is_space_char(s@[t]),
        decreases n - i,
    {
        if is_space(s.get_char(i)) {
            proof {
                crate::response::lemma_first_space_at(s@, i as int);
            }
            let before = s.substring_char(0, i).to_owned();
            let after = s.substring_char(i + 1, n).to_owned();
            return Some((before, after));
        }
        i = i + 1;
    }
    proof {
        crate::response::lemma_first_space_none(s@);
    }
    None
}

} // verus!
