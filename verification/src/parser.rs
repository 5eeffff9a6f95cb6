//! The response parser: classifies one decoded payload as a success, an
//! error, or no response at all.
//!
//! The first line of a payload must split on the two-character separator
//! `::` into exactly two non-empty parts, the echoed header and a status
//! token; everything after the first line, each line trimmed, is the body.

use crate::response::{RespView, Response};
use crate::text::{
    join_lines, join_lines_spec, payload_lines, split_lines, trim_each, trim_spec, trim_str,
};
use vstd::prelude::*;
use vstd::string::*;

verus! {

/// The index of the first `::` occurrence, scanning from the left.
pub open spec fn find_sep(s: Seq<char>) -> Option<int>
    decreases s.len(),
{
    if s.len() < 2 {
        None
    } else if s[0] == ':' && s[1] == ':' {
        Some(0int)
    } else {
        match find_sep(s.drop_first()) {
            Some(i) => Some(i + 1),
            None => None,
        }
    }
}

pub proof fn lemma_find_sep_at(s: Seq<char>, k: int)
    requires
        0 <= k,
        k + 1 < s.len(),
        s[k] == ':' && s[k + 1] == ':',
        forall|t: int| #![trigger s[t]] 0 <= t < k ==> !(s[t] == ':' && s[t + 1] == ':'),
    ensures
        find_sep(s) == Some(k),
    decreases s.len(),
{
    if k > 0 {
        assert(!(s[0] == ':' && s[1] == ':'));
        assert forall|t: int| #![trigger s.drop_first()[t]] 0 <= t < k - 1 implies !(
            s.drop_first()[t] == ':' && s.drop_first()[t + 1] == ':') by {
            assert(s[t + 1] == s.drop_first()[t]);
            assert(s[t + 2] == s.drop_first()[t + 1]);
        }
        assert(s.drop_first()[k - 1] == s[k]);
        assert(s.drop_first()[k] == s[k + 1]);
        lemma_find_sep_at(s.drop_first(), k - 1);
        assert(find_sep(s.drop_first()) == Some(k - 1));
        reveal_with_fuel(find_sep, 2);
        assert(find_sep(s) == Some(k));
    } else {
        assert(s[0] == ':' && s[1] == ':');
        assert(find_sep(s) == Some(0int));
    }
}

pub proof fn lemma_find_sep_none(s: Seq<char>)
    requires
        forall|t: int| #![trigger s[t]] 0 <= t < s.len() - 1 ==> !(s[t] == ':' && s[t + 1] == ':'),
    ensures
        find_sep(s) is None,
    decreases s.len(),
{
    if s.len() >= 2 {
        assert forall|t: int| #![trigger s.drop_first()[t]] 0 <= t
            < s.drop_first().len() - 1 implies !(s.drop_first()[t] == ':' && s.drop_first()[t + 1]
            == ':') by {
            assert(s[t + 1] == s.drop_first()[t]);
            assert(s[t + 2] == s.drop_first()[t + 1]);
        }
        lemma_find_sep_none(s.drop_first());
    }
}

/// What classifying a payload yields. The first line must hold exactly one
/// `::` separator, splitting it into a non-empty header and a non-empty
/// status; `<OK>` and `<ERROR>` name the two real responses, and every
/// other shape is `Nothing`. The body is the remaining lines, trimmed and
/// rejoined with newlines.
pub open spec fn spec_analyze(s: Seq<char>) -> RespView {
    let ls = payload_lines(s);
    if ls.len() == 0 {
        RespView::Nothing
    } else {
        let first = trim_spec(ls[0]);
        let body = join_lines_spec(trim_each(ls.drop_first()));
        match find_sep(first) {
            None => RespView::Nothing,
            Some(i) => {
                let header = trim_spec(first.take(i));
                let status = trim_spec(first.skip(i + 2));
                if find_sep(first.skip(i + 2)) is Some {
                    RespView::Nothing
                } else if header.len() == 0 || status.len() == 0 {
                    RespView::Nothing
                } else if status == "<OK>"@ {
                    RespView::Success(header, body)
                } else if status == "<ERROR>"@ {
                    RespView::Error(header, body)
                } else {
                    RespView::Nothing
                }
            },
        }
    }
}

/// Scans `s` for the first `::` occurrence.
fn find_sep_str(s: &str) -> (r: Option<usize>)
    ensures
        (match r {
            Some(i) => i + 1 < s@.len() && find_sep(s@) == Some(i as int),
            None => find_sep(s@) is None,
        }),
{
    let n = s.unicode_len();
    if n < 2 {
        proof {
            lemma_find_sep_none(s@);
        }
        return None;
    }
    let mut i: usize = 0;
    while i < n - 1
        invariant
            0 <= i <= n,
            n == s@.len(),
            n >= 2,
            forall|t: int| #![trigger s@[t]] 0 <= t < i ==> !(s@[t] == ':' && s@[t + 1] == ':'),
        decreases n - i,
    {
        if s.get_char(i) == ':' && s.get_char(i + 1) == ':' {
            proof {
                lemma_find_sep_at(s@, i as int);
            }
            return Some(i);
        }
        i = i + 1;
    }
    proof {
        lemma_find_sep_none(s@);
    }
    None
}

/// Classifies one payload, as [`spec_analyze`] describes.
pub fn analyze(payload: &str) -> (r: Response)
    ensures
        r@ == spec_analyze(payload@),
{
    let mut parts = split_lines(payload);
    if parts[parts.len() - 1].as_str().is_empty() {
        let ghost mapped = parts@.map_values(|x: String| x@);
        proof {
            assert(mapped.drop_last() =~= parts@.drop_last().map_values(|x: String| x@));
        }
        parts.pop();
    }
    let ghost ls = payload_lines(payload@);
    proof {
        assert(parts@.map_values(|x: String| x@) =~= ls);
    }
    if parts.len() == 0 {
        return Response::Nothing;
    }
    // Trim the lines after the first and rejoin them as the body.
    let mut rest: Vec<String> = Vec::new();
    let mut k: usize = 1;
    while k < parts.len()
        invariant
            1 <= k <= parts@.len(),
            ls == parts@.map_values(|x: String| x@),
            ls.len() == parts@.len(),
            rest@.len() == k - 1,
            forall|t: int| #![trigger ls[t + 1]] 0 <= t < k - 1 ==> rest@.map_values(
                |x: String| x@,
            )[t] == trim_spec(ls[t + 1]),
        decreases parts@.len() - k,
    {
        rest.push(trim_str(parts[k].as_str()).to_owned());
        k = k + 1;
    }
    proof {
        assert(rest@.map_values(|x: String| x@) =~= trim_each(ls.drop_first()));
    }
    let body = join_lines(&rest);
    let first = trim_str(parts[0].as_str());
    let n = first.unicode_len();
    let ghost fv = trim_spec(ls[0]);
    match find_sep_str(first) {
        None => Response::Nothing,
        Some(i) => {
            let after = first.substring_char(i + 2, n);
            proof {
                assert(after@ =~= fv.skip(i + 2));
            }
            if find_sep_str(after).is_some() {
                return Response::Nothing;
            }
            let head = first.substring_char(0, i);
            proof {
                assert(head@ =~= fv.take(i as int));
            }
            let header = trim_str(head);
            let status = trim_str(after);
            if header.unicode_len() == 0 || status.unicode_len() == 0 {
                return Response::Nothing;
            }
            if crate::text::str_eq(status, "<OK>") {
                Response::Success(header.to_owned(), body)
            } else if crate::text::str_eq(status, "<ERROR>") {
                Response::Error(header.to_owned(), body)
            } else {
                Response::Nothing
            }
        },
    }
}

} // verus!
