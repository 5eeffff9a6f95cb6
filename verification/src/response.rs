//! The classified reply to a command: a success or an error, each with a
//! header (the echoed command and its arguments) and a body, or nothing at
//! all (a session sentinel or an unrecognized payload).

use crate::text::{is_space, is_space_char};
use vstd::prelude::*;
use vstd::string::*;

verus! {

/// A classified payload. `Nothing` is not a response to any command and is
/// never handed to a consumer as one.
#[derive(Debug, PartialEq, Eq, Clone)]
pub enum Response {
    /// The command succeeded: the echoed header, then the result body.
    Success(String, String),
    /// The command failed: the echoed header, then the error body.
    Error(String, String),
    /// Not a response: a session sentinel or an unrecognized payload.
    Nothing,
}

/// The ghost mirror of [`Response`].
pub enum RespView {
    Success(Seq<char>, Seq<char>),
    Error(Seq<char>, Seq<char>),
    Nothing,
}

impl View for Response {
    type V = RespView;

    open spec fn view(&self) -> RespView {
        match self {
            Response::Success(c, r) => RespView::Success(c@, r@),
            Response::Error(c, r) => RespView::Error(c@, r@),
            Response::Nothing => RespView::Nothing,
        }
    }
}

/// The index of the first whitespace character, if any.
pub open spec fn first_space(s: Seq<char>) -> Option<int>
    decreases s.len(),
{
    if s.len() == 0 {
        None
    } else if is_space_char(s[0]) {
        Some(0int)
    } else {
        match first_space(s.drop_first()) {
            Some(i) => Some(i + 1),
            None => None,
        }
    }
}

pub proof fn lemma_first_space_at(s: Seq<char>, k: int)
    requires
        0 <= k < s.len(),
        is_space_char(s[k]),
        forall|t: int| 0 <= t < k ==> !is_space_char(s[t]),
    ensures
        first_space(s) == Some(k),
    decreases s.len(),
{
    if k > 0 {
        lemma_first_space_at(s.drop_first(), k - 1);
    }
}

pub proof fn lemma_first_space_none(s: Seq<char>)
    requires
        forall|t: int| 0 <= t < s.len() ==> !is_space_char(s[t]),
    ensures
        first_space(s) is None,
    decreases s.len(),
{
    if s.len() > 0 {
        lemma_first_space_none(s.drop_first());
    }
}

/// The header's first whitespace-delimited token.
pub open spec fn spec_identifier(h: Seq<char>) -> Seq<char> {
    match first_space(h) {
        Some(i) => h.take(i),
        None => h,
    }
}

/// Everything in the header after its first whitespace character; empty
/// where the header is a single token.
pub open spec fn spec_args(h: Seq<char>) -> Seq<char> {
    match first_space(h) {
        Some(i) => h.skip(i + 1),
        None => Seq::<char>::empty(),
    }
}

/// The header of a response; empty for `Nothing`.
pub open spec fn spec_header(r: RespView) -> Seq<char> {
    match r {
        RespView::Success(c, _) => c,
        RespView::Error(c, _) => c,
        RespView::Nothing => Seq::<char>::empty(),
    }
}

/// The body of a response; empty for `Nothing`.
pub open spec fn spec_body(r: RespView) -> Seq<char> {
    match r {
        RespView::Success(_, b) => b,
        RespView::Error(_, b) => b,
        RespView::Nothing => Seq::<char>::empty(),
    }
}

/// Scans for the first whitespace character of `s`.
fn find_first_space(s: &str) -> (r: Option<usize>)
    ensures
        (match r {
            Some(i) => i < s@.len() && first_space(s@) == Some(i as int),
            None => first_space(s@) is None,
        }),
{
    let n = s.unicode_len();
    let mut i: usize = 0;
    while i < n
        invariant
            0 <= i <= n,
            n == s@.len(),
            forall|t: int| 0 <= t < i ==> !is_space_char(s@[t]),
        decreases n - i,
    {
        if is_space(s.get_char(i)) {
            proof {
                lemma_first_space_at(s@, i as int);
            }
            return Some(i);
        }
        i = i + 1;
    }
    proof {
        lemma_first_space_none(s@);
    }
    None
}

impl Response {
    /// The echoed header, or the empty string for `Nothing`.
    fn header(&self) -> (r: &str)
        ensures
            r@ == spec_header(self@),
    {
        proof {
            reveal_strlit("");
        }
        match self {
            Response::Success(c, _) => c.as_str(),
            Response::Error(c, _) => c.as_str(),
            Response::Nothing => "",
        }
    }

    /// The first token of the header: the command's own name.
    pub fn identifier(&self) -> (r: &str)
        ensures
            r@ == spec_identifier(spec_header(self@)),
    {
        let h = self.header();
        match find_first_space(h) {
            Some(i) => h.substring_char(0, i),
            None => h,
        }
    }

    /// The header after the command name: the echoed arguments.
    pub fn args(&self) -> (r: &str)
        ensures
            r@ == spec_args(spec_header(self@)),
    {
        let h = self.header();
        let n = h.unicode_len();
        match find_first_space(h) {
            Some(i) => h.substring_char(i + 1, n),
            None => {
                proof {
                    reveal_strlit("");
                }
                ""
            },
        }
    }

    /// The body, or the empty string for `Nothing`.
    pub fn result(&self) -> (r: &str)
        ensures
            r@ == spec_body(self@),
    {
        proof {
            reveal_strlit("");
        }
        match self {
            Response::Success(_, b) => b.as_str(),
            Response::Error(_, b) => b.as_str(),
            Response::Nothing => "",
        }
    }

    /// The whole classification at once: whether this is an error, the
    /// command name, the echoed arguments, and the body.
    pub fn decompose(&self) -> (r: (bool, &str, &str, &str))
        ensures
            r.0 == (self@ is Error),
            r.1@ == spec_identifier(spec_header(self@)),
            r.2@ == spec_args(spec_header(self@)),
            r.3@ == spec_body(self@),
    {
        let err = match self {
            Response::Error(_, _) => true,
            _ => false,
        };
        (err, self.identifier(), self.args(), self.result())
    }
}

} // verus!
