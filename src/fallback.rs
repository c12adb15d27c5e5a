//! The decisions of a clone that falls back from one candidate ref to the
//! next: which ref to try now, and the error once every candidate failed.
//! The caller performs each attempt and reports its outcome.
use vstd::prelude::*;
use vstd::string::*;

use crate::error::ApsError;
use crate::refs::{auto_ref, candidates, primary_branch, ref_candidates, secondary_branch};

verus! {

/// Views a vector of strings as a sequence of character sequences.
pub open spec fn texts(v: Seq<String>) -> Seq<Seq<char>> {
    v.map_values(|s: String| s@)
}

/// `"name"`: a ref name in double quotes.
pub open spec fn quoted(name: Seq<char>) -> Seq<char> {
    "\""@ + name + "\""@
}

/// A name that `Debug` formatting writes unchanged between its quotes:
/// printable ASCII other than `"` and `\`.
pub open spec fn plain_name(name: Seq<char>) -> bool {
    forall|i: int|
        0 <= i < name.len() ==> (' ' <= #[trigger] name[i] && name[i] <= '~' && name[i] != '"'
            && name[i] != '\\')
}

/// A string as `Debug` formatting writes it: quoted, with escapes.
pub uninterp spec fn debug_str(s: Seq<char>) -> Seq<char>;

/// A ref name as `Debug` writes it: a plain name just gets its quotes.
pub open spec fn debug_quoted(name: Seq<char>) -> Seq<char> {
    if plain_name(name) {
        quoted(name)
    } else {
        debug_str(name)
    }
}

/// Relies on `str`'s `Debug`: the string in double quotes, with quotes,
/// backslashes and other special characters escaped; printable ASCII
/// characters other than `"` and `\` are written as they are.
#[verifier::external_body]
fn debug_text(s: &str) -> (r: String)
    ensures
        r@ == debug_str(s@),
        r@ == debug_quoted(s@),
{
    format!("{:?}", s)
}

/// The names as `Debug` writes them, separated by `, `.
pub open spec fn quoted_names(names: Seq<Seq<char>>) -> Seq<char>
    decreases names.len(),
{
    if names.len() == 0 {
        Seq::empty()
    } else if names.len() == 1 {
        debug_quoted(names[0])
    } else {
        quoted_names(names.drop_last()) + ", "@ + debug_quoted(names.last())
    }
}

/// The message of the error that ends a clone in which every candidate failed:
/// the list of candidates, then the description of the last failure, if any.
pub open spec fn exhausted_message(names: Seq<Seq<char>>, last: Option<Seq<char>>) -> Seq<char> {
    "Failed to clone with refs ["@ + quoted_names(names) + "]"@ + match last {
        Some(d) => ": "@ + d,
        None => Seq::empty(),
    }
}

/// What the caller does next.
pub enum FallbackStep {
    /// Clone the branch of this name into the (purged) target directory.
    Attempt(String),
    /// Every candidate failed: report this error.
    GiveUp(ApsError),
}

/// The state of a clone with ref fallback.
pub struct CloneFallback {
    /// The ref that was asked for.
    pub requested: String,
    /// The candidate refs, in the order they are tried.
    pub refs: Vec<String>,
    /// How many candidates have failed so far.
    pub tried: usize,
    /// The description of the most recent failure.
    pub last_error: Option<String>,
}

impl CloneFallback {
    pub open spec fn wf(&self) -> bool {
        &&& self.tried <= self.refs@.len()
        &&& self.names() == candidates(self.requested@)
    }

    /// The candidate names as character sequences.
    pub open spec fn names(&self) -> Seq<Seq<char>> {
        texts(self.refs@)
    }

    pub open spec fn last_text(&self) -> Option<Seq<char>> {
        match self.last_error {
            Some(e) => Some(e@),
            None => None,
        }
    }

    /// Starts a clone of `git_ref`: its candidates, none tried yet.
    pub fn new(git_ref: &str) -> (r: CloneFallback)
        ensures
            r.wf(),
            r.requested@ == git_ref@,
            r.names() == candidates(git_ref@),
            r.tried == 0,
            r.last_error is None,
    {
        CloneFallback {
            requested: String::from_str(git_ref),
            refs: ref_candidates(git_ref),
            tried: 0,
            last_error: None,
        }
    }

    /// The next step: the first untried candidate, or, when none is left,
    /// the error that lists every candidate and the last failure.
    pub fn next_step(&self) -> (r: FallbackStep)
        requires
            self.wf(),
        ensures
            self.tried < self.refs@.len() ==> (r matches FallbackStep::Attempt(n) && n@
                == self.names()[self.tried as int]),
            self.tried == self.refs@.len() ==> (r matches FallbackStep::GiveUp(e) && e is GitError
                && e.message_spec() == exhausted_message(self.names(), self.last_text())),
    {
        if self.tried < self.refs.len() {
            FallbackStep::Attempt(self.refs[self.tried].clone())
        } else {
            FallbackStep::GiveUp(ApsError::GitError { message: exhausted_text(&self.refs, &self.last_error) })
        }
    }

    /// Records that the current candidate failed, with the failure's description.
    pub fn record_failure(&mut self, detail: String)
        requires
            old(self).wf(),
            old(self).tried < old(self).refs@.len(),
        ensures
            final(self).wf(),
            final(self).requested == old(self).requested,
            final(self).refs@ == old(self).refs@,
            final(self).tried == old(self).tried + 1,
            final(self).last_error == Some(detail),
    {
        let n = self.refs.len();
        assert(self.tried < n);
        self.tried = self.tried + 1;
        self.last_error = Some(detail);
    }

    /// The ref that the current attempt cloned, once that attempt succeeded:
    /// the first candidate that has not failed.
    pub fn succeeded(&self) -> (r: String)
        requires
            self.wf(),
            self.tried < self.refs@.len(),
        ensures
            r@ == self.names()[self.tried as int],
            candidates(self.requested@).contains(r@),
    {
        let r = self.refs[self.tried].clone();
        assert(self.names()[self.tried as int] == r@);
        r
    }
}

fn exhausted_text(refs: &Vec<String>, last: &Option<String>) -> (r: String)
    ensures
        r@ == exhausted_message(texts(refs@), match last {
            Some(e) => Some(e@),
            None => None,
        }),
{
    let mut names = String::new();
    let mut i: usize = 0;
    while i < refs.len()
        invariant
            i <= refs@.len(),
            names@ == quoted_names(texts(refs@.subrange(0, i as int))),
        decreases refs@.len() - i,
    {
        proof {
            let before = texts(refs@.subrange(0, i as int));
            let after = texts(refs@.subrange(0, i + 1));
            assert(after.drop_last() =~= before);
            assert(after.last() == refs@[i as int]@);
        }
        if i > 0 {
            names.append(", ");
        }
        let shown = debug_text(refs[i].as_str());
        names.append(shown.as_str());
        i = i + 1;
    }
    assert(refs@.subrange(0, refs@.len() as int) =~= refs@);
    let mut message = String::from_str("Failed to clone with refs [");
    message.append(names.as_str());
    message.append("]");
    match last {
        Some(e) => {
            message.append(": ");
            message.append(e.as_str());
        },
        None => {},
    }
    message
}

/// With the automatic ref, a fallback never holds more than the two
/// candidates: once both have failed, every candidate has been tried, so
/// the next step gives up instead of trying a third.
pub proof fn lemma_auto_no_third_candidate(f: CloneFallback)
    requires
        f.wf(),
        f.requested@ == auto_ref(),
    ensures
        f.refs@.len() == 2,
        f.tried <= 2,
        f.tried == 2 ==> f.tried == f.refs@.len(),
{
    assert(f.names().len() == f.refs@.len());
}

/// With the automatic ref, once the primary candidate has failed the
/// candidate tried next is the secondary branch; if it succeeds, that is
/// the ref that the resolution reports.
pub proof fn lemma_auto_second_attempt(f: CloneFallback)
    requires
        f.wf(),
        f.requested@ == auto_ref(),
        f.tried == 1,
    ensures
        f.tried < f.refs@.len(),
        f.names()[f.tried as int] == secondary_branch(),
{
    assert(f.names().len() == f.refs@.len());
}

/// With the automatic ref, once both candidates have failed the error's
/// message names both, in order, and ends with the last failure's description.
pub proof fn lemma_auto_exhausted_message(f: CloneFallback, detail: Seq<char>)
    requires
        f.wf(),
        f.requested@ == auto_ref(),
        f.tried == 2,
        f.last_text() == Some(detail),
    ensures
        exhausted_message(f.names(), f.last_text()) == "Failed to clone with refs [\""@
            + primary_branch() + "\", \""@ + secondary_branch() + "\"]: "@ + detail,
{
    let names = f.names();
    reveal_strlit("\"");
    reveal_strlit(", ");
    reveal_strlit("\", \"");
    reveal_strlit("\"]: ");
    reveal_strlit("]");
    reveal_strlit(": ");
    reveal_strlit("Failed to clone with refs [");
    reveal_strlit("Failed to clone with refs [\"");
    assert(names.drop_last() =~= seq![primary_branch()]);
    reveal_strlit("main");
    reveal_strlit("master");
    assert(plain_name(primary_branch()));
    assert(plain_name(secondary_branch()));
    assert(quoted_names(names.drop_last()) == quoted(primary_branch()));
    assert(exhausted_message(names, f.last_text()) =~= "Failed to clone with refs [\""@
        + primary_branch() + "\", \""@ + secondary_branch() + "\"]: "@ + detail);
}

} // verus!
