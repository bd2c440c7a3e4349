//! The yes/no confirmation protocol.
//!
//! A question is shown as `"<question> (y/n) "` and one line is read in
//! reply.  After surrounding whitespace is stripped, exactly `"y"` or
//! `"yes"` counts as assent and exactly `"n"` or `"no"` as refusal; any
//! other line is unrecognized and the question is asked again.

use vstd::prelude::*;
use vstd::string::StrSliceExecFns;
use vstd::string::StringExecFns;

verus! {

/// Interpretation of one line typed in reply to a yes/no question.
#[derive(Clone, Copy, Debug, PartialEq, Eq, Structural)]
pub enum Answer {
    /// The line, once trimmed, was exactly `"y"` or `"yes"`.
    Yes,
    /// The line, once trimmed, was exactly `"n"` or `"no"`.
    No,
    /// Any other line; the question must be asked again.
    Unrecognized,
}

/// The whitespace stripped from both ends of an answer line before matching.
pub open spec fn is_answer_space(c: char) -> bool {
    c == ' ' || c == '\t' || c == '\n' || c == '\r'
}

/// `s` with its leading whitespace removed.
pub open spec fn trim_front(s: Seq<char>) -> Seq<char>
    decreases s.len(),
{
    if s.len() > 0 && is_answer_space(s[0]) {
        trim_front(s.drop_first())
    } else {
        s
    }
}

/// `s` with its trailing whitespace removed.
pub open spec fn trim_back(s: Seq<char>) -> Seq<char>
    decreases s.len(),
{
    if s.len() > 0 && is_answer_space(s.last()) {
        trim_back(s.drop_last())
    } else {
        s
    }
}

/// `s` with whitespace removed from both ends.
pub open spec fn spec_trim(s: Seq<char>) -> Seq<char> {
    trim_back(trim_front(s))
}

/// How an answer line is read: trimmed, then matched exactly
/// (case-sensitively) against the four recognized tokens.
pub open spec fn spec_answer(line: Seq<char>) -> Answer {
    let t = spec_trim(line);
    if t == "y"@ || t == "yes"@ {
        Answer::Yes
    } else if t == "n"@ || t == "no"@ {
        Answer::No
    } else {
        Answer::Unrecognized
    }
}

fn is_space_char(c: char) -> (b: bool)
    ensures
        b == is_answer_space(c),
{
    c == ' ' || c == '\t' || c == '\n' || c == '\r'
}

proof fn lemma_trim_front_at(s: Seq<char>, k: int)
    requires
        0 <= k <= s.len(),
        forall|i: int| 0 <= i < k ==> is_answer_space(s[i]),
        k < s.len() ==> !is_answer_space(s[k]),
    ensures
        trim_front(s) == s.subrange(k, s.len() as int),
    decreases k,
{
    if k == 0 {
        assert(s.subrange(0, s.len() as int) =~= s);
    } else {
        let rest = s.drop_first();
        assert(forall|i: int| 0 <= i < k - 1 ==> is_answer_space(rest[i]));
        lemma_trim_front_at(rest, k - 1);
        assert(rest.subrange(k - 1, rest.len() as int) =~= s.subrange(k, s.len() as int));
    }
}

proof fn lemma_trim_back_at(s: Seq<char>, k: int)
    requires
        0 <= k <= s.len(),
        forall|i: int| k <= i < s.len() ==> is_answer_space(s[i]),
        k > 0 ==> !is_answer_space(s[k - 1]),
    ensures
        trim_back(s) == s.subrange(0, k),
    decreases s.len(),
{
    if k == s.len() {
        assert(s.subrange(0, k) =~= s);
    } else {
        let rest = s.drop_last();
        assert(is_answer_space(s.last()));
        assert(forall|i: int| k <= i < rest.len() ==> is_answer_space(rest[i]));
        lemma_trim_back_at(rest, k);
        assert(rest.subrange(0, k) =~= s.subrange(0, k));
    }
}

/// Classify one answer line: trim it, then match it against the four
/// recognized tokens.
pub fn classify_answer(line: &str) -> (a: Answer)
    ensures
        a == spec_answer(line@),
{
    let n = line.unicode_len();
    let mut lo: usize = 0;
    while lo < n && is_space_char(line.get_char(lo))
        invariant
            n == line@.len(),
            lo <= n,
            forall|i: int| 0 <= i < lo ==> is_answer_space(line@[i]),
        decreases n - lo,
    {
        lo = lo + 1;
    }
    let mut hi: usize = n;
    while hi > lo && is_space_char(line.get_char(hi - 1))
        invariant
            n == line@.len(),
            lo <= hi <= n,
            forall|i: int| 0 <= i < lo ==> is_answer_space(line@[i]),
            lo < n ==> !is_answer_space(line@[lo as int]),
            forall|i: int| hi <= i < n ==> is_answer_space(line@[i]),
        decreases hi,
    {
        hi = hi - 1;
    }
    proof {
        lemma_trim_front_at(line@, lo as int);
        lemma_trim_back_at(line@.subrange(lo as int, n as int), hi - lo);
        assert(line@.subrange(lo as int, n as int).subrange(0, hi - lo) =~= line@.subrange(
            lo as int,
            hi as int,
        ));
        reveal_strlit("y");
        reveal_strlit("yes");
        reveal_strlit("n");
        reveal_strlit("no");
    }
    let ghost t = line@.subrange(lo as int, hi as int);
    assert(t == spec_trim(line@));
    proof {
        assert("y"@.len() == 1 && "y"@[0] == 'y');
        assert("n"@.len() == 1 && "n"@[0] == 'n');
        assert("no"@.len() == 2 && "no"@[0] == 'n' && "no"@[1] == 'o');
        assert("yes"@.len() == 3 && "yes"@[0] == 'y' && "yes"@[1] == 'e' && "yes"@[2] == 's');
        assert(t.len() == hi - lo);
    }
    if hi - lo == 1 {
        let c0 = line.get_char(lo);
        proof {
            assert(t[0] == line@[lo as int]);
        }
        if c0 == 'y' {
            assert(t =~= "y"@);
            Answer::Yes
        } else if c0 == 'n' {
            assert(t =~= "n"@);
            Answer::No
        } else {
            Answer::Unrecognized
        }
    } else if hi - lo == 2 {
        let c0 = line.get_char(lo);
        let c1 = line.get_char(lo + 1);
        proof {
            assert(t[0] == line@[lo as int] && t[1] == line@[lo + 1]);
        }
        if c0 == 'n' && c1 == 'o' {
            assert(t =~= "no"@);
            Answer::No
        } else {
            Answer::Unrecognized
        }
    } else if hi - lo == 3 {
        let c0 = line.get_char(lo);
        let c1 = line.get_char(lo + 1);
        let c2 = line.get_char(lo + 2);
        proof {
            assert(t[0] == line@[lo as int] && t[1] == line@[lo + 1] && t[2] == line@[lo + 2]);
        }
        if c0 == 'y' && c1 == 'e' && c2 == 's' {
            assert(t =~= "yes"@);
            Answer::Yes
        } else {
            Answer::Unrecognized
        }
    } else {
        Answer::Unrecognized
    }
}

/// The question asked before a missing parent chain is created.
pub fn creation_question() -> (q: String)
    ensures
        q@ == "The path to the target directory does not exist. Create it?"@,
{
    "The path to the target directory does not exist. Create it?".to_owned()
}

/// The exact text displayed for a yes/no question: the question followed
/// by `" (y/n) "`, with no trailing newline.
pub fn render_prompt(question: &str) -> (p: String)
    ensures
        p@ == question@ + " (y/n) "@,
{
    let mut p = question.to_owned();
    p.append(" (y/n) ");
    p
}

} // verus!
