//! The consent prompt's decision logic.
//!
//! The interactive prompt writes a question and reads one line of standard
//! input at a time. The decision on one line is a pure function: an empty
//! line (default-yes) or a case-insensitive `y` is affirmative, a
//! case-insensitive `n` is negative, and anything else asks again. End of
//! input before a recognized answer is handled by the resolver, which treats
//! it as fatal.

use vstd::prelude::*;
use vstd::string::StrSliceExecFns;

verus! {

/// What one line of input answers: consent, refusal, or ask again.
#[derive(Clone, Copy, Debug, PartialEq, Eq, Structural)]
pub enum Answer {
    Yes,
    No,
    Retry,
}

/// A line with its trailing newline, if any, taken off.
pub open spec fn stripped(line: Seq<char>) -> Seq<char> {
    if line.len() > 0 && line.last() == '\n' {
        line.drop_last()
    } else {
        line
    }
}

/// The answer one line of input gives: empty or `y`/`Y` is yes, `n`/`N` is
/// no, anything else asks again.
pub open spec fn answer_of(line: Seq<char>) -> Answer {
    let s = stripped(line);
    if s.len() == 0 || s == seq!['y'] || s == seq!['Y'] {
        Answer::Yes
    } else if s == seq!['n'] || s == seq!['N'] {
        Answer::No
    } else {
        Answer::Retry
    }
}

/// Parses one line of input read at the consent prompt.
pub fn parse_answer(line: &str) -> (a: Answer)
    ensures
        a == answer_of(line@),
{
    let n = line.unicode_len();
    let m: usize = if n > 0 && line.get_char(n - 1) == '\n' {
        n - 1
    } else {
        n
    };
    proof {
        assert(stripped(line@) =~= line@.take(m as int));
    }
    if m == 0 {
        proof {
            assert(line@.take(m as int) =~= Seq::<char>::empty());
        }
        return Answer::Yes;
    }
    if m == 1 {
        let c = line.get_char(0);
        proof {
            assert(line@.take(1)[0] == line@[0]);
            assert(forall|x: char| line@.take(1) =~= seq![x] <==> line@[0] == x);
        }
        if c == 'y' || c == 'Y' {
            return Answer::Yes;
        }
        if c == 'n' || c == 'N' {
            return Answer::No;
        }
        proof {
            assert(line@.take(1) != seq!['y'] && line@.take(1) != seq!['Y'] && line@.take(1)
                != seq!['n'] && line@.take(1) != seq!['N']) by {
                assert(seq!['y'][0] == 'y' && seq!['Y'][0] == 'Y' && seq!['n'][0] == 'n'
                    && seq!['N'][0] == 'N');
            }
        }
        return Answer::Retry;
    }
    proof {
        assert(line@.take(m as int).len() == m);
        assert(seq!['y'].len() == 1 && seq!['Y'].len() == 1 && seq!['n'].len() == 1
            && seq!['N'].len() == 1);
    }
    Answer::Retry
}

} // verus!
