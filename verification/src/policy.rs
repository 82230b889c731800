//! The three pure decisions of the sweeper: whether a filename is a
//! deletion candidate, whether a directory may be descended into, and what
//! a line of console input answers to a confirmation prompt.

use vstd::prelude::*;
use vstd::string::StrSliceExecFns;

use crate::options::CleanOptions;

verus! {

/// The backup marker: a filename marks its file for deletion exactly when
/// its last character is `~`.
pub open spec fn is_candidate_name(name: Seq<char>) -> bool {
    name.len() > 0 && name.last() == '~'
}

/// Decides whether `name` names a backup file, that is, whether the
/// sweeper should try to delete a file so named. The decision looks at the
/// filename alone: where the file sits in the tree plays no part.
pub fn is_candidate(name: &str) -> (r: bool)
    ensures
        r == is_candidate_name(name@),
{
    let n = name.unicode_len();
    if n == 0 {
        false
    } else {
        name.get_char(n - 1) == '~'
    }
}

/// Whether the sweeper may descend into a directory whose path reads
/// `path`, met at recursion depth `depth`: the run must be recursive (or
/// the directory must be the literal current-directory root `.`), and the
/// depth limit, when there is one, must not yet be passed.
pub open spec fn spec_should_descend(options: CleanOptions, path: Seq<char>, depth: u32) -> bool {
    (options.recursive || path == seq!['.']) && (options.max_depth == 0 || depth <= options.max_depth)
}

/// Decides descent into the directory at `path`, met at depth `depth`.
pub fn should_descend(options: &CleanOptions, path: &str, depth: u32) -> (r: bool)
    ensures
        r == spec_should_descend(*options, path@, depth),
{
    (options.recursive || is_dot(path)) && (options.max_depth == 0 || depth <= options.max_depth)
}

/// Decides whether `path` is the literal current-directory token.
fn is_dot(path: &str) -> (r: bool)
    ensures
        r == (path@ == seq!['.']),
{
    let n = path.unicode_len();
    if n == 1 {
        let c = path.get_char(0);
        if c == '.' {
            proof {
                assert(path@ =~= seq!['.']);
            }
            true
        } else {
            proof {
                assert(path@ != seq!['.']) by {
                    assert(seq!['.'][0] == '.');
                }
            }
            false
        }
    } else {
        proof {
            assert(path@ != seq!['.']) by {
                assert(seq!['.'].len() == 1);
            }
        }
        false
    }
}

/// A console line with its trailing line-break characters removed.
pub open spec fn normalized(s: Seq<char>) -> Seq<char>
    decreases s.len(),
{
    if s.len() > 0 && (s.last() == '\n' || s.last() == '\r') {
        normalized(s.drop_last())
    } else {
        s
    }
}

/// An affirmative answer: exactly `y` or `yes`, case-sensitive.
pub open spec fn is_yes_word(s: Seq<char>) -> bool {
    s == seq!['y'] || s == seq!['y', 'e', 's']
}

/// A negative answer: exactly `n` or `no`, case-sensitive.
pub open spec fn is_no_word(s: Seq<char>) -> bool {
    s == seq!['n'] || s == seq!['n', 'o']
}

/// What a line of console input answers to a confirmation prompt:
/// `Some(true)` to approve, `Some(false)` to decline, `None` when the line
/// is not one of the four accepted tokens and the prompt must be repeated.
pub open spec fn answer_of(s: Seq<char>) -> Option<bool> {
    if is_yes_word(normalized(s)) {
        Some(true)
    } else if is_no_word(normalized(s)) {
        Some(false)
    } else {
        None
    }
}

/// Parses one line of console input as a confirmation answer.
pub fn parse_answer(line: &str) -> (r: Option<bool>)
    ensures
        r == answer_of(line@),
{
    let total = line.unicode_len();
    let mut end = total;
    proof {
        assert(line@.subrange(0, line@.len() as int) =~= line@);
    }
    loop
        invariant_except_break
            end <= line@.len(),
            normalized(line@) == normalized(line@.subrange(0, end as int)),
        ensures
            end <= line@.len(),
            normalized(line@) == line@.subrange(0, end as int),
        decreases end,
    {
        if end == 0 {
            proof {
                assert(line@.subrange(0, 0) =~= Seq::<char>::empty());
            }
            break;
        }
        let c = line.get_char(end - 1);
        if c == '\n' || c == '\r' {
            proof {
                assert(line@.subrange(0, end as int).drop_last() =~= line@.subrange(
                    0,
                    end - 1,
                ));
            }
            end = end - 1;
        } else {
            proof {
                assert(line@.subrange(0, end as int).last() == c);
            }
            break;
        }
    }
    let ghost word = line@.subrange(0, end as int);
    if end == 1 {
        let c0 = line.get_char(0);
        proof {
            assert(word.len() == 1 && word[0] == line@[0]);
            assert(seq!['y'][0] == 'y' && seq!['n'][0] == 'n');
            assert(seq!['y', 'e', 's'].len() == 3 && seq!['n', 'o'].len() == 2);
        }
        if c0 == 'y' {
            proof {
                assert(word =~= seq!['y']);
            }
            Some(true)
        } else if c0 == 'n' {
            proof {
                assert(word =~= seq!['n']);
            }
            Some(false)
        } else {
            None
        }
    } else if end == 2 {
        let c0 = line.get_char(0);
        let c1 = line.get_char(1);
        proof {
            assert(word.len() == 2 && word[0] == line@[0] && word[1] == line@[1]);
            assert(seq!['n', 'o'][0] == 'n' && seq!['n', 'o'][1] == 'o');
            assert(seq!['y'].len() == 1 && seq!['n'].len() == 1);
            assert(seq!['y', 'e', 's'].len() == 3);
        }
        if c0 == 'n' && c1 == 'o' {
            proof {
                assert(word =~= seq!['n', 'o']);
            }
            Some(false)
        } else {
            None
        }
    } else if end == 3 {
        let c0 = line.get_char(0);
        let c1 = line.get_char(1);
        let c2 = line.get_char(2);
        proof {
            assert(word.len() == 3 && word[0] == line@[0] && word[1] == line@[1] && word[2]
                == line@[2]);
            assert(seq!['y', 'e', 's'][0] == 'y' && seq!['y', 'e', 's'][1] == 'e' && seq![
                'y',
                'e',
                's',
            ][2] == 's');
            assert(seq!['y'].len() == 1 && seq!['n'].len() == 1);
            assert(seq!['n', 'o'].len() == 2);
        }
        if c0 == 'y' && c1 == 'e' && c2 == 's' {
            proof {
                assert(word =~= seq!['y', 'e', 's']);
            }
            Some(true)
        } else {
            None
        }
    } else {
        proof {
            assert(seq!['y'].len() == 1 && seq!['n'].len() == 1);
            assert(seq!['n', 'o'].len() == 2 && seq!['y', 'e', 's'].len() == 3);
        }
        None
    }
}

} // verus!
