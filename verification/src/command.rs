//! Classification of a submitted line: a line beginning with the sentinel
//! `'!'` is a local command, split purely on whitespace into a program and
//! its arguments; anything else is a question for the remote service.

use crate::textops::chars_to_string;
use crate::textops::is_ws;
use crate::textops::is_ws_char;
use vstd::prelude::*;
use vstd::string::StringExecFns;

verus! {

/// `s` with every leading sentinel `'!'` removed.
pub open spec fn drop_bangs(s: Seq<char>) -> Seq<char>
    decreases s.len(),
{
    if s.len() > 0 && s[0] == '!' {
        drop_bangs(s.drop_first())
    } else {
        s
    }
}

/// Whitespace splitting, carried with the token built so far: whitespace
/// closes the current token (if any), any other character extends it.
pub open spec fn split_ws_acc(s: Seq<char>, cur: Seq<char>) -> Seq<Seq<char>>
    decreases s.len(),
{
    if s.len() == 0 {
        if cur.len() == 0 {
            Seq::empty()
        } else {
            seq![cur]
        }
    } else if is_ws(s[0]) {
        if cur.len() == 0 {
            split_ws_acc(s.drop_first(), Seq::empty())
        } else {
            seq![cur] + split_ws_acc(s.drop_first(), Seq::empty())
        }
    } else {
        split_ws_acc(s.drop_first(), cur.push(s[0]))
    }
}

/// The maximal runs of non-whitespace characters of `s`, in order — what
/// splitting on whitespace yields, with no empty tokens.
pub open spec fn split_ws(s: Seq<char>) -> Seq<Seq<char>> {
    split_ws_acc(s, Seq::empty())
}

/// True when the submitted line is a local command: it begins with `'!'`.
pub open spec fn is_command_line(text: Seq<char>) -> bool {
    text.len() > 0 && text[0] == '!'
}

/// The whitespace-separated tokens of a command line, taken after the
/// leading sentinel characters.
pub open spec fn command_tokens(text: Seq<char>) -> Seq<Seq<char>> {
    split_ws(drop_bangs(text))
}

/// The text shown at once when a command line has no tokens left.
pub open spec fn empty_command_text() -> Seq<char> {
    "Empty Command."@
}

/// What a submission asks to be done.
#[derive(Debug)]
pub enum Plan {
    /// Show this text at once; no process runs.
    Immediate { text: String },
    /// Run a local program with these arguments.
    RunCommand { program: String, args: Vec<String> },
    /// Ask the remote question-answering service this question.
    AskQuery { question: String },
}

/// The plan that a submitted line calls for: a command line with tokens
/// runs the first token as the program with the rest as arguments; one
/// with no tokens shows the empty-command text at once; any other line is
/// a question, passed on whole.
pub open spec fn plan_for(p: Plan, text: Seq<char>) -> bool {
    if is_command_line(text) {
        if command_tokens(text).len() == 0 {
            p matches Plan::Immediate { text: t } && t@ == empty_command_text()
        } else {
            p matches Plan::RunCommand { program, args } && program@ == command_tokens(text)[0]
                && args.deep_view() == command_tokens(text).drop_first()
        }
    } else {
        p matches Plan::AskQuery { question } && question@ == text
    }
}

/// Classifies a submitted line into its [`Plan`].
pub fn classify(text: &Vec<char>) -> (p: Plan)
    ensures
        plan_for(p, text@),
{
    if text.len() == 0 || text[0] != '!' {
        return Plan::AskQuery { question: chars_to_string(text) };
    }
    let mut i: usize = 0;
    proof {
        assert(text@.skip(0) =~= text@);
    }
    while i < text.len() && text[i] == '!'
        invariant
            i <= text.len(),
            drop_bangs(text@) == drop_bangs(text@.skip(i as int)),
        decreases text.len() - i,
    {
        proof {
            assert(text@.skip(i as int).drop_first() =~= text@.skip(i + 1));
        }
        i += 1;
    }
    proof {
        assert(drop_bangs(text@) == text@.skip(i as int));
    }
    let ghost rest = text@.skip(i as int);
    let mut toks: Vec<Vec<char>> = Vec::new();
    let mut cur: Vec<char> = Vec::new();
    let mut j: usize = i;
    proof {
        assert(Seq::<Seq<char>>::empty() + split_ws_acc(rest, Seq::empty()) =~= split_ws_acc(
            rest,
            Seq::empty(),
        ));
    }
    while j < text.len()
        invariant
            i <= j <= text.len(),
            rest == text@.skip(i as int),
            split_ws(rest) == toks.deep_view() + split_ws_acc(text@.skip(j as int), cur@),
        decreases text.len() - j,
    {
        let c = text[j];
        let ghost old_toks = toks.deep_view();
        let ghost old_cur = cur@;
        proof {
            assert(text@.skip(j as int).drop_first() =~= text@.skip(j + 1));
        }
        if is_ws_char(c) {
            if cur.len() > 0 {
                toks.push(cur);
                cur = Vec::new();
                proof {
                    assert(toks.deep_view() =~~= old_toks.push(old_cur));
                    assert(old_toks + (seq![old_cur] + split_ws_acc(
                        text@.skip(j + 1),
                        Seq::empty(),
                    )) =~= old_toks.push(old_cur) + split_ws_acc(text@.skip(j + 1), Seq::empty()));
                }
            } else {
                proof {
                    assert(old_cur =~= Seq::<char>::empty());
                }
            }
        } else {
            cur.push(c);
            proof {
                assert(split_ws_acc(text@.skip(j as int), old_cur) == split_ws_acc(
                    text@.skip(j + 1),
                    old_cur.push(text@[j as int]),
                ));
            }
        }
        j += 1;
    }
    proof {
        assert(text@.skip(text@.len() as int) =~= Seq::<char>::empty());
    }
    if cur.len() > 0 {
        let ghost old_toks = toks.deep_view();
        let ghost old_cur = cur@;
        toks.push(cur);
        proof {
            assert(toks.deep_view() =~~= old_toks.push(old_cur));
            assert(old_toks + seq![old_cur] =~= old_toks.push(old_cur));
        }
    } else {
        proof {
            assert(toks.deep_view() + Seq::<Seq<char>>::empty() =~= toks.deep_view());
        }
    }
    proof {
        assert(toks.deep_view() == command_tokens(text@));
    }
    if toks.len() == 0 {
        Plan::Immediate { text: String::from_str("Empty Command.") }
    } else {
        let program = chars_to_string(&toks[0]);
        proof {
            assert(toks.deep_view()[0] =~= toks@[0]@);
        }
        let mut args: Vec<String> = Vec::new();
        let mut k: usize = 1;
        while k < toks.len()
            invariant
                1 <= k <= toks.len(),
                toks.deep_view() == command_tokens(text@),
                args.deep_view() == toks.deep_view().subrange(1, k as int),
            decreases toks.len() - k,
        {
            let ghost old_args = args.deep_view();
            let a = chars_to_string(&toks[k]);
            args.push(a);
            proof {
                assert(args.deep_view() =~~= old_args.push(toks.deep_view()[k as int]));
                assert(toks.deep_view().subrange(1, k as int).push(toks.deep_view()[k as int])
                    =~= toks.deep_view().subrange(1, k + 1));
            }
            k += 1;
        }
        proof {
            assert(toks.deep_view().subrange(1, toks.deep_view().len() as int)
                =~= toks.deep_view().drop_first());
        }
        Plan::RunCommand { program, args }
    }
}

} // verus!
