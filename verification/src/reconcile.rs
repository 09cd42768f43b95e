//! The canonical consumer of the prompt protocol: a reconciliation workflow
//! that walks a list of discrepancies and suspends on an operator choice for
//! each one.

use crate::console::MessageType;
use crate::cui::{CuiError, SimpleCui};
use crate::decimal::{decimal_string, spec_decimal};
use vstd::prelude::*;
use vstd::string::StringExecFns;

verus! {

/// Outcome of one reconciliation run: the decision recorded for each
/// discrepancy the operator resolved (`'1'`) or skipped (`'0'`), in order,
/// and whether the remainder was aborted.
pub struct ReconcileReport {
    pub decisions: Vec<char>,
    pub aborted: bool,
}

/// The answers a reconciliation run over `n` discrepancies consumes: each is
/// one of `'1'`, `'0'`, `'-'`, at most one per discrepancy, only the last
/// one may be the abort character, and the run leaves the earlier answers of
/// the prompt history untouched.
pub open spec fn reconcile_answers(pre: Seq<char>, post: Seq<char>, n: int) -> bool {
    &&& post.len() >= pre.len()
    &&& post.take(pre.len() as int) == pre
    &&& post.len() - pre.len() <= n
    &&& forall|i: int|
        pre.len() <= i < post.len() ==> (post[i] == '1' || post[i] == '0' || post[i] == '-')
    &&& forall|i: int| pre.len() <= i < post.len() - 1 ==> post[i] != '-'
}

/// A successful run over the discrepancy texts `dis`: the run aborted
/// exactly when the last answer was the abort character, a run that was not
/// aborted prompted once per discrepancy, every non-abort answer became a
/// decision, and exactly one context line was logged per prompt, in order.
pub open spec fn reconcile_ok(
    pre_ans: Seq<char>,
    post_ans: Seq<char>,
    pre_log: Seq<(MessageType, Seq<char>)>,
    post_log: Seq<(MessageType, Seq<char>)>,
    dis: Seq<Seq<char>>,
    rep: ReconcileReport,
) -> bool {
    let k = post_ans.len() - pre_ans.len();
    &&& reconcile_answers(pre_ans, post_ans, dis.len() as int)
    &&& rep.aborted == (k > 0 && post_ans.last() == '-')
    &&& (!rep.aborted ==> k == dis.len())
    &&& rep.decisions@ == (if rep.aborted {
        post_ans.skip(pre_ans.len() as int).drop_last()
    } else {
        post_ans.skip(pre_ans.len() as int)
    })
    &&& post_log == pre_log + Seq::new(k as nat, |i: int| (MessageType::Log, dis[i]))
}

/// A run stopped by a prompt failure: every delivered answer was a decision
/// (no abort happened), the failing prompt's context line was already
/// emitted, and fewer prompts than discrepancies were answered.
pub open spec fn reconcile_err(
    pre_ans: Seq<char>,
    post_ans: Seq<char>,
    pre_log: Seq<(MessageType, Seq<char>)>,
    post_log: Seq<(MessageType, Seq<char>)>,
    dis: Seq<Seq<char>>,
) -> bool {
    let k = post_ans.len() - pre_ans.len();
    &&& post_ans.len() >= pre_ans.len()
    &&& post_ans.take(pre_ans.len() as int) == pre_ans
    &&& k < dis.len()
    &&& forall|i: int| pre_ans.len() <= i < post_ans.len() ==> (post_ans[i] == '1' || post_ans[i]
        == '0')
    &&& post_log == pre_log + Seq::new((k + 1) as nat, |i: int| (MessageType::Log, dis[i]))
}

/// Walks the discrepancies in order: emits each context line, then asks the
/// operator to resolve (`'1'`), skip (`'0'`) or abort the remainder (`'-'`).
/// An abort stops the loop at once — no further prompt is issued — and the
/// run still returns successfully. A prompt failure is propagated upward as
/// the command's failure.
#[verifier::loop_isolation(false)]
pub fn reconcile<C: SimpleCui>(cui: &mut C, discrepancies: &Vec<String>) -> (r: Result<
    ReconcileReport,
    CuiError,
>)
    ensures
        match r {
            Ok(rep) => reconcile_ok(
                old(cui).answers(),
                final(cui).answers(),
                old(cui).log_history(),
                final(cui).log_history(),
                discrepancies@.map_values(|s: String| s@),
                rep,
            ),
            Err(_) => reconcile_err(
                old(cui).answers(),
                final(cui).answers(),
                old(cui).log_history(),
                final(cui).log_history(),
                discrepancies@.map_values(|s: String| s@),
            ),
        },
{
    let ghost pre_ans = cui.answers();
    let ghost pre_log = cui.log_history();
    let ghost dis = discrepancies@.map_values(|s: String| s@);
    let mut cases: Vec<char> = Vec::new();
    cases.push('1');
    cases.push('0');
    cases.push('-');
    let mut decisions: Vec<char> = Vec::new();
    let mut i: usize = 0;
    while i < discrepancies.len()
        invariant
            i <= discrepancies@.len(),
            dis == discrepancies@.map_values(|s: String| s@),
            cases@ =~= seq!['1', '0', '-'],
            cui.answers().len() == pre_ans.len() + i,
            cui.answers().take(pre_ans.len() as int) == pre_ans,
            forall|j: int|
                pre_ans.len() <= j < cui.answers().len() ==> (cui.answers()[j] == '1'
                    || cui.answers()[j] == '0'),
            decisions@ == cui.answers().skip(pre_ans.len() as int),
            cui.log_history() == pre_log + Seq::new(i as nat, |j: int| (MessageType::Log, dis[j])),
        decreases discrepancies@.len() - i,
    {
        let ghost ans_before = cui.answers();
        cui.out_log(discrepancies[i].as_str());
        proof {
            assert(cui.log_history() =~= pre_log + Seq::new(
                (i + 1) as nat,
                |j: int| (MessageType::Log, dis[j]),
            ));
        }
        match cui.input_case(cases.as_slice(), "どのように解決しますか?") {
            Ok(choice) => {
                proof {
                    assert(cases@.contains(choice));
                    assert(choice == '1' || choice == '0' || choice == '-') by {
                        let w = choose|w: int| 0 <= w < cases@.len() && cases@[w] == choice;
                        assert(cases@[0] == '1' && cases@[1] == '0' && cases@[2] == '-');
                    }
                    assert(cui.answers().take(pre_ans.len() as int) =~= ans_before.take(
                        pre_ans.len() as int,
                    ));
                }
                if choice == '-' {
                    let rep = ReconcileReport { decisions, aborted: true };
                    proof {
                        assert(rep.decisions@ =~= cui.answers().skip(
                            pre_ans.len() as int,
                        ).drop_last());
                    }
                    return Ok(rep);
                }
                decisions.push(choice);
                proof {
                    assert(decisions@ =~= cui.answers().skip(pre_ans.len() as int));
                }
            },
            Err(e) => {
                return Err(e);
            },
        }
        i = i + 1;
    }
    Ok(ReconcileReport { decisions, aborted: false })
}

/// Abort short-circuits: in a successful run whose first delivered answer is
/// the abort character, exactly one prompt was issued and one context line
/// emitted, no discrepancy got a decision, and the run was aborted.
pub proof fn lemma_abort_short_circuits(
    pre_ans: Seq<char>,
    post_ans: Seq<char>,
    pre_log: Seq<(MessageType, Seq<char>)>,
    post_log: Seq<(MessageType, Seq<char>)>,
    dis: Seq<Seq<char>>,
    rep: ReconcileReport,
)
    requires
        reconcile_ok(pre_ans, post_ans, pre_log, post_log, dis, rep),
        post_ans.len() > pre_ans.len(),
        post_ans[pre_ans.len() as int] == '-',
    ensures
        post_ans.len() == pre_ans.len() + 1,
        rep.aborted,
        rep.decisions@.len() == 0,
        post_log.len() == pre_log.len() + 1,
{
    if post_ans.len() > pre_ans.len() + 1 {
        assert(post_ans[pre_ans.len() as int] != '-');
    }
}

/// Reports how many discrepancies were found, the workflow's opening line.
pub fn report_count<C: SimpleCui>(cui: &mut C, count: usize)
    ensures
        final(cui).log_history() == old(cui).log_history().push(
            (MessageType::Log, spec_decimal(count as nat) + " 件の齟齬が見つかりました"@),
        ),
        final(cui).answers() == old(cui).answers(),
{
    let line = decimal_string(count).concat(" 件の齟齬が見つかりました");
    cui.out_log(line.as_str());
}

/// Asks the yes/no proceed question with which a reconciliation workflow
/// opens: logs the start marker, asks whether to continue, and on a
/// declined run logs that it was aborted. Declining is a success.
pub fn confirm_continue<C: SimpleCui>(cui: &mut C) -> (r: Result<bool, CuiError>)
    ensures
        match r {
            Ok(go_on) => {
                &&& final(cui).answers() == old(cui).answers().push(
                    if go_on {
                        'y'
                    } else {
                        'n'
                    },
                )
                &&& (go_on ==> final(cui).log_history() == old(cui).log_history().push(
                    (MessageType::Log, "start"@),
                ))
                &&& (!go_on ==> final(cui).log_history() == old(cui).log_history().push(
                    (MessageType::Log, "start"@),
                ).push((MessageType::Log, "aborted"@)))
            },
            Err(_) => {
                &&& final(cui).answers() == old(cui).answers()
                &&& final(cui).log_history() == old(cui).log_history().push(
                    (MessageType::Log, "start"@),
                )
            },
        },
{
    cui.out_log("start");
    let mut cases: Vec<char> = Vec::new();
    cases.push('y');
    cases.push('n');
    match cui.input_case(cases.as_slice(), "continue?") {
        Ok(choice) => {
            proof {
                assert(cases@.contains(choice));
                assert(choice == 'y' || choice == 'n') by {
                    let w = choose|w: int| 0 <= w < cases@.len() && cases@[w] == choice;
                    assert(cases@[0] == 'y' && cases@[1] == 'n');
                }
            }
            if choice == 'n' {
                cui.out_log("aborted");
                Ok(false)
            } else {
                Ok(true)
            }
        },
        Err(e) => Err(e),
    }
}

} // verus!
