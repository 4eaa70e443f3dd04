//! Whole operations: the steps of an operation chained over the answers
//! that the host gives to its queries.

use vstd::prelude::*;

use crate::contract::execute;
use crate::contract::first_step;
use crate::contract::next_step;
use crate::contract::resume;
use crate::msg::Env;
use crate::msg::EnvView;
use crate::msg::ExecuteMsg;
use crate::msg::MessageInfo;
use crate::msg::MessageInfoView;
use crate::state::Config;
use crate::state::ConfigView;
use crate::step::Answer;
use crate::step::AnswerView;
use crate::step::Step;
use crate::step::StepView;

verus! {

/// The values of a list of answers, in the list's order.
pub open spec fn answers_view(answers: Seq<Answer>) -> Seq<AnswerView> {
    Seq::new(answers.len(), |i: int| answers[i]@)
}

/// Where an operation that stands at `step` gets with `answers`: as long as
/// it asks and an answer is left, the next answer is fed to it.
pub open spec fn carry_on(
    config: ConfigView,
    env: EnvView,
    info: MessageInfoView,
    step: StepView,
    answers: Seq<AnswerView>,
) -> StepView
    decreases answers.len(),
{
    match step {
        StepView::Ask { pending, .. } => if answers.len() == 0 {
            step
        } else {
            carry_on(
                config,
                env,
                info,
                next_step(config, env, info, pending, answers[0]),
                answers.drop_first(),
            )
        },
        _ => step,
    }
}

/// Where the operation that `msg` requests gets, from its first step on,
/// when the host answers its queries with `answers`.
pub open spec fn outcome(
    config: ConfigView,
    env: EnvView,
    info: MessageInfoView,
    msg: ExecuteMsg,
    answers: Seq<AnswerView>,
) -> StepView {
    carry_on(config, env, info, first_step(Some(config), env, info, msg), answers)
}

/// Runs the operation that `msg` requests over answers known beforehand.
/// The result still asks where the answers ran out; answers left over when
/// the operation ends are not looked at.
pub fn replay(
    config: &Config,
    env: &Env,
    info: &MessageInfo,
    msg: ExecuteMsg,
    answers: &Vec<Answer>,
) -> (step: Step)
    ensures
        step@ == outcome(config@, env@, info@, msg, answers_view(answers@)),
{
    let mut step = execute(Some(config), env, info, msg);
    let mut i: usize = 0;
    assert(answers_view(answers@).skip(0) =~= answers_view(answers@));
    while i < answers.len()
        invariant
            i <= answers.len(),
            carry_on(config@, env@, info@, step@, answers_view(answers@).skip(i as int)) == outcome(
                config@,
                env@,
                info@,
                msg,
                answers_view(answers@),
            ),
        decreases answers.len() - i,
    {
        let waiting = match &step {
            Step::Ask { pending, .. } => Some(*pending),
            _ => None,
        };
        match waiting {
            Some(pending) => {
                proof {
                    let rest = answers_view(answers@).skip(i as int);
                    assert(rest[0] == answers@[i as int]@);
                    assert(rest.drop_first() =~= answers_view(answers@).skip(i + 1));
                }
                step = resume(config, env, info, pending, &answers[i]);
            },
            None => {
                return step;
            },
        }
        i += 1;
    }
    step
}

} // verus!
