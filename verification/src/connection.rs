//! Compiling the statements of a script.
//!
//! Compiling one text is the engine's work, and the caller's to ask for:
//! it is handed in as a function from a text to a statement, to nothing
//! where the text holds no statement, or to an error.

use crate::error::{Error, Result};
use crate::parsing::{segments, split_statement_list, to_prepare};
use vstd::prelude::*;

verus! {

broadcast use vstd::function::group_function_axioms;

/// Whether compiling a text of these characters can come to `outcome`.
pub open spec fn compiles_to<S, F: FnMut(&str) -> Result<Option<S>>>(
    prepare: F,
    text: Seq<char>,
    outcome: Result<Option<S>>,
) -> bool {
    exists|part: &str| part@ == text && call_ensures(prepare, (part,), outcome)
}

/// The statements among the outcomes of compiling, in their order.
pub open spec fn present<S>(outcomes: Seq<Option<S>>) -> Seq<S>
    decreases outcomes.len(),
{
    if outcomes.len() == 0 {
        Seq::empty()
    } else {
        match outcomes.last() {
            Some(statement) => present(outcomes.drop_last()).push(statement),
            None => present(outcomes.drop_last()),
        }
    }
}

/// Whether `outcomes` can be what compiling the first texts, one after the
/// other, comes to when none of them fails.
pub open spec fn compiled_in_order<S, F: FnMut(&str) -> Result<Option<S>>>(
    prepare: F,
    texts: Seq<Seq<char>>,
    outcomes: Seq<Option<S>>,
) -> bool {
    &&& outcomes.len() <= texts.len()
    &&& forall|i: int|
        0 <= i < outcomes.len() ==> compiles_to(prepare, texts[i], Ok(#[trigger] outcomes[i]))
}

/// Compiles the statements of a script, which a `;` separates.
///
/// Every segment that is not empty is handed to `prepare`, in source order,
/// until one fails to compile: its error is returned and nothing after it
/// is touched. The statements come back in source order; a segment that
/// compiles to nothing leaves none.
pub fn prepare_list<S, F: FnMut(&str) -> Result<Option<S>>>(sql: &str, mut prepare: F) -> (r:
    Result<Vec<S>>)
    requires
        forall|part: &str| call_requires(prepare, (part,)),
    ensures
        ({
            let texts = to_prepare(segments(sql@));
            match r {
                Ok(statements) => exists|outcomes: Seq<Option<S>>|
                    {
                        &&& #[trigger] compiled_in_order(prepare, texts, outcomes)
                        &&& outcomes.len() == texts.len()
                        &&& statements@ == present(outcomes)
                    },
                Err(e) => exists|outcomes: Seq<Option<S>>|
                    {
                        &&& #[trigger] compiled_in_order(prepare, texts, outcomes)
                        &&& outcomes.len() < texts.len()
                        &&& compiles_to(prepare, texts[outcomes.len() as int], Err(e))
                    },
            }
        }),
{
    let mut statements: Vec<S> = Vec::new();
    let mut failure: Option<Error> = None;
    let mut parts = split_statement_list(sql);
    let ghost texts = to_prepare(segments(sql@));
    let ghost given = prepare;
    let ghost mut outcomes: Seq<Option<S>> = Seq::empty();
    assert(texts.skip(0) =~= texts);
    loop
        invariant_except_break
            failure is None,
            to_prepare(parts@) == texts.skip(outcomes.len() as int),
            statements@ == present(outcomes),
        invariant
            parts.wf(),
            prepare == given,
            forall|part: &str| call_requires(prepare, (part,)),
            compiled_in_order(given, texts, outcomes),
        ensures
            compiled_in_order(given, texts, outcomes),
            failure is None ==> outcomes.len() == texts.len() && statements@ == present(outcomes),
            failure matches Some(e) ==> outcomes.len() < texts.len() && compiles_to(
                given,
                texts[outcomes.len() as int],
                Err::<Option<S>, _>(e),
            ),
        decreases texts.len() - outcomes.len(),
    {
        match parts.next_nonempty() {
            None => {
                break ;
            },
            Some(part) => {
                let ghost k = outcomes.len() as int;
                assert(part@ == texts[k]) by {
                    assert(texts.skip(k)[0] == texts[k]);
                }
                assert(to_prepare(parts@) =~= texts.skip(k + 1));
                match prepare(part) {
                    Err(e) => {
                        assert(compiles_to(given, texts[k], Err::<Option<S>, _>(e)));
                        failure = Some(e);
                        break ;
                    },
                    Ok(outcome) => {
                        assert(compiles_to(given, texts[k], Ok(outcome)));
                        proof {
                            let before = outcomes;
                            outcomes = outcomes.push(outcome);
                            assert(outcomes.drop_last() =~= before);
                        }
                        match outcome {
                            Some(statement) => {
                                statements.push(statement);
                            },
                            None => {},
                        }
                    },
                }
            },
        }
    }
    match failure {
        Some(e) => Err(e),
        None => Ok(statements),
    }
}

} // verus!
