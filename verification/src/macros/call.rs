//! The control flow of a function exported to R: its arguments are converted
//! in order, the first failure ends the call with an error, and otherwise the
//! function is called and its result converted.
use vstd::prelude::*;

verus! {

/// What a call from R does next.
#[derive(Debug, Clone, Copy, PartialEq, Eq, Structural)]
pub enum CallStep {
    /// convert argument number `i`, counted from 0
    Convert(usize),
    /// call the function on the converted arguments, and convert its result
    Invoke,
    /// report the failed conversion of argument number `i`
    FailArgument(usize),
    /// report the failed conversion of the result
    FailResult,
    /// hand the converted result to R
    Return,
}

/// The first step of a call with `count` arguments.
pub open spec fn spec_start_call(count: nat) -> CallStep {
    if count == 0 {
        CallStep::Invoke
    } else {
        CallStep::Convert(0)
    }
}

/// The step after argument `index` of `count` was converted, successfully
/// when `ok`.
pub open spec fn spec_after_argument(index: nat, count: nat, ok: bool) -> CallStep {
    if !ok {
        CallStep::FailArgument(index as usize)
    } else if index + 1 < count {
        CallStep::Convert((index + 1) as usize)
    } else {
        CallStep::Invoke
    }
}

/// The first step of a call with `count` arguments.
pub fn start_call(count: usize) -> (r: CallStep)
    ensures
        r == spec_start_call(count as nat),
{
    if count == 0 {
        CallStep::Invoke
    } else {
        CallStep::Convert(0)
    }
}

/// The step after argument `index` of `count` was converted, successfully
/// when `ok`.
pub fn after_argument(index: usize, count: usize, ok: bool) -> (r: CallStep)
    requires
        index < count,
    ensures
        r == spec_after_argument(index as nat, count as nat, ok),
{
    if !ok {
        CallStep::FailArgument(index)
    } else if index + 1 < count {
        CallStep::Convert(index + 1)
    } else {
        CallStep::Invoke
    }
}

/// The step after the result was converted, successfully when `ok`.
pub fn after_result(ok: bool) -> (r: CallStep)
    ensures
        r == (if ok {
            CallStep::Return
        } else {
            CallStep::FailResult
        }),
{
    if ok {
        CallStep::Return
    } else {
        CallStep::FailResult
    }
}

/// The step that ends the conversion of arguments, starting at argument
/// `from`, when the conversion of argument `i` succeeds exactly when `oks[i]`.
pub open spec fn run_arguments(oks: Seq<bool>, from: nat) -> CallStep
    decreases oks.len() - from,
{
    if from >= oks.len() {
        CallStep::Invoke
    } else {
        match spec_after_argument(from, oks.len(), oks[from as int]) {
            CallStep::Convert(next) => if next == from + 1 {
                run_arguments(oks, from + 1)
            } else {
                CallStep::Convert(next)
            },
            step => step,
        }
    }
}

/// Starting at argument `from`, the steps convert the arguments in order and
/// end at the first one whose conversion fails; when none fails they end by
/// calling the function.
pub proof fn lemma_arguments_stop_at_first_failure(oks: Seq<bool>, from: nat)
    requires
        oks.len() <= usize::MAX,
    ensures
        (forall|i: int| from <= i < oks.len() ==> oks[i]) ==> run_arguments(oks, from)
            == CallStep::Invoke,
        forall|k: int|
            from <= k < oks.len() && !oks[k] && (forall|i: int| from <= i < k ==> oks[i])
                ==> run_arguments(oks, from) == CallStep::FailArgument(k as usize),
    decreases oks.len() - from,
{
    if from < oks.len() {
        lemma_arguments_stop_at_first_failure(oks, from + 1);
    }
}

} // verus!
