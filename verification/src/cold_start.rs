//! Cold start detection for Lambda functions.
//!
//! An invocation is a cold start where it is the first of its container and the
//! container was not started ahead of it.
use crate::text::equal;
use vstd::prelude::*;
use vstd::string::*;

verus! {

/// Whether a container was started ahead of its invocations.
pub open spec fn is_provisioned(initialization_type: Option<&str>) -> bool {
    initialization_type is Some && initialization_type->0@ == "provisioned-concurrency"@
}

/// Whether an invocation is a cold start: no other was seen before it, and the
/// container was not started ahead.
pub open spec fn is_cold(flag: bool, initialization_type: Option<&str>) -> bool {
    flag && !is_provisioned(initialization_type)
}

/// Checks if this is a cold start and clears the flag.
///
/// The flag says that no invocation has been seen yet: it is set at first and
/// cleared by every call. `initialization_type` is the value of
/// `AWS_LAMBDA_INITIALIZATION_TYPE`: with provisioned concurrency the container is
/// warm from the start.
pub fn check_cold_start(flag: &mut bool, initialization_type: Option<&str>) -> (r: bool)
    ensures
        r == is_cold(*old(flag), initialization_type),
        !*final(flag),
{
    let first = *flag;
    *flag = false;
    if let Some(kind) = initialization_type {
        if equal(kind, "provisioned-concurrency") {
            return false;
        }
    }
    first
}

/// The answers of a run of checks, each with its initialization type, on a flag.
pub open spec fn answers(flag: bool, kinds: Seq<Option<&str>>) -> Seq<bool>
    decreases kinds.len(),
{
    if kinds.len() == 0 {
        Seq::empty()
    } else {
        seq![is_cold(flag, kinds[0])] + answers(false, kinds.skip(1))
    }
}

/// Only the first invocation of a container can be a cold start.
pub proof fn law_only_the_first_is_cold(kinds: Seq<Option<&str>>, i: int)
    requires
        0 <= i < kinds.len(),
    ensures
        answers(true, kinds).len() == kinds.len(),
        answers(true, kinds)[i] == (i == 0 && !is_provisioned(kinds[0])),
{
    lemma_warm(kinds.skip(1));
    if i > 0 {
        assert(answers(true, kinds)[i] == answers(false, kinds.skip(1))[i - 1]);
    }
}

/// Once the flag is cleared, no answer is a cold start.
proof fn lemma_warm(kinds: Seq<Option<&str>>)
    ensures
        answers(false, kinds).len() == kinds.len(),
        forall|i: int| 0 <= i < kinds.len() ==> !#[trigger] answers(false, kinds)[i],
    decreases kinds.len(),
{
    if kinds.len() > 0 {
        lemma_warm(kinds.skip(1));
        assert forall|i: int| 0 <= i < kinds.len() implies !#[trigger] answers(false, kinds)[i] by {
            if i > 0 {
                assert(answers(false, kinds)[i] == answers(false, kinds.skip(1))[i - 1]);
            }
        }
    }
}

/// The first invocation is a cold start, unless the container was started ahead of it for
/// provisioned concurrency; no later one is.
pub proof fn law_provisioned_containers_are_warm(flag: bool, initialization_type: Option<&str>)
    ensures
        is_cold(flag, initialization_type) <==> flag && (initialization_type is None
            || initialization_type->0@ != "provisioned-concurrency"@),
{
}

/// A check tells a cold start once: the next one does not, whatever was asked.
pub proof fn law_a_check_clears_the_flag(
    flag: &mut bool,
    initialization_type: Option<&str>,
    r: bool,
)
    requires
        call_ensures(check_cold_start, (flag, initialization_type), r),
    ensures
        r <==> *old(flag) && (initialization_type is None || initialization_type->0@
            != "provisioned-concurrency"@),
        !*final(flag),
{
}

} // verus!
