//! A `Shared` pointer of `crossbeam-epoch` may be dereferenced only while the
//! guard returned by `epoch::pin()` that it was loaded under is alive.

use vstd::prelude::*;
use crate::analysis::dataflow::FlowResults;
use crate::analysis::paths::{is_shared_deref, spec_is_shared_deref};
use crate::analysis::state::{BlockState, StateView, spec_has_hazard_protocol};
use crate::analysis::typestate::{ProtocolId, ProtocolState};
use crate::checkers::{CallRule, Finding, Flag, Severity, call_findings, findings_view, run_call_rule};
use crate::mir::{Body, DefId, Operand};
use crate::text::{contains, ends_with, str_contains, str_ends_with};
use vstd::string::StringExecFns;

verus! {

/// Reports `Shared::deref` / `deref_mut` / `as_ref` and
/// `Guard::defer_destroy` calls reached while some epoch guard in scope may
/// have been dropped. Each `epoch::pin()` starts a protocol instance that a
/// drop consumes; when several guards are in scope any hazard is reported,
/// not only one tied to the dereferenced pointer.
pub struct EpochGuard;

pub open spec fn spec_is_defer_destroy(path: Seq<char>) -> bool {
    ends_with(path, "::defer_destroy"@) && contains(path, "Guard"@)
}

/// `Guard::defer_destroy` is called.
pub fn is_defer_destroy(path: &str) -> (r: bool)
    ensures
        r == spec_is_defer_destroy(path@),
{
    str_ends_with(path, "::defer_destroy") && str_contains(path, "Guard")
}

pub open spec fn spec_op_name(path: Seq<char>) -> Seq<char> {
    if ends_with(path, "::deref_mut"@) {
        "Shared::deref_mut"@
    } else if ends_with(path, "::defer_destroy"@) {
        "Guard::defer_destroy"@
    } else {
        "Shared::deref"@
    }
}

/// The operation `path` performs, for the message.
pub fn op_name(path: &str) -> (r: &'static str)
    ensures
        r@ == spec_op_name(path@),
{
    if str_ends_with(path, "::deref_mut") {
        "Shared::deref_mut"
    } else if str_ends_with(path, "::defer_destroy") {
        "Guard::defer_destroy"
    } else {
        "Shared::deref"
    }
}

impl CallRule for EpochGuard {
    open spec fn spec_uses_state(&self) -> bool {
        true
    }

    /// A reached dereference or deferred destruction while a protocol in
    /// the state is in a hazard state.
    open spec fn spec_flag(&self, body: &Body, callee: DefId, path: Seq<char>, args: Seq<Operand>, pre: Option<StateView>)
        -> Option<(Seq<char>, Severity, Seq<char>)>
    {
        if (spec_is_shared_deref(path) || spec_is_defer_destroy(path)) && pre is Some && spec_has_hazard_protocol(pre->0) {
            Some(("epoch_guard_expired"@, Severity::Warning, "`"@ + spec_op_name(path) + "` called but an epoch guard may have been dropped — dereferencing a \
                `Shared` pointer after its guard is dropped is use-after-free"@))
        } else {
            None
        }
    }

    fn uses_state(&self) -> (r: bool) {
        true
    }

    fn flag(&self, body: &Body, callee: DefId, path: &str, args: &Vec<Operand>, pre: &Option<BlockState>) -> (r: Option<Flag>) {
        match pre {
            Some(state) => {
                if (is_shared_deref(path) || is_defer_destroy(path)) && state.has_hazard_protocol() {
                    Some(("epoch_guard_expired", Severity::Warning, "`".to_owned().concat(op_name(path)).concat("` called but an epoch guard may have been dropped — dereferencing a \
                        `Shared` pointer after its guard is dropped is use-after-free")))
                } else {
                    None
                }
            },
            None => None,
        }
    }
}

impl EpochGuard {
    /// Reports, in block order, each reached dereference of a `Shared`
    /// pointer or deferred destruction in `body` while an epoch guard may
    /// have been dropped.
    pub fn check_flow(&self, body: &Body, flow: &FlowResults) -> (r: Vec<Finding>)
        requires
            body.basic_blocks@.len() <= 0x1_0000_0000,
        ensures
            findings_view(r@) == call_findings(self, body, flow.entry_states@, body.basic_blocks@.len() as int),
    {
        run_call_rule(self, body, flow)
    }
}

/// A deferred destruction through a `Guard`, or a `Shared` dereference,
/// reached while some protocol is consumed or may be, is reported.
pub proof fn lemma_hazard_is_reported(body: &Body, callee: DefId, path: Seq<char>, args: Seq<Operand>, v: StateView, p: ProtocolId)
    requires
        (ends_with(path, "::defer_destroy"@) && contains(path, "Guard"@))
            || ((ends_with(path, "::deref"@) || ends_with(path, "::deref_mut"@) || ends_with(path, "::as_ref"@))
                && contains(path, "Shared"@)),
        v.typestate.contains_key(p),
        v.typestate[p] == ProtocolState::Consumed || v.typestate[p] == ProtocolState::MaybeActive,
    ensures
        match EpochGuard.spec_flag(body, callee, path, args, Some(v)) {
            Some((rule, severity, _)) => rule == "epoch_guard_expired"@ && severity == Severity::Warning,
            None => false,
        },
{
    assert(spec_has_hazard_protocol(v));
}

/// Without a consumed or possibly active protocol nothing is reported.
pub proof fn lemma_no_hazard_no_report(body: &Body, callee: DefId, path: Seq<char>, args: Seq<Operand>, v: StateView)
    requires
        forall|p: ProtocolId| #[trigger] v.typestate.contains_key(p)
            ==> v.typestate[p] != ProtocolState::Consumed && v.typestate[p] != ProtocolState::MaybeActive,
    ensures
        EpochGuard.spec_flag(body, callee, path, args, Some(v)) is None,
        EpochGuard.spec_flag(body, callee, path, args, None) is None,
{
}

} // verus!
