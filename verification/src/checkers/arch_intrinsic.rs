//! Detects calls to CPU architecture intrinsics in `std::arch::*`.

use vstd::prelude::*;
use crate::analysis::dataflow::FlowResults;
use crate::analysis::state::{BlockState, StateView};
use crate::checkers::{CallRule, Finding, Flag, Severity, call_findings, findings_view, opt_chars, run_call_rule, last_segment, path_last_segment};
use crate::mir::{Body, DefId, Operand};
use crate::text::{contains, str_contains};
use vstd::string::StringExecFns;

verus! {

/// Detects calls to CPU architecture intrinsics in `std::arch::*`.
pub struct ArchIntrinsic;

/// The message `ArchIntrinsic` gives a direct call of `path`, if it reports one.
pub open spec fn arch_intrinsic_message(path: Seq<char>) -> Option<Seq<char>> {
    if !(contains(path, "arch::x86"@) || contains(path, "arch::aarch64"@) || contains(path, "arch::arm"@) || contains(path, "arch::wasm"@) || contains(path, "arch::riscv"@) || contains(path, "arch::mips"@) || contains(path, "arch::powerpc"@) || contains(path, "arch::loongarch"@)) {
        None
    } else if contains(path, "x86_64"@) || contains(path, "x86"@) {
        Some("`"@ + last_segment(path) + "` (x86/x86_64 intrinsic) — requires the correct CPU feature to be \
            active (missing feature → SIGILL); pointer-based intrinsics require \
            correct alignment and valid memory; use `is_x86_feature_detected!()` \
            or `#[target_feature(enable)]` to guard"@)
    } else if contains(path, "aarch64"@) {
        Some("`"@ + last_segment(path) + "` (AArch64 intrinsic) — requires the correct CPU feature to be active \
            (missing feature → SIGILL); pointer-based intrinsics require correct \
            alignment and valid memory; use `is_x86_feature_detected!()` or \
            `#[target_feature(enable)]` to guard"@)
    } else if contains(path, "arm"@) {
        Some("`"@ + last_segment(path) + "` (ARM intrinsic) — requires the correct CPU feature to be active \
            (missing feature → SIGILL); pointer-based intrinsics require correct \
            alignment and valid memory; use `is_x86_feature_detected!()` or \
            `#[target_feature(enable)]` to guard"@)
    } else if contains(path, "wasm"@) {
        Some("`"@ + last_segment(path) + "` (Wasm intrinsic) — requires the correct CPU feature to be active \
            (missing feature → SIGILL); pointer-based intrinsics require correct \
            alignment and valid memory; use `is_x86_feature_detected!()` or \
            `#[target_feature(enable)]` to guard"@)
    } else if contains(path, "riscv"@) {
        Some("`"@ + last_segment(path) + "` (RISC-V intrinsic) — requires the correct CPU feature to be active \
            (missing feature → SIGILL); pointer-based intrinsics require correct \
            alignment and valid memory; use `is_x86_feature_detected!()` or \
            `#[target_feature(enable)]` to guard"@)
    } else if contains(path, "powerpc"@) {
        Some("`"@ + last_segment(path) + "` (PowerPC intrinsic) — requires the correct CPU feature to be active \
            (missing feature → SIGILL); pointer-based intrinsics require correct \
            alignment and valid memory; use `is_x86_feature_detected!()` or \
            `#[target_feature(enable)]` to guard"@)
    } else if contains(path, "loongarch"@) {
        Some("`"@ + last_segment(path) + "` (LoongArch intrinsic) — requires the correct CPU feature to be \
            active (missing feature → SIGILL); pointer-based intrinsics require \
            correct alignment and valid memory; use `is_x86_feature_detected!()` \
            or `#[target_feature(enable)]` to guard"@)
    } else {
        Some("`"@ + last_segment(path) + "` (MIPS intrinsic) — requires the correct CPU feature to be active \
            (missing feature → SIGILL); pointer-based intrinsics require correct \
            alignment and valid memory; use `is_x86_feature_detected!()` or \
            `#[target_feature(enable)]` to guard"@)
    }
}

fn arch_intrinsic_message_of(path: &str) -> (r: Option<String>)
    ensures
        opt_chars(r) == arch_intrinsic_message(path@),
{
    if !(str_contains(path, "arch::x86") || str_contains(path, "arch::aarch64") || str_contains(path, "arch::arm") || str_contains(path, "arch::wasm") || str_contains(path, "arch::riscv") || str_contains(path, "arch::mips") || str_contains(path, "arch::powerpc") || str_contains(path, "arch::loongarch")) {
        None
    } else if str_contains(path, "x86_64") || str_contains(path, "x86") {
        Some("`".to_owned().concat(path_last_segment(path)).concat("` (x86/x86_64 intrinsic) — requires the correct CPU feature to be \
            active (missing feature → SIGILL); pointer-based intrinsics require \
            correct alignment and valid memory; use `is_x86_feature_detected!()` \
            or `#[target_feature(enable)]` to guard"))
    } else if str_contains(path, "aarch64") {
        Some("`".to_owned().concat(path_last_segment(path)).concat("` (AArch64 intrinsic) — requires the correct CPU feature to be active \
            (missing feature → SIGILL); pointer-based intrinsics require correct \
            alignment and valid memory; use `is_x86_feature_detected!()` or \
            `#[target_feature(enable)]` to guard"))
    } else if str_contains(path, "arm") {
        Some("`".to_owned().concat(path_last_segment(path)).concat("` (ARM intrinsic) — requires the correct CPU feature to be active \
            (missing feature → SIGILL); pointer-based intrinsics require correct \
            alignment and valid memory; use `is_x86_feature_detected!()` or \
            `#[target_feature(enable)]` to guard"))
    } else if str_contains(path, "wasm") {
        Some("`".to_owned().concat(path_last_segment(path)).concat("` (Wasm intrinsic) — requires the correct CPU feature to be active \
            (missing feature → SIGILL); pointer-based intrinsics require correct \
            alignment and valid memory; use `is_x86_feature_detected!()` or \
            `#[target_feature(enable)]` to guard"))
    } else if str_contains(path, "riscv") {
        Some("`".to_owned().concat(path_last_segment(path)).concat("` (RISC-V intrinsic) — requires the correct CPU feature to be active \
            (missing feature → SIGILL); pointer-based intrinsics require correct \
            alignment and valid memory; use `is_x86_feature_detected!()` or \
            `#[target_feature(enable)]` to guard"))
    } else if str_contains(path, "powerpc") {
        Some("`".to_owned().concat(path_last_segment(path)).concat("` (PowerPC intrinsic) — requires the correct CPU feature to be active \
            (missing feature → SIGILL); pointer-based intrinsics require correct \
            alignment and valid memory; use `is_x86_feature_detected!()` or \
            `#[target_feature(enable)]` to guard"))
    } else if str_contains(path, "loongarch") {
        Some("`".to_owned().concat(path_last_segment(path)).concat("` (LoongArch intrinsic) — requires the correct CPU feature to be \
            active (missing feature → SIGILL); pointer-based intrinsics require \
            correct alignment and valid memory; use `is_x86_feature_detected!()` \
            or `#[target_feature(enable)]` to guard"))
    } else {
        Some("`".to_owned().concat(path_last_segment(path)).concat("` (MIPS intrinsic) — requires the correct CPU feature to be active \
            (missing feature → SIGILL); pointer-based intrinsics require correct \
            alignment and valid memory; use `is_x86_feature_detected!()` or \
            `#[target_feature(enable)]` to guard"))
    }
}

impl CallRule for ArchIntrinsic {
    open spec fn spec_uses_state(&self) -> bool {
        false
    }

    open spec fn spec_flag(&self, body: &Body, callee: DefId, path: Seq<char>, args: Seq<Operand>, pre: Option<StateView>)
        -> Option<(Seq<char>, Severity, Seq<char>)>
    {
        match arch_intrinsic_message(path) {
            Some(m) => Some(("arch_intrinsic"@, Severity::Warning, m)),
            None => None,
        }
    }

    fn uses_state(&self) -> (r: bool) {
        false
    }

    fn flag(&self, body: &Body, callee: DefId, path: &str, args: &Vec<Operand>, pre: &Option<BlockState>) -> (r: Option<Flag>) {
        match arch_intrinsic_message_of(path) {
            Some(m) => Some(("arch_intrinsic", Severity::Warning, m)),
            None => None,
        }
    }
}

impl ArchIntrinsic {
    /// Reports, in block order, each direct call in `body` that
    /// `arch_intrinsic_message` gives a message for.
    pub fn check(&self, body: &Body, flow: &FlowResults) -> (r: Vec<Finding>)
        requires
            body.basic_blocks@.len() <= 0x1_0000_0000,
        ensures
            findings_view(r@) == call_findings(self, body, flow.entry_states@, body.basic_blocks@.len() as int),
    {
        run_call_rule(self, body, flow)
    }
}

} // verus!
