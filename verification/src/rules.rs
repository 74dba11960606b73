//! The detection rules, stated as one specification-level interpreter of
//! a source file: for a given file context and syntax tree it defines the
//! exact sequences of vulnerabilities, warnings and informational items
//! the visitor engine emits, the per-function state it carries, and the
//! line it reports each finding at. The executable engine in `visitor` is
//! verified against these functions clause by clause.

use vstd::prelude::*;
use crate::findings::{Severity, LocationV, VulnerabilityV, WarningV, InfoV};
use crate::syntax::{BinOp, ExprKind, Expr, Function, AttrDecl, FieldDecl, Record, EnumDecl,
    Group, Item, SourceFile};
use crate::text::{contains_seq, resolve_line, split_comma, dec_str};

verus! {

/// The per-file context: file name, file text, and the run-wide
/// overflow-checking fact.
#[verifier::ext_equal]
pub struct Ctx {
    pub file: Seq<char>,
    pub content: Seq<char>,
    pub overflow_checks: bool,
}

/// The transient per-function state, reset at function entry and
/// discarded at function exit.
#[verifier::ext_equal]
pub struct FnStateV {
    pub is_init: bool,
    pub has_bump: bool,
    pub rem_access: bool,
    pub rem_valid: bool,
    pub cpi: bool,
    pub accessed: Seq<Seq<char>>,
    pub bump_suspect: bool,
}

impl FnStateV {
    /// The state a function starts in, after classification of its name
    /// and parameters.
    pub open spec fn entry(is_init: bool, has_bump: bool) -> FnStateV {
        FnStateV {
            is_init,
            has_bump,
            rem_access: false,
            rem_valid: false,
            cpi: false,
            accessed: Seq::empty(),
            bump_suspect: false,
        }
    }
}

/// Findings emitted by a stretch of the traversal, per sink, in order.
#[verifier::ext_equal]
pub struct Emits {
    pub vulns: Seq<VulnerabilityV>,
    pub warns: Seq<WarningV>,
    pub infos: Seq<InfoV>,
}

impl Emits {
    pub open spec fn none() -> Emits {
        Emits { vulns: Seq::empty(), warns: Seq::empty(), infos: Seq::empty() }
    }

    pub open spec fn plus(self, o: Emits) -> Emits {
        Emits {
            vulns: self.vulns + o.vulns,
            warns: self.warns + o.warns,
            infos: self.infos + o.infos,
        }
    }

    pub open spec fn just_vuln(v: VulnerabilityV) -> Emits {
        Emits { vulns: seq![v], warns: Seq::empty(), infos: Seq::empty() }
    }

    pub open spec fn just_warn(w: WarningV) -> Emits {
        Emits { vulns: Seq::empty(), warns: seq![w], infos: Seq::empty() }
    }

    pub open spec fn just_info(i: InfoV) -> Emits {
        Emits { vulns: Seq::empty(), warns: Seq::empty(), infos: seq![i] }
    }
}

/// The location a finding is recorded at: the current line, column 0.
pub open spec fn at(ctx: Ctx, line: nat) -> LocationV {
    LocationV { file: ctx.file, line, column: 0 }
}

pub open spec fn vuln_at(ctx: Ctx, line: nat, severity: Severity, d: Seq<char>, s: Seq<char>)
    -> VulnerabilityV {
    VulnerabilityV { severity, description: d, location: at(ctx, line), suggestion: s }
}

pub open spec fn warn_at(ctx: Ctx, line: nat, d: Seq<char>, s: Seq<char>) -> WarningV {
    WarningV { description: d, location: at(ctx, line), suggestion: s }
}

pub open spec fn info_at(ctx: Ctx, line: nat, d: Seq<char>) -> InfoV {
    InfoV { description: d, location: at(ctx, line) }
}

/// A function name marks an initialization function.
pub open spec fn is_init_name(name: Seq<char>) -> bool {
    contains_seq(name, "initialize"@) || contains_seq(name, "init"@) || contains_seq(
        name,
        "create"@,
    )
}

/// Some declared parameter name contains `bump`.
pub open spec fn params_have_bump(params: Seq<Seq<char>>) -> bool {
    exists|i: int| 0 <= i < params.len() && contains_seq(params[i], "bump"@)
}

/// A rendered function body carries a reinitialization check: it mentions
/// `is_initialized` together with an `if` or an `assert`.
pub open spec fn body_has_init_check(body_text: Seq<char>) -> bool {
    contains_seq(body_text, "is_initialized"@) && (contains_seq(body_text, "if"@)
        || contains_seq(body_text, "assert"@))
}

// ---------------------------------------------------------------------
// Expression checks
// ---------------------------------------------------------------------

/// Reinitialization-guard notes, emitted only inside an init-like
/// function: an `if` on `is_initialized`, or an assert/require whose
/// arguments mention it.
pub open spec fn guard_emits(ctx: Ctx, line: nat, st: FnStateV, e: Expr) -> Emits {
    if !st.is_init {
        Emits::none()
    } else {
        match e.kind {
            ExprKind::Conditional { cond_text } => if contains_seq(
                cond_text@,
                "is_initialized"@,
            ) {
                Emits::just_info(
                    info_at(
                        ctx,
                        line,
                        "Detected is_initialized check to prevent reinitialization"@,
                    ),
                )
            } else {
                Emits::none()
            },
            ExprKind::Call { callee_text, args_text } => if (contains_seq(
                callee_text@,
                "assert"@,
            ) || contains_seq(callee_text@, "require"@)) && contains_seq(
                args_text@,
                "is_initialized"@,
            ) {
                Emits::just_info(
                    info_at(
                        ctx,
                        line,
                        "Detected is_initialized assertion to prevent reinitialization"@,
                    ),
                )
            } else {
                Emits::none()
            },
            _ => Emits::none(),
        }
    }
}

/// How one expression node changes the per-function state: recorded
/// accesses after a CPI, `remaining_accounts` access, bump-seed
/// suspicion, and whether a CPI was performed.
pub open spec fn issues_state(st: FnStateV, e: Expr) -> FnStateV {
    match e.kind {
        ExprKind::FieldAccess { member, base_is_path } => {
            let st1 = if st.cpi && member@ != "reload"@ {
                FnStateV { accessed: st.accessed.push(e.text@), ..st }
            } else {
                st
            };
            if base_is_path && member@ == "remaining_accounts"@ {
                FnStateV { rem_access: true, ..st1 }
            } else {
                st1
            }
        },
        ExprKind::MethodCall { method, receiver_text } => {
            let st1 = if st.cpi && method@ != "reload"@ {
                FnStateV { accessed: st.accessed.push(receiver_text@), ..st }
            } else {
                st
            };
            let st2 = if contains_seq(receiver_text@, "remaining_accounts"@) {
                FnStateV { rem_access: true, ..st1 }
            } else {
                st1
            };
            if method@ == "create_program_address"@ && st.has_bump {
                FnStateV { bump_suspect: true, ..st2 }
            } else {
                st2
            }
        },
        ExprKind::Call { callee_text, args_text } => if contains_seq(callee_text@, "invoke"@)
            || contains_seq(callee_text@, "CpiContext"@) {
            FnStateV { cpi: true, ..st }
        } else {
            st
        },
        _ => st,
    }
}

/// What one expression node emits irrespective of state: unchecked-cast
/// and cross-program-invocation findings.
pub open spec fn issues_emits(ctx: Ctx, line: nat, e: Expr) -> Emits {
    match e.kind {
        ExprKind::Cast { target_type } => if contains_seq(target_type@, "AccountInfo"@) {
            Emits::just_warn(
                warn_at(
                    ctx,
                    line,
                    "Casting to AccountInfo - ensure proper validation"@,
                    "Validate the account before and after casting to AccountInfo"@,
                ),
            )
        } else {
            Emits::none()
        },
        ExprKind::Call { callee_text, args_text } => {
            let o1 = if contains_seq(callee_text@, "invoke"@) {
                Emits::just_vuln(
                    vuln_at(
                        ctx,
                        line,
                        Severity::Critical,
                        "Potential arbitrary CPI vulnerability detected"@,
                        "Verify the program ID of the target program before invoking a cross-program call. Use `if target_program.key() != expected_program_id { return Err(...) }` to validate."@,
                    ),
                )
            } else {
                Emits::none()
            };
            let o2 = if contains_seq(callee_text@, "CpiContext"@) {
                Emits::just_warn(
                    warn_at(
                        ctx,
                        line,
                        "Cross-Program Invocation detected - ensure proper program validation"@,
                        "Validate the program ID and all accounts passed to the CPI before invoking. Use Program<'info, T> instead of AccountInfo for program accounts."@,
                    ),
                )
            } else {
                Emits::none()
            };
            let o3 = if contains_seq(callee_text@, "create_program_address"@) && !contains_seq(
                callee_text@,
                "find_program_address"@,
            ) {
                Emits::just_warn(
                    warn_at(
                        ctx,
                        line,
                        "Using create_program_address directly may lead to non-canonical bump usage"@,
                        "Use find_program_address to get the canonical bump first, or validate that you're using the canonical bump."@,
                    ),
                )
            } else {
                Emits::none()
            };
            o1.plus(o2).plus(o3)
        },
        _ => Emits::none(),
    }
}

/// Whether one expression node counts as validation of remaining
/// accounts: an equality whose left operand reads `owner` or `key`, or a
/// method call whose name suggests a check.
pub open spec fn validation_state(st: FnStateV, e: Expr) -> FnStateV {
    match e.kind {
        ExprKind::Binary { op } => if op == BinOp::Eq && e.children@.len() >= 1 {
            match e.children@[0].kind {
                ExprKind::FieldAccess { member, base_is_path } => if member@ == "owner"@
                    || member@ == "key"@ {
                    FnStateV { rem_valid: true, ..st }
                } else {
                    st
                },
                _ => st,
            }
        } else {
            st
        },
        ExprKind::MethodCall { method, receiver_text } => if contains_seq(method@, "check"@)
            || contains_seq(method@, "verify"@) || contains_seq(method@, "validate"@)
            || contains_seq(method@, "assert"@) {
            FnStateV { rem_valid: true, ..st }
        } else {
            st
        },
        _ => st,
    }
}

pub open spec fn is_arith(op: BinOp) -> bool {
    op == BinOp::Add || op == BinOp::Sub || op == BinOp::Mul
}

pub open spec fn op_text(op: BinOp) -> Seq<char> {
    if op == BinOp::Add {
        "addition"@
    } else if op == BinOp::Sub {
        "subtraction"@
    } else {
        "multiplication"@
    }
}

pub open spec fn arith_vuln_desc(op: BinOp) -> Seq<char> {
    "Potential arithmetic overflow/underflow detected in "@ + op_text(op) + " operation"@
}

pub open spec fn arith_info_desc(op: BinOp) -> Seq<char> {
    "Arithmetic operation with runtime overflow protection: "@ + op_text(op) + " operation"@
}

pub open spec fn large_literal_desc(value: u64) -> Seq<char> {
    "Large integer literal detected: "@ + dec_str(value as nat)
}

/// Arithmetic and large-literal findings of one expression node: an
/// add/sub/mul is a High vulnerability without the overflow-checking
/// fact and an informational note with it, never both; an integer
/// literal beyond the 32-bit unsigned maximum is a warning.
pub open spec fn arith_emits(ctx: Ctx, line: nat, e: Expr) -> Emits {
    match e.kind {
        ExprKind::Binary { op } => if is_arith(op) {
            if !ctx.overflow_checks {
                Emits::just_vuln(
                    vuln_at(
                        ctx,
                        line,
                        Severity::High,
                        arith_vuln_desc(op),
                        "Use checked arithmetic operations (checked_add, checked_sub, checked_mul) or enable overflow-checks = true in Cargo.toml"@,
                    ),
                )
            } else {
                Emits::just_info(info_at(ctx, line, arith_info_desc(op)))
            }
        } else {
            Emits::none()
        },
        ExprKind::IntLit { value } => match value {
            Some(v) => if v > 0xffff_ffffu64 {
                Emits::just_warn(
                    warn_at(
                        ctx,
                        line,
                        large_literal_desc(v),
                        "Consider using a smaller integer type or implementing proper overflow checks"@,
                    ),
                )
            } else {
                Emits::none()
            },
            None => Emits::none(),
        },
        _ => Emits::none(),
    }
}

/// One step of the expression traversal: the line after it, the state
/// after it, and everything it emitted.
#[verifier::ext_equal]
pub struct ExprStep {
    pub line: nat,
    pub st: FnStateV,
    pub out: Emits,
}

/// Visits one expression node: resolves its line, applies the guard,
/// issue, validation and arithmetic checks in that order, then its
/// children in source order.
pub open spec fn visit_expr_spec(ctx: Ctx, line: nat, st: FnStateV, e: Expr) -> ExprStep
    decreases e,
{
    let l1 = resolve_line(ctx.content, e.text@, line);
    let o_guard = guard_emits(ctx, l1, st, e);
    let st1 = issues_state(st, e);
    let o_issues = issues_emits(ctx, l1, e);
    let st2 = validation_state(st1, e);
    let o_arith = arith_emits(ctx, l1, e);
    let rec = visit_exprs_spec(ctx, l1, st2, e.children@);
    ExprStep {
        line: rec.line,
        st: rec.st,
        out: o_guard.plus(o_issues).plus(o_arith).plus(rec.out),
    }
}

/// Visits a sequence of expressions in order, threading line and state.
pub open spec fn visit_exprs_spec(ctx: Ctx, line: nat, st: FnStateV, es: Seq<Expr>) -> ExprStep
    decreases es,
{
    if es.len() == 0 {
        ExprStep { line, st, out: Emits::none() }
    } else {
        let butlast = visit_exprs_spec(ctx, line, st, es.drop_last());
        let last = visit_expr_spec(ctx, butlast.line, butlast.st, es.last());
        ExprStep { line: last.line, st: last.st, out: butlast.out.plus(last.out) }
    }
}

// ---------------------------------------------------------------------
// Function checks
// ---------------------------------------------------------------------

/// Advisory warnings drawn from the function name alone.
pub open spec fn name_warn_emits(ctx: Ctx, line: nat, name: Seq<char>) -> Emits {
    let o1 = if contains_seq(name, "validate"@) {
        Emits::just_warn(
            warn_at(
                ctx,
                line,
                "Function contains 'validate' in name - ensure proper validation"@,
                "Consider using Anchor's built-in validation attributes"@,
            ),
        )
    } else {
        Emits::none()
    };
    let o2 = if contains_seq(name, "error"@) {
        Emits::just_warn(
            warn_at(
                ctx,
                line,
                "Function contains 'error' in name - ensure proper error handling"@,
                "Use Anchor's error handling macros and proper error types"@,
            ),
        )
    } else {
        Emits::none()
    };
    let o3 = if contains_seq(name, "access"@) {
        Emits::just_warn(
            warn_at(
                ctx,
                line,
                "Function contains 'access' in name - ensure proper access control"@,
                "Implement proper access control checks using Anchor's constraints"@,
            ),
        )
    } else {
        Emits::none()
    };
    o1.plus(o2).plus(o3)
}

/// The findings a function's exit checks emit, in their fixed order:
/// unvalidated remaining-accounts access, a missing reinitialization
/// check, account data accessed after a CPI, and a suspected
/// non-canonical bump.
pub open spec fn exit_emits(ctx: Ctx, line: nat, st: FnStateV, body_text: Seq<char>) -> Emits {
    let o1 = if st.rem_access && !st.rem_valid {
        Emits::just_vuln(
            vuln_at(
                ctx,
                line,
                Severity::High,
                "Accessing remaining_accounts without proper validation"@,
                "Always validate remaining accounts before using them. Check account ownership, type, and other constraints."@,
            ),
        )
    } else {
        Emits::none()
    };
    let o2 = if st.is_init && !body_has_init_check(body_text) {
        Emits::just_vuln(
            vuln_at(
                ctx,
                line,
                Severity::High,
                "Initialization function without reinitialization check"@,
                "Add an is_initialized check to prevent reinitialization attacks. In native Rust, verify an is_initialized flag before setting data. In Anchor, use the init constraint."@,
            ),
        )
    } else {
        Emits::none()
    };
    let o3 = if st.cpi && st.accessed.len() > 0 {
        Emits::just_vuln(
            vuln_at(
                ctx,
                line,
                Severity::Critical,
                "Account data accessed after CPI without reload()"@,
                "After performing a CPI, call account.reload() before accessing account data to prevent tampering. Other programs can modify account data during a CPI."@,
            ),
        )
    } else {
        Emits::none()
    };
    let o4 = if st.bump_suspect && st.has_bump {
        Emits::just_vuln(
            vuln_at(
                ctx,
                line,
                Severity::Critical,
                "Possible bump seed canonicalization vulnerability detected"@,
                "Always use Pubkey::find_program_address() instead of create_program_address() to ensure canonical bump is used, or validate any user-provided bump against the canonical bump."@,
            ),
        )
    } else {
        Emits::none()
    };
    o1.plus(o2).plus(o3).plus(o4)
}

/// One step of the item traversal: the line after it and what it emitted.
#[verifier::ext_equal]
pub struct ItemStep {
    pub line: nat,
    pub out: Emits,
}

/// Visits one function: fresh state from its name and parameters, the
/// name-based warnings, the body walk, then the exit checks at the line
/// the body walk ended on.
pub open spec fn visit_function_spec(ctx: Ctx, line: nat, f: Function) -> ItemStep {
    let l1 = resolve_line(ctx.content, f.text@, line);
    let st0 = FnStateV::entry(is_init_name(f.name@), params_have_bump(f.params.deep_view()));
    let o_name = name_warn_emits(ctx, l1, f.name@);
    let body = visit_exprs_spec(ctx, l1, st0, f.body@);
    let o_exit = exit_emits(ctx, body.line, body.st, f.body_text@);
    ItemStep { line: body.line, out: o_name.plus(body.out).plus(o_exit) }
}

// ---------------------------------------------------------------------
// Record checks
// ---------------------------------------------------------------------

/// Some attribute's text contains the needle.
pub open spec fn attrs_contain(attrs: Seq<AttrDecl>, needle: Seq<char>) -> bool {
    exists|i: int| 0 <= i < attrs.len() && contains_seq(attrs[i].text@, needle)
}

/// The record is an accounts struct: some attribute mentions `Accounts`.
pub open spec fn is_accounts_struct(attrs: Seq<AttrDecl>) -> bool {
    attrs_contain(attrs, "Accounts"@)
}

/// Some attribute marks the field as constrained.
pub open spec fn has_constraints(attrs: Seq<AttrDecl>) -> bool {
    exists|i: int|
        0 <= i < attrs.len() && (contains_seq(attrs[i].text@, "account"@) || contains_seq(
            attrs[i].text@,
            "signer"@,
        ) || contains_seq(attrs[i].text@, "constraint"@) || contains_seq(
            attrs[i].text@,
            "owner"@,
        ))
}

/// The field name suggests a program reference.
pub open spec fn is_program_name(name: Seq<char>) -> bool {
    contains_seq(name, "program"@) || contains_seq(name, "Program"@)
}

/// Findings for an unchecked-account-typed field of an accounts struct.
pub open spec fn account_info_emits(ctx: Ctx, line: nat, f: FieldDecl, struct_name: Seq<char>)
    -> Emits {
    if contains_seq(f.type_text@, "AccountInfo"@) {
        if !has_constraints(f.attrs@) {
            if is_program_name(f.name@) {
                Emits::just_vuln(
                    vuln_at(
                        ctx,
                        line,
                        Severity::Critical,
                        "Unchecked program AccountInfo in struct "@ + struct_name
                            + ": field "@ + f.name@
                            + " - potential arbitrary CPI vulnerability"@,
                        "Use Program<'info, T> instead of AccountInfo for program accounts to automatically validate program IDs, or add explicit validation checks."@,
                    ),
                )
            } else {
                Emits::just_vuln(
                    vuln_at(
                        ctx,
                        line,
                        Severity::High,
                        "Unchecked AccountInfo in struct "@ + struct_name + ": field "@
                            + f.name@,
                        "Add proper constraints to AccountInfo fields using Anchor attributes (e.g., #[account(...)])."@,
                    ),
                )
            }
        } else if is_program_name(f.name@) {
            Emits::just_warn(
                warn_at(
                    ctx,
                    line,
                    "Program account "@ + f.name@
                        + " uses AccountInfo - consider stronger validation"@,
                    "Use Program<'info, T> or add explicit program ID verification in your code."@,
                ),
            )
        } else {
            Emits::none()
        }
    } else {
        Emits::none()
    }
}

/// Bump-seed findings of one `account` attribute: seeds without a bump
/// constraint, and explicit bump values (a literal 0, 1 or 2 is
/// critical; any other explicit value a warning; `bump = bump` and
/// `bump = data.bump` pass).
pub open spec fn bump_attr_emits_one(ctx: Ctx, line: nat, a: AttrDecl) -> Emits {
    if !a.is_account_attr {
        Emits::none()
    } else {
        let t = a.text@;
        let o1 = if contains_seq(t, "seeds"@) && !contains_seq(t, "bump"@) {
            Emits::just_warn(
                warn_at(
                    ctx,
                    line,
                    "PDA seeds constraint without bump constraint"@,
                    "When using the seeds constraint, also specify a bump constraint to ensure canonical bump is used."@,
                ),
            )
        } else {
            Emits::none()
        };
        let o2 = if contains_seq(t, "bump ="@) && !contains_seq(t, "bump = bump"@)
            && !contains_seq(t, "bump = data.bump"@) {
            if contains_seq(t, "bump = 0"@) || contains_seq(t, "bump = 1"@) || contains_seq(
                t,
                "bump = 2"@,
            ) {
                Emits::just_vuln(
                    vuln_at(
                        ctx,
                        line,
                        Severity::Critical,
                        "Hardcoded non-canonical bump value detected"@,
                        "Using a hardcoded bump value risks using a non-canonical bump. Use bump without a value to derive canonical bump, or use bump = data.bump to reference stored canonical bump."@,
                    ),
                )
            } else {
                Emits::just_warn(
                    warn_at(
                        ctx,
                        line,
                        "Custom bump value in anchor constraint"@,
                        "Ensure this bump value is the canonical bump, preferably stored from find_program_address() result."@,
                    ),
                )
            }
        } else {
            Emits::none()
        };
        o1.plus(o2)
    }
}

pub open spec fn bump_attr_emits(ctx: Ctx, line: nat, attrs: Seq<AttrDecl>) -> Emits
    decreases attrs,
{
    if attrs.len() == 0 {
        Emits::none()
    } else {
        bump_attr_emits(ctx, line, attrs.drop_last()).plus(
            bump_attr_emits_one(ctx, line, attrs.last()),
        )
    }
}

/// Findings for a typed-account-wrapper field of an accounts struct:
/// missing owner constraint, space without init, init-if-needed caution,
/// and the bump-seed inspection of its `account` attributes.
pub open spec fn account_wrapper_emits(ctx: Ctx, line: nat, f: FieldDecl, struct_name: Seq<
    char,
>) -> Emits {
    if contains_seq(f.type_text@, "Account<"@) {
        let o1 = if !attrs_contain(f.attrs@, "owner"@) {
            Emits::just_warn(
                warn_at(
                    ctx,
                    line,
                    "Missing owner check for Account in struct "@ + struct_name + ": field "@
                        + f.name@,
                    "Add #[account(owner = <PROGRAM_ID>)] to ensure the account is owned by the expected program."@,
                ),
            )
        } else {
            Emits::none()
        };
        let o2 = if attrs_contain(f.attrs@, "space"@) && !attrs_contain(f.attrs@, "init"@) {
            Emits::just_warn(
                warn_at(
                    ctx,
                    line,
                    "Account space specified without init constraint in struct "@ + struct_name
                        + ": field "@ + f.name@,
                    "Add the init constraint when specifying space: #[account(init, space = ...)]"@,
                ),
            )
        } else {
            Emits::none()
        };
        let o3 = if attrs_contain(f.attrs@, "init_if_needed"@) {
            Emits::just_warn(
                warn_at(
                    ctx,
                    line,
                    "Using init_if_needed in struct "@ + struct_name + ": field "@ + f.name@,
                    "init_if_needed can be risky. Ensure the instruction handler includes checks to prevent resetting the account to its initial state."@,
                ),
            )
        } else {
            Emits::none()
        };
        o1.plus(o2).plus(o3).plus(bump_attr_emits(ctx, line, f.attrs@))
    } else {
        Emits::none()
    }
}

/// An attribute text has a comma-separated part that says `init` but not
/// `init_if_needed`.
pub open spec fn has_bare_init_part(t: Seq<char>) -> bool {
    exists|i: int|
        0 <= i < split_comma(t).len() && contains_seq(split_comma(t)[i], "init"@)
            && !contains_seq(split_comma(t)[i], "init_if_needed"@)
}

/// The field looks like an associated token account, judged from one
/// attribute's text and the field name.
pub open spec fn is_ata_field(t: Seq<char>, field_name: Seq<char>) -> bool {
    contains_seq(t, "associated_token::"@) || contains_seq(field_name, "ata"@) || contains_seq(
        field_name,
        "token_account"@,
    ) || contains_seq(field_name, "tokenAccount"@)
}

/// Associated-token-account findings of one attribute; resolves the
/// attribute's own line first.
pub open spec fn ata_attr_step(ctx: Ctx, line: nat, a: AttrDecl, field_name: Seq<char>)
    -> ItemStep {
    if !a.is_account_attr {
        ItemStep { line, out: Emits::none() }
    } else {
        let l1 = resolve_line(ctx.content, a.text@, line);
        let t = a.text@;
        let out = if is_ata_field(t, field_name) && has_bare_init_part(t) && !contains_seq(
            t,
            "init_if_needed"@,
        ) {
            Emits::just_vuln(
                vuln_at(
                    ctx,
                    l1,
                    Severity::Critical,
                    "Associated Token Account '"@ + field_name
                        + "' initialized with 'init' constraint instead of 'init_if_needed'"@,
                    "Use 'init_if_needed' for Associated Token Accounts to handle cases where users already have ATAs created. Using 'init' will fail if the account already exists."@,
                ),
            )
        } else {
            Emits::none()
        };
        ItemStep { line: l1, out }
    }
}

pub open spec fn ata_attrs_step(ctx: Ctx, line: nat, attrs: Seq<AttrDecl>, field_name: Seq<
    char,
>) -> ItemStep
    decreases attrs,
{
    if attrs.len() == 0 {
        ItemStep { line, out: Emits::none() }
    } else {
        let butlast = ata_attrs_step(ctx, line, attrs.drop_last(), field_name);
        let last = ata_attr_step(ctx, butlast.line, attrs.last(), field_name);
        ItemStep { line: last.line, out: butlast.out.plus(last.out) }
    }
}

/// Visits one field of an accounts struct: resolves its line, applies
/// the unchecked-account and typed-account checks, then the
/// associated-token-account check per attribute.
pub open spec fn visit_field_spec(ctx: Ctx, line: nat, f: FieldDecl, struct_name: Seq<char>)
    -> ItemStep {
    let l1 = resolve_line(ctx.content, f.text@, line);
    let o1 = account_info_emits(ctx, l1, f, struct_name);
    let o2 = account_wrapper_emits(ctx, l1, f, struct_name);
    let ata = ata_attrs_step(ctx, l1, f.attrs@, f.name@);
    ItemStep { line: ata.line, out: o1.plus(o2).plus(ata.out) }
}

pub open spec fn visit_fields_spec(ctx: Ctx, line: nat, fields: Seq<FieldDecl>,
    struct_name: Seq<char>) -> ItemStep
    decreases fields,
{
    if fields.len() == 0 {
        ItemStep { line, out: Emits::none() }
    } else {
        let butlast = visit_fields_spec(ctx, line, fields.drop_last(), struct_name);
        let last = visit_field_spec(ctx, butlast.line, fields.last(), struct_name);
        ItemStep { line: last.line, out: butlast.out.plus(last.out) }
    }
}

/// A boolean field literally named `is_initialized` exists.
pub open spec fn has_is_initialized_field(fields: Seq<FieldDecl>) -> bool {
    exists|i: int|
        0 <= i < fields.len() && fields[i].name@ == "is_initialized"@ && contains_seq(
            fields[i].type_text@,
            "bool"@,
        )
}

/// Visits one record: an accounts struct has each field checked; a
/// record whose name says `Account` is noted, and, when it is not an
/// accounts struct, warned about a missing `is_initialized` field.
pub open spec fn visit_record_spec(ctx: Ctx, line: nat, r: Record) -> ItemStep {
    let l1 = resolve_line(ctx.content, r.text@, line);
    let accounts = is_accounts_struct(r.attrs@);
    let head = if accounts {
        Emits::just_info(info_at(ctx, l1, "Anchor Accounts struct detected: "@ + r.name@))
    } else {
        Emits::none()
    };
    let fields = if accounts {
        visit_fields_spec(ctx, l1, r.fields@, r.name@)
    } else {
        ItemStep { line: l1, out: Emits::none() }
    };
    let tail = if contains_seq(r.name@, "Account"@) {
        let o1 = Emits::just_info(
            info_at(ctx, fields.line, "Account struct detected - ensure proper validation"@),
        );
        let o2 = if !has_is_initialized_field(r.fields@) && !accounts {
            Emits::just_warn(
                warn_at(
                    ctx,
                    fields.line,
                    "Account struct "@ + r.name@ + " missing is_initialized field"@,
                    "Add an is_initialized: bool field to account structs to prevent reinitialization attacks"@,
                ),
            )
        } else {
            Emits::none()
        };
        o1.plus(o2)
    } else {
        Emits::none()
    };
    ItemStep { line: fields.line, out: head.plus(fields.out).plus(tail) }
}

/// Visits one enum: a name that says `Error` is noted.
pub open spec fn visit_enum_spec(ctx: Ctx, line: nat, e: EnumDecl) -> ItemStep {
    let l1 = resolve_line(ctx.content, e.text@, line);
    let out = if contains_seq(e.name@, "Error"@) {
        Emits::just_info(info_at(ctx, l1, "Error enum detected - ensure proper error handling"@))
    } else {
        Emits::none()
    };
    ItemStep { line: l1, out }
}

/// Visits one item: functions, records and enums get their dedicated
/// checks; grouped items are recursed into transparently.
pub open spec fn visit_item_spec(ctx: Ctx, line: nat, item: Item) -> ItemStep
    decreases item,
{
    match item {
        Item::Func(f) => visit_function_spec(ctx, line, f),
        Item::Rec(r) => visit_record_spec(ctx, line, r),
        Item::Enumeration(e) => visit_enum_spec(ctx, line, e),
        Item::Grouped(g) => {
            let l1 = resolve_line(ctx.content, g.text@, line);
            visit_items_spec(ctx, l1, g.items@)
        },
    }
}

pub open spec fn visit_items_spec(ctx: Ctx, line: nat, items: Seq<Item>) -> ItemStep
    decreases items,
{
    if items.len() == 0 {
        ItemStep { line, out: Emits::none() }
    } else {
        let butlast = visit_items_spec(ctx, line, items.drop_last());
        let last = visit_item_spec(ctx, butlast.line, items.last());
        ItemStep { line: last.line, out: butlast.out.plus(last.out) }
    }
}

/// Everything visiting one parsed file emits, starting at line 0 (the
/// unknown line).
pub open spec fn visit_file_spec(ctx: Ctx, file: SourceFile) -> ItemStep {
    visit_items_spec(ctx, 0, file.items@)
}

} // verus!
