//! The visitor engine: walks one file's syntax tree and emits findings
//! into the shared analysis result. Every method is verified against the
//! specification interpreter in `rules`: the engine appends exactly the
//! findings the interpreter defines, in the same order, with the same
//! per-function state and the same best-effort lines.

use vstd::prelude::*;
use crate::findings::{Severity, Location, AnalysisResult};
use crate::syntax::{BinOp, ExprKind, Expr, Function, AttrDecl, FieldDecl, Record, EnumDecl,
    Item, SourceFile};
use crate::text::{chars_of, str_contains, str_eq, resolve_line_exec, split_comma_exec,
    vec_contains, split_comma, concat2, concat3, concat4, concat5, u64_to_string};
use crate::rules::{Ctx, FnStateV, Emits, at, guard_emits, issues_state,
    issues_emits, validation_state, arith_emits, visit_expr_spec, visit_exprs_spec,
    name_warn_emits, exit_emits, visit_function_spec, account_info_emits,
    account_wrapper_emits, bump_attr_emits, bump_attr_emits_one, ata_attr_step,
    ata_attrs_step, visit_field_spec, visit_fields_spec, visit_record_spec, visit_enum_spec,
    visit_item_spec, visit_items_spec, is_init_name, params_have_bump, attrs_contain,
    has_constraints, has_is_initialized_field, has_bare_init_part, op_text};
use crate::text::{resolve_line, contains_seq};

verus! {

/// The result grew by exactly `out`, in order, and the catalog is
/// untouched.
pub open spec fn result_extended(pre: AnalysisResult, post: AnalysisResult, out: Emits) -> bool {
    &&& post.vulnerabilities.deep_view() == pre.vulnerabilities.deep_view() + out.vulns
    &&& post.warnings.deep_view() == pre.warnings.deep_view() + out.warns
    &&& post.info.deep_view() == pre.info.deep_view() + out.infos
    &&& post.vulnerability_descriptions == pre.vulnerability_descriptions
}

/// The transient per-function state, owned by the function-visiting
/// routine: constructed fresh at function entry and dropped at exit, so
/// nothing leaks between sibling functions.
pub struct FnState {
    pub is_init: bool,
    pub has_bump: bool,
    pub rem_access: bool,
    pub rem_valid: bool,
    pub cpi: bool,
    pub accessed: Vec<String>,
    pub bump_suspect: bool,
}

impl View for FnState {
    type V = FnStateV;

    open spec fn view(&self) -> FnStateV {
        FnStateV {
            is_init: self.is_init,
            has_bump: self.has_bump,
            rem_access: self.rem_access,
            rem_valid: self.rem_valid,
            cpi: self.cpi,
            accessed: self.accessed.deep_view(),
            bump_suspect: self.bump_suspect,
        }
    }
}

/// The per-file visitor: file name, file text (as characters, for line
/// resolution), the overflow-checking fact, and the current line.
/// One instance is created per file and discarded after it.
pub struct AnchorVisitor {
    pub current_file: String,
    pub file_chars: Vec<char>,
    pub has_overflow_checks: bool,
    pub current_line: usize,
}

impl AnchorVisitor {
    /// The file context the specification interpreter runs in.
    pub open spec fn ctx(&self) -> Ctx {
        Ctx {
            file: self.current_file@,
            content: self.file_chars@,
            overflow_checks: self.has_overflow_checks,
        }
    }

    pub open spec fn wf(&self) -> bool {
        self.file_chars@.len() < usize::MAX
    }

    /// A visitor for one file, starting at the unknown line 0.
    pub fn new(current_file: String, file_content: &str, has_overflow_checks: bool) -> (r:
        AnchorVisitor)
        requires
            file_content@.len() < usize::MAX,
        ensures
            r.wf(),
            r.ctx() == (Ctx {
                file: current_file@,
                content: file_content@,
                overflow_checks: has_overflow_checks,
            }),
            r.current_line == 0,
    {
        AnchorVisitor {
            current_file,
            file_chars: chars_of(file_content),
            has_overflow_checks,
            current_line: 0,
        }
    }

    /// Moves the current line to the best-effort line of `snippet`, by
    /// searching the file text for its last occurrence; an absent or
    /// empty snippet leaves the line unchanged.
    fn update_location_from_text(&mut self, snippet: &String)
        requires
            old(self).wf(),
        ensures
            final(self).wf(),
            final(self).current_file == old(self).current_file,
            final(self).file_chars == old(self).file_chars,
            final(self).has_overflow_checks == old(self).has_overflow_checks,
            final(self).current_line as nat == resolve_line(
                old(self).ctx().content,
                snippet@,
                old(self).current_line as nat,
            ),
    {
        let sn = chars_of(snippet.as_str());
        self.current_line = resolve_line_exec(&self.file_chars, &sn, self.current_line);
    }

    /// The location findings are recorded at: the current line, column 0.
    fn location(&self) -> (r: Location)
        ensures
            r@ == at(self.ctx(), self.current_line as nat),
    {
        Location { file: self.current_file.clone(), line: self.current_line, column: 0 }
    }

    /// Emits the reinitialization-guard notes of one expression node:
    /// inside an init-like function, an `if` on `is_initialized` or an
    /// assert/require mentioning it is recorded as informational.
    fn check_for_initialization_guards(&self, e: &Expr, st: &FnState,
        result: &mut AnalysisResult)
        ensures
            result_extended(
                *old(result),
                *final(result),
                guard_emits(self.ctx(), self.current_line as nat, st@, *e),
            ),
    {
        let ghost res0 = *result;
        let ghost out = guard_emits(self.ctx(), self.current_line as nat, st@, *e);
        if st.is_init {
            match &e.kind {
                ExprKind::Conditional { cond_text } => {
                    if str_contains(cond_text.as_str(), "is_initialized") {
                        result.push_info(
                            String::from_str(
                                "Detected is_initialized check to prevent reinitialization",
                            ),
                            self.location(),
                        );
                    }
                },
                ExprKind::Call { callee_text, args_text } => {
                    if (str_contains(callee_text.as_str(), "assert") || str_contains(
                        callee_text.as_str(),
                        "require",
                    )) && str_contains(args_text.as_str(), "is_initialized") {
                        result.push_info(
                            String::from_str(
                                "Detected is_initialized assertion to prevent reinitialization",
                            ),
                            self.location(),
                        );
                    }
                },
                _ => {},
            }
        }
        proof {
            assert(result.vulnerabilities.deep_view() =~= res0.vulnerabilities.deep_view()
                + out.vulns);
            assert(result.warnings.deep_view() =~= res0.warnings.deep_view() + out.warns);
            assert(result.info.deep_view() =~= res0.info.deep_view() + out.infos);
        }
    }

    /// Applies one expression node's effects on the per-function state:
    /// accesses recorded after a CPI, `remaining_accounts` access,
    /// bump-seed suspicion, and a CPI having been performed.
    fn check_expr_state(&self, e: &Expr, st: &mut FnState)
        ensures
            final(st)@ == issues_state(old(st)@, *e),
    {
        let ghost st_in = st@;
        match &e.kind {
            ExprKind::FieldAccess { member, base_is_path } => {
                if st.cpi && !str_eq(member.as_str(), "reload") {
                    st.accessed.push(e.text.clone());
                }
                if *base_is_path && str_eq(member.as_str(), "remaining_accounts") {
                    st.rem_access = true;
                }
            },
            ExprKind::MethodCall { method, receiver_text } => {
                if st.cpi && !str_eq(method.as_str(), "reload") {
                    st.accessed.push(receiver_text.clone());
                }
                if str_contains(receiver_text.as_str(), "remaining_accounts") {
                    st.rem_access = true;
                }
                if str_eq(method.as_str(), "create_program_address") && st.has_bump {
                    st.bump_suspect = true;
                }
            },
            ExprKind::Call { callee_text, args_text } => {
                if str_contains(callee_text.as_str(), "invoke") || str_contains(
                    callee_text.as_str(),
                    "CpiContext",
                ) {
                    st.cpi = true;
                }
            },
            _ => {},
        }
        proof {
            assert(st@ =~= issues_state(st_in, *e));
        }
    }

    /// Emits one expression node's state-independent findings: casts to
    /// unchecked account types and cross-program invocations.
    fn check_expr_for_issues(&self, e: &Expr, result: &mut AnalysisResult)
        ensures
            result_extended(
                *old(result),
                *final(result),
                issues_emits(self.ctx(), self.current_line as nat, *e),
            ),
    {
        let ghost res0 = *result;
        let ghost out = issues_emits(self.ctx(), self.current_line as nat, *e);
        match &e.kind {
            ExprKind::Cast { target_type } => {
                if str_contains(target_type.as_str(), "AccountInfo") {
                    result.push_warning(
                        String::from_str("Casting to AccountInfo - ensure proper validation"),
                        self.location(),
                        String::from_str(
                            "Validate the account before and after casting to AccountInfo",
                        ),
                    );
                }
            },
            ExprKind::Call { callee_text, args_text } => {
                if str_contains(callee_text.as_str(), "invoke") {
                    result.push_vulnerability(
                        Severity::Critical,
                        String::from_str("Potential arbitrary CPI vulnerability detected"),
                        self.location(),
                        String::from_str(
                            "Verify the program ID of the target program before invoking a cross-program call. Use `if target_program.key() != expected_program_id { return Err(...) }` to validate.",
                        ),
                    );
                }
                if str_contains(callee_text.as_str(), "CpiContext") {
                    result.push_warning(
                        String::from_str(
                            "Cross-Program Invocation detected - ensure proper program validation",
                        ),
                        self.location(),
                        String::from_str(
                            "Validate the program ID and all accounts passed to the CPI before invoking. Use Program<'info, T> instead of AccountInfo for program accounts.",
                        ),
                    );
                }
                if str_contains(callee_text.as_str(), "create_program_address")
                    && !str_contains(callee_text.as_str(), "find_program_address") {
                    result.push_warning(
                        String::from_str(
                            "Using create_program_address directly may lead to non-canonical bump usage",
                        ),
                        self.location(),
                        String::from_str(
                            "Use find_program_address to get the canonical bump first, or validate that you're using the canonical bump.",
                        ),
                    );
                }
            },
            _ => {},
        }
        proof {
            assert(result.vulnerabilities.deep_view() =~= res0.vulnerabilities.deep_view()
                + out.vulns);
            assert(result.warnings.deep_view() =~= res0.warnings.deep_view() + out.warns);
            assert(result.info.deep_view() =~= res0.info.deep_view() + out.infos);
        }
    }

    /// Marks the remaining accounts as validated when one node looks
    /// like a validation: an equality on `owner` or `key`, or a method
    /// whose name says check, verify, validate or assert.
    fn check_for_remaining_accounts_validation(&self, e: &Expr, st: &mut FnState)
        ensures
            final(st)@ == validation_state(old(st)@, *e),
    {
        let ghost st_in = st@;
        match &e.kind {
            ExprKind::Binary { op } => {
                if *op == BinOp::Eq && e.children.len() >= 1 {
                    match &e.children[0].kind {
                        ExprKind::FieldAccess { member, base_is_path } => {
                            if str_eq(member.as_str(), "owner") || str_eq(
                                member.as_str(),
                                "key",
                            ) {
                                st.rem_valid = true;
                            }
                        },
                        _ => {},
                    }
                }
            },
            ExprKind::MethodCall { method, receiver_text } => {
                if str_contains(method.as_str(), "check") || str_contains(
                    method.as_str(),
                    "verify",
                ) || str_contains(method.as_str(), "validate") || str_contains(
                    method.as_str(),
                    "assert",
                ) {
                    st.rem_valid = true;
                }
            },
            _ => {},
        }
        proof {
            assert(st@ =~= validation_state(st_in, *e));
        }
    }

    /// Emits one expression node's arithmetic and large-literal
    /// findings: an add/sub/mul is a High vulnerability without the
    /// overflow-checking fact and an informational note with it; an
    /// integer literal beyond the 32-bit unsigned maximum is a warning.
    fn check_arithmetic_and_literal(&self, e: &Expr, result: &mut AnalysisResult)
        ensures
            result_extended(
                *old(result),
                *final(result),
                arith_emits(self.ctx(), self.current_line as nat, *e),
            ),
    {
        let ghost res0 = *result;
        let ghost out = arith_emits(self.ctx(), self.current_line as nat, *e);
        match &e.kind {
            ExprKind::Binary { op } => {
                if *op == BinOp::Add || *op == BinOp::Sub || *op == BinOp::Mul {
                    let op_name: &str = if *op == BinOp::Add {
                        "addition"
                    } else if *op == BinOp::Sub {
                        "subtraction"
                    } else {
                        "multiplication"
                    };
                    proof {
                        assert(op_name@ == op_text(*op));
                    }
                    if !self.has_overflow_checks {
                        result.push_vulnerability(
                            Severity::High,
                            concat3(
                                "Potential arithmetic overflow/underflow detected in ",
                                op_name,
                                " operation",
                            ),
                            self.location(),
                            String::from_str(
                                "Use checked arithmetic operations (checked_add, checked_sub, checked_mul) or enable overflow-checks = true in Cargo.toml",
                            ),
                        );
                    } else {
                        result.push_info(
                            concat3(
                                "Arithmetic operation with runtime overflow protection: ",
                                op_name,
                                " operation",
                            ),
                            self.location(),
                        );
                    }
                }
            },
            ExprKind::IntLit { value } => {
                match value {
                    Some(v) => {
                        if *v > 0xffff_ffffu64 {
                            let rendered = u64_to_string(*v);
                            result.push_warning(
                                concat2(
                                    "Large integer literal detected: ",
                                    rendered.as_str(),
                                ),
                                self.location(),
                                String::from_str(
                                    "Consider using a smaller integer type or implementing proper overflow checks",
                                ),
                            );
                        }
                    },
                    None => {},
                }
            },
            _ => {},
        }
        proof {
            assert(result.vulnerabilities.deep_view() =~= res0.vulnerabilities.deep_view()
                + out.vulns);
            assert(result.warnings.deep_view() =~= res0.warnings.deep_view() + out.warns);
            assert(result.info.deep_view() =~= res0.info.deep_view() + out.infos);
        }
    }

    /// Visits one expression node: resolves its line, runs the
    /// reinitialization-guard, issue, validation and arithmetic checks,
    /// then its children in source order.
    #[verifier::rlimit(100)]
    pub fn visit_expr(&mut self, e: &Expr, st: &mut FnState, result: &mut AnalysisResult)
        requires
            old(self).wf(),
        ensures
            final(self).wf(),
            final(self).current_file == old(self).current_file,
            final(self).file_chars == old(self).file_chars,
            final(self).has_overflow_checks == old(self).has_overflow_checks,
            ({
                let step = visit_expr_spec(
                    old(self).ctx(),
                    old(self).current_line as nat,
                    old(st)@,
                    *e,
                );
                &&& final(self).current_line as nat == step.line
                &&& final(st)@ == step.st
                &&& result_extended(*old(result), *final(result), step.out)
            }),
        decreases *e,
    {
        let ghost ctx0 = self.ctx();
        let ghost line0 = self.current_line as nat;
        let ghost st_in = st@;
        let ghost res0 = *result;

        self.update_location_from_text(&e.text);
        let ghost l1 = self.current_line as nat;

        self.check_for_initialization_guards(e, st, result);
        let ghost o_guard = guard_emits(ctx0, l1, st_in, *e);

        self.check_expr_state(e, st);

        self.check_expr_for_issues(e, result);
        let ghost o_issues = issues_emits(ctx0, l1, *e);
        proof {
            assert(result.vulnerabilities.deep_view() =~= res0.vulnerabilities.deep_view()
                + o_guard.plus(o_issues).vulns);
            assert(result.warnings.deep_view() =~= res0.warnings.deep_view() + o_guard.plus(
                o_issues,
            ).warns);
            assert(result.info.deep_view() =~= res0.info.deep_view() + o_guard.plus(
                o_issues,
            ).infos);
        }

        self.check_for_remaining_accounts_validation(e, st);
        let ghost st2v = st@;

        self.check_arithmetic_and_literal(e, result);
        let ghost o_arith = arith_emits(ctx0, l1, *e);
        let ghost out_node = o_guard.plus(o_issues).plus(o_arith);
        proof {
            assert(result.vulnerabilities.deep_view() =~= res0.vulnerabilities.deep_view()
                + out_node.vulns);
            assert(result.warnings.deep_view() =~= res0.warnings.deep_view()
                + out_node.warns);
            assert(result.info.deep_view() =~= res0.info.deep_view() + out_node.infos);
        }

        // Children, in source order.
        let ghost res_mid = *result;
        let mut i: usize = 0;
        while i < e.children.len()
            invariant
                i <= e.children@.len(),
                self.wf(),
                self.ctx() == ctx0,
                self.current_file == old(self).current_file,
                self.file_chars == old(self).file_chars,
                self.has_overflow_checks == old(self).has_overflow_checks,
                ({
                    let part = visit_exprs_spec(
                        ctx0,
                        l1,
                        st2v,
                        e.children@.subrange(0, i as int),
                    );
                    &&& self.current_line as nat == part.line
                    &&& st@ == part.st
                    &&& result_extended(res_mid, *result, part.out)
                }),
            decreases e.children@.len() - i,
        {
            let ghost part_pre = visit_exprs_spec(
                ctx0,
                l1,
                st2v,
                e.children@.subrange(0, i as int),
            );
            self.visit_expr(&e.children[i], st, result);
            proof {
                let pre = e.children@.subrange(0, i + 1);
                assert(pre.drop_last() =~= e.children@.subrange(0, i as int));
                assert(pre.last() == e.children@[i as int]);
                let step = visit_expr_spec(ctx0, part_pre.line, part_pre.st, e.children@[
                    i as int
                ]);
                let part_post = visit_exprs_spec(ctx0, l1, st2v, pre);
                assert(part_post.out =~= part_pre.out.plus(step.out));
                assert(result.vulnerabilities.deep_view() =~= res_mid.vulnerabilities.deep_view()
                    + part_post.out.vulns);
                assert(result.warnings.deep_view() =~= res_mid.warnings.deep_view()
                    + part_post.out.warns);
                assert(result.info.deep_view() =~= res_mid.info.deep_view()
                    + part_post.out.infos);
            }
            i += 1;
        }
        proof {
            assert(e.children@.subrange(0, e.children@.len() as int) =~= e.children@);
            let step = visit_expr_spec(ctx0, line0, st_in, *e);
            let rec = visit_exprs_spec(ctx0, l1, st2v, e.children@);
            assert(step.out =~= out_node.plus(rec.out));
            assert(result.vulnerabilities.deep_view() =~= res0.vulnerabilities.deep_view()
                + step.out.vulns);
            assert(result.warnings.deep_view() =~= res0.warnings.deep_view()
                + step.out.warns);
            assert(result.info.deep_view() =~= res0.info.deep_view() + step.out.infos);
        }
    }

    /// Pushes the advisory warnings drawn from the function name alone.
    fn check_function_naming_conventions(&mut self, fn_name: &String,
        result: &mut AnalysisResult)
        requires
            old(self).wf(),
        ensures
            *final(self) == *old(self),
            result_extended(
                *old(result),
                *final(result),
                name_warn_emits(old(self).ctx(), old(self).current_line as nat, fn_name@),
            ),
    {
        let ghost ctx0 = self.ctx();
        let ghost l0 = self.current_line as nat;
        let ghost res0 = *result;
        if str_contains(fn_name.as_str(), "validate") {
            result.push_warning(
                String::from_str(
                    "Function contains 'validate' in name - ensure proper validation",
                ),
                self.location(),
                String::from_str("Consider using Anchor's built-in validation attributes"),
            );
        }
        if str_contains(fn_name.as_str(), "error") {
            result.push_warning(
                String::from_str(
                    "Function contains 'error' in name - ensure proper error handling",
                ),
                self.location(),
                String::from_str("Use Anchor's error handling macros and proper error types"),
            );
        }
        if str_contains(fn_name.as_str(), "access") {
            result.push_warning(
                String::from_str(
                    "Function contains 'access' in name - ensure proper access control",
                ),
                self.location(),
                String::from_str(
                    "Implement proper access control checks using Anchor's constraints",
                ),
            );
        }
        proof {
            let out = name_warn_emits(ctx0, l0, fn_name@);
            assert(result.vulnerabilities.deep_view() =~= res0.vulnerabilities.deep_view()
                + out.vulns);
            assert(result.warnings.deep_view() =~= res0.warnings.deep_view() + out.warns);
            assert(result.info.deep_view() =~= res0.info.deep_view() + out.infos);
        }
    }

    /// Visits one function item: classifies it from its name and
    /// parameters, resets the per-function state, walks the body, and
    /// runs the exit checks, in their fixed order, at the line the body
    /// walk ended on.
    #[verifier::rlimit(100)]
    pub fn check_function(&mut self, item_fn: &Function, result: &mut AnalysisResult)
        requires
            old(self).wf(),
        ensures
            final(self).wf(),
            final(self).current_file == old(self).current_file,
            final(self).file_chars == old(self).file_chars,
            final(self).has_overflow_checks == old(self).has_overflow_checks,
            ({
                let step = visit_function_spec(
                    old(self).ctx(),
                    old(self).current_line as nat,
                    *item_fn,
                );
                &&& final(self).current_line as nat == step.line
                &&& result_extended(*old(result), *final(result), step.out)
            }),
    {
        let ghost ctx0 = self.ctx();
        let ghost line0 = self.current_line as nat;
        let ghost res0 = *result;

        self.update_location_from_text(&item_fn.text);
        let ghost l1 = self.current_line as nat;

        let is_init = str_contains(item_fn.name.as_str(), "initialize") || str_contains(
            item_fn.name.as_str(),
            "init",
        ) || str_contains(item_fn.name.as_str(), "create");
        proof {
            assert(is_init == is_init_name(item_fn.name@));
        }

        self.check_function_naming_conventions(&item_fn.name, result);

        let mut has_bump = false;
        let mut p: usize = 0;
        while p < item_fn.params.len()
            invariant
                p <= item_fn.params@.len(),
                has_bump == (exists|i: int|
                    0 <= i < p && contains_seq(item_fn.params.deep_view()[i], "bump"@)),
            decreases item_fn.params@.len() - p,
        {
            if str_contains(item_fn.params[p].as_str(), "bump") {
                proof {
                    assert(contains_seq(item_fn.params.deep_view()[p as int], "bump"@));
                }
                has_bump = true;
            }
            p += 1;
        }
        proof {
            assert(has_bump == params_have_bump(item_fn.params.deep_view()));
        }

        let mut st = FnState {
            is_init,
            has_bump,
            rem_access: false,
            rem_valid: false,
            cpi: false,
            accessed: Vec::new(),
            bump_suspect: false,
        };
        proof {
            assert(st@ =~= FnStateV::entry(
                is_init_name(item_fn.name@),
                params_have_bump(item_fn.params.deep_view()),
            ));
        }
        let ghost st0v = st@;

        let ghost res_named = *result;
        let mut i: usize = 0;
        while i < item_fn.body.len()
            invariant
                i <= item_fn.body@.len(),
                self.wf(),
                self.ctx() == ctx0,
                self.current_file == old(self).current_file,
                self.file_chars == old(self).file_chars,
                self.has_overflow_checks == old(self).has_overflow_checks,
                ({
                    let part = visit_exprs_spec(
                        ctx0,
                        l1,
                        st0v,
                        item_fn.body@.subrange(0, i as int),
                    );
                    &&& self.current_line as nat == part.line
                    &&& st@ == part.st
                    &&& result_extended(res_named, *result, part.out)
                }),
            decreases item_fn.body@.len() - i,
        {
            let ghost part_pre = visit_exprs_spec(
                ctx0,
                l1,
                st0v,
                item_fn.body@.subrange(0, i as int),
            );
            self.visit_expr(&item_fn.body[i], &mut st, result);
            proof {
                let pre = item_fn.body@.subrange(0, i + 1);
                assert(pre.drop_last() =~= item_fn.body@.subrange(0, i as int));
                assert(pre.last() == item_fn.body@[i as int]);
                let step = visit_expr_spec(ctx0, part_pre.line, part_pre.st, item_fn.body@[
                    i as int
                ]);
                let part_post = visit_exprs_spec(ctx0, l1, st0v, pre);
                assert(part_post.out =~= part_pre.out.plus(step.out));
                assert(result.vulnerabilities.deep_view()
                    =~= res_named.vulnerabilities.deep_view() + part_post.out.vulns);
                assert(result.warnings.deep_view() =~= res_named.warnings.deep_view()
                    + part_post.out.warns);
                assert(result.info.deep_view() =~= res_named.info.deep_view()
                    + part_post.out.infos);
            }
            i += 1;
        }
        proof {
            assert(item_fn.body@.subrange(0, item_fn.body@.len() as int) =~= item_fn.body@);
        }
        let ghost body_step = visit_exprs_spec(ctx0, l1, st0v, item_fn.body@);
        let ghost res_body = *result;

        self.emit_function_exit_findings(&st, &item_fn.body_text, result);
        proof {
            let o_exit = exit_emits(ctx0, body_step.line, body_step.st, item_fn.body_text@);
            assert(result.vulnerabilities.deep_view() =~= res_body.vulnerabilities.deep_view()
                + o_exit.vulns);
            assert(result.warnings.deep_view() =~= res_body.warnings.deep_view()
                + o_exit.warns);
            assert(result.info.deep_view() =~= res_body.info.deep_view() + o_exit.infos);
            let step = visit_function_spec(ctx0, line0, *item_fn);
            assert(result.vulnerabilities.deep_view() =~= res0.vulnerabilities.deep_view()
                + step.out.vulns);
            assert(result.warnings.deep_view() =~= res0.warnings.deep_view()
                + step.out.warns);
            assert(result.info.deep_view() =~= res0.info.deep_view() + step.out.infos);
        }
    }

    /// Emits the exit-time findings of one function, in their fixed
    /// order, at the current line.
    fn emit_function_exit_findings(&self, st: &FnState, body_text: &String,
        result: &mut AnalysisResult)
        ensures
            result_extended(
                *old(result),
                *final(result),
                exit_emits(self.ctx(), self.current_line as nat, st@, body_text@),
            ),
    {
        let ghost res0 = *result;
        let ghost out = exit_emits(self.ctx(), self.current_line as nat, st@, body_text@);
        if st.rem_access && !st.rem_valid {
            result.push_vulnerability(
                Severity::High,
                String::from_str("Accessing remaining_accounts without proper validation"),
                self.location(),
                String::from_str(
                    "Always validate remaining accounts before using them. Check account ownership, type, and other constraints.",
                ),
            );
        }
        if st.is_init {
            let guarded = str_contains(body_text.as_str(), "is_initialized") && (
            str_contains(body_text.as_str(), "if") || str_contains(
                body_text.as_str(),
                "assert",
            ));
            if !guarded {
                result.push_vulnerability(
                    Severity::High,
                    String::from_str("Initialization function without reinitialization check"),
                    self.location(),
                    String::from_str(
                        "Add an is_initialized check to prevent reinitialization attacks. In native Rust, verify an is_initialized flag before setting data. In Anchor, use the init constraint.",
                    ),
                );
            }
        }
        if st.cpi && st.accessed.len() > 0 {
            result.push_vulnerability(
                Severity::Critical,
                String::from_str("Account data accessed after CPI without reload()"),
                self.location(),
                String::from_str(
                    "After performing a CPI, call account.reload() before accessing account data to prevent tampering. Other programs can modify account data during a CPI.",
                ),
            );
        }
        if st.bump_suspect && st.has_bump {
            result.push_vulnerability(
                Severity::Critical,
                String::from_str("Possible bump seed canonicalization vulnerability detected"),
                self.location(),
                String::from_str(
                    "Always use Pubkey::find_program_address() instead of create_program_address() to ensure canonical bump is used, or validate any user-provided bump against the canonical bump.",
                ),
            );
        }
        proof {
            assert(st@.accessed.len() == st.accessed@.len());
            assert(result.vulnerabilities.deep_view() =~= res0.vulnerabilities.deep_view()
                + out.vulns);
            assert(result.warnings.deep_view() =~= res0.warnings.deep_view() + out.warns);
            assert(result.info.deep_view() =~= res0.info.deep_view() + out.infos);
        }
    }
}

impl AnchorVisitor {
    /// Emits the findings for an unchecked-account-typed field of an
    /// accounts struct: unconstrained program references are critical,
    /// other unconstrained fields high, constrained program references
    /// a warning.
    fn check_account_info_field(&self, field: &FieldDecl, struct_name: &String,
        result: &mut AnalysisResult)
        ensures
            result_extended(
                *old(result),
                *final(result),
                account_info_emits(
                    self.ctx(),
                    self.current_line as nat,
                    *field,
                    struct_name@,
                ),
            ),
    {
        let ghost res0 = *result;
        let ghost out = account_info_emits(
            self.ctx(),
            self.current_line as nat,
            *field,
            struct_name@,
        );
        if str_contains(field.type_text.as_str(), "AccountInfo") {
            let constrained = has_constraints_exec(&field.attrs);
            let is_program = str_contains(field.name.as_str(), "program") || str_contains(
                field.name.as_str(),
                "Program",
            );
            if !constrained {
                if is_program {
                    result.push_vulnerability(
                        Severity::Critical,
                        concat5(
                            "Unchecked program AccountInfo in struct ",
                            struct_name.as_str(),
                            ": field ",
                            field.name.as_str(),
                            " - potential arbitrary CPI vulnerability",
                        ),
                        self.location(),
                        String::from_str(
                            "Use Program<'info, T> instead of AccountInfo for program accounts to automatically validate program IDs, or add explicit validation checks.",
                        ),
                    );
                } else {
                    result.push_vulnerability(
                        Severity::High,
                        concat4(
                            "Unchecked AccountInfo in struct ",
                            struct_name.as_str(),
                            ": field ",
                            field.name.as_str(),
                        ),
                        self.location(),
                        String::from_str(
                            "Add proper constraints to AccountInfo fields using Anchor attributes (e.g., #[account(...)]).",
                        ),
                    );
                }
            } else if is_program {
                result.push_warning(
                    concat3(
                        "Program account ",
                        field.name.as_str(),
                        " uses AccountInfo - consider stronger validation",
                    ),
                    self.location(),
                    String::from_str(
                        "Use Program<'info, T> or add explicit program ID verification in your code.",
                    ),
                );
            }
        }
        proof {
            assert(result.vulnerabilities.deep_view() =~= res0.vulnerabilities.deep_view()
                + out.vulns);
            assert(result.warnings.deep_view() =~= res0.warnings.deep_view() + out.warns);
            assert(result.info.deep_view() =~= res0.info.deep_view() + out.infos);
        }
    }

    /// Emits the bump-seed findings of one `account` attribute.
    fn check_anchor_account_attribute(&self, attr: &AttrDecl, result: &mut AnalysisResult)
        ensures
            result_extended(
                *old(result),
                *final(result),
                bump_attr_emits_one(self.ctx(), self.current_line as nat, *attr),
            ),
    {
        let ghost res0 = *result;
        let ghost out = bump_attr_emits_one(self.ctx(), self.current_line as nat, *attr);
        if attr.is_account_attr {
            let t = attr.text.as_str();
            if str_contains(t, "seeds") && !str_contains(t, "bump") {
                result.push_warning(
                    String::from_str("PDA seeds constraint without bump constraint"),
                    self.location(),
                    String::from_str(
                        "When using the seeds constraint, also specify a bump constraint to ensure canonical bump is used.",
                    ),
                );
            }
            if str_contains(t, "bump =") && !str_contains(t, "bump = bump") && !str_contains(
                t,
                "bump = data.bump",
            ) {
                if str_contains(t, "bump = 0") || str_contains(t, "bump = 1") || str_contains(
                    t,
                    "bump = 2",
                ) {
                    result.push_vulnerability(
                        Severity::Critical,
                        String::from_str("Hardcoded non-canonical bump value detected"),
                        self.location(),
                        String::from_str(
                            "Using a hardcoded bump value risks using a non-canonical bump. Use bump without a value to derive canonical bump, or use bump = data.bump to reference stored canonical bump.",
                        ),
                    );
                } else {
                    result.push_warning(
                        String::from_str("Custom bump value in anchor constraint"),
                        self.location(),
                        String::from_str(
                            "Ensure this bump value is the canonical bump, preferably stored from find_program_address() result.",
                        ),
                    );
                }
            }
        }
        proof {
            assert(result.vulnerabilities.deep_view() =~= res0.vulnerabilities.deep_view()
                + out.vulns);
            assert(result.warnings.deep_view() =~= res0.warnings.deep_view() + out.warns);
            assert(result.info.deep_view() =~= res0.info.deep_view() + out.infos);
        }
    }

    /// Emits the findings for a typed-account-wrapper field: missing
    /// owner constraint, space without init, init-if-needed caution,
    /// and the bump-seed inspection of each `account` attribute.
    #[verifier::rlimit(30)]
    fn check_account_field_validation(&self, field: &FieldDecl, struct_name: &String,
        result: &mut AnalysisResult)
        ensures
            result_extended(
                *old(result),
                *final(result),
                account_wrapper_emits(
                    self.ctx(),
                    self.current_line as nat,
                    *field,
                    struct_name@,
                ),
            ),
    {
        let ghost ctx0 = self.ctx();
        let ghost l0 = self.current_line as nat;
        let ghost res0 = *result;
        let ghost out = account_wrapper_emits(ctx0, l0, *field, struct_name@);
        if str_contains(field.type_text.as_str(), "Account<") {
            if !attrs_contain_exec(&field.attrs, "owner") {
                result.push_warning(
                    concat4(
                        "Missing owner check for Account in struct ",
                        struct_name.as_str(),
                        ": field ",
                        field.name.as_str(),
                    ),
                    self.location(),
                    String::from_str(
                        "Add #[account(owner = <PROGRAM_ID>)] to ensure the account is owned by the expected program.",
                    ),
                );
            }
            if attrs_contain_exec(&field.attrs, "space") && !attrs_contain_exec(
                &field.attrs,
                "init",
            ) {
                result.push_warning(
                    concat4(
                        "Account space specified without init constraint in struct ",
                        struct_name.as_str(),
                        ": field ",
                        field.name.as_str(),
                    ),
                    self.location(),
                    String::from_str(
                        "Add the init constraint when specifying space: #[account(init, space = ...)]",
                    ),
                );
            }
            if attrs_contain_exec(&field.attrs, "init_if_needed") {
                result.push_warning(
                    concat4(
                        "Using init_if_needed in struct ",
                        struct_name.as_str(),
                        ": field ",
                        field.name.as_str(),
                    ),
                    self.location(),
                    String::from_str(
                        "init_if_needed can be risky. Ensure the instruction handler includes checks to prevent resetting the account to its initial state.",
                    ),
                );
            }
            let ghost res_pre = *result;
            let mut j: usize = 0;
            while j < field.attrs.len()
                invariant
                    j <= field.attrs@.len(),
                    ctx0 == self.ctx(),
                    l0 == self.current_line as nat,
                    result_extended(
                        res_pre,
                        *result,
                        bump_attr_emits(ctx0, l0, field.attrs@.subrange(0, j as int)),
                    ),
                decreases field.attrs@.len() - j,
            {
                let ghost part_pre = bump_attr_emits(
                    ctx0,
                    l0,
                    field.attrs@.subrange(0, j as int),
                );
                self.check_anchor_account_attribute(&field.attrs[j], result);
                proof {
                    let pre = field.attrs@.subrange(0, j + 1);
                    assert(pre.drop_last() =~= field.attrs@.subrange(0, j as int));
                    assert(pre.last() == field.attrs@[j as int]);
                    let one = bump_attr_emits_one(ctx0, l0, field.attrs@[j as int]);
                    assert(bump_attr_emits(ctx0, l0, pre) =~= part_pre.plus(one));
                    assert(result.vulnerabilities.deep_view()
                        =~= res_pre.vulnerabilities.deep_view() + bump_attr_emits(
                        ctx0,
                        l0,
                        pre,
                    ).vulns);
                    assert(result.warnings.deep_view() =~= res_pre.warnings.deep_view()
                        + bump_attr_emits(ctx0, l0, pre).warns);
                    assert(result.info.deep_view() =~= res_pre.info.deep_view()
                        + bump_attr_emits(ctx0, l0, pre).infos);
                }
                j += 1;
            }
            proof {
                assert(field.attrs@.subrange(0, field.attrs@.len() as int) =~= field.attrs@);
            }
        }
        proof {
            assert(result.vulnerabilities.deep_view() =~= res0.vulnerabilities.deep_view()
                + out.vulns);
            assert(result.warnings.deep_view() =~= res0.warnings.deep_view() + out.warns);
            assert(result.info.deep_view() =~= res0.info.deep_view() + out.infos);
        }
    }

    /// Emits the associated-token-account findings of one `account`
    /// attribute, at the attribute's own line: an ATA-looking field
    /// initialized with `init` but not `init_if_needed` is critical.
    fn check_for_ata_init_issues(&mut self, attr: &AttrDecl, field_name: &String,
        result: &mut AnalysisResult)
        requires
            old(self).wf(),
        ensures
            final(self).wf(),
            final(self).current_file == old(self).current_file,
            final(self).file_chars == old(self).file_chars,
            final(self).has_overflow_checks == old(self).has_overflow_checks,
            ({
                let step = ata_attr_step(
                    old(self).ctx(),
                    old(self).current_line as nat,
                    *attr,
                    field_name@,
                );
                &&& final(self).current_line as nat == step.line
                &&& result_extended(*old(result), *final(result), step.out)
            }),
    {
        let ghost res0 = *result;
        let ghost step = ata_attr_step(
            self.ctx(),
            self.current_line as nat,
            *attr,
            field_name@,
        );
        if !attr.is_account_attr {
            proof {
                assert(result.vulnerabilities.deep_view() =~= res0.vulnerabilities.deep_view()
                    + step.out.vulns);
                assert(result.warnings.deep_view() =~= res0.warnings.deep_view()
                    + step.out.warns);
                assert(result.info.deep_view() =~= res0.info.deep_view() + step.out.infos);
            }
            return;
        }
        self.update_location_from_text(&attr.text);
        let is_ata = str_contains(attr.text.as_str(), "associated_token::") || str_contains(
            field_name.as_str(),
            "ata",
        ) || str_contains(field_name.as_str(), "token_account") || str_contains(
            field_name.as_str(),
            "tokenAccount",
        );
        if is_ata {
            let bare_init = has_bare_init_exec(&attr.text);
            let has_iin = str_contains(attr.text.as_str(), "init_if_needed");
            if bare_init && !has_iin {
                result.push_vulnerability(
                    Severity::Critical,
                    concat3(
                        "Associated Token Account '",
                        field_name.as_str(),
                        "' initialized with 'init' constraint instead of 'init_if_needed'",
                    ),
                    self.location(),
                    String::from_str(
                        "Use 'init_if_needed' for Associated Token Accounts to handle cases where users already have ATAs created. Using 'init' will fail if the account already exists.",
                    ),
                );
            }
        }
        proof {
            assert(result.vulnerabilities.deep_view() =~= res0.vulnerabilities.deep_view()
                + step.out.vulns);
            assert(result.warnings.deep_view() =~= res0.warnings.deep_view()
                + step.out.warns);
            assert(result.info.deep_view() =~= res0.info.deep_view() + step.out.infos);
        }
    }

    /// Visits one field of an accounts struct: resolves its line, runs
    /// the unchecked-account and typed-account checks, then the
    /// associated-token-account check over its attributes.
    #[verifier::rlimit(30)]
    pub fn check_account_field(&mut self, field: &FieldDecl, struct_name: &String,
        result: &mut AnalysisResult)
        requires
            old(self).wf(),
        ensures
            final(self).wf(),
            final(self).current_file == old(self).current_file,
            final(self).file_chars == old(self).file_chars,
            final(self).has_overflow_checks == old(self).has_overflow_checks,
            ({
                let step = visit_field_spec(
                    old(self).ctx(),
                    old(self).current_line as nat,
                    *field,
                    struct_name@,
                );
                &&& final(self).current_line as nat == step.line
                &&& result_extended(*old(result), *final(result), step.out)
            }),
    {
        let ghost ctx0 = self.ctx();
        let ghost line0 = self.current_line as nat;
        let ghost res0 = *result;

        self.update_location_from_text(&field.text);
        let ghost l1 = self.current_line as nat;

        self.check_account_info_field(field, struct_name, result);
        let ghost o1 = account_info_emits(ctx0, l1, *field, struct_name@);

        self.check_account_field_validation(field, struct_name, result);
        let ghost o2 = account_wrapper_emits(ctx0, l1, *field, struct_name@);
        proof {
            assert(result.vulnerabilities.deep_view() =~= res0.vulnerabilities.deep_view()
                + o1.plus(o2).vulns);
            assert(result.warnings.deep_view() =~= res0.warnings.deep_view() + o1.plus(
                o2,
            ).warns);
            assert(result.info.deep_view() =~= res0.info.deep_view() + o1.plus(o2).infos);
        }

        let ghost res_mid = *result;
        let mut j: usize = 0;
        while j < field.attrs.len()
            invariant
                j <= field.attrs@.len(),
                self.wf(),
                self.ctx() == ctx0,
                self.current_file == old(self).current_file,
                self.file_chars == old(self).file_chars,
                self.has_overflow_checks == old(self).has_overflow_checks,
                ({
                    let part = ata_attrs_step(
                        ctx0,
                        l1,
                        field.attrs@.subrange(0, j as int),
                        field.name@,
                    );
                    &&& self.current_line as nat == part.line
                    &&& result_extended(res_mid, *result, part.out)
                }),
            decreases field.attrs@.len() - j,
        {
            let ghost part_pre = ata_attrs_step(
                ctx0,
                l1,
                field.attrs@.subrange(0, j as int),
                field.name@,
            );
            self.check_for_ata_init_issues(&field.attrs[j], &field.name, result);
            proof {
                let pre = field.attrs@.subrange(0, j + 1);
                assert(pre.drop_last() =~= field.attrs@.subrange(0, j as int));
                assert(pre.last() == field.attrs@[j as int]);
                let one = ata_attr_step(ctx0, part_pre.line, field.attrs@[j as int],
                    field.name@);
                let part_post = ata_attrs_step(ctx0, l1, pre, field.name@);
                assert(part_post.out =~= part_pre.out.plus(one.out));
                assert(result.vulnerabilities.deep_view()
                    =~= res_mid.vulnerabilities.deep_view() + part_post.out.vulns);
                assert(result.warnings.deep_view() =~= res_mid.warnings.deep_view()
                    + part_post.out.warns);
                assert(result.info.deep_view() =~= res_mid.info.deep_view()
                    + part_post.out.infos);
            }
            j += 1;
        }
        proof {
            assert(field.attrs@.subrange(0, field.attrs@.len() as int) =~= field.attrs@);
            let step = visit_field_spec(ctx0, line0, *field, struct_name@);
            assert(result.vulnerabilities.deep_view() =~= res0.vulnerabilities.deep_view()
                + step.out.vulns);
            assert(result.warnings.deep_view() =~= res0.warnings.deep_view()
                + step.out.warns);
            assert(result.info.deep_view() =~= res0.info.deep_view() + step.out.infos);
        }
    }

    /// Visits one record: an accounts struct is noted and has each
    /// field checked; a record whose name says `Account` is noted and,
    /// when it is no accounts struct, checked for an `is_initialized`
    /// field.
    #[verifier::rlimit(30)]
    pub fn check_struct(&mut self, item_struct: &Record, result: &mut AnalysisResult)
        requires
            old(self).wf(),
        ensures
            final(self).wf(),
            final(self).current_file == old(self).current_file,
            final(self).file_chars == old(self).file_chars,
            final(self).has_overflow_checks == old(self).has_overflow_checks,
            ({
                let step = visit_record_spec(
                    old(self).ctx(),
                    old(self).current_line as nat,
                    *item_struct,
                );
                &&& final(self).current_line as nat == step.line
                &&& result_extended(*old(result), *final(result), step.out)
            }),
    {
        let ghost ctx0 = self.ctx();
        let ghost line0 = self.current_line as nat;
        let ghost res0 = *result;

        self.update_location_from_text(&item_struct.text);
        let ghost l1 = self.current_line as nat;

        let accounts = attrs_contain_exec(&item_struct.attrs, "Accounts");
        if accounts {
            result.push_info(
                concat2("Anchor Accounts struct detected: ", item_struct.name.as_str()),
                self.location(),
            );

            let ghost res_mid = *result;
            let mut i: usize = 0;
            while i < item_struct.fields.len()
                invariant
                    i <= item_struct.fields@.len(),
                    self.wf(),
                    self.ctx() == ctx0,
                    self.current_file == old(self).current_file,
                    self.file_chars == old(self).file_chars,
                    self.has_overflow_checks == old(self).has_overflow_checks,
                    ({
                        let part = visit_fields_spec(
                            ctx0,
                            l1,
                            item_struct.fields@.subrange(0, i as int),
                            item_struct.name@,
                        );
                        &&& self.current_line as nat == part.line
                        &&& result_extended(res_mid, *result, part.out)
                    }),
                decreases item_struct.fields@.len() - i,
            {
                let ghost part_pre = visit_fields_spec(
                    ctx0,
                    l1,
                    item_struct.fields@.subrange(0, i as int),
                    item_struct.name@,
                );
                self.check_account_field(&item_struct.fields[i], &item_struct.name, result);
                proof {
                    let pre = item_struct.fields@.subrange(0, i + 1);
                    assert(pre.drop_last() =~= item_struct.fields@.subrange(0, i as int));
                    assert(pre.last() == item_struct.fields@[i as int]);
                    let one = visit_field_spec(ctx0, part_pre.line, item_struct.fields@[
                        i as int
                    ], item_struct.name@);
                    let part_post = visit_fields_spec(ctx0, l1, pre, item_struct.name@);
                    assert(part_post.out =~= part_pre.out.plus(one.out));
                    assert(result.vulnerabilities.deep_view()
                        =~= res_mid.vulnerabilities.deep_view() + part_post.out.vulns);
                    assert(result.warnings.deep_view() =~= res_mid.warnings.deep_view()
                        + part_post.out.warns);
                    assert(result.info.deep_view() =~= res_mid.info.deep_view()
                        + part_post.out.infos);
                }
                i += 1;
            }
            proof {
                assert(item_struct.fields@.subrange(0, item_struct.fields@.len() as int)
                    =~= item_struct.fields@);
            }
        }

        if str_contains(item_struct.name.as_str(), "Account") {
            result.push_info(
                String::from_str("Account struct detected - ensure proper validation"),
                self.location(),
            );
            if !accounts && !has_is_initialized_field_exec(&item_struct.fields) {
                result.push_warning(
                    concat3(
                        "Account struct ",
                        item_struct.name.as_str(),
                        " missing is_initialized field",
                    ),
                    self.location(),
                    String::from_str(
                        "Add an is_initialized: bool field to account structs to prevent reinitialization attacks",
                    ),
                );
            }
        }
        proof {
            let step = visit_record_spec(ctx0, line0, *item_struct);
            assert(result.vulnerabilities.deep_view() =~= res0.vulnerabilities.deep_view()
                + step.out.vulns);
            assert(result.warnings.deep_view() =~= res0.warnings.deep_view()
                + step.out.warns);
            assert(result.info.deep_view() =~= res0.info.deep_view() + step.out.infos);
        }
    }

    /// Visits one enum: a name that says `Error` is noted.
    pub fn check_enum(&mut self, item_enum: &EnumDecl, result: &mut AnalysisResult)
        requires
            old(self).wf(),
        ensures
            final(self).wf(),
            final(self).current_file == old(self).current_file,
            final(self).file_chars == old(self).file_chars,
            final(self).has_overflow_checks == old(self).has_overflow_checks,
            ({
                let step = visit_enum_spec(
                    old(self).ctx(),
                    old(self).current_line as nat,
                    *item_enum,
                );
                &&& final(self).current_line as nat == step.line
                &&& result_extended(*old(result), *final(result), step.out)
            }),
    {
        let ghost res0 = *result;
        self.update_location_from_text(&item_enum.text);
        if str_contains(item_enum.name.as_str(), "Error") {
            result.push_info(
                String::from_str("Error enum detected - ensure proper error handling"),
                self.location(),
            );
        }
        proof {
            let step = visit_enum_spec(
                old(self).ctx(),
                old(self).current_line as nat,
                *item_enum,
            );
            assert(result.vulnerabilities.deep_view() =~= res0.vulnerabilities.deep_view()
                + step.out.vulns);
            assert(result.warnings.deep_view() =~= res0.warnings.deep_view()
                + step.out.warns);
            assert(result.info.deep_view() =~= res0.info.deep_view() + step.out.infos);
        }
    }

    /// Visits one item: functions, records and enums get their
    /// dedicated checks; grouped items are recursed into transparently.
    #[verifier::rlimit(30)]
    pub fn visit_item(&mut self, item: &Item, result: &mut AnalysisResult)
        requires
            old(self).wf(),
        ensures
            final(self).wf(),
            final(self).current_file == old(self).current_file,
            final(self).file_chars == old(self).file_chars,
            final(self).has_overflow_checks == old(self).has_overflow_checks,
            ({
                let step = visit_item_spec(
                    old(self).ctx(),
                    old(self).current_line as nat,
                    *item,
                );
                &&& final(self).current_line as nat == step.line
                &&& result_extended(*old(result), *final(result), step.out)
            }),
        decreases *item,
    {
        let ghost ctx0 = self.ctx();
        let ghost line0 = self.current_line as nat;
        let ghost res0 = *result;
        match item {
            Item::Func(item_fn) => {
                self.check_function(item_fn, result);
            },
            Item::Rec(item_struct) => {
                self.check_struct(item_struct, result);
            },
            Item::Enumeration(item_enum) => {
                self.check_enum(item_enum, result);
            },
            Item::Grouped(group) => {
                self.update_location_from_text(&group.text);
                let ghost l1 = self.current_line as nat;
                let mut i: usize = 0;
                while i < group.items.len()
                    invariant
                        i <= group.items@.len(),
                        *item == Item::Grouped(*group),
                        self.wf(),
                        self.ctx() == ctx0,
                        self.current_file == old(self).current_file,
                        self.file_chars == old(self).file_chars,
                        self.has_overflow_checks == old(self).has_overflow_checks,
                        ({
                            let part = visit_items_spec(
                                ctx0,
                                l1,
                                group.items@.subrange(0, i as int),
                            );
                            &&& self.current_line as nat == part.line
                            &&& result_extended(res0, *result, part.out)
                        }),
                    decreases group.items@.len() - i,
                {
                    let ghost part_pre = visit_items_spec(
                        ctx0,
                        l1,
                        group.items@.subrange(0, i as int),
                    );
                    proof {
                        assert(*item == Item::Grouped(*group));
                        assert(item->Grouped_0 == *group);
                        assert(decreases_to!(*item => item->Grouped_0));
                        assert(decreases_to!(*group => group.items@[i as int]));
                        assert(decreases_to!(*item => group.items@[i as int]));
                    }
                    self.visit_item(&group.items[i], result);
                    proof {
                        let pre = group.items@.subrange(0, i + 1);
                        assert(pre.drop_last() =~= group.items@.subrange(0, i as int));
                        assert(pre.last() == group.items@[i as int]);
                        let one = visit_item_spec(ctx0, part_pre.line, group.items@[
                            i as int
                        ]);
                        let part_post = visit_items_spec(ctx0, l1, pre);
                        assert(part_post.out =~= part_pre.out.plus(one.out));
                        assert(result.vulnerabilities.deep_view()
                            =~= res0.vulnerabilities.deep_view() + part_post.out.vulns);
                        assert(result.warnings.deep_view() =~= res0.warnings.deep_view()
                            + part_post.out.warns);
                        assert(result.info.deep_view() =~= res0.info.deep_view()
                            + part_post.out.infos);
                    }
                    i += 1;
                }
                proof {
                    assert(group.items@.subrange(0, group.items@.len() as int)
                        =~= group.items@);
                }
            },
        }
    }

    /// Visits one parsed file: its items in source order. The findings
    /// appended to the result are exactly what the specification
    /// interpreter defines for this file.
    pub fn visit_file(&mut self, file: &SourceFile, result: &mut AnalysisResult)
        requires
            old(self).wf(),
        ensures
            final(self).wf(),
            ({
                let step = visit_items_spec(
                    old(self).ctx(),
                    old(self).current_line as nat,
                    file.items@,
                );
                &&& final(self).current_line as nat == step.line
                &&& result_extended(*old(result), *final(result), step.out)
            }),
    {
        let ghost ctx0 = self.ctx();
        let ghost line0 = self.current_line as nat;
        let ghost res0 = *result;
        let mut i: usize = 0;
        while i < file.items.len()
            invariant
                i <= file.items@.len(),
                self.wf(),
                self.ctx() == ctx0,
                ({
                    let part = visit_items_spec(
                        ctx0,
                        line0,
                        file.items@.subrange(0, i as int),
                    );
                    &&& self.current_line as nat == part.line
                    &&& result_extended(res0, *result, part.out)
                }),
            decreases file.items@.len() - i,
        {
            let ghost part_pre = visit_items_spec(
                ctx0,
                line0,
                file.items@.subrange(0, i as int),
            );
            self.visit_item(&file.items[i], result);
            proof {
                let pre = file.items@.subrange(0, i + 1);
                assert(pre.drop_last() =~= file.items@.subrange(0, i as int));
                assert(pre.last() == file.items@[i as int]);
                let one = visit_item_spec(ctx0, part_pre.line, file.items@[i as int]);
                let part_post = visit_items_spec(ctx0, line0, pre);
                assert(part_post.out =~= part_pre.out.plus(one.out));
                assert(result.vulnerabilities.deep_view() =~= res0.vulnerabilities.deep_view()
                    + part_post.out.vulns);
                assert(result.warnings.deep_view() =~= res0.warnings.deep_view()
                    + part_post.out.warns);
                assert(result.info.deep_view() =~= res0.info.deep_view()
                    + part_post.out.infos);
            }
            i += 1;
        }
        proof {
            assert(file.items@.subrange(0, file.items@.len() as int) =~= file.items@);
        }
    }
}

/// Whether some attribute's text contains `needle`.
fn attrs_contain_exec(attrs: &Vec<AttrDecl>, needle: &str) -> (r: bool)
    ensures
        r == attrs_contain(attrs@, needle@),
{
    let mut i: usize = 0;
    while i < attrs.len()
        invariant
            i <= attrs@.len(),
            forall|k: int| 0 <= k < i ==> !contains_seq(attrs@[k].text@, needle@),
        decreases attrs@.len() - i,
    {
        if str_contains(attrs[i].text.as_str(), needle) {
            return true;
        }
        i += 1;
    }
    false
}

/// Whether some attribute marks the field as constrained.
fn has_constraints_exec(attrs: &Vec<AttrDecl>) -> (r: bool)
    ensures
        r == has_constraints(attrs@),
{
    let mut i: usize = 0;
    while i < attrs.len()
        invariant
            i <= attrs@.len(),
            forall|k: int|
                0 <= k < i ==> !(contains_seq(attrs@[k].text@, "account"@) || contains_seq(
                    attrs@[k].text@,
                    "signer"@,
                ) || contains_seq(attrs@[k].text@, "constraint"@) || contains_seq(
                    attrs@[k].text@,
                    "owner"@,
                )),
        decreases attrs@.len() - i,
    {
        let t = attrs[i].text.as_str();
        if str_contains(t, "account") || str_contains(t, "signer") || str_contains(
            t,
            "constraint",
        ) || str_contains(t, "owner") {
            return true;
        }
        i += 1;
    }
    false
}

/// Whether the attribute text has a comma-separated part saying `init`
/// but not `init_if_needed`.
fn has_bare_init_exec(t: &String) -> (r: bool)
    ensures
        r == has_bare_init_part(t@),
{
    let tc = chars_of(t.as_str());
    let parts = split_comma_exec(&tc);
    let needle_init = chars_of("init");
    let needle_iin = chars_of("init_if_needed");
    let mut i: usize = 0;
    while i < parts.len()
        invariant
            i <= parts@.len(),
            parts.deep_view() == split_comma(t@),
            needle_init@ == "init"@,
            needle_iin@ == "init_if_needed"@,
            forall|k: int|
                0 <= k < i ==> !(contains_seq(split_comma(t@)[k], "init"@) && !contains_seq(
                    split_comma(t@)[k],
                    "init_if_needed"@,
                )),
        decreases parts@.len() - i,
    {
        proof {
            assert(parts@[i as int].deep_view() =~= parts@[i as int]@);
            assert(parts.deep_view()[i as int] == parts@[i as int].deep_view());
        }
        if vec_contains(&parts[i], &needle_init) && !vec_contains(&parts[i], &needle_iin) {
            proof {
                assert(contains_seq(split_comma(t@)[i as int], "init"@) && !contains_seq(
                    split_comma(t@)[i as int],
                    "init_if_needed"@,
                ));
            }
            return true;
        }
        i += 1;
    }
    false
}

/// Whether a boolean field literally named `is_initialized` exists.
fn has_is_initialized_field_exec(fields: &Vec<FieldDecl>) -> (r: bool)
    ensures
        r == has_is_initialized_field(fields@),
{
    let mut i: usize = 0;
    while i < fields.len()
        invariant
            i <= fields@.len(),
            forall|k: int|
                0 <= k < i ==> !(fields@[k].name@ == "is_initialized"@ && contains_seq(
                    fields@[k].type_text@,
                    "bool"@,
                )),
        decreases fields@.len() - i,
    {
        if str_eq(fields[i].name.as_str(), "is_initialized") && str_contains(
            fields[i].type_text.as_str(),
            "bool",
        ) {
            return true;
        }
        i += 1;
    }
    false
}

} // verus!
