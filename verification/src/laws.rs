//! Properties of the detection rules, proved once and for all over the
//! specification interpreter: which findings an initialization function
//! yields, how arithmetic findings count per occurrence, what an
//! unchecked account field of an accounts struct yields, when an
//! associated-token-account constraint is flagged, that sibling
//! functions cannot leak state into one another, and that a missing
//! description directory means an empty catalog whose lookups all fail.

use vstd::prelude::*;
use crate::findings::{Severity, VulnerabilityV, InfoV};
use crate::syntax::{BinOp, ExprKind, Expr, Function, AttrDecl, Record, Item};
use crate::rules::{Ctx, FnStateV, Emits, ItemStep, vuln_at, is_init_name, params_have_bump,
    body_has_init_check, guard_emits, issues_state, issues_emits, validation_state,
    arith_emits, visit_expr_spec, visit_exprs_spec, name_warn_emits, exit_emits,
    visit_function_spec, is_arith, arith_vuln_desc, arith_info_desc, visit_record_spec,
    visit_field_spec, visit_fields_spec, ata_attr_step, ata_attrs_step, is_ata_field,
    has_bare_init_part, is_accounts_struct, has_constraints, is_program_name,
    account_info_emits, account_wrapper_emits, bump_attr_emits, visit_items_spec, at};
use crate::text::{contains_seq, resolve_line};
use crate::utils::{CatalogEntryV, spec_load, first_match, catalog_from_docs};

verus! {

/// The number of elements of `s` that satisfy `p`.
pub open spec fn count_matching<T>(s: Seq<T>, p: spec_fn(T) -> bool) -> nat
    decreases s.len(),
{
    if s.len() == 0 {
        0
    } else {
        count_matching(s.drop_last(), p) + (if p(s.last()) {
            1nat
        } else {
            0nat
        })
    }
}

proof fn lemma_count_matching_app<T>(a: Seq<T>, b: Seq<T>, p: spec_fn(T) -> bool)
    ensures
        count_matching(a + b, p) == count_matching(a, p) + count_matching(b, p),
    decreases b.len(),
{
    if b.len() == 0 {
        assert(a + b =~= a);
    } else {
        assert((a + b).drop_last() =~= a + b.drop_last());
        assert((a + b).last() == b.last());
        lemma_count_matching_app(a, b.drop_last(), p);
    }
}

proof fn lemma_count_matching_zero<T>(s: Seq<T>, p: spec_fn(T) -> bool)
    requires
        forall|i: int| 0 <= i < s.len() ==> !p(#[trigger] s[i]),
    ensures
        count_matching(s, p) == 0,
    decreases s.len(),
{
    if s.len() > 0 {
        assert(forall|i: int| 0 <= i < s.len() - 1 ==> s.drop_last()[i] == s[i]);
        lemma_count_matching_zero(s.drop_last(), p);
    }
}

pub open spec fn reinit_desc() -> Seq<char> {
    "Initialization function without reinitialization check"@
}

pub open spec fn remaining_accounts_desc() -> Seq<char> {
    "Accessing remaining_accounts without proper validation"@
}

pub open spec fn arbitrary_cpi_desc() -> Seq<char> {
    "Potential arbitrary CPI vulnerability detected"@
}

/// One of the three arithmetic vulnerability descriptions.
pub open spec fn is_arith_vuln(v: VulnerabilityV) -> bool {
    v.description == arith_vuln_desc(BinOp::Add) || v.description == arith_vuln_desc(
        BinOp::Sub,
    ) || v.description == arith_vuln_desc(BinOp::Mul)
}

/// One of the three arithmetic informational descriptions.
pub open spec fn is_arith_info(i: InfoV) -> bool {
    i.description == arith_info_desc(BinOp::Add) || i.description == arith_info_desc(
        BinOp::Sub,
    ) || i.description == arith_info_desc(BinOp::Mul)
}

/// Every vulnerability the expression walk itself can emit: the direct
/// cross-program-invocation critical, or a High arithmetic finding.
pub open spec fn expr_vuln_shape(v: VulnerabilityV) -> bool {
    (v.description == arbitrary_cpi_desc() && v.severity == Severity::Critical) || (
    is_arith_vuln(v) && v.severity == Severity::High)
}

/// The distinctness of the finding descriptions the lemmas tell apart.
proof fn lemma_desc_distinct()
    ensures
        reinit_desc() != remaining_accounts_desc(),
        reinit_desc() != arbitrary_cpi_desc(),
        reinit_desc() != "Account data accessed after CPI without reload()"@,
        reinit_desc() != "Possible bump seed canonicalization vulnerability detected"@,
        remaining_accounts_desc() != arbitrary_cpi_desc(),
        remaining_accounts_desc() != "Account data accessed after CPI without reload()"@,
        remaining_accounts_desc()
            != "Possible bump seed canonicalization vulnerability detected"@,
        arith_vuln_desc(BinOp::Add).len() == 70,
        arith_vuln_desc(BinOp::Sub).len() == 73,
        arith_vuln_desc(BinOp::Mul).len() == 76,
        arith_info_desc(BinOp::Add).len() == 73,
        arith_info_desc(BinOp::Sub).len() == 76,
        arith_info_desc(BinOp::Mul).len() == 79,
        reinit_desc().len() == 54,
        remaining_accounts_desc().len() == 54,
        arbitrary_cpi_desc().len() == 46,
        ("Account data accessed after CPI without reload()"@).len() == 48,
        ("Possible bump seed canonicalization vulnerability detected"@).len() == 58,
        ("Detected is_initialized check to prevent reinitialization"@).len() == 57,
        ("Detected is_initialized assertion to prevent reinitialization"@).len() == 61,
{
    reveal_strlit("Initialization function without reinitialization check");
    reveal_strlit("Accessing remaining_accounts without proper validation");
    reveal_strlit("Potential arbitrary CPI vulnerability detected");
    reveal_strlit("Account data accessed after CPI without reload()");
    reveal_strlit("Possible bump seed canonicalization vulnerability detected");
    reveal_strlit("Potential arithmetic overflow/underflow detected in ");
    reveal_strlit("Arithmetic operation with runtime overflow protection: ");
    reveal_strlit("addition");
    reveal_strlit("subtraction");
    reveal_strlit("multiplication");
    reveal_strlit(" operation");
    reveal_strlit("Detected is_initialized check to prevent reinitialization");
    reveal_strlit("Detected is_initialized assertion to prevent reinitialization");
    assert(reinit_desc()[0] == 'I');
    assert(remaining_accounts_desc()[0] == 'A');
    assert(remaining_accounts_desc().len() == 54);
    assert(("Account data accessed after CPI without reload()"@).len() == 48);
    assert(remaining_accounts_desc() != "Account data accessed after CPI without reload()"@);
}

/// The expression walk only emits direct-CPI criticals and High
/// arithmetic vulnerabilities, and never changes the init-like and
/// bump-parameter classification of the function it runs in.
proof fn lemma_expr_walk_shape(ctx: Ctx, line: nat, st: FnStateV, e: Expr)
    ensures
        ({
            let r = visit_expr_spec(ctx, line, st, e);
            &&& forall|i: int|
                0 <= i < r.out.vulns.len() ==> expr_vuln_shape(#[trigger] r.out.vulns[i])
            &&& r.st.is_init == st.is_init
            &&& r.st.has_bump == st.has_bump
        }),
    decreases e,
{
    let l1 = resolve_line(ctx.content, e.text@, line);
    let st1 = issues_state(st, e);
    let st2 = validation_state(st1, e);
    lemma_exprs_walk_shape(ctx, l1, st2, e.children@);
    let og = guard_emits(ctx, l1, st, e);
    let oi = issues_emits(ctx, l1, e);
    let oa = arith_emits(ctx, l1, e);
    let rec = visit_exprs_spec(ctx, l1, st2, e.children@);
    let r = visit_expr_spec(ctx, line, st, e);
    assert(r.out.vulns == og.vulns + oi.vulns + oa.vulns + rec.out.vulns);
    assert forall|i: int|
        0 <= i < r.out.vulns.len() implies expr_vuln_shape(#[trigger] r.out.vulns[i]) by {
        if i < og.vulns.len() + oi.vulns.len() + oa.vulns.len() {
            assert(r.out.vulns[i] == (og.vulns + oi.vulns + oa.vulns)[i]);
        } else {
            assert(r.out.vulns[i] == rec.out.vulns[i - (og.vulns.len() + oi.vulns.len()
                + oa.vulns.len())]);
        }
    }
}

proof fn lemma_exprs_walk_shape(ctx: Ctx, line: nat, st: FnStateV, es: Seq<Expr>)
    ensures
        ({
            let r = visit_exprs_spec(ctx, line, st, es);
            &&& forall|i: int|
                0 <= i < r.out.vulns.len() ==> expr_vuln_shape(#[trigger] r.out.vulns[i])
            &&& r.st.is_init == st.is_init
            &&& r.st.has_bump == st.has_bump
        }),
    decreases es,
{
    if es.len() > 0 {
        let butlast = visit_exprs_spec(ctx, line, st, es.drop_last());
        lemma_exprs_walk_shape(ctx, line, st, es.drop_last());
        lemma_expr_walk_shape(ctx, butlast.line, butlast.st, es.last());
        let last = visit_expr_spec(ctx, butlast.line, butlast.st, es.last());
        let r = visit_exprs_spec(ctx, line, st, es);
        assert(r.out.vulns == butlast.out.vulns + last.out.vulns);
        assert forall|i: int|
            0 <= i < r.out.vulns.len() implies expr_vuln_shape(#[trigger] r.out.vulns[i]) by {
            if i < butlast.out.vulns.len() {
                assert(r.out.vulns[i] == butlast.out.vulns[i]);
            } else {
                assert(r.out.vulns[i] == last.out.vulns[i - butlast.out.vulns.len()]);
            }
        }
    }
}

/// An init-like function whose rendered body carries no
/// reinitialization check yields exactly one vulnerability that says
/// so, and it is High.
pub proof fn lemma_init_without_check_flagged(ctx: Ctx, line: nat, f: Function)
    requires
        is_init_name(f.name@),
        !body_has_init_check(f.body_text@),
    ensures
        ({
            let out = visit_function_spec(ctx, line, f).out;
            &&& count_matching(out.vulns, |v: VulnerabilityV| v.description == reinit_desc())
                == 1
            &&& forall|i: int|
                0 <= i < out.vulns.len() && (#[trigger] out.vulns[i]).description
                    == reinit_desc() ==> out.vulns[i].severity == Severity::High
        }),
{
    lemma_desc_distinct();
    let p = |v: VulnerabilityV| v.description == reinit_desc();
    let l1 = resolve_line(ctx.content, f.text@, line);
    let st0 = FnStateV::entry(is_init_name(f.name@), params_have_bump(f.params.deep_view()));
    let o_name = name_warn_emits(ctx, l1, f.name@);
    let body = visit_exprs_spec(ctx, l1, st0, f.body@);
    lemma_exprs_walk_shape(ctx, l1, st0, f.body@);
    let o_exit = exit_emits(ctx, body.line, body.st, f.body_text@);
    let out = visit_function_spec(ctx, line, f).out;
    assert(out.vulns == o_name.vulns + body.out.vulns + o_exit.vulns);
    assert(o_name.vulns.len() == 0);
    lemma_count_matching_app(o_name.vulns + body.out.vulns, o_exit.vulns, p);
    lemma_count_matching_app(o_name.vulns, body.out.vulns, p);
    lemma_count_matching_zero(o_name.vulns, p);
    assert(forall|i: int|
        0 <= i < body.out.vulns.len() ==> !p(#[trigger] body.out.vulns[i]));
    lemma_count_matching_zero(body.out.vulns, p);
    assert(body.st.is_init);
    assert(count_matching(o_exit.vulns, p) == 1) by {
        let o1 = if body.st.rem_access && !body.st.rem_valid {
            Emits::just_vuln(
                vuln_at(
                    ctx,
                    body.line,
                    Severity::High,
                    remaining_accounts_desc(),
                    "Always validate remaining accounts before using them. Check account ownership, type, and other constraints."@,
                ),
            )
        } else {
            Emits::none()
        };
        lemma_count_matching_zero(o1.vulns, p);
        assert(o_exit.vulns.len() <= 4);
        reveal_with_fuel(count_matching, 5);
    }
    assert forall|i: int|
        0 <= i < out.vulns.len() && (#[trigger] out.vulns[i]).description == reinit_desc()
        implies out.vulns[i].severity == Severity::High by {
        if i < o_name.vulns.len() + body.out.vulns.len() {
            assert(out.vulns[i] == (o_name.vulns + body.out.vulns)[i]);
        } else {
            assert(out.vulns[i] == o_exit.vulns[i - (o_name.vulns.len()
                + body.out.vulns.len())]);
        }
    }
}

/// A function whose rendered body does carry a reinitialization check
/// is never flagged for a missing one, init-like or not.
pub proof fn lemma_init_with_check_suppressed(ctx: Ctx, line: nat, f: Function)
    requires
        body_has_init_check(f.body_text@),
    ensures
        count_matching(
            visit_function_spec(ctx, line, f).out.vulns,
            |v: VulnerabilityV| v.description == reinit_desc(),
        ) == 0,
{
    lemma_desc_distinct();
    let p = |v: VulnerabilityV| v.description == reinit_desc();
    let l1 = resolve_line(ctx.content, f.text@, line);
    let st0 = FnStateV::entry(is_init_name(f.name@), params_have_bump(f.params.deep_view()));
    let o_name = name_warn_emits(ctx, l1, f.name@);
    let body = visit_exprs_spec(ctx, l1, st0, f.body@);
    lemma_exprs_walk_shape(ctx, l1, st0, f.body@);
    let o_exit = exit_emits(ctx, body.line, body.st, f.body_text@);
    let out = visit_function_spec(ctx, line, f).out;
    assert(out.vulns == o_name.vulns + body.out.vulns + o_exit.vulns);
    lemma_count_matching_app(o_name.vulns + body.out.vulns, o_exit.vulns, p);
    lemma_count_matching_app(o_name.vulns, body.out.vulns, p);
    lemma_count_matching_zero(o_name.vulns, p);
    assert(forall|i: int|
        0 <= i < body.out.vulns.len() ==> !p(#[trigger] body.out.vulns[i]));
    lemma_count_matching_zero(body.out.vulns, p);
    assert(count_matching(o_exit.vulns, p) == 0) by {
        assert(o_exit.vulns.len() <= 3);
        reveal_with_fuel(count_matching, 5);
        assert(forall|i: int|
            0 <= i < o_exit.vulns.len() ==> !p(#[trigger] o_exit.vulns[i]));
        lemma_count_matching_zero(o_exit.vulns, p);
    }
}

/// The number of add/sub/mul nodes in one expression tree.
pub open spec fn arith_nodes(e: Expr) -> nat
    decreases e,
{
    (match e.kind {
        ExprKind::Binary { op } => if is_arith(op) {
            1nat
        } else {
            0nat
        },
        _ => 0nat,
    }) + arith_nodes_list(e.children@)
}

pub open spec fn arith_nodes_list(es: Seq<Expr>) -> nat
    decreases es,
{
    if es.len() == 0 {
        0
    } else {
        arith_nodes_list(es.drop_last()) + arith_nodes(es.last())
    }
}

/// Each add/sub/mul occurrence yields exactly one High arithmetic
/// vulnerability when the overflow-checking fact is off, and exactly
/// one arithmetic informational item (and no vulnerability) when it is
/// on.
pub proof fn lemma_arith_per_occurrence(ctx: Ctx, line: nat, st: FnStateV, e: Expr)
    ensures
        ({
            let r = visit_expr_spec(ctx, line, st, e);
            &&& count_matching(r.out.vulns, |v: VulnerabilityV| is_arith_vuln(v)) == (
            if ctx.overflow_checks {
                0nat
            } else {
                arith_nodes(e)
            })
            &&& count_matching(r.out.infos, |i: InfoV| is_arith_info(i)) == (
            if ctx.overflow_checks {
                arith_nodes(e)
            } else {
                0nat
            })
        }),
    decreases e,
{
    lemma_desc_distinct();
    let pv = |v: VulnerabilityV| is_arith_vuln(v);
    let pi = |i: InfoV| is_arith_info(i);
    let l1 = resolve_line(ctx.content, e.text@, line);
    let st1 = issues_state(st, e);
    let st2 = validation_state(st1, e);
    lemma_arith_per_occurrence_list(ctx, l1, st2, e.children@);
    let og = guard_emits(ctx, l1, st, e);
    let oi = issues_emits(ctx, l1, e);
    let oa = arith_emits(ctx, l1, e);
    let rec = visit_exprs_spec(ctx, l1, st2, e.children@);
    let r = visit_expr_spec(ctx, line, st, e);
    assert(r.out.vulns == og.vulns + oi.vulns + oa.vulns + rec.out.vulns);
    assert(r.out.infos == og.infos + oi.infos + oa.infos + rec.out.infos);
    lemma_count_matching_app(og.vulns + oi.vulns + oa.vulns, rec.out.vulns, pv);
    lemma_count_matching_app(og.vulns + oi.vulns, oa.vulns, pv);
    lemma_count_matching_app(og.vulns, oi.vulns, pv);
    lemma_count_matching_zero(og.vulns, pv);
    assert(forall|i: int| 0 <= i < oi.vulns.len() ==> !pv(#[trigger] oi.vulns[i]));
    lemma_count_matching_zero(oi.vulns, pv);
    assert(count_matching(oa.vulns, pv) == (if ctx.overflow_checks {
        0nat
    } else {
        (match e.kind {
            ExprKind::Binary { op } => if is_arith(op) {
                1nat
            } else {
                0nat
            },
            _ => 0nat,
        })
    })) by {
        reveal_with_fuel(count_matching, 3);
    }
    lemma_count_matching_app(og.infos + oi.infos + oa.infos, rec.out.infos, pi);
    lemma_count_matching_app(og.infos + oi.infos, oa.infos, pi);
    lemma_count_matching_app(og.infos, oi.infos, pi);
    assert(forall|i: int| 0 <= i < og.infos.len() ==> !pi(#[trigger] og.infos[i]));
    lemma_count_matching_zero(og.infos, pi);
    lemma_count_matching_zero(oi.infos, pi);
    assert(count_matching(oa.infos, pi) == (if ctx.overflow_checks {
        (match e.kind {
            ExprKind::Binary { op } => if is_arith(op) {
                1nat
            } else {
                0nat
            },
            _ => 0nat,
        })
    } else {
        0nat
    })) by {
        reveal_with_fuel(count_matching, 3);
    }
}

proof fn lemma_arith_per_occurrence_list(ctx: Ctx, line: nat, st: FnStateV, es: Seq<Expr>)
    ensures
        ({
            let r = visit_exprs_spec(ctx, line, st, es);
            &&& count_matching(r.out.vulns, |v: VulnerabilityV| is_arith_vuln(v)) == (
            if ctx.overflow_checks {
                0nat
            } else {
                arith_nodes_list(es)
            })
            &&& count_matching(r.out.infos, |i: InfoV| is_arith_info(i)) == (
            if ctx.overflow_checks {
                arith_nodes_list(es)
            } else {
                0nat
            })
        }),
    decreases es,
{
    let pv = |v: VulnerabilityV| is_arith_vuln(v);
    let pi = |i: InfoV| is_arith_info(i);
    if es.len() == 0 {
        reveal_with_fuel(count_matching, 2);
    } else {
        let butlast = visit_exprs_spec(ctx, line, st, es.drop_last());
        lemma_arith_per_occurrence_list(ctx, line, st, es.drop_last());
        lemma_arith_per_occurrence(ctx, butlast.line, butlast.st, es.last());
        let last = visit_expr_spec(ctx, butlast.line, butlast.st, es.last());
        let r = visit_exprs_spec(ctx, line, st, es);
        assert(r.out.vulns == butlast.out.vulns + last.out.vulns);
        assert(r.out.infos == butlast.out.infos + last.out.infos);
        lemma_count_matching_app(butlast.out.vulns, last.out.vulns, pv);
        lemma_count_matching_app(butlast.out.infos, last.out.infos, pi);
    }
}

/// A lone unconstrained unchecked-account field of an accounts struct
/// yields exactly one vulnerability: Critical, naming an arbitrary-CPI
/// risk, when the field name suggests a program reference; High
/// otherwise. Renaming the field away from a program-like name lowers
/// the severity, never the count.
pub proof fn lemma_unchecked_account_field(ctx: Ctx, line: nat, r: Record)
    requires
        is_accounts_struct(r.attrs@),
        r.fields@.len() == 1,
        r.fields@[0].attrs@.len() == 0,
        contains_seq(r.fields@[0].type_text@, "AccountInfo"@),
        !contains_seq(r.fields@[0].type_text@, "Account<"@),
    ensures
        ({
            let out = visit_record_spec(ctx, line, r).out;
            let f = r.fields@[0];
            let l1 = resolve_line(ctx.content, r.text@, line);
            let lf = resolve_line(ctx.content, f.text@, l1);
            &&& is_program_name(f.name@) ==> out.vulns =~= seq![
                vuln_at(
                    ctx,
                    lf,
                    Severity::Critical,
                    "Unchecked program AccountInfo in struct "@ + r.name@ + ": field "@
                        + f.name@ + " - potential arbitrary CPI vulnerability"@,
                    "Use Program<'info, T> instead of AccountInfo for program accounts to automatically validate program IDs, or add explicit validation checks."@,
                ),
            ]
            &&& !is_program_name(f.name@) ==> out.vulns =~= seq![
                vuln_at(
                    ctx,
                    lf,
                    Severity::High,
                    "Unchecked AccountInfo in struct "@ + r.name@ + ": field "@ + f.name@,
                    "Add proper constraints to AccountInfo fields using Anchor attributes (e.g., #[account(...)])."@,
                ),
            ]
        }),
{
    let f = r.fields@[0];
    let l1 = resolve_line(ctx.content, r.text@, line);
    let lf = resolve_line(ctx.content, f.text@, l1);
    assert(!has_constraints(f.attrs@));
    assert(f.attrs@ =~= Seq::<AttrDecl>::empty());
    let acc_out = account_info_emits(ctx, lf, f, r.name@);
    assert(account_wrapper_emits(ctx, lf, f, r.name@) =~= Emits::none());
    assert(ata_attrs_step(ctx, lf, f.attrs@, f.name@).out =~= Emits::none());
    let field_step = visit_field_spec(ctx, l1, f, r.name@);
    assert(field_step.out.vulns =~= acc_out.vulns);
    assert(r.fields@.drop_last() =~= Seq::<crate::syntax::FieldDecl>::empty());
    assert(r.fields@.last() == f);
    let fields_step = visit_fields_spec(ctx, l1, r.fields@, r.name@);
    assert(visit_fields_spec(ctx, l1, r.fields@.drop_last(), r.name@).out =~= Emits::none());
    assert(fields_step.out.vulns =~= acc_out.vulns);
    let out = visit_record_spec(ctx, line, r).out;
    assert(out.vulns =~= acc_out.vulns);
}

/// An `account` attribute that marks an associated token account and
/// uses `init` without `init_if_needed` yields exactly one Critical
/// vulnerability; the same attribute with `init_if_needed` yields none.
pub proof fn lemma_ata_init_flagged(ctx: Ctx, line: nat, a: AttrDecl, field_name: Seq<char>)
    requires
        a.is_account_attr,
        is_ata_field(a.text@, field_name),
    ensures
        ({
            let step = ata_attr_step(ctx, line, a, field_name);
            let l1 = resolve_line(ctx.content, a.text@, line);
            &&& (has_bare_init_part(a.text@) && !contains_seq(a.text@, "init_if_needed"@))
                ==> step.out.vulns =~= seq![
                vuln_at(
                    ctx,
                    l1,
                    Severity::Critical,
                    "Associated Token Account '"@ + field_name
                        + "' initialized with 'init' constraint instead of 'init_if_needed'"@,
                    "Use 'init_if_needed' for Associated Token Accounts to handle cases where users already have ATAs created. Using 'init' will fail if the account already exists."@,
                ),
            ]
            &&& contains_seq(a.text@, "init_if_needed"@) ==> step.out.vulns
                =~= Seq::<VulnerabilityV>::empty()
        }),
{
}

/// Sibling functions are analyzed in isolation: what two adjacent
/// function items emit is exactly the concatenation of what each emits
/// on its own, each from a fresh per-function state.
pub proof fn lemma_sibling_functions_isolated(ctx: Ctx, line: nat, f1: Function, f2: Function)
    ensures
        ({
            let s1 = visit_function_spec(ctx, line, f1);
            let s2 = visit_function_spec(ctx, s1.line, f2);
            visit_items_spec(ctx, line, seq![Item::Func(f1), Item::Func(f2)]) == (ItemStep {
                line: s2.line,
                out: s1.out.plus(s2.out),
            })
        }),
{
    reveal_with_fuel(visit_items_spec, 4);
    let items = seq![Item::Func(f1), Item::Func(f2)];
    let s1 = visit_function_spec(ctx, line, f1);
    let s2 = visit_function_spec(ctx, s1.line, f2);
    assert(items.drop_last() =~= seq![Item::Func(f1)]);
    assert(items.last() == Item::Func(f2));
    assert(seq![Item::Func(f1)].drop_last() =~= Seq::<Item>::empty());
    assert(seq![Item::Func(f1)].last() == Item::Func(f1));
    assert(visit_items_spec(ctx, line, Seq::<Item>::empty()) == (ItemStep {
        line,
        out: Emits::none(),
    }));
    let one = visit_items_spec(ctx, line, seq![Item::Func(f1)]);
    assert(one.line == s1.line);
    assert(one.out =~= Emits::none().plus(s1.out));
    assert(one.out =~= s1.out);
    let both = visit_items_spec(ctx, line, items);
    assert(both.line == s2.line);
    assert(both.out =~= one.out.plus(s2.out));
    assert(both.out =~= s1.out.plus(s2.out));
    assert(both =~= (ItemStep { line: s2.line, out: s1.out.plus(s2.out) }));
}

/// The unvalidated-remaining-accounts vulnerability of one function is
/// governed by that function's own body alone: it appears exactly once
/// when the body accessed `remaining_accounts` and never validated,
/// and not at all otherwise.
pub proof fn lemma_remaining_accounts_isolated(ctx: Ctx, line: nat, f: Function)
    ensures
        ({
            let l1 = resolve_line(ctx.content, f.text@, line);
            let st0 = FnStateV::entry(
                is_init_name(f.name@),
                params_have_bump(f.params.deep_view()),
            );
            let body = visit_exprs_spec(ctx, l1, st0, f.body@);
            count_matching(
                visit_function_spec(ctx, line, f).out.vulns,
                |v: VulnerabilityV| v.description == remaining_accounts_desc(),
            ) == (if body.st.rem_access && !body.st.rem_valid {
                1nat
            } else {
                0nat
            })
        }),
{
    lemma_desc_distinct();
    let p = |v: VulnerabilityV| v.description == remaining_accounts_desc();
    let l1 = resolve_line(ctx.content, f.text@, line);
    let st0 = FnStateV::entry(is_init_name(f.name@), params_have_bump(f.params.deep_view()));
    let o_name = name_warn_emits(ctx, l1, f.name@);
    let body = visit_exprs_spec(ctx, l1, st0, f.body@);
    lemma_exprs_walk_shape(ctx, l1, st0, f.body@);
    let o_exit = exit_emits(ctx, body.line, body.st, f.body_text@);
    let out = visit_function_spec(ctx, line, f).out;
    assert(out.vulns == o_name.vulns + body.out.vulns + o_exit.vulns);
    lemma_count_matching_app(o_name.vulns + body.out.vulns, o_exit.vulns, p);
    lemma_count_matching_app(o_name.vulns, body.out.vulns, p);
    lemma_count_matching_zero(o_name.vulns, p);
    assert(forall|i: int|
        0 <= i < body.out.vulns.len() ==> !p(#[trigger] body.out.vulns[i]));
    lemma_count_matching_zero(body.out.vulns, p);
    assert(count_matching(o_exit.vulns, p) == (if body.st.rem_access && !body.st.rem_valid {
        1nat
    } else {
        0nat
    })) by {
        assert(o_exit.vulns.len() <= 4);
        reveal_with_fuel(count_matching, 5);
    }
}

/// A missing description directory gives an empty catalog, and every
/// lookup in an empty catalog fails. Detection itself never reads the
/// catalog: what the visitor appends is a function of the file context
/// and tree alone, and the analyzer's contracts state that the catalog
/// field is left untouched.
pub proof fn lemma_missing_description_directory()
    ensures
        spec_load(None, Seq::empty()) =~= Seq::<CatalogEntryV>::empty(),
        forall|kw: Seq<char>| first_match(Seq::<CatalogEntryV>::empty(), kw) is None,
{
    assert(catalog_from_docs(Seq::empty()) =~= Seq::<CatalogEntryV>::empty());
}

} // verus!
