//! Tests of the visitor engine over hand-built syntax trees: each test
//! parses nothing, it constructs the tree a source loader would hand
//! the engine and checks the exact findings.

use pluton::findings::AnalysisResult;
use pluton::findings::Severity;
use pluton::syntax::AttrDecl;
use pluton::syntax::BinOp;
use pluton::syntax::Expr;
use pluton::syntax::ExprKind;
use pluton::syntax::FieldDecl;
use pluton::syntax::Function;
use pluton::syntax::Item;
use pluton::syntax::Record;
use pluton::syntax::EnumDecl;
use pluton::syntax::SourceFile;
use pluton::visitor::AnchorVisitor;

fn run(content: &str, items: Vec<Item>, overflow_checks: bool) -> AnalysisResult {
    let mut result = AnalysisResult::default();
    let mut visitor = AnchorVisitor::new("lib.rs".to_string(), content, overflow_checks);
    visitor.visit_file(&SourceFile { items }, &mut result);
    result
}

fn leaf(text: &str, kind: ExprKind) -> Expr {
    Expr { text: text.to_string(), kind, children: vec![] }
}

fn func(name: &str, text: &str, params: Vec<&str>, body_text: &str, body: Vec<Expr>) -> Item {
    Item::Func(Function {
        name: name.to_string(),
        text: text.to_string(),
        params: params.into_iter().map(|p| p.to_string()).collect(),
        body_text: body_text.to_string(),
        body,
    })
}

#[test]
fn init_function_without_check_is_flagged_once() {
    let content = "fn initialize_vault() {\n    vault.balance = 0;\n}\n";
    let result = run(
        content,
        vec![func(
            "initialize_vault",
            "fn initialize_vault() {\n    vault.balance = 0;\n}",
            vec![],
            "{ vault . balance = 0 ; }",
            vec![],
        )],
        true,
    );
    assert_eq!(result.vulnerabilities.len(), 1);
    let v = &result.vulnerabilities[0];
    assert_eq!(v.description, "Initialization function without reinitialization check");
    assert!(matches!(v.severity, Severity::High));
    assert_eq!(v.location.file, "lib.rs");
    assert_eq!(v.location.line, 1);
    assert_eq!(v.location.column, 0);
    assert_eq!(
        v.suggestion,
        "Add an is_initialized check to prevent reinitialization attacks. In native Rust, verify an is_initialized flag before setting data. In Anchor, use the init constraint."
    );
    assert_eq!(result.warnings.len(), 0);
    assert_eq!(result.info.len(), 0);
}

#[test]
fn init_function_with_guard_is_not_flagged() {
    let content = "fn create_vault() {\n    if is_initialized { return; }\n}\n";
    let guard = leaf(
        "if is_initialized { return; }",
        ExprKind::Conditional { cond_text: "is_initialized".to_string() },
    );
    let result = run(
        content,
        vec![func(
            "create_vault",
            "fn create_vault() {\n    if is_initialized { return; }\n}",
            vec![],
            "{ if is_initialized { return ; } }",
            vec![guard],
        )],
        true,
    );
    assert_eq!(result.vulnerabilities.len(), 0);
    assert_eq!(result.info.len(), 1);
    assert_eq!(
        result.info[0].description,
        "Detected is_initialized check to prevent reinitialization"
    );
    assert_eq!(result.info[0].location.line, 2);
}

#[test]
fn require_guard_is_noted_but_exit_check_is_independent() {
    // The assertion guard is noted, yet the rendered body lacks the
    // literal `is_initialized`, so the exit-time check still fires:
    // the two signals are independent.
    let content = "fn initialize() {\n    require!(flag);\n}\n";
    let call = leaf(
        "require!(flag)",
        ExprKind::Call {
            callee_text: "require !".to_string(),
            args_text: "is_initialized".to_string(),
        },
    );
    let result = run(
        content,
        vec![func(
            "initialize",
            "fn initialize() {\n    require!(flag);\n}",
            vec![],
            "{ require ! (flag) ; }",
            vec![call],
        )],
        true,
    );
    assert_eq!(result.info.len(), 1);
    assert_eq!(
        result.info[0].description,
        "Detected is_initialized assertion to prevent reinitialization"
    );
    assert_eq!(result.vulnerabilities.len(), 1);
    assert_eq!(
        result.vulnerabilities[0].description,
        "Initialization function without reinitialization check"
    );
}

#[test]
fn arithmetic_without_overflow_checks_is_high_per_occurrence() {
    let content = "fn transfer() {\n    a + b;\n    c - d;\n}\n";
    let add = leaf("a + b", ExprKind::Binary { op: BinOp::Add });
    let sub = leaf("c - d", ExprKind::Binary { op: BinOp::Sub });
    let result = run(
        content,
        vec![func(
            "transfer",
            "fn transfer() {\n    a + b;\n    c - d;\n}",
            vec![],
            "{ a + b ; c - d ; }",
            vec![add, sub],
        )],
        false,
    );
    assert_eq!(result.vulnerabilities.len(), 2);
    assert_eq!(
        result.vulnerabilities[0].description,
        "Potential arithmetic overflow/underflow detected in addition operation"
    );
    assert!(matches!(result.vulnerabilities[0].severity, Severity::High));
    assert_eq!(result.vulnerabilities[0].location.line, 2);
    assert_eq!(
        result.vulnerabilities[1].description,
        "Potential arithmetic overflow/underflow detected in subtraction operation"
    );
    assert_eq!(result.vulnerabilities[1].location.line, 3);
    assert_eq!(result.info.len(), 0);
}

#[test]
fn arithmetic_with_overflow_checks_is_informational_only() {
    let content = "fn transfer() {\n    a * b;\n}\n";
    let mul = leaf("a * b", ExprKind::Binary { op: BinOp::Mul });
    let result = run(
        content,
        vec![func(
            "transfer",
            "fn transfer() {\n    a * b;\n}",
            vec![],
            "{ a * b ; }",
            vec![mul],
        )],
        true,
    );
    assert_eq!(result.vulnerabilities.len(), 0);
    assert_eq!(result.info.len(), 1);
    assert_eq!(
        result.info[0].description,
        "Arithmetic operation with runtime overflow protection: multiplication operation"
    );
}

#[test]
fn nested_arithmetic_counts_each_occurrence() {
    let inner = leaf("a + b", ExprKind::Binary { op: BinOp::Add });
    let outer = Expr {
        text: "a + b + c".to_string(),
        kind: ExprKind::Binary { op: BinOp::Add },
        children: vec![inner, leaf("c", ExprKind::Other)],
    };
    let result = run(
        "fn f() { a + b + c; }\n",
        vec![func("f", "fn f() { a + b + c; }", vec![], "{ a + b + c ; }", vec![outer])],
        false,
    );
    assert_eq!(result.vulnerabilities.len(), 2);
}

#[test]
fn large_integer_literal_is_warned_with_exact_value() {
    let content = "fn f() {\n    let x = 4294967296;\n}\n";
    let lit = leaf("4294967296", ExprKind::IntLit { value: Some(4294967296) });
    let result = run(
        content,
        vec![func(
            "f",
            "fn f() {\n    let x = 4294967296;\n}",
            vec![],
            "{ let x = 4294967296 ; }",
            vec![lit],
        )],
        true,
    );
    assert_eq!(result.warnings.len(), 1);
    assert_eq!(result.warnings[0].description, "Large integer literal detected: 4294967296");
    assert_eq!(result.warnings[0].location.line, 2);
}

#[test]
fn boundary_literal_is_not_warned() {
    let lit = leaf("4294967295", ExprKind::IntLit { value: Some(4294967295) });
    let result = run(
        "fn f() { let x = 4294967295; }\n",
        vec![func("f", "fn f() { .. }", vec![], "{ }", vec![lit])],
        true,
    );
    assert_eq!(result.warnings.len(), 0);
}

#[test]
fn remaining_accounts_access_without_validation_is_flagged() {
    let content = "fn drain(ctx: Context) {\n    let r = ctx.remaining_accounts;\n}\n";
    let access = leaf(
        "ctx.remaining_accounts",
        ExprKind::FieldAccess { member: "remaining_accounts".to_string(), base_is_path: true },
    );
    let result = run(
        content,
        vec![func(
            "drain",
            "fn drain(ctx: Context) {\n    let r = ctx.remaining_accounts;\n}",
            vec!["ctx"],
            "{ let r = ctx . remaining_accounts ; }",
            vec![access],
        )],
        true,
    );
    assert_eq!(result.vulnerabilities.len(), 1);
    assert_eq!(
        result.vulnerabilities[0].description,
        "Accessing remaining_accounts without proper validation"
    );
    assert!(matches!(result.vulnerabilities[0].severity, Severity::High));
}

#[test]
fn remaining_accounts_access_with_validation_is_not_flagged() {
    let access = leaf(
        "ctx.remaining_accounts",
        ExprKind::FieldAccess { member: "remaining_accounts".to_string(), base_is_path: true },
    );
    let check = leaf(
        "account.verify_owner()",
        ExprKind::MethodCall {
            method: "verify_owner".to_string(),
            receiver_text: "account".to_string(),
        },
    );
    let result = run(
        "fn drain(ctx: Context) { .. }\n",
        vec![func("drain", "fn drain(ctx: Context) { .. }", vec!["ctx"], "{ .. }", vec![
            access, check,
        ])],
        true,
    );
    assert_eq!(result.vulnerabilities.len(), 0);
}

#[test]
fn owner_equality_counts_as_validation() {
    let access = leaf(
        "ctx.remaining_accounts",
        ExprKind::FieldAccess { member: "remaining_accounts".to_string(), base_is_path: true },
    );
    let owner_read = leaf(
        "account.owner",
        ExprKind::FieldAccess { member: "owner".to_string(), base_is_path: true },
    );
    let eq = Expr {
        text: "account.owner == expected".to_string(),
        kind: ExprKind::Binary { op: BinOp::Eq },
        children: vec![owner_read, leaf("expected", ExprKind::Other)],
    };
    let result = run(
        "fn drain(ctx: Context) { .. }\n",
        vec![func("drain", "fn drain(ctx: Context) { .. }", vec!["ctx"], "{ .. }", vec![
            access, eq,
        ])],
        true,
    );
    assert_eq!(result.vulnerabilities.len(), 0);
}

#[test]
fn state_does_not_leak_between_sibling_functions() {
    let access = leaf(
        "ctx.remaining_accounts",
        ExprKind::FieldAccess { member: "remaining_accounts".to_string(), base_is_path: true },
    );
    let offender = func(
        "drain",
        "fn drain(ctx: Context) { .. }",
        vec!["ctx"],
        "{ .. }",
        vec![access],
    );
    let sibling = func("tally", "fn tally() { .. }", vec![], "{ }", vec![]);
    let result = run("fn drain(ctx: Context) { .. }\nfn tally() { .. }\n", vec![
        offender, sibling,
    ], true);
    assert_eq!(result.vulnerabilities.len(), 1);
    assert_eq!(
        result.vulnerabilities[0].description,
        "Accessing remaining_accounts without proper validation"
    );
}

#[test]
fn direct_invoke_is_critical_and_access_after_cpi_is_flagged() {
    let call = leaf(
        "invoke_signed(&ix, accounts, seeds)",
        ExprKind::Call {
            callee_text: "invoke_signed".to_string(),
            args_text: "& ix , accounts , seeds".to_string(),
        },
    );
    let later_access = leaf(
        "vault.transfer()",
        ExprKind::MethodCall {
            method: "transfer".to_string(),
            receiver_text: "vault".to_string(),
        },
    );
    let result = run(
        "fn pay() { .. }\n",
        vec![func("pay", "fn pay() { .. }", vec![], "{ .. }", vec![call, later_access])],
        true,
    );
    assert_eq!(result.vulnerabilities.len(), 2);
    assert_eq!(
        result.vulnerabilities[0].description,
        "Potential arbitrary CPI vulnerability detected"
    );
    assert!(matches!(result.vulnerabilities[0].severity, Severity::Critical));
    assert_eq!(
        result.vulnerabilities[1].description,
        "Account data accessed after CPI without reload()"
    );
    assert!(matches!(result.vulnerabilities[1].severity, Severity::Critical));
}

#[test]
fn reload_after_cpi_is_not_an_unsafe_access() {
    let call = leaf(
        "invoke(&ix, accounts)",
        ExprKind::Call {
            callee_text: "invoke".to_string(),
            args_text: "& ix , accounts".to_string(),
        },
    );
    let reload = leaf(
        "vault.reload()",
        ExprKind::MethodCall {
            method: "reload".to_string(),
            receiver_text: "vault".to_string(),
        },
    );
    let result = run(
        "fn pay() { .. }\n",
        vec![func("pay", "fn pay() { .. }", vec![], "{ .. }", vec![call, reload])],
        true,
    );
    // Only the direct-invoke critical; no access-after-CPI finding.
    assert_eq!(result.vulnerabilities.len(), 1);
    assert_eq!(
        result.vulnerabilities[0].description,
        "Potential arbitrary CPI vulnerability detected"
    );
}

#[test]
fn cpi_context_is_a_warning() {
    let call = leaf(
        "CpiContext::new(program, accounts)",
        ExprKind::Call {
            callee_text: "CpiContext :: new".to_string(),
            args_text: "program , accounts".to_string(),
        },
    );
    let result = run(
        "fn pay() { .. }\n",
        vec![func("pay", "fn pay() { .. }", vec![], "{ .. }", vec![call])],
        true,
    );
    assert_eq!(result.vulnerabilities.len(), 0);
    assert_eq!(result.warnings.len(), 1);
    assert_eq!(
        result.warnings[0].description,
        "Cross-Program Invocation detected - ensure proper program validation"
    );
}

#[test]
fn bump_parameter_with_create_program_address_is_critical() {
    let call = leaf(
        "pubkey.create_program_address(seeds)",
        ExprKind::MethodCall {
            method: "create_program_address".to_string(),
            receiver_text: "pubkey".to_string(),
        },
    );
    let result = run(
        "fn withdraw(bump: u8) { .. }\n",
        vec![func("withdraw", "fn withdraw(bump: u8) { .. }", vec!["bump"], "{ .. }", vec![
            call,
        ])],
        true,
    );
    assert_eq!(result.vulnerabilities.len(), 1);
    assert_eq!(
        result.vulnerabilities[0].description,
        "Possible bump seed canonicalization vulnerability detected"
    );
    assert!(matches!(result.vulnerabilities[0].severity, Severity::Critical));
}

#[test]
fn create_program_address_call_without_bump_parameter_is_a_warning() {
    let call = leaf(
        "Pubkey::create_program_address(seeds, id)",
        ExprKind::Call {
            callee_text: "Pubkey :: create_program_address".to_string(),
            args_text: "seeds , id".to_string(),
        },
    );
    let result = run(
        "fn derive() { .. }\n",
        vec![func("derive", "fn derive() { .. }", vec![], "{ .. }", vec![call])],
        true,
    );
    assert_eq!(result.vulnerabilities.len(), 0);
    assert_eq!(result.warnings.len(), 1);
    assert_eq!(
        result.warnings[0].description,
        "Using create_program_address directly may lead to non-canonical bump usage"
    );
}

#[test]
fn cast_to_account_info_is_a_warning() {
    let cast = leaf(
        "raw as AccountInfo",
        ExprKind::Cast { target_type: "AccountInfo".to_string() },
    );
    let result = run(
        "fn convert() { .. }\n",
        vec![func("convert", "fn convert() { .. }", vec![], "{ .. }", vec![cast])],
        true,
    );
    assert_eq!(result.warnings.len(), 1);
    assert_eq!(result.warnings[0].description, "Casting to AccountInfo - ensure proper validation");
}

#[test]
fn name_based_advisories_fire_per_keyword() {
    let result = run(
        "fn validate_error_access() {}\n",
        vec![func(
            "validate_error_access",
            "fn validate_error_access() {}",
            vec![],
            "{ }",
            vec![],
        )],
        true,
    );
    assert_eq!(result.warnings.len(), 3);
    assert_eq!(
        result.warnings[0].description,
        "Function contains 'validate' in name - ensure proper validation"
    );
    assert_eq!(
        result.warnings[1].description,
        "Function contains 'error' in name - ensure proper error handling"
    );
    assert_eq!(
        result.warnings[2].description,
        "Function contains 'access' in name - ensure proper access control"
    );
}

fn accounts_struct(name: &str, fields: Vec<FieldDecl>) -> Item {
    Item::Rec(Record {
        name: name.to_string(),
        text: format!("pub struct {} {{ .. }}", name),
        attrs: vec![AttrDecl {
            is_account_attr: false,
            text: "# [derive (Accounts)]".to_string(),
        }],
        fields,
    })
}

fn field(name: &str, type_text: &str, attrs: Vec<AttrDecl>) -> FieldDecl {
    FieldDecl {
        name: name.to_string(),
        type_text: type_text.to_string(),
        text: format!("pub {}: {}", name, type_text),
        attrs,
    }
}

#[test]
fn unchecked_program_account_is_critical() {
    let result = run(
        "pub struct Deposit { .. }\n",
        vec![accounts_struct("Deposit", vec![field(
            "token_program",
            "AccountInfo < 'info >",
            vec![],
        )])],
        true,
    );
    assert_eq!(result.vulnerabilities.len(), 1);
    let v = &result.vulnerabilities[0];
    assert!(matches!(v.severity, Severity::Critical));
    assert_eq!(
        v.description,
        "Unchecked program AccountInfo in struct Deposit: field token_program - potential arbitrary CPI vulnerability"
    );
    assert_eq!(result.info.len(), 1);
    assert_eq!(result.info[0].description, "Anchor Accounts struct detected: Deposit");
}

#[test]
fn unchecked_non_program_account_is_high() {
    let result = run(
        "pub struct Deposit { .. }\n",
        vec![accounts_struct("Deposit", vec![field(
            "authority_check",
            "AccountInfo < 'info >",
            vec![],
        )])],
        true,
    );
    assert_eq!(result.vulnerabilities.len(), 1);
    let v = &result.vulnerabilities[0];
    assert!(matches!(v.severity, Severity::High));
    assert_eq!(v.description, "Unchecked AccountInfo in struct Deposit: field authority_check");
}

#[test]
fn constrained_program_account_is_a_warning() {
    let attr = AttrDecl {
        is_account_attr: true,
        text: "# [account (signer)]".to_string(),
    };
    let result = run(
        "pub struct Deposit { .. }\n",
        vec![accounts_struct("Deposit", vec![field(
            "token_program",
            "AccountInfo < 'info >",
            vec![attr],
        )])],
        true,
    );
    assert_eq!(result.vulnerabilities.len(), 0);
    assert_eq!(result.warnings.len(), 1);
    assert_eq!(
        result.warnings[0].description,
        "Program account token_program uses AccountInfo - consider stronger validation"
    );
}

#[test]
fn ata_with_bare_init_is_critical() {
    let attr = AttrDecl {
        is_account_attr: true,
        text: "# [account (init , payer = user)]".to_string(),
    };
    let result = run(
        "pub struct Open { .. }\n",
        vec![accounts_struct("Open", vec![field(
            "user_token_account",
            "Box < InterfaceAccount >",
            vec![attr],
        )])],
        true,
    );
    assert_eq!(result.vulnerabilities.len(), 1);
    assert!(matches!(result.vulnerabilities[0].severity, Severity::Critical));
    assert_eq!(
        result.vulnerabilities[0].description,
        "Associated Token Account 'user_token_account' initialized with 'init' constraint instead of 'init_if_needed'"
    );
}

#[test]
fn ata_with_init_if_needed_is_not_flagged() {
    let attr = AttrDecl {
        is_account_attr: true,
        text: "# [account (init_if_needed , payer = user)]".to_string(),
    };
    let result = run(
        "pub struct Open { .. }\n",
        vec![accounts_struct("Open", vec![field(
            "user_token_account",
            "Box < InterfaceAccount >",
            vec![attr],
        )])],
        true,
    );
    assert_eq!(result.vulnerabilities.len(), 0);
}

#[test]
fn hardcoded_bump_is_critical_and_custom_bump_is_a_warning() {
    let hardcoded = AttrDecl {
        is_account_attr: true,
        text: "# [account (seeds = [b\"vault\"] , bump = 1)]".to_string(),
    };
    let result = run(
        "pub struct W { .. }\n",
        vec![accounts_struct("W", vec![field("vault", "Account<'info, Vault>", vec![
            hardcoded,
        ])])],
        true,
    );
    assert_eq!(result.vulnerabilities.len(), 1);
    assert_eq!(
        result.vulnerabilities[0].description,
        "Hardcoded non-canonical bump value detected"
    );
    // The spaced token text never matches an `owner` constraint.
    assert_eq!(result.warnings.len(), 1);
    assert!(result.warnings[0].description.starts_with("Missing owner check for Account"));

    let custom = AttrDecl {
        is_account_attr: true,
        text: "# [account (seeds = [b\"vault\"] , bump = vault . stored)]".to_string(),
    };
    let result2 = run(
        "pub struct W { .. }\n",
        vec![accounts_struct("W", vec![field("vault", "Account<'info, Vault>", vec![
            custom,
        ])])],
        true,
    );
    assert_eq!(result2.vulnerabilities.len(), 0);
    let descs: Vec<&str> =
        result2.warnings.iter().map(|w| w.description.as_str()).collect();
    assert!(descs.contains(&"Custom bump value in anchor constraint"));
}

#[test]
fn seeds_without_bump_is_a_warning() {
    let attr = AttrDecl {
        is_account_attr: true,
        text: "# [account (seeds = [b\"vault\"])]".to_string(),
    };
    let result = run(
        "pub struct W { .. }\n",
        vec![accounts_struct("W", vec![field("vault", "Account<'info, Vault>", vec![attr])])],
        true,
    );
    let descs: Vec<&str> =
        result.warnings.iter().map(|w| w.description.as_str()).collect();
    assert!(descs.contains(&"PDA seeds constraint without bump constraint"));
}

#[test]
fn space_without_init_is_a_warning() {
    let attr = AttrDecl {
        is_account_attr: true,
        text: "# [account (space = 64)]".to_string(),
    };
    let result = run(
        "pub struct W { .. }\n",
        vec![accounts_struct("W", vec![field("vault", "Account<'info, Vault>", vec![attr])])],
        true,
    );
    let descs: Vec<&str> =
        result.warnings.iter().map(|w| w.description.as_str()).collect();
    assert!(descs.contains(
        &"Account space specified without init constraint in struct W: field vault"
    ));
}

#[test]
fn account_like_struct_without_is_initialized_field_is_warned() {
    let record = Item::Rec(Record {
        name: "DataAccount".to_string(),
        text: "pub struct DataAccount { .. }".to_string(),
        attrs: vec![],
        fields: vec![field("data", "u64", vec![])],
    });
    let result = run("pub struct DataAccount { .. }\n", vec![record], true);
    assert_eq!(result.info.len(), 1);
    assert_eq!(result.info[0].description, "Account struct detected - ensure proper validation");
    assert_eq!(result.warnings.len(), 1);
    assert_eq!(
        result.warnings[0].description,
        "Account struct DataAccount missing is_initialized field"
    );
}

#[test]
fn account_like_struct_with_is_initialized_field_is_not_warned() {
    let record = Item::Rec(Record {
        name: "DataAccount".to_string(),
        text: "pub struct DataAccount { .. }".to_string(),
        attrs: vec![],
        fields: vec![field("is_initialized", "bool", vec![])],
    });
    let result = run("pub struct DataAccount { .. }\n", vec![record], true);
    assert_eq!(result.warnings.len(), 0);
}

#[test]
fn error_enum_is_noted() {
    let content = "mod x;\n\npub enum VaultError { Bad }\n";
    let result = run(
        content,
        vec![Item::Enumeration(EnumDecl {
            name: "VaultError".to_string(),
            text: "pub enum VaultError { Bad }".to_string(),
        })],
        true,
    );
    assert_eq!(result.info.len(), 1);
    assert_eq!(result.info[0].description, "Error enum detected - ensure proper error handling");
    assert_eq!(result.info[0].location.line, 3);
}

#[test]
fn modules_are_recursed_transparently() {
    let inner = func(
        "initialize",
        "fn initialize() {}",
        vec![],
        "{ }",
        vec![],
    );
    let module = Item::Grouped(pluton::syntax::Group {
        text: "mod program { .. }".to_string(),
        items: vec![inner],
    });
    let result = run("mod program { fn initialize() {} }\n", vec![module], true);
    assert_eq!(result.vulnerabilities.len(), 1);
    assert_eq!(
        result.vulnerabilities[0].description,
        "Initialization function without reinitialization check"
    );
}

#[test]
fn repeated_snippet_resolves_to_its_last_occurrence() {
    let content = "fn twin() {}\nfn other() {}\nfn twin() {}\n";
    let result = run(
        content,
        vec![func("create_twin", "fn twin() {}", vec![], "{ }", vec![])],
        true,
    );
    assert_eq!(result.vulnerabilities.len(), 1);
    assert_eq!(result.vulnerabilities[0].location.line, 3);
}

#[test]
fn unknown_snippet_keeps_the_previous_line() {
    let result = run(
        "nothing matches here\n",
        vec![func("create_thing", "fn create_thing() {}", vec![], "{ }", vec![])],
        true,
    );
    assert_eq!(result.vulnerabilities.len(), 1);
    assert_eq!(result.vulnerabilities[0].location.line, 0);
}
