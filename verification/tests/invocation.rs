use vm_callables::callables::{DefineType, DefinedFunction, Environment};
use vm_callables::contexts::{ContractContext, LocalContext};
use vm_callables::errors::{Error, EvalOutcome};
use vm_callables::types::{
    PrincipalData, QualifiedContractIdentifier, SymbolicExpression, TraitIdentifier, TypeSignature,
    Value,
};

fn qci(issuer: &str, name: &str) -> QualifiedContractIdentifier {
    QualifiedContractIdentifier {
        issuer: issuer.to_string(),
        name: name.to_string(),
    }
}

fn tid(issuer: &str, contract: &str, name: &str) -> TraitIdentifier {
    TraitIdentifier {
        contract_identifier: qci(issuer, contract),
        name: name.to_string(),
    }
}

fn body() -> SymbolicExpression {
    SymbolicExpression::Atom("body".to_string())
}

/// A scripted collaborator: hands back a preset evaluation outcome or
/// transaction result, counts how often each entry point ran, and checks
/// any expectations about the binding context it was handed.
struct ScriptedEnv {
    outcome: Option<EvalOutcome>,
    transaction_result: Option<Result<Value, Error>>,
    evaluate_calls: usize,
    transaction_calls: usize,
    expect_variable: Option<(String, Value)>,
    expect_no_variable: Option<String>,
    expect_callable: Option<(String, QualifiedContractIdentifier, TraitIdentifier)>,
}

impl ScriptedEnv {
    fn new() -> ScriptedEnv {
        ScriptedEnv {
            outcome: None,
            transaction_result: None,
            evaluate_calls: 0,
            transaction_calls: 0,
            expect_variable: None,
            expect_no_variable: None,
            expect_callable: None,
        }
    }
}

impl Environment for ScriptedEnv {
    fn evaluate(&mut self, _body: &SymbolicExpression, context: &LocalContext) -> EvalOutcome {
        self.evaluate_calls += 1;
        if let Some((name, value)) = &self.expect_variable {
            assert_eq!(context.lookup_variable(name), Some(value));
        }
        if let Some(name) = &self.expect_no_variable {
            assert_eq!(context.lookup_variable(name), None);
        }
        if let Some((name, contract, trait_id)) = &self.expect_callable {
            let found = context.lookup_callable_contract(name);
            assert_eq!(found, Some(&(contract.clone(), trait_id.clone())));
        }
        self.outcome.take().unwrap_or(EvalOutcome::Value(Value::Bool(true)))
    }

    fn execute_function_as_transaction(
        &mut self,
        _function: &DefinedFunction,
        _args: Vec<Value>,
        _sender: Option<PrincipalData>,
    ) -> Result<Value, Error> {
        self.transaction_calls += 1;
        self.transaction_result.take().unwrap_or(Ok(Value::Bool(true)))
    }
}

fn two_int_params(name: &str) -> DefinedFunction {
    DefinedFunction::new(
        vec![
            ("a".to_string(), TypeSignature::IntType),
            ("b".to_string(), TypeSignature::IntType),
        ],
        body(),
        DefineType::Private,
        name,
        "ctx",
    )
}

#[test]
fn arity_mismatch_two_declared_one_supplied() {
    let f = two_int_params("f");
    let ctx = ContractContext::new();
    let mut env = ScriptedEnv::new();
    let r = f.execute_apply(vec![Value::Int(1)], &ctx, &mut env);
    assert_eq!(r, Err(Error::IncorrectArgumentCount(2, 1)));
    assert_eq!(env.evaluate_calls, 0);
}

#[test]
fn arity_mismatch_no_binding_visible_to_evaluator() {
    let f = two_int_params("g");
    let ctx = ContractContext::new();
    let mut env = ScriptedEnv::new();
    let r = f.execute_apply(vec![Value::Int(1), Value::Int(2), Value::Int(3)], &ctx, &mut env);
    assert_eq!(r, Err(Error::IncorrectArgumentCount(2, 3)));
    assert_eq!(env.evaluate_calls, 0);
    assert_eq!(env.transaction_calls, 0);
}

#[test]
fn type_mismatch_numeric_declared_boolean_supplied() {
    let f = DefinedFunction::new(
        vec![("n".to_string(), TypeSignature::IntType)],
        body(),
        DefineType::Private,
        "h",
        "ctx",
    );
    let ctx = ContractContext::new();
    let mut env = ScriptedEnv::new();
    let r = f.execute_apply(vec![Value::Bool(true)], &ctx, &mut env);
    assert_eq!(
        r,
        Err(Error::TypeValueError(TypeSignature::IntType, Value::Bool(true)))
    );
    assert_eq!(env.evaluate_calls, 0);
}

#[test]
fn type_mismatch_aborts_before_later_bindings() {
    let f = two_int_params("k");
    let ctx = ContractContext::new();
    let mut env = ScriptedEnv::new();
    let r = f.execute_apply(vec![Value::UInt(1), Value::Int(2)], &ctx, &mut env);
    assert_eq!(
        r,
        Err(Error::TypeValueError(TypeSignature::IntType, Value::UInt(1)))
    );
    assert_eq!(env.evaluate_calls, 0);
}

#[test]
fn duplicate_parameter_name_rejected() {
    let f = DefinedFunction::new(
        vec![
            ("a".to_string(), TypeSignature::IntType),
            ("a".to_string(), TypeSignature::IntType),
        ],
        body(),
        DefineType::Private,
        "dup",
        "ctx",
    );
    let ctx = ContractContext::new();
    let mut env = ScriptedEnv::new();
    let r = f.execute_apply(vec![Value::Int(1), Value::Int(2)], &ctx, &mut env);
    assert_eq!(r, Err(Error::NameAlreadyUsed("a".to_string())));
    assert_eq!(env.evaluate_calls, 0);
}

#[test]
fn early_return_unwraps_to_success() {
    let f = DefinedFunction::new(vec![], body(), DefineType::Private, "er", "ctx");
    let ctx = ContractContext::new();
    let mut env = ScriptedEnv::new();
    env.outcome = Some(EvalOutcome::EarlyReturn(Value::Int(7)));
    let r = f.execute_apply(vec![], &ctx, &mut env);
    assert_eq!(r, Ok(Value::Int(7)));
    assert_eq!(env.evaluate_calls, 1);
}

#[test]
fn ordinary_value_returned_as_is() {
    let f = DefinedFunction::new(vec![], body(), DefineType::Private, "ov", "ctx");
    let ctx = ContractContext::new();
    let mut env = ScriptedEnv::new();
    env.outcome = Some(EvalOutcome::Value(Value::Int(5)));
    let r = f.execute_apply(vec![], &ctx, &mut env);
    assert_eq!(r, Ok(Value::Int(5)));
}

#[test]
fn other_failures_propagate_unchanged() {
    let f = DefinedFunction::new(vec![], body(), DefineType::Private, "fail", "ctx");
    let ctx = ContractContext::new();
    let mut env = ScriptedEnv::new();
    env.outcome = Some(EvalOutcome::Failure(Error::Runtime("boom".to_string())));
    let r = f.execute_apply(vec![], &ctx, &mut env);
    assert_eq!(r, Err(Error::Runtime("boom".to_string())));
}

#[test]
fn trait_typed_argument_is_deferred_not_admission_checked() {
    let f = DefinedFunction::new(
        vec![
            ("t".to_string(), TypeSignature::TraitReferenceType("my-trait".to_string())),
            ("n".to_string(), TypeSignature::IntType),
        ],
        body(),
        DefineType::Private,
        "defer",
        "ctx",
    );
    let mut ctx = ContractContext::new();
    let identity = tid("issuer", "defs", "my-trait");
    ctx.add_trait_reference("my-trait".to_string(), identity.clone());
    let callee = qci("issuer", "impl-contract");

    let mut env = ScriptedEnv::new();
    env.expect_callable = Some(("t".to_string(), callee.clone(), identity));
    env.expect_no_variable = Some("t".to_string());
    env.expect_variable = Some(("n".to_string(), Value::Int(3)));
    let r = f.execute_apply(
        vec![
            Value::Principal(PrincipalData::Contract(callee)),
            Value::Int(3),
        ],
        &ctx,
        &mut env,
    );
    assert_eq!(r, Ok(Value::Bool(true)));
    assert_eq!(env.evaluate_calls, 1);
}

#[test]
fn bind_arguments_records_deferred_pair() {
    let f = DefinedFunction::new(
        vec![("t".to_string(), TypeSignature::TraitReferenceType("alias".to_string()))],
        body(),
        DefineType::Private,
        "record",
        "ctx",
    );
    let mut ctx = ContractContext::new();
    let identity = tid("iss", "defs", "the-trait");
    ctx.add_trait_reference("alias".to_string(), identity.clone());
    let callee = qci("iss", "callee");
    let bound = f
        .bind_arguments(vec![Value::Principal(PrincipalData::Contract(callee.clone()))], &ctx)
        .unwrap();
    assert_eq!(
        bound.lookup_callable_contract(&"t".to_string()),
        Some(&(callee, identity))
    );
    assert_eq!(bound.lookup_variable(&"t".to_string()), None);
}

#[test]
fn trait_typed_parameter_with_non_contract_value_fails_admission() {
    let f = DefinedFunction::new(
        vec![("t".to_string(), TypeSignature::TraitReferenceType("alias".to_string()))],
        body(),
        DefineType::Private,
        "np",
        "ctx",
    );
    let mut ctx = ContractContext::new();
    ctx.add_trait_reference("alias".to_string(), tid("iss", "defs", "the-trait"));
    let mut env = ScriptedEnv::new();
    let r = f.execute_apply(vec![Value::Int(1)], &ctx, &mut env);
    assert_eq!(
        r,
        Err(Error::TypeValueError(
            TypeSignature::TraitReferenceType("alias".to_string()),
            Value::Int(1)
        ))
    );
}

#[test]
fn apply_private_runs_directly() {
    let f = DefinedFunction::new(vec![], body(), DefineType::Private, "priv", "ctx");
    let ctx = ContractContext::new();
    let mut env = ScriptedEnv::new();
    env.outcome = Some(EvalOutcome::Value(Value::Int(9)));
    let r = f.apply(vec![], &ctx, &mut env);
    assert_eq!(r, Ok(Value::Int(9)));
    assert_eq!(env.evaluate_calls, 1);
    assert_eq!(env.transaction_calls, 0);
}

#[test]
fn apply_public_routes_through_transaction() {
    let f = DefinedFunction::new(vec![], body(), DefineType::Public, "pubf", "ctx");
    let ctx = ContractContext::new();
    let mut env = ScriptedEnv::new();
    env.transaction_result = Some(Ok(Value::UInt(42)));
    let r = f.apply(vec![], &ctx, &mut env);
    assert_eq!(r, Ok(Value::UInt(42)));
    assert_eq!(env.evaluate_calls, 0);
    assert_eq!(env.transaction_calls, 1);
}

#[test]
fn apply_read_only_routes_through_transaction() {
    let f = DefinedFunction::new(vec![], body(), DefineType::ReadOnly, "rof", "ctx");
    let ctx = ContractContext::new();
    let mut env = ScriptedEnv::new();
    env.transaction_result = Some(Err(Error::Runtime("denied".to_string())));
    let r = f.apply(vec![], &ctx, &mut env);
    assert_eq!(r, Err(Error::Runtime("denied".to_string())));
    assert_eq!(env.evaluate_calls, 0);
    assert_eq!(env.transaction_calls, 1);
}

#[test]
fn binding_happens_in_declaration_order_first_failure_wins() {
    let f = DefinedFunction::new(
        vec![
            ("a".to_string(), TypeSignature::BoolType),
            ("b".to_string(), TypeSignature::IntType),
        ],
        body(),
        DefineType::Private,
        "order",
        "ctx",
    );
    let ctx = ContractContext::new();
    let mut env = ScriptedEnv::new();
    // Both arguments are ill-typed; the first failure is reported.
    let r = f.execute_apply(vec![Value::Int(1), Value::Bool(false)], &ctx, &mut env);
    assert_eq!(
        r,
        Err(Error::TypeValueError(TypeSignature::BoolType, Value::Int(1)))
    );
}

#[test]
fn zero_arity_function_binds_empty_context() {
    let f = DefinedFunction::new(vec![], body(), DefineType::Private, "empty", "ctx");
    let ctx = ContractContext::new();
    let bound = f.bind_arguments(vec![], &ctx).unwrap();
    assert_eq!(bound.lookup_variable(&"a".to_string()), None);
    assert_eq!(bound.lookup_callable_contract(&"a".to_string()), None);
}
