//! User-defined functions and how calls reach them: the namespaced function
//! identifier, the function declaration, typed argument binding with
//! deferred trait dispatch, trait-conformance checking, and the dispatcher
//! that routes a call either to direct evaluation or to the transactional
//! environment.

use vstd::prelude::*;
use vstd::string::StringExecFns;

use crate::contexts::ContractContext;
use crate::contexts::LocalContext;
use crate::errors::spec_call_result;
use crate::errors::Error;
use crate::errors::EvalOutcome;
use crate::types::trait_id_eqv;
use crate::types::PrincipalData;
use crate::types::QualifiedContractIdentifier;
use crate::types::SymbolicExpression;
use crate::types::TraitIdentifier;
use crate::types::TypeSignature;
use crate::types::Value;

verus! {

/// The identifier text of a built-in or special form: the reserved native
/// namespace prefixed to the name.
pub open spec fn spec_native_identifier(name: Seq<char>) -> Seq<char> {
    "_native_:"@ + name
}

/// The identifier text of a user-defined function: its defining context's
/// name, a separating colon, and the function's name.
pub open spec fn spec_user_identifier(context: Seq<char>, name: Seq<char>) -> Seq<char> {
    context + ":"@ + name
}

/// A namespaced, comparable key naming either a built-in or a user-defined
/// function. Built-ins live under the reserved `_native_` namespace;
/// user-defined functions under their defining context's name. Immutable
/// once built; compared by its text.
#[derive(Debug, Hash)]
pub struct FunctionIdentifier {
    identifier: String,
}

impl View for FunctionIdentifier {
    type V = Seq<char>;

    closed spec fn view(&self) -> Seq<char> {
        self.identifier@
    }
}

impl FunctionIdentifier {
    /// The identifier of a built-in or special form, under the reserved
    /// native namespace.
    pub fn new_native_function(name: &str) -> (r: FunctionIdentifier)
        ensures
            r@ == spec_native_identifier(name@),
    {
        let identifier = String::from_str("_native_:").concat(name);
        FunctionIdentifier { identifier }
    }

    /// The identifier of a user-defined function, namespaced by the name of
    /// the contract context that defines it.
    pub fn new_user_function(name: &str, context: &str) -> (r: FunctionIdentifier)
        ensures
            r@ == spec_user_identifier(context@, name@),
    {
        let identifier = String::from_str(context).concat(":").concat(name);
        FunctionIdentifier { identifier }
    }

    /// The identifier's text, as displayed to users.
    pub fn text(&self) -> (r: &str)
        ensures
            r@ == self@,
    {
        self.identifier.as_str()
    }
}

impl Clone for FunctionIdentifier {
    fn clone(&self) -> (r: Self)
        ensures
            r == *self,
    {
        FunctionIdentifier { identifier: self.identifier.clone() }
    }
}

impl PartialEq for FunctionIdentifier {
    fn eq(&self, other: &Self) -> (r: bool) {
        self.identifier == other.identifier
    }
}

impl vstd::std_specs::cmp::PartialEqSpecImpl for FunctionIdentifier {
    open spec fn obeys_eq_spec() -> bool {
        true
    }

    open spec fn eq_spec(&self, other: &Self) -> bool {
        self@ == other@
    }
}

impl Eq for FunctionIdentifier {

}

/// A function's visibility. `Private` functions execute directly, without
/// transactional wrapping, and only from within the defining contract;
/// `Public` and `ReadOnly` functions are always routed through the
/// transactional environment.
#[derive(Clone, Copy, PartialEq, Eq, Structural, Debug)]
pub enum DefineType {
    ReadOnly,
    Public,
    Private,
}

/// A user-defined function's declaration: identifier, declared name,
/// parallel parameter name/type sequences in declaration order, visibility,
/// and the unevaluated body expression. Immutable once constructed.
pub struct DefinedFunction {
    identifier: FunctionIdentifier,
    name: String,
    arg_types: Vec<TypeSignature>,
    define_type: DefineType,
    arguments: Vec<String>,
    body: SymbolicExpression,
}

impl DefinedFunction {
    pub closed spec fn spec_identifier(&self) -> FunctionIdentifier {
        self.identifier
    }

    pub closed spec fn spec_name(&self) -> Seq<char> {
        self.name@
    }

    pub closed spec fn spec_arg_types(&self) -> Seq<TypeSignature> {
        self.arg_types@
    }

    pub closed spec fn spec_arguments(&self) -> Seq<String> {
        self.arguments@
    }

    pub closed spec fn spec_define_type(&self) -> DefineType {
        self.define_type
    }

    pub closed spec fn spec_body(&self) -> SymbolicExpression {
        self.body
    }

    /// The declaration's structural invariant: the parameter-name and
    /// parameter-type sequences are parallel, with equal length and
    /// matching order. Established by construction, preserved by
    /// immutability.
    pub open spec fn wf(&self) -> bool {
        self.spec_arguments().len() == self.spec_arg_types().len()
    }

    /// Externally callable in the access sense: `Public` and `ReadOnly`
    /// functions are; `Private` functions are not.
    pub open spec fn spec_is_public(&self) -> bool {
        self.spec_define_type() is Public || self.spec_define_type() is ReadOnly
    }

    pub open spec fn spec_is_read_only(&self) -> bool {
        self.spec_define_type() is ReadOnly
    }

    /// Builds a function declaration from its ordered (parameter name,
    /// declared type) list, body, visibility, name, and the name of the
    /// defining context. Decomposes the parameter list into parallel name
    /// and type sequences, preserving order. Performs no validation: arity
    /// and type mismatches are a call-time concern.
    #[verifier::loop_isolation(false)]
    pub fn new(
        arguments: Vec<(String, TypeSignature)>,
        body: SymbolicExpression,
        define_type: DefineType,
        name: &str,
        context_name: &str,
    ) -> (r: DefinedFunction)
        ensures
            r.spec_name() == name@,
            r.spec_define_type() == define_type,
            r.spec_body() == body,
            r.spec_identifier()@ == spec_user_identifier(context_name@, name@),
            r.spec_arguments().len() == arguments@.len(),
            r.spec_arg_types().len() == arguments@.len(),
            forall|i: int|
                0 <= i < arguments@.len() ==> r.spec_arguments()[i] == arguments@[i].0
                    && r.spec_arg_types()[i] == arguments@[i].1,
            r.wf(),
    {
        let mut argument_names: Vec<String> = Vec::new();
        let mut types: Vec<TypeSignature> = Vec::new();
        let mut i: usize = 0;
        while i < arguments.len()
            invariant
                0 <= i <= arguments@.len(),
                argument_names@.len() == i,
                types@.len() == i,
                forall|j: int|
                    0 <= j < i ==> argument_names@[j] == arguments@[j].0 && types@[j]
                        == arguments@[j].1,
            decreases arguments@.len() - i,
        {
            argument_names.push(arguments[i].0.clone());
            types.push(arguments[i].1.clone());
            i = i + 1;
        }
        DefinedFunction {
            identifier: FunctionIdentifier::new_user_function(name, context_name),
            name: String::from_str(name),
            arguments: argument_names,
            define_type,
            body,
            arg_types: types,
        }
    }

    pub fn is_read_only(&self) -> (r: bool)
        ensures
            r == self.spec_is_read_only(),
    {
        self.define_type == DefineType::ReadOnly
    }

    pub fn is_public(&self) -> (r: bool)
        ensures
            r == self.spec_is_public(),
    {
        match self.define_type {
            DefineType::Public => true,
            DefineType::Private => false,
            DefineType::ReadOnly => true,
        }
    }

    pub fn get_identifier(&self) -> (r: FunctionIdentifier)
        ensures
            r == self.spec_identifier(),
    {
        self.identifier.clone()
    }
}

/// A parameter whose declared type is a trait reference, supplied with a
/// contract principal, is deferred: it is never admission-checked
/// structurally; the conformance check happens only if and when the callee
/// is invoked through it.
pub open spec fn spec_is_deferred(t: TypeSignature, v: Value) -> bool {
    t is TraitReferenceType && (v matches Value::Principal(PrincipalData::Contract(_)))
}

/// The contract-local alias a trait-reference type carries.
pub open spec fn spec_trait_alias(t: TypeSignature) -> Seq<char> {
    match t {
        TypeSignature::TraitReferenceType(alias) => alias@,
        _ => arbitrary(),
    }
}

/// The contract a contract-principal value identifies.
pub open spec fn spec_contract_principal(v: Value) -> QualifiedContractIdentifier {
    match v {
        Value::Principal(PrincipalData::Contract(c)) => c,
        _ => arbitrary(),
    }
}

/// One position of a trait method signature fails against an
/// implementation's declared parameter type. Where both sides are
/// trait-reference types, compatibility is nominal: each side's local alias
/// must resolve, in its own contract's trait-reference table, to the same
/// canonical trait identity. Anywhere else the expected type must
/// structurally admit the actual type.
pub open spec fn spec_sig_position_fails(
    expected: TypeSignature,
    actual: TypeSignature,
    defining: ContractContext,
    checking: ContractContext,
) -> bool {
    if expected is TraitReferenceType && actual is TraitReferenceType {
        let drefs = defining.spec_trait_references();
        let crefs = checking.spec_trait_references();
        ||| !drefs.dom().contains(spec_trait_alias(expected))
        ||| !crefs.dom().contains(spec_trait_alias(actual))
        ||| !trait_id_eqv(drefs[spec_trait_alias(expected)], crefs[spec_trait_alias(actual)])
    } else {
        !expected.spec_admits_type(actual)
    }
}

impl DefinedFunction {
    /// The supplied argument list has the declared arity.
    pub open spec fn spec_arity_ok(&self, args: Seq<Value>) -> bool {
        args.len() == self.spec_arguments().len()
    }

    /// Parameter `i`'s name was already bound by an earlier, non-deferred
    /// parameter.
    pub open spec fn spec_dup_at(&self, args: Seq<Value>, i: int) -> bool {
        exists|j: int|
            0 <= j < i && !spec_is_deferred(self.spec_arg_types()[j], args[j])
                && self.spec_arguments()[j]@ == self.spec_arguments()[i]@
    }

    /// Binding parameter `i` fails: it is not deferred, and its value is
    /// either not admitted by the declared type or its name is already
    /// bound.
    pub open spec fn spec_bind_fails_at(&self, args: Seq<Value>, i: int) -> bool {
        !spec_is_deferred(self.spec_arg_types()[i], args[i]) && (
        !self.spec_arg_types()[i].spec_admits(args[i]) || self.spec_dup_at(args, i))
    }

    /// The first index below `n` at which binding fails, if any: binding
    /// proceeds in declaration order and stops at the first failure.
    pub open spec fn spec_first_bind_failure(&self, args: Seq<Value>, n: int) -> Option<int>
        decreases n,
    {
        if n <= 0 {
            None
        } else {
            match self.spec_first_bind_failure(args, n - 1) {
                Some(i) => Some(i),
                None => if self.spec_bind_fails_at(args, n - 1) {
                    Some(n - 1)
                } else {
                    None
                },
            }
        }
    }

    /// Arity is right and every parameter binds.
    pub open spec fn spec_binds_ok(&self, args: Seq<Value>) -> bool {
        self.spec_arity_ok(args) && self.spec_first_bind_failure(args, args.len() as int) is None
    }

    /// The variable map after binding the first `n` parameters: each
    /// non-deferred parameter's name maps to its supplied value.
    pub open spec fn spec_vars_prefix(&self, args: Seq<Value>, n: int) -> Map<Seq<char>, Value>
        decreases n,
    {
        if n <= 0 {
            Map::empty()
        } else {
            let m = self.spec_vars_prefix(args, n - 1);
            if spec_is_deferred(self.spec_arg_types()[n - 1], args[n - 1]) {
                m
            } else {
                m.insert(self.spec_arguments()[n - 1]@, args[n - 1])
            }
        }
    }

    /// The callable-contracts map after binding the first `n` parameters:
    /// each deferred parameter's name maps to the supplied contract
    /// principal paired with the canonical trait identity its declared
    /// alias resolves to in `refs`.
    pub open spec fn spec_callables_prefix(
        &self,
        args: Seq<Value>,
        refs: Map<Seq<char>, TraitIdentifier>,
        n: int,
    ) -> Map<Seq<char>, (QualifiedContractIdentifier, TraitIdentifier)>
        decreases n,
    {
        if n <= 0 {
            Map::empty()
        } else {
            let m = self.spec_callables_prefix(args, refs, n - 1);
            if spec_is_deferred(self.spec_arg_types()[n - 1], args[n - 1]) {
                m.insert(
                    self.spec_arguments()[n - 1]@,
                    (
                        spec_contract_principal(args[n - 1]),
                        refs[spec_trait_alias(self.spec_arg_types()[n - 1])],
                    ),
                )
            } else {
                m
            }
        }
    }

    /// Every deferred parameter that binding reaches can resolve its trait
    /// alias in the current contract's trait-reference table. The lookup
    /// was validated earlier in the pipeline; a missing mapping is an
    /// internal invariant violation, not a user-facing error, so it is a
    /// documented precondition here.
    pub open spec fn spec_trait_refs_resolvable(
        &self,
        args: Seq<Value>,
        refs: Map<Seq<char>, TraitIdentifier>,
    ) -> bool {
        forall|i: int|
            0 <= i < args.len() && #[trigger] spec_is_deferred(self.spec_arg_types()[i], args[i])
                && self.spec_first_bind_failure(args, i) is None ==> refs.dom().contains(
                spec_trait_alias(self.spec_arg_types()[i]),
            )
    }

    /// If no parameter below `n` fails, there is no first failure below `n`.
    pub proof fn lemma_first_bind_failure_none(&self, args: Seq<Value>, n: int)
        requires
            forall|j: int| 0 <= j < n ==> !self.spec_bind_fails_at(args, j),
        ensures
            self.spec_first_bind_failure(args, n) is None,
        decreases n,
    {
        if n > 0 {
            self.lemma_first_bind_failure_none(args, n - 1);
        }
    }

    /// If every parameter before `i` binds and `i` fails, then `i` is the
    /// first failure below any `n` beyond it.
    pub proof fn lemma_first_bind_failure_at(&self, args: Seq<Value>, i: int, n: int)
        requires
            0 <= i < n,
            forall|j: int| 0 <= j < i ==> !self.spec_bind_fails_at(args, j),
            self.spec_bind_fails_at(args, i),
        ensures
            self.spec_first_bind_failure(args, n) == Some(i),
        decreases n,
    {
        if i < n - 1 {
            self.lemma_first_bind_failure_at(args, i, n - 1);
        } else {
            self.lemma_first_bind_failure_none(args, n - 1);
        }
    }

    /// A name is in the variable map of a binding prefix exactly when some
    /// earlier non-deferred parameter carries it.
    pub proof fn lemma_vars_prefix_dom(&self, args: Seq<Value>, n: int, k: Seq<char>)
        ensures
            self.spec_vars_prefix(args, n).dom().contains(k) <==> (exists|j: int|
                0 <= j < n && !spec_is_deferred(self.spec_arg_types()[j], args[j])
                    && self.spec_arguments()[j]@ == k),
        decreases n,
    {
        if n > 0 {
            self.lemma_vars_prefix_dom(args, n - 1, k);
            if self.spec_vars_prefix(args, n).dom().contains(k) {
                if !spec_is_deferred(self.spec_arg_types()[n - 1], args[n - 1])
                    && self.spec_arguments()[n - 1]@ == k {
                    assert(0 <= n - 1 < n && !spec_is_deferred(
                        self.spec_arg_types()[n - 1],
                        args[n - 1],
                    ) && self.spec_arguments()[n - 1]@ == k);
                }
            }
            if exists|j: int|
                0 <= j < n && !spec_is_deferred(self.spec_arg_types()[j], args[j])
                    && self.spec_arguments()[j]@ == k {
                let j = choose|j: int|
                    0 <= j < n && !spec_is_deferred(self.spec_arg_types()[j], args[j])
                        && self.spec_arguments()[j]@ == k;
                if j < n - 1 {
                    assert(self.spec_vars_prefix(args, n - 1).dom().contains(k));
                }
            }
        }
    }

    /// Binds the supplied, already-evaluated argument values to a fresh
    /// call-local context, in declaration order. A deferred (trait-typed,
    /// contract-principal) argument is recorded in the callable-contracts
    /// map with its resolved trait identity and is never admission-checked;
    /// every other argument must be admitted by its declared type and bind
    /// a fresh name. Binding stops at the first failing argument: the whole
    /// call fails and no partial context escapes.
    #[verifier::loop_isolation(false)]
    #[verifier::rlimit(50)]
    pub fn bind_arguments(&self, args: Vec<Value>, contract_context: &ContractContext) -> (r:
        Result<LocalContext, Error>)
        requires
            self.wf(),
            self.spec_trait_refs_resolvable(args@, contract_context.spec_trait_references()),
        ensures
            !self.spec_arity_ok(args@) ==> (r matches Err(Error::IncorrectArgumentCount(
                expected,
                actual,
            )) && expected == self.spec_arguments().len() && actual == args@.len()),
            self.spec_arity_ok(args@) ==> (match self.spec_first_bind_failure(
                args@,
                args@.len() as int,
            ) {
                Some(i) => {
                    if !self.spec_arg_types()[i].spec_admits(args@[i]) {
                        r matches Err(Error::TypeValueError(t, v)) && t == self.spec_arg_types()[i]
                            && v == args@[i]
                    } else {
                        r matches Err(Error::NameAlreadyUsed(dup)) && dup@
                            == self.spec_arguments()[i]@
                    }
                },
                None => {
                    r matches Ok(context) && context.spec_variables() == self.spec_vars_prefix(
                        args@,
                        args@.len() as int,
                    ) && context.spec_callable_contracts() == self.spec_callables_prefix(
                        args@,
                        contract_context.spec_trait_references(),
                        args@.len() as int,
                    )
                },
            }),
    {
        if args.len() != self.arguments.len() {
            return Err(Error::IncorrectArgumentCount(self.arguments.len(), args.len()));
        }
        let ghost args0 = args@;
        let ghost refs = contract_context.spec_trait_references();
        let mut context = LocalContext::new();
        let mut remaining = args;
        let n = self.arguments.len();
        let mut i: usize = 0;
        while i < n
            invariant
                0 <= i <= n,
                remaining@ == args0.skip(i as int),
                forall|j: int| 0 <= j < i ==> !self.spec_bind_fails_at(args0, j),
                context.spec_variables() == self.spec_vars_prefix(args0, i as int),
                context.spec_callable_contracts() == self.spec_callables_prefix(
                    args0,
                    refs,
                    i as int,
                ),
            decreases n - i,
        {
            let ghost gi = i as int;
            proof {
                self.lemma_first_bind_failure_none(args0, gi);
                assert(args0.skip(gi)[0] == args0[gi]);
                assert(args0.skip(gi).remove(0) =~= args0.skip(gi + 1));
            }
            let value = remaining.remove(0);
            let type_sig = &self.arg_types[i];
            match (type_sig, value) {
                (
                    TypeSignature::TraitReferenceType(alias),
                    Value::Principal(PrincipalData::Contract(contract_id)),
                ) => {
                    proof {
                        assert(spec_is_deferred(self.spec_arg_types()[gi], args0[gi]));
                    }
                    let trait_identifier = match contract_context.lookup_trait_reference(alias) {
                        Some(t) => t.clone(),
                        None => unreached(),
                    };
                    context.insert_callable_contract(
                        self.arguments[i].clone(),
                        contract_id,
                        trait_identifier,
                    );
                },
                (_, value) => {
                    proof {
                        assert(!spec_is_deferred(self.spec_arg_types()[gi], args0[gi]));
                    }
                    if !type_sig.admits(&value) {
                        proof {
                            self.lemma_first_bind_failure_at(args0, gi, n as int);
                        }
                        return Err(Error::TypeValueError(type_sig.clone(), value));
                    }
                    let fresh = context.insert_variable(self.arguments[i].clone(), value);
                    if !fresh {
                        proof {
                            self.lemma_vars_prefix_dom(args0, gi, self.spec_arguments()[gi]@);
                            self.lemma_first_bind_failure_at(args0, gi, n as int);
                        }
                        return Err(Error::NameAlreadyUsed(self.arguments[i].clone()));
                    }
                    proof {
                        self.lemma_vars_prefix_dom(args0, gi, self.spec_arguments()[gi]@);
                    }
                },
            }
            i = i + 1;
        }
        proof {
            self.lemma_first_bind_failure_none(args0, n as int);
        }
        Ok(context)
    }

    /// Applies this function to already-evaluated argument values: binds
    /// them (admission plus trait deferral), evaluates the body via the
    /// environment's evaluator against the populated context, and consumes
    /// the outcome at the call boundary, so that an early return becomes
    /// the call's successful result. Each binding failure is returned
    /// exactly as `bind_arguments` states; once binding succeeds, the
    /// result is whatever the evaluation outcome resolves to.
    pub fn execute_apply<E: Environment>(
        &self,
        args: Vec<Value>,
        contract_context: &ContractContext,
        env: &mut E,
    ) -> (r: Result<Value, Error>)
        requires
            self.wf(),
            self.spec_trait_refs_resolvable(args@, contract_context.spec_trait_references()),
        ensures
            !self.spec_arity_ok(args@) ==> (r matches Err(Error::IncorrectArgumentCount(
                expected,
                actual,
            )) && expected == self.spec_arguments().len() && actual == args@.len()),
            self.spec_arity_ok(args@) ==> (match self.spec_first_bind_failure(
                args@,
                args@.len() as int,
            ) {
                Some(i) => {
                    if !self.spec_arg_types()[i].spec_admits(args@[i]) {
                        r matches Err(Error::TypeValueError(t, v)) && t == self.spec_arg_types()[i]
                            && v == args@[i]
                    } else {
                        r matches Err(Error::NameAlreadyUsed(dup)) && dup@
                            == self.spec_arguments()[i]@
                    }
                },
                None => true,
            }),
    {
        let context = match self.bind_arguments(args, contract_context) {
            Ok(c) => c,
            Err(e) => {
                return Err(e);
            },
        };
        let outcome = env.evaluate(&self.body, &context);
        outcome.into_call_result()
    }

    /// This function, claiming to implement the method of the given name
    /// in the trait `trait_name` defined by `defining`, conforms to that
    /// trait's expected signature: the arities agree and no parameter
    /// position fails. Meaningful where `defining` defines the trait and
    /// the trait lists a method of this function's name.
    pub open spec fn spec_conforms_to(
        &self,
        defining: ContractContext,
        trait_name: Seq<char>,
        checking: ContractContext,
    ) -> bool {
        let expected = defining.spec_trait_definition(trait_name)[self.spec_name()];
        &&& expected.args@.len() == self.spec_arg_types().len()
        &&& forall|i: int|
            0 <= i < expected.args@.len() ==> !#[trigger] spec_sig_position_fails(
                expected.args@[i],
                self.spec_arg_types()[i],
                defining,
                checking,
            )
    }

    /// Checks that this function, declared in `contract_to_check`,
    /// correctly implements its namesake method of the trait named by
    /// `trait_identifier` and defined by `contract_defining_trait`: the
    /// arities must agree and, pairwise, each expected parameter type must
    /// either resolve to the same canonical trait identity as the actual
    /// one (when both are trait references) or structurally admit it. One
    /// incompatible position fails the whole check; there is no partial
    /// success. The trait's presence in the defining contract, with a
    /// method of this function's name, was validated earlier in the
    /// pipeline and is a precondition here.
    #[verifier::loop_isolation(false)]
    pub fn check_trait_expectations(
        &self,
        contract_defining_trait: &ContractContext,
        trait_identifier: &TraitIdentifier,
        contract_to_check: &ContractContext,
    ) -> (r: Result<(), Error>)
        requires
            self.wf(),
            contract_defining_trait.spec_has_trait_definition(trait_identifier.name@),
            contract_defining_trait.spec_trait_definition(trait_identifier.name@).dom().contains(
                self.spec_name(),
            ),
        ensures
            self.spec_conforms_to(
                *contract_defining_trait,
                trait_identifier.name@,
                *contract_to_check,
            ) ==> r is Ok,
            !self.spec_conforms_to(
                *contract_defining_trait,
                trait_identifier.name@,
                *contract_to_check,
            ) ==> (r matches Err(Error::BadTraitImplementation(t, f)) && t@
                == trait_identifier.name@ && f@ == self.spec_name()),
    {
        let trait_name: &String = &trait_identifier.name;
        let expected_sig = match contract_defining_trait.lookup_trait_method(
            trait_name,
            &self.name,
        ) {
            Some(sig) => sig,
            None => unreached(),
        };
        if expected_sig.args.len() != self.arg_types.len() {
            return Err(Error::BadTraitImplementation(trait_name.clone(), self.name.clone()));
        }
        let n = expected_sig.args.len();
        let mut i: usize = 0;
        while i < n
            invariant
                0 <= i <= n,
                forall|j: int|
                    0 <= j < i ==> !#[trigger] spec_sig_position_fails(
                        expected_sig.args@[j],
                        self.spec_arg_types()[j],
                        *contract_defining_trait,
                        *contract_to_check,
                    ),
            decreases n - i,
        {
            let expected_arg = &expected_sig.args[i];
            let actual_arg = &self.arg_types[i];
            match (expected_arg, actual_arg) {
                (
                    TypeSignature::TraitReferenceType(expected_alias),
                    TypeSignature::TraitReferenceType(actual_alias),
                ) => {
                    let expected_id = match contract_defining_trait.lookup_trait_reference(
                        expected_alias,
                    ) {
                        Some(t) => t,
                        None => {
                            proof {
                                assert(spec_sig_position_fails(
                                    expected_sig.args@[i as int],
                                    self.spec_arg_types()[i as int],
                                    *contract_defining_trait,
                                    *contract_to_check,
                                ));
                            }
                            return Err(
                                Error::BadTraitImplementation(
                                    trait_name.clone(),
                                    self.name.clone(),
                                ),
                            );
                        },
                    };
                    let actual_id = match contract_to_check.lookup_trait_reference(actual_alias) {
                        Some(t) => t,
                        None => {
                            proof {
                                assert(spec_sig_position_fails(
                                    expected_sig.args@[i as int],
                                    self.spec_arg_types()[i as int],
                                    *contract_defining_trait,
                                    *contract_to_check,
                                ));
                            }
                            return Err(
                                Error::BadTraitImplementation(
                                    trait_name.clone(),
                                    self.name.clone(),
                                ),
                            );
                        },
                    };
                    if !(*expected_id == *actual_id) {
                        proof {
                            assert(spec_sig_position_fails(
                                expected_sig.args@[i as int],
                                self.spec_arg_types()[i as int],
                                *contract_defining_trait,
                                *contract_to_check,
                            ));
                        }
                        return Err(
                            Error::BadTraitImplementation(trait_name.clone(), self.name.clone()),
                        );
                    }
                },
                _ => {
                    if !expected_arg.admits_type(actual_arg) {
                        proof {
                            assert(spec_sig_position_fails(
                                expected_sig.args@[i as int],
                                self.spec_arg_types()[i as int],
                                *contract_defining_trait,
                                *contract_to_check,
                            ));
                        }
                        return Err(
                            Error::BadTraitImplementation(trait_name.clone(), self.name.clone()),
                        );
                    }
                },
            }
            i = i + 1;
        }
        Ok(())
    }

    /// Routes an invocation: a private function is evaluated directly
    /// against the current environment, with no isolation; a public or
    /// read-only function is always delegated to the environment's
    /// transactional execution, which owns cost metering, isolation and
    /// rollback.
    pub fn apply<E: Environment>(
        &self,
        args: Vec<Value>,
        contract_context: &ContractContext,
        env: &mut E,
    ) -> (r: Result<Value, Error>)
        requires
            self.wf(),
            self.spec_define_type() is Private ==> self.spec_trait_refs_resolvable(
                args@,
                contract_context.spec_trait_references(),
            ),
        ensures
            self.spec_define_type() is Private ==> (!self.spec_arity_ok(args@) ==> (r matches Err(
                Error::IncorrectArgumentCount(expected, actual),
            ) && expected == self.spec_arguments().len() && actual == args@.len())),
            self.spec_define_type() is Private ==> (self.spec_arity_ok(args@) ==> (
            match self.spec_first_bind_failure(args@, args@.len() as int) {
                Some(i) => {
                    if !self.spec_arg_types()[i].spec_admits(args@[i]) {
                        r matches Err(Error::TypeValueError(t, v)) && t == self.spec_arg_types()[i]
                            && v == args@[i]
                    } else {
                        r matches Err(Error::NameAlreadyUsed(dup)) && dup@
                            == self.spec_arguments()[i]@
                    }
                },
                None => true,
            })),
    {
        match self.define_type {
            DefineType::Private => self.execute_apply(args, contract_context, env),
            DefineType::Public => env.execute_function_as_transaction(self, args, None),
            DefineType::ReadOnly => env.execute_function_as_transaction(self, args, None),
        }
    }
}

/// The environment a call runs against. This core consumes it as an
/// interface: the external evaluator interprets a body expression against a
/// populated binding context, and the transactional environment runs a
/// public or read-only function with isolation, metering, and rollback.
/// Neither operation is this core's concern, so neither carries a contract
/// here; verified code states what holds whatever they return.
pub trait Environment {
    /// Evaluates a function body against the call-local binding context.
    fn evaluate(&mut self, body: &SymbolicExpression, context: &LocalContext) -> EvalOutcome;

    /// Runs a function as a transaction: cost metering, state-write
    /// isolation and rollback, and (for read-only functions) prevention of
    /// state mutation are this operation's responsibility.
    fn execute_function_as_transaction(
        &mut self,
        function: &DefinedFunction,
        args: Vec<Value>,
        sender: Option<PrincipalData>,
    ) -> Result<Value, Error>;
}

/// What an identifier can resolve to: a user-defined function, a built-in
/// native function, or a special form. A closed variant, matched
/// exhaustively; the native and special payloads (`N`, `S`) are the host's
/// implementations, opaque to this core. A special form differs from a
/// native function in receiving its argument expressions unevaluated,
/// together with the environment.
pub enum CallableType<N, S> {
    UserFunction(DefinedFunction),
    NativeFunction(String, N),
    SpecialFunction(String, S),
}

impl<N, S> CallableType<N, S> {
    pub fn get_identifier(&self) -> (r: FunctionIdentifier)
        ensures
            (*self) matches CallableType::UserFunction(f) ==> r == f.spec_identifier(),
            forall|name: String, p: N|
                (*self) == CallableType::<N, S>::NativeFunction(name, p) ==> r@
                    == spec_native_identifier(name@),
            forall|name: String, p: S|
                (*self) == CallableType::<N, S>::SpecialFunction(name, p) ==> r@
                    == spec_native_identifier(name@),
    {
        match self {
            CallableType::UserFunction(f) => f.get_identifier(),
            CallableType::NativeFunction(s, _) => FunctionIdentifier::new_native_function(
                s.as_str(),
            ),
            CallableType::SpecialFunction(s, _) => FunctionIdentifier::new_native_function(
                s.as_str(),
            ),
        }
    }
}

/// `get_identifier` is idempotent: any two results of it on the same
/// function declaration are equal, as values and as identifier text.
pub proof fn lemma_get_identifier_idempotent(
    f: &DefinedFunction,
    r1: FunctionIdentifier,
    r2: FunctionIdentifier,
)
    requires
        r1 == f.spec_identifier(),
        r2 == f.spec_identifier(),
    ensures
        r1 == r2,
        r1@ == r2@,
{
}

/// Function-identifier equality — equality of the identifier text, which is
/// what `==` on `FunctionIdentifier` decides — is reflexive, symmetric and
/// transitive.
pub proof fn lemma_identifier_equality_equivalence(
    a: &FunctionIdentifier,
    b: &FunctionIdentifier,
    c: &FunctionIdentifier,
)
    ensures
        a@ == a@,
        a@ == b@ ==> b@ == a@,
        a@ == b@ && b@ == c@ ==> a@ == c@,
{
}

/// The two identifier namespaces never collide: a native-namespaced
/// identifier differs from a user-namespaced one — even for otherwise
/// identical name text — for every defining context whose name contains no
/// colon and is not itself the reserved native namespace. (A context named
/// exactly like the reserved namespace, or one containing a colon, could
/// forge a native identifier; the identifier scheme relies on context
/// names excluding both.)
pub proof fn lemma_native_user_identifiers_distinct(
    native_name: Seq<char>,
    user_name: Seq<char>,
    context: Seq<char>,
)
    requires
        !context.contains(':'),
        context != "_native_"@,
    ensures
        spec_native_identifier(native_name) != spec_user_identifier(context, user_name),
{
    reveal_strlit("_native_:");
    reveal_strlit("_native_");
    reveal_strlit(":");
    let nid = spec_native_identifier(native_name);
    let uid = spec_user_identifier(context, user_name);
    if nid == uid {
        assert(nid.len() == 9 + native_name.len());
        assert(uid.len() == context.len() + 1 + user_name.len());
        let clen = context.len() as int;
        if clen < 8 {
            assert(uid[clen] == ':');
            assert(nid[clen] == "_native_:"@[clen]);
            assert(false);
        } else if clen > 8 {
            assert(nid[8] == ':');
            assert(uid[8] == context[8]);
            assert(context.contains(':'));
            assert(false);
        } else {
            assert forall|k: int| 0 <= k < 8 implies context[k] == "_native_"@[k] by {
                assert(uid[k] == context[k]);
                assert(nid[k] == "_native_:"@[k]);
            }
            assert(context =~= "_native_"@);
            assert(false);
        }
    }
}

/// Visibility round trip: a declaration reports itself public in the
/// access sense exactly when its visibility is `Public` or `ReadOnly`, and
/// read-only exactly when it is `ReadOnly`; a `Private` declaration is
/// neither.
pub proof fn lemma_visibility_roundtrip(f: &DefinedFunction)
    ensures
        f.spec_is_public() <==> (f.spec_define_type() is Public || f.spec_define_type()
            is ReadOnly),
        f.spec_is_read_only() <==> f.spec_define_type() is ReadOnly,
        f.spec_define_type() is Private ==> !f.spec_is_public() && !f.spec_is_read_only(),
{
}

/// Conformance of a trait-typed parameter position is nominal, never
/// structural: when both sides are trait references whose aliases resolve,
/// the position passes exactly when both aliases resolve to the same
/// canonical trait identity — whatever the alias names themselves are. So
/// two sides sharing an alias name but resolving to different identities
/// fail, and two sides with different alias names resolving to the same
/// identity pass.
pub proof fn lemma_trait_position_nominal(
    expected: TypeSignature,
    actual: TypeSignature,
    defining: ContractContext,
    checking: ContractContext,
)
    requires
        expected is TraitReferenceType,
        actual is TraitReferenceType,
        defining.spec_trait_references().dom().contains(spec_trait_alias(expected)),
        checking.spec_trait_references().dom().contains(spec_trait_alias(actual)),
    ensures
        !spec_sig_position_fails(expected, actual, defining, checking) <==> trait_id_eqv(
            defining.spec_trait_references()[spec_trait_alias(expected)],
            checking.spec_trait_references()[spec_trait_alias(actual)],
        ),
{
}

/// A deferred argument is recorded, not admission-checked: where parameter
/// `i` is trait-typed and supplied a contract principal, it never fails
/// binding, and — provided no later deferred parameter shadows its name —
/// the callable-contracts map of every binding prefix beyond it carries,
/// under the parameter's name, exactly the supplied principal paired with
/// the trait identity its alias resolves to.
pub proof fn lemma_deferred_argument_recorded(
    f: &DefinedFunction,
    args: Seq<Value>,
    refs: Map<Seq<char>, TraitIdentifier>,
    i: int,
    n: int,
)
    requires
        f.wf(),
        args.len() == f.spec_arguments().len(),
        0 <= i < n <= args.len(),
        spec_is_deferred(f.spec_arg_types()[i], args[i]),
        forall|j: int|
            i < j < n && #[trigger] spec_is_deferred(f.spec_arg_types()[j], args[j])
                ==> f.spec_arguments()[j]@ != f.spec_arguments()[i]@,
    ensures
        !f.spec_bind_fails_at(args, i),
        f.spec_callables_prefix(args, refs, n).dom().contains(f.spec_arguments()[i]@),
        f.spec_callables_prefix(args, refs, n)[f.spec_arguments()[i]@] == (
            spec_contract_principal(args[i]),
            refs[spec_trait_alias(f.spec_arg_types()[i])],
        ),
    decreases n,
{
    if n - 1 > i {
        lemma_deferred_argument_recorded(f, args, refs, i, n - 1);
    }
}

} // verus!
