//! The value and type domain over which calls are checked: runtime values,
//! declared type signatures, contract principals, trait identities, and the
//! structural admission predicates relating them.

use vstd::prelude::*;

verus! {

/// Identifies a deployed contract: the principal that issued it and the
/// contract's own name.
#[derive(Debug)]
pub struct QualifiedContractIdentifier {
    pub issuer: String,
    pub name: String,
}

/// A trait's globally unique identity: the contract that defines it,
/// qualified by the trait's name within that contract.
#[derive(Debug)]
pub struct TraitIdentifier {
    pub contract_identifier: QualifiedContractIdentifier,
    pub name: String,
}

/// A value identifying either a standard (account) principal or a specific
/// deployed contract.
#[derive(PartialEq, Eq, Debug)]
pub enum PrincipalData {
    Standard(String),
    Contract(QualifiedContractIdentifier),
}

/// A runtime value of the contract language. Untyped at rest; a declared
/// `TypeSignature` admits or rejects it at each call boundary.
#[derive(PartialEq, Eq, Debug)]
pub enum Value {
    Bool(bool),
    Int(i128),
    UInt(u128),
    Buffer(Vec<u8>),
    Optional(Option<Box<Value>>),
    List(Vec<Value>),
    Principal(PrincipalData),
}

/// A declared type. `TraitReferenceType` carries a contract-local alias for
/// a trait identity; such a parameter is never admission-checked
/// structurally, it defers to call-time conformance checking instead.
#[derive(PartialEq, Eq, Debug)]
pub enum TypeSignature {
    BoolType,
    IntType,
    UIntType,
    PrincipalType,
    BufferType(usize),
    OptionalType(Box<TypeSignature>),
    ListType(Box<TypeSignature>, usize),
    TraitReferenceType(String),
}

/// The signature a trait expects of one of its methods: the declared
/// parameter types, in order.
pub struct FunctionSignature {
    pub args: Vec<TypeSignature>,
}

/// An unevaluated expression. Opaque to this core: it is stored in a
/// function's declaration and handed to the external evaluator unchanged.
pub enum SymbolicExpression {
    Atom(String),
    LiteralValue(Value),
    List(Vec<SymbolicExpression>),
}

/// Two contract identifiers denote the same contract: issuer and name agree.
pub open spec fn qci_eqv(a: QualifiedContractIdentifier, b: QualifiedContractIdentifier) -> bool {
    a.issuer@ == b.issuer@ && a.name@ == b.name@
}

/// Two trait identities are the same canonical trait: defining contract and
/// trait name both agree.
pub open spec fn trait_id_eqv(a: TraitIdentifier, b: TraitIdentifier) -> bool {
    qci_eqv(a.contract_identifier, b.contract_identifier) && a.name@ == b.name@
}

impl Clone for QualifiedContractIdentifier {
    fn clone(&self) -> (r: Self)
        ensures
            r == *self,
    {
        QualifiedContractIdentifier { issuer: self.issuer.clone(), name: self.name.clone() }
    }
}

impl PartialEq for QualifiedContractIdentifier {
    fn eq(&self, other: &Self) -> (r: bool) {
        self.issuer == other.issuer && self.name == other.name
    }
}

impl vstd::std_specs::cmp::PartialEqSpecImpl for QualifiedContractIdentifier {
    open spec fn obeys_eq_spec() -> bool {
        true
    }

    open spec fn eq_spec(&self, other: &Self) -> bool {
        qci_eqv(*self, *other)
    }
}

impl Eq for QualifiedContractIdentifier {

}

impl Clone for TraitIdentifier {
    fn clone(&self) -> (r: Self)
        ensures
            r == *self,
    {
        TraitIdentifier {
            contract_identifier: self.contract_identifier.clone(),
            name: self.name.clone(),
        }
    }
}

impl PartialEq for TraitIdentifier {
    fn eq(&self, other: &Self) -> (r: bool) {
        self.contract_identifier == other.contract_identifier && self.name == other.name
    }
}

impl vstd::std_specs::cmp::PartialEqSpecImpl for TraitIdentifier {
    open spec fn obeys_eq_spec() -> bool {
        true
    }

    open spec fn eq_spec(&self, other: &Self) -> bool {
        trait_id_eqv(*self, *other)
    }
}

impl Eq for TraitIdentifier {

}

impl Clone for TypeSignature {
    fn clone(&self) -> (r: Self)
        ensures
            r == *self,
        decreases *self,
    {
        match self {
            TypeSignature::BoolType => TypeSignature::BoolType,
            TypeSignature::IntType => TypeSignature::IntType,
            TypeSignature::UIntType => TypeSignature::UIntType,
            TypeSignature::PrincipalType => TypeSignature::PrincipalType,
            TypeSignature::BufferType(max_len) => TypeSignature::BufferType(*max_len),
            TypeSignature::OptionalType(inner) => TypeSignature::OptionalType(
                Box::new((**inner).clone()),
            ),
            TypeSignature::ListType(elem, max_len) => TypeSignature::ListType(
                Box::new((**elem).clone()),
                *max_len,
            ),
            TypeSignature::TraitReferenceType(alias) => TypeSignature::TraitReferenceType(
                alias.clone(),
            ),
        }
    }
}

impl TypeSignature {
    /// Type membership: does this declared type admit the runtime value?
    /// A trait-reference type admits no value structurally; such parameters
    /// are handled by deferral, never by admission.
    pub open spec fn spec_admits(self, v: Value) -> bool
        decreases self,
    {
        match self {
            TypeSignature::BoolType => v is Bool,
            TypeSignature::IntType => v is Int,
            TypeSignature::UIntType => v is UInt,
            TypeSignature::PrincipalType => v is Principal,
            TypeSignature::BufferType(max_len) => v matches Value::Buffer(b) && b@.len()
                <= max_len,
            TypeSignature::OptionalType(inner) => v matches Value::Optional(o) && (
            o matches Some(bx) ==> inner.spec_admits(*bx)),
            TypeSignature::ListType(elem, max_len) => v matches Value::List(items) && items@.len()
                <= max_len && (forall|i: int|
                0 <= i < items@.len() ==> elem.spec_admits(#[trigger] items@[i])),
            TypeSignature::TraitReferenceType(_) => false,
        }
    }

    /// Width compatibility between two declared types: `actual` may be equal
    /// to, or a narrower-but-compatible form of, `self`. Trait-reference
    /// types are never compatible this way; their compatibility is nominal
    /// and decided by resolving both aliases to canonical trait identities.
    pub open spec fn spec_admits_type(self, actual: TypeSignature) -> bool
        decreases self,
    {
        match self {
            TypeSignature::BoolType => actual is BoolType,
            TypeSignature::IntType => actual is IntType,
            TypeSignature::UIntType => actual is UIntType,
            TypeSignature::PrincipalType => actual is PrincipalType,
            TypeSignature::BufferType(max_len) => actual matches TypeSignature::BufferType(n) && n
                <= max_len,
            TypeSignature::OptionalType(inner) => actual matches TypeSignature::OptionalType(a)
                && inner.spec_admits_type(*a),
            TypeSignature::ListType(elem, max_len) => actual matches TypeSignature::ListType(a, n)
                && n <= max_len && elem.spec_admits_type(*a),
            TypeSignature::TraitReferenceType(_) => false,
        }
    }

    /// Runtime admission check; total over the whole value domain.
    #[verifier::loop_isolation(false)]
    pub fn admits(&self, value: &Value) -> (r: bool)
        ensures
            r == self.spec_admits(*value),
        decreases *self,
    {
        match self {
            TypeSignature::BoolType => matches!(value, Value::Bool(_)),
            TypeSignature::IntType => matches!(value, Value::Int(_)),
            TypeSignature::UIntType => matches!(value, Value::UInt(_)),
            TypeSignature::PrincipalType => matches!(value, Value::Principal(_)),
            TypeSignature::BufferType(max_len) => match value {
                Value::Buffer(b) => b.len() <= *max_len,
                _ => false,
            },
            TypeSignature::OptionalType(inner) => match value {
                Value::Optional(o) => match o {
                    Some(bx) => inner.admits(&**bx),
                    None => true,
                },
                _ => false,
            },
            TypeSignature::ListType(elem, max_len) => match value {
                Value::List(items) => {
                    if items.len() > *max_len {
                        return false;
                    }
                    let mut i: usize = 0;
                    while i < items.len()
                        invariant
                            0 <= i <= items@.len(),
                            forall|j: int| 0 <= j < i ==> elem.spec_admits(#[trigger] items@[j]),
                        decreases items@.len() - i,
                    {
                        if !elem.admits(&items[i]) {
                            return false;
                        }
                        i = i + 1;
                    }
                    true
                },
                _ => false,
            },
            TypeSignature::TraitReferenceType(_) => false,
        }
    }

    /// Runtime width-compatibility check; total over all type pairs.
    pub fn admits_type(&self, actual: &TypeSignature) -> (r: bool)
        ensures
            r == self.spec_admits_type(*actual),
        decreases *self,
    {
        match self {
            TypeSignature::BoolType => matches!(actual, TypeSignature::BoolType),
            TypeSignature::IntType => matches!(actual, TypeSignature::IntType),
            TypeSignature::UIntType => matches!(actual, TypeSignature::UIntType),
            TypeSignature::PrincipalType => matches!(actual, TypeSignature::PrincipalType),
            TypeSignature::BufferType(max_len) => match actual {
                TypeSignature::BufferType(n) => *n <= *max_len,
                _ => false,
            },
            TypeSignature::OptionalType(inner) => match actual {
                TypeSignature::OptionalType(a) => inner.admits_type(&**a),
                _ => false,
            },
            TypeSignature::ListType(elem, max_len) => match actual {
                TypeSignature::ListType(a, n) => *n <= *max_len && elem.admits_type(&**a),
                _ => false,
            },
            TypeSignature::TraitReferenceType(_) => false,
        }
    }
}

} // verus!
