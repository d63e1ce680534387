//! Contract-level metadata and the per-call binding context.
//!
//! A `ContractContext` carries the read-only tables this core consults: the
//! contract's local trait-reference aliases (alias name -> canonical trait
//! identity) and its trait definitions (trait name -> method table). A
//! `LocalContext` is the fresh, exclusively owned binding context of one
//! in-flight call: evaluated values by parameter name, plus the deferred
//! (contract principal, trait identity) pairs for trait-typed parameters.
//!
//! Tables are sequences of (name, entry) pairs; a later entry for the same
//! name shadows an earlier one, so each table is modelled as the `Map` built
//! by inserting the pairs in order.

use vstd::prelude::*;

use crate::types::FunctionSignature;
use crate::types::QualifiedContractIdentifier;
use crate::types::TraitIdentifier;
use crate::types::Value;

verus! {

/// The `Map` described by a sequence of (name, entry) pairs, inserted in
/// order: the last entry for a name wins.
pub open spec fn pairs_map<V>(s: Seq<(String, V)>) -> Map<Seq<char>, V>
    decreases s.len(),
{
    if s.len() == 0 {
        Map::empty()
    } else {
        pairs_map(s.drop_last()).insert(s.last().0@, s.last().1)
    }
}

/// Appending a pair inserts its entry into the table's map.
pub proof fn lemma_pairs_map_push<V>(s: Seq<(String, V)>, p: (String, V))
    ensures
        pairs_map(s.push(p)) == pairs_map(s).insert(p.0@, p.1),
{
    assert(s.push(p).drop_last() =~= s);
    assert(s.push(p).last() == p);
}

/// Scans a pair table for the entry a name denotes, if any: the last pair
/// carrying the name, as `pairs_map` prescribes.
fn lookup_pair<'a, V>(entries: &'a Vec<(String, V)>, name: &String) -> (r: Option<&'a V>)
    ensures
        match r {
            Some(v) => pairs_map(entries@).dom().contains(name@) && *v == pairs_map(entries@)[name@],
            None => !pairs_map(entries@).dom().contains(name@),
        },
{
    let mut i: usize = entries.len();
    proof {
        assert(entries@.take(entries@.len() as int) =~= entries@);
    }
    while i > 0
        invariant
            0 <= i <= entries@.len(),
            pairs_map(entries@).dom().contains(name@) <==> pairs_map(
                entries@.take(i as int),
            ).dom().contains(name@),
            pairs_map(entries@).dom().contains(name@) ==> pairs_map(entries@)[name@] == pairs_map(
                entries@.take(i as int),
            )[name@],
        decreases i,
    {
        proof {
            assert(entries@.take(i as int).drop_last() =~= entries@.take(i as int - 1));
            assert(entries@.take(i as int).last() == entries@[i as int - 1]);
        }
        if entries[i - 1].0 == *name {
            return Some(&entries[i - 1].1);
        }
        i = i - 1;
    }
    proof {
        assert(entries@.take(0) =~= Seq::<(String, V)>::empty());
    }
    None
}

/// The read-only, per-contract metadata this core consults: trait-reference
/// aliases and trait definitions, each keyed by name.
pub struct ContractContext {
    trait_references: Vec<(String, TraitIdentifier)>,
    trait_definitions: Vec<(String, Vec<(String, FunctionSignature)>)>,
}

impl ContractContext {
    /// The contract's alias table: local trait-reference name to canonical
    /// trait identity.
    pub closed spec fn spec_trait_references(&self) -> Map<Seq<char>, TraitIdentifier> {
        pairs_map(self.trait_references@)
    }

    /// Whether the contract defines a trait under this name.
    pub closed spec fn spec_has_trait_definition(&self, name: Seq<char>) -> bool {
        pairs_map(self.trait_definitions@).dom().contains(name)
    }

    /// The method table of the trait this contract defines under the name:
    /// method name to expected signature. Meaningful only where
    /// `spec_has_trait_definition` holds.
    pub closed spec fn spec_trait_definition(&self, name: Seq<char>) -> Map<
        Seq<char>,
        FunctionSignature,
    > {
        pairs_map(pairs_map(self.trait_definitions@)[name]@)
    }

    /// A contract context with empty tables.
    pub fn new() -> (r: ContractContext)
        ensures
            r.spec_trait_references() == Map::<Seq<char>, TraitIdentifier>::empty(),
            forall|n: Seq<char>| !r.spec_has_trait_definition(n),
    {
        ContractContext { trait_references: Vec::new(), trait_definitions: Vec::new() }
    }

    /// Records a local trait-reference alias for a canonical trait identity,
    /// shadowing an earlier entry of the same name.
    pub fn add_trait_reference(&mut self, name: String, trait_identifier: TraitIdentifier)
        ensures
            final(self).spec_trait_references() == old(self).spec_trait_references().insert(
                name@,
                trait_identifier,
            ),
            forall|n: Seq<char>|
                final(self).spec_has_trait_definition(n) == old(self).spec_has_trait_definition(n),
            forall|n: Seq<char>|
                old(self).spec_has_trait_definition(n) ==> final(self).spec_trait_definition(n)
                    == old(self).spec_trait_definition(n),
    {
        proof {
            lemma_pairs_map_push(self.trait_references@, (name, trait_identifier));
        }
        self.trait_references.push((name, trait_identifier));
    }

    /// Records a trait definition: the trait's name and its method table as
    /// (method name, expected signature) pairs, a later pair for the same
    /// method shadowing an earlier one.
    pub fn add_trait_definition(&mut self, name: String, methods: Vec<(String, FunctionSignature)>)
        ensures
            final(self).spec_trait_references() == old(self).spec_trait_references(),
            forall|n: Seq<char>|
                final(self).spec_has_trait_definition(n) == (n == name@ || old(
                    self).spec_has_trait_definition(n)),
            final(self).spec_trait_definition(name@) == pairs_map(methods@),
            forall|n: Seq<char>|
                n != name@ && old(self).spec_has_trait_definition(n) ==> final(
                    self).spec_trait_definition(n) == old(self).spec_trait_definition(n),
    {
        proof {
            lemma_pairs_map_push(self.trait_definitions@, (name, methods));
        }
        self.trait_definitions.push((name, methods));
    }

    /// Resolves a local trait-reference alias to its canonical trait
    /// identity, if the alias is declared.
    pub fn lookup_trait_reference(&self, name: &String) -> (r: Option<&TraitIdentifier>)
        ensures
            match r {
                Some(t) => self.spec_trait_references().dom().contains(name@) && *t
                    == self.spec_trait_references()[name@],
                None => !self.spec_trait_references().dom().contains(name@),
            },
    {
        lookup_pair(&self.trait_references, name)
    }

    /// Looks up the method table of the trait this contract defines under
    /// the name, if any.
    pub fn lookup_trait_definition(&self, name: &String) -> (r: Option<
        &Vec<(String, FunctionSignature)>,
    >)
        ensures
            match r {
                Some(methods) => self.spec_has_trait_definition(name@) && pairs_map(methods@)
                    == self.spec_trait_definition(name@),
                None => !self.spec_has_trait_definition(name@),
            },
    {
        lookup_pair(&self.trait_definitions, name)
    }

    /// The expected signature of one method of a defined trait, if the trait
    /// is defined here and lists the method.
    pub fn lookup_trait_method(&self, trait_name: &String, method_name: &String) -> (r: Option<
        &FunctionSignature,
    >)
        ensures
            match r {
                Some(sig) => self.spec_has_trait_definition(trait_name@)
                    && self.spec_trait_definition(trait_name@).dom().contains(method_name@) && *sig
                    == self.spec_trait_definition(trait_name@)[method_name@],
                None => !(self.spec_has_trait_definition(trait_name@) && self.spec_trait_definition(
                    trait_name@,
                ).dom().contains(method_name@)),
            },
    {
        match self.lookup_trait_definition(trait_name) {
            Some(methods) => lookup_pair(methods, method_name),
            None => None,
        }
    }
}

/// The call-local binding context: created fresh for one call, populated in
/// declaration order, discarded when the call ends.
pub struct LocalContext {
    variables: Vec<(String, Value)>,
    callable_contracts: Vec<(String, (QualifiedContractIdentifier, TraitIdentifier))>,
}

impl LocalContext {
    /// Parameter name to already-evaluated argument value.
    pub closed spec fn spec_variables(&self) -> Map<Seq<char>, Value> {
        pairs_map(self.variables@)
    }

    /// Parameter name to the deferred (contract principal, trait identity)
    /// pair recorded for a trait-typed parameter.
    pub closed spec fn spec_callable_contracts(&self) -> Map<
        Seq<char>,
        (QualifiedContractIdentifier, TraitIdentifier),
    > {
        pairs_map(self.callable_contracts@)
    }

    /// A fresh, empty binding context.
    pub fn new() -> (r: LocalContext)
        ensures
            r.spec_variables() == Map::<Seq<char>, Value>::empty(),
            r.spec_callable_contracts() == Map::<
                Seq<char>,
                (QualifiedContractIdentifier, TraitIdentifier),
            >::empty(),
    {
        LocalContext { variables: Vec::new(), callable_contracts: Vec::new() }
    }

    /// Binds a value under a parameter name. Returns whether the name was
    /// fresh; a name already bound leaves the context unchanged, so a caller
    /// can reject the duplicate binding.
    pub fn insert_variable(&mut self, name: String, value: Value) -> (fresh: bool)
        ensures
            fresh == !old(self).spec_variables().dom().contains(name@),
            fresh ==> final(self).spec_variables() == old(self).spec_variables().insert(
                name@,
                value,
            ),
            !fresh ==> final(self).spec_variables() == old(self).spec_variables(),
            final(self).spec_callable_contracts() == old(self).spec_callable_contracts(),
    {
        let bound = lookup_pair(&self.variables, &name);
        if bound.is_some() {
            return false;
        }
        proof {
            lemma_pairs_map_push(self.variables@, (name, value));
        }
        self.variables.push((name, value));
        true
    }

    /// Records the deferred (contract principal, trait identity) pair for a
    /// trait-typed parameter, shadowing an earlier pair of the same name.
    pub fn insert_callable_contract(
        &mut self,
        name: String,
        contract_identifier: QualifiedContractIdentifier,
        trait_identifier: TraitIdentifier,
    )
        ensures
            final(self).spec_callable_contracts() == old(self).spec_callable_contracts().insert(
                name@,
                (contract_identifier, trait_identifier),
            ),
            final(self).spec_variables() == old(self).spec_variables(),
    {
        proof {
            lemma_pairs_map_push(
                self.callable_contracts@,
                (name, (contract_identifier, trait_identifier)),
            );
        }
        self.callable_contracts.push((name, (contract_identifier, trait_identifier)));
    }

    /// The value bound under a parameter name, if any.
    pub fn lookup_variable(&self, name: &String) -> (r: Option<&Value>)
        ensures
            match r {
                Some(v) => self.spec_variables().dom().contains(name@) && *v
                    == self.spec_variables()[name@],
                None => !self.spec_variables().dom().contains(name@),
            },
    {
        lookup_pair(&self.variables, name)
    }

    /// The deferred pair recorded under a parameter name, if any.
    pub fn lookup_callable_contract(&self, name: &String) -> (r: Option<
        &(QualifiedContractIdentifier, TraitIdentifier),
    >)
        ensures
            match r {
                Some(p) => self.spec_callable_contracts().dom().contains(name@) && *p
                    == self.spec_callable_contracts()[name@],
                None => !self.spec_callable_contracts().dom().contains(name@),
            },
    {
        lookup_pair(&self.callable_contracts, name)
    }
}

} // verus!
