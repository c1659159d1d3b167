//! Traits: the named dimensions of a personality.

use vstd::prelude::*;
use crate::id::Id;
use crate::json::{entries_view, lemma_field_push, lemma_object_view, Json, JsonValue};
use crate::scalar::{Scalar, HALF_BITS, ZERO_BITS};
use crate::violation::{SchemaViolation, Violation};
use crate::wire::{
    lemma_texts_round_trip, optional_texts_value, put_id, put_optional_texts, put_real, put_text,
    read_optional_id, read_optional_text_list, read_real, read_text, spec_optional_id,
    spec_optional_text_list, spec_real, spec_text, with, with_id, with_optional, Record,
};

verus! {

/// A dimension of a personality: its name, how strong it is, and the rules
/// by which it shows.
#[derive(Debug, Clone, PartialEq)]
pub struct Trait {
    pub id: Option<Id>,
    /// The name of the trait; `trait` on the wire.
    pub trait_name: String,
    /// How strong the trait is. The wire sets no limit on it.
    pub strength: Scalar,
    pub expression_rules: Option<Vec<String>>,
}

/// A `Trait` as a mathematical value.
pub struct TraitView {
    pub id: Option<Id>,
    pub trait_name: Seq<char>,
    pub strength: Scalar,
    pub expression_rules: Option<Seq<Seq<char>>>,
}

impl DeepView for Trait {
    type V = TraitView;

    open spec fn deep_view(&self) -> TraitView {
        TraitView {
            id: self.id,
            trait_name: self.trait_name@,
            strength: self.strength,
            expression_rules: self.expression_rules.deep_view(),
        }
    }
}

impl Record for Trait {
    open spec fn written(record: TraitView) -> JsonValue {
        JsonValue::Object(
            with_optional(
                with(
                    with(
                        with_id(Seq::empty(), "id"@, record.id),
                        "trait"@,
                        JsonValue::Text(record.trait_name),
                    ),
                    "strength"@,
                    JsonValue::Real(record.strength),
                ),
                "expression_rules"@,
                optional_texts_value(record.expression_rules),
            ),
        )
    }

    open spec fn read(doc: JsonValue) -> Result<TraitView, Violation> {
        match spec_optional_id(doc, "id"@) {
            Err(e) => Err(e),
            Ok(id) => match spec_text(doc, "trait"@) {
                Err(e) => Err(e),
                Ok(trait_name) => match spec_real(doc, "strength"@) {
                    Err(e) => Err(e),
                    Ok(strength) => match spec_optional_text_list(doc, "expression_rules"@) {
                        Err(e) => Err(e),
                        Ok(expression_rules) => Ok(
                            TraitView { id, trait_name, strength, expression_rules },
                        ),
                    },
                },
            },
        }
    }

    open spec fn sound(record: TraitView) -> bool {
        record.id matches Some(id) ==> id.canonical()
    }

    proof fn round_trip(record: TraitView) {
        broadcast use lemma_field_push;

        reveal_strlit("id");
        reveal_strlit("trait");
        reveal_strlit("strength");
        reveal_strlit("expression_rules");
        assert("id"@.len() == 2 && "trait"@.len() == 5 && "strength"@.len() == 8
            && "expression_rules"@.len() == 16);
        if let Some(rules) = record.expression_rules {
            lemma_texts_round_trip(rules);
        }
    }

    fn encode(&self) -> (r: Json) {
        let mut fields: Vec<(String, Json)> = Vec::new();
        assert(entries_view(fields@) =~= Seq::empty());
        put_id(&mut fields, "id", &self.id);
        put_text(&mut fields, "trait", &self.trait_name);
        put_real(&mut fields, "strength", self.strength);
        put_optional_texts(&mut fields, "expression_rules", &self.expression_rules);
        proof {
            lemma_object_view(fields);
        }
        Json::Object(fields)
    }

    fn decode(doc: &Json) -> (r: Result<Trait, SchemaViolation>) {
        let id = read_optional_id(doc, "id")?;
        let trait_name = read_text(doc, "trait")?;
        let strength = read_real(doc, "strength")?;
        let expression_rules = read_optional_text_list(doc, "expression_rules")?;
        Ok(Trait { id, trait_name, strength, expression_rules })
    }
}

/// Collects the fields of a `Trait`.
pub struct TraitBuilder {
    pub trait_name: String,
    pub strength: Scalar,
    pub expression_rules: Option<Vec<String>>,
}

impl Default for TraitBuilder {
    fn default() -> (r: TraitBuilder)
        ensures
            r.trait_name@ == Seq::<char>::empty(),
            r.strength.bits == ZERO_BITS,
            r.expression_rules is None,
    {
        TraitBuilder { trait_name: String::new(), strength: Scalar::zero(), expression_rules: None }
    }
}

impl TraitBuilder {
    /// A builder for the trait of this name, of strength 0.5 and without
    /// rules.
    pub fn new(name: &str) -> (r: TraitBuilder)
        ensures
            r.trait_name@ == name@,
            r.strength.bits == HALF_BITS,
            r.expression_rules is None,
    {
        TraitBuilder {
            trait_name: name.to_owned(),
            strength: Scalar::half(),
            expression_rules: None,
        }
    }

    pub fn strength(self, strength: Scalar) -> (r: TraitBuilder)
        ensures
            r.strength == strength,
            r.trait_name == self.trait_name,
            r.expression_rules == self.expression_rules,
    {
        let mut next = self;
        next.strength = strength;
        next
    }

    /// Adds a rule behind those that are there.
    pub fn add_expression_rule(self, rule: &str) -> (r: TraitBuilder)
        ensures
            r.expression_rules.deep_view() == Some(
                match self.expression_rules.deep_view() {
                    Some(rules) => rules.push(rule@),
                    None => seq![rule@],
                },
            ),
            r.trait_name == self.trait_name,
            r.strength == self.strength,
    {
        let TraitBuilder { trait_name, strength, expression_rules } = self;
        let mut rules = match expression_rules {
            Some(rules) => rules,
            None => Vec::new(),
        };
        let ghost before = rules.deep_view();
        rules.push(rule.to_owned());
        assert(rules.deep_view() =~= before.push(rule@));
        assert(expression_rules is None ==> before =~= Seq::empty());
        TraitBuilder { trait_name, strength, expression_rules: Some(rules) }
    }

    /// Makes the trait: it has no identifier yet.
    pub fn build(self) -> (r: Trait)
        ensures
            r.id is None,
            r.trait_name == self.trait_name,
            r.strength == self.strength,
            r.expression_rules == self.expression_rules,
    {
        Trait {
            id: None,
            trait_name: self.trait_name,
            strength: self.strength,
            expression_rules: self.expression_rules,
        }
    }
}

} // verus!
