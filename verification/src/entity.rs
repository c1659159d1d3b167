//! Entity: the embodiment of a persona.

use vstd::prelude::*;
use crate::id::Id;
use crate::json::{entries_view, lemma_field_push, lemma_object_view, Json, JsonValue};
use crate::violation::{SchemaViolation, Violation};
use crate::wire::{
    id_value, lemma_texts_round_trip, optional_text_value, optional_texts_value, put_id, put_optional_text,
    put_optional_texts, put_text, read_optional_id, read_optional_text, read_optional_text_list,
    read_text, spec_optional_id, spec_optional_text, spec_optional_text_list, spec_text, with,
    with_id, with_optional, Record,
};

verus! {

/// What a persona is embodied as.
#[derive(Debug, Clone, PartialEq)]
pub struct Entity {
    pub id: Option<Id>,
    pub form: String,
    pub occupation: String,
    pub gender: Option<String>,
    pub age: Option<String>,
    pub background: Option<String>,
    pub expertise: Option<Vec<String>>,
}

/// An `Entity` as a mathematical value.
pub struct EntityView {
    pub id: Option<Id>,
    pub form: Seq<char>,
    pub occupation: Seq<char>,
    pub gender: Option<Seq<char>>,
    pub age: Option<Seq<char>>,
    pub background: Option<Seq<char>>,
    pub expertise: Option<Seq<Seq<char>>>,
}

impl DeepView for Entity {
    type V = EntityView;

    open spec fn deep_view(&self) -> EntityView {
        EntityView {
            id: self.id,
            form: self.form@,
            occupation: self.occupation@,
            gender: self.gender.deep_view(),
            age: self.age.deep_view(),
            background: self.background.deep_view(),
            expertise: self.expertise.deep_view(),
        }
    }
}

/// The object that an entity is written as, given what each part is written
/// as: the fields in their order, an absent part leaving no field.
pub open spec fn entity_layout(
    id: Option<Id>,
    form: JsonValue,
    occupation: JsonValue,
    gender: Option<JsonValue>,
    age: Option<JsonValue>,
    background: Option<JsonValue>,
    expertise: Option<JsonValue>,
) -> JsonValue {
    JsonValue::Object(
        with_optional(
            with_optional(
                with_optional(
                    with_optional(
                        with(
                            with(with_id(Seq::empty(), "id"@, id), "form"@, form),
                            "occupation"@,
                            occupation,
                        ),
                        "gender"@,
                        gender,
                    ),
                    "age"@,
                    age,
                ),
                "background"@,
                background,
            ),
            "expertise"@,
            expertise,
        ),
    )
}

/// Each part of an entity is found under its name in the object that the
/// entity is written as.
pub proof fn lemma_entity_layout(
    id: Option<Id>,
    form: JsonValue,
    occupation: JsonValue,
    gender: Option<JsonValue>,
    age: Option<JsonValue>,
    background: Option<JsonValue>,
    expertise: Option<JsonValue>,
)
    ensures
        ({
            let doc = entity_layout(id, form, occupation, gender, age, background, expertise);
            &&& doc.get("id"@) == match id {
                Some(id) => Some(id_value(id)),
                None => None,
            }
            &&& doc.get("form"@) == Some(form)
            &&& doc.get("occupation"@) == Some(occupation)
            &&& doc.get("gender"@) == gender
            &&& doc.get("age"@) == age
            &&& doc.get("background"@) == background
            &&& doc.get("expertise"@) == expertise
        }),
{
    broadcast use lemma_field_push;

    reveal_strlit("id");
    reveal_strlit("form");
    reveal_strlit("occupation");
    reveal_strlit("gender");
    reveal_strlit("age");
    reveal_strlit("background");
    reveal_strlit("expertise");
    assert("id"@.len() == 2 && "form"@.len() == 4 && "occupation"@.len() == 10 && "gender"@.len()
        == 6 && "age"@.len() == 3 && "background"@.len() == 10 && "expertise"@.len() == 9);
    assert("occupation"@[0] == 'o' && "background"@[0] == 'b');
}

impl Record for Entity {
    open spec fn written(record: EntityView) -> JsonValue {
        entity_layout(
            record.id,
            JsonValue::Text(record.form),
            JsonValue::Text(record.occupation),
            optional_text_value(record.gender),
            optional_text_value(record.age),
            optional_text_value(record.background),
            optional_texts_value(record.expertise),
        )
    }

    open spec fn read(doc: JsonValue) -> Result<EntityView, Violation> {
        match spec_optional_id(doc, "id"@) {
            Err(e) => Err(e),
            Ok(id) => match spec_text(doc, "form"@) {
                Err(e) => Err(e),
                Ok(form) => match spec_text(doc, "occupation"@) {
                    Err(e) => Err(e),
                    Ok(occupation) => match spec_optional_text(doc, "gender"@) {
                        Err(e) => Err(e),
                        Ok(gender) => match spec_optional_text(doc, "age"@) {
                            Err(e) => Err(e),
                            Ok(age) => match spec_optional_text(doc, "background"@) {
                                Err(e) => Err(e),
                                Ok(background) => match spec_optional_text_list(
                                    doc,
                                    "expertise"@,
                                ) {
                                    Err(e) => Err(e),
                                    Ok(expertise) => Ok(
                                        EntityView {
                                            id,
                                            form,
                                            occupation,
                                            gender,
                                            age,
                                            background,
                                            expertise,
                                        },
                                    ),
                                },
                            },
                        },
                    },
                },
            },
        }
    }

    open spec fn sound(record: EntityView) -> bool {
        record.id matches Some(id) ==> id.canonical()
    }

    proof fn round_trip(record: EntityView) {
        lemma_entity_layout(
            record.id,
            JsonValue::Text(record.form),
            JsonValue::Text(record.occupation),
            optional_text_value(record.gender),
            optional_text_value(record.age),
            optional_text_value(record.background),
            optional_texts_value(record.expertise),
        );
        if let Some(expertise) = record.expertise {
            lemma_texts_round_trip(expertise);
        }
    }

    fn encode(&self) -> (r: Json) {
        let mut fields: Vec<(String, Json)> = Vec::new();
        assert(entries_view(fields@) =~= Seq::empty());
        put_id(&mut fields, "id", &self.id);
        put_text(&mut fields, "form", &self.form);
        put_text(&mut fields, "occupation", &self.occupation);
        put_optional_text(&mut fields, "gender", &self.gender);
        put_optional_text(&mut fields, "age", &self.age);
        put_optional_text(&mut fields, "background", &self.background);
        put_optional_texts(&mut fields, "expertise", &self.expertise);
        proof {
            lemma_object_view(fields);
        }
        Json::Object(fields)
    }

    fn decode(doc: &Json) -> (r: Result<Entity, SchemaViolation>) {
        let id = read_optional_id(doc, "id")?;
        let form = read_text(doc, "form")?;
        let occupation = read_text(doc, "occupation")?;
        let gender = read_optional_text(doc, "gender")?;
        let age = read_optional_text(doc, "age")?;
        let background = read_optional_text(doc, "background")?;
        let expertise = read_optional_text_list(doc, "expertise")?;
        Ok(Entity { id, form, occupation, gender, age, background, expertise })
    }
}

impl Entity {
    /// The entity that a persona has where none was chosen: an AI that
    /// assists.
    pub open spec fn baseline() -> EntityView {
        EntityView {
            id: None,
            form: "ai"@,
            occupation: "assistant"@,
            gender: None,
            age: None,
            background: None,
            expertise: None,
        }
    }
}

impl Default for Entity {
    fn default() -> (r: Entity)
        ensures
            r.deep_view() == Entity::baseline(),
    {
        Entity {
            id: None,
            form: "ai".to_owned(),
            occupation: "assistant".to_owned(),
            gender: None,
            age: None,
            background: None,
            expertise: None,
        }
    }
}

/// Why an entity could not be built.
#[derive(Debug, Clone, Copy, PartialEq, Eq, Structural)]
pub enum EntityBuilderError {
    /// The form was never set.
    MissingForm,
    /// The occupation was never set.
    MissingOccupation,
}

impl EntityBuilderError {
    /// The name of the field that was never set.
    pub open spec fn field(self) -> Seq<char> {
        match self {
            EntityBuilderError::MissingForm => "form"@,
            EntityBuilderError::MissingOccupation => "occupation"@,
        }
    }

    /// What went wrong, in words.
    pub open spec fn message(self) -> Seq<char> {
        match self {
            EntityBuilderError::MissingForm => "form is required"@,
            EntityBuilderError::MissingOccupation => "occupation is required"@,
        }
    }

    /// The name of the field that was never set.
    pub fn missing_field(&self) -> (r: &'static str)
        ensures
            r@ == self.field(),
    {
        match self {
            EntityBuilderError::MissingForm => "form",
            EntityBuilderError::MissingOccupation => "occupation",
        }
    }

    pub fn to_string(&self) -> (r: String)
        ensures
            r@ == self.message(),
    {
        match self {
            EntityBuilderError::MissingForm => "form is required".to_owned(),
            EntityBuilderError::MissingOccupation => "occupation is required".to_owned(),
        }
    }
}

/// Collects the fields of an `Entity`.
#[derive(Debug)]
pub struct EntityBuilder {
    pub form: Option<String>,
    pub occupation: Option<String>,
    pub gender: Option<String>,
    pub age: Option<String>,
    pub background: Option<String>,
    pub expertise: Option<Vec<String>>,
}

impl Default for EntityBuilder {
    fn default() -> (r: EntityBuilder)
        ensures
            r.unset(),
    {
        EntityBuilder::new()
    }
}

impl EntityBuilder {
    /// Nothing was set.
    pub open spec fn unset(self) -> bool {
        &&& self.form is None
        &&& self.occupation is None
        &&& self.gender is None
        &&& self.age is None
        &&& self.background is None
        &&& self.expertise is None
    }

    pub fn new() -> (r: EntityBuilder)
        ensures
            r.unset(),
    {
        EntityBuilder {
            form: None,
            occupation: None,
            gender: None,
            age: None,
            background: None,
            expertise: None,
        }
    }

    pub fn form(self, form: &str) -> (r: EntityBuilder)
        ensures
            r.form.deep_view() == Some(form@),
            r == (EntityBuilder { form: r.form, ..self }),
    {
        let mut next = self;
        next.form = Some(form.to_owned());
        next
    }

    pub fn occupation(self, occupation: &str) -> (r: EntityBuilder)
        ensures
            r.occupation.deep_view() == Some(occupation@),
            r == (EntityBuilder { occupation: r.occupation, ..self }),
    {
        let mut next = self;
        next.occupation = Some(occupation.to_owned());
        next
    }

    pub fn gender(self, gender: &str) -> (r: EntityBuilder)
        ensures
            r.gender.deep_view() == Some(gender@),
            r == (EntityBuilder { gender: r.gender, ..self }),
    {
        let mut next = self;
        next.gender = Some(gender.to_owned());
        next
    }

    pub fn age(self, age: &str) -> (r: EntityBuilder)
        ensures
            r.age.deep_view() == Some(age@),
            r == (EntityBuilder { age: r.age, ..self }),
    {
        let mut next = self;
        next.age = Some(age.to_owned());
        next
    }

    pub fn background(self, background: &str) -> (r: EntityBuilder)
        ensures
            r.background.deep_view() == Some(background@),
            r == (EntityBuilder { background: r.background, ..self }),
    {
        let mut next = self;
        next.background = Some(background.to_owned());
        next
    }

    pub fn expertise(self, expertise: Vec<String>) -> (r: EntityBuilder)
        ensures
            r == (EntityBuilder { expertise: Some(expertise), ..self }),
    {
        let mut next = self;
        next.expertise = Some(expertise);
        next
    }

    /// Makes the entity, or says which required field was never set: first
    /// the form, then the occupation. The entity has no identifier yet, and
    /// every optional field that was not set is absent.
    pub fn build(self) -> (r: Result<Entity, EntityBuilderError>)
        ensures
            match r {
                Ok(entity) => {
                    &&& entity.id is None
                    &&& self.form == Some(entity.form)
                    &&& self.occupation == Some(entity.occupation)
                    &&& entity.gender == self.gender
                    &&& entity.age == self.age
                    &&& entity.background == self.background
                    &&& entity.expertise == self.expertise
                },
                Err(EntityBuilderError::MissingForm) => self.form is None,
                Err(EntityBuilderError::MissingOccupation) => self.form is Some
                    && self.occupation is None,
            },
    {
        let form = match self.form {
            Some(form) => form,
            None => { return Err(EntityBuilderError::MissingForm); },
        };
        let occupation = match self.occupation {
            Some(occupation) => occupation,
            None => { return Err(EntityBuilderError::MissingOccupation); },
        };
        Ok(
            Entity {
                id: None,
                form,
                occupation,
                gender: self.gender,
                age: self.age,
                background: self.background,
                expertise: self.expertise,
            },
        )
    }
}

} // verus!
