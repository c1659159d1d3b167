//! The personality of a persona: its traits, values, voice and the way it
//! relates to others.

use vstd::prelude::*;
use crate::clock::today;
use crate::id::Id;
use crate::json::{entries_view, field, lemma_field_push, lemma_object_view, Json, JsonValue};
use crate::metadata::{distinct_names, lemma_stored, stored, Metadata};
use crate::personality::relationship::{Relationship, RelationshipView};
use crate::personality::traits::{Trait, TraitView};
use crate::personality::value::{Value, ValueView};
use crate::personality::voice::{Voice, VoiceView};
use crate::scalar::Scalar;
use crate::transport::{Method, Outcome, Request};
use crate::violation::{SchemaViolation, Violation};
use crate::wire::{
    all_sound, id_value, lemma_records_round_trip, optional_record_value, optional_records_value, put_id,
    put_optional_record, put_optional_records, put_records, put_text, read_optional_id,
    read_optional_record, read_optional_records, read_records, read_text, reader, records_value,
    spec_optional_id, spec_optional_record, spec_optional_records, spec_records, spec_text, with,
    with_id, with_optional, writer, Record,
};
use crate::{resource_path, spec_collection_path, spec_resource_path, Soulgraph};

pub mod relationship;
pub mod traits;
pub mod value;
pub mod voice;

verus! {

/// The bit pattern of `0.9`, the strength of the trait `helpful` of the
/// baseline personality.
pub const HELPFUL_STRENGTH_BITS: u32 = 0x3f66_6666;

/// The bit pattern of `0.8`, the strength of the trait `professional` of the
/// baseline personality.
pub const PROFESSIONAL_STRENGTH_BITS: u32 = 0x3f4c_cccd;

/// What a caller of the store is told where no personality came back. It
/// says no more: a request that was not answered, a status other than
/// success and a body that is no personality all end in this one value.
#[derive(Debug, Clone, Copy, PartialEq, Eq, Structural)]
pub struct CorruptPersonality;

/// Two failures are one and the same: there is nothing in them to differ.
pub proof fn lemma_one_failure(a: CorruptPersonality, b: CorruptPersonality)
    ensures
        a == b,
{
}

impl CorruptPersonality {
    pub fn to_string(&self) -> (r: String)
        ensures
            r@ == "personality is corrupted"@,
    {
        "personality is corrupted".to_owned()
    }
}

/// The personality of a persona.
#[derive(Debug, Clone, PartialEq)]
pub struct Personality {
    pub id: Option<Id>,
    pub name: String,
    pub traits: Vec<Trait>,
    pub values: Option<Vec<Value>>,
    pub voice: Option<Voice>,
    pub relationship: Option<Relationship>,
    pub metadata: Option<Metadata>,
}

/// A `Personality` as a mathematical value.
pub struct PersonalityView {
    pub id: Option<Id>,
    pub name: Seq<char>,
    pub traits: Seq<TraitView>,
    pub values: Option<Seq<ValueView>>,
    pub voice: Option<VoiceView>,
    pub relationship: Option<RelationshipView>,
    pub metadata: Option<Seq<(Seq<char>, Seq<char>)>>,
}

impl DeepView for Personality {
    type V = PersonalityView;

    open spec fn deep_view(&self) -> PersonalityView {
        PersonalityView {
            id: self.id,
            name: self.name@,
            traits: self.traits.deep_view(),
            values: self.values.deep_view(),
            voice: self.voice.deep_view(),
            relationship: self.relationship.deep_view(),
            metadata: self.metadata.deep_view(),
        }
    }
}

/// The object that a personality is written as, given what each part is
/// written as: the fields in their order, an absent part leaving no field.
pub open spec fn personality_layout(
    id: Option<Id>,
    name: JsonValue,
    traits: JsonValue,
    values: Option<JsonValue>,
    voice: Option<JsonValue>,
    relationship: Option<JsonValue>,
    metadata: Option<JsonValue>,
) -> JsonValue {
    JsonValue::Object(
        with_optional(
            with_optional(
                with_optional(
                    with_optional(
                        with(with(with_id(Seq::empty(), "id"@, id), "name"@, name), "traits"@, traits),
                        "values"@,
                        values,
                    ),
                    "voice"@,
                    voice,
                ),
                "relationship"@,
                relationship,
            ),
            "metadata"@,
            metadata,
        ),
    )
}

/// Each part of a personality is found under its name in the object that
/// the personality is written as.
pub proof fn lemma_personality_layout(
    id: Option<Id>,
    name: JsonValue,
    traits: JsonValue,
    values: Option<JsonValue>,
    voice: Option<JsonValue>,
    relationship: Option<JsonValue>,
    metadata: Option<JsonValue>,
)
    ensures
        ({
            let doc = personality_layout(id, name, traits, values, voice, relationship, metadata);
            &&& doc.get("id"@) == match id {
                Some(id) => Some(id_value(id)),
                None => None,
            }
            &&& doc.get("name"@) == Some(name)
            &&& doc.get("traits"@) == Some(traits)
            &&& doc.get("values"@) == values
            &&& doc.get("voice"@) == voice
            &&& doc.get("relationship"@) == relationship
            &&& doc.get("metadata"@) == metadata
        }),
{
    broadcast use lemma_field_push;

    reveal_strlit("id");
    reveal_strlit("name");
    reveal_strlit("traits");
    reveal_strlit("values");
    reveal_strlit("voice");
    reveal_strlit("relationship");
    reveal_strlit("metadata");
    assert("id"@.len() == 2 && "name"@.len() == 4 && "traits"@.len() == 6 && "values"@.len() == 6
        && "voice"@.len() == 5 && "relationship"@.len() == 12 && "metadata"@.len() == 8);
    assert("traits"@[0] == 't' && "values"@[0] == 'v');
}

impl Record for Personality {
    open spec fn written(record: PersonalityView) -> JsonValue {
        personality_layout(
            record.id,
            JsonValue::Text(record.name),
            records_value(record.traits, writer::<Trait>()),
            optional_records_value::<Value>(record.values),
            optional_record_value::<Voice>(record.voice),
            optional_record_value::<Relationship>(record.relationship),
            optional_record_value::<Metadata>(record.metadata),
        )
    }

    open spec fn read(doc: JsonValue) -> Result<PersonalityView, Violation> {
        match spec_optional_id(doc, "id"@) {
            Err(e) => Err(e),
            Ok(id) => match spec_text(doc, "name"@) {
                Err(e) => Err(e),
                Ok(name) => match spec_records(doc, "traits"@, reader::<Trait>()) {
                    Err(e) => Err(e),
                    Ok(traits) => match spec_optional_records(doc, "values"@, reader::<Value>()) {
                        Err(e) => Err(e),
                        Ok(values) => match spec_optional_record::<Voice>(doc, "voice"@) {
                            Err(e) => Err(e),
                            Ok(voice) => match spec_optional_record::<Relationship>(
                                doc,
                                "relationship"@,
                            ) {
                                Err(e) => Err(e),
                                Ok(relationship) => match spec_optional_record::<Metadata>(
                                    doc,
                                    "metadata"@,
                                ) {
                                    Err(e) => Err(e),
                                    Ok(metadata) => Ok(
                                        PersonalityView {
                                            id,
                                            name,
                                            traits,
                                            values,
                                            voice,
                                            relationship,
                                            metadata,
                                        },
                                    ),
                                },
                            },
                        },
                    },
                },
            },
        }
    }

    open spec fn sound(record: PersonalityView) -> bool {
        &&& record.id matches Some(id) ==> id.canonical()
        &&& all_sound::<Trait>(record.traits)
        &&& record.values matches Some(values) ==> all_sound::<Value>(values)
        &&& record.voice matches Some(voice) ==> Voice::sound(voice)
        &&& record.relationship matches Some(relationship) ==> Relationship::sound(relationship)
        &&& record.metadata matches Some(metadata) ==> Metadata::sound(metadata)
    }

    proof fn round_trip(record: PersonalityView) {
        lemma_personality_layout(
            record.id,
            JsonValue::Text(record.name),
            records_value(record.traits, writer::<Trait>()),
            optional_records_value::<Value>(record.values),
            optional_record_value::<Voice>(record.voice),
            optional_record_value::<Relationship>(record.relationship),
            optional_record_value::<Metadata>(record.metadata),
        );
        lemma_records_round_trip::<Trait>(record.traits);
        if let Some(values) = record.values {
            lemma_records_round_trip::<Value>(values);
        }
        if let Some(voice) = record.voice {
            Voice::round_trip(voice);
        }
        if let Some(relationship) = record.relationship {
            Relationship::round_trip(relationship);
        }
        if let Some(metadata) = record.metadata {
            Metadata::round_trip(metadata);
        }
    }

    fn encode(&self) -> (r: Json) {
        let mut fields: Vec<(String, Json)> = Vec::new();
        assert(entries_view(fields@) =~= Seq::empty());
        put_id(&mut fields, "id", &self.id);
        put_text(&mut fields, "name", &self.name);
        put_records(&mut fields, "traits", &self.traits);
        put_optional_records(&mut fields, "values", &self.values);
        put_optional_record(&mut fields, "voice", &self.voice);
        put_optional_record(&mut fields, "relationship", &self.relationship);
        put_optional_record(&mut fields, "metadata", &self.metadata);
        proof {
            lemma_object_view(fields);
        }
        Json::Object(fields)
    }

    fn decode(doc: &Json) -> (r: Result<Personality, SchemaViolation>) {
        let id = read_optional_id(doc, "id")?;
        let name = read_text(doc, "name")?;
        let traits = read_records::<Trait>(doc, "traits")?;
        let values = read_optional_records::<Value>(doc, "values")?;
        let voice = read_optional_record::<Voice>(doc, "voice")?;
        let relationship = read_optional_record::<Relationship>(doc, "relationship")?;
        let metadata = read_optional_record::<Metadata>(doc, "metadata")?;
        Ok(Personality { id, name, traits, values, voice, relationship, metadata })
    }
}

/// The entries with the two stamps of a personality: the date of creation
/// and the date of the last change, each stored where the name holds
/// nothing yet.
pub open spec fn stamped(
    entries: Seq<(Seq<char>, Seq<char>)>,
    created: Seq<char>,
    modified: Seq<char>,
) -> Seq<(Seq<char>, Seq<char>)> {
    let first = if field(entries, "creation_date"@) is Some {
        entries
    } else {
        stored(entries, "creation_date"@, created)
    };
    if field(first, "last_modified"@) is Some {
        first
    } else {
        stored(first, "last_modified"@, modified)
    }
}

/// Stamped entries hold both stamps, and what the caller stored under
/// either name is still there.
pub proof fn lemma_stamped(
    entries: Seq<(Seq<char>, Seq<char>)>,
    created: Seq<char>,
    modified: Seq<char>,
)
    requires
        distinct_names(entries),
    ensures
        distinct_names(stamped(entries, created, modified)),
        field(stamped(entries, created, modified), "creation_date"@) is Some,
        field(stamped(entries, created, modified), "last_modified"@) is Some,
        field(entries, "creation_date"@) is Some ==> field(
            stamped(entries, created, modified),
            "creation_date"@,
        ) == field(entries, "creation_date"@),
        field(entries, "last_modified"@) is Some ==> field(
            stamped(entries, created, modified),
            "last_modified"@,
        ) == field(entries, "last_modified"@),
{
    reveal_strlit("creation_date");
    reveal_strlit("last_modified");
    assert("creation_date"@[0] == 'c' && "last_modified"@[0] == 'l');
    lemma_stored(entries, "creation_date"@, created);
    let first = if field(entries, "creation_date"@) is Some {
        entries
    } else {
        stored(entries, "creation_date"@, created)
    };
    lemma_stored(first, "last_modified"@, modified);
}

impl Personality {
    /// The personality that a persona has where none was chosen, stamped
    /// with the two dates.
    pub open spec fn baseline(created: Seq<char>, modified: Seq<char>) -> PersonalityView {
        PersonalityView {
            id: None,
            name: "AI Assistant"@,
            traits: seq![
                TraitView {
                    id: None,
                    trait_name: "helpful"@,
                    strength: Scalar { bits: HELPFUL_STRENGTH_BITS },
                    expression_rules: Some(seq!["always seeks to assist"@]),
                },
                TraitView {
                    id: None,
                    trait_name: "professional"@,
                    strength: Scalar { bits: PROFESSIONAL_STRENGTH_BITS },
                    expression_rules: Some(seq!["maintains appropriate boundaries"@]),
                },
            ],
            values: None,
            voice: None,
            relationship: None,
            metadata: Some(seq![("creation_date"@, created), ("last_modified"@, modified)]),
        }
    }

    /// The baseline personality, stamped with the two dates given.
    pub fn baseline_on(created: &str, modified: &str) -> (r: Personality)
        ensures
            r.deep_view() == Personality::baseline(created@, modified@),
    {
        let mut helpful_rules: Vec<String> = Vec::new();
        helpful_rules.push("always seeks to assist".to_owned());
        assert(helpful_rules.deep_view() =~= seq!["always seeks to assist"@]);
        let helpful = Trait {
            id: None,
            trait_name: "helpful".to_owned(),
            strength: Scalar::from_bits(HELPFUL_STRENGTH_BITS),
            expression_rules: Some(helpful_rules),
        };
        let mut professional_rules: Vec<String> = Vec::new();
        professional_rules.push("maintains appropriate boundaries".to_owned());
        assert(professional_rules.deep_view() =~= seq!["maintains appropriate boundaries"@]);
        let professional = Trait {
            id: None,
            trait_name: "professional".to_owned(),
            strength: Scalar::from_bits(PROFESSIONAL_STRENGTH_BITS),
            expression_rules: Some(professional_rules),
        };
        let mut traits: Vec<Trait> = Vec::new();
        traits.push(helpful);
        traits.push(professional);
        assert(traits.deep_view() =~= Personality::baseline(created@, modified@).traits);
        let mut metadata = Metadata::new();
        metadata.insert("creation_date", created);
        metadata.insert("last_modified", modified);
        proof {
            reveal_strlit("creation_date");
            reveal_strlit("last_modified");
            assert("creation_date"@[0] == 'c' && "last_modified"@[0] == 'l');
            let one = stored(Seq::<(Seq<char>, Seq<char>)>::empty(), "creation_date"@, created@);
            assert(one =~= seq![("creation_date"@, created@)]);
            assert(one.drop_last() =~= Seq::empty());
            assert(stored(one, "last_modified"@, modified@) =~= seq![
                ("creation_date"@, created@),
                ("last_modified"@, modified@),
            ]);
        }
        Personality {
            id: None,
            name: "AI Assistant".to_owned(),
            traits,
            values: None,
            voice: None,
            relationship: None,
            metadata: Some(metadata),
        }
    }

    /// A builder without anything set.
    pub fn builder() -> (r: PersonalityBuilder)
        ensures
            r.id is None,
            r.name is None,
            r.traits@.len() == 0,
            r.values is None,
            r.voice is None,
            r.relationship is None,
            r.metadata is None,
    {
        PersonalityBuilder::new()
    }
}

impl Default for Personality {
    /// The baseline personality, stamped with today's date.
    fn default() -> (r: Personality)
        ensures
            exists|created: Seq<char>, modified: Seq<char>|
                r.deep_view() == #[trigger] Personality::baseline(created, modified),
    {
        let created = today();
        let modified = today();
        Personality::baseline_on(created.as_str(), modified.as_str())
    }
}

/// Why a personality could not be built.
#[derive(Debug, Clone, Copy, PartialEq, Eq, Structural)]
pub enum PersonalityBuilderError {
    /// The name was never set.
    MissingName,
    /// No trait was added.
    NoTraits,
}

impl PersonalityBuilderError {
    /// What went wrong, in words.
    pub open spec fn message(self) -> Seq<char> {
        match self {
            PersonalityBuilderError::MissingName => "name is required"@,
            PersonalityBuilderError::NoTraits => "at least one trait is required"@,
        }
    }

    pub fn to_string(&self) -> (r: String)
        ensures
            r@ == self.message(),
    {
        match self {
            PersonalityBuilderError::MissingName => "name is required".to_owned(),
            PersonalityBuilderError::NoTraits => "at least one trait is required".to_owned(),
        }
    }
}

/// Collects the fields of a `Personality`.
pub struct PersonalityBuilder {
    pub id: Option<Id>,
    pub name: Option<String>,
    pub traits: Vec<Trait>,
    pub values: Option<Vec<Value>>,
    pub voice: Option<Voice>,
    pub relationship: Option<Relationship>,
    pub metadata: Option<Metadata>,
}

impl Default for PersonalityBuilder {
    fn default() -> (r: PersonalityBuilder)
        ensures
            r.id is None,
            r.name is None,
            r.traits@.len() == 0,
            r.values is None,
            r.voice is None,
            r.relationship is None,
            r.metadata is None,
    {
        PersonalityBuilder::new()
    }
}

/// What building returned, as a mathematical value.
pub open spec fn seen(r: Result<Personality, PersonalityBuilderError>) -> Result<
    PersonalityView,
    PersonalityBuilderError,
> {
    match r {
        Ok(personality) => Ok(personality.deep_view()),
        Err(e) => Err(e),
    }
}

/// What a list that may be absent holds.
pub open spec fn held<T>(list: Option<Seq<T>>) -> Seq<T> {
    match list {
        Some(items) => items,
        None => Seq::empty(),
    }
}

impl PersonalityBuilder {
    pub fn new() -> (r: PersonalityBuilder)
        ensures
            r.id is None,
            r.name is None,
            r.traits@.len() == 0,
            r.values is None,
            r.voice is None,
            r.relationship is None,
            r.metadata is None,
    {
        PersonalityBuilder {
            id: None,
            name: None,
            traits: Vec::new(),
            values: None,
            voice: None,
            relationship: None,
            metadata: None,
        }
    }

    pub fn id(self, id: Id) -> (r: PersonalityBuilder)
        ensures
            r == (PersonalityBuilder { id: Some(id), ..self }),
    {
        let mut next = self;
        next.id = Some(id);
        next
    }

    pub fn name(self, name: &str) -> (r: PersonalityBuilder)
        ensures
            r.name.deep_view() == Some(name@),
            r == (PersonalityBuilder { name: r.name, ..self }),
    {
        let mut next = self;
        next.name = Some(name.to_owned());
        next
    }

    /// Adds a trait behind those that are there.
    pub fn add_trait(self, trait_: Trait) -> (r: PersonalityBuilder)
        ensures
            r.traits@ == self.traits@.push(trait_),
            r == (PersonalityBuilder { traits: r.traits, ..self }),
    {
        let mut next = self;
        next.traits.push(trait_);
        next
    }

    /// Adds a value behind those that are there.
    pub fn add_value(self, value: Value) -> (r: PersonalityBuilder)
        ensures
            r.values matches Some(values) && values@ == held(
                match self.values {
                    Some(before) => Some(before@),
                    None => None,
                },
            ).push(value),
            r == (PersonalityBuilder { values: r.values, ..self }),
    {
        let PersonalityBuilder { id, name, traits, values, voice, relationship, metadata } = self;
        let mut list = match values {
            Some(list) => list,
            None => Vec::new(),
        };
        list.push(value);
        PersonalityBuilder { id, name, traits, values: Some(list), voice, relationship, metadata }
    }

    pub fn voice(self, voice: Voice) -> (r: PersonalityBuilder)
        ensures
            r == (PersonalityBuilder { voice: Some(voice), ..self }),
    {
        let mut next = self;
        next.voice = Some(voice);
        next
    }

    pub fn relationship(self, relationship: Relationship) -> (r: PersonalityBuilder)
        ensures
            r == (PersonalityBuilder { relationship: Some(relationship), ..self }),
    {
        let mut next = self;
        next.relationship = Some(relationship);
        next
    }

    /// Stores a text under a name of the metadata, in place of the text that
    /// was there.
    pub fn set_metadata(self, key: &str, value: &str) -> (r: PersonalityBuilder)
        ensures
            r.metadata.deep_view() == Some(stored(held(self.metadata.deep_view()), key@, value@)),
            r == (PersonalityBuilder { metadata: r.metadata, ..self }),
    {
        let PersonalityBuilder { id, name, traits, values, voice, relationship, metadata } = self;
        let mut map = match metadata {
            Some(map) => map,
            None => Metadata::new(),
        };
        map.insert(key, value);
        PersonalityBuilder { id, name, traits, values, voice, relationship, metadata: Some(map) }
    }

    /// What building gives with the two dates as stamps.
    pub open spec fn built(self, created: Seq<char>, modified: Seq<char>) -> Result<
        PersonalityView,
        PersonalityBuilderError,
    > {
        if self.name is None {
            Err(PersonalityBuilderError::MissingName)
        } else if self.traits@.len() == 0 {
            Err(PersonalityBuilderError::NoTraits)
        } else {
            Ok(
                PersonalityView {
                    id: self.id,
                    name: self.name->Some_0@,
                    traits: self.traits.deep_view(),
                    values: self.values.deep_view(),
                    voice: self.voice.deep_view(),
                    relationship: self.relationship.deep_view(),
                    metadata: Some(stamped(held(self.metadata.deep_view()), created, modified)),
                },
            )
        }
    }

    /// Makes the personality with the two dates as stamps, or says what is
    /// missing: first the name, then a trait. The metadata of the result
    /// holds both stamps; a stamp that the caller has stored stays.
    pub fn build_on(self, created: &str, modified: &str) -> (r: Result<
        Personality,
        PersonalityBuilderError,
    >)
        ensures
            seen(r) == self.built(created@, modified@),
            r matches Ok(personality) ==> personality.metadata matches Some(metadata) && field(
                metadata.deep_view(),
                "creation_date"@,
            ) is Some && field(metadata.deep_view(), "last_modified"@) is Some,
    {
        let PersonalityBuilder { id, name, traits, values, voice, relationship, metadata } = self;
        let name = match name {
            Some(name) => name,
            None => { return Err(PersonalityBuilderError::MissingName); },
        };
        if traits.len() == 0 {
            return Err(PersonalityBuilderError::NoTraits);
        }
        let mut map = match metadata {
            Some(map) => map,
            None => Metadata::new(),
        };
        let ghost supplied = map.deep_view();
        if !map.contains_key("creation_date") {
            map.insert("creation_date", created);
        }
        proof {
            lemma_stamped(supplied, created@, modified@);
        }
        if !map.contains_key("last_modified") {
            map.insert("last_modified", modified);
        }
        Ok(Personality { id, name, traits, values, voice, relationship, metadata: Some(map) })
    }

    /// Makes the personality, stamped with today's date where the caller
    /// stored no stamp, or says what is missing.
    pub fn build(self) -> (r: Result<Personality, PersonalityBuilderError>)
        ensures
            exists|created: Seq<char>, modified: Seq<char>|
                seen(r) == #[trigger] self.built(created, modified),
            r matches Ok(personality) ==> personality.metadata matches Some(metadata) && field(
                metadata.deep_view(),
                "creation_date"@,
            ) is Some && field(metadata.deep_view(), "last_modified"@) is Some,
            r is Err <==> self.name is None || self.traits@.len() == 0,
    {
        let created = today();
        let modified = today();
        self.build_on(created.as_str(), modified.as_str())
    }
}

impl Personality {
    /// The request that asks the store for the personality under `id`.
    pub fn get(id: &str, soul: Soulgraph) -> (r: Request)
        ensures
            (r.method, r.url@, r.body) == soul.request(
                Method::Get,
                spec_resource_path(id@),
                None,
            ),
    {
        let path = resource_path(id);
        soul.get(path.as_str())
    }

    /// The request that asks the store to keep a new personality.
    pub fn create(personality: &Personality, soul: Soulgraph) -> (r: Request)
        ensures
            r.method == Method::Post,
            r.url@ == soul.base_url@ + spec_collection_path(),
            r.body matches Some(doc) && doc.value() == Personality::written(
                personality.deep_view(),
            ),
    {
        soul.post("/personality", personality.encode())
    }

    /// The request that asks the store to change the personality under `id`.
    pub fn update(id: &str, personality: &Personality, soul: Soulgraph) -> (r: Request)
        ensures
            r.method == Method::Patch,
            r.url@ == soul.base_url@ + spec_resource_path(id@),
            r.body matches Some(doc) && doc.value() == Personality::written(
                personality.deep_view(),
            ),
    {
        let path = resource_path(id);
        soul.patch(path.as_str(), personality.encode())
    }

    /// What the answer to a get, a create or an update amounts to: the
    /// personality that it delivers, or the one failure that stands for all
    /// that can go wrong.
    pub fn receive(outcome: &Outcome) -> (r: Result<Personality, CorruptPersonality>)
        ensures
            match r {
                Ok(personality) => outcome.delivered::<Personality>() == Some(
                    personality.deep_view(),
                ) && Personality::sound(personality.deep_view()),
                Err(_) => outcome.delivered::<Personality>() is None,
            },
    {
        match outcome.deliver::<Personality>() {
            Some(personality) => Ok(personality),
            None => Err(CorruptPersonality),
        }
    }
}

} // verus!
