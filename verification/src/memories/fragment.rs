//! Fragments: the single observations and reflections of a memory.

use vstd::prelude::*;
use crate::clock::now_millis;
use crate::id::Id;
use crate::json::{entries_view, lemma_field_push, lemma_object_view, put, Json, JsonValue};
use crate::scalar::{Scalar, MINUS_ONE_BITS, ONE_BITS, ZERO_BITS};
use crate::violation::{Fault, SchemaViolation, Violation};
use crate::wire::{
    id_value, put_id, put_integer, put_record, put_text, read_integer, read_optional_id,
    read_record, read_text, refusal, spec_integer, spec_optional_id, spec_ranged, spec_record,
    spec_text, text_is, with, with_id, Record,
};

pub mod validate_emotional_valence;
pub mod validate_importance;

verus! {

/// What kind of fragment it is.
#[derive(Debug, Clone, Copy, PartialEq, Eq, Structural)]
pub enum FragmentType {
    Observation,
    Reflection,
}

impl DeepView for FragmentType {
    type V = FragmentType;

    open spec fn deep_view(&self) -> FragmentType {
        *self
    }
}

impl Default for FragmentType {
    fn default() -> (r: FragmentType)
        ensures
            r == FragmentType::Observation,
    {
        FragmentType::Observation
    }
}

impl FragmentType {
    /// The lower-case tag that stands for the variant on the wire.
    pub open spec fn tag(self) -> Seq<char> {
        match self {
            FragmentType::Observation => "observation"@,
            FragmentType::Reflection => "reflection"@,
        }
    }

    /// The variant that a tag stands for.
    pub open spec fn of_tag(tag: Seq<char>) -> Option<FragmentType> {
        if tag == "observation"@ {
            Some(FragmentType::Observation)
        } else if tag == "reflection"@ {
            Some(FragmentType::Reflection)
        } else {
            None
        }
    }
}

impl Record for FragmentType {
    open spec fn written(record: FragmentType) -> JsonValue {
        JsonValue::Text(record.tag())
    }

    open spec fn read(doc: JsonValue) -> Result<FragmentType, Violation> {
        match doc {
            JsonValue::Text(tag) => match FragmentType::of_tag(tag) {
                Some(fragment_type) => Ok(fragment_type),
                None => Err(refusal("type"@, Fault::UnknownTag)),
            },
            _ => Err(refusal("type"@, Fault::Mistyped)),
        }
    }

    open spec fn sound(record: FragmentType) -> bool {
        true
    }

    proof fn round_trip(record: FragmentType) {
        reveal_strlit("observation");
        reveal_strlit("reflection");
        assert("observation"@.len() == 11 && "reflection"@.len() == 10);
    }

    fn encode(&self) -> (r: Json) {
        match self {
            FragmentType::Observation => Json::Text("observation".to_owned()),
            FragmentType::Reflection => Json::Text("reflection".to_owned()),
        }
    }

    fn decode(doc: &Json) -> (r: Result<FragmentType, SchemaViolation>) {
        match doc {
            Json::Text(tag) => {
                if text_is(tag, "observation") {
                    Ok(FragmentType::Observation)
                } else if text_is(tag, "reflection") {
                    Ok(FragmentType::Reflection)
                } else {
                    Err(SchemaViolation::new("type", Fault::UnknownTag))
                }
            },
            _ => Err(SchemaViolation::new("type", Fault::Mistyped)),
        }
    }
}

/// The circumstances of a fragment.
#[derive(Debug, Clone, PartialEq)]
pub struct Context {
    pub id: Option<Id>,
    pub topic: String,
    pub user_state: String,
}

/// A `Context` as a mathematical value.
pub struct ContextView {
    pub id: Option<Id>,
    pub topic: Seq<char>,
    pub user_state: Seq<char>,
}

impl DeepView for Context {
    type V = ContextView;

    open spec fn deep_view(&self) -> ContextView {
        ContextView { id: self.id, topic: self.topic@, user_state: self.user_state@ }
    }
}

impl Record for Context {
    open spec fn written(record: ContextView) -> JsonValue {
        JsonValue::Object(
            with(
                with(
                    with_id(Seq::empty(), "id"@, record.id),
                    "topic"@,
                    JsonValue::Text(record.topic),
                ),
                "user_state"@,
                JsonValue::Text(record.user_state),
            ),
        )
    }

    open spec fn read(doc: JsonValue) -> Result<ContextView, Violation> {
        match spec_optional_id(doc, "id"@) {
            Err(e) => Err(e),
            Ok(id) => match spec_text(doc, "topic"@) {
                Err(e) => Err(e),
                Ok(topic) => match spec_text(doc, "user_state"@) {
                    Err(e) => Err(e),
                    Ok(user_state) => Ok(ContextView { id, topic, user_state }),
                },
            },
        }
    }

    open spec fn sound(record: ContextView) -> bool {
        record.id matches Some(id) ==> id.canonical()
    }

    proof fn round_trip(record: ContextView) {
        broadcast use lemma_field_push;

        reveal_strlit("id");
        reveal_strlit("topic");
        reveal_strlit("user_state");
        assert("id"@.len() == 2 && "topic"@.len() == 5 && "user_state"@.len() == 10);
    }

    fn encode(&self) -> (r: Json) {
        let mut fields: Vec<(String, Json)> = Vec::new();
        assert(entries_view(fields@) =~= Seq::empty());
        put_id(&mut fields, "id", &self.id);
        put_text(&mut fields, "topic", &self.topic);
        put_text(&mut fields, "user_state", &self.user_state);
        proof {
            lemma_object_view(fields);
        }
        Json::Object(fields)
    }

    fn decode(doc: &Json) -> (r: Result<Context, SchemaViolation>) {
        let id = read_optional_id(doc, "id")?;
        let topic = read_text(doc, "topic")?;
        let user_state = read_text(doc, "user_state")?;
        Ok(Context { id, topic, user_state })
    }
}

impl Context {
    /// The circumstances where none were given: a general topic, a neutral
    /// user.
    pub open spec fn baseline() -> ContextView {
        ContextView { id: None, topic: "general"@, user_state: "neutral"@ }
    }
}

impl Default for Context {
    fn default() -> (r: Context)
        ensures
            r.deep_view() == Context::baseline(),
    {
        Context { id: None, topic: "general".to_owned(), user_state: "neutral".to_owned() }
    }
}

/// A single observation or reflection.
#[derive(Debug, Clone, PartialEq)]
pub struct Fragment {
    pub id: Option<Id>,
    /// The kind of the fragment; `type` on the wire.
    pub fragment_type: FragmentType,
    pub content: String,
    /// When the fragment was made, in milliseconds since the epoch.
    pub timestamp: i64,
    /// How much the fragment weighs, in `[0, 1]` on the wire.
    pub importance: Scalar,
    /// How it felt, in `[-1, 1]` on the wire.
    pub emotional_valence: Scalar,
    pub context: Context,
}

/// A `Fragment` as a mathematical value.
pub struct FragmentView {
    pub id: Option<Id>,
    pub fragment_type: FragmentType,
    pub content: Seq<char>,
    pub timestamp: i64,
    pub importance: Scalar,
    pub emotional_valence: Scalar,
    pub context: ContextView,
}

impl DeepView for Fragment {
    type V = FragmentView;

    open spec fn deep_view(&self) -> FragmentView {
        FragmentView {
            id: self.id,
            fragment_type: self.fragment_type,
            content: self.content@,
            timestamp: self.timestamp,
            importance: self.importance,
            emotional_valence: self.emotional_valence,
            context: self.context.deep_view(),
        }
    }
}

/// The object that a fragment is written as, given what each part is
/// written as.
pub open spec fn fragment_layout(
    id: Option<Id>,
    fragment_type: JsonValue,
    content: JsonValue,
    timestamp: JsonValue,
    importance: JsonValue,
    emotional_valence: JsonValue,
    context: JsonValue,
) -> JsonValue {
    JsonValue::Object(
        with(
            with(
                with(
                    with(
                        with(
                            with(with_id(Seq::empty(), "id"@, id), "type"@, fragment_type),
                            "content"@,
                            content,
                        ),
                        "timestamp"@,
                        timestamp,
                    ),
                    "importance"@,
                    importance,
                ),
                "emotional_valence"@,
                emotional_valence,
            ),
            "context"@,
            context,
        ),
    )
}

/// Each part of a fragment is found under its name in the object that the
/// fragment is written as.
pub proof fn lemma_fragment_layout(
    id: Option<Id>,
    fragment_type: JsonValue,
    content: JsonValue,
    timestamp: JsonValue,
    importance: JsonValue,
    emotional_valence: JsonValue,
    context: JsonValue,
)
    ensures
        ({
            let doc = fragment_layout(
                id,
                fragment_type,
                content,
                timestamp,
                importance,
                emotional_valence,
                context,
            );
            &&& doc.get("id"@) == match id {
                Some(id) => Some(id_value(id)),
                None => None,
            }
            &&& doc.get("type"@) == Some(fragment_type)
            &&& doc.get("content"@) == Some(content)
            &&& doc.get("timestamp"@) == Some(timestamp)
            &&& doc.get("importance"@) == Some(importance)
            &&& doc.get("emotional_valence"@) == Some(emotional_valence)
            &&& doc.get("context"@) == Some(context)
        }),
{
    broadcast use lemma_field_push;

    reveal_strlit("id");
    reveal_strlit("type");
    reveal_strlit("content");
    reveal_strlit("timestamp");
    reveal_strlit("importance");
    reveal_strlit("emotional_valence");
    reveal_strlit("context");
    assert("id"@.len() == 2 && "type"@.len() == 4 && "content"@.len() == 7 && "timestamp"@.len()
        == 9 && "importance"@.len() == 10 && "emotional_valence"@.len() == 17 && "context"@.len()
        == 7);
    assert("content"@[3] == 't' && "context"@[3] == 't' && "content"@[4] == 'e' && "context"@[4]
        == 'e' && "content"@[5] == 'n' && "context"@[5] == 'x');
}

impl Record for Fragment {
    open spec fn written(record: FragmentView) -> JsonValue {
        fragment_layout(
            record.id,
            FragmentType::written(record.fragment_type),
            JsonValue::Text(record.content),
            JsonValue::Integer(record.timestamp),
            JsonValue::Real(record.importance),
            JsonValue::Real(record.emotional_valence),
            Context::written(record.context),
        )
    }

    open spec fn read(doc: JsonValue) -> Result<FragmentView, Violation> {
        match spec_optional_id(doc, "id"@) {
            Err(e) => Err(e),
            Ok(id) => match spec_record::<FragmentType>(doc, "type"@) {
                Err(e) => Err(e),
                Ok(fragment_type) => match spec_text(doc, "content"@) {
                    Err(e) => Err(e),
                    Ok(content) => match spec_integer(doc, "timestamp"@) {
                        Err(e) => Err(e),
                        Ok(timestamp) => match spec_ranged(
                            doc,
                            "importance"@,
                            Scalar { bits: ZERO_BITS },
                            Scalar { bits: ONE_BITS },
                        ) {
                            Err(e) => Err(e),
                            Ok(importance) => match spec_ranged(
                                doc,
                                "emotional_valence"@,
                                Scalar { bits: MINUS_ONE_BITS },
                                Scalar { bits: ONE_BITS },
                            ) {
                                Err(e) => Err(e),
                                Ok(emotional_valence) => match spec_record::<Context>(
                                    doc,
                                    "context"@,
                                ) {
                                    Err(e) => Err(e),
                                    Ok(context) => Ok(
                                        FragmentView {
                                            id,
                                            fragment_type,
                                            content,
                                            timestamp,
                                            importance,
                                            emotional_valence,
                                            context,
                                        },
                                    ),
                                },
                            },
                        },
                    },
                },
            },
        }
    }

    open spec fn sound(record: FragmentView) -> bool {
        &&& record.id matches Some(id) ==> id.canonical()
        &&& record.importance.in_unit_interval()
        &&& record.emotional_valence.in_signed_unit_interval()
        &&& Context::sound(record.context)
    }

    proof fn round_trip(record: FragmentView) {
        lemma_fragment_layout(
            record.id,
            FragmentType::written(record.fragment_type),
            JsonValue::Text(record.content),
            JsonValue::Integer(record.timestamp),
            JsonValue::Real(record.importance),
            JsonValue::Real(record.emotional_valence),
            Context::written(record.context),
        );
        FragmentType::round_trip(record.fragment_type);
        Context::round_trip(record.context);
    }

    fn encode(&self) -> (r: Json) {
        let mut fields: Vec<(String, Json)> = Vec::new();
        assert(entries_view(fields@) =~= Seq::empty());
        put_id(&mut fields, "id", &self.id);
        put_record(&mut fields, "type", &self.fragment_type);
        put_text(&mut fields, "content", &self.content);
        put_integer(&mut fields, "timestamp", self.timestamp);
        put(&mut fields, "importance", validate_importance::serialize(self.importance));
        put(
            &mut fields,
            "emotional_valence",
            validate_emotional_valence::serialize(self.emotional_valence),
        );
        put_record(&mut fields, "context", &self.context);
        proof {
            lemma_object_view(fields);
        }
        Json::Object(fields)
    }

    fn decode(doc: &Json) -> (r: Result<Fragment, SchemaViolation>) {
        let id = read_optional_id(doc, "id")?;
        let fragment_type = read_record::<FragmentType>(doc, "type")?;
        let content = read_text(doc, "content")?;
        let timestamp = read_integer(doc, "timestamp")?;
        let importance = match doc.get("importance") {
            Some(value) => validate_importance::deserialize(value)?,
            None => { return Err(SchemaViolation::new("importance", Fault::Missing)); },
        };
        let emotional_valence = match doc.get("emotional_valence") {
            Some(value) => validate_emotional_valence::deserialize(value)?,
            None => { return Err(SchemaViolation::new("emotional_valence", Fault::Missing)); },
        };
        let context = read_record::<Context>(doc, "context")?;
        Ok(
            Fragment {
                id,
                fragment_type,
                content,
                timestamp,
                importance,
                emotional_valence,
                context,
            },
        )
    }
}

impl Fragment {
    /// The fragment that is made at an instant where nothing was chosen: an
    /// observation without content or weight.
    pub open spec fn baseline(now: i64) -> FragmentView {
        FragmentView {
            id: None,
            fragment_type: FragmentType::Observation,
            content: Seq::empty(),
            timestamp: now,
            importance: Scalar { bits: ZERO_BITS },
            emotional_valence: Scalar { bits: ZERO_BITS },
            context: Context::baseline(),
        }
    }

    /// The baseline fragment, made at the instant given.
    pub fn baseline_at(now: i64) -> (r: Fragment)
        ensures
            r.deep_view() == Fragment::baseline(now),
    {
        Fragment {
            id: None,
            fragment_type: FragmentType::Observation,
            content: String::new(),
            timestamp: now,
            importance: Scalar::zero(),
            emotional_valence: Scalar::zero(),
            context: Context::default(),
        }
    }

    /// A builder without anything set.
    pub fn builder() -> (r: FragmentBuilder)
        ensures
            r.unset(),
    {
        FragmentBuilder::default()
    }
}

impl Default for Fragment {
    /// The baseline fragment, made now.
    fn default() -> (r: Fragment)
        ensures
            exists|now: i64| r.deep_view() == #[trigger] Fragment::baseline(now),
    {
        let now = now_millis();
        Fragment::baseline_at(now)
    }
}

/// Collects the fields of a `Fragment`.
pub struct FragmentBuilder {
    pub uuid: Option<Id>,
    pub fragment_type: FragmentType,
    pub content: String,
    pub timestamp: Option<i64>,
    pub importance: Scalar,
    pub emotional_valence: Scalar,
    pub context: Option<Context>,
}

impl Default for FragmentBuilder {
    fn default() -> (r: FragmentBuilder)
        ensures
            r.unset(),
    {
        FragmentBuilder {
            uuid: None,
            fragment_type: FragmentType::Observation,
            content: String::new(),
            timestamp: None,
            importance: Scalar::zero(),
            emotional_valence: Scalar::zero(),
            context: None,
        }
    }
}

impl FragmentBuilder {
    /// Nothing was set: an observation without content, of weight and
    /// valence zero.
    pub open spec fn unset(self) -> bool {
        &&& self.uuid is None
        &&& self.fragment_type == FragmentType::Observation
        &&& self.content@ == Seq::<char>::empty()
        &&& self.timestamp is None
        &&& self.importance.bits == ZERO_BITS
        &&& self.emotional_valence.bits == ZERO_BITS
        &&& self.context is None
    }

    /// A builder for a fragment of this kind and content.
    pub fn new(fragment_type: FragmentType, content: String) -> (r: FragmentBuilder)
        ensures
            r.uuid is None,
            r.fragment_type == fragment_type,
            r.content == content,
            r.timestamp is None,
            r.importance.bits == ZERO_BITS,
            r.emotional_valence.bits == ZERO_BITS,
            r.context is None,
    {
        FragmentBuilder {
            uuid: None,
            fragment_type,
            content,
            timestamp: None,
            importance: Scalar::zero(),
            emotional_valence: Scalar::zero(),
            context: None,
        }
    }

    pub fn fragment_type(self, fragment_type: FragmentType) -> (r: FragmentBuilder)
        ensures
            r == (FragmentBuilder { fragment_type, ..self }),
    {
        let mut next = self;
        next.fragment_type = fragment_type;
        next
    }

    pub fn content(self, content: String) -> (r: FragmentBuilder)
        ensures
            r == (FragmentBuilder { content, ..self }),
    {
        let mut next = self;
        next.content = content;
        next
    }

    pub fn timestamp(self, timestamp: i64) -> (r: FragmentBuilder)
        ensures
            r == (FragmentBuilder { timestamp: Some(timestamp), ..self }),
    {
        let mut next = self;
        next.timestamp = Some(timestamp);
        next
    }

    /// Sets the importance as it is: the builder does not limit it.
    pub fn importance(self, importance: Scalar) -> (r: FragmentBuilder)
        ensures
            r == (FragmentBuilder { importance, ..self }),
    {
        let mut next = self;
        next.importance = importance;
        next
    }

    /// Sets the valence as it is: the builder does not limit it.
    pub fn emotional_valence(self, valence: Scalar) -> (r: FragmentBuilder)
        ensures
            r == (FragmentBuilder { emotional_valence: valence, ..self }),
    {
        let mut next = self;
        next.emotional_valence = valence;
        next
    }

    pub fn context(self, context: Context) -> (r: FragmentBuilder)
        ensures
            r == (FragmentBuilder { context: Some(context), ..self }),
    {
        let mut next = self;
        next.context = Some(context);
        next
    }

    /// What building at an instant gives: what was set, the instant where
    /// no timestamp was, and the baseline context where none was.
    pub open spec fn built(self, now: i64) -> FragmentView {
        FragmentView {
            id: None,
            fragment_type: self.fragment_type,
            content: self.content@,
            timestamp: match self.timestamp {
                Some(timestamp) => timestamp,
                None => now,
            },
            importance: self.importance,
            emotional_valence: self.emotional_valence,
            context: match self.context {
                Some(context) => context.deep_view(),
                None => Context::baseline(),
            },
        }
    }

    /// Makes the fragment at the instant given.
    pub fn build_at(self, now: i64) -> (r: Fragment)
        ensures
            r.deep_view() == self.built(now),
    {
        let FragmentBuilder {
            uuid: _,
            fragment_type,
            content,
            timestamp,
            importance,
            emotional_valence,
            context,
        } = self;
        Fragment {
            id: None,
            fragment_type,
            content,
            timestamp: match timestamp {
                Some(timestamp) => timestamp,
                None => now,
            },
            importance,
            emotional_valence,
            context: match context {
                Some(context) => context,
                None => Context::default(),
            },
        }
    }

    /// Makes the fragment. It cannot fail. The clock is read now, at the
    /// build, and gives the timestamp where none was set.
    pub fn build(self) -> (r: Fragment)
        ensures
            exists|now: i64| r.deep_view() == #[trigger] self.built(now),
            self.timestamp matches Some(timestamp) ==> r.timestamp == timestamp,
    {
        let now = now_millis();
        self.build_at(now)
    }
}

} // verus!
