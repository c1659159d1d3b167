//! Voice: the style and tone in which a persona speaks.

use vstd::prelude::*;
use crate::id::Id;
use crate::json::{entries_view, lemma_field_push, lemma_object_view, Json, JsonValue};
use crate::violation::{SchemaViolation, Violation};
use crate::wire::{
    lemma_texts_round_trip, put_id, put_text, put_texts, read_optional_id, read_text,
    read_text_list, spec_optional_id, spec_text, spec_text_list, texts_value, with, with_id,
    Record,
};

verus! {

/// How a persona speaks.
#[derive(Debug, Clone, PartialEq)]
pub struct Voice {
    pub id: Option<Id>,
    pub style: String,
    pub tone: String,
    pub qualities: Vec<String>,
    pub patterns: Vec<String>,
}

/// A `Voice` as a mathematical value.
pub struct VoiceView {
    pub id: Option<Id>,
    pub style: Seq<char>,
    pub tone: Seq<char>,
    pub qualities: Seq<Seq<char>>,
    pub patterns: Seq<Seq<char>>,
}

impl DeepView for Voice {
    type V = VoiceView;

    open spec fn deep_view(&self) -> VoiceView {
        VoiceView {
            id: self.id,
            style: self.style@,
            tone: self.tone@,
            qualities: self.qualities.deep_view(),
            patterns: self.patterns.deep_view(),
        }
    }
}

impl Record for Voice {
    open spec fn written(record: VoiceView) -> JsonValue {
        JsonValue::Object(
            with(
                with(
                    with(
                        with(
                            with_id(Seq::empty(), "id"@, record.id),
                            "style"@,
                            JsonValue::Text(record.style),
                        ),
                        "tone"@,
                        JsonValue::Text(record.tone),
                    ),
                    "qualities"@,
                    texts_value(record.qualities),
                ),
                "patterns"@,
                texts_value(record.patterns),
            ),
        )
    }

    open spec fn read(doc: JsonValue) -> Result<VoiceView, Violation> {
        match spec_optional_id(doc, "id"@) {
            Err(e) => Err(e),
            Ok(id) => match spec_text(doc, "style"@) {
                Err(e) => Err(e),
                Ok(style) => match spec_text(doc, "tone"@) {
                    Err(e) => Err(e),
                    Ok(tone) => match spec_text_list(doc, "qualities"@) {
                        Err(e) => Err(e),
                        Ok(qualities) => match spec_text_list(doc, "patterns"@) {
                            Err(e) => Err(e),
                            Ok(patterns) => Ok(VoiceView { id, style, tone, qualities, patterns }),
                        },
                    },
                },
            },
        }
    }

    open spec fn sound(record: VoiceView) -> bool {
        record.id matches Some(id) ==> id.canonical()
    }

    proof fn round_trip(record: VoiceView) {
        broadcast use lemma_field_push;

        reveal_strlit("id");
        reveal_strlit("style");
        reveal_strlit("tone");
        reveal_strlit("qualities");
        reveal_strlit("patterns");
        assert("id"@.len() == 2 && "style"@.len() == 5 && "tone"@.len() == 4 && "qualities"@.len()
            == 9 && "patterns"@.len() == 8);
        lemma_texts_round_trip(record.qualities);
        lemma_texts_round_trip(record.patterns);
    }

    fn encode(&self) -> (r: Json) {
        let mut fields: Vec<(String, Json)> = Vec::new();
        assert(entries_view(fields@) =~= Seq::empty());
        put_id(&mut fields, "id", &self.id);
        put_text(&mut fields, "style", &self.style);
        put_text(&mut fields, "tone", &self.tone);
        put_texts(&mut fields, "qualities", &self.qualities);
        put_texts(&mut fields, "patterns", &self.patterns);
        proof {
            lemma_object_view(fields);
        }
        Json::Object(fields)
    }

    fn decode(doc: &Json) -> (r: Result<Voice, SchemaViolation>) {
        let id = read_optional_id(doc, "id")?;
        let style = read_text(doc, "style")?;
        let tone = read_text(doc, "tone")?;
        let qualities = read_text_list(doc, "qualities")?;
        let patterns = read_text_list(doc, "patterns")?;
        Ok(Voice { id, style, tone, qualities, patterns })
    }
}

impl Voice {
    /// The voice that a persona has where none was chosen.
    pub open spec fn baseline() -> VoiceView {
        VoiceView {
            id: None,
            style: "sternly encouraging"@,
            tone: "firm and direct"@,
            qualities: seq!["commanding"@, "confident"@, "supportive in a tough manner"@],
            patterns: seq![
                "references historical IDF successes"@,
                "uses military idioms"@,
                "mixes motivational orders with reminders of responsibility"@,
            ],
        }
    }

    pub fn builder() -> (r: VoiceBuilder)
        ensures
            r.style is None,
            r.tone is None,
            r.qualities is None,
            r.patterns is None,
    {
        VoiceBuilder::new()
    }
}

impl Default for Voice {
    fn default() -> (r: Voice)
        ensures
            r.deep_view() == Voice::baseline(),
    {
        let mut qualities: Vec<String> = Vec::new();
        qualities.push("commanding".to_owned());
        qualities.push("confident".to_owned());
        qualities.push("supportive in a tough manner".to_owned());
        let mut patterns: Vec<String> = Vec::new();
        patterns.push("references historical IDF successes".to_owned());
        patterns.push("uses military idioms".to_owned());
        patterns.push("mixes motivational orders with reminders of responsibility".to_owned());
        assert(qualities.deep_view() =~= Voice::baseline().qualities);
        assert(patterns.deep_view() =~= Voice::baseline().patterns);
        Voice {
            id: None,
            style: "sternly encouraging".to_owned(),
            tone: "firm and direct".to_owned(),
            qualities,
            patterns,
        }
    }
}

/// Collects the fields of a `Voice`.
pub struct VoiceBuilder {
    pub style: Option<String>,
    pub tone: Option<String>,
    pub qualities: Option<Vec<String>>,
    pub patterns: Option<Vec<String>>,
}

impl Default for VoiceBuilder {
    fn default() -> (r: VoiceBuilder)
        ensures
            r.style is None,
            r.tone is None,
            r.qualities is None,
            r.patterns is None,
    {
        VoiceBuilder { style: None, tone: None, qualities: None, patterns: None }
    }
}

impl VoiceBuilder {
    pub fn new() -> (r: VoiceBuilder)
        ensures
            r.style is None,
            r.tone is None,
            r.qualities is None,
            r.patterns is None,
    {
        VoiceBuilder { style: None, tone: None, qualities: None, patterns: None }
    }

    pub fn style(self, style: &str) -> (r: VoiceBuilder)
        ensures
            r.style.deep_view() == Some(style@),
            r.tone == self.tone,
            r.qualities == self.qualities,
            r.patterns == self.patterns,
    {
        let mut next = self;
        next.style = Some(style.to_owned());
        next
    }

    pub fn tone(self, tone: &str) -> (r: VoiceBuilder)
        ensures
            r.tone.deep_view() == Some(tone@),
            r.style == self.style,
            r.qualities == self.qualities,
            r.patterns == self.patterns,
    {
        let mut next = self;
        next.tone = Some(tone.to_owned());
        next
    }

    pub fn qualities(self, qualities: Vec<String>) -> (r: VoiceBuilder)
        ensures
            r.qualities == Some(qualities),
            r.style == self.style,
            r.tone == self.tone,
            r.patterns == self.patterns,
    {
        let mut next = self;
        next.qualities = Some(qualities);
        next
    }

    pub fn patterns(self, patterns: Vec<String>) -> (r: VoiceBuilder)
        ensures
            r.patterns == Some(patterns),
            r.style == self.style,
            r.tone == self.tone,
            r.qualities == self.qualities,
    {
        let mut next = self;
        next.patterns = Some(patterns);
        next
    }

    /// Makes the voice, or says which field was never set: all four are
    /// required, in the order style, tone, qualities, patterns.
    pub fn build(self) -> (r: Result<Voice, &'static str>)
        ensures
            match r {
                Ok(voice) => {
                    &&& voice.id is None
                    &&& self.style == Some(voice.style)
                    &&& self.tone == Some(voice.tone)
                    &&& self.qualities == Some(voice.qualities)
                    &&& self.patterns == Some(voice.patterns)
                },
                Err(message) => {
                    ||| self.style is None && message@ == "style is required"@
                    ||| self.style is Some && self.tone is None && message@ == "tone is required"@
                    ||| self.style is Some && self.tone is Some && self.qualities is None
                        && message@ == "qualities is required"@
                    ||| self.style is Some && self.tone is Some && self.qualities is Some
                        && self.patterns is None && message@ == "patterns is required"@
                },
            },
    {
        let style = match self.style {
            Some(style) => style,
            None => { return Err("style is required"); },
        };
        let tone = match self.tone {
            Some(tone) => tone,
            None => { return Err("tone is required"); },
        };
        let qualities = match self.qualities {
            Some(qualities) => qualities,
            None => { return Err("qualities is required"); },
        };
        let patterns = match self.patterns {
            Some(patterns) => patterns,
            None => { return Err("patterns is required"); },
        };
        Ok(Voice { id: None, style, tone, qualities, patterns })
    }
}

} // verus!
