//! The data model of a translation answer, and the builders that make it.

use vstd::prelude::*;
use vstd::string::*;

verus! {

/// Why a builder could not finish.
#[derive(Debug)]
pub enum BuilderError {
    /// A required field was never set; the name is the field's.
    MissingField(&'static str),
}

impl BuilderError {
    /// The name of the field that was missing.
    pub open spec fn field(self) -> Seq<char> {
        match self {
            BuilderError::MissingField(name) => name@,
        }
    }

    /// The error as a sentence.
    pub fn message(&self) -> (text: String)
        ensures
            text@ == "Missing required field: "@ + self.field(),
    {
        match self {
            BuilderError::MissingField(name) => {
                let mut text = "Missing required field: ".to_owned();
                text.append(name);
                text
            },
        }
    }
}

/// The content of an optional text.
pub open spec fn text_of(text: Option<String>) -> Option<Seq<char>> {
    match text {
        Some(text) => Some(text@),
        None => None,
    }
}

/// The contents of a list of texts.
pub open spec fn texts_of(texts: Seq<String>) -> Seq<Seq<char>> {
    texts.map_values(|text: String| text@)
}

/// The contents of a list of string slices.
pub open spec fn slices_of(texts: Seq<&str>) -> Seq<Seq<char>> {
    texts.map_values(|text: &str| text@)
}

/// A phrase that shows a translation in use.
#[derive(Debug)]
pub struct Example {
    phrase: String,
    pronunciation: String,
    translation: String,
}

/// The mathematical content of an [`Example`].
pub struct ExampleView {
    pub phrase: Seq<char>,
    pub pronunciation: Seq<char>,
    pub translation: Seq<char>,
}

impl View for Example {
    type V = ExampleView;

    closed spec fn view(&self) -> ExampleView {
        ExampleView {
            phrase: self.phrase@,
            pronunciation: self.pronunciation@,
            translation: self.translation@,
        }
    }
}

/// The contents of a list of examples.
pub open spec fn examples_of(examples: Seq<Example>) -> Seq<ExampleView> {
    examples.map_values(|example: Example| example@)
}

/// Collects the fields of an [`Example`].
#[derive(Debug)]
pub struct ExampleBuilder {
    phrase: Option<String>,
    pronunciation: Option<String>,
    translation: Option<String>,
}

/// The mathematical content of an [`ExampleBuilder`]: what was set so far.
pub struct ExampleBuilderView {
    pub phrase: Option<Seq<char>>,
    pub pronunciation: Option<Seq<char>>,
    pub translation: Option<Seq<char>>,
}

impl ExampleBuilderView {
    /// The first required field that was not set, in the order phrase,
    /// pronunciation, translation.
    pub open spec fn missing(self) -> Option<Seq<char>> {
        if self.phrase.is_none() {
            Some("phrase"@)
        } else if self.pronunciation.is_none() {
            Some("pronunciation"@)
        } else if self.translation.is_none() {
            Some("translation"@)
        } else {
            None
        }
    }

    /// The example that the fields make once all are set.
    pub open spec fn built(self) -> ExampleView {
        ExampleView {
            phrase: self.phrase.unwrap(),
            pronunciation: self.pronunciation.unwrap(),
            translation: self.translation.unwrap(),
        }
    }
}

impl View for ExampleBuilder {
    type V = ExampleBuilderView;

    closed spec fn view(&self) -> ExampleBuilderView {
        ExampleBuilderView {
            phrase: text_of(self.phrase),
            pronunciation: text_of(self.pronunciation),
            translation: text_of(self.translation),
        }
    }
}

impl ExampleBuilder {
    /// A builder with nothing set.
    pub fn new() -> (builder: Self)
        ensures
            builder@ == (ExampleBuilderView { phrase: None, pronunciation: None, translation: None }),
    {
        ExampleBuilder { phrase: None, pronunciation: None, translation: None }
    }

    /// Sets the phrase.
    pub fn phrase(self, value: &str) -> (builder: Self)
        ensures
            builder@ == (ExampleBuilderView { phrase: Some(value@), ..self@ }),
    {
        ExampleBuilder {
            phrase: Some(value.to_owned()),
            pronunciation: self.pronunciation,
            translation: self.translation,
        }
    }

    /// Sets the pronunciation.
    pub fn pronunciation(self, value: &str) -> (builder: Self)
        ensures
            builder@ == (ExampleBuilderView { pronunciation: Some(value@), ..self@ }),
    {
        ExampleBuilder {
            phrase: self.phrase,
            pronunciation: Some(value.to_owned()),
            translation: self.translation,
        }
    }

    /// Sets the translation.
    pub fn translation(self, value: &str) -> (builder: Self)
        ensures
            builder@ == (ExampleBuilderView { translation: Some(value@), ..self@ }),
    {
        ExampleBuilder {
            phrase: self.phrase,
            pronunciation: self.pronunciation,
            translation: Some(value.to_owned()),
        }
    }

    /// Makes the example, or names the first field that is missing.
    pub fn build(self) -> (built: Result<Example, BuilderError>)
        ensures
            match built {
                Ok(example) => self@.missing().is_none() && example@ == self@.built(),
                Err(error) => self@.missing() == Some(error.field()),
            },
    {
        let phrase = match self.phrase {
            Some(text) => text,
            None => return Err(BuilderError::MissingField("phrase")),
        };
        let pronunciation = match self.pronunciation {
            Some(text) => text,
            None => return Err(BuilderError::MissingField("pronunciation")),
        };
        let translation = match self.translation {
            Some(text) => text,
            None => return Err(BuilderError::MissingField("translation")),
        };
        Ok(Example { phrase, pronunciation, translation })
    }
}

/// A text rendered in one language, with notes and examples.
#[derive(Debug)]
pub struct LanguageTranslation {
    translation: String,
    pronunciation: String,
    grammar: Vec<String>,
    examples: Vec<Example>,
}

/// The mathematical content of a [`LanguageTranslation`].
pub struct LanguageTranslationView {
    pub translation: Seq<char>,
    pub pronunciation: Seq<char>,
    pub grammar: Seq<Seq<char>>,
    pub examples: Seq<ExampleView>,
}

impl View for LanguageTranslation {
    type V = LanguageTranslationView;

    closed spec fn view(&self) -> LanguageTranslationView {
        LanguageTranslationView {
            translation: self.translation@,
            pronunciation: self.pronunciation@,
            grammar: texts_of(self.grammar@),
            examples: examples_of(self.examples@),
        }
    }
}

/// Collects the fields of a [`LanguageTranslation`].
#[derive(Debug)]
pub struct LanguageTranslationBuilder {
    translation: Option<String>,
    pronunciation: Option<String>,
    grammar: Vec<String>,
    examples: Vec<Example>,
}

/// The mathematical content of a [`LanguageTranslationBuilder`].
pub struct LanguageTranslationBuilderView {
    pub translation: Option<Seq<char>>,
    pub pronunciation: Option<Seq<char>>,
    pub grammar: Seq<Seq<char>>,
    pub examples: Seq<ExampleView>,
}

impl LanguageTranslationBuilderView {
    /// The first required field that was not set, in the order translation,
    /// pronunciation.
    pub open spec fn missing(self) -> Option<Seq<char>> {
        if self.translation.is_none() {
            Some("translation"@)
        } else if self.pronunciation.is_none() {
            Some("pronunciation"@)
        } else {
            None
        }
    }

    /// What the fields make once the required ones are set.
    pub open spec fn built(self) -> LanguageTranslationView {
        LanguageTranslationView {
            translation: self.translation.unwrap(),
            pronunciation: self.pronunciation.unwrap(),
            grammar: self.grammar,
            examples: self.examples,
        }
    }
}

impl View for LanguageTranslationBuilder {
    type V = LanguageTranslationBuilderView;

    closed spec fn view(&self) -> LanguageTranslationBuilderView {
        LanguageTranslationBuilderView {
            translation: text_of(self.translation),
            pronunciation: text_of(self.pronunciation),
            grammar: texts_of(self.grammar@),
            examples: examples_of(self.examples@),
        }
    }
}

impl LanguageTranslationBuilder {
    /// A builder with nothing set and no notes or examples.
    pub fn new() -> (builder: Self)
        ensures
            builder@ == (LanguageTranslationBuilderView {
                translation: None,
                pronunciation: None,
                grammar: Seq::empty(),
                examples: Seq::empty(),
            }),
    {
        let builder = LanguageTranslationBuilder {
            translation: None,
            pronunciation: None,
            grammar: Vec::new(),
            examples: Vec::new(),
        };
        assert(builder@.grammar =~= Seq::empty());
        assert(builder@.examples =~= Seq::empty());
        builder
    }

    /// Sets the translation.
    pub fn translation(self, value: &str) -> (builder: Self)
        ensures
            builder@ == (LanguageTranslationBuilderView { translation: Some(value@), ..self@ }),
    {
        LanguageTranslationBuilder {
            translation: Some(value.to_owned()),
            pronunciation: self.pronunciation,
            grammar: self.grammar,
            examples: self.examples,
        }
    }

    /// Sets the pronunciation.
    pub fn pronunciation(self, value: &str) -> (builder: Self)
        ensures
            builder@ == (LanguageTranslationBuilderView { pronunciation: Some(value@), ..self@ }),
    {
        LanguageTranslationBuilder {
            translation: self.translation,
            pronunciation: Some(value.to_owned()),
            grammar: self.grammar,
            examples: self.examples,
        }
    }

    /// Adds one grammar note after those already there.
    pub fn grammar(self, value: &str) -> (builder: Self)
        ensures
            builder@ == (LanguageTranslationBuilderView {
                grammar: self@.grammar.push(value@),
                ..self@
            }),
    {
        let mut grammar = self.grammar;
        grammar.push(value.to_owned());
        let builder = LanguageTranslationBuilder {
            translation: self.translation,
            pronunciation: self.pronunciation,
            grammar,
            examples: self.examples,
        };
        assert(builder@.grammar =~= self@.grammar.push(value@));
        builder
    }

    /// Adds grammar notes, in their order, after those already there.
    pub fn grammars(self, values: Vec<&str>) -> (builder: Self)
        ensures
            builder@ == (LanguageTranslationBuilderView {
                grammar: self@.grammar + slices_of(values@),
                ..self@
            }),
    {
        let mut grammar = self.grammar;
        let ghost before = grammar@;
        let mut i: usize = 0;
        while i < values.len()
            invariant
                i <= values.len(),
                grammar@.len() == before.len() + i,
                forall|j: int| 0 <= j < before.len() ==> grammar@[j] == before[j],
                forall|j: int| 0 <= j < i ==> (#[trigger] grammar@[before.len() + j])@ == values@[j]@,
            decreases values.len() - i,
        {
            grammar.push(values[i].to_owned());
            i += 1;
        }
        let builder = LanguageTranslationBuilder {
            translation: self.translation,
            pronunciation: self.pronunciation,
            grammar,
            examples: self.examples,
        };
        assert forall|k: int| 0 <= k < builder@.grammar.len() implies builder@.grammar[k] == (
        self@.grammar + slices_of(values@))[k] by {
            if k >= before.len() {
                let j = k - before.len();
                assert(grammar@[before.len() + j]@ == values@[j]@);
            }
        }
        assert(builder@.grammar =~= self@.grammar + slices_of(values@));
        builder
    }

    /// Adds one example after those already there.
    pub fn example(self, example: Example) -> (builder: Self)
        ensures
            builder@ == (LanguageTranslationBuilderView {
                examples: self@.examples.push(example@),
                ..self@
            }),
    {
        let mut examples = self.examples;
        examples.push(example);
        let builder = LanguageTranslationBuilder {
            translation: self.translation,
            pronunciation: self.pronunciation,
            grammar: self.grammar,
            examples,
        };
        assert(builder@.examples =~= self@.examples.push(example@));
        builder
    }

    /// Adds examples, in their order, after those already there.
    pub fn examples(self, examples: Vec<Example>) -> (builder: Self)
        ensures
            builder@ == (LanguageTranslationBuilderView {
                examples: self@.examples + examples_of(examples@),
                ..self@
            }),
    {
        let mut all = self.examples;
        let mut added = examples;
        all.append(&mut added);
        let builder = LanguageTranslationBuilder {
            translation: self.translation,
            pronunciation: self.pronunciation,
            grammar: self.grammar,
            examples: all,
        };
        assert(builder@.examples =~= self@.examples + examples_of(examples@));
        builder
    }

    /// Makes the translation, or names the first field that is missing.
    pub fn build(self) -> (built: Result<LanguageTranslation, BuilderError>)
        ensures
            match built {
                Ok(translation) => self@.missing().is_none() && translation@ == self@.built(),
                Err(error) => self@.missing() == Some(error.field()),
            },
    {
        let translation = match self.translation {
            Some(text) => text,
            None => return Err(BuilderError::MissingField("translation")),
        };
        let pronunciation = match self.pronunciation {
            Some(text) => text,
            None => return Err(BuilderError::MissingField("pronunciation")),
        };
        Ok(
            LanguageTranslation {
                translation,
                pronunciation,
                grammar: self.grammar,
                examples: self.examples,
            },
        )
    }
}

/// A text with its Japanese and its Chinese rendering.
#[derive(Debug)]
pub struct Translation {
    original: String,
    japanese: LanguageTranslation,
    chinese: LanguageTranslation,
}

/// The mathematical content of a [`Translation`].
pub struct TranslationView {
    pub original: Seq<char>,
    pub japanese: LanguageTranslationView,
    pub chinese: LanguageTranslationView,
}

impl View for Translation {
    type V = TranslationView;

    closed spec fn view(&self) -> TranslationView {
        TranslationView {
            original: self.original@,
            japanese: self.japanese@,
            chinese: self.chinese@,
        }
    }
}

/// The content of an optional rendering.
pub open spec fn rendering_of(rendering: Option<LanguageTranslation>) -> Option<
    LanguageTranslationView,
> {
    match rendering {
        Some(rendering) => Some(rendering@),
        None => None,
    }
}

/// Collects the fields of a [`Translation`].
#[derive(Debug)]
pub struct TranslationBuilder {
    original: Option<String>,
    japanese: Option<LanguageTranslation>,
    chinese: Option<LanguageTranslation>,
}

/// The mathematical content of a [`TranslationBuilder`].
pub struct TranslationBuilderView {
    pub original: Option<Seq<char>>,
    pub japanese: Option<LanguageTranslationView>,
    pub chinese: Option<LanguageTranslationView>,
}

impl TranslationBuilderView {
    /// The first required field that was not set, in the order original,
    /// japanese, chinese.
    pub open spec fn missing(self) -> Option<Seq<char>> {
        if self.original.is_none() {
            Some("original"@)
        } else if self.japanese.is_none() {
            Some("japanese"@)
        } else if self.chinese.is_none() {
            Some("chinese"@)
        } else {
            None
        }
    }

    /// The translation that the fields make once all are set.
    pub open spec fn built(self) -> TranslationView {
        TranslationView {
            original: self.original.unwrap(),
            japanese: self.japanese.unwrap(),
            chinese: self.chinese.unwrap(),
        }
    }
}

impl View for TranslationBuilder {
    type V = TranslationBuilderView;

    closed spec fn view(&self) -> TranslationBuilderView {
        TranslationBuilderView {
            original: text_of(self.original),
            japanese: rendering_of(self.japanese),
            chinese: rendering_of(self.chinese),
        }
    }
}

impl TranslationBuilder {
    /// A builder with nothing set.
    pub fn new() -> (builder: Self)
        ensures
            builder@ == (TranslationBuilderView { original: None, japanese: None, chinese: None }),
    {
        TranslationBuilder { original: None, japanese: None, chinese: None }
    }

    /// Sets the original text.
    pub fn original(self, value: &str) -> (builder: Self)
        ensures
            builder@ == (TranslationBuilderView { original: Some(value@), ..self@ }),
    {
        TranslationBuilder {
            original: Some(value.to_owned()),
            japanese: self.japanese,
            chinese: self.chinese,
        }
    }

    /// Sets the Japanese rendering.
    pub fn japanese(self, value: LanguageTranslation) -> (builder: Self)
        ensures
            builder@ == (TranslationBuilderView { japanese: Some(value@), ..self@ }),
    {
        TranslationBuilder { original: self.original, japanese: Some(value), chinese: self.chinese }
    }

    /// Sets the Chinese rendering.
    pub fn chinese(self, value: LanguageTranslation) -> (builder: Self)
        ensures
            builder@ == (TranslationBuilderView { chinese: Some(value@), ..self@ }),
    {
        TranslationBuilder { original: self.original, japanese: self.japanese, chinese: Some(value) }
    }

    /// Makes the translation, or names the first field that is missing.
    pub fn build(self) -> (built: Result<Translation, BuilderError>)
        ensures
            match built {
                Ok(translation) => self@.missing().is_none() && translation@ == self@.built(),
                Err(error) => self@.missing() == Some(error.field()),
            },
    {
        let original = match self.original {
            Some(text) => text,
            None => return Err(BuilderError::MissingField("original")),
        };
        let japanese = match self.japanese {
            Some(rendering) => rendering,
            None => return Err(BuilderError::MissingField("japanese")),
        };
        let chinese = match self.chinese {
            Some(rendering) => rendering,
            None => return Err(BuilderError::MissingField("chinese")),
        };
        Ok(Translation { original, japanese, chinese })
    }
}

/// The answer to a translation request: the translations of its sentences.
#[derive(Debug)]
pub struct TranslationResponse {
    translations: Vec<Translation>,
}

/// The contents of a list of translations.
pub open spec fn translations_of(translations: Seq<Translation>) -> Seq<TranslationView> {
    translations.map_values(|translation: Translation| translation@)
}

impl View for TranslationResponse {
    type V = Seq<TranslationView>;

    closed spec fn view(&self) -> Seq<TranslationView> {
        translations_of(self.translations@)
    }
}

/// Collects the translations of a [`TranslationResponse`].
#[derive(Debug)]
pub struct TranslationResponseBuilder {
    translations: Vec<Translation>,
}

impl View for TranslationResponseBuilder {
    type V = Seq<TranslationView>;

    closed spec fn view(&self) -> Seq<TranslationView> {
        translations_of(self.translations@)
    }
}

impl TranslationResponseBuilder {
    /// A builder without translations.
    pub fn new() -> (builder: Self)
        ensures
            builder@ == Seq::<TranslationView>::empty(),
    {
        let builder = TranslationResponseBuilder { translations: Vec::new() };
        assert(builder@ =~= Seq::<TranslationView>::empty());
        builder
    }

    /// Adds one translation after those already there.
    pub fn add_translation(self, translation: Translation) -> (builder: Self)
        ensures
            builder@ == self@.push(translation@),
    {
        let mut translations = self.translations;
        translations.push(translation);
        let builder = TranslationResponseBuilder { translations };
        assert(builder@ =~= self@.push(translation@));
        builder
    }

    /// Makes the answer: the translations in the order in which they were
    /// added.
    pub fn build(self) -> (response: TranslationResponse)
        ensures
            response@ == self@,
    {
        TranslationResponse { translations: self.translations }
    }
}

impl Example {
    /// The phrase.
    pub fn get_phrase(&self) -> (text: &str)
        ensures
            text@ == self@.phrase,
    {
        self.phrase.as_str()
    }

    /// How the phrase is pronounced.
    pub fn get_pronunciation(&self) -> (text: &str)
        ensures
            text@ == self@.pronunciation,
    {
        self.pronunciation.as_str()
    }

    /// What the phrase means.
    pub fn get_translation(&self) -> (text: &str)
        ensures
            text@ == self@.translation,
    {
        self.translation.as_str()
    }

    /// A builder for an example.
    pub fn builder() -> (builder: ExampleBuilder)
        ensures
            builder@ == (ExampleBuilderView { phrase: None, pronunciation: None, translation: None }),
    {
        ExampleBuilder::new()
    }
}

impl LanguageTranslation {
    /// The rendering itself.
    pub fn get_translation(&self) -> (text: &str)
        ensures
            text@ == self@.translation,
    {
        self.translation.as_str()
    }

    /// How the rendering is pronounced.
    pub fn get_pronunciation(&self) -> (text: &str)
        ensures
            text@ == self@.pronunciation,
    {
        self.pronunciation.as_str()
    }

    /// The grammar notes, in their order.
    pub fn get_grammar(&self) -> (notes: &Vec<String>)
        ensures
            texts_of(notes@) == self@.grammar,
    {
        &self.grammar
    }

    /// The examples, in their order.
    pub fn get_examples(&self) -> (examples: &Vec<Example>)
        ensures
            examples_of(examples@) == self@.examples,
    {
        &self.examples
    }

    /// A builder for a rendering.
    pub fn builder() -> (builder: LanguageTranslationBuilder)
        ensures
            builder@ == (LanguageTranslationBuilderView {
                translation: None,
                pronunciation: None,
                grammar: Seq::empty(),
                examples: Seq::empty(),
            }),
    {
        LanguageTranslationBuilder::new()
    }
}

impl Translation {
    /// The text that was translated.
    pub fn get_original(&self) -> (text: &str)
        ensures
            text@ == self@.original,
    {
        self.original.as_str()
    }

    /// The Japanese rendering.
    pub fn get_japanese(&self) -> (rendering: &LanguageTranslation)
        ensures
            rendering@ == self@.japanese,
    {
        &self.japanese
    }

    /// The Chinese rendering.
    pub fn get_chinese(&self) -> (rendering: &LanguageTranslation)
        ensures
            rendering@ == self@.chinese,
    {
        &self.chinese
    }

    /// A builder for a translation.
    pub fn builder() -> (builder: TranslationBuilder)
        ensures
            builder@ == (TranslationBuilderView { original: None, japanese: None, chinese: None }),
    {
        TranslationBuilder::new()
    }
}

impl TranslationResponse {
    /// The translations, in their order.
    pub fn get_translations(&self) -> (translations: &Vec<Translation>)
        ensures
            translations_of(translations@) == self@,
    {
        &self.translations
    }

    /// A builder for an answer.
    pub fn builder() -> (builder: TranslationResponseBuilder)
        ensures
            builder@ == Seq::<TranslationView>::empty(),
    {
        TranslationResponseBuilder::new()
    }
}

/// A request to translate a text.
#[derive(Debug)]
pub struct TranslationRequest {
    pub text: String,
}

} // verus!
