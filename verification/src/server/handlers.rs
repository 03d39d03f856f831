//! What the request handlers compute.

use vstd::prelude::*;
use crate::server::models::{
    slices_of,
    BuilderError,
    Example,
    ExampleBuilder,
    ExampleView,
    LanguageTranslation,
    LanguageTranslationView,
    Translation,
    TranslationResponse,
    TranslationView,
};

verus! {

/// The grammar notes of the sample's Japanese rendering.
pub open spec fn sample_japanese_grammar() -> Seq<Seq<char>> {
    seq![
        "だから (dakara): 'That's why' or 'So.'"@,
        "言った (いった, itta): The past tense of 言う (いう, iu), meaning 'to say' or 'to tell.'"@,
        "でしょう (deshou): A sentence-ending particle that adds a tone of confirmation or assertion, often implying 'didn't I?' or 'right?'"@,
    ]
}

/// The Japanese rendering in the sample answer.
pub open spec fn sample_japanese() -> LanguageTranslationView {
    LanguageTranslationView {
        translation: "こんにちは世界"@,
        pronunciation: "Konnichiwa sekai"@,
        grammar: sample_japanese_grammar(),
        examples: seq![
            ExampleView {
                phrase: "ほら、だから言ったでしょう！"@,
                pronunciation: "ほら、だからいったでしょう!"@,
                translation: "See, I told you so!"@,
            },
            ExampleView {
                phrase: "言ったよね"@,
                pronunciation: "いったよね"@,
                translation: "I told you, right?"@,
            },
        ],
    }
}

/// The grammar notes of the sample's Chinese rendering.
pub open spec fn sample_chinese_grammar() -> Seq<Seq<char>> {
    seq![
        "早就 (zǎo jiù): 'A long time ago' or 'already.'"@,
        "跟 (gēn): 'With' or 'to.'"@,
        "说了 (shuō le): 'Said' or 'told.'"@,
    ]
}

/// The Chinese rendering in the sample answer.
pub open spec fn sample_chinese() -> LanguageTranslationView {
    LanguageTranslationView {
        translation: "你好世界"@,
        pronunciation: "Nǐ hǎo shìjiè"@,
        grammar: sample_chinese_grammar(),
        examples: seq![
            ExampleView {
                phrase: "我就说嘛"@,
                pronunciation: "wǒ jiù shuō ma"@,
                translation: "See, I said so!"@,
            },
            ExampleView {
                phrase: "你看，我不是早就说过了吗！"@,
                pronunciation: "nǐ kàn, wǒ bù shì zǎo jiù shu"@,
                translation: "See? Didn't I already tell you!"@,
            },
        ],
    }
}

/// A sample answer for `text`: one translation, whose original is the text
/// and whose renderings are fixed. It always succeeds.
pub fn create_translation_response(text: &str) -> (made: Result<TranslationResponse, BuilderError>)
    ensures
        made matches Ok(response) && response@ == seq![
            TranslationView {
                original: text@,
                japanese: sample_japanese(),
                chinese: sample_chinese(),
            },
        ],
{
    let japanese_grammar: Vec<&str> = vec![
        "だから (dakara): 'That's why' or 'So.'",
        "言った (いった, itta): The past tense of 言う (いう, iu), meaning 'to say' or 'to tell.'",
        "でしょう (deshou): A sentence-ending particle that adds a tone of confirmation or assertion, often implying 'didn't I?' or 'right?'",
    ];
    assert(slices_of(japanese_grammar@) =~= sample_japanese_grammar());
    let japanese_first = Example::builder().phrase("ほら、だから言ったでしょう！").pronunciation(
        "ほら、だからいったでしょう!",
    ).translation("See, I told you so!").build()?;
    let japanese_second = Example::builder().phrase("言ったよね").pronunciation(
        "いったよね",
    ).translation("I told you, right?").build()?;
    let mut japanese_examples: Vec<Example> = Vec::new();
    japanese_examples.push(japanese_first);
    japanese_examples.push(japanese_second);
    let japanese = LanguageTranslation::builder().translation("こんにちは世界").pronunciation(
        "Konnichiwa sekai",
    ).grammars(japanese_grammar).examples(japanese_examples).build()?;
    assert(japanese@.grammar =~= sample_japanese().grammar);
    assert(japanese@.examples =~= sample_japanese().examples);

    let chinese_grammar: Vec<&str> = vec![
        "早就 (zǎo jiù): 'A long time ago' or 'already.'",
        "跟 (gēn): 'With' or 'to.'",
        "说了 (shuō le): 'Said' or 'told.'",
    ];
    assert(slices_of(chinese_grammar@) =~= sample_chinese_grammar());
    let chinese_first = ExampleBuilder::new().phrase("我就说嘛").pronunciation(
        "wǒ jiù shuō ma",
    ).translation("See, I said so!").build()?;
    let chinese_second = ExampleBuilder::new().phrase("你看，我不是早就说过了吗！").pronunciation(
        "nǐ kàn, wǒ bù shì zǎo jiù shu",
    ).translation("See? Didn't I already tell you!").build()?;
    let mut chinese_examples: Vec<Example> = Vec::new();
    chinese_examples.push(chinese_first);
    chinese_examples.push(chinese_second);
    let chinese = LanguageTranslation::builder().translation("你好世界").pronunciation(
        "Nǐ hǎo shìjiè",
    ).grammars(chinese_grammar).examples(chinese_examples).build()?;
    assert(chinese@.grammar =~= sample_chinese().grammar);
    assert(chinese@.examples =~= sample_chinese().examples);

    let translation = Translation::builder().original(text).japanese(japanese).chinese(
        chinese,
    ).build()?;
    let response = TranslationResponse::builder().add_translation(translation).build();
    assert(response@ =~= seq![
        TranslationView { original: text@, japanese: sample_japanese(), chinese: sample_chinese() },
    ]);
    Ok(response)
}

} // verus!
