//! The prompts of a language lesson.

use vstd::prelude::*;
use vstd::string::*;
use crate::language::Language;

verus! {

/// What a lesson asks for, after the greeting.
pub open spec fn request_text() -> Seq<char> {
    " Please teach me something interesting in "@
}

/// How the teacher's instructions begin, up to the language's name.
pub open spec fn teacher_opening() -> Seq<char> {
    "You are a "@
}

/// The teacher's instructions after the language's name.
pub open spec fn teacher_instructions() -> Seq<char> {
    " language teacher who creates unique, contextualized lessons. Each lesson should combine: 1. A grammar point with practical examples 2. Theme-appropriate vocabulary 3. A real-world situation or scenario 4. Cultural context when relevant 5. Discuss formal and informal language, when appropriate 6. Always explain how things are pronounced Vary your teaching style and difficulty level. Sometimes focus on casual speech, sometimes on formal language. Include both basic and advanced concepts.\n            And keep in mind that your response will finalize the lesson, the use will not reply."@
}

/// The request for a lesson: the greeting, then the request with the
/// language's name.
pub open spec fn lesson_request(greeting: Seq<char>, language: Language) -> Seq<char> {
    greeting + request_text() + language.name() + ".  "@
}

/// The request for a lesson with the moment it is made at in front of it.
pub open spec fn dated_request(
    time: Seq<char>,
    weekday: Seq<char>,
    greeting: Seq<char>,
    request: Seq<char>,
) -> Seq<char> {
    "Current time: "@ + time + ". Day of week: "@ + weekday + ". "@ + greeting + " "@ + request
}

/// Writes the request for a lesson in a language, after a greeting.
pub fn lesson_prompt(greeting: &str, language: Language) -> (prompt: String)
    ensures
        prompt@ == lesson_request(greeting@, language),
{
    let mut prompt = greeting.to_owned();
    prompt.append(" Please teach me something interesting in ");
    prompt.append(language.to_text().as_str());
    prompt.append(".  ");
    prompt
}

/// Puts the time and the day of the week, as the caller has written them, in
/// front of a greeting and a request.
pub fn enriched_prompt(time: &str, weekday: &str, greeting: &str, request: &str) -> (prompt: String)
    ensures
        prompt@ == dated_request(time@, weekday@, greeting@, request@),
{
    let mut prompt = "Current time: ".to_owned();
    prompt.append(time);
    prompt.append(". Day of week: ");
    prompt.append(weekday);
    prompt.append(". ");
    prompt.append(greeting);
    prompt.append(" ");
    prompt.append(request);
    prompt
}

/// The instructions for the teacher of a language.
pub fn teacher_prompt(language: Language) -> (prompt: String)
    ensures
        prompt@ == teacher_opening() + language.name() + teacher_instructions(),
{
    let mut prompt = "You are a ".to_owned();
    prompt.append(language.to_text().as_str());
    prompt.append(
        " language teacher who creates unique, contextualized lessons. Each lesson should combine: 1. A grammar point with practical examples 2. Theme-appropriate vocabulary 3. A real-world situation or scenario 4. Cultural context when relevant 5. Discuss formal and informal language, when appropriate 6. Always explain how things are pronounced Vary your teaching style and difficulty level. Sometimes focus on casual speech, sometimes on formal language. Include both basic and advanced concepts.\n            And keep in mind that your response will finalize the lesson, the use will not reply.",
    );
    prompt
}

} // verus!
