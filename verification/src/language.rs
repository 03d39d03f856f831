//! The languages that lessons are given in, and their greetings.

use vstd::prelude::*;
use vstd::string::*;
use chrono::Timelike;

verus! {

/// A language that the service teaches.
#[derive(Debug, Clone, Copy, PartialEq, Eq, Structural)]
pub enum Language {
    Japanese,
    Chinese,
}

/// Calls `chrono::Local::now` and `chrono::Timelike::hour`: the hour of the
/// day on the machine's clock, in its time zone, which chrono documents as a
/// number from 0 to 23.
#[verifier::external_body]
fn local_hour() -> (hour: u32)
    ensures
        hour < 24,
{
    chrono::Local::now().hour()
}

impl Language {
    /// The language's name in lower case.
    pub open spec fn name(self) -> Seq<char> {
        match self {
            Language::Japanese => "japanese"@,
            Language::Chinese => "chinese"@,
        }
    }

    /// The greeting in this language at an hour of the day: the morning
    /// greeting from 5 to 10, the afternoon greeting from 11 to 17, the
    /// evening greeting at any other hour.
    pub open spec fn greeting_at(self, hour: int) -> Seq<char> {
        match self {
            Language::Japanese => if 5 <= hour <= 10 {
                "おはようございます。"@
            } else if 11 <= hour <= 17 {
                "こんにちは。"@
            } else {
                "こんばんは。"@
            },
            Language::Chinese => if 5 <= hour <= 10 {
                "早上好。"@
            } else if 11 <= hour <= 17 {
                "下午好。"@
            } else {
                "晚上好。"@
            },
        }
    }

    /// The language's name in lower case, as it is written on the command
    /// line and in prompts.
    pub fn to_text(&self) -> (text: String)
        ensures
            text@ == self.name(),
    {
        match self {
            Language::Japanese => "japanese".to_owned(),
            Language::Chinese => "chinese".to_owned(),
        }
    }

    /// The greeting in this language at the given hour of the day.
    pub fn greeting_at_hour(&self, hour: u32) -> (greeting: &'static str)
        ensures
            greeting@ == self.greeting_at(hour as int),
    {
        match self {
            Language::Japanese => Self::get_japanese_greeting(hour),
            Language::Chinese => Self::get_chinese_greeting(hour),
        }
    }

    /// The greeting in this language for the present hour on the machine's
    /// clock.
    pub fn get_greeting(&self) -> (greeting: &'static str)
        ensures
            exists|hour: int| 0 <= hour < 24 && greeting@ == self.greeting_at(hour),
    {
        let hour = local_hour();
        self.greeting_at_hour(hour)
    }

    fn get_japanese_greeting(hour: u32) -> (greeting: &'static str)
        ensures
            greeting@ == Language::Japanese.greeting_at(hour as int),
    {
        if 5 <= hour && hour <= 10 {
            "おはようございます。"
        } else if 11 <= hour && hour <= 17 {
            "こんにちは。"
        } else {
            "こんばんは。"
        }
    }

    fn get_chinese_greeting(hour: u32) -> (greeting: &'static str)
        ensures
            greeting@ == Language::Chinese.greeting_at(hour as int),
    {
        if 5 <= hour && hour <= 10 {
            "早上好。"
        } else if 11 <= hour && hour <= 17 {
            "下午好。"
        } else {
            "晚上好。"
        }
    }
}

} // verus!
