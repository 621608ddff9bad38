//! The choices a player makes: an answer to a question, and the theme and
//! language of a game.
//!
//! Each can be read from free text. The reading itself is the engine's: it
//! trims, folds case the Unicode way and knows a table of aliases. It is
//! called here, not restated, and its result goes by a name.

use vstd::prelude::*;
use vstd::string::*;
use crate::error::{EngineError, Error};
use akinator_rs::enums::Language as L;

verus! {

/// An answer to the current question.
#[derive(Clone, Copy, Debug, PartialEq, Eq, Structural)]
pub enum Answer {
    Yes,
    No,
    Idk,
    Probably,
    ProbablyNot,
}

/// The pool a game draws its questions from.
#[derive(Clone, Copy, Debug, PartialEq, Eq, Structural)]
pub enum Theme {
    Characters,
    Animals,
    Objects,
}

/// The language a game is played in.
#[derive(Clone, Copy, Debug, PartialEq, Eq, Structural)]
pub enum Language {
    English,
    Arabic,
    Chinese,
    German,
    Spanish,
    French,
    Hebrew,
    Italian,
    Japanese,
    Korean,
    Dutch,
    Polish,
    Portugese,
    Russian,
    Turkish,
    Indonesian,
}

/// The answer that the engine reads out of a text, or `None` where it reads
/// none.
pub uninterp spec fn answer_of_text(text: Seq<char>) -> Option<Answer>;

/// The theme that the engine reads out of a text. Every text gives one.
pub uninterp spec fn theme_of_text(text: Seq<char>) -> Theme;

/// The language that the engine reads out of a text, or `None` where it
/// reads none.
pub uninterp spec fn language_of_text(text: Seq<char>) -> Option<Language>;

/// Calls the engine's `TryFrom<String>` for its `Answer` and hands back the
/// variant of the same name, or `None` for the engine's error (the source
/// has one error on this path, `InvalidAnswer`). The result depends on the
/// text alone; the contract gives it its name and claims nothing else.
#[verifier::external_body]
fn engine_answer(text: String) -> (parsed: Option<Answer>)
    ensures
        parsed == answer_of_text(text@),
{
    match akinator_rs::enums::Answer::try_from(text) {
        Err(_) => None,
        Ok(akinator_rs::enums::Answer::Yes) => Some(Answer::Yes),
        Ok(akinator_rs::enums::Answer::No) => Some(Answer::No),
        Ok(akinator_rs::enums::Answer::Idk) => Some(Answer::Idk),
        Ok(akinator_rs::enums::Answer::Probably) => Some(Answer::Probably),
        Ok(akinator_rs::enums::Answer::ProbablyNot) => Some(Answer::ProbablyNot),
    }
}

/// Calls the engine's `From<String>` for its `Theme` and hands back the
/// variant of the same name. The result depends on the text alone; the
/// contract gives it its name and claims nothing else.
#[verifier::external_body]
fn engine_theme(text: String) -> (parsed: Theme)
    ensures
        parsed == theme_of_text(text@),
{
    match akinator_rs::enums::Theme::from(text) {
        akinator_rs::enums::Theme::Characters => Theme::Characters,
        akinator_rs::enums::Theme::Animals => Theme::Animals,
        akinator_rs::enums::Theme::Objects => Theme::Objects,
    }
}

/// Calls the engine's `TryFrom<String>` for its `Language` and hands back
/// the variant of the same name, or `None` for the engine's error (the
/// source has one error on this path, `InvalidLanguage`). The result depends
/// on the text alone; the contract gives it its name and claims nothing else.
#[verifier::external_body]
fn engine_language(text: String) -> (parsed: Option<Language>)
    ensures
        parsed == language_of_text(text@),
{
    let found = match L::try_from(text) { Ok(l) => l, Err(_) => return None };
    Some(match found {
        L::English => Language::English, L::Arabic => Language::Arabic,
        L::Chinese => Language::Chinese, L::German => Language::German,
        L::Spanish => Language::Spanish, L::French => Language::French,
        L::Hebrew => Language::Hebrew, L::Italian => Language::Italian,
        L::Japanese => Language::Japanese, L::Korean => Language::Korean,
        L::Dutch => Language::Dutch, L::Polish => Language::Polish,
        L::Portugese => Language::Portugese, L::Russian => Language::Russian,
        L::Turkish => Language::Turkish, L::Indonesian => Language::Indonesian,
    })
}

impl Answer {
    /// The number the service knows an answer by.
    pub open spec fn code_of(self) -> u8 {
        match self {
            Answer::Yes => 0,
            Answer::No => 1,
            Answer::Idk => 2,
            Answer::Probably => 3,
            Answer::ProbablyNot => 4,
        }
    }

    /// The name of the variant.
    pub open spec fn name_of(self) -> Seq<char> {
        match self {
            Answer::Yes => "Yes"@,
            Answer::No => "No"@,
            Answer::Idk => "Idk"@,
            Answer::Probably => "Probably"@,
            Answer::ProbablyNot => "ProbablyNot"@,
        }
    }

    /// What a reading of free text comes to: the answer read, or the failure
    /// `InvalidAnswer` where none was.
    pub open spec fn parse_result(parsed: Option<Answer>) -> Result<Answer, Error> {
        match parsed {
            Some(answer) => Ok(answer),
            None => Err(Error::AkiError(EngineError::InvalidAnswer)),
        }
    }

    /// Turns the engine's reading of a text into the result of a parse.
    pub fn from_parsed(parsed: Option<Answer>) -> (result: Result<Answer, Error>)
        ensures
            result == Self::parse_result(parsed),
    {
        match parsed {
            Some(answer) => Ok(answer),
            None => Err(Error::AkiError(EngineError::InvalidAnswer)),
        }
    }

    /// Reads an answer from free text, as the engine reads it: aliases are
    /// accepted, surrounding blanks and case do not count. A text that names
    /// no answer fails with `InvalidAnswer`.
    pub fn from_str(answer: String) -> (result: Result<Answer, Error>)
        ensures
            result == Self::parse_result(answer_of_text(answer@)),
    {
        Self::from_parsed(engine_answer(answer))
    }

    /// The number the service knows this answer by.
    pub fn code(&self) -> (code: u8)
        ensures
            code == self.code_of(),
    {
        match self {
            Answer::Yes => 0,
            Answer::No => 1,
            Answer::Idk => 2,
            Answer::Probably => 3,
            Answer::ProbablyNot => 4,
        }
    }

    /// The name of the variant, as text.
    pub fn name(&self) -> (text: String)
        ensures
            text@ == self.name_of(),
    {
        match self {
            Answer::Yes => String::from_str("Yes"),
            Answer::No => String::from_str("No"),
            Answer::Idk => String::from_str("Idk"),
            Answer::Probably => String::from_str("Probably"),
            Answer::ProbablyNot => String::from_str("ProbablyNot"),
        }
    }

    /// The answer as a short text for debugging.
    pub fn repr(&self) -> (text: String)
        ensures
            text@ == "<Answer answer=\""@ + self.name_of() + "\">"@,
    {
        let mut text = String::from_str("<Answer answer=\"");
        text.append(self.name().as_str());
        text.append("\">");
        text
    }
}

impl Theme {
    /// The number the service knows a theme by.
    pub open spec fn code_of(self) -> u8 {
        match self {
            Theme::Characters => 1,
            Theme::Animals => 14,
            Theme::Objects => 2,
        }
    }

    /// The name of the variant.
    pub open spec fn name_of(self) -> Seq<char> {
        match self {
            Theme::Characters => "Characters"@,
            Theme::Animals => "Animals"@,
            Theme::Objects => "Objects"@,
        }
    }

    /// Reads a theme from free text, as the engine reads it. This never
    /// fails: a text that names no theme gives the engine's fallback.
    pub fn from_str(theme: String) -> (result: Theme)
        ensures
            result == theme_of_text(theme@),
    {
        engine_theme(theme)
    }

    /// The number the service knows this theme by.
    pub fn code(&self) -> (code: u8)
        ensures
            code == self.code_of(),
    {
        match self {
            Theme::Characters => 1,
            Theme::Animals => 14,
            Theme::Objects => 2,
        }
    }

    /// The name of the variant, as text.
    pub fn name(&self) -> (text: String)
        ensures
            text@ == self.name_of(),
    {
        match self {
            Theme::Characters => String::from_str("Characters"),
            Theme::Animals => String::from_str("Animals"),
            Theme::Objects => String::from_str("Objects"),
        }
    }

    /// The theme as a short text for debugging.
    pub fn repr(&self) -> (text: String)
        ensures
            text@ == "<Theme theme=\""@ + self.name_of() + "\">"@,
    {
        let mut text = String::from_str("<Theme theme=\"");
        text.append(self.name().as_str());
        text.append("\">");
        text
    }
}

impl Default for Theme {
    /// A game is about characters unless told otherwise.
    fn default() -> (theme: Theme)
        ensures
            theme == Theme::Characters,
    {
        Theme::Characters
    }
}

impl Language {
    /// The name of the variant.
    pub open spec fn name_of(self) -> Seq<char> {
        match self {
            Language::English => "English"@,
            Language::Arabic => "Arabic"@,
            Language::Chinese => "Chinese"@,
            Language::German => "German"@,
            Language::Spanish => "Spanish"@,
            Language::French => "French"@,
            Language::Hebrew => "Hebrew"@,
            Language::Italian => "Italian"@,
            Language::Japanese => "Japanese"@,
            Language::Korean => "Korean"@,
            Language::Dutch => "Dutch"@,
            Language::Polish => "Polish"@,
            Language::Portugese => "Portugese"@,
            Language::Russian => "Russian"@,
            Language::Turkish => "Turkish"@,
            Language::Indonesian => "Indonesian"@,
        }
    }

    /// What a reading of free text comes to: the language read, or the
    /// failure `InvalidLanguage` where none was.
    pub open spec fn parse_result(parsed: Option<Language>) -> Result<Language, Error> {
        match parsed {
            Some(language) => Ok(language),
            None => Err(Error::AkiError(EngineError::InvalidLanguage)),
        }
    }

    /// Turns the engine's reading of a text into the result of a parse.
    pub fn from_parsed(parsed: Option<Language>) -> (result: Result<Language, Error>)
        ensures
            result == Self::parse_result(parsed),
    {
        match parsed {
            Some(language) => Ok(language),
            None => Err(Error::AkiError(EngineError::InvalidLanguage)),
        }
    }

    /// Reads a language from free text, as the engine reads it: by its full
    /// name or its short form. A text that names no supported language fails
    /// with `InvalidLanguage`; there is no fallback.
    pub fn from_str(language: String) -> (result: Result<Language, Error>)
        ensures
            result == Self::parse_result(language_of_text(language@)),
    {
        Self::from_parsed(engine_language(language))
    }

    /// The name of the variant, as text.
    pub fn name(&self) -> (text: String)
        ensures
            text@ == self.name_of(),
    {
        match self {
            Language::English => String::from_str("English"),
            Language::Arabic => String::from_str("Arabic"),
            Language::Chinese => String::from_str("Chinese"),
            Language::German => String::from_str("German"),
            Language::Spanish => String::from_str("Spanish"),
            Language::French => String::from_str("French"),
            Language::Hebrew => String::from_str("Hebrew"),
            Language::Italian => String::from_str("Italian"),
            Language::Japanese => String::from_str("Japanese"),
            Language::Korean => String::from_str("Korean"),
            Language::Dutch => String::from_str("Dutch"),
            Language::Polish => String::from_str("Polish"),
            Language::Portugese => String::from_str("Portugese"),
            Language::Russian => String::from_str("Russian"),
            Language::Turkish => String::from_str("Turkish"),
            Language::Indonesian => String::from_str("Indonesian"),
        }
    }

    /// The language as a short text for debugging.
    pub fn repr(&self) -> (text: String)
        ensures
            text@ == "<Language lang=\""@ + self.name_of() + "\">"@,
    {
        let mut text = String::from_str("<Language lang=\"");
        text.append(self.name().as_str());
        text.append("\">");
        text
    }
}

impl Default for Language {
    /// A game is played in English unless told otherwise.
    fn default() -> (language: Language)
        ensures
            language == Language::English,
    {
        Language::English
    }
}

} // verus!
