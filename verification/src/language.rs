//! The two languages of the windows.
use vstd::prelude::*;

use crate::text::chars_of;
use crate::text::to_ascii_lower;

verus! {

/// A language that the windows speak.
#[derive(Debug, Clone, Copy, PartialEq, Eq, Structural)]
pub enum Language {
    English,
    Russian,
}

impl Language {
    /// Of two texts the one in this language.
    pub open spec fn said(self, english: Seq<char>, russian: Seq<char>) -> Seq<char> {
        match self {
            Language::English => english,
            Language::Russian => russian,
        }
    }

    /// Of a phrase in both languages the one in this language.
    pub open spec fn words(self, phrase: (&'static str, &'static str)) -> Seq<char> {
        self.said(phrase.0@, phrase.1@)
    }

    /// Of two texts the one in this language.
    pub fn text<'a>(self, english: &'a str, russian: &'a str) -> (text: &'a str)
        ensures
            text@ == self.said(english@, russian@),
    {
        match self {
            Language::English => english,
            Language::Russian => russian,
        }
    }

    /// Of a phrase in both languages the one in this language.
    pub fn phrase(self, phrase: (&'static str, &'static str)) -> (text: &'static str)
        ensures
            text@ == self.words(phrase),
    {
        match self {
            Language::English => phrase.0,
            Language::Russian => phrase.1,
        }
    }
}

/// Whether a locale names the Russian language.
pub open spec fn is_russian(locale: Seq<char>) -> bool {
    locale.len() >= 2 && crate::text::ascii_lower(locale[0]) == 'r' && crate::text::ascii_lower(
        locale[1],
    ) == 'u'
}

fn names_russian(locale: &str) -> (russian: bool)
    ensures
        russian == is_russian(locale@),
{
    let chars = chars_of(locale);
    chars.len() >= 2 && to_ascii_lower(chars[0]) == 'r' && to_ascii_lower(chars[1]) == 'u'
}

/// The language to speak, by the values of the environment variables that
/// name a locale and by the locale of the user: Russian where any of them
/// names it, otherwise English.
pub fn detect_language(variables: &Vec<String>, locale: Option<&str>) -> (language: Language)
    ensures
        language == Language::Russian <==> (exists|i: int|
            0 <= i < variables.len() && is_russian(#[trigger] variables@[i]@)) || (
        locale matches Some(locale) && is_russian(locale@)),
{
    let mut at: usize = 0;
    while at < variables.len()
        invariant
            at <= variables.len(),
            forall|i: int| 0 <= i < at ==> !is_russian(#[trigger] variables@[i]@),
        decreases variables.len() - at,
    {
        if names_russian(variables[at].as_str()) {
            return Language::Russian;
        }
        at = at + 1;
    }
    match locale {
        Some(locale) => if names_russian(locale) {
            Language::Russian
        } else {
            Language::English
        },
        None => Language::English,
    }
}

/// What is said is said in the language that is spoken.
pub proof fn each_language_has_its_words(english: Seq<char>, russian: Seq<char>)
    ensures
        Language::English.said(english, russian) == english,
        Language::Russian.said(english, russian) == russian,
{
}

/// A locale names the Russian language where it begins with its two letters,
/// small or capital, whatever follows.
pub proof fn russian_locales_begin_with_its_letters(locale: Seq<char>, rest: Seq<char>)
    ensures
        is_russian(seq!['r', 'u'] + rest),
        is_russian(seq!['R', 'U'] + rest),
        is_russian(locale) ==> locale.len() >= 2 && (locale[0] == 'r' || locale[0] == 'R') && (
        locale[1] == 'u' || locale[1] == 'U'),
        is_russian(locale) ==> is_russian(locale.take(2)) && is_russian(locale.take(2) + rest),
{
    crate::text::capitals_become_small('R');
    crate::text::capitals_become_small('U');
    crate::text::capitals_become_small('r');
    crate::text::capitals_become_small('u');
    if is_russian(locale) {
        crate::text::capitals_become_small(locale[0]);
        crate::text::capitals_become_small(locale[1]);
    }
}

} // verus!
