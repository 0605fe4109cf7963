//! The site's languages.
use vstd::prelude::*;

use crate::text::{lower_of, lowercase, same_text};

verus! {

/// A language the site is written in.
#[derive(PartialEq, Eq, Structural, Debug, Clone, Copy)]
pub enum Language {
    En,
    Fr,
}

impl Default for Language {
    fn default() -> (r: Language)
        ensures
            r == Language::En,
    {
        Language::En
    }
}

impl Language {
    /// The language's code.
    pub fn code(&self) -> (r: &'static str)
        ensures
            *self == Language::En ==> r@ == "en"@,
            *self == Language::Fr ==> r@ == "fr"@,
    {
        match self {
            Language::En => "en",
            Language::Fr => "fr",
        }
    }

    /// The language whose code is `code`, in any case; English for any other text.
    pub fn from_code(code: &str) -> (r: Language)
        ensures
            r == (if lower_of(code@) == "fr"@ {
                Language::Fr
            } else {
                Language::En
            }),
    {
        let lower = lowercase(code);
        if same_text(lower.as_str(), "fr") {
            Language::Fr
        } else {
            Language::En
        }
    }

    /// The other language.
    pub fn toggle(&self) -> (r: Language)
        ensures
            r != *self,
    {
        match self {
            Language::En => Language::Fr,
            Language::Fr => Language::En,
        }
    }

    /// The label of the language switch.
    pub fn label(&self) -> (r: &'static str)
        ensures
            *self == Language::En ==> r@ == "EN"@,
            *self == Language::Fr ==> r@ == "FR"@,
    {
        match self {
            Language::En => "EN",
            Language::Fr => "FR",
        }
    }
}

} // verus!
