//! Personality: who Buddy is, how sarcastic, and how it greets.
//!
//! The sarcasm level is held in hundredths: 0 is polite, 100 full sarcasm.
use vstd::prelude::*;
use crate::text::push_str;

verus! {

/// The default sarcasm level, in hundredths.
pub const DEFAULT_SARCASM_LEVEL: u8 = 30;

/// Buddy's personality.
#[derive(Debug, Clone)]
pub struct Personality {
    /// Buddy's name.
    pub name: String,
    /// Sarcasm level in hundredths (0 to 100).
    pub sarcasm_level: u8,
    /// Whether Buddy is emotionally invested.
    pub invested: bool,
    /// Language of communication (ISO 639-1).
    pub language: String,
}

/// Why a personality is invalid.
#[derive(Debug, Clone, Copy, PartialEq, Eq, Structural)]
pub enum PersonalityError {
    /// The sarcasm level is above 100 hundredths (it is given).
    SarcasmOutOfRange(u8),
    /// The name is empty.
    EmptyName,
}

/// The morning greeting for a sarcasm level and name.
pub open spec fn greeting_text(sarcasm: u8, name: Seq<char>) -> Seq<char> {
    if sarcasm >= 70 {
        "🌅 No elo, "@ + name + "! Co tam, leniu? 😏"@
    } else if sarcasm >= 40 {
        "☀️ Dzień dobry, "@ + name + "! Gotowy na robotę?"@
    } else {
        "👋 Cześć, "@ + name + "! Miło Cię widzieć. Jak się masz?"@
    }
}

/// The farewell for a sarcasm level and name.
pub open spec fn farewell_text(sarcasm: u8, name: Seq<char>) -> Seq<char> {
    if sarcasm >= 70 {
        "👋 No to spadaj, "@ + name + ". Wracaj szybko, bo się nudzę. 😤"@
    } else if sarcasm >= 40 {
        "✌️ Pa, "@ + name + "! Trzymaj się i nie odpuszczaj."@
    } else {
        "🤗 Do zobaczenia, "@ + name + "! Byłoby mi miło znowu pogadać."@
    }
}

/// What validation says of a sarcasm level and name.
pub open spec fn validation(sarcasm: u8, name: Seq<char>) -> Result<(), PersonalityError> {
    if sarcasm > 100 {
        Err(PersonalityError::SarcasmOutOfRange(sarcasm))
    } else if name.len() == 0 {
        Err(PersonalityError::EmptyName)
    } else {
        Ok(())
    }
}

fn wrap(head: &str, name: &str, tail: &str) -> (r: String)
    ensures
        r@ == head@ + name@ + tail@,
{
    let mut r = String::new();
    push_str(&mut r, head);
    push_str(&mut r, name);
    push_str(&mut r, tail);
    r
}

impl Personality {
    /// The default personality, "ziomek" style.
    pub fn ziomek() -> (p: Self)
        ensures
            p.name@ == "Buddy"@,
            p.sarcasm_level == DEFAULT_SARCASM_LEVEL,
            p.invested,
            p.language@ == "pl"@,
    {
        Personality { name: "Buddy".to_owned(), sarcasm_level: DEFAULT_SARCASM_LEVEL, invested: true, language: "pl".to_owned() }
    }

    /// A professional personality: less sarcasm.
    pub fn professional() -> (p: Self)
        ensures
            p.name@ == "Buddy"@,
            p.sarcasm_level == 10,
            p.invested,
            p.language@ == "pl"@,
    {
        Personality { name: "Buddy".to_owned(), sarcasm_level: 10, invested: true, language: "pl".to_owned() }
    }

    /// A builder for a custom personality.
    pub fn builder() -> (b: PersonalityBuilder)
        ensures
            b.name is None,
            b.sarcasm_level is None,
            b.invested is None,
            b.language is None,
    {
        PersonalityBuilder { name: None, sarcasm_level: None, invested: None, language: None }
    }

    /// The morning greeting, more cheeky the more sarcastic Buddy is.
    pub fn greet(&self) -> (r: String)
        ensures
            r@ == greeting_text(self.sarcasm_level, self.name@),
    {
        if self.sarcasm_level >= 70 {
            wrap("🌅 No elo, ", self.name.as_str(), "! Co tam, leniu? 😏")
        } else if self.sarcasm_level >= 40 {
            wrap("☀️ Dzień dobry, ", self.name.as_str(), "! Gotowy na robotę?")
        } else {
            wrap("👋 Cześć, ", self.name.as_str(), "! Miło Cię widzieć. Jak się masz?")
        }
    }

    /// The farewell, more cheeky the more sarcastic Buddy is.
    pub fn farewell(&self) -> (r: String)
        ensures
            r@ == farewell_text(self.sarcasm_level, self.name@),
    {
        if self.sarcasm_level >= 70 {
            wrap("👋 No to spadaj, ", self.name.as_str(), ". Wracaj szybko, bo się nudzę. 😤")
        } else if self.sarcasm_level >= 40 {
            wrap("✌️ Pa, ", self.name.as_str(), "! Trzymaj się i nie odpuszczaj.")
        } else {
            wrap("🤗 Do zobaczenia, ", self.name.as_str(), "! Byłoby mi miło znowu pogadać.")
        }
    }

    /// Checks that the sarcasm level is at most 100 and the name not empty.
    pub fn validate(&self) -> (r: Result<(), PersonalityError>)
        ensures
            r == validation(self.sarcasm_level, self.name@),
    {
        if self.sarcasm_level > 100 {
            Err(PersonalityError::SarcasmOutOfRange(self.sarcasm_level))
        } else if self.name.as_str().is_empty() {
            Err(PersonalityError::EmptyName)
        } else {
            Ok(())
        }
    }
}

/// Builder for a custom personality.
#[derive(Debug, Clone)]
pub struct PersonalityBuilder {
    /// The name, where set.
    pub name: Option<String>,
    /// The sarcasm level in hundredths, where set.
    pub sarcasm_level: Option<u8>,
    /// Whether Buddy is invested, where set.
    pub invested: Option<bool>,
    /// The language, where set.
    pub language: Option<String>,
}

impl Default for PersonalityBuilder {
    /// Nothing set.
    fn default() -> (b: Self)
        ensures
            b.name is None,
            b.sarcasm_level is None,
            b.invested is None,
            b.language is None,
    {
        PersonalityBuilder { name: None, sarcasm_level: None, invested: None, language: None }
    }
}

impl PersonalityBuilder {
    /// Sets the name.
    pub fn name(self, name: &str) -> (b: Self)
        ensures
            b.name matches Some(n) && n@ == name@,
            b.sarcasm_level == self.sarcasm_level,
            b.invested == self.invested,
            b.language == self.language,
    {
        PersonalityBuilder { name: Some(name.to_owned()), ..self }
    }

    /// Sets the sarcasm level, in hundredths.
    pub fn sarcasm_level(self, level: u8) -> (b: Self)
        ensures
            b.sarcasm_level == Some(level),
            b.name == self.name,
            b.invested == self.invested,
            b.language == self.language,
    {
        PersonalityBuilder { sarcasm_level: Some(level), ..self }
    }

    /// Sets whether Buddy is invested.
    pub fn invested(self, invested: bool) -> (b: Self)
        ensures
            b.invested == Some(invested),
            b.name == self.name,
            b.sarcasm_level == self.sarcasm_level,
            b.language == self.language,
    {
        PersonalityBuilder { invested: Some(invested), ..self }
    }

    /// Sets the language.
    pub fn language(self, lang: &str) -> (b: Self)
        ensures
            b.language matches Some(l) && l@ == lang@,
            b.name == self.name,
            b.sarcasm_level == self.sarcasm_level,
            b.invested == self.invested,
    {
        PersonalityBuilder { language: Some(lang.to_owned()), ..self }
    }

    /// The personality, with `Buddy`, 30 hundredths of sarcasm, invested and
    /// `pl` for what was not set. The result must be valid.
    pub fn build(self) -> (p: Personality)
        requires
            self.sarcasm_level matches Some(s) ==> s <= 100,
            self.name matches Some(n) ==> n@.len() > 0,
        ensures
            p.name@ == match self.name { Some(n) => n@, None => "Buddy"@ },
            p.sarcasm_level == match self.sarcasm_level { Some(s) => s, None => DEFAULT_SARCASM_LEVEL },
            p.invested == match self.invested { Some(i) => i, None => true },
            p.language@ == match self.language { Some(l) => l@, None => "pl"@ },
            validation(p.sarcasm_level, p.name@) == Ok::<(), PersonalityError>(()),
    {
        let name = match self.name { Some(n) => n, None => "Buddy".to_owned() };
        let sarcasm_level = match self.sarcasm_level { Some(s) => s, None => DEFAULT_SARCASM_LEVEL };
        let invested = match self.invested { Some(i) => i, None => true };
        let language = match self.language { Some(l) => l, None => "pl".to_owned() };
        proof { reveal_strlit("Buddy"); }
        Personality { name, sarcasm_level, invested, language }
    }
}

} // verus!
