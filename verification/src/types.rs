//! Types shared by several resources.

use vstd::prelude::*;

verus! {

/// Languages supported by the Steam store.
#[derive(Clone, Copy, Debug, Hash, PartialEq, Eq, Structural)]
pub enum Language {
    All,
    Arabic,
    Bulgarian,
    Schinese,
    Tchinese,
    Czech,
    Danish,
    Dutch,
    English,
    Finnish,
    French,
    German,
    Greek,
    Hungarian,
    Indonesian,
    Italian,
    Japanese,
    Koreana,
    Norwegian,
    Polish,
    Portuguese,
    Brazilian,
    Romanian,
    Russian,
    Spanish,
    Latam,
    Swedish,
    Thai,
    Turkish,
    Ukrainian,
    Vietnamese,
}

impl Language {
    /// The token that names the language in a query.
    pub open spec fn token(self) -> Seq<char> {
        match self {
            Language::All => "all"@,
            Language::Arabic => "arabic"@,
            Language::Bulgarian => "bulgarian"@,
            Language::Schinese => "schinese"@,
            Language::Tchinese => "tchinese"@,
            Language::Czech => "czech"@,
            Language::Danish => "danish"@,
            Language::Dutch => "dutch"@,
            Language::English => "english"@,
            Language::Finnish => "finnish"@,
            Language::French => "french"@,
            Language::German => "german"@,
            Language::Greek => "greek"@,
            Language::Hungarian => "hungarian"@,
            Language::Indonesian => "indonesian"@,
            Language::Italian => "italian"@,
            Language::Japanese => "japanese"@,
            Language::Koreana => "koreana"@,
            Language::Norwegian => "norwegian"@,
            Language::Polish => "polish"@,
            Language::Portuguese => "portuguese"@,
            Language::Brazilian => "brazilian"@,
            Language::Romanian => "romanian"@,
            Language::Russian => "russian"@,
            Language::Spanish => "spanish"@,
            Language::Latam => "latam"@,
            Language::Swedish => "swedish"@,
            Language::Thai => "thai"@,
            Language::Turkish => "turkish"@,
            Language::Ukrainian => "ukrainian"@,
            Language::Vietnamese => "vietnamese"@,
        }
    }
}

impl Default for Language {
    fn default() -> (language: Self)
        ensures
            language == Language::All,
    {
        Language::All
    }
}

impl AsRef<str> for Language {
    fn as_ref(&self) -> (token: &str)
        ensures
            token@ == self.token(),
    {
        match self {
            Language::All => "all",
            Language::Arabic => "arabic",
            Language::Bulgarian => "bulgarian",
            Language::Schinese => "schinese",
            Language::Tchinese => "tchinese",
            Language::Czech => "czech",
            Language::Danish => "danish",
            Language::Dutch => "dutch",
            Language::English => "english",
            Language::Finnish => "finnish",
            Language::French => "french",
            Language::German => "german",
            Language::Greek => "greek",
            Language::Hungarian => "hungarian",
            Language::Indonesian => "indonesian",
            Language::Italian => "italian",
            Language::Japanese => "japanese",
            Language::Koreana => "koreana",
            Language::Norwegian => "norwegian",
            Language::Polish => "polish",
            Language::Portuguese => "portuguese",
            Language::Brazilian => "brazilian",
            Language::Romanian => "romanian",
            Language::Russian => "russian",
            Language::Spanish => "spanish",
            Language::Latam => "latam",
            Language::Swedish => "swedish",
            Language::Thai => "thai",
            Language::Turkish => "turkish",
            Language::Ukrainian => "ukrainian",
            Language::Vietnamese => "vietnamese",
        }
    }
}

/// Languages are told apart by their tokens: no two share one.
pub proof fn lemma_language_tokens_differ(a: Language, b: Language)
    requires
        a != b,
    ensures
        a.token() != b.token(),
{
    reveal_strlit("all");
    reveal_strlit("arabic");
    reveal_strlit("bulgarian");
    reveal_strlit("schinese");
    reveal_strlit("tchinese");
    reveal_strlit("czech");
    reveal_strlit("danish");
    reveal_strlit("dutch");
    reveal_strlit("english");
    reveal_strlit("finnish");
    reveal_strlit("french");
    reveal_strlit("german");
    reveal_strlit("greek");
    reveal_strlit("hungarian");
    reveal_strlit("indonesian");
    reveal_strlit("italian");
    reveal_strlit("japanese");
    reveal_strlit("koreana");
    reveal_strlit("norwegian");
    reveal_strlit("polish");
    reveal_strlit("portuguese");
    reveal_strlit("brazilian");
    reveal_strlit("romanian");
    reveal_strlit("russian");
    reveal_strlit("spanish");
    reveal_strlit("latam");
    reveal_strlit("swedish");
    reveal_strlit("thai");
    reveal_strlit("turkish");
    reveal_strlit("ukrainian");
    reveal_strlit("vietnamese");
    let s = a.token();
    let t = b.token();
    if s.len() == t.len() {
        assert(s[0] != t[0] || s[1] != t[1] || s[2] != t[2]);
    }
}

/// The operating systems that a product runs on.
#[derive(Hash, Debug)]
pub struct Platforms {
    pub windows: bool,
    pub mac: bool,
    pub linux: bool,
}

/// When a product was or will be released.
#[derive(Hash, Debug)]
pub struct ReleaseDate {
    pub coming_soon: Option<bool>,
    pub date: Option<String>,
    pub steam: Option<String>,
}

} // verus!
