//! The languages that names can be requested in.
use vstd::prelude::*;

verus! {

/// A language of the Pokémon API, for localized names.
#[derive(Copy, Clone, PartialEq, Eq, PartialOrd, Ord, Debug)]
pub enum LanguageId {
    JaHrkt,
    JaRoma,
    Ko,
    ZhHant,
    Fr,
    De,
    Es,
    It,
    En,
    Cs,
    Ja,
    ZhHans,
    PtBr,
}

/// The identifier of a language, as given on the command line and
/// compared with the API's language names.
pub open spec fn language_code(l: LanguageId) -> Seq<char> {
    match l {
        LanguageId::JaHrkt => "ja-hrkt"@,
        LanguageId::JaRoma => "ja-roma"@,
        LanguageId::Ko => "ko"@,
        LanguageId::ZhHant => "zh-hant"@,
        LanguageId::Fr => "fr"@,
        LanguageId::De => "de"@,
        LanguageId::Es => "es"@,
        LanguageId::It => "it"@,
        LanguageId::En => "en"@,
        LanguageId::Cs => "cs"@,
        LanguageId::Ja => "ja"@,
        LanguageId::ZhHans => "zh-hans"@,
        LanguageId::PtBr => "pt-br"@,
    }
}

impl LanguageId {
    /// The identifier of this language (what it displays as).
    pub fn code(&self) -> (r: &'static str)
        ensures
            r@ == language_code(*self),
    {
        match self {
            LanguageId::JaHrkt => "ja-hrkt",
            LanguageId::JaRoma => "ja-roma",
            LanguageId::Ko => "ko",
            LanguageId::ZhHant => "zh-hant",
            LanguageId::Fr => "fr",
            LanguageId::De => "de",
            LanguageId::Es => "es",
            LanguageId::It => "it",
            LanguageId::En => "en",
            LanguageId::Cs => "cs",
            LanguageId::Ja => "ja",
            LanguageId::ZhHans => "zh-hans",
            LanguageId::PtBr => "pt-br",
        }
    }
}

/// Each language is asked for by its own API identifier, the name it has on
/// the command line: the identifiers are exactly these, and no two
/// languages share one.
pub proof fn law_language_codes()
    ensures
        language_code(LanguageId::JaHrkt) =~= seq!['j', 'a', '-', 'h', 'r', 'k', 't'],
        language_code(LanguageId::JaRoma) =~= seq!['j', 'a', '-', 'r', 'o', 'm', 'a'],
        language_code(LanguageId::Ko) =~= seq!['k', 'o'],
        language_code(LanguageId::ZhHant) =~= seq!['z', 'h', '-', 'h', 'a', 'n', 't'],
        language_code(LanguageId::Fr) =~= seq!['f', 'r'],
        language_code(LanguageId::De) =~= seq!['d', 'e'],
        language_code(LanguageId::Es) =~= seq!['e', 's'],
        language_code(LanguageId::It) =~= seq!['i', 't'],
        language_code(LanguageId::En) =~= seq!['e', 'n'],
        language_code(LanguageId::Cs) =~= seq!['c', 's'],
        language_code(LanguageId::Ja) =~= seq!['j', 'a'],
        language_code(LanguageId::ZhHans) =~= seq!['z', 'h', '-', 'h', 'a', 'n', 's'],
        language_code(LanguageId::PtBr) =~= seq!['p', 't', '-', 'b', 'r'],
        forall|a: LanguageId, b: LanguageId| language_code(a) == language_code(b) ==> a == b,
{
    reveal_strlit("ja-hrkt");
    reveal_strlit("ja-roma");
    reveal_strlit("ko");
    reveal_strlit("zh-hant");
    reveal_strlit("fr");
    reveal_strlit("de");
    reveal_strlit("es");
    reveal_strlit("it");
    reveal_strlit("en");
    reveal_strlit("cs");
    reveal_strlit("ja");
    reveal_strlit("zh-hans");
    reveal_strlit("pt-br");
    assert forall|a: LanguageId, b: LanguageId| language_code(a) == language_code(b) implies a == b by {
        let x = language_code(a);
        let y = language_code(b);
        assert(x.len() == y.len());
        assert(x[0] == y[0] && x[1] == y[1]);
        if x.len() > 2 {
            assert(x[4] == y[4] && x[6] == y[6]);
        }
    }
}

} // verus!
