//! Choosing the name of a resource in the requested language.
use vstd::prelude::*;
use crate::text::{chars_of, eq_str, string_from};
use crate::error::{FilterError, FilterErrorView, first_error, lemma_first_error_prefix, results_view};

verus! {

/// A name of a resource in one language.
#[derive(Clone, Debug)]
pub struct LocalName {
    /// The language's identifier; `None` when it could not be retrieved.
    pub language: Option<String>,
    /// The name in that language.
    pub name: String,
}

/// A resource of the API (an identifier) with its names.
#[derive(Clone, Debug)]
pub struct Named {
    /// The resource's identifier.
    pub resource: String,
    /// Its names in various languages.
    pub names: Vec<LocalName>,
}

/// A form of a Pokémon with its names.
#[derive(Clone, Debug)]
pub struct FormNames {
    /// Whether this is the form a Pokémon takes by default.
    pub is_default: bool,
    /// The form's names in various languages.
    pub names: Vec<LocalName>,
}

/// The name is in the language `lang`.
pub open spec fn is_in(n: LocalName, lang: Seq<char>) -> bool {
    n.language matches Some(l) && l@ == lang
}

/// The first of `names` that is in the language `lang`.
pub open spec fn name_in(names: Seq<LocalName>, lang: Seq<char>) -> Option<Seq<char>>
    decreases names.len(),
{
    if names.len() == 0 {
        None
    } else if is_in(names[0], lang) {
        Some(names[0].name@)
    } else {
        name_in(names.drop_first(), lang)
    }
}

/// The name of a Pokémon's shown form: the first default form that has
/// names decides, by its name in `lang`, if it has one.
pub open spec fn form_name(forms: Seq<FormNames>, lang: Seq<char>) -> Option<Seq<char>>
    decreases forms.len(),
{
    if forms.len() == 0 {
        None
    } else if forms[0].is_default && forms[0].names@.len() > 0 {
        name_in(forms[0].names@, lang)
    } else {
        form_name(forms.drop_first(), lang)
    }
}

/// The name of a resource in `lang`, or the error that it has none.
pub open spec fn local_name(n: Named, lang: Seq<char>) -> Result<Seq<char>, FilterErrorView> {
    match name_in(n.names@, lang) {
        Some(s) => Ok(s),
        None => Err(FilterErrorView::MissingName(n.resource@, lang)),
    }
}

/// The names of resources in `lang`, or the error of the first that has
/// none.
pub open spec fn local_names(items: Seq<Named>, lang: Seq<char>) -> Result<Seq<Seq<char>>, FilterErrorView> {
    first_error(Seq::new(items.len(), |i: int| local_name(items[i], lang)))
}

/// The name of a Pokémon in `lang`: its shown form's name, else its
/// species' name (`species`), or the error that the species has none.
pub open spec fn pokemon_name(forms: Seq<FormNames>, species: Named, lang: Seq<char>) -> Result<Seq<char>, FilterErrorView> {
    match form_name(forms, lang) {
        Some(s) => Ok(s),
        None => local_name(species, lang),
    }
}

/// An optional text taken as an optional character sequence.
pub open spec fn opt_view(o: Option<String>) -> Option<Seq<char>> {
    match o {
        Some(s) => Some(s@),
        None => None,
    }
}

/// The first of `names` in the language `lang`.
pub fn name_in_language(names: &Vec<LocalName>, lang: &str) -> (r: Option<String>)
    ensures
        opt_view(r) == name_in(names@, lang@),
{
    let mut i: usize = 0;
    assert(names@.skip(0) == names@);
    while i < names.len()
        invariant
            i <= names.len(),
            name_in(names@.skip(i as int), lang@) == name_in(names@, lang@),
        decreases names.len() - i,
    {
        let ghost rest = names@.skip(i as int);
        assert(rest.drop_first() == names@.skip(i + 1));
        assert(rest[0] == names@[i as int]);
        if let Some(l) = &names[i].language {
            let lc = chars_of(l.as_str());
            if eq_str(&lc, lang) {
                return Some(names[i].name.clone());
            }
        }
        i = i + 1;
    }
    None
}

/// The name of a Pokémon's shown form in `lang`.
pub fn form_name_of(forms: &Vec<FormNames>, lang: &str) -> (r: Option<String>)
    ensures
        opt_view(r) == form_name(forms@, lang@),
{
    let mut i: usize = 0;
    assert(forms@.skip(0) == forms@);
    while i < forms.len()
        invariant
            i <= forms.len(),
            form_name(forms@.skip(i as int), lang@) == form_name(forms@, lang@),
        decreases forms.len() - i,
    {
        let ghost rest = forms@.skip(i as int);
        assert(rest.drop_first() == forms@.skip(i + 1));
        assert(rest[0] == forms@[i as int]);
        if forms[i].is_default && forms[i].names.len() > 0 {
            return name_in_language(&forms[i].names, lang);
        }
        i = i + 1;
    }
    None
}

/// The name of a resource in `lang`.
pub fn local_name_of(n: &Named, lang: &str) -> (r: Result<String, FilterError>)
    ensures
        crate::error::result_view(r) == local_name(*n, lang@),
{
    match name_in_language(&n.names, lang) {
        Some(s) => Ok(s),
        None => Err(FilterError::MissingName(n.resource.clone(), string_from(lang))),
    }
}

/// The names of resources in `lang`.
pub fn local_names_of(items: &Vec<Named>, lang: &str) -> (r: Result<Vec<String>, FilterError>)
    ensures
        results_view(r) == local_names(items@, lang@),
{
    let ghost rs = Seq::new(items@.len(), |i: int| local_name(items@[i], lang@));
    let mut out: Vec<String> = Vec::new();
    let mut i: usize = 0;
    assert(rs.take(0) =~= Seq::<Result<Seq<char>, FilterErrorView>>::empty());
    assert(out.deep_view() =~= Seq::<Seq<char>>::empty());
    while i < items.len()
        invariant
            i <= items.len(),
            out@.len() == i,
            rs == Seq::new(items@.len(), |i: int| local_name(items@[i], lang@)),
            first_error(rs.take(i as int)) == Ok::<Seq<Seq<char>>, FilterErrorView>(out.deep_view()),
        decreases items.len() - i,
    {
        let ghost t = rs.take(i + 1);
        assert(t.drop_last() == rs.take(i as int));
        assert(t.last() == local_name(items@[i as int], lang@));
        let r = local_name_of(&items[i], lang);
        match r {
            Err(e) => {
                proof {
                    lemma_first_error_prefix(rs, i + 1);
                }
                return Err(e);
            },
            Ok(s) => {
                let ghost before = out;
                out.push(s);
                proof {
                    crate::text::lemma_deep_view_push(before, out, out@[i as int]);
                }
            },
        }
        i = i + 1;
    }
    assert(rs.take(items.len() as int) == rs);
    Ok(out)
}

/// The name of a Pokémon in `lang`: its shown form's, else its species'.
pub fn pokemon_name_of(forms: &Vec<FormNames>, species: &Named, lang: &str) -> (r: Result<String, FilterError>)
    ensures
        crate::error::result_view(r) == pokemon_name(forms@, *species, lang@),
{
    match form_name_of(forms, lang) {
        Some(s) => Ok(s),
        None => local_name_of(species, lang),
    }
}

/// The name in a language is the first name whose language identifier is
/// that language's; without one there is none, and a resource without one
/// gives the error naming the resource and the language.
pub proof fn law_name_choice(names: Seq<LocalName>, lang: Seq<char>, resource: Named)
    ensures
        forall|k: int| 0 <= k < names.len() && (#[trigger] names[k]).language is Some
            && names[k].language->0@ == lang && (forall|j: int| 0 <= j < k ==> !((#[trigger] names[j]).language is Some
            && names[j].language->0@ == lang)) ==> name_in(names, lang) == Some(names[k].name@),
        (forall|j: int| 0 <= j < names.len() ==> !((#[trigger] names[j]).language is Some
            && names[j].language->0@ == lang)) ==> name_in(names, lang) is None,
        name_in(resource.names@, lang) is None ==> local_name(resource, lang)
            == Err::<Seq<char>, FilterErrorView>(FilterErrorView::MissingName(resource.resource@, lang)),
        name_in(resource.names@, lang) matches Some(n) ==> local_name(resource, lang) == Ok::<Seq<char>, FilterErrorView>(n),
    decreases names.len(),
{
    if names.len() > 0 {
        let rest = names.drop_first();
        law_name_choice(rest, lang, resource);
        assert forall|k: int| 0 <= k < names.len() && (#[trigger] names[k]).language is Some
            && names[k].language->0@ == lang && (forall|j: int| 0 <= j < k ==> !((#[trigger] names[j]).language is Some
            && names[j].language->0@ == lang)) implies name_in(names, lang) == Some(names[k].name@) by {
            if k > 0 {
                assert(!is_in(names[0], lang));
                assert(rest[k - 1] == names[k]);
                assert forall|j: int| 0 <= j < k - 1 implies !((#[trigger] rest[j]).language is Some
                    && rest[j].language->0@ == lang) by {
                    assert(rest[j] == names[j + 1]);
                }
            }
        }
        if forall|j: int| 0 <= j < names.len() ==> !((#[trigger] names[j]).language is Some
            && names[j].language->0@ == lang) {
            assert(!is_in(names[0], lang));
            assert forall|j: int| 0 <= j < rest.len() implies !((#[trigger] rest[j]).language is Some
                && rest[j].language->0@ == lang) by {
                assert(rest[j] == names[j + 1]);
            }
        }
    }
}

/// A Pokémon's shown form is the first default form that has names: its
/// name in the language decides; with no such form there is none, and the
/// Pokémon's name is then its species' name in the language.
pub proof fn law_form_choice(forms: Seq<FormNames>, species: Named, lang: Seq<char>)
    ensures
        forall|k: int| 0 <= k < forms.len() && (#[trigger] forms[k]).is_default && forms[k].names@.len() > 0
            && (forall|j: int| 0 <= j < k ==> !((#[trigger] forms[j]).is_default && forms[j].names@.len() > 0))
            ==> form_name(forms, lang) == name_in(forms[k].names@, lang),
        (forall|j: int| 0 <= j < forms.len() ==> !((#[trigger] forms[j]).is_default && forms[j].names@.len() > 0))
            ==> form_name(forms, lang) is None,
        form_name(forms, lang) matches Some(n) ==> pokemon_name(forms, species, lang) == Ok::<Seq<char>, FilterErrorView>(n),
        form_name(forms, lang) is None ==> pokemon_name(forms, species, lang) == local_name(species, lang),
    decreases forms.len(),
{
    if forms.len() > 0 {
        let rest = forms.drop_first();
        law_form_choice(rest, species, lang);
        assert forall|k: int| 0 <= k < forms.len() && (#[trigger] forms[k]).is_default && forms[k].names@.len() > 0
            && (forall|j: int| 0 <= j < k ==> !((#[trigger] forms[j]).is_default && forms[j].names@.len() > 0))
            implies form_name(forms, lang) == name_in(forms[k].names@, lang) by {
            if k > 0 {
                assert(!(forms[0].is_default && forms[0].names@.len() > 0));
                assert(rest[k - 1] == forms[k]);
                assert forall|j: int| 0 <= j < k - 1 implies !((#[trigger] rest[j]).is_default
                    && rest[j].names@.len() > 0) by {
                    assert(rest[j] == forms[j + 1]);
                }
            }
        }
        if forall|j: int| 0 <= j < forms.len() ==> !((#[trigger] forms[j]).is_default && forms[j].names@.len() > 0) {
            assert(!(forms[0].is_default && forms[0].names@.len() > 0));
            assert forall|j: int| 0 <= j < rest.len() implies !((#[trigger] rest[j]).is_default
                && rest[j].names@.len() > 0) by {
                assert(rest[j] == forms[j + 1]);
            }
        }
    }
}

/// The names of several resources are the name of each, in order, or the
/// error of the first without one.
pub proof fn law_names_in_order(items: Seq<Named>, lang: Seq<char>)
    ensures
        (forall|i: int| 0 <= i < items.len() ==> (#[trigger] local_name(items[i], lang)) is Ok)
            ==> (local_names(items, lang) matches Ok(v) && v.len() == items.len()
            && forall|i: int| 0 <= i < items.len() ==> Ok::<Seq<char>, FilterErrorView>(#[trigger] v[i]) == local_name(items[i], lang)),
        forall|k: int| 0 <= k < items.len() && (#[trigger] local_name(items[k], lang)) is Err
            && (forall|j: int| 0 <= j < k ==> (#[trigger] local_name(items[j], lang)) is Ok)
            ==> local_names(items, lang) == Err::<Seq<Seq<char>>, FilterErrorView>(local_name(items[k], lang)->Err_0),
{
    let rs = Seq::new(items.len(), |i: int| local_name(items[i], lang));
    crate::error::law_first_error(rs);
    assert forall|i: int| 0 <= i < items.len() implies rs[i] == #[trigger] local_name(items[i], lang) by {}
}

} // verus!
