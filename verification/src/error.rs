//! What can go wrong while building or reading the table, and the message
//! shown for each case.
use vstd::prelude::*;
use crate::text::string_from;
use crate::number::{decimal, decimal_string};
use crate::cli::APP_NAME;
use crate::record::HEADER;

verus! {

/// A failure while building or reading the table.
#[derive(Debug)]
pub enum FilterError {
    /// The species with this name could not be retrieved.
    SpeciesName(String),
    /// The species with this national Pokédex number could not be retrieved.
    SpeciesId(i64),
    /// The Pokémon variety with this name could not be retrieved.
    Variety(String),
    /// The generation with this name could not be retrieved.
    Generation(String),
    /// The evolution chain of the species with this name could not be retrieved.
    EvolutionChain(String),
    /// The forms of the Pokémon with this name could not be retrieved.
    Forms(String),
    /// The named resource could not be retrieved.
    Resource(String),
    /// The resource (first) has no name in the language (second).
    MissingName(String, String),
    /// No Pokédex number could be found to order the Pokémon by.
    MissingOrdering,
    /// A column key that the table does not know.
    InvalidKey(String),
    /// The output file (its path) exists and may not be overwritten.
    FileExists(String),
    /// The output file (its path) could not be created, for the reason given.
    FileCreate(String, String),
    /// The output file (its path) could not be written, for the reason given.
    FileWrite(String, String),
    /// The table file (its path) does not exist.
    InvalidFile(String),
    /// The table file (its path) could not be opened, for the reason given.
    FileOpen(String, String),
    /// A record of the table could not be read; the reader's own message.
    Record(String),
}

/// A `FilterError` with its texts taken as character sequences.
pub enum FilterErrorView {
    SpeciesName(Seq<char>),
    SpeciesId(i64),
    Variety(Seq<char>),
    Generation(Seq<char>),
    EvolutionChain(Seq<char>),
    Forms(Seq<char>),
    Resource(Seq<char>),
    MissingName(Seq<char>, Seq<char>),
    MissingOrdering,
    InvalidKey(Seq<char>),
    FileExists(Seq<char>),
    FileCreate(Seq<char>, Seq<char>),
    FileWrite(Seq<char>, Seq<char>),
    InvalidFile(Seq<char>),
    FileOpen(Seq<char>, Seq<char>),
    Record(Seq<char>),
}

impl View for FilterError {
    type V = FilterErrorView;

    open spec fn view(&self) -> FilterErrorView {
        match self {
            FilterError::SpeciesName(s) => FilterErrorView::SpeciesName(s@),
            FilterError::SpeciesId(n) => FilterErrorView::SpeciesId(*n),
            FilterError::Variety(s) => FilterErrorView::Variety(s@),
            FilterError::Generation(s) => FilterErrorView::Generation(s@),
            FilterError::EvolutionChain(s) => FilterErrorView::EvolutionChain(s@),
            FilterError::Forms(s) => FilterErrorView::Forms(s@),
            FilterError::Resource(s) => FilterErrorView::Resource(s@),
            FilterError::MissingName(s, l) => FilterErrorView::MissingName(s@, l@),
            FilterError::MissingOrdering => FilterErrorView::MissingOrdering,
            FilterError::InvalidKey(s) => FilterErrorView::InvalidKey(s@),
            FilterError::FileExists(s) => FilterErrorView::FileExists(s@),
            FilterError::FileCreate(s, w) => FilterErrorView::FileCreate(s@, w@),
            FilterError::FileWrite(s, w) => FilterErrorView::FileWrite(s@, w@),
            FilterError::InvalidFile(s) => FilterErrorView::InvalidFile(s@),
            FilterError::FileOpen(s, w) => FilterErrorView::FileOpen(s@, w@),
            FilterError::Record(s) => FilterErrorView::Record(s@),
        }
    }
}

/// The message shown for an error; `on` and `off` surround the word `tip:`
/// (a terminal style and its reset, or nothing).
pub open spec fn message_text(e: FilterErrorView, on: Seq<char>, off: Seq<char>) -> Seq<char> {
    match e {
        FilterErrorView::SpeciesName(s) => "API error: could not retrieve species "@ + s,
        FilterErrorView::SpeciesId(n) => "API error: could not retrieve species with ID "@
            + decimal(n as int),
        FilterErrorView::Variety(s) => "API error: could not retrieve species variety: "@ + s,
        FilterErrorView::Generation(s) => "API error: could not retrieve generation "@ + s,
        FilterErrorView::EvolutionChain(s) => "API error: could not retrieve evolution_chain for "@
            + s,
        FilterErrorView::Forms(s) => "API error: could not retrieve pokemon forms for "@ + s,
        FilterErrorView::Resource(s) => "API error: could not retrieve "@ + s,
        FilterErrorView::MissingName(s, l) => "API error: no "@ + l + " name for "@ + s,
        FilterErrorView::MissingOrdering => "failed to retrieve appropriate pokedex ordering"@,
        FilterErrorView::InvalidKey(k) => "invalid key: "@ + k + "\n\n"@ + on + "tip:"@ + off
            + " valid options are "@ + HEADER@,
        FilterErrorView::FileExists(p) => "file "@ + p + " already exists\n\n"@ + on + "tip:"@
            + off + " to overwrite it, run '"@ + APP_NAME@ + " build --force'"@,
        FilterErrorView::FileCreate(p, w) => "error creating file "@ + p + ": "@ + w,
        FilterErrorView::FileWrite(p, w) => "error writing to file "@ + p + ": "@ + w,
        FilterErrorView::InvalidFile(p) => "invalid file: "@ + p,
        FilterErrorView::FileOpen(p, w) => "error opening file "@ + p + ": "@ + w,
        FilterErrorView::Record(m) => m,
    }
}

/// The texts of a list of results when all of them succeed, else the error
/// of the first that fails.
pub open spec fn first_error(rs: Seq<Result<Seq<char>, FilterErrorView>>) -> Result<Seq<Seq<char>>, FilterErrorView>
    decreases rs.len(),
{
    if rs.len() == 0 {
        Ok(Seq::empty())
    } else {
        match first_error(rs.drop_last()) {
            Err(e) => Err(e),
            Ok(v) => match rs.last() {
                Err(e) => Err(e),
                Ok(s) => Ok(v.push(s)),
            },
        }
    }
}

/// An error among the first results is the error of all of them.
pub proof fn lemma_first_error_prefix(rs: Seq<Result<Seq<char>, FilterErrorView>>, k: int)
    requires
        0 <= k <= rs.len(),
        first_error(rs.take(k)) is Err,
    ensures
        first_error(rs) == first_error(rs.take(k)),
    decreases rs.len(),
{
    if k < rs.len() {
        assert(rs.drop_last().take(k) == rs.take(k));
        lemma_first_error_prefix(rs.drop_last(), k);
    } else {
        assert(rs.take(k) == rs);
    }
}

/// A result with its text taken as a character sequence.
pub open spec fn result_view(r: Result<String, FilterError>) -> Result<Seq<char>, FilterErrorView> {
    match r {
        Ok(s) => Ok(s@),
        Err(e) => Err(e@),
    }
}

/// A result with its texts taken as character sequences.
pub open spec fn results_view(r: Result<Vec<String>, FilterError>) -> Result<Seq<Seq<char>>, FilterErrorView> {
    match r {
        Ok(v) => Ok(v.deep_view()),
        Err(e) => Err(e@),
    }
}

/// `head` followed by `tail`.
fn joined(head: &str, tail: &str) -> (r: String)
    ensures
        r@ == head@ + tail@,
{
    let mut r = string_from(head);
    r.append(tail);
    r
}

impl FilterError {
    /// The message shown for this error; `on` and `off` surround the word
    /// `tip:` where the message holds one.
    pub fn message(&self, on: &str, off: &str) -> (r: String)
        ensures
            r@ == message_text(self@, on@, off@),
    {
        match self {
            FilterError::SpeciesName(s) => joined("API error: could not retrieve species ", s.as_str()),
            FilterError::SpeciesId(n) => {
                let d = decimal_string(*n);
                joined("API error: could not retrieve species with ID ", d.as_str())
            },
            FilterError::Variety(s) => joined("API error: could not retrieve species variety: ", s.as_str()),
            FilterError::Generation(s) => joined("API error: could not retrieve generation ", s.as_str()),
            FilterError::EvolutionChain(s) => joined(
                "API error: could not retrieve evolution_chain for ",
                s.as_str(),
            ),
            FilterError::Forms(s) => joined("API error: could not retrieve pokemon forms for ", s.as_str()),
            FilterError::Resource(s) => joined("API error: could not retrieve ", s.as_str()),
            FilterError::MissingName(s, l) => {
                let mut r = joined("API error: no ", l.as_str());
                r.append(" name for ");
                r.append(s.as_str());
                r
            },
            FilterError::MissingOrdering => string_from("failed to retrieve appropriate pokedex ordering"),
            FilterError::InvalidKey(k) => {
                let mut r = joined("invalid key: ", k.as_str());
                r.append("\n\n");
                r.append(on);
                r.append("tip:");
                r.append(off);
                r.append(" valid options are ");
                r.append(HEADER);
                r
            },
            FilterError::FileExists(p) => {
                let mut r = joined("file ", p.as_str());
                r.append(" already exists\n\n");
                r.append(on);
                r.append("tip:");
                r.append(off);
                r.append(" to overwrite it, run '");
                r.append(APP_NAME);
                r.append(" build --force'");
                r
            },
            FilterError::FileCreate(p, w) => {
                let mut r = joined("error creating file ", p.as_str());
                r.append(": ");
                r.append(w.as_str());
                r
            },
            FilterError::FileWrite(p, w) => {
                let mut r = joined("error writing to file ", p.as_str());
                r.append(": ");
                r.append(w.as_str());
                r
            },
            FilterError::InvalidFile(p) => joined("invalid file: ", p.as_str()),
            FilterError::FileOpen(p, w) => {
                let mut r = joined("error opening file ", p.as_str());
                r.append(": ");
                r.append(w.as_str());
                r
            },
            FilterError::Record(m) => string_from(m.as_str()),
        }
    }
}

/// The texts of results that all succeed are their texts in order; when
/// one fails, the error is that of the first that fails.
pub proof fn law_first_error(rs: Seq<Result<Seq<char>, FilterErrorView>>)
    ensures
        (forall|i: int| 0 <= i < rs.len() ==> (#[trigger] rs[i]) is Ok) ==> (first_error(rs) matches Ok(v)
            && v.len() == rs.len() && forall|i: int| 0 <= i < rs.len() ==> Ok::<Seq<char>, FilterErrorView>(#[trigger] v[i]) == rs[i]),
        forall|k: int| 0 <= k < rs.len() && (#[trigger] rs[k]) is Err && (forall|j: int| 0 <= j < k ==> (#[trigger] rs[j]) is Ok)
            ==> first_error(rs) == Err::<Seq<Seq<char>>, FilterErrorView>(rs[k]->Err_0),
    decreases rs.len(),
{
    if rs.len() > 0 {
        let init = rs.drop_last();
        law_first_error(init);
        if forall|i: int| 0 <= i < rs.len() ==> (#[trigger] rs[i]) is Ok {
            assert forall|i: int| 0 <= i < init.len() implies (#[trigger] init[i]) is Ok by {
                assert(init[i] == rs[i]);
            }
            assert(rs[rs.len() - 1] is Ok);
            let v = first_error(rs)->Ok_0;
            let w = first_error(init)->Ok_0;
            assert forall|i: int| 0 <= i < rs.len() implies Ok::<Seq<char>, FilterErrorView>(#[trigger] v[i]) == rs[i] by {
                if i < init.len() {
                    assert(v[i] == w[i]);
                    assert(init[i] == rs[i]);
                }
            }
        }
        assert forall|k: int| 0 <= k < rs.len() && (#[trigger] rs[k]) is Err && (forall|j: int| 0 <= j < k ==> (#[trigger] rs[j]) is Ok)
            implies first_error(rs) == Err::<Seq<Seq<char>>, FilterErrorView>(rs[k]->Err_0) by {
            if k < init.len() {
                assert(init[k] == rs[k]);
                assert forall|j: int| 0 <= j < k implies (#[trigger] init[j]) is Ok by {
                    assert(init[j] == rs[j]);
                }
            } else {
                assert forall|i: int| 0 <= i < init.len() implies (#[trigger] init[i]) is Ok by {
                    assert(init[i] == rs[i]);
                }
            }
        }
    }
}

/// The text shown for each error, over its parts.
pub proof fn law_messages(s: Seq<char>, t: Seq<char>, n: i64, on: Seq<char>, off: Seq<char>)
    ensures
        message_text(FilterErrorView::SpeciesName(s), on, off) == "API error: could not retrieve species "@ + s,
        message_text(FilterErrorView::SpeciesId(n), on, off) == "API error: could not retrieve species with ID "@
            + decimal(n as int),
        message_text(FilterErrorView::Variety(s), on, off) == "API error: could not retrieve species variety: "@ + s,
        message_text(FilterErrorView::Generation(s), on, off) == "API error: could not retrieve generation "@ + s,
        message_text(FilterErrorView::EvolutionChain(s), on, off)
            == "API error: could not retrieve evolution_chain for "@ + s,
        message_text(FilterErrorView::Forms(s), on, off) == "API error: could not retrieve pokemon forms for "@ + s,
        message_text(FilterErrorView::Resource(s), on, off) == "API error: could not retrieve "@ + s,
        message_text(FilterErrorView::MissingName(s, t), on, off) == "API error: no "@ + t + " name for "@ + s,
        message_text(FilterErrorView::MissingOrdering, on, off) == "failed to retrieve appropriate pokedex ordering"@,
        message_text(FilterErrorView::InvalidKey(s), on, off) == "invalid key: "@ + s + "\n\n"@ + on + "tip:"@ + off
            + " valid options are "@ + HEADER@,
        message_text(FilterErrorView::FileExists(s), on, off) == "file "@ + s + " already exists\n\n"@ + on + "tip:"@
            + off + " to overwrite it, run 'pokefilter build --force'"@,
        message_text(FilterErrorView::FileCreate(s, t), on, off) == "error creating file "@ + s + ": "@ + t,
        message_text(FilterErrorView::FileWrite(s, t), on, off) == "error writing to file "@ + s + ": "@ + t,
        message_text(FilterErrorView::InvalidFile(s), on, off) == "invalid file: "@ + s,
        message_text(FilterErrorView::FileOpen(s, t), on, off) == "error opening file "@ + s + ": "@ + t,
        message_text(FilterErrorView::Record(s), on, off) == s,
{
    reveal_strlit("pokefilter");
    reveal_strlit(" build --force'");
    reveal_strlit(" to overwrite it, run '");
    reveal_strlit(" to overwrite it, run 'pokefilter build --force'");
    assert(" to overwrite it, run 'pokefilter build --force'"@ =~= " to overwrite it, run '"@ + APP_NAME@
        + " build --force'"@);
}

} // verus!
