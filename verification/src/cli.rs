//! The command line of the program, as plain data, and what it selects.
use vstd::prelude::*;
use crate::enums::LanguageId;
use crate::text::string_from;

verus! {

/// The program's name.
pub const APP_NAME: &'static str = "pokefilter";

/// The national Pokédex number of the newest species.
pub const LAST_SPECIES_ID: i64 = 1025;

/// The command line: one subcommand.
#[derive(Debug)]
pub struct Args {
    pub command: SubArgs,
}

/// The subcommands.
#[derive(Debug)]
pub enum SubArgs {
    /// Build the cached CSV file for quick searches.
    Build {
        /// Overwrite the file if one exists.
        force: bool,
        /// Which Pokémon to build rows for.
        range_opts: BuildOpts,
        /// The output file's path.
        output: Option<String>,
        /// The language of the names written.
        lang: LanguageId,
        /// The cache directory for API calls.
        cache_dir: Option<String>,
    },
}

/// Which Pokémon to build rows for; the command line gives exactly one of
/// these.
#[derive(Clone, Debug)]
pub struct BuildOpts {
    /// All Pokémon.
    pub all: bool,
    /// The species with this name.
    pub pokemon: Option<String>,
    /// All species from the first name's to the second name's, inclusive.
    pub pokerange: Option<Vec<String>>,
    /// The species with this national Pokédex number.
    pub dexnum: Option<i64>,
    /// All species between the two national Pokédex numbers, inclusive.
    pub dexrange: Option<Vec<i64>>,
}

/// The program's name.
pub fn get_appname() -> (r: String)
    ensures
        r@ == APP_NAME@,
{
    string_from(APP_NAME)
}

impl BuildOpts {
    /// The species names whose national numbers `species_range` needs, in
    /// the order in which they are looked up.
    pub open spec fn species_names_spec(&self) -> Seq<Seq<char>> {
        match &self.pokemon {
            Some(p) => seq![p@],
            None => match &self.pokerange {
                Some(v) => seq![v@[0]@, v@[1]@],
                None => Seq::empty(),
            },
        }
    }

    /// A name range has two names, and a number range two numbers, where
    /// they decide the range.
    pub open spec fn well_formed(&self) -> bool {
        &&& (self.pokemon is None && self.pokerange is Some) ==> self.pokerange->0@.len() >= 2
        &&& (self.pokemon is None && self.pokerange is None && self.dexnum is None
            && self.dexrange is Some) ==> self.dexrange->0@.len() >= 2
    }

    /// The first and last national number of the species to build, given the
    /// national numbers `ids` of the species that `species_names_spec` names:
    /// one named species; the range between two named species; one number;
    /// the range between two numbers; or else every species.
    pub open spec fn species_range_spec(&self, ids: Seq<i64>) -> (i64, i64) {
        if self.pokemon is Some {
            (ids[0], ids[0])
        } else if self.pokerange is Some {
            (ids[0], ids[1])
        } else if self.dexnum is Some {
            (self.dexnum->0, self.dexnum->0)
        } else if self.dexrange is Some {
            (self.dexrange->0@[0], self.dexrange->0@[1])
        } else {
            (1, LAST_SPECIES_ID)
        }
    }

    /// The species names to look up before the range is known.
    pub fn species_names(&self) -> (r: Vec<String>)
        requires
            self.well_formed(),
        ensures
            r.deep_view() == self.species_names_spec(),
    {
        let mut r: Vec<String> = Vec::new();
        match &self.pokemon {
            Some(p) => {
                r.push(p.clone());
            },
            None => match &self.pokerange {
                Some(v) => {
                    r.push(v[0].clone());
                    r.push(v[1].clone());
                },
                None => {},
            },
        }
        assert(r.deep_view() =~= self.species_names_spec());
        r
    }

    /// The first and last national number of the species to build; `ids` are
    /// the national numbers of the species that `species_names` gave.
    pub fn species_range(&self, ids: &Vec<i64>) -> (r: (i64, i64))
        requires
            self.well_formed(),
            ids@.len() == self.species_names_spec().len(),
        ensures
            r == self.species_range_spec(ids@),
    {
        if self.pokemon.is_some() {
            (ids[0], ids[0])
        } else if self.pokerange.is_some() {
            (ids[0], ids[1])
        } else if let Some(n) = self.dexnum {
            (n, n)
        } else if let Some(v) = &self.dexrange {
            (v[0], v[1])
        } else {
            (1, LAST_SPECIES_ID)
        }
    }
}

/// Which species are built: one named species; from the first to the
/// second named species; one national number; a range of national
/// numbers; or, without any of these, every species from 1 to 1025. The
/// named species come first in that order of precedence.
pub proof fn law_species_range(o: BuildOpts, ids: Seq<i64>)
    ensures
        (o.pokemon is None && o.pokerange is None && o.dexnum is None && o.dexrange is None)
            ==> o.species_range_spec(ids) == (1i64, 1025i64) && o.species_names_spec().len() == 0,
        o.pokemon matches Some(p) ==> o.species_range_spec(ids) == (ids[0], ids[0])
            && o.species_names_spec() == seq![p@],
        (o.pokemon is None && o.pokerange is Some) ==> o.species_range_spec(ids) == (ids[0], ids[1])
            && o.species_names_spec() == seq![o.pokerange->0@[0]@, o.pokerange->0@[1]@],
        (o.pokemon is None && o.pokerange is None && o.dexnum is Some) ==> o.species_range_spec(ids) == (
            o.dexnum->0,
            o.dexnum->0,
        ) && o.species_names_spec().len() == 0,
        (o.pokemon is None && o.pokerange is None && o.dexnum is None && o.dexrange is Some)
            ==> o.species_range_spec(ids) == (o.dexrange->0@[0], o.dexrange->0@[1])
            && o.species_names_spec().len() == 0,
{
}

} // verus!
