//! One row of the table: the facts of one Pokémon, one field per column.
use vstd::prelude::*;
use crate::text::{join, split, chars_of, eq_str, string_from, push_char, join_strings, split_string, lemma_deep_view_push};
use crate::number::{decimal, decimal_string};
use crate::lists::{LIST_SEP, decimals, join_list, decimal_list, parsed_list, law_int_list_roundtrip, law_split_join};
use crate::error::{FilterError, FilterErrorView, first_error, lemma_first_error_prefix, result_view, results_view};
use crate::names::{Named, FormNames, local_name, local_names, pokemon_name, local_name_of, local_names_of, pokemon_name_of};
use crate::category::{DexEntry, category, category_of, category_order, category_order_of, category_order_fits, category_order_fits_of};
use crate::evolution::{EvolutionChain, Evolution, evolution, evolution_of};
use crate::enums::{LanguageId, language_code};

verus! {

/// The columns of the table, in order.
pub const HEADER: &'static str = "identifier,national_dex,pokemon,species,generation,types,abilities,color,egg_groups,held_items,growth_rate,gender_rate,base_stats,ev_yields,hatch_counter,base_exp,capture_rate,base_happiness,height,weight,stage,is_branched,is_branching,is_starter,is_fossil,is_baby,is_mythical,is_legendary,is_ub,is_paradox,category,category_order";

/// The separator between the fields of a row.
pub const FIELD_SEP: char = ',';

/// A base stat of a Pokémon and the effort points it yields.
#[derive(Clone, Debug)]
pub struct Stat {
    pub base_stat: i64,
    pub effort: i64,
}

/// An ability a Pokémon may have.
#[derive(Clone, Debug)]
pub struct AbilitySlot {
    pub ability: Named,
    /// Whether it is a hidden ability.
    pub is_hidden: bool,
}

/// The facts of a species that the table holds.
#[derive(Clone, Debug)]
pub struct SpeciesInfo {
    /// National Pokédex number.
    pub id: i64,
    /// Identifier.
    pub name: String,
    /// The species with its names.
    pub names: Named,
    /// The number of the generation it was introduced in.
    pub generation: i64,
    /// The main region of that generation, with its names.
    pub region: Named,
    pub color: Named,
    pub egg_groups: Vec<Named>,
    /// The identifier of its growth rate.
    pub growth_rate: String,
    pub gender_rate: i64,
    pub hatch_counter: Option<i64>,
    pub capture_rate: i64,
    pub base_happiness: Option<i64>,
    pub is_baby: bool,
    pub is_mythical: bool,
    pub is_legendary: bool,
    pub pokedex_numbers: Vec<DexEntry>,
    /// Its evolution chain, where it has one and it is needed.
    pub evolution_chain: Option<EvolutionChain>,
}

/// The facts of one Pokémon (a variety of a species) that the table holds.
#[derive(Clone, Debug)]
pub struct PokemonInfo {
    /// Identifier.
    pub name: String,
    pub forms: Vec<FormNames>,
    pub types: Vec<Named>,
    pub abilities: Vec<AbilitySlot>,
    pub held_items: Vec<Named>,
    pub stats: Vec<Stat>,
    pub base_experience: Option<i64>,
    pub height: i64,
    pub weight: i64,
}

/// `true` or `false`, as `bool::to_string` writes them.
pub open spec fn bool_text(b: bool) -> Seq<char> {
    if b {
        "true"@
    } else {
        "false"@
    }
}

/// A number in decimal, or nothing when there is none.
pub open spec fn opt_decimal(o: Option<i64>) -> Seq<char> {
    match o {
        Some(n) => decimal(n as int),
        None => Seq::empty(),
    }
}

/// The sum of a list of numbers.
pub open spec fn sum(xs: Seq<i64>) -> int
    decreases xs.len(),
{
    if xs.len() == 0 {
        0
    } else {
        sum(xs.drop_last()) + xs.last()
    }
}

/// Every running sum of `xs` fits in an `i64`.
pub open spec fn sums_fit(xs: Seq<i64>) -> bool {
    forall|k: int| 0 <= k <= xs.len() ==> i64::MIN <= #[trigger] sum(xs.take(k)) <= i64::MAX
}

/// A list of numbers followed by their total, as a list field.
pub open spec fn with_total(xs: Seq<i64>) -> Seq<char> {
    join(decimals(xs.push(sum(xs) as i64)), LIST_SEP)
}

/// The base stats of a Pokémon.
pub open spec fn base_stats(m: PokemonInfo) -> Seq<i64> {
    Seq::new(m.stats@.len(), |i: int| m.stats@[i].base_stat)
}

/// The effort points a Pokémon yields, stat by stat.
pub open spec fn ev_yields(m: PokemonInfo) -> Seq<i64> {
    Seq::new(m.stats@.len(), |i: int| m.stats@[i].effort)
}

/// A list of names as a list field, or the error of the first missing name.
pub open spec fn list_field(r: Result<Seq<Seq<char>>, FilterErrorView>) -> Result<Seq<char>, FilterErrorView> {
    match r {
        Ok(v) => Ok(join(v, LIST_SEP)),
        Err(e) => Err(e),
    }
}

/// An ability's name in `lang`, marked with `*` when it is hidden.
pub open spec fn ability_name(a: AbilitySlot, lang: Seq<char>) -> Result<Seq<char>, FilterErrorView> {
    match local_name(a.ability, lang) {
        Ok(s) => Ok(if a.is_hidden { s.push('*') } else { s }),
        Err(e) => Err(e),
    }
}

/// The names of a Pokémon's abilities in `lang`.
pub open spec fn ability_names(m: PokemonInfo, lang: Seq<char>) -> Result<Seq<Seq<char>>, FilterErrorView> {
    first_error(Seq::new(m.abilities@.len(), |i: int| ability_name(m.abilities@[i], lang)))
}

/// The national number lies in one of the starter Pokémon's ranges, or the
/// Pokémon is the starter Pikachu or Eevee.
pub open spec fn is_starter(id: i64, name: Seq<char>) -> bool {
    (1 <= id < 10 || 152 <= id < 162 || 252 <= id < 262 || 387 <= id < 397 || 495 <= id < 505)
        || (650 <= id < 660 || 722 <= id < 732 || 810 <= id < 820 || 906 <= id < 916)
        || name == "pikachu-starter"@ || name == "eevee-starter"@
}

/// The national number is that of a fossil Pokémon.
pub open spec fn is_fossil(id: i64) -> bool {
    138 <= id < 143 || 345 <= id < 349 || 408 <= id < 412 || 564 <= id < 568 || 696 <= id < 700
        || 880 <= id < 884
}

/// The national number is that of an Ultra Beast.
pub open spec fn is_ub(id: i64) -> bool {
    793 <= id < 800 || 803 <= id < 807
}

/// The national number is that of a Paradox Pokémon.
pub open spec fn is_paradox(id: i64) -> bool {
    984 <= id < 996 || 1005 <= id < 1011 || 1020 <= id < 1024
}

/// The evolution facts of the Pokémon.
pub open spec fn evolution_facts(s: SpeciesInfo, m: PokemonInfo) -> Evolution {
    evolution(m.name@, s.name@, s.evolution_chain)
}

/// The Pokémon's category, or the error that its region has no name in
/// `lang`.
pub open spec fn category_field(s: SpeciesInfo, m: PokemonInfo, lang: Seq<char>) -> Result<Seq<char>, FilterErrorView> {
    match local_name(s.region, lang) {
        Ok(rn) => Ok(category(m.name@, s.id, rn)),
        Err(e) => Err(e),
    }
}

/// The number the Pokémon is ordered by within its category, or the error
/// that there is none (0) or that its region has no name in `lang`.
pub open spec fn category_order_field(s: SpeciesInfo, m: PokemonInfo, lang: Seq<char>) -> Result<Seq<char>, FilterErrorView> {
    match category_field(s, m, lang) {
        Ok(c) => {
            let o = category_order(c, s.pokedex_numbers@, s.id);
            if o == 0 {
                Err(FilterErrorView::MissingOrdering)
            } else {
                Ok(decimal(o))
            }
        },
        Err(e) => Err(e),
    }
}

/// The field of column `key` in the row of Pokémon `m` of species `s`, with
/// names in `lang`; an error for a key that is no column.
pub open spec fn field(s: SpeciesInfo, m: PokemonInfo, lang: Seq<char>, key: Seq<char>) -> Result<Seq<char>, FilterErrorView> {
    if key == "identifier"@ {
        Ok(m.name@)
    } else if key == "national_dex"@ {
        Ok(decimal(s.id as int))
    } else if key == "pokemon"@ {
        pokemon_name(m.forms@, s.names, lang)
    } else if key == "species"@ {
        local_name(s.names, lang)
    } else if key == "generation"@ {
        Ok(decimal(s.generation as int))
    } else if key == "types"@ {
        list_field(local_names(m.types@, lang))
    } else if key == "abilities"@ {
        list_field(ability_names(m, lang))
    } else if key == "color"@ {
        local_name(s.color, lang)
    } else if key == "egg_groups"@ {
        list_field(local_names(s.egg_groups@, lang))
    } else if key == "held_items"@ {
        list_field(local_names(m.held_items@, lang))
    } else if key == "growth_rate"@ {
        Ok(s.growth_rate@)
    } else if key == "gender_rate"@ {
        Ok(decimal(s.gender_rate as int))
    } else if key == "base_stats"@ {
        Ok(with_total(base_stats(m)))
    } else if key == "ev_yields"@ {
        Ok(with_total(ev_yields(m)))
    } else if key == "hatch_counter"@ {
        Ok(opt_decimal(s.hatch_counter))
    } else if key == "base_exp"@ {
        Ok(opt_decimal(m.base_experience))
    } else if key == "capture_rate"@ {
        Ok(decimal(s.capture_rate as int))
    } else if key == "base_happiness"@ {
        Ok(opt_decimal(s.base_happiness))
    } else if key == "height"@ {
        Ok(decimal(m.height as int))
    } else if key == "weight"@ {
        Ok(decimal(m.weight as int))
    } else if key == "stage"@ {
        Ok(decimal(evolution_facts(s, m).stage as int))
    } else if key == "is_branched"@ {
        Ok(bool_text(evolution_facts(s, m).branched))
    } else if key == "is_branching"@ {
        Ok(bool_text(evolution_facts(s, m).branching))
    } else if key == "is_starter"@ {
        Ok(bool_text(is_starter(s.id, m.name@)))
    } else if key == "is_fossil"@ {
        Ok(bool_text(is_fossil(s.id)))
    } else if key == "is_baby"@ {
        Ok(bool_text(s.is_baby))
    } else if key == "is_mythical"@ {
        Ok(bool_text(s.is_mythical))
    } else if key == "is_legendary"@ {
        Ok(bool_text(s.is_legendary))
    } else if key == "is_ub"@ {
        Ok(bool_text(is_ub(s.id)))
    } else if key == "is_paradox"@ {
        Ok(bool_text(is_paradox(s.id)))
    } else if key == "category"@ {
        category_field(s, m, lang)
    } else if key == "category_order"@ {
        category_order_field(s, m, lang)
    } else {
        Err(FilterErrorView::InvalidKey(key))
    }
}

/// Computing the field of column `key` stays within `i64`.
pub open spec fn field_fits(s: SpeciesInfo, m: PokemonInfo, lang: Seq<char>, key: Seq<char>) -> bool {
    if key == "base_stats"@ {
        sums_fit(base_stats(m))
    } else if key == "ev_yields"@ {
        sums_fit(ev_yields(m))
    } else if key == "category_order"@ {
        match category_field(s, m, lang) {
            Ok(c) => category_order_fits(c, s.pokedex_numbers@),
            Err(_) => true,
        }
    } else {
        true
    }
}

/// The fields of the columns `keys`, or the error of the first that fails.
pub open spec fn fields(s: SpeciesInfo, m: PokemonInfo, lang: Seq<char>, keys: Seq<Seq<char>>) -> Result<Seq<Seq<char>>, FilterErrorView> {
    first_error(Seq::new(keys.len(), |i: int| field(s, m, lang, keys[i])))
}

/// The row of Pokémon `m` of species `s` for the columns `keys`, with names
/// in `lang`: the fields separated by commas, or the error of the first
/// field that fails.
pub open spec fn row(s: SpeciesInfo, m: PokemonInfo, lang: Seq<char>, keys: Seq<Seq<char>>) -> Result<Seq<char>, FilterErrorView> {
    match fields(s, m, lang, keys) {
        Ok(v) => Ok(join(v, FIELD_SEP)),
        Err(e) => Err(e),
    }
}

/// Computing every field of the row stays within `i64`.
pub open spec fn row_fits_spec(s: SpeciesInfo, m: PokemonInfo, lang: Seq<char>, keys: Seq<Seq<char>>) -> bool {
    forall|i: int| 0 <= i < keys.len() ==> field_fits(s, m, lang, #[trigger] keys[i])
}

/// `true` or `false`.
pub fn bool_string(b: bool) -> (r: String)
    ensures
        r@ == bool_text(b),
{
    if b {
        string_from("true")
    } else {
        string_from("false")
    }
}

/// A number in decimal, or the empty text.
pub fn opt_decimal_string(o: Option<i64>) -> (r: String)
    ensures
        r@ == opt_decimal(o),
{
    match o {
        Some(n) => decimal_string(n),
        None => String::new(),
    }
}

/// Whether every running sum of `xs` fits in an `i64`.
pub fn sums_fit_of(xs: &Vec<i64>) -> (r: bool)
    ensures
        r == sums_fit(xs@),
{
    let mut acc: i128 = 0;
    let mut i: usize = 0;
    assert(xs@.take(0) =~= Seq::<i64>::empty());
    while i < xs.len()
        invariant
            i <= xs.len(),
            acc == sum(xs@.take(i as int)),
            forall|k: int| 0 <= k <= i ==> i64::MIN <= #[trigger] sum(xs@.take(k)) <= i64::MAX,
        decreases xs.len() - i,
    {
        let ghost t = xs@.take(i + 1);
        assert(t.drop_last() == xs@.take(i as int));
        acc = acc + xs[i] as i128;
        if acc < i64::MIN as i128 || acc > i64::MAX as i128 {
            assert(!(i64::MIN <= sum(xs@.take(i + 1)) <= i64::MAX));
            return false;
        }
        i = i + 1;
    }
    true
}

/// A list of numbers followed by their total, as a list field.
fn total_field(xs: &Vec<i64>) -> (r: String)
    requires
        sums_fit(xs@),
    ensures
        r@ == with_total(xs@),
{
    let mut all: Vec<i64> = Vec::new();
    let mut acc: i64 = 0;
    let mut i: usize = 0;
    assert(xs@.take(0) =~= Seq::<i64>::empty());
    while i < xs.len()
        invariant
            i <= xs.len(),
            sums_fit(xs@),
            acc == sum(xs@.take(i as int)),
            all@ == xs@.take(i as int),
        decreases xs.len() - i,
    {
        let ghost t = xs@.take(i + 1);
        assert(t.drop_last() == xs@.take(i as int));
        assert(i64::MIN <= sum(xs@.take(i + 1)) <= i64::MAX);
        acc = acc + xs[i];
        all.push(xs[i]);
        i = i + 1;
    }
    assert(xs@.take(xs.len() as int) == xs@);
    all.push(acc);
    decimal_list(&all)
}

/// The base stats of a Pokémon, or the effort points it yields.
fn stat_values(m: &PokemonInfo, efforts: bool) -> (r: Vec<i64>)
    ensures
        r@ == if efforts { ev_yields(*m) } else { base_stats(*m) },
{
    let mut r: Vec<i64> = Vec::new();
    let mut i: usize = 0;
    while i < m.stats.len()
        invariant
            i <= m.stats.len(),
            r@ == if efforts { ev_yields(*m).take(i as int) } else { base_stats(*m).take(i as int) },
        decreases m.stats.len() - i,
    {
        if efforts {
            r.push(m.stats[i].effort);
        } else {
            r.push(m.stats[i].base_stat);
        }
        i = i + 1;
    }
    r
}

/// The names of a Pokémon's abilities in `lang`, hidden ones marked.
fn ability_names_of(m: &PokemonInfo, lang: &str) -> (r: Result<Vec<String>, FilterError>)
    ensures
        results_view(r) == ability_names(*m, lang@),
{
    let ghost rs = Seq::new(m.abilities@.len(), |i: int| ability_name(m.abilities@[i], lang@));
    let mut out: Vec<String> = Vec::new();
    let mut i: usize = 0;
    assert(rs.take(0) =~= Seq::<Result<Seq<char>, FilterErrorView>>::empty());
    assert(out.deep_view() =~= Seq::<Seq<char>>::empty());
    while i < m.abilities.len()
        invariant
            i <= m.abilities.len(),
            out@.len() == i,
            rs == Seq::new(m.abilities@.len(), |i: int| ability_name(m.abilities@[i], lang@)),
            first_error(rs.take(i as int)) == Ok::<Seq<Seq<char>>, FilterErrorView>(out.deep_view()),
        decreases m.abilities.len() - i,
    {
        let ghost t = rs.take(i + 1);
        assert(t.drop_last() == rs.take(i as int));
        assert(t.last() == ability_name(m.abilities@[i as int], lang@));
        let slot = &m.abilities[i];
        match local_name_of(&slot.ability, lang) {
            Err(e) => {
                proof {
                    lemma_first_error_prefix(rs, i + 1);
                }
                return Err(e);
            },
            Ok(mut name) => {
                if slot.is_hidden {
                    push_char(&mut name, '*');
                }
                let ghost before = out;
                out.push(name);
                proof {
                    lemma_deep_view_push(before, out, out@[i as int]);
                }
            },
        }
        i = i + 1;
    }
    assert(rs.take(m.abilities.len() as int) == rs);
    Ok(out)
}

/// A list of names joined into one list field.
fn list_field_of(r: Result<Vec<String>, FilterError>) -> (out: Result<String, FilterError>)
    ensures
        result_view(out) == list_field(results_view(r)),
{
    match r {
        Ok(v) => Ok(join_list(&v)),
        Err(e) => Err(e),
    }
}

/// The Pokémon's category in `lang`.
fn category_field_of(s: &SpeciesInfo, m: &PokemonInfo, lang: &str) -> (r: Result<String, FilterError>)
    ensures
        result_view(r) == category_field(*s, *m, lang@),
{
    match local_name_of(&s.region, lang) {
        Ok(rn) => Ok(category_of(m.name.as_str(), s.id, rn.as_str())),
        Err(e) => Err(e),
    }
}

/// The number the Pokémon is ordered by within its category.
fn category_order_field_of(s: &SpeciesInfo, m: &PokemonInfo, lang: &str) -> (r: Result<String, FilterError>)
    requires
        match category_field(*s, *m, lang@) {
            Ok(c) => category_order_fits(c, s.pokedex_numbers@),
            Err(_) => true,
        },
    ensures
        result_view(r) == category_order_field(*s, *m, lang@),
{
    match category_field_of(s, m, lang) {
        Ok(c) => {
            let o = category_order_of(c.as_str(), &s.pokedex_numbers, s.id);
            if o == 0 {
                Err(FilterError::MissingOrdering)
            } else {
                Ok(decimal_string(o))
            }
        },
        Err(e) => Err(e),
    }
}

/// The field of column `key` in the row of Pokémon `m` of species `s`.
pub fn field_of(s: &SpeciesInfo, m: &PokemonInfo, lang: &str, key: &str) -> (r: Result<String, FilterError>)
    requires
        field_fits(*s, *m, lang@, key@),
    ensures
        result_view(r) == field(*s, *m, lang@, key@),
{
    let k = chars_of(key);
    if eq_str(&k, "identifier") {
        Ok(m.name.clone())
    } else if eq_str(&k, "national_dex") {
        Ok(decimal_string(s.id))
    } else if eq_str(&k, "pokemon") {
        pokemon_name_of(&m.forms, &s.names, lang)
    } else if eq_str(&k, "species") {
        local_name_of(&s.names, lang)
    } else if eq_str(&k, "generation") {
        Ok(decimal_string(s.generation))
    } else if eq_str(&k, "types") {
        list_field_of(local_names_of(&m.types, lang))
    } else if eq_str(&k, "abilities") {
        list_field_of(ability_names_of(m, lang))
    } else if eq_str(&k, "color") {
        local_name_of(&s.color, lang)
    } else if eq_str(&k, "egg_groups") {
        list_field_of(local_names_of(&s.egg_groups, lang))
    } else if eq_str(&k, "held_items") {
        list_field_of(local_names_of(&m.held_items, lang))
    } else if eq_str(&k, "growth_rate") {
        Ok(s.growth_rate.clone())
    } else if eq_str(&k, "gender_rate") {
        Ok(decimal_string(s.gender_rate))
    } else if eq_str(&k, "base_stats") {
        Ok(total_field(&stat_values(m, false)))
    } else if eq_str(&k, "ev_yields") {
        Ok(total_field(&stat_values(m, true)))
    } else if eq_str(&k, "hatch_counter") {
        Ok(opt_decimal_string(s.hatch_counter))
    } else if eq_str(&k, "base_exp") {
        Ok(opt_decimal_string(m.base_experience))
    } else if eq_str(&k, "capture_rate") {
        Ok(decimal_string(s.capture_rate))
    } else if eq_str(&k, "base_happiness") {
        Ok(opt_decimal_string(s.base_happiness))
    } else if eq_str(&k, "height") {
        Ok(decimal_string(m.height))
    } else if eq_str(&k, "weight") {
        Ok(decimal_string(m.weight))
    } else if eq_str(&k, "stage") {
        let e = evolution_of(m.name.as_str(), s.name.as_str(), &s.evolution_chain);
        Ok(decimal_string(e.stage))
    } else if eq_str(&k, "is_branched") {
        let e = evolution_of(m.name.as_str(), s.name.as_str(), &s.evolution_chain);
        Ok(bool_string(e.branched))
    } else if eq_str(&k, "is_branching") {
        let e = evolution_of(m.name.as_str(), s.name.as_str(), &s.evolution_chain);
        Ok(bool_string(e.branching))
    } else if eq_str(&k, "is_starter") {
        let id = s.id;
        let n = chars_of(m.name.as_str());
        let starter = (1 <= id && id < 10 || 152 <= id && id < 162 || 252 <= id && id < 262 || 387 <= id
            && id < 397 || 495 <= id && id < 505) || (650 <= id && id < 660 || 722 <= id && id < 732
            || 810 <= id && id < 820 || 906 <= id && id < 916) || eq_str(&n, "pikachu-starter")
            || eq_str(&n, "eevee-starter");
        Ok(bool_string(starter))
    } else if eq_str(&k, "is_fossil") {
        let id = s.id;
        Ok(bool_string(138 <= id && id < 143 || 345 <= id && id < 349 || 408 <= id && id < 412
            || 564 <= id && id < 568 || 696 <= id && id < 700 || 880 <= id && id < 884))
    } else if eq_str(&k, "is_baby") {
        Ok(bool_string(s.is_baby))
    } else if eq_str(&k, "is_mythical") {
        Ok(bool_string(s.is_mythical))
    } else if eq_str(&k, "is_legendary") {
        Ok(bool_string(s.is_legendary))
    } else if eq_str(&k, "is_ub") {
        let id = s.id;
        Ok(bool_string(793 <= id && id < 800 || 803 <= id && id < 807))
    } else if eq_str(&k, "is_paradox") {
        let id = s.id;
        Ok(bool_string(984 <= id && id < 996 || 1005 <= id && id < 1011 || 1020 <= id && id < 1024))
    } else if eq_str(&k, "category") {
        category_field_of(s, m, lang)
    } else if eq_str(&k, "category_order") {
        category_order_field_of(s, m, lang)
    } else {
        Err(FilterError::InvalidKey(string_from(key)))
    }
}

/// The row of Pokémon `mon` of species `species` for the columns `keys`,
/// with names in `lang`: its fields separated by commas, or the error of the
/// first field that fails.
pub fn build_row(species: &SpeciesInfo, mon: &PokemonInfo, lang: LanguageId, keys: &Vec<String>) -> (r: Result<String, FilterError>)
    requires
        row_fits_spec(*species, *mon, language_code(lang), keys.deep_view()),
    ensures
        result_view(r) == row(*species, *mon, language_code(lang), keys.deep_view()),
{
    let code = lang.code();
    let ghost lv = language_code(lang);
    let ghost kv = keys.deep_view();
    let ghost rs = Seq::new(kv.len(), |i: int| field(*species, *mon, lv, kv[i]));
    let mut out: Vec<String> = Vec::new();
    let mut i: usize = 0;
    assert(rs.take(0) =~= Seq::<Result<Seq<char>, FilterErrorView>>::empty());
    assert(out.deep_view() =~= Seq::<Seq<char>>::empty());
    while i < keys.len()
        invariant
            i <= keys.len(),
            out@.len() == i,
            code@ == lv,
            lv == language_code(lang),
            kv == keys.deep_view(),
            row_fits_spec(*species, *mon, lv, kv),
            rs == Seq::new(kv.len(), |i: int| field(*species, *mon, lv, kv[i])),
            first_error(rs.take(i as int)) == Ok::<Seq<Seq<char>>, FilterErrorView>(out.deep_view()),
        decreases keys.len() - i,
    {
        let ghost t = rs.take(i + 1);
        assert(t.drop_last() == rs.take(i as int));
        assert(kv[i as int] == keys@[i as int]@);
        assert(t.last() == field(*species, *mon, lv, keys@[i as int]@));
        assert(field_fits(*species, *mon, lv, kv[i as int]));
        match field_of(species, mon, code, keys[i].as_str()) {
            Err(e) => {
                proof {
                    assert(first_error(t) == Err::<Seq<Seq<char>>, FilterErrorView>(e@));
                    lemma_first_error_prefix(rs, i + 1);
                    assert(fields(*species, *mon, lv, kv) == first_error(rs));
                }
                return Err(e);
            },
            Ok(f) => {
                let ghost before = out;
                out.push(f);
                proof {
                    lemma_deep_view_push(before, out, out@[i as int]);
                }
            },
        }
        i = i + 1;
    }
    assert(rs.take(keys.len() as int) == rs);
    Ok(join_strings(&out, FIELD_SEP))
}

/// Whether computing the field of column `key` stays within `i64`.
fn field_fits_of(s: &SpeciesInfo, m: &PokemonInfo, lang: &str, key: &str) -> (r: bool)
    ensures
        r == field_fits(*s, *m, lang@, key@),
{
    let k = chars_of(key);
    if eq_str(&k, "base_stats") {
        sums_fit_of(&stat_values(m, false))
    } else if eq_str(&k, "ev_yields") {
        sums_fit_of(&stat_values(m, true))
    } else if eq_str(&k, "category_order") {
        match category_field_of(s, m, lang) {
            Ok(c) => category_order_fits_of(c.as_str(), &s.pokedex_numbers),
            Err(_) => true,
        }
    } else {
        true
    }
}

/// Whether computing every field of the row stays within `i64`; where it
/// does not, the row cannot be built.
pub fn row_fits(species: &SpeciesInfo, mon: &PokemonInfo, lang: LanguageId, keys: &Vec<String>) -> (r: bool)
    ensures
        r == row_fits_spec(*species, *mon, language_code(lang), keys.deep_view()),
{
    let code = lang.code();
    let mut i: usize = 0;
    while i < keys.len()
        invariant
            i <= keys.len(),
            code@ == language_code(lang),
            forall|j: int| 0 <= j < i ==> field_fits(*species, *mon, code@, #[trigger] keys.deep_view()[j]),
        decreases keys.len() - i,
    {
        assert(keys.deep_view()[i as int] == keys@[i as int]@);
        if !field_fits_of(species, mon, code, keys[i].as_str()) {
            return false;
        }
        i = i + 1;
    }
    true
}

/// The columns of the table, in order.
pub fn header_keys() -> (r: Vec<String>)
    ensures
        r.deep_view() == split(HEADER@, FIELD_SEP),
{
    split_string(HEADER, FIELD_SEP)
}

/// A stats field read back as a list of integers gives the stats and their
/// total: what a row holds in `base_stats` and `ev_yields` is what reading
/// the table gives back.
pub proof fn law_stats_field_roundtrip(xs: Seq<i64>)
    ensures
        parsed_list(split(with_total(xs), LIST_SEP)) == Some(xs.push(sum(xs) as i64)),
{
    law_int_list_roundtrip(xs.push(sum(xs) as i64));
}

/// A row has one field per column: splitting a built row at its commas
/// gives the fields, for at least one column and fields without commas.
pub proof fn law_row_columns(s: SpeciesInfo, m: PokemonInfo, lang: Seq<char>, keys: Seq<Seq<char>>)
    requires
        keys.len() >= 1,
        fields(s, m, lang, keys) is Ok,
        forall|i: int| 0 <= i < keys.len() ==> !(#[trigger] fields(s, m, lang, keys)->Ok_0[i]).contains(FIELD_SEP),
    ensures
        row(s, m, lang, keys) matches Ok(text) && split(text, FIELD_SEP) == fields(s, m, lang, keys)->Ok_0,
        fields(s, m, lang, keys)->Ok_0.len() == keys.len(),
{
    let v = fields(s, m, lang, keys)->Ok_0;
    lemma_fields_len(Seq::new(keys.len(), |i: int| field(s, m, lang, keys[i])));
    law_split_join(v, FIELD_SEP);
}

/// A list of results that all succeed gives one text per result.
proof fn lemma_fields_len(rs: Seq<Result<Seq<char>, FilterErrorView>>)
    requires
        first_error(rs) is Ok,
    ensures
        first_error(rs)->Ok_0.len() == rs.len(),
    decreases rs.len(),
{
    if rs.len() > 0 {
        lemma_fields_len(rs.drop_last());
    }
}

/// What each column of a row holds, stated over the species `s`, the
/// Pokémon `m` and the language: its identifier and numbers in decimal,
/// its names in the language, lists joined by `;` (hidden abilities marked
/// with `*`), stats and effort yields followed by their totals, empty text
/// for a missing number, its evolution facts, `true`/`false` flags (the
/// species' own baby, mythical and legendary flags; number ranges for
/// starters, fossils, Ultra Beasts and Paradox Pokémon), its category and
/// the number it is ordered by there (an error when that is 0); any other
/// key is an error naming it.
#[verifier::rlimit(100)]
pub proof fn law_fields(s: SpeciesInfo, m: PokemonInfo, lang: Seq<char>, key: Seq<char>)
    ensures
        field(s, m, lang, "identifier"@) == Ok::<Seq<char>, FilterErrorView>(m.name@),
        field(s, m, lang, "national_dex"@) == Ok::<Seq<char>, FilterErrorView>(decimal(s.id as int)),
        field(s, m, lang, "pokemon"@) == pokemon_name(m.forms@, s.names, lang),
        field(s, m, lang, "species"@) == local_name(s.names, lang),
        field(s, m, lang, "generation"@) == Ok::<Seq<char>, FilterErrorView>(decimal(s.generation as int)),
        field(s, m, lang, "types"@) == (match local_names(m.types@, lang) { Ok(v) => Ok::<Seq<char>, FilterErrorView>(join(v, ';')), Err(x) => Err(x) }),
        field(s, m, lang, "abilities"@) == (match first_error((Seq::new(m.abilities@.len(), |i: int| match local_name(m.abilities@[i].ability, lang) {
                Ok(n) => Ok::<Seq<char>, FilterErrorView>(if m.abilities@[i].is_hidden { n.push('*') } else { n }),
                Err(x) => Err(x),
            }))) { Ok(v) => Ok::<Seq<char>, FilterErrorView>(join(v, ';')), Err(x) => Err(x) }),
        field(s, m, lang, "color"@) == local_name(s.color, lang),
        field(s, m, lang, "egg_groups"@) == (match local_names(s.egg_groups@, lang) { Ok(v) => Ok::<Seq<char>, FilterErrorView>(join(v, ';')), Err(x) => Err(x) }),
        field(s, m, lang, "held_items"@) == (match local_names(m.held_items@, lang) { Ok(v) => Ok::<Seq<char>, FilterErrorView>(join(v, ';')), Err(x) => Err(x) }),
        field(s, m, lang, "growth_rate"@) == Ok::<Seq<char>, FilterErrorView>(s.growth_rate@),
        field(s, m, lang, "gender_rate"@) == Ok::<Seq<char>, FilterErrorView>(decimal(s.gender_rate as int)),
        field(s, m, lang, "base_stats"@) == Ok::<Seq<char>, FilterErrorView>(join((Seq::new(m.stats@.len(), |i: int| m.stats@[i].base_stat)).push(sum(((Seq::new(m.stats@.len(), |i: int| m.stats@[i].base_stat)))) as i64).map_values(|x: i64| decimal(x as int)), ';')),
        field(s, m, lang, "ev_yields"@) == Ok::<Seq<char>, FilterErrorView>(join((Seq::new(m.stats@.len(), |i: int| m.stats@[i].effort)).push(sum(((Seq::new(m.stats@.len(), |i: int| m.stats@[i].effort)))) as i64).map_values(|x: i64| decimal(x as int)), ';')),
        field(s, m, lang, "hatch_counter"@) == Ok::<Seq<char>, FilterErrorView>((match s.hatch_counter { Some(n) => decimal(n as int), None => Seq::<char>::empty() })),
        field(s, m, lang, "base_exp"@) == Ok::<Seq<char>, FilterErrorView>((match m.base_experience { Some(n) => decimal(n as int), None => Seq::<char>::empty() })),
        field(s, m, lang, "capture_rate"@) == Ok::<Seq<char>, FilterErrorView>(decimal(s.capture_rate as int)),
        field(s, m, lang, "base_happiness"@) == Ok::<Seq<char>, FilterErrorView>((match s.base_happiness { Some(n) => decimal(n as int), None => Seq::<char>::empty() })),
        field(s, m, lang, "height"@) == Ok::<Seq<char>, FilterErrorView>(decimal(m.height as int)),
        field(s, m, lang, "weight"@) == Ok::<Seq<char>, FilterErrorView>(decimal(m.weight as int)),
        field(s, m, lang, "stage"@) == Ok::<Seq<char>, FilterErrorView>(decimal((evolution(m.name@, s.name@, s.evolution_chain)).stage as int)),
        field(s, m, lang, "is_branched"@) == Ok::<Seq<char>, FilterErrorView>((if (evolution(m.name@, s.name@, s.evolution_chain)).branched { "true"@ } else { "false"@ })),
        field(s, m, lang, "is_branching"@) == Ok::<Seq<char>, FilterErrorView>((if (evolution(m.name@, s.name@, s.evolution_chain)).branching { "true"@ } else { "false"@ })),
        field(s, m, lang, "is_starter"@) == Ok::<Seq<char>, FilterErrorView>((if (1 <= s.id <= 9 || 152 <= s.id <= 161 || 252 <= s.id <= 261 || 387 <= s.id <= 396 || 495 <= s.id <= 504 || 650 <= s.id <= 659 || 722 <= s.id <= 731 || 810 <= s.id <= 819 || 906 <= s.id <= 915 || m.name@ == "pikachu-starter"@ || m.name@ == "eevee-starter"@) { "true"@ } else { "false"@ })),
        field(s, m, lang, "is_fossil"@) == Ok::<Seq<char>, FilterErrorView>((if (138 <= s.id <= 142 || 345 <= s.id <= 348 || 408 <= s.id <= 411 || 564 <= s.id <= 567 || 696 <= s.id <= 699 || 880 <= s.id <= 883) { "true"@ } else { "false"@ })),
        field(s, m, lang, "is_baby"@) == Ok::<Seq<char>, FilterErrorView>((if s.is_baby { "true"@ } else { "false"@ })),
        field(s, m, lang, "is_mythical"@) == Ok::<Seq<char>, FilterErrorView>((if s.is_mythical { "true"@ } else { "false"@ })),
        field(s, m, lang, "is_legendary"@) == Ok::<Seq<char>, FilterErrorView>((if s.is_legendary { "true"@ } else { "false"@ })),
        field(s, m, lang, "is_ub"@) == Ok::<Seq<char>, FilterErrorView>((if (793 <= s.id <= 799 || 803 <= s.id <= 806) { "true"@ } else { "false"@ })),
        field(s, m, lang, "is_paradox"@) == Ok::<Seq<char>, FilterErrorView>((if (984 <= s.id <= 995 || 1005 <= s.id <= 1010 || 1020 <= s.id <= 1023) { "true"@ } else { "false"@ })),
        field(s, m, lang, "category"@) == (match local_name(s.region, lang) { Ok(rn) => Ok::<Seq<char>, FilterErrorView>(category(m.name@, s.id, rn)), Err(x) => Err(x) }),
        field(s, m, lang, "category_order"@) == (match local_name(s.region, lang) { Ok(rn) => if category_order(category(m.name@, s.id, rn), s.pokedex_numbers@, s.id) == 0 { Err::<Seq<char>, FilterErrorView>(FilterErrorView::MissingOrdering) } else { Ok(decimal(category_order(category(m.name@, s.id, rn), s.pokedex_numbers@, s.id))) }, Err(x) => Err(x) }),
        (key != "identifier"@ && key != "national_dex"@ && key != "pokemon"@ && key != "species"@ && key != "generation"@ && key != "types"@ && key != "abilities"@ && key != "color"@ && key != "egg_groups"@ && key != "held_items"@ && key != "growth_rate"@ && key != "gender_rate"@ && key != "base_stats"@ && key != "ev_yields"@ && key != "hatch_counter"@ && key != "base_exp"@ && key != "capture_rate"@ && key != "base_happiness"@ && key != "height"@ && key != "weight"@ && key != "stage"@ && key != "is_branched"@ && key != "is_branching"@ && key != "is_starter"@ && key != "is_fossil"@ && key != "is_baby"@ && key != "is_mythical"@ && key != "is_legendary"@ && key != "is_ub"@ && key != "is_paradox"@ && key != "category"@ && key != "category_order"@) ==> field(s, m, lang, key) == Err::<Seq<char>, FilterErrorView>(FilterErrorView::InvalidKey(key)),
{
    reveal_strlit("identifier");
    reveal_strlit("national_dex");
    reveal_strlit("pokemon");
    reveal_strlit("species");
    reveal_strlit("generation");
    reveal_strlit("types");
    reveal_strlit("abilities");
    reveal_strlit("color");
    reveal_strlit("egg_groups");
    reveal_strlit("held_items");
    reveal_strlit("growth_rate");
    reveal_strlit("gender_rate");
    reveal_strlit("base_stats");
    reveal_strlit("ev_yields");
    reveal_strlit("hatch_counter");
    reveal_strlit("base_exp");
    reveal_strlit("capture_rate");
    reveal_strlit("base_happiness");
    reveal_strlit("height");
    reveal_strlit("weight");
    reveal_strlit("stage");
    reveal_strlit("is_branched");
    reveal_strlit("is_branching");
    reveal_strlit("is_starter");
    reveal_strlit("is_fossil");
    reveal_strlit("is_baby");
    reveal_strlit("is_mythical");
    reveal_strlit("is_legendary");
    reveal_strlit("is_ub");
    reveal_strlit("is_paradox");
    reveal_strlit("category");
    reveal_strlit("category_order");
    assert("identifier"@.len() == 10);
    assert("national_dex"@.len() == 12);
    assert("pokemon"@.len() == 7);
    assert("species"@.len() == 7);
    assert("generation"@.len() == 10);
    assert("types"@.len() == 5);
    assert("abilities"@.len() == 9);
    assert("color"@.len() == 5);
    assert("egg_groups"@.len() == 10);
    assert("held_items"@.len() == 10);
    assert("growth_rate"@.len() == 11);
    assert("gender_rate"@.len() == 11);
    assert("base_stats"@.len() == 10);
    assert("ev_yields"@.len() == 9);
    assert("hatch_counter"@.len() == 13);
    assert("base_exp"@.len() == 8);
    assert("capture_rate"@.len() == 12);
    assert("base_happiness"@.len() == 14);
    assert("height"@.len() == 6);
    assert("weight"@.len() == 6);
    assert("stage"@.len() == 5);
    assert("is_branched"@.len() == 11);
    assert("is_branching"@.len() == 12);
    assert("is_starter"@.len() == 10);
    assert("is_fossil"@.len() == 9);
    assert("is_baby"@.len() == 7);
    assert("is_mythical"@.len() == 11);
    assert("is_legendary"@.len() == 12);
    assert("is_ub"@.len() == 5);
    assert("is_paradox"@.len() == 10);
    assert("category"@.len() == 8);
    assert("category_order"@.len() == 14);
    assert("species"@[0] != "pokemon"@[0]);
    assert("generation"@[0] != "identifier"@[0]);
    assert("color"@[0] != "types"@[0]);
    assert("egg_groups"@[0] != "identifier"@[0]);
    assert("egg_groups"@[0] != "generation"@[0]);
    assert("held_items"@[0] != "identifier"@[0]);
    assert("held_items"@[0] != "generation"@[0]);
    assert("held_items"@[0] != "egg_groups"@[0]);
    assert("gender_rate"@[1] != "growth_rate"@[1]);
    assert("base_stats"@[0] != "identifier"@[0]);
    assert("base_stats"@[0] != "generation"@[0]);
    assert("base_stats"@[0] != "egg_groups"@[0]);
    assert("base_stats"@[0] != "held_items"@[0]);
    assert("ev_yields"@[0] != "abilities"@[0]);
    assert("capture_rate"@[0] != "national_dex"@[0]);
    assert("weight"@[0] != "height"@[0]);
    assert("stage"@[0] != "types"@[0]);
    assert("stage"@[0] != "color"@[0]);
    assert("is_branched"@[0] != "growth_rate"@[0]);
    assert("is_branched"@[0] != "gender_rate"@[0]);
    assert("is_branching"@[0] != "national_dex"@[0]);
    assert("is_branching"@[0] != "capture_rate"@[0]);
    assert("is_starter"@[1] != "identifier"@[1]);
    assert("is_starter"@[0] != "generation"@[0]);
    assert("is_starter"@[0] != "egg_groups"@[0]);
    assert("is_starter"@[0] != "held_items"@[0]);
    assert("is_starter"@[0] != "base_stats"@[0]);
    assert("is_fossil"@[0] != "abilities"@[0]);
    assert("is_fossil"@[0] != "ev_yields"@[0]);
    assert("is_baby"@[0] != "pokemon"@[0]);
    assert("is_baby"@[0] != "species"@[0]);
    assert("is_mythical"@[0] != "growth_rate"@[0]);
    assert("is_mythical"@[0] != "gender_rate"@[0]);
    assert("is_mythical"@[3] != "is_branched"@[3]);
    assert("is_legendary"@[0] != "national_dex"@[0]);
    assert("is_legendary"@[0] != "capture_rate"@[0]);
    assert("is_legendary"@[3] != "is_branching"@[3]);
    assert("is_ub"@[0] != "types"@[0]);
    assert("is_ub"@[0] != "color"@[0]);
    assert("is_ub"@[0] != "stage"@[0]);
    assert("is_paradox"@[1] != "identifier"@[1]);
    assert("is_paradox"@[0] != "generation"@[0]);
    assert("is_paradox"@[0] != "egg_groups"@[0]);
    assert("is_paradox"@[0] != "held_items"@[0]);
    assert("is_paradox"@[0] != "base_stats"@[0]);
    assert("is_paradox"@[3] != "is_starter"@[3]);
    assert("category"@[0] != "base_exp"@[0]);
    assert("category_order"@[0] != "base_happiness"@[0]);
    assert(Seq::new(m.abilities@.len(), |i: int| ability_name(m.abilities@[i], lang)) =~= Seq::new(
        m.abilities@.len(),
        |i: int| match local_name(m.abilities@[i].ability, lang) {
            Ok(n) => Ok::<Seq<char>, FilterErrorView>(if m.abilities@[i].is_hidden { n.push('*') } else { n }),
            Err(x) => Err(x),
        },
    ));
    assert(base_stats(m) =~= Seq::new(m.stats@.len(), |i: int| m.stats@[i].base_stat));
    assert(ev_yields(m) =~= Seq::new(m.stats@.len(), |i: int| m.stats@[i].effort));
    let b = base_stats(m);
    assert(decimals(b.push(sum(b) as i64)) =~= b.push(sum(b) as i64).map_values(|x: i64| decimal(x as int)));
    let e = ev_yields(m);
    assert(decimals(e.push(sum(e) as i64)) =~= e.push(sum(e) as i64).map_values(|x: i64| decimal(x as int)));
}

/// The total of a list of numbers: 0 for none, and each further number
/// adds itself.
pub proof fn law_sum(xs: Seq<i64>, x: i64)
    ensures
        sum(Seq::empty()) == 0,
        sum(xs.push(x)) == sum(xs) + x,
{
    assert(xs.push(x).drop_last() == xs);
}

} // verus!
