//! The category of a Pokémon (its region, or Gmax, Mega, Unknown) and the
//! number it is ordered by within that category.
use vstd::prelude::*;
use crate::text::{starts_with, ends_with, contains, chars_of, eq_str, has_prefix, has_suffix, has_infix, string_from};

verus! {

/// One entry of a species in a Pokédex.
#[derive(Clone, Debug)]
pub struct DexEntry {
    /// The Pokédex's identifier.
    pub pokedex: String,
    /// The species' number in that Pokédex.
    pub entry_number: i64,
}

/// The region named in a regional form's identifier (such as
/// `meowth-alola`), except for identifiers ending in `-cap`; when several
/// regions are named, the one latest in the order Alola, Galar, Hisui,
/// Paldea.
pub open spec fn regional_form(name: Seq<char>) -> Option<Seq<char>> {
    if ends_with(name, "-cap"@) {
        None
    } else if contains(name, "-paldea"@) {
        Some("Paldea"@)
    } else if contains(name, "-hisui"@) {
        Some("Hisui"@)
    } else if contains(name, "-galar"@) {
        Some("Galar"@)
    } else if contains(name, "-alola"@) {
        Some("Alola"@)
    } else {
        None
    }
}

/// The region a Pokémon belongs to: fixed for some Pokémon by name or by
/// national number, else the region its name carries, else the main region
/// of its species' generation (`region`).
pub open spec fn region_category(name: Seq<char>, id: i64, region: Seq<char>) -> Seq<char> {
    if (starts_with(name, "zygarde"@) && (contains(name, "10"@) || contains(name, "power-construct"@)
        || contains(name, "complete"@))) || contains(name, "-totem"@) {
        "Alola"@
    } else if 808 <= id < 810 {
        "Unknown"@
    } else if (name != "ursaluna-bloodmoon"@ && 899 <= id < 906) || name == "basculin-white-striped"@
        || name == "dialga-origin"@ || name == "palkia-origin"@ {
        "Hisui"@
    } else if name == "ursaluna-bloodmoon"@ || 1009 <= id < 1026 {
        "Paldea"@
    } else {
        match regional_form(name) {
            Some(c) => c,
            None => region,
        }
    }
}

/// The category of the Pokémon `name` of national number `id`: `Gmax` for
/// Gigantamax and Eternamax forms, `Mega` for Mega and Primal forms, else
/// its region.
pub open spec fn category(name: Seq<char>, id: i64, region: Seq<char>) -> Seq<char> {
    if ends_with(name, "gmax"@) || ends_with(name, "eternamax"@) {
        "Gmax"@
    } else if ends_with(name, "-mega"@) || ends_with(name, "-mega-x"@) || ends_with(name, "-mega-y"@)
        || ends_with(name, "-mega-z"@) || ends_with(name, "-primal"@) {
        "Mega"@
    } else {
        region_category(name, id, region)
    }
}

/// The regional form named in `name`, if any.
fn regional_form_of(name: &Vec<char>) -> (r: Option<&'static str>)
    ensures
        match r {
            Some(c) => regional_form(name@) == Some(c@),
            None => regional_form(name@) is None,
        },
{
    if has_suffix(name, "-cap") {
        None
    } else if has_infix(name, "-paldea") {
        Some("Paldea")
    } else if has_infix(name, "-hisui") {
        Some("Hisui")
    } else if has_infix(name, "-galar") {
        Some("Galar")
    } else if has_infix(name, "-alola") {
        Some("Alola")
    } else {
        None
    }
}

/// The category of the Pokémon `name` of national number `id`, whose
/// species' generation has the main region `region`.
pub fn category_of(name: &str, id: i64, region: &str) -> (r: String)
    ensures
        r@ == category(name@, id, region@),
{
    let n = chars_of(name);
    if has_suffix(&n, "gmax") || has_suffix(&n, "eternamax") {
        string_from("Gmax")
    } else if has_suffix(&n, "-mega") || has_suffix(&n, "-mega-x") || has_suffix(&n, "-mega-y")
        || has_suffix(&n, "-mega-z") || has_suffix(&n, "-primal") {
        string_from("Mega")
    } else if (has_prefix(&n, "zygarde") && (has_infix(&n, "10") || has_infix(&n, "power-construct")
        || has_infix(&n, "complete"))) || has_infix(&n, "-totem") {
        string_from("Alola")
    } else if 808 <= id && id < 810 {
        string_from("Unknown")
    } else if (!eq_str(&n, "ursaluna-bloodmoon") && 899 <= id && id < 906) || eq_str(
        &n,
        "basculin-white-striped",
    ) || eq_str(&n, "dialga-origin") || eq_str(&n, "palkia-origin") {
        string_from("Hisui")
    } else if eq_str(&n, "ursaluna-bloodmoon") || (1009 <= id && id < 1026) {
        string_from("Paldea")
    } else {
        match regional_form_of(&n) {
            Some(c) => string_from(c),
            None => string_from(region),
        }
    }
}

/// The number of the first entry of `dex` in the Pokédex `name`.
pub open spec fn first_entry(dex: Seq<DexEntry>, name: Seq<char>) -> Option<i64>
    decreases dex.len(),
{
    if dex.len() == 0 {
        None
    } else if dex[0].pokedex@ == name {
        Some(dex[0].entry_number)
    } else {
        first_entry(dex.drop_first(), name)
    }
}

/// The number of the last entry of `dex` in the Pokédex `name`.
pub open spec fn last_entry(dex: Seq<DexEntry>, name: Seq<char>) -> Option<i64>
    decreases dex.len(),
{
    if dex.len() == 0 {
        None
    } else if dex.last().pokedex@ == name {
        Some(dex.last().entry_number)
    } else {
        last_entry(dex.drop_last(), name)
    }
}

/// One step through a list of Pokédexes taken in turn: a positive number
/// found so far stands; otherwise the species' first entry in `name`, offset
/// by `start`, replaces it when there is one.
pub open spec fn next_dex(dex: Seq<DexEntry>, name: Seq<char>, start: int, found: int) -> int {
    if found > 0 {
        found
    } else {
        match first_entry(dex, name) {
            Some(e) => start + e,
            None => found,
        }
    }
}

/// The step `next_dex` stays within `i64`.
pub open spec fn next_dex_fits(dex: Seq<DexEntry>, name: Seq<char>, start: int, found: int) -> bool {
    next_dex(dex, name, start, found) <= i64::MAX
}

/// The order of a Galar Pokémon: its number in the Galar Pokédex, else in
/// the Isle of Armor one offset by 400, else in the Crown Tundra one offset
/// by 611.
pub open spec fn galar_order(dex: Seq<DexEntry>) -> int {
    next_dex(dex, "crown-tundra"@, 611, next_dex(dex, "isle-of-armor"@, 400, next_dex(dex, "galar"@, 0, 0)))
}

/// The order of a Paldea Pokémon: its number in the Paldea Pokédex, else in
/// the Kitakami one offset by 400, else in the Blueberry one offset by 600.
pub open spec fn paldea_order(dex: Seq<DexEntry>) -> int {
    next_dex(dex, "blueberry"@, 600, next_dex(dex, "kitakami"@, 400, next_dex(dex, "paldea"@, 0, 0)))
}

/// The number a Pokémon is ordered by within its category: regional
/// Pokédex numbers for the Galar, Paldea, Alola and Hisui categories, else
/// the national number `id`; 0 when the regional Pokédex has no entry.
pub open spec fn category_order(category: Seq<char>, dex: Seq<DexEntry>, id: i64) -> int {
    if category == "Galar"@ {
        galar_order(dex)
    } else if category == "Paldea"@ {
        paldea_order(dex)
    } else if category == "Alola"@ {
        match last_entry(dex, "updated-alola"@) {
            Some(e) => e as int,
            None => 0,
        }
    } else if category == "Hisui"@ {
        match last_entry(dex, "hisui"@) {
            Some(e) => e as int,
            None => 0,
        }
    } else {
        id as int
    }
}

/// Computing `category_order` stays within `i64`.
pub open spec fn category_order_fits(category: Seq<char>, dex: Seq<DexEntry>) -> bool {
    &&& category == "Galar"@ ==> {
        &&& next_dex_fits(dex, "galar"@, 0, 0)
        &&& next_dex_fits(dex, "isle-of-armor"@, 400, next_dex(dex, "galar"@, 0, 0))
        &&& next_dex_fits(dex, "crown-tundra"@, 611, next_dex(dex, "isle-of-armor"@, 400, next_dex(dex, "galar"@, 0, 0)))
    }
    &&& category == "Paldea"@ ==> {
        &&& next_dex_fits(dex, "paldea"@, 0, 0)
        &&& next_dex_fits(dex, "kitakami"@, 400, next_dex(dex, "paldea"@, 0, 0))
        &&& next_dex_fits(dex, "blueberry"@, 600, next_dex(dex, "kitakami"@, 400, next_dex(dex, "paldea"@, 0, 0)))
    }
}

/// The first entry of `dex` in the Pokédex `name`.
fn first_entry_in(dex: &Vec<DexEntry>, name: &str) -> (r: Option<i64>)
    ensures
        r == first_entry(dex@, name@),
{
    let mut i: usize = 0;
    assert(dex@.skip(0) == dex@);
    while i < dex.len()
        invariant
            i <= dex.len(),
            first_entry(dex@.skip(i as int), name@) == first_entry(dex@, name@),
        decreases dex.len() - i,
    {
        let ghost rest = dex@.skip(i as int);
        assert(rest.drop_first() == dex@.skip(i + 1));
        assert(rest[0] == dex@[i as int]);
        let p = chars_of(dex[i].pokedex.as_str());
        if eq_str(&p, name) {
            return Some(dex[i].entry_number);
        }
        i = i + 1;
    }
    assert(dex@.skip(i as int).len() == 0);
    None
}

/// The last entry of `dex` in the Pokédex `name`.
fn last_entry_in(dex: &Vec<DexEntry>, name: &str) -> (r: Option<i64>)
    ensures
        r == last_entry(dex@, name@),
{
    let mut found: Option<i64> = None;
    let mut i: usize = 0;
    while i < dex.len()
        invariant
            i <= dex.len(),
            found == last_entry(dex@.take(i as int), name@),
        decreases dex.len() - i,
    {
        let ghost t = dex@.take(i + 1);
        assert(t.drop_last() == dex@.take(i as int));
        assert(t.last() == dex@[i as int]);
        let p = chars_of(dex[i].pokedex.as_str());
        if eq_str(&p, name) {
            found = Some(dex[i].entry_number);
        }
        i = i + 1;
    }
    assert(dex@.take(dex.len() as int) == dex@);
    found
}

/// One step of `next_dex`.
fn next_dex_in(dex: &Vec<DexEntry>, name: &str, start: i64, found: i64) -> (r: i64)
    requires
        0 <= start,
        next_dex_fits(dex@, name@, start as int, found as int),
    ensures
        r == next_dex(dex@, name@, start as int, found as int),
{
    if found > 0 {
        found
    } else {
        match first_entry_in(dex, name) {
            Some(e) => start + e,
            None => found,
        }
    }
}

/// The number the Pokémon with national number `id` and Pokédex entries
/// `dex` is ordered by within `category`; 0 when none is found.
pub fn category_order_of(category: &str, dex: &Vec<DexEntry>, id: i64) -> (r: i64)
    requires
        category_order_fits(category@, dex@),
    ensures
        r == category_order(category@, dex@, id),
{
    let c = chars_of(category);
    if eq_str(&c, "Galar") {
        let a = next_dex_in(dex, "galar", 0, 0);
        let b = next_dex_in(dex, "isle-of-armor", 400, a);
        next_dex_in(dex, "crown-tundra", 611, b)
    } else if eq_str(&c, "Paldea") {
        let a = next_dex_in(dex, "paldea", 0, 0);
        let b = next_dex_in(dex, "kitakami", 400, a);
        next_dex_in(dex, "blueberry", 600, b)
    } else if eq_str(&c, "Alola") {
        match last_entry_in(dex, "updated-alola") {
            Some(e) => e,
            None => 0,
        }
    } else if eq_str(&c, "Hisui") {
        match last_entry_in(dex, "hisui") {
            Some(e) => e,
            None => 0,
        }
    } else {
        id
    }
}

/// One step of `next_dex`, computed without bounds on the result.
fn next_dex_wide(dex: &Vec<DexEntry>, name: &str, start: i128, found: i128) -> (r: i128)
    requires
        0 <= start <= 611,
        -0x1_0000_0000_0000_0000 <= found <= 0x1_0000_0000_0000_0000,
    ensures
        r == next_dex(dex@, name@, start as int, found as int),
        -0x1_0000_0000_0000_0000 <= r <= 0x1_0000_0000_0000_0000,
{
    if found > 0 {
        found
    } else {
        match first_entry_in(dex, name) {
            Some(e) => start + e as i128,
            None => found,
        }
    }
}

/// Whether computing `category_order` for `category` stays within `i64`.
pub fn category_order_fits_of(category: &str, dex: &Vec<DexEntry>) -> (r: bool)
    ensures
        r == category_order_fits(category@, dex@),
{
    let c = chars_of(category);
    let galar = eq_str(&c, "Galar");
    let paldea = eq_str(&c, "Paldea");
    let mut fits = true;
    if galar {
        let a = next_dex_wide(dex, "galar", 0, 0);
        let b = next_dex_wide(dex, "isle-of-armor", 400, a);
        let d = next_dex_wide(dex, "crown-tundra", 611, b);
        fits = a <= i64::MAX as i128 && b <= i64::MAX as i128 && d <= i64::MAX as i128;
    }
    if paldea {
        let a = next_dex_wide(dex, "paldea", 0, 0);
        let b = next_dex_wide(dex, "kitakami", 400, a);
        let d = next_dex_wide(dex, "blueberry", 600, b);
        fits = fits && a <= i64::MAX as i128 && b <= i64::MAX as i128 && d <= i64::MAX as i128;
    }
    fits
}

/// The rules that give a Pokémon its category, each over the name, the
/// national number and the generation's region: Gigantamax and Eternamax
/// forms are `Gmax`; then Mega and Primal forms are `Mega`; then special
/// Zygarde forms and Totem forms are `Alola`; then numbers 808-809 are
/// `Unknown`; then numbers 899-905 (but Bloodmoon Ursaluna) and three
/// Hisuian forms are `Hisui`; then Bloodmoon Ursaluna and numbers 1009-1025
/// are `Paldea`; then a region named in the identifier (not for `-cap`
/// forms; the latest of Alola, Galar, Hisui, Paldea); else the region.
pub proof fn law_category_rules(name: Seq<char>, id: i64, region: Seq<char>)
    ensures
        ({
            let gmax = ends_with(name, "gmax"@) || ends_with(name, "eternamax"@);
            let mega = ends_with(name, "-mega"@) || ends_with(name, "-mega-x"@) || ends_with(name, "-mega-y"@)
                || ends_with(name, "-mega-z"@) || ends_with(name, "-primal"@);
            let alola = (starts_with(name, "zygarde"@) && (contains(name, "10"@) || contains(name, "power-construct"@)
                || contains(name, "complete"@))) || contains(name, "-totem"@);
            let unknown = 808 <= id && id <= 809;
            let hisui = (name != "ursaluna-bloodmoon"@ && 899 <= id && id <= 905) || name == "basculin-white-striped"@
                || name == "dialga-origin"@ || name == "palkia-origin"@;
            let paldea = name == "ursaluna-bloodmoon"@ || (1009 <= id && id <= 1025);
            let special = gmax || mega || alola || unknown || hisui || paldea;
            let cap = ends_with(name, "-cap"@);
            &&& gmax ==> category(name, id, region) == "Gmax"@
            &&& !gmax && mega ==> category(name, id, region) == "Mega"@
            &&& !gmax && !mega && alola ==> category(name, id, region) == "Alola"@
            &&& !gmax && !mega && !alola && unknown ==> category(name, id, region) == "Unknown"@
            &&& !gmax && !mega && !alola && !unknown && hisui ==> category(name, id, region) == "Hisui"@
            &&& !gmax && !mega && !alola && !unknown && !hisui && paldea ==> category(name, id, region) == "Paldea"@
            &&& !special && !cap && contains(name, "-paldea"@) ==> category(name, id, region) == "Paldea"@
            &&& !special && !cap && !contains(name, "-paldea"@) && contains(name, "-hisui"@)
                ==> category(name, id, region) == "Hisui"@
            &&& !special && !cap && !contains(name, "-paldea"@) && !contains(name, "-hisui"@)
                && contains(name, "-galar"@) ==> category(name, id, region) == "Galar"@
            &&& !special && !cap && !contains(name, "-paldea"@) && !contains(name, "-hisui"@)
                && !contains(name, "-galar"@) && contains(name, "-alola"@) ==> category(name, id, region) == "Alola"@
            &&& !special && (cap || (!contains(name, "-paldea"@) && !contains(name, "-hisui"@)
                && !contains(name, "-galar"@) && !contains(name, "-alola"@))) ==> category(name, id, region) == region
        }),
{
}

/// The first entry of `dex` in the Pokédex `name` is the one at `k`.
pub proof fn lemma_first_entry_at(dex: Seq<DexEntry>, name: Seq<char>, k: int)
    requires
        0 <= k < dex.len(),
        dex[k].pokedex@ == name,
        forall|j: int| 0 <= j < k ==> (#[trigger] dex[j]).pokedex@ != name,
    ensures
        first_entry(dex, name) == Some(dex[k].entry_number),
    decreases k,
{
    if k > 0 {
        assert(dex[0].pokedex@ != name);
        let rest = dex.drop_first();
        assert forall|j: int| 0 <= j < k - 1 implies (#[trigger] rest[j]).pokedex@ != name by {
            assert(rest[j] == dex[j + 1]);
        }
        lemma_first_entry_at(rest, name, k - 1);
    }
}

/// `dex` has no entry in the Pokédex `name`.
pub proof fn lemma_no_entry(dex: Seq<DexEntry>, name: Seq<char>)
    requires
        forall|j: int| 0 <= j < dex.len() ==> (#[trigger] dex[j]).pokedex@ != name,
    ensures
        first_entry(dex, name) is None,
        last_entry(dex, name) is None,
    decreases dex.len(),
{
    if dex.len() > 0 {
        let rest = dex.drop_first();
        assert forall|j: int| 0 <= j < rest.len() implies (#[trigger] rest[j]).pokedex@ != name by {
            assert(rest[j] == dex[j + 1]);
        }
        lemma_no_entry(rest, name);
        let init = dex.drop_last();
        assert forall|j: int| 0 <= j < init.len() implies (#[trigger] init[j]).pokedex@ != name by {
            assert(init[j] == dex[j]);
        }
        lemma_no_entry(init, name);
        assert(dex[dex.len() - 1].pokedex@ != name);
    }
}

/// The last entry of `dex` in the Pokédex `name` is the one at `k`.
pub proof fn lemma_last_entry_at(dex: Seq<DexEntry>, name: Seq<char>, k: int)
    requires
        0 <= k < dex.len(),
        dex[k].pokedex@ == name,
        forall|j: int| k < j < dex.len() ==> (#[trigger] dex[j]).pokedex@ != name,
    ensures
        last_entry(dex, name) == Some(dex[k].entry_number),
    decreases dex.len(),
{
    if k < dex.len() - 1 {
        assert(dex[dex.len() - 1].pokedex@ != name);
        let init = dex.drop_last();
        assert forall|j: int| k < j < init.len() implies (#[trigger] init[j]).pokedex@ != name by {
            assert(init[j] == dex[j]);
        }
        lemma_last_entry_at(init, name, k);
    }
}

/// The ordering number of a Galar Pokémon: its first Galar Pokédex number
/// when that is positive, whatever other entries it has; without a Galar
/// entry, its first Isle of Armor number plus 400 when that is positive;
/// without either, its first Crown Tundra number plus 611; with none, 0.
pub proof fn law_galar_order(dex: Seq<DexEntry>, id: i64)
    ensures
        forall|k: int| 0 <= k < dex.len() && (#[trigger] dex[k]).pokedex@ == "galar"@ && dex[k].entry_number > 0
            && (forall|j: int| 0 <= j < k ==> (#[trigger] dex[j]).pokedex@ != "galar"@)
            ==> category_order("Galar"@, dex, id) == dex[k].entry_number,
        (forall|j: int| 0 <= j < dex.len() ==> (#[trigger] dex[j]).pokedex@ != "galar"@) ==> (
            forall|k: int| 0 <= k < dex.len() && (#[trigger] dex[k]).pokedex@ == "isle-of-armor"@
                && dex[k].entry_number > 0
                && (forall|j: int| 0 <= j < k ==> (#[trigger] dex[j]).pokedex@ != "isle-of-armor"@)
                ==> category_order("Galar"@, dex, id) == 400 + dex[k].entry_number),
        (forall|j: int| 0 <= j < dex.len() ==> (#[trigger] dex[j]).pokedex@ != "galar"@
            && dex[j].pokedex@ != "isle-of-armor"@) ==> (
            forall|k: int| 0 <= k < dex.len() && (#[trigger] dex[k]).pokedex@ == "crown-tundra"@
                && (forall|j: int| 0 <= j < k ==> (#[trigger] dex[j]).pokedex@ != "crown-tundra"@)
                ==> category_order("Galar"@, dex, id) == 611 + dex[k].entry_number),
        (forall|j: int| 0 <= j < dex.len() ==> (#[trigger] dex[j]).pokedex@ != "galar"@
            && dex[j].pokedex@ != "isle-of-armor"@ && dex[j].pokedex@ != "crown-tundra"@)
            ==> category_order("Galar"@, dex, id) == 0,
{
    assert forall|k: int| 0 <= k < dex.len() && (#[trigger] dex[k]).pokedex@ == "galar"@ && dex[k].entry_number > 0
        && (forall|j: int| 0 <= j < k ==> (#[trigger] dex[j]).pokedex@ != "galar"@)
        implies category_order("Galar"@, dex, id) == dex[k].entry_number by {
        lemma_first_entry_at(dex, "galar"@, k);
    }
    if forall|j: int| 0 <= j < dex.len() ==> (#[trigger] dex[j]).pokedex@ != "galar"@ {
        lemma_no_entry(dex, "galar"@);
        assert forall|k: int| 0 <= k < dex.len() && (#[trigger] dex[k]).pokedex@ == "isle-of-armor"@
            && dex[k].entry_number > 0
            && (forall|j: int| 0 <= j < k ==> (#[trigger] dex[j]).pokedex@ != "isle-of-armor"@)
            implies category_order("Galar"@, dex, id) == 400 + dex[k].entry_number by {
            lemma_first_entry_at(dex, "isle-of-armor"@, k);
        }
    }
    if forall|j: int| 0 <= j < dex.len() ==> (#[trigger] dex[j]).pokedex@ != "galar"@
        && dex[j].pokedex@ != "isle-of-armor"@ {
        lemma_no_entry(dex, "galar"@);
        lemma_no_entry(dex, "isle-of-armor"@);
        assert forall|k: int| 0 <= k < dex.len() && (#[trigger] dex[k]).pokedex@ == "crown-tundra"@
            && (forall|j: int| 0 <= j < k ==> (#[trigger] dex[j]).pokedex@ != "crown-tundra"@)
            implies category_order("Galar"@, dex, id) == 611 + dex[k].entry_number by {
            lemma_first_entry_at(dex, "crown-tundra"@, k);
        }
    }
    if forall|j: int| 0 <= j < dex.len() ==> (#[trigger] dex[j]).pokedex@ != "galar"@
        && dex[j].pokedex@ != "isle-of-armor"@ && dex[j].pokedex@ != "crown-tundra"@ {
        lemma_no_entry(dex, "galar"@);
        lemma_no_entry(dex, "isle-of-armor"@);
        lemma_no_entry(dex, "crown-tundra"@);
    }
}

/// The ordering number of a Paldea Pokémon: its first Paldea Pokédex number
/// when that is positive, whatever other entries it has; without a Paldea
/// entry, its first Kitakami number plus 400 when that is positive; without
/// either, its first Blueberry number plus 600; with none, 0.
pub proof fn law_paldea_order(dex: Seq<DexEntry>, id: i64)
    ensures
        forall|k: int| 0 <= k < dex.len() && (#[trigger] dex[k]).pokedex@ == "paldea"@ && dex[k].entry_number > 0
            && (forall|j: int| 0 <= j < k ==> (#[trigger] dex[j]).pokedex@ != "paldea"@)
            ==> category_order("Paldea"@, dex, id) == dex[k].entry_number,
        (forall|j: int| 0 <= j < dex.len() ==> (#[trigger] dex[j]).pokedex@ != "paldea"@) ==> (
            forall|k: int| 0 <= k < dex.len() && (#[trigger] dex[k]).pokedex@ == "kitakami"@
                && dex[k].entry_number > 0
                && (forall|j: int| 0 <= j < k ==> (#[trigger] dex[j]).pokedex@ != "kitakami"@)
                ==> category_order("Paldea"@, dex, id) == 400 + dex[k].entry_number),
        (forall|j: int| 0 <= j < dex.len() ==> (#[trigger] dex[j]).pokedex@ != "paldea"@
            && dex[j].pokedex@ != "kitakami"@) ==> (
            forall|k: int| 0 <= k < dex.len() && (#[trigger] dex[k]).pokedex@ == "blueberry"@
                && (forall|j: int| 0 <= j < k ==> (#[trigger] dex[j]).pokedex@ != "blueberry"@)
                ==> category_order("Paldea"@, dex, id) == 600 + dex[k].entry_number),
        (forall|j: int| 0 <= j < dex.len() ==> (#[trigger] dex[j]).pokedex@ != "paldea"@
            && dex[j].pokedex@ != "kitakami"@ && dex[j].pokedex@ != "blueberry"@)
            ==> category_order("Paldea"@, dex, id) == 0,
{
    reveal_strlit("Galar");
    reveal_strlit("Paldea");
    assert("Galar"@.len() != "Paldea"@.len());
    assert forall|k: int| 0 <= k < dex.len() && (#[trigger] dex[k]).pokedex@ == "paldea"@ && dex[k].entry_number > 0
        && (forall|j: int| 0 <= j < k ==> (#[trigger] dex[j]).pokedex@ != "paldea"@)
        implies category_order("Paldea"@, dex, id) == dex[k].entry_number by {
        lemma_first_entry_at(dex, "paldea"@, k);
    }
    if forall|j: int| 0 <= j < dex.len() ==> (#[trigger] dex[j]).pokedex@ != "paldea"@ {
        lemma_no_entry(dex, "paldea"@);
        assert forall|k: int| 0 <= k < dex.len() && (#[trigger] dex[k]).pokedex@ == "kitakami"@
            && dex[k].entry_number > 0
            && (forall|j: int| 0 <= j < k ==> (#[trigger] dex[j]).pokedex@ != "kitakami"@)
            implies category_order("Paldea"@, dex, id) == 400 + dex[k].entry_number by {
            lemma_first_entry_at(dex, "kitakami"@, k);
        }
    }
    if forall|j: int| 0 <= j < dex.len() ==> (#[trigger] dex[j]).pokedex@ != "paldea"@
        && dex[j].pokedex@ != "kitakami"@ {
        lemma_no_entry(dex, "paldea"@);
        lemma_no_entry(dex, "kitakami"@);
        assert forall|k: int| 0 <= k < dex.len() && (#[trigger] dex[k]).pokedex@ == "blueberry"@
            && (forall|j: int| 0 <= j < k ==> (#[trigger] dex[j]).pokedex@ != "blueberry"@)
            implies category_order("Paldea"@, dex, id) == 600 + dex[k].entry_number by {
            lemma_first_entry_at(dex, "blueberry"@, k);
        }
    }
    if forall|j: int| 0 <= j < dex.len() ==> (#[trigger] dex[j]).pokedex@ != "paldea"@
        && dex[j].pokedex@ != "kitakami"@ && dex[j].pokedex@ != "blueberry"@ {
        lemma_no_entry(dex, "paldea"@);
        lemma_no_entry(dex, "kitakami"@);
        lemma_no_entry(dex, "blueberry"@);
    }
}

/// The ordering number of an Alola Pokémon is its last Alola Pokédex
/// (`updated-alola`) number, of a Hisui Pokémon its last Hisui Pokédex
/// number, 0 without one; any other category orders by the national
/// number.
pub proof fn law_single_dex_order(dex: Seq<DexEntry>, id: i64, category: Seq<char>)
    ensures
        forall|k: int| 0 <= k < dex.len() && (#[trigger] dex[k]).pokedex@ == "updated-alola"@
            && (forall|j: int| k < j < dex.len() ==> (#[trigger] dex[j]).pokedex@ != "updated-alola"@)
            ==> category_order("Alola"@, dex, id) == dex[k].entry_number,
        (forall|j: int| 0 <= j < dex.len() ==> (#[trigger] dex[j]).pokedex@ != "updated-alola"@)
            ==> category_order("Alola"@, dex, id) == 0,
        forall|k: int| 0 <= k < dex.len() && (#[trigger] dex[k]).pokedex@ == "hisui"@
            && (forall|j: int| k < j < dex.len() ==> (#[trigger] dex[j]).pokedex@ != "hisui"@)
            ==> category_order("Hisui"@, dex, id) == dex[k].entry_number,
        (forall|j: int| 0 <= j < dex.len() ==> (#[trigger] dex[j]).pokedex@ != "hisui"@)
            ==> category_order("Hisui"@, dex, id) == 0,
        (category != "Galar"@ && category != "Paldea"@ && category != "Alola"@ && category != "Hisui"@)
            ==> category_order(category, dex, id) == id,
{
    reveal_strlit("Galar");
    reveal_strlit("Paldea");
    reveal_strlit("Alola");
    reveal_strlit("Hisui");
    assert("Galar"@[0] != "Alola"@[0] && "Galar"@[0] != "Hisui"@[0]);
    assert("Paldea"@.len() != "Alola"@.len() && "Paldea"@.len() != "Hisui"@.len());
    assert forall|k: int| 0 <= k < dex.len() && (#[trigger] dex[k]).pokedex@ == "updated-alola"@
        && (forall|j: int| k < j < dex.len() ==> (#[trigger] dex[j]).pokedex@ != "updated-alola"@)
        implies category_order("Alola"@, dex, id) == dex[k].entry_number by {
        lemma_last_entry_at(dex, "updated-alola"@, k);
    }
    if forall|j: int| 0 <= j < dex.len() ==> (#[trigger] dex[j]).pokedex@ != "updated-alola"@ {
        lemma_no_entry(dex, "updated-alola"@);
    }
    assert forall|k: int| 0 <= k < dex.len() && (#[trigger] dex[k]).pokedex@ == "hisui"@
        && (forall|j: int| k < j < dex.len() ==> (#[trigger] dex[j]).pokedex@ != "hisui"@)
        implies category_order("Hisui"@, dex, id) == dex[k].entry_number by {
        lemma_last_entry_at(dex, "hisui"@, k);
    }
    if forall|j: int| 0 <= j < dex.len() ==> (#[trigger] dex[j]).pokedex@ != "hisui"@ {
        lemma_no_entry(dex, "hisui"@);
    }
}

} // verus!
