use pokefilter::category::{category_of, category_order_of, category_order_fits_of, DexEntry};
use pokefilter::cli::{get_appname, BuildOpts, APP_NAME, LAST_SPECIES_ID};
use pokefilter::enums::LanguageId;
use pokefilter::error::FilterError;
use pokefilter::evolution::{chain_evolution_of, evolution_of, EvolutionChain, EvolutionStep};
use pokefilter::names::{form_name_of, local_name_of, name_in_language, pokemon_name_of, FormNames, LocalName, Named};
use pokefilter::paths::{cache_root, check_output, client_cache_dir, data_dir, default_table_path};
use pokefilter::record::{
    build_row, field_of, header_keys, row_fits, sums_fit_of, AbilitySlot, PokemonInfo, SpeciesInfo, Stat, HEADER,
};
use pokefilter::text::split_string;

fn name(lang: &str, text: &str) -> LocalName {
    LocalName { language: Some(lang.to_string()), name: text.to_string() }
}

fn named(resource: &str, en: &str) -> Named {
    Named { resource: resource.to_string(), names: vec![name("fr", "?"), name("en", en)] }
}

fn step(species: &str, evolves_to: &[&str]) -> EvolutionStep {
    EvolutionStep { species: species.to_string(), evolves_to: evolves_to.iter().map(|s| s.to_string()).collect() }
}

fn dex(entries: &[(&str, i64)]) -> Vec<DexEntry> {
    entries.iter().map(|(p, n)| DexEntry { pokedex: p.to_string(), entry_number: *n }).collect()
}

fn charmander() -> (SpeciesInfo, PokemonInfo) {
    let species = SpeciesInfo {
        id: 4,
        name: "charmander".to_string(),
        names: Named {
            resource: "charmander".to_string(),
            names: vec![name("fr", "Salamèche"), name("en", "Charmander")],
        },
        generation: 1,
        region: named("kanto", "Kanto"),
        color: named("red", "Red"),
        egg_groups: vec![named("monster", "Monster"), named("dragon", "Dragon")],
        growth_rate: "medium-slow".to_string(),
        gender_rate: 1,
        hatch_counter: Some(20),
        capture_rate: 45,
        base_happiness: Some(50),
        is_baby: false,
        is_mythical: false,
        is_legendary: false,
        pokedex_numbers: dex(&[("national", 4), ("kanto", 4)]),
        evolution_chain: Some(EvolutionChain {
            species: "charmander".to_string(),
            evolves_to: vec![step("charmeleon", &["charizard"])],
        }),
    };
    let mon = PokemonInfo {
        name: "charmander".to_string(),
        forms: vec![FormNames { is_default: true, names: vec![] }],
        types: vec![named("fire", "Fire")],
        abilities: vec![
            AbilitySlot { ability: named("blaze", "Blaze"), is_hidden: false },
            AbilitySlot { ability: named("solar-power", "Solar Power"), is_hidden: true },
        ],
        held_items: vec![],
        stats: [(39, 0), (52, 0), (43, 0), (60, 0), (50, 0), (65, 1)]
            .iter()
            .map(|(b, e)| Stat { base_stat: *b, effort: *e })
            .collect(),
        base_experience: Some(62),
        height: 6,
        weight: 85,
    };
    (species, mon)
}

#[test]
fn full_row() {
    let (species, mon) = charmander();
    let keys = header_keys();
    assert_eq!(keys.len(), 32);
    assert!(row_fits(&species, &mon, LanguageId::En, &keys));
    let row = build_row(&species, &mon, LanguageId::En, &keys).ok().unwrap();
    assert_eq!(
        row,
        "charmander,4,Charmander,Charmander,1,Fire,Blaze;Solar Power*,Red,Monster;Dragon,,medium-slow,1,\
         39;52;43;60;50;65;309,0;0;0;0;0;1;1,20,62,45,50,6,85,1,false,false,true,false,false,false,false,\
         false,false,Kanto,4"
    );
    assert_eq!(split_string(&row, ',').len(), keys.len());
}

#[test]
fn header_keys_follow_header() {
    let keys = header_keys();
    assert_eq!(keys.join(","), HEADER);
    assert_eq!(keys[0], "identifier");
    assert_eq!(keys[31], "category_order");
}

#[test]
fn french_names() {
    let (species, mon) = charmander();
    let keys = vec!["pokemon".to_string(), "species".to_string()];
    assert_eq!(build_row(&species, &mon, LanguageId::Fr, &keys).ok().unwrap(), "Salamèche,Salamèche");
}

#[test]
fn missing_name_is_an_error() {
    let (species, mon) = charmander();
    let keys = vec!["identifier".to_string(), "types".to_string()];
    match build_row(&species, &mon, LanguageId::De, &keys) {
        Err(FilterError::MissingName(resource, lang)) => {
            assert_eq!(resource, "fire");
            assert_eq!(lang, "de");
        },
        _ => panic!("expected a missing name"),
    }
}

#[test]
fn invalid_key_is_an_error() {
    let (species, mon) = charmander();
    let keys = vec!["identifier".to_string(), "nickname".to_string(), "weight".to_string()];
    match build_row(&species, &mon, LanguageId::En, &keys) {
        Err(e) => {
            let m = e.message("", "");
            assert_eq!(m, format!("invalid key: nickname\n\ntip: valid options are {HEADER}"));
        },
        Ok(_) => panic!("expected an invalid key"),
    }
}

#[test]
fn no_keys_no_fields() {
    let (species, mon) = charmander();
    assert_eq!(build_row(&species, &mon, LanguageId::En, &vec![]).ok().unwrap(), "");
}

#[test]
fn single_fields() {
    let (mut species, mut mon) = charmander();
    let f = |s: &SpeciesInfo, m: &PokemonInfo, k: &str| field_of(s, m, "en", k).ok().unwrap();
    assert_eq!(f(&species, &mon, "is_starter"), "true");
    species.id = 10;
    assert_eq!(f(&species, &mon, "is_starter"), "false");
    mon.name = "pikachu-starter".to_string();
    assert_eq!(f(&species, &mon, "is_starter"), "true");
    species.id = 142;
    assert_eq!(f(&species, &mon, "is_fossil"), "true");
    species.id = 143;
    assert_eq!(f(&species, &mon, "is_fossil"), "false");
    species.id = 799;
    assert_eq!(f(&species, &mon, "is_ub"), "true");
    species.id = 800;
    assert_eq!(f(&species, &mon, "is_ub"), "false");
    species.id = 1023;
    assert_eq!(f(&species, &mon, "is_paradox"), "true");
    species.id = 1024;
    assert_eq!(f(&species, &mon, "is_paradox"), "false");
    species.hatch_counter = None;
    assert_eq!(f(&species, &mon, "hatch_counter"), "");
    species.gender_rate = -1;
    assert_eq!(f(&species, &mon, "gender_rate"), "-1");
}

#[test]
fn stats_overflow_is_detected() {
    let (species, mut mon) = charmander();
    mon.stats = vec![Stat { base_stat: i64::MAX, effort: 0 }, Stat { base_stat: 1, effort: 0 }];
    let keys = vec!["base_stats".to_string()];
    assert!(!row_fits(&species, &mon, LanguageId::En, &keys));
    assert!(row_fits(&species, &mon, LanguageId::En, &vec!["ev_yields".to_string()]));
    assert!(sums_fit_of(&vec![i64::MIN, i64::MAX]));
    assert!(!sums_fit_of(&vec![i64::MIN, -1]));
}

#[test]
fn evolution_from_chain() {
    let three = EvolutionChain {
        species: "charmander".to_string(),
        evolves_to: vec![step("charmeleon", &["charizard"])],
    };
    let e = chain_evolution_of(&three, "charmander");
    assert_eq!((e.stage, e.branched, e.branching), (1, false, false));
    let e = chain_evolution_of(&three, "charmeleon");
    assert_eq!((e.stage, e.branched, e.branching), (2, false, false));
    let e = chain_evolution_of(&three, "charizard");
    assert_eq!((e.stage, e.branched, e.branching), (3, false, false));

    let eevee = EvolutionChain {
        species: "eevee".to_string(),
        evolves_to: vec![step("vaporeon", &[]), step("jolteon", &[]), step("flareon", &[])],
    };
    let e = chain_evolution_of(&eevee, "eevee");
    assert_eq!((e.stage, e.branched, e.branching), (1, false, true));
    // A two-stage line's last member is not placed by the chain.
    let e = chain_evolution_of(&eevee, "jolteon");
    assert_eq!((e.stage, e.branched, e.branching), (0, false, false));

    let oddish = EvolutionChain {
        species: "oddish".to_string(),
        evolves_to: vec![step("gloom", &["vileplume", "bellossom"])],
    };
    let e = chain_evolution_of(&oddish, "gloom");
    assert_eq!((e.stage, e.branched, e.branching), (2, false, true));
    let e = chain_evolution_of(&oddish, "bellossom");
    assert_eq!((e.stage, e.branched, e.branching), (3, true, false));

    let wurmple = EvolutionChain {
        species: "wurmple".to_string(),
        evolves_to: vec![step("silcoon", &["beautifly"]), step("cascoon", &["dustox"])],
    };
    let e = chain_evolution_of(&wurmple, "cascoon");
    assert_eq!((e.stage, e.branched, e.branching), (2, true, false));
    let e = chain_evolution_of(&wurmple, "dustox");
    assert_eq!((e.stage, e.branched, e.branching), (3, false, false));

    let single = EvolutionChain { species: "tauros".to_string(), evolves_to: vec![] };
    let e = chain_evolution_of(&single, "tauros");
    assert_eq!((e.stage, e.branched, e.branching), (0, false, false));
}

#[test]
fn evolution_exceptions() {
    let e = evolution_of("mr-mime-galar", "mr-mime", &None);
    assert_eq!((e.stage, e.branched, e.branching), (2, false, false));
    let e = evolution_of("pikachu-gmax", "pikachu", &None);
    assert_eq!(e.stage, 0);
    let e = evolution_of("basculin-white-striped", "basculin", &None);
    assert_eq!(e.stage, 1);
    let e = evolution_of("mew", "mew", &None);
    assert_eq!((e.stage, e.branched, e.branching), (0, false, false));
}

#[test]
fn categories() {
    assert_eq!(category_of("charizard-gmax", 6, "Kanto"), "Gmax");
    assert_eq!(category_of("eternatus-eternamax", 890, "Galar"), "Gmax");
    assert_eq!(category_of("charizard-mega-x", 6, "Kanto"), "Mega");
    assert_eq!(category_of("groudon-primal", 383, "Hoenn"), "Mega");
    assert_eq!(category_of("zygarde-10-power-construct", 718, "Kalos"), "Alola");
    assert_eq!(category_of("zygarde", 718, "Kalos"), "Kalos");
    assert_eq!(category_of("raticate-totem-alola", 20, "Kanto"), "Alola");
    assert_eq!(category_of("meltan", 808, "Alola"), "Unknown");
    assert_eq!(category_of("wyrdeer", 899, "Paldea"), "Hisui");
    assert_eq!(category_of("ursaluna-bloodmoon", 901, "Galar"), "Paldea");
    assert_eq!(category_of("dialga-origin", 483, "Sinnoh"), "Hisui");
    assert_eq!(category_of("pecharunt", 1025, "Paldea"), "Paldea");
    assert_eq!(category_of("meowth-galar", 52, "Kanto"), "Galar");
    assert_eq!(category_of("pikachu-alola-cap", 25, "Kanto"), "Kanto");
    assert_eq!(category_of("vulpix-alola", 37, "Kanto"), "Alola");
    assert_eq!(category_of("bulbasaur", 1, "Kanto"), "Kanto");
}

#[test]
fn category_orders() {
    let d = dex(&[("national", 52), ("galar", 0), ("isle-of-armor", 5), ("crown-tundra", 9)]);
    assert_eq!(category_order_of("Galar", &d, 52), 405);
    let d = dex(&[("galar", 12), ("galar", 99)]);
    assert_eq!(category_order_of("Galar", &d, 52), 12);
    let d = dex(&[("crown-tundra", 3)]);
    assert_eq!(category_order_of("Galar", &d, 52), 614);
    let d = dex(&[("blueberry", 7)]);
    assert_eq!(category_order_of("Paldea", &d, 1), 607);
    let d = dex(&[("updated-alola", 3), ("updated-alola", 8)]);
    assert_eq!(category_order_of("Alola", &d, 1), 8);
    let d = dex(&[("hisui", 40)]);
    assert_eq!(category_order_of("Hisui", &d, 1), 40);
    assert_eq!(category_order_of("Hisui", &dex(&[]), 1), 0);
    assert_eq!(category_order_of("Kanto", &dex(&[]), 25), 25);
    assert!(!category_order_fits_of("Galar", &dex(&[("crown-tundra", i64::MAX)])));
    assert!(category_order_fits_of("Galar", &dex(&[("galar", i64::MAX)])));
    assert!(category_order_fits_of("Kanto", &dex(&[("crown-tundra", i64::MAX)])));
}

#[test]
fn missing_ordering_is_an_error() {
    let (mut species, mut mon) = charmander();
    species.region = named("alola", "Alola");
    mon.name = "rowlet".to_string();
    match field_of(&species, &mon, "en", "category_order") {
        Err(e) => assert_eq!(e.message("", ""), "failed to retrieve appropriate pokedex ordering"),
        Ok(_) => panic!("expected a missing ordering"),
    }
}

#[test]
fn localized_names() {
    let names = vec![
        LocalName { language: None, name: "x".to_string() },
        name("en", "First"),
        name("en", "Second"),
    ];
    assert_eq!(name_in_language(&names, "en"), Some("First".to_string()));
    assert_eq!(name_in_language(&names, "ko"), None);
    let n = Named { resource: "fire".to_string(), names: names };
    assert_eq!(local_name_of(&n, "en").ok(), Some("First".to_string()));
    assert!(local_name_of(&n, "ja").is_err());
}

#[test]
fn form_names() {
    let forms = vec![
        FormNames { is_default: false, names: vec![name("en", "Other")] },
        FormNames { is_default: true, names: vec![] },
        FormNames { is_default: true, names: vec![name("en", "Alolan Raichu")] },
        FormNames { is_default: true, names: vec![name("en", "Later")] },
    ];
    assert_eq!(form_name_of(&forms, "en"), Some("Alolan Raichu".to_string()));
    assert_eq!(form_name_of(&forms, "fr"), None);
    let species = named("raichu", "Raichu");
    assert_eq!(pokemon_name_of(&forms, &species, "en").ok(), Some("Alolan Raichu".to_string()));
    assert_eq!(pokemon_name_of(&forms, &species, "fr").ok(), Some("?".to_string()));
}

#[test]
fn command_line() {
    assert_eq!(get_appname(), APP_NAME);
    let all = BuildOpts { all: true, pokemon: None, pokerange: None, dexnum: None, dexrange: None };
    assert!(all.species_names().is_empty());
    assert_eq!(all.species_range(&vec![]), (1, LAST_SPECIES_ID));
    let one = BuildOpts { all: false, pokemon: Some("pikachu".to_string()), pokerange: None, dexnum: None, dexrange: None };
    assert_eq!(one.species_names(), vec!["pikachu".to_string()]);
    assert_eq!(one.species_range(&vec![25]), (25, 25));
    let range = BuildOpts {
        all: false,
        pokemon: None,
        pokerange: Some(vec!["bulbasaur".to_string(), "venusaur".to_string()]),
        dexnum: None,
        dexrange: None,
    };
    assert_eq!(range.species_names(), vec!["bulbasaur".to_string(), "venusaur".to_string()]);
    assert_eq!(range.species_range(&vec![1, 3]), (1, 3));
    let num = BuildOpts { all: false, pokemon: None, pokerange: None, dexnum: Some(151), dexrange: None };
    assert_eq!(num.species_range(&vec![]), (151, 151));
    let nums = BuildOpts { all: false, pokemon: None, pokerange: None, dexnum: None, dexrange: Some(vec![10, 20]) };
    assert_eq!(nums.species_range(&vec![]), (10, 20));
}

#[test]
fn languages() {
    assert_eq!(LanguageId::En.code(), "en");
    assert_eq!(LanguageId::JaHrkt.code(), "ja-hrkt");
    assert_eq!(LanguageId::PtBr.code(), "pt-br");
    assert_eq!(LanguageId::ZhHans.code(), "zh-hans");
}

#[test]
fn paths() {
    assert_eq!(data_dir("/home/ash"), "/home/ash/.pokefilter");
    assert_eq!(default_table_path(Some("/home/ash/.pokefilter")), "/home/ash/.pokefilter/pokeinfo.csv");
    assert_eq!(default_table_path(None), "pokeinfo.csv");
    assert_eq!(cache_root("/home/ash"), "/home/ash/.cache");
    assert_eq!(client_cache_dir("/home/ash/.cache"), "/home/ash/.cache/pokefilter");
}

#[test]
fn overwrite_check() {
    assert!(check_output("t.csv", false, false).is_ok());
    assert!(check_output("t.csv", true, true).is_ok());
    match check_output("t.csv", true, false) {
        Err(e) => assert_eq!(
            e.message("<", ">"),
            "file t.csv already exists\n\n<tip:> to overwrite it, run 'pokefilter build --force'"
        ),
        Ok(()) => panic!("expected an error"),
    }
}

#[test]
fn messages() {
    assert_eq!(FilterError::SpeciesId(-3).message("", ""), "API error: could not retrieve species with ID -3");
    assert_eq!(
        FilterError::SpeciesName("missingno".to_string()).message("", ""),
        "API error: could not retrieve species missingno"
    );
    assert_eq!(
        FilterError::FileWrite("a.csv".to_string(), "disk full".to_string()).message("", ""),
        "error writing to file a.csv: disk full"
    );
    assert_eq!(FilterError::Record("bad".to_string()).message("", ""), "bad");
}
