//! The evolution stage of a Pokémon and whether its evolution line
//! branches, from a fixed table of exceptions or from the species'
//! evolution chain.
use vstd::prelude::*;
use crate::text::{eq_str, chars_of};

verus! {

/// A Pokémon one step along an evolution chain, with the species it
/// evolves into.
#[derive(Clone, Debug)]
pub struct EvolutionStep {
    /// The species' identifier.
    pub species: String,
    /// The identifiers of the species that it evolves into.
    pub evolves_to: Vec<String>,
}

/// The root of an evolution chain, with its first evolution steps.
#[derive(Clone, Debug)]
pub struct EvolutionChain {
    /// The identifier of the first species of the chain.
    pub species: String,
    /// The species that the first one evolves into.
    pub evolves_to: Vec<EvolutionStep>,
}

/// Evolution facts of a Pokémon: its stage (0 for a single-stage Pokémon,
/// 1 for the first of a line, 2 for the middle of a three-stage line, 3 for
/// the last), whether it is one of several possible evolutions of its
/// predecessor, and whether it can evolve in several ways.
#[derive(Clone, Copy, Debug)]
pub struct Evolution {
    pub stage: i64,
    pub branched: bool,
    pub branching: bool,
}

/// The stage fixed for Pokémon whose evolution the chain data does not
/// describe correctly; such a Pokémon neither branches nor is branched.
pub open spec fn exception_stage(name: Seq<char>) -> Option<i64> {
    if name == "pikachu-starter"@ {
        Some(0i64)
    } else if name == "pikachu-gmax"@ {
        Some(0i64)
    } else if name == "eevee-starter"@ {
        Some(0i64)
    } else if name == "eevee-gmax"@ {
        Some(0i64)
    } else if name == "meowth"@ {
        Some(1i64)
    } else if name == "meowth-alola"@ {
        Some(1i64)
    } else if name == "meowth-galar"@ {
        Some(1i64)
    } else if name == "meowth-gmax"@ {
        Some(1i64)
    } else if name == "persian"@ {
        Some(3i64)
    } else if name == "persian-alola"@ {
        Some(3i64)
    } else if name == "perrserker"@ {
        Some(3i64)
    } else if name == "farfetchd-galar"@ {
        Some(1i64)
    } else if name == "sirfetchd"@ {
        Some(3i64)
    } else if name == "mr-mime"@ {
        Some(3i64)
    } else if name == "mr-mime-galar"@ {
        Some(2i64)
    } else if name == "mr-rime"@ {
        Some(3i64)
    } else if name == "wooper"@ {
        Some(1i64)
    } else if name == "wooper-paldea"@ {
        Some(1i64)
    } else if name == "quagsire"@ {
        Some(3i64)
    } else if name == "clodsire"@ {
        Some(3i64)
    } else if name == "qwilfish"@ {
        Some(0i64)
    } else if name == "qwilfish-hisui"@ {
        Some(1i64)
    } else if name == "overqwil"@ {
        Some(3i64)
    } else if name == "sneasel"@ {
        Some(1i64)
    } else if name == "sneasel-hisui"@ {
        Some(1i64)
    } else if name == "weavile"@ {
        Some(3i64)
    } else if name == "sneasler"@ {
        Some(3i64)
    } else if name == "corsola"@ {
        Some(0i64)
    } else if name == "corsola-galar"@ {
        Some(1i64)
    } else if name == "cursola"@ {
        Some(3i64)
    } else if name == "zigzagoon"@ {
        Some(1i64)
    } else if name == "zigzagoon-galar"@ {
        Some(1i64)
    } else if name == "linoone"@ {
        Some(3i64)
    } else if name == "linoone-galar"@ {
        Some(2i64)
    } else if name == "obstagoon"@ {
        Some(3i64)
    } else if name == "yamask"@ {
        Some(1i64)
    } else if name == "yamask-galar"@ {
        Some(1i64)
    } else if name == "cofagrigus"@ {
        Some(3i64)
    } else if name == "runerigus"@ {
        Some(3i64)
    } else if name == "basculin-red-striped"@ {
        Some(0i64)
    } else if name == "basculin-blue-striped"@ {
        Some(0i64)
    } else if name == "basculin-white-striped"@ {
        Some(1i64)
    } else {
        None
    }
}

/// The stage fixed for the Pokémon named `name`, if it is an exception.
pub fn exception_stage_of(name: &Vec<char>) -> (r: Option<i64>)
    ensures
        r == exception_stage(name@),
{
    if eq_str(name, "pikachu-starter") {
        Some(0)
    } else if eq_str(name, "pikachu-gmax") {
        Some(0)
    } else if eq_str(name, "eevee-starter") {
        Some(0)
    } else if eq_str(name, "eevee-gmax") {
        Some(0)
    } else if eq_str(name, "meowth") {
        Some(1)
    } else if eq_str(name, "meowth-alola") {
        Some(1)
    } else if eq_str(name, "meowth-galar") {
        Some(1)
    } else if eq_str(name, "meowth-gmax") {
        Some(1)
    } else if eq_str(name, "persian") {
        Some(3)
    } else if eq_str(name, "persian-alola") {
        Some(3)
    } else if eq_str(name, "perrserker") {
        Some(3)
    } else if eq_str(name, "farfetchd-galar") {
        Some(1)
    } else if eq_str(name, "sirfetchd") {
        Some(3)
    } else if eq_str(name, "mr-mime") {
        Some(3)
    } else if eq_str(name, "mr-mime-galar") {
        Some(2)
    } else if eq_str(name, "mr-rime") {
        Some(3)
    } else if eq_str(name, "wooper") {
        Some(1)
    } else if eq_str(name, "wooper-paldea") {
        Some(1)
    } else if eq_str(name, "quagsire") {
        Some(3)
    } else if eq_str(name, "clodsire") {
        Some(3)
    } else if eq_str(name, "qwilfish") {
        Some(0)
    } else if eq_str(name, "qwilfish-hisui") {
        Some(1)
    } else if eq_str(name, "overqwil") {
        Some(3)
    } else if eq_str(name, "sneasel") {
        Some(1)
    } else if eq_str(name, "sneasel-hisui") {
        Some(1)
    } else if eq_str(name, "weavile") {
        Some(3)
    } else if eq_str(name, "sneasler") {
        Some(3)
    } else if eq_str(name, "corsola") {
        Some(0)
    } else if eq_str(name, "corsola-galar") {
        Some(1)
    } else if eq_str(name, "cursola") {
        Some(3)
    } else if eq_str(name, "zigzagoon") {
        Some(1)
    } else if eq_str(name, "zigzagoon-galar") {
        Some(1)
    } else if eq_str(name, "linoone") {
        Some(3)
    } else if eq_str(name, "linoone-galar") {
        Some(2)
    } else if eq_str(name, "obstagoon") {
        Some(3)
    } else if eq_str(name, "yamask") {
        Some(1)
    } else if eq_str(name, "yamask-galar") {
        Some(1)
    } else if eq_str(name, "cofagrigus") {
        Some(3)
    } else if eq_str(name, "runerigus") {
        Some(3)
    } else if eq_str(name, "basculin-red-striped") {
        Some(0)
    } else if eq_str(name, "basculin-blue-striped") {
        Some(0)
    } else if eq_str(name, "basculin-white-striped") {
        Some(1)
    } else {
        None
    }
}

/// `names` holds the identifier `sp`.
pub open spec fn names_hold(names: Seq<String>, sp: Seq<char>) -> bool {
    exists|j: int| 0 <= j < names.len() && (#[trigger] names[j])@ == sp
}

/// The step evolves further, and `sp` is the step itself or one of the
/// species that it evolves into.
pub open spec fn hits(step: EvolutionStep, sp: Seq<char>) -> bool {
    step.evolves_to@.len() > 0 && (names_hold(step.evolves_to@, sp) || step.species@ == sp)
}

/// `k` is the first step of `steps` that `hits` `sp`.
pub open spec fn first_hit(steps: Seq<EvolutionStep>, sp: Seq<char>, k: int) -> bool {
    0 <= k < steps.len() && hits(steps[k], sp) && forall|j: int| 0 <= j < k ==> !hits(#[trigger] steps[j], sp)
}

/// The evolution facts of species `sp` read from its chain: the first
/// step that mentions it decides between stage 3 (evolved from that step)
/// and stage 2 (that step); the root of the chain is stage 1, unless stage 2
/// was found; a species the chain does not place is stage 0.
pub open spec fn chain_evolution(c: EvolutionChain, sp: Seq<char>) -> Evolution {
    let steps = c.evolves_to@;
    if steps.len() == 0 {
        Evolution { stage: 0, branched: false, branching: false }
    } else {
        let found = exists|k: int| first_hit(steps, sp, k);
        let k = choose|k: int| first_hit(steps, sp, k);
        let last = found && names_hold(steps[k].evolves_to@, sp);
        let middle = found && !last;
        let branched = if last {
            steps[k].evolves_to@.len() > 1
        } else if middle {
            steps.len() > 1
        } else {
            false
        };
        if !middle && c.species@ == sp {
            Evolution { stage: 1, branched, branching: steps.len() > 1 }
        } else if last {
            Evolution { stage: 3, branched, branching: false }
        } else if middle {
            Evolution { stage: 2, branched, branching: steps[k].evolves_to@.len() > 1 }
        } else {
            Evolution { stage: 0, branched, branching: false }
        }
    }
}

/// The evolution facts of the Pokémon `name` of species `species`: the fixed
/// stage for an exception, else what its evolution chain says, else stage 0.
pub open spec fn evolution(name: Seq<char>, species: Seq<char>, chain: Option<EvolutionChain>) -> Evolution {
    match exception_stage(name) {
        Some(s) => Evolution { stage: s, branched: false, branching: false },
        None => match chain {
            Some(c) => chain_evolution(c, species),
            None => Evolution { stage: 0, branched: false, branching: false },
        },
    }
}

/// Whether `names` holds the identifier `sp`.
fn holds_name(names: &Vec<String>, sp: &str) -> (r: bool)
    ensures
        r == names_hold(names@, sp@),
{
    let mut i: usize = 0;
    while i < names.len()
        invariant
            i <= names.len(),
            forall|j: int| 0 <= j < i ==> (#[trigger] names@[j])@ != sp@,
        decreases names.len() - i,
    {
        let n = chars_of(names[i].as_str());
        if eq_str(&n, sp) {
            assert(names@[i as int]@ == sp@);
            return true;
        }
        i = i + 1;
    }
    false
}

/// The evolution facts of species `sp` read from the chain `c`.
pub fn chain_evolution_of(c: &EvolutionChain, sp: &str) -> (r: Evolution)
    ensures
        r == chain_evolution(*c, sp@),
{
    let steps = &c.evolves_to;
    if steps.len() == 0 {
        return Evolution { stage: 0, branched: false, branching: false };
    }
    let mut stage: i64 = 0;
    let mut branched = false;
    let mut branching = false;
    let mut found_middle = false;
    let mut i: usize = 0;
    while i < steps.len() && stage == 0
        invariant
            i <= steps.len(),
            steps == &c.evolves_to,
            stage == 0 ==> !branched && !branching && !found_middle,
            stage == 0 ==> forall|j: int| 0 <= j < i ==> !hits(#[trigger] steps@[j], sp@),
            stage != 0 ==> stage == 3 && !found_middle && !branching && exists|k: int| first_hit(steps@, sp@, k)
                && names_hold(steps@[k].evolves_to@, sp@) && branched == (steps@[k].evolves_to@.len() > 1),
        decreases steps.len() - i,
    {
        let step = &steps[i];
        if step.evolves_to.len() > 0 {
            if holds_name(&step.evolves_to, sp) {
                stage = 3;
                branched = step.evolves_to.len() > 1;
                assert(first_hit(steps@, sp@, i as int));
            } else {
                let s = chars_of(step.species.as_str());
                if eq_str(&s, sp) {
                    assert(first_hit(steps@, sp@, i as int));
                    stage = 2;
                    branching = step.evolves_to.len() > 1;
                    branched = steps.len() > 1;
                    found_middle = true;
                    proof {
                        lemma_first_hit_unique(steps@, sp@, i as int);
                    }
                    return finish_chain(c, sp, stage, branched, branching, found_middle);
                }
            }
        }
        i = i + 1;
    }
    proof {
        if stage != 0 {
            let k = choose|k: int| first_hit(steps@, sp@, k) && names_hold(steps@[k].evolves_to@, sp@)
                && branched == (steps@[k].evolves_to@.len() > 1);
            lemma_first_hit_unique(steps@, sp@, k);
        } else {
            assert forall|k: int| !first_hit(steps@, sp@, k) by {}
        }
    }
    finish_chain(c, sp, stage, branched, branching, found_middle)
}

/// The last rule of `chain_evolution`: the root of the chain is stage 1
/// unless stage 2 was found.
fn finish_chain(c: &EvolutionChain, sp: &str, stage: i64, branched: bool, branching: bool, found_middle: bool) -> (r: Evolution)
    ensures
        (!found_middle && c.species@ == sp@) ==> r == (Evolution { stage: 1, branched, branching: c.evolves_to@.len() > 1 }),
        !(!found_middle && c.species@ == sp@) ==> r == (Evolution { stage, branched, branching }),
{
    let root = chars_of(c.species.as_str());
    if !found_middle && eq_str(&root, sp) {
        Evolution { stage: 1, branched, branching: c.evolves_to.len() > 1 }
    } else {
        Evolution { stage, branched, branching }
    }
}

/// There is only one first step that hits.
proof fn lemma_first_hit_unique(steps: Seq<EvolutionStep>, sp: Seq<char>, k: int)
    requires
        first_hit(steps, sp, k),
    ensures
        forall|j: int| first_hit(steps, sp, j) ==> j == k,
        (choose|j: int| first_hit(steps, sp, j)) == k,
{
    assert forall|j: int| first_hit(steps, sp, j) implies j == k by {
        if j < k {
            assert(!hits(steps[j], sp));
        } else if j > k {
            assert(!hits(steps[k], sp));
        }
    }
}

/// The evolution facts of the Pokémon `name` of species `species`, given
/// the species' evolution chain where it has one.
pub fn evolution_of(name: &str, species: &str, chain: &Option<EvolutionChain>) -> (r: Evolution)
    ensures
        r == evolution(name@, species@, *chain),
{
    let n = chars_of(name);
    match exception_stage_of(&n) {
        Some(s) => Evolution { stage: s, branched: false, branching: false },
        None => match chain {
            Some(c) => chain_evolution_of(c, species),
            None => Evolution { stage: 0, branched: false, branching: false },
        },
    }
}

/// The stage is always one of 0 (single stage), 1 (first), 2 (middle) and
/// 3 (last), and a Pokémon of the exception table neither branches nor is
/// branched.
pub proof fn law_stage_values(name: Seq<char>, species: Seq<char>, chain: Option<EvolutionChain>)
    ensures
        0 <= evolution(name, species, chain).stage <= 3,
        exception_stage(name) is Some ==> !evolution(name, species, chain).branched
            && !evolution(name, species, chain).branching,
{
}

/// In a three-stage line without branches, whose species are told apart by
/// their identifiers, the first species is stage 1, the middle one stage 2
/// and the last one stage 3, and none of them branches or is branched.
pub proof fn law_three_stage_line(c: EvolutionChain)
    requires
        c.evolves_to@.len() == 1,
        c.evolves_to@[0].evolves_to@.len() == 1,
        c.species@ != c.evolves_to@[0].species@,
        c.species@ != c.evolves_to@[0].evolves_to@[0]@,
        c.evolves_to@[0].species@ != c.evolves_to@[0].evolves_to@[0]@,
    ensures
        chain_evolution(c, c.species@) == (Evolution { stage: 1, branched: false, branching: false }),
        chain_evolution(c, c.evolves_to@[0].species@) == (Evolution { stage: 2, branched: false, branching: false }),
        chain_evolution(c, c.evolves_to@[0].evolves_to@[0]@) == (Evolution { stage: 3, branched: false, branching: false }),
{
    let steps = c.evolves_to@;
    let mid = steps[0];
    let root = c.species@;
    let middle = mid.species@;
    let last = mid.evolves_to@[0]@;
    assert forall|j: int| 0 <= j < mid.evolves_to@.len() implies (#[trigger] mid.evolves_to@[j])@ != root by {}
    assert(!hits(mid, root));
    assert forall|k: int| !first_hit(steps, root, k) by {}
    assert forall|j: int| 0 <= j < mid.evolves_to@.len() implies (#[trigger] mid.evolves_to@[j])@ != middle by {}
    assert(first_hit(steps, middle, 0));
    lemma_first_hit_unique(steps, middle, 0);
    assert(names_hold(mid.evolves_to@, last));
    assert(first_hit(steps, last, 0));
    lemma_first_hit_unique(steps, last, 0);
}

/// The Pokémon whose evolution the chain data gets wrong have fixed stages:
/// these names are exceptions, with these stages, and no other name is.
pub proof fn law_exception_stages()
    ensures
        forall|name: Seq<char>| #[trigger] exception_stage(name) is Some ==> (
            name == "pikachu-starter"@
            || name == "pikachu-gmax"@
            || name == "eevee-starter"@
            || name == "eevee-gmax"@
            || name == "meowth"@
            || name == "meowth-alola"@
            || name == "meowth-galar"@
            || name == "meowth-gmax"@
            || name == "persian"@
            || name == "persian-alola"@
            || name == "perrserker"@
            || name == "farfetchd-galar"@
            || name == "sirfetchd"@
            || name == "mr-mime"@
            || name == "mr-mime-galar"@
            || name == "mr-rime"@
            || name == "wooper"@
            || name == "wooper-paldea"@
            || name == "quagsire"@
            || name == "clodsire"@
            || name == "qwilfish"@
            || name == "qwilfish-hisui"@
            || name == "overqwil"@
            || name == "sneasel"@
            || name == "sneasel-hisui"@
            || name == "weavile"@
            || name == "sneasler"@
            || name == "corsola"@
            || name == "corsola-galar"@
            || name == "cursola"@
            || name == "zigzagoon"@
            || name == "zigzagoon-galar"@
            || name == "linoone"@
            || name == "linoone-galar"@
            || name == "obstagoon"@
            || name == "yamask"@
            || name == "yamask-galar"@
            || name == "cofagrigus"@
            || name == "runerigus"@
            || name == "basculin-red-striped"@
            || name == "basculin-blue-striped"@
            || name == "basculin-white-striped"@),
        exception_stage("pikachu-starter"@) == Some(0i64),
        exception_stage("pikachu-gmax"@) == Some(0i64),
        exception_stage("eevee-starter"@) == Some(0i64),
        exception_stage("eevee-gmax"@) == Some(0i64),
        exception_stage("meowth"@) == Some(1i64),
        exception_stage("meowth-alola"@) == Some(1i64),
        exception_stage("meowth-galar"@) == Some(1i64),
        exception_stage("meowth-gmax"@) == Some(1i64),
        exception_stage("persian"@) == Some(3i64),
        exception_stage("persian-alola"@) == Some(3i64),
        exception_stage("perrserker"@) == Some(3i64),
        exception_stage("farfetchd-galar"@) == Some(1i64),
        exception_stage("sirfetchd"@) == Some(3i64),
        exception_stage("mr-mime"@) == Some(3i64),
        exception_stage("mr-mime-galar"@) == Some(2i64),
        exception_stage("mr-rime"@) == Some(3i64),
        exception_stage("wooper"@) == Some(1i64),
        exception_stage("wooper-paldea"@) == Some(1i64),
        exception_stage("quagsire"@) == Some(3i64),
        exception_stage("clodsire"@) == Some(3i64),
        exception_stage("qwilfish"@) == Some(0i64),
        exception_stage("qwilfish-hisui"@) == Some(1i64),
        exception_stage("overqwil"@) == Some(3i64),
        exception_stage("sneasel"@) == Some(1i64),
        exception_stage("sneasel-hisui"@) == Some(1i64),
        exception_stage("weavile"@) == Some(3i64),
        exception_stage("sneasler"@) == Some(3i64),
        exception_stage("corsola"@) == Some(0i64),
        exception_stage("corsola-galar"@) == Some(1i64),
        exception_stage("cursola"@) == Some(3i64),
        exception_stage("zigzagoon"@) == Some(1i64),
        exception_stage("zigzagoon-galar"@) == Some(1i64),
        exception_stage("linoone"@) == Some(3i64),
        exception_stage("linoone-galar"@) == Some(2i64),
        exception_stage("obstagoon"@) == Some(3i64),
        exception_stage("yamask"@) == Some(1i64),
        exception_stage("yamask-galar"@) == Some(1i64),
        exception_stage("cofagrigus"@) == Some(3i64),
        exception_stage("runerigus"@) == Some(3i64),
        exception_stage("basculin-red-striped"@) == Some(0i64),
        exception_stage("basculin-blue-striped"@) == Some(0i64),
        exception_stage("basculin-white-striped"@) == Some(1i64),
{
    reveal_strlit("pikachu-starter");
    reveal_strlit("pikachu-gmax");
    reveal_strlit("eevee-starter");
    reveal_strlit("eevee-gmax");
    reveal_strlit("meowth");
    reveal_strlit("meowth-alola");
    reveal_strlit("meowth-galar");
    reveal_strlit("meowth-gmax");
    reveal_strlit("persian");
    reveal_strlit("persian-alola");
    reveal_strlit("perrserker");
    reveal_strlit("farfetchd-galar");
    reveal_strlit("sirfetchd");
    reveal_strlit("mr-mime");
    reveal_strlit("mr-mime-galar");
    reveal_strlit("mr-rime");
    reveal_strlit("wooper");
    reveal_strlit("wooper-paldea");
    reveal_strlit("quagsire");
    reveal_strlit("clodsire");
    reveal_strlit("qwilfish");
    reveal_strlit("qwilfish-hisui");
    reveal_strlit("overqwil");
    reveal_strlit("sneasel");
    reveal_strlit("sneasel-hisui");
    reveal_strlit("weavile");
    reveal_strlit("sneasler");
    reveal_strlit("corsola");
    reveal_strlit("corsola-galar");
    reveal_strlit("cursola");
    reveal_strlit("zigzagoon");
    reveal_strlit("zigzagoon-galar");
    reveal_strlit("linoone");
    reveal_strlit("linoone-galar");
    reveal_strlit("obstagoon");
    reveal_strlit("yamask");
    reveal_strlit("yamask-galar");
    reveal_strlit("cofagrigus");
    reveal_strlit("runerigus");
    reveal_strlit("basculin-red-striped");
    reveal_strlit("basculin-blue-striped");
    reveal_strlit("basculin-white-striped");
    assert("pikachu-starter"@.len() == 15);
    assert("pikachu-gmax"@.len() == 12);
    assert("eevee-starter"@.len() == 13);
    assert("eevee-gmax"@.len() == 10);
    assert("meowth"@.len() == 6);
    assert("meowth-alola"@.len() == 12);
    assert("meowth-galar"@.len() == 12);
    assert("meowth-gmax"@.len() == 11);
    assert("persian"@.len() == 7);
    assert("persian-alola"@.len() == 13);
    assert("perrserker"@.len() == 10);
    assert("farfetchd-galar"@.len() == 15);
    assert("sirfetchd"@.len() == 9);
    assert("mr-mime"@.len() == 7);
    assert("mr-mime-galar"@.len() == 13);
    assert("mr-rime"@.len() == 7);
    assert("wooper"@.len() == 6);
    assert("wooper-paldea"@.len() == 13);
    assert("quagsire"@.len() == 8);
    assert("clodsire"@.len() == 8);
    assert("qwilfish"@.len() == 8);
    assert("qwilfish-hisui"@.len() == 14);
    assert("overqwil"@.len() == 8);
    assert("sneasel"@.len() == 7);
    assert("sneasel-hisui"@.len() == 13);
    assert("weavile"@.len() == 7);
    assert("sneasler"@.len() == 8);
    assert("corsola"@.len() == 7);
    assert("corsola-galar"@.len() == 13);
    assert("cursola"@.len() == 7);
    assert("zigzagoon"@.len() == 9);
    assert("zigzagoon-galar"@.len() == 15);
    assert("linoone"@.len() == 7);
    assert("linoone-galar"@.len() == 13);
    assert("obstagoon"@.len() == 9);
    assert("yamask"@.len() == 6);
    assert("yamask-galar"@.len() == 12);
    assert("cofagrigus"@.len() == 10);
    assert("runerigus"@.len() == 9);
    assert("basculin-red-striped"@.len() == 20);
    assert("basculin-blue-striped"@.len() == 21);
    assert("basculin-white-striped"@.len() == 22);
    assert("meowth-alola"@[0] != "pikachu-gmax"@[0]);
    assert("meowth-galar"@[0] != "pikachu-gmax"@[0]);
    assert("meowth-galar"@[7] != "meowth-alola"@[7]);
    assert("persian-alola"@[0] != "eevee-starter"@[0]);
    assert("perrserker"@[0] != "eevee-gmax"@[0]);
    assert("farfetchd-galar"@[0] != "pikachu-starter"@[0]);
    assert("mr-mime"@[0] != "persian"@[0]);
    assert("mr-mime-galar"@[0] != "eevee-starter"@[0]);
    assert("mr-mime-galar"@[0] != "persian-alola"@[0]);
    assert("mr-rime"@[0] != "persian"@[0]);
    assert("mr-rime"@[3] != "mr-mime"@[3]);
    assert("wooper"@[0] != "meowth"@[0]);
    assert("wooper-paldea"@[0] != "eevee-starter"@[0]);
    assert("wooper-paldea"@[0] != "persian-alola"@[0]);
    assert("wooper-paldea"@[0] != "mr-mime-galar"@[0]);
    assert("clodsire"@[0] != "quagsire"@[0]);
    assert("qwilfish"@[1] != "quagsire"@[1]);
    assert("qwilfish"@[0] != "clodsire"@[0]);
    assert("overqwil"@[0] != "quagsire"@[0]);
    assert("overqwil"@[0] != "clodsire"@[0]);
    assert("overqwil"@[0] != "qwilfish"@[0]);
    assert("sneasel"@[0] != "persian"@[0]);
    assert("sneasel"@[0] != "mr-mime"@[0]);
    assert("sneasel"@[0] != "mr-rime"@[0]);
    assert("sneasel-hisui"@[0] != "eevee-starter"@[0]);
    assert("sneasel-hisui"@[0] != "persian-alola"@[0]);
    assert("sneasel-hisui"@[0] != "mr-mime-galar"@[0]);
    assert("sneasel-hisui"@[0] != "wooper-paldea"@[0]);
    assert("weavile"@[0] != "persian"@[0]);
    assert("weavile"@[0] != "mr-mime"@[0]);
    assert("weavile"@[0] != "mr-rime"@[0]);
    assert("weavile"@[0] != "sneasel"@[0]);
    assert("sneasler"@[0] != "quagsire"@[0]);
    assert("sneasler"@[0] != "clodsire"@[0]);
    assert("sneasler"@[0] != "qwilfish"@[0]);
    assert("sneasler"@[0] != "overqwil"@[0]);
    assert("corsola"@[0] != "persian"@[0]);
    assert("corsola"@[0] != "mr-mime"@[0]);
    assert("corsola"@[0] != "mr-rime"@[0]);
    assert("corsola"@[0] != "sneasel"@[0]);
    assert("corsola"@[0] != "weavile"@[0]);
    assert("corsola-galar"@[0] != "eevee-starter"@[0]);
    assert("corsola-galar"@[0] != "persian-alola"@[0]);
    assert("corsola-galar"@[0] != "mr-mime-galar"@[0]);
    assert("corsola-galar"@[0] != "wooper-paldea"@[0]);
    assert("corsola-galar"@[0] != "sneasel-hisui"@[0]);
    assert("cursola"@[0] != "persian"@[0]);
    assert("cursola"@[0] != "mr-mime"@[0]);
    assert("cursola"@[0] != "mr-rime"@[0]);
    assert("cursola"@[0] != "sneasel"@[0]);
    assert("cursola"@[0] != "weavile"@[0]);
    assert("cursola"@[1] != "corsola"@[1]);
    assert("zigzagoon"@[0] != "sirfetchd"@[0]);
    assert("zigzagoon-galar"@[0] != "pikachu-starter"@[0]);
    assert("zigzagoon-galar"@[0] != "farfetchd-galar"@[0]);
    assert("linoone"@[0] != "persian"@[0]);
    assert("linoone"@[0] != "mr-mime"@[0]);
    assert("linoone"@[0] != "mr-rime"@[0]);
    assert("linoone"@[0] != "sneasel"@[0]);
    assert("linoone"@[0] != "weavile"@[0]);
    assert("linoone"@[0] != "corsola"@[0]);
    assert("linoone"@[0] != "cursola"@[0]);
    assert("linoone-galar"@[0] != "eevee-starter"@[0]);
    assert("linoone-galar"@[0] != "persian-alola"@[0]);
    assert("linoone-galar"@[0] != "mr-mime-galar"@[0]);
    assert("linoone-galar"@[0] != "wooper-paldea"@[0]);
    assert("linoone-galar"@[0] != "sneasel-hisui"@[0]);
    assert("linoone-galar"@[0] != "corsola-galar"@[0]);
    assert("obstagoon"@[0] != "sirfetchd"@[0]);
    assert("obstagoon"@[0] != "zigzagoon"@[0]);
    assert("yamask"@[0] != "meowth"@[0]);
    assert("yamask"@[0] != "wooper"@[0]);
    assert("yamask-galar"@[0] != "pikachu-gmax"@[0]);
    assert("yamask-galar"@[0] != "meowth-alola"@[0]);
    assert("yamask-galar"@[0] != "meowth-galar"@[0]);
    assert("cofagrigus"@[0] != "eevee-gmax"@[0]);
    assert("cofagrigus"@[0] != "perrserker"@[0]);
    assert("runerigus"@[0] != "sirfetchd"@[0]);
    assert("runerigus"@[0] != "zigzagoon"@[0]);
    assert("runerigus"@[0] != "obstagoon"@[0]);
    assert(exception_stage("pikachu-starter"@) == Some(0i64));
    assert(exception_stage("pikachu-gmax"@) == Some(0i64));
    assert(exception_stage("eevee-starter"@) == Some(0i64));
    assert(exception_stage("eevee-gmax"@) == Some(0i64));
    assert(exception_stage("meowth"@) == Some(1i64));
    assert(exception_stage("meowth-alola"@) == Some(1i64));
    assert(exception_stage("meowth-galar"@) == Some(1i64));
    assert(exception_stage("meowth-gmax"@) == Some(1i64));
    assert(exception_stage("persian"@) == Some(3i64));
    assert(exception_stage("persian-alola"@) == Some(3i64));
    assert(exception_stage("perrserker"@) == Some(3i64));
    assert(exception_stage("farfetchd-galar"@) == Some(1i64));
    assert(exception_stage("sirfetchd"@) == Some(3i64));
    assert(exception_stage("mr-mime"@) == Some(3i64));
    assert(exception_stage("mr-mime-galar"@) == Some(2i64));
    assert(exception_stage("mr-rime"@) == Some(3i64));
    assert(exception_stage("wooper"@) == Some(1i64));
    assert(exception_stage("wooper-paldea"@) == Some(1i64));
    assert(exception_stage("quagsire"@) == Some(3i64));
    assert(exception_stage("clodsire"@) == Some(3i64));
    assert(exception_stage("qwilfish"@) == Some(0i64));
    assert(exception_stage("qwilfish-hisui"@) == Some(1i64));
    assert(exception_stage("overqwil"@) == Some(3i64));
    assert(exception_stage("sneasel"@) == Some(1i64));
    assert(exception_stage("sneasel-hisui"@) == Some(1i64));
    assert(exception_stage("weavile"@) == Some(3i64));
    assert(exception_stage("sneasler"@) == Some(3i64));
    assert(exception_stage("corsola"@) == Some(0i64));
    assert(exception_stage("corsola-galar"@) == Some(1i64));
    assert(exception_stage("cursola"@) == Some(3i64));
    assert(exception_stage("zigzagoon"@) == Some(1i64));
    assert(exception_stage("zigzagoon-galar"@) == Some(1i64));
    assert(exception_stage("linoone"@) == Some(3i64));
    assert(exception_stage("linoone-galar"@) == Some(2i64));
    assert(exception_stage("obstagoon"@) == Some(3i64));
    assert(exception_stage("yamask"@) == Some(1i64));
    assert(exception_stage("yamask-galar"@) == Some(1i64));
    assert(exception_stage("cofagrigus"@) == Some(3i64));
    assert(exception_stage("runerigus"@) == Some(3i64));
    assert(exception_stage("basculin-red-striped"@) == Some(0i64));
    assert(exception_stage("basculin-blue-striped"@) == Some(0i64));
    assert(exception_stage("basculin-white-striped"@) == Some(1i64));
}

/// A Pokémon of the exception table has its fixed stage whatever its species
/// and chain, and neither branches nor is branched.
pub proof fn law_exception_evolution(name: Seq<char>, species: Seq<char>, chain: Option<EvolutionChain>)
    requires
        exception_stage(name) is Some,
    ensures
        evolution(name, species, chain) == (Evolution {
            stage: exception_stage(name)->0,
            branched: false,
            branching: false,
        }),
{
}

/// No step before `k` evolves further with `sp` as its species or as one of
/// its evolutions.
pub open spec fn unmentioned_before(steps: Seq<EvolutionStep>, sp: Seq<char>, k: int) -> bool {
    forall|j: int| #![trigger steps[j]] 0 <= j < k ==> steps[j].evolves_to@.len() == 0 || (steps[j].species@ != sp
        && forall|i: int| 0 <= i < steps[j].evolves_to@.len() ==> (#[trigger] steps[j].evolves_to@[i])@ != sp)
}

/// Where a chain places a species: its root is stage 1 (branching when it
/// evolves in several ways), a step that evolves further is stage 2
/// (branched when the root evolves in several ways, branching when it does),
/// an evolution of such a step is stage 3 (branched when that step evolves
/// in several ways); the first step mentioning the species decides; a chain
/// without evolutions, or not mentioning the species, gives stage 0.
pub proof fn law_chain_positions(c: EvolutionChain, sp: Seq<char>)
    ensures
        c.evolves_to@.len() == 0 ==> chain_evolution(c, sp) == (Evolution { stage: 0, branched: false, branching: false }),
        (c.evolves_to@.len() > 0 && c.species@ == sp && unmentioned_before(c.evolves_to@, sp, c.evolves_to@.len() as int))
            ==> chain_evolution(c, sp) == (Evolution { stage: 1, branched: false, branching: c.evolves_to@.len() > 1 }),
        (c.evolves_to@.len() > 0 && c.species@ != sp && unmentioned_before(c.evolves_to@, sp, c.evolves_to@.len() as int))
            ==> chain_evolution(c, sp) == (Evolution { stage: 0, branched: false, branching: false }),
        forall|k: int| 0 <= k < c.evolves_to@.len() && unmentioned_before(c.evolves_to@, sp, k)
            && (#[trigger] c.evolves_to@[k]).species@ == sp && c.evolves_to@[k].evolves_to@.len() > 0
            && (forall|i: int| 0 <= i < c.evolves_to@[k].evolves_to@.len() ==> (#[trigger] c.evolves_to@[k].evolves_to@[i])@ != sp)
            ==> chain_evolution(c, sp) == (Evolution {
                stage: 2,
                branched: c.evolves_to@.len() > 1,
                branching: c.evolves_to@[k].evolves_to@.len() > 1,
            }),
        forall|k: int, i: int| 0 <= k < c.evolves_to@.len() && unmentioned_before(c.evolves_to@, sp, k)
            && 0 <= i < c.evolves_to@[k].evolves_to@.len() && (#[trigger] c.evolves_to@[k].evolves_to@[i])@ == sp
            && c.species@ != sp
            ==> chain_evolution(c, sp) == (Evolution {
                stage: 3,
                branched: c.evolves_to@[k].evolves_to@.len() > 1,
                branching: false,
            }),
{
    let steps = c.evolves_to@;
    assert forall|k: int| 0 <= k < steps.len() && unmentioned_before(steps, sp, k) && hits(steps[k], sp) implies
        first_hit(steps, sp, k) by {
        assert forall|j: int| 0 <= j < k implies !hits(#[trigger] steps[j], sp) by {
            if steps[j].evolves_to@.len() > 0 && names_hold(steps[j].evolves_to@, sp) {
                let i = choose|i: int| 0 <= i < steps[j].evolves_to@.len() && (#[trigger] steps[j].evolves_to@[i])@ == sp;
                assert(steps[j].evolves_to@[i]@ != sp);
            }
        }
    }
    if steps.len() > 0 && unmentioned_before(steps, sp, steps.len() as int) {
        assert forall|k: int| !first_hit(steps, sp, k) by {
            if 0 <= k < steps.len() && hits(steps[k], sp) {
                if names_hold(steps[k].evolves_to@, sp) {
                    let i = choose|i: int| 0 <= i < steps[k].evolves_to@.len() && (#[trigger] steps[k].evolves_to@[i])@ == sp;
                    assert(steps[k].evolves_to@[i]@ != sp);
                }
            }
        }
    }
    assert forall|k: int| 0 <= k < steps.len() && unmentioned_before(steps, sp, k)
        && (#[trigger] steps[k]).species@ == sp && steps[k].evolves_to@.len() > 0
        && (forall|i: int| 0 <= i < steps[k].evolves_to@.len() ==> (#[trigger] steps[k].evolves_to@[i])@ != sp)
        implies chain_evolution(c, sp) == (Evolution {
            stage: 2,
            branched: steps.len() > 1,
            branching: steps[k].evolves_to@.len() > 1,
        }) by {
        assert(first_hit(steps, sp, k));
        lemma_first_hit_unique(steps, sp, k);
        if names_hold(steps[k].evolves_to@, sp) {
            let i = choose|i: int| 0 <= i < steps[k].evolves_to@.len() && (#[trigger] steps[k].evolves_to@[i])@ == sp;
            assert(steps[k].evolves_to@[i]@ != sp);
        }
    }
    assert forall|k: int, i: int| 0 <= k < steps.len() && unmentioned_before(steps, sp, k)
        && 0 <= i < steps[k].evolves_to@.len() && (#[trigger] steps[k].evolves_to@[i])@ == sp && c.species@ != sp
        implies chain_evolution(c, sp) == (Evolution {
            stage: 3,
            branched: steps[k].evolves_to@.len() > 1,
            branching: false,
        }) by {
        assert(names_hold(steps[k].evolves_to@, sp));
        assert(first_hit(steps, sp, k));
        lemma_first_hit_unique(steps, sp, k);
    }
}

} // verus!
