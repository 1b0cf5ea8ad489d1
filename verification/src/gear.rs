//! The gear tables of the hero builder: the multiplier of each gear quality,
//! the flat bonuses of socketed elements and spirits, and what each spirit
//! adds to the hero that carries it. Fractions are kept in hundredths.
use crate::text::{chars_of, parse_u8, parse_u8_spec, split_words, str_equals, words};
use vstd::prelude::*;

verus! {

/// Flat attack, defense and health bonuses of a socket.
#[derive(Debug, Clone, Copy, PartialEq, Eq, Structural)]
pub struct FlatBonus {
    pub atk: u32,
    pub def: u32,
    pub hp: u32,
}

/// The multiplier of a gear quality, in hundredths.
pub open spec fn gear_quality_hundredths_spec(quality: Seq<char>) -> Option<u32> {
    if quality == "Normal"@ {
        Some(100)
    } else if quality == "Superior"@ {
        Some(125)
    } else if quality == "Flawless"@ {
        Some(150)
    } else if quality == "Epic"@ {
        Some(200)
    } else if quality == "Legendary"@ {
        Some(300)
    } else {
        None
    }
}

/// The multiplier of a gear quality, in hundredths; `None` for an unknown quality.
pub fn gear_quality_hundredths(quality: &str) -> (res: Option<u32>)
    ensures
        res == gear_quality_hundredths_spec(quality@),
{
    if str_equals(quality, "Normal") {
        Some(100)
    } else if str_equals(quality, "Superior") {
        Some(125)
    } else if str_equals(quality, "Flawless") {
        Some(150)
    } else if str_equals(quality, "Epic") {
        Some(200)
    } else if str_equals(quality, "Legendary") {
        Some(300)
    } else {
        None
    }
}

/// The flat bonuses of a socketed element of tier `tier`; the tier-1
/// "Luxurious 1" and the tier-3 "Opulent 3" elements give more than the
/// others of their tier.
pub open spec fn element_tier_bonus(element: Seq<char>, tier: u8) -> Option<FlatBonus> {
    if tier == 1 {
        if element == "Luxurious 1"@ {
            Some(FlatBonus { atk: 26, def: 18, hp: 5 })
        } else {
            Some(FlatBonus { atk: 14, def: 10, hp: 3 })
        }
    } else if tier == 2 {
        Some(FlatBonus { atk: 38, def: 25, hp: 8 })
    } else if tier == 3 {
        if element == "Opulent 3"@ {
            Some(FlatBonus { atk: 63, def: 42, hp: 13 })
        } else {
            Some(FlatBonus { atk: 48, def: 32, hp: 10 })
        }
    } else if tier == 4 {
        Some(FlatBonus { atk: 89, def: 59, hp: 18 })
    } else {
        None
    }
}

/// The flat bonuses of a socketed element written `name tier`: `None` when
/// it has fewer than two words, its tier is no `u8` or no known tier.
pub open spec fn element_socket_spec(element: Seq<char>) -> Option<FlatBonus> {
    let w = words(element);
    if w.len() < 2 {
        None
    } else {
        match parse_u8_spec(w[1]) {
            Some(tier) => element_tier_bonus(element, tier),
            None => None,
        }
    }
}

/// The flat bonuses of a socketed element (see `element_socket_spec`).
pub fn element_socket_bonus(element: &str) -> (res: Option<FlatBonus>)
    ensures
        res == element_socket_spec(element@),
{
    let w = split_words(element);
    if w.len() < 2 {
        return None;
    }
    assert(w@[1]@ == words(element@)[1]);
    let tier = match parse_u8(w[1].as_str()) {
        Some(t) => t,
        None => {
            return None;
        },
    };
    if tier == 1 {
        if str_equals(element, "Luxurious 1") {
            Some(FlatBonus { atk: 26, def: 18, hp: 5 })
        } else {
            Some(FlatBonus { atk: 14, def: 10, hp: 3 })
        }
    } else if tier == 2 {
        Some(FlatBonus { atk: 38, def: 25, hp: 8 })
    } else if tier == 3 {
        if str_equals(element, "Opulent 3") {
            Some(FlatBonus { atk: 63, def: 42, hp: 13 })
        } else {
            Some(FlatBonus { atk: 48, def: 32, hp: 10 })
        }
    } else if tier == 4 {
        Some(FlatBonus { atk: 89, def: 59, hp: 18 })
    } else {
        None
    }
}

/// The first word of `s`, if it has one.
pub open spec fn first_word(s: Seq<char>) -> Option<Seq<char>> {
    if words(s).len() >= 1 {
        Some(words(s)[0])
    } else {
        None
    }
}

/// Whether a socketed element has the elemental affinity of its gear: its
/// first word is the affinity.
pub fn element_affinity_matches(element: &str, affinity: &str) -> (res: bool)
    ensures
        res == (first_word(element@) == Some(affinity@)),
{
    let w = split_words(element);
    if w.len() < 1 {
        return false;
    }
    assert(w@[0]@ == words(element@)[0]);
    str_equals(w[0].as_str(), affinity)
}

/// The flat bonuses of a spirit of tier `tier` (`T4`, `T5`, `T7`, `T9`,
/// `TM` for Mundra, `T11`, `T12`).
pub open spec fn spirit_tier_bonus(tier: Seq<char>) -> Option<FlatBonus> {
    if tier == "T4"@ {
        Some(FlatBonus { atk: 16, def: 11, hp: 3 })
    } else if tier == "T5"@ {
        Some(FlatBonus { atk: 26, def: 18, hp: 5 })
    } else if tier == "T7"@ {
        Some(FlatBonus { atk: 41, def: 27, hp: 8 })
    } else if tier == "T9"@ {
        Some(FlatBonus { atk: 48, def: 32, hp: 10 })
    } else if tier == "TM"@ {
        Some(FlatBonus { atk: 50, def: 33, hp: 10 })
    } else if tier == "T11"@ {
        Some(FlatBonus { atk: 63, def: 42, hp: 13 })
    } else if tier == "T12"@ {
        Some(FlatBonus { atk: 89, def: 59, hp: 18 })
    } else {
        None
    }
}

/// A socketed spirit written `name tier`: its name and flat bonuses; `None`
/// when it has fewer than two words or an unknown tier.
pub open spec fn spirit_socket_spec(spirit: Seq<char>) -> Option<(Seq<char>, FlatBonus)> {
    let w = words(spirit);
    if w.len() < 2 {
        None
    } else {
        match spirit_tier_bonus(w[1]) {
            Some(b) => Some((w[0], b)),
            None => None,
        }
    }
}

/// The name and flat bonuses of a socketed spirit (see `spirit_socket_spec`).
pub fn spirit_socket(spirit: &str) -> (res: Option<(String, FlatBonus)>)
    ensures
        match res {
            Some((name, bonus)) => spirit_socket_spec(spirit@) == Some((name@, bonus)),
            None => spirit_socket_spec(spirit@) is None,
        },
{
    let w = split_words(spirit);
    if w.len() < 2 {
        return None;
    }
    assert(w@[0]@ == words(spirit@)[0]);
    assert(w@[1]@ == words(spirit@)[1]);
    let t = w[1].as_str();
    let bonus = if str_equals(t, "T4") {
        FlatBonus { atk: 16, def: 11, hp: 3 }
    } else if str_equals(t, "T5") {
        FlatBonus { atk: 26, def: 18, hp: 5 }
    } else if str_equals(t, "T7") {
        FlatBonus { atk: 41, def: 27, hp: 8 }
    } else if str_equals(t, "T9") {
        FlatBonus { atk: 48, def: 32, hp: 10 }
    } else if str_equals(t, "TM") {
        FlatBonus { atk: 50, def: 33, hp: 10 }
    } else if str_equals(t, "T11") {
        FlatBonus { atk: 63, def: 42, hp: 13 }
    } else if str_equals(t, "T12") {
        FlatBonus { atk: 89, def: 59, hp: 18 }
    } else {
        return None;
    };
    Some((w[0].clone(), bonus))
}

/// Whether a socketed spirit named `name` has the spirit affinity of its
/// gear: the gear's affinity is written `---` for none, else its first word
/// names the spirit; `None` for an affinity with no word.
pub open spec fn spirit_affinity_matches_spec(affinity: Seq<char>, name: Seq<char>) -> Option<bool> {
    if affinity == "---"@ {
        Some(name == "NO_SPIRIT_AFFINITY"@)
    } else {
        match first_word(affinity) {
            Some(w) => Some(w == name),
            None => None,
        }
    }
}

/// Whether a socketed spirit matches the spirit affinity of its gear (see
/// `spirit_affinity_matches_spec`).
pub fn spirit_affinity_matches(affinity: &str, name: &str) -> (res: Option<bool>)
    ensures
        res == spirit_affinity_matches_spec(affinity@, name@),
{
    if str_equals(affinity, "---") {
        return Some(str_equals(name, "NO_SPIRIT_AFFINITY"));
    }
    let w = split_words(affinity);
    if w.len() < 1 {
        return None;
    }
    assert(w@[0]@ == words(affinity@)[0]);
    Some(str_equals(w[0].as_str(), name))
}

/// What a spirit adds to the hero that carries it. Fields named `percent`
/// are fractions of the stat, in hundredths; the others are flat amounts.
#[derive(Debug, Clone, Copy, PartialEq, Eq, Structural)]
pub struct SpiritEffect {
    pub atk_value: u32,
    pub atk_percent: u32,
    pub def_value: u32,
    pub def_percent: u32,
    pub hp_value: u32,
    pub hp_percent: u32,
    pub hp_regen_value: u32,
    pub eva_percent: u32,
    pub crit_dmg_percent: u32,
    pub crit_chance_percent: u32,
    pub threat_rating_value: u16,
    pub survive_fatal_blow_chance_percent: u32,
}

/// A spirit effect that adds nothing.
pub open spec fn no_spirit_effect() -> SpiritEffect {
    SpiritEffect {
        atk_value: 0,
        atk_percent: 0,
        def_value: 0,
        def_percent: 0,
        hp_value: 0,
        hp_percent: 0,
        hp_regen_value: 0,
        eva_percent: 0,
        crit_dmg_percent: 0,
        crit_chance_percent: 0,
        threat_rating_value: 0,
        survive_fatal_blow_chance_percent: 0,
    }
}

/// `a` when the spirit matches the affinity of its gear, else `b`.
pub open spec fn pick(matches: bool, a: u32, b: u32) -> u32 {
    if matches {
        a
    } else {
        b
    }
}

/// What the spirit named `name` adds to its hero, with the larger amounts
/// when it matches the spirit affinity of its gear. Spirits not listed add
/// nothing.
pub open spec fn spirit_effect_spec(name: Seq<char>, matches: bool) -> SpiritEffect {
    let z = no_spirit_effect();
    if name == "Armadillo"@ {
        SpiritEffect { survive_fatal_blow_chance_percent: pick(matches, 25, 15), ..z }
    } else if name == "Rhino"@ {
        SpiritEffect { threat_rating_value: if matches { 10 } else { 5 }, ..z }
    } else if name == "Lizard"@ {
        SpiritEffect { hp_regen_value: pick(matches, 5, 3), ..z }
    } else if name == "Wolf"@ {
        SpiritEffect { atk_percent: pick(matches, 10, 5), ..z }
    } else if name == "Ram"@ {
        SpiritEffect { def_percent: pick(matches, 10, 5), ..z }
    } else if name == "Eagle"@ {
        SpiritEffect { crit_chance_percent: pick(matches, 3, 2), ..z }
    } else if name == "Ox"@ {
        SpiritEffect { hp_percent: pick(matches, 5, 3), ..z }
    } else if name == "Viper"@ {
        SpiritEffect { crit_dmg_percent: pick(matches, 20, 15), ..z }
    } else if name == "Cat"@ {
        SpiritEffect { eva_percent: pick(matches, 3, 2), ..z }
    } else if name == "Bear"@ {
        SpiritEffect { atk_percent: pick(matches, 7, 5), hp_value: pick(matches, 20, 15), ..z }
    } else if name == "Walrus"@ {
        SpiritEffect { hp_percent: pick(matches, 8, 5), ..z }
    } else if name == "Mammoth"@ {
        SpiritEffect {
            def_percent: pick(matches, 13, 10),
            threat_rating_value: if matches { 15 } else { 10 },
            ..z
        }
    } else if name == "Lion"@ {
        SpiritEffect { atk_percent: pick(matches, 7, 5), eva_percent: pick(matches, 2, 1), ..z }
    } else if name == "Tiger"@ {
        SpiritEffect { def_percent: pick(matches, 7, 5), eva_percent: pick(matches, 2, 1), ..z }
    } else if name == "Phoenix"@ {
        SpiritEffect { hp_percent: pick(matches, 5, 4), hp_regen_value: pick(matches, 5, 3), ..z }
    } else if name == "Hydra"@ {
        SpiritEffect { def_value: pick(matches, 125, 100), hp_value: pick(matches, 35, 25), ..z }
    } else if name == "Tarrasque"@ {
        SpiritEffect { def_percent: pick(matches, 25, 20), ..z }
    } else if name == "Carbuncle"@ {
        SpiritEffect {
            crit_chance_percent: pick(matches, 3, 2),
            eva_percent: pick(matches, 3, 2),
            ..z
        }
    } else if name == "Chimera"@ {
        SpiritEffect {
            atk_percent: pick(matches, 15, 10),
            crit_dmg_percent: pick(matches, 15, 10),
            ..z
        }
    } else if name == "Kraken"@ {
        SpiritEffect { atk_value: pick(matches, 125, 100), atk_percent: pick(matches, 15, 10), ..z }
    } else {
        z
    }
}

/// A spirit effect that adds nothing.
fn no_effect() -> (res: SpiritEffect)
    ensures
        res == no_spirit_effect(),
{
    SpiritEffect {
        atk_value: 0,
        atk_percent: 0,
        def_value: 0,
        def_percent: 0,
        hp_value: 0,
        hp_percent: 0,
        hp_regen_value: 0,
        eva_percent: 0,
        crit_dmg_percent: 0,
        crit_chance_percent: 0,
        threat_rating_value: 0,
        survive_fatal_blow_chance_percent: 0,
    }
}

/// What the spirit named `name` adds to its hero (see `spirit_effect_spec`).
pub fn spirit_effect(name: &str, matches: bool) -> (res: SpiritEffect)
    ensures
        res == spirit_effect_spec(name@, matches),
{
    let z = no_effect();
    let p = |a: u32, b: u32| -> (r: u32)
        ensures
            r == pick(matches, a, b),
        {
            if matches {
                a
            } else {
                b
            }
        };
    if str_equals(name, "Armadillo") {
        SpiritEffect { survive_fatal_blow_chance_percent: p(25, 15), ..z }
    } else if str_equals(name, "Rhino") {
        SpiritEffect { threat_rating_value: if matches { 10 } else { 5 }, ..z }
    } else if str_equals(name, "Lizard") {
        SpiritEffect { hp_regen_value: p(5, 3), ..z }
    } else if str_equals(name, "Wolf") {
        SpiritEffect { atk_percent: p(10, 5), ..z }
    } else if str_equals(name, "Ram") {
        SpiritEffect { def_percent: p(10, 5), ..z }
    } else if str_equals(name, "Eagle") {
        SpiritEffect { crit_chance_percent: p(3, 2), ..z }
    } else if str_equals(name, "Ox") {
        SpiritEffect { hp_percent: p(5, 3), ..z }
    } else if str_equals(name, "Viper") {
        SpiritEffect { crit_dmg_percent: p(20, 15), ..z }
    } else if str_equals(name, "Cat") {
        SpiritEffect { eva_percent: p(3, 2), ..z }
    } else if str_equals(name, "Bear") {
        SpiritEffect { atk_percent: p(7, 5), hp_value: p(20, 15), ..z }
    } else if str_equals(name, "Walrus") {
        SpiritEffect { hp_percent: p(8, 5), ..z }
    } else if str_equals(name, "Mammoth") {
        SpiritEffect {
            def_percent: p(13, 10),
            threat_rating_value: if matches { 15 } else { 10 },
            ..z
        }
    } else if str_equals(name, "Lion") {
        SpiritEffect { atk_percent: p(7, 5), eva_percent: p(2, 1), ..z }
    } else if str_equals(name, "Tiger") {
        SpiritEffect { def_percent: p(7, 5), eva_percent: p(2, 1), ..z }
    } else if str_equals(name, "Phoenix") {
        SpiritEffect { hp_percent: p(5, 4), hp_regen_value: p(5, 3), ..z }
    } else if str_equals(name, "Hydra") {
        SpiritEffect { def_value: p(125, 100), hp_value: p(35, 25), ..z }
    } else if str_equals(name, "Tarrasque") {
        SpiritEffect { def_percent: p(25, 20), ..z }
    } else if str_equals(name, "Carbuncle") {
        SpiritEffect { crit_chance_percent: p(3, 2), eva_percent: p(3, 2), ..z }
    } else if str_equals(name, "Chimera") {
        SpiritEffect { atk_percent: p(15, 10), crit_dmg_percent: p(15, 10), ..z }
    } else if str_equals(name, "Kraken") {
        SpiritEffect { atk_value: p(125, 100), atk_percent: p(15, 10), ..z }
    } else {
        z
    }
}

/// `text` holds `pattern` at position `i`.
pub open spec fn occurs_at(text: Seq<char>, pattern: Seq<char>, i: int) -> bool {
    0 <= i && i + pattern.len() <= text.len() && text.subrange(i, i + pattern.len()) == pattern
}

/// Whether gear with unlock prerequisite `prerequisite` comes from a chest,
/// which the prerequisite names: such gear has an innate element.
pub fn unlocked_from_chest(prerequisite: &str) -> (res: bool)
    ensures
        res == exists|i: int| occurs_at(prerequisite@, "Chest"@, i),
{
    let text = chars_of(prerequisite);
    let pattern = chars_of("Chest");
    proof {
        reveal_strlit("Chest");
    }
    let n = text.len();
    let m = pattern.len();
    if m > n {
        return false;
    }
    let mut i: usize = 0;
    while i <= n - m
        invariant
            text@ == prerequisite@,
            pattern@ == "Chest"@,
            n == text@.len(),
            m == pattern@.len(),
            m <= n,
            i <= n - m + 1,
            forall|j: int| 0 <= j < i ==> !occurs_at(prerequisite@, "Chest"@, j),
        decreases n - i,
    {
        let mut k: usize = 0;
        while k < m && text[i + k] == pattern[k]
            invariant
                text@ == prerequisite@,
                pattern@ == "Chest"@,
                n == text@.len(),
                m == pattern@.len(),
                i + m <= n,
                k <= m,
                forall|q: int| 0 <= q < k ==> text@[i + q] == pattern@[q],
            decreases m - k,
        {
            k = k + 1;
        }
        if k == m {
            assert(text@.subrange(i as int, i + m) =~= pattern@);
            assert(occurs_at(prerequisite@, "Chest"@, i as int));
            return true;
        }
        proof {
            if occurs_at(prerequisite@, "Chest"@, i as int) {
                assert(text@.subrange(i as int, i + m)[k as int] == text@[i + k]);
            }
        }
        i = i + 1;
    }
    proof {
        assert forall|j: int| !occurs_at(prerequisite@, "Chest"@, j) by {
            if j >= i {
                assert(j + m > n);
            }
        }
    }
    false
}

/// The game's spirit table, stat by stat: each stat is raised only by the
/// spirits listed for it, by the larger amount when the spirit matches the
/// spirit affinity of its gear; every other spirit, and any name that is not
/// a spirit, leaves the stat untouched. Matching never gives less.
pub proof fn lemma_spirits_raise_only_their_stats(name: Seq<char>, matches: bool)
    ensures
        spirit_effect_spec(name, matches).atk_value == (if name == "Kraken"@ {
            if matches { 125 } else { 100 }
        } else {
            0int
        }),
        spirit_effect_spec(name, matches).atk_percent == (if name == "Wolf"@ {
            if matches { 10 } else { 5 }
        } else if name == "Bear"@ {
            if matches { 7 } else { 5 }
        } else if name == "Lion"@ {
            if matches { 7 } else { 5 }
        } else if name == "Chimera"@ {
            if matches { 15 } else { 10 }
        } else if name == "Kraken"@ {
            if matches { 15 } else { 10 }
        } else {
            0int
        }),
        spirit_effect_spec(name, matches).def_value == (if name == "Hydra"@ {
            if matches { 125 } else { 100 }
        } else {
            0int
        }),
        spirit_effect_spec(name, matches).def_percent == (if name == "Ram"@ {
            if matches { 10 } else { 5 }
        } else if name == "Mammoth"@ {
            if matches { 13 } else { 10 }
        } else if name == "Tiger"@ {
            if matches { 7 } else { 5 }
        } else if name == "Tarrasque"@ {
            if matches { 25 } else { 20 }
        } else {
            0int
        }),
        spirit_effect_spec(name, matches).hp_value == (if name == "Bear"@ {
            if matches { 20 } else { 15 }
        } else if name == "Hydra"@ {
            if matches { 35 } else { 25 }
        } else {
            0int
        }),
        spirit_effect_spec(name, matches).hp_percent == (if name == "Ox"@ {
            if matches { 5 } else { 3 }
        } else if name == "Walrus"@ {
            if matches { 8 } else { 5 }
        } else if name == "Phoenix"@ {
            if matches { 5 } else { 4 }
        } else {
            0int
        }),
        spirit_effect_spec(name, matches).hp_regen_value == (if name == "Lizard"@ {
            if matches { 5 } else { 3 }
        } else if name == "Phoenix"@ {
            if matches { 5 } else { 3 }
        } else {
            0int
        }),
        spirit_effect_spec(name, matches).eva_percent == (if name == "Cat"@ {
            if matches { 3 } else { 2 }
        } else if name == "Lion"@ {
            if matches { 2 } else { 1 }
        } else if name == "Tiger"@ {
            if matches { 2 } else { 1 }
        } else if name == "Carbuncle"@ {
            if matches { 3 } else { 2 }
        } else {
            0int
        }),
        spirit_effect_spec(name, matches).crit_dmg_percent == (if name == "Viper"@ {
            if matches { 20 } else { 15 }
        } else if name == "Chimera"@ {
            if matches { 15 } else { 10 }
        } else {
            0int
        }),
        spirit_effect_spec(name, matches).crit_chance_percent == (if name == "Eagle"@ {
            if matches { 3 } else { 2 }
        } else if name == "Carbuncle"@ {
            if matches { 3 } else { 2 }
        } else {
            0int
        }),
        spirit_effect_spec(name, matches).threat_rating_value == (if name == "Rhino"@ {
            if matches { 10 } else { 5 }
        } else if name == "Mammoth"@ {
            if matches { 15 } else { 10 }
        } else {
            0int
        }),
        spirit_effect_spec(name, matches).survive_fatal_blow_chance_percent == (if name == "Armadillo"@ {
            if matches { 25 } else { 15 }
        } else {
            0int
        }),
        spirit_effect_spec(name, true).atk_value >= spirit_effect_spec(name, false).atk_value,
        spirit_effect_spec(name, true).atk_percent >= spirit_effect_spec(name, false).atk_percent,
        spirit_effect_spec(name, true).def_value >= spirit_effect_spec(name, false).def_value,
        spirit_effect_spec(name, true).def_percent >= spirit_effect_spec(name, false).def_percent,
        spirit_effect_spec(name, true).hp_value >= spirit_effect_spec(name, false).hp_value,
        spirit_effect_spec(name, true).hp_percent >= spirit_effect_spec(name, false).hp_percent,
        spirit_effect_spec(name, true).hp_regen_value >= spirit_effect_spec(name, false).hp_regen_value,
        spirit_effect_spec(name, true).eva_percent >= spirit_effect_spec(name, false).eva_percent,
        spirit_effect_spec(name, true).crit_dmg_percent >= spirit_effect_spec(name, false).crit_dmg_percent,
        spirit_effect_spec(name, true).crit_chance_percent >= spirit_effect_spec(name, false).crit_chance_percent,
        spirit_effect_spec(name, true).threat_rating_value >= spirit_effect_spec(name, false).threat_rating_value,
        spirit_effect_spec(name, true).survive_fatal_blow_chance_percent >= spirit_effect_spec(name, false).survive_fatal_blow_chance_percent,
{
    if name == "Armadillo"@ {
        reveal_strlit("Armadillo"); reveal_strlit("Rhino"); reveal_strlit("Lizard"); reveal_strlit("Wolf");
        reveal_strlit("Ram"); reveal_strlit("Eagle"); reveal_strlit("Ox"); reveal_strlit("Viper");
        reveal_strlit("Cat"); reveal_strlit("Bear"); reveal_strlit("Walrus"); reveal_strlit("Mammoth");
        reveal_strlit("Lion"); reveal_strlit("Tiger"); reveal_strlit("Phoenix"); reveal_strlit("Hydra");
        reveal_strlit("Tarrasque"); reveal_strlit("Carbuncle"); reveal_strlit("Chimera"); reveal_strlit("Kraken");
        assert(
            "Armadillo"@.len() != "Rhino"@.len() && "Armadillo"@.len() != "Lizard"@.len()
            && "Armadillo"@.len() != "Wolf"@.len() && "Armadillo"@.len() != "Ram"@.len()
            && "Armadillo"@.len() != "Eagle"@.len() && "Armadillo"@.len() != "Ox"@.len()
            && "Armadillo"@.len() != "Viper"@.len() && "Armadillo"@.len() != "Cat"@.len()
            && "Armadillo"@.len() != "Bear"@.len() && "Armadillo"@.len() != "Walrus"@.len()
            && "Armadillo"@.len() != "Mammoth"@.len() && "Armadillo"@.len() != "Lion"@.len()
            && "Armadillo"@.len() != "Tiger"@.len() && "Armadillo"@.len() != "Phoenix"@.len()
            && "Armadillo"@.len() != "Hydra"@.len() && "Armadillo"@[0] != "Tarrasque"@[0]
            && "Armadillo"@[0] != "Carbuncle"@[0] && "Armadillo"@.len() != "Chimera"@.len()
            && "Armadillo"@.len() != "Kraken"@.len()
        );
    } else if name == "Rhino"@ {
        reveal_strlit("Armadillo"); reveal_strlit("Rhino"); reveal_strlit("Lizard"); reveal_strlit("Wolf");
        reveal_strlit("Ram"); reveal_strlit("Eagle"); reveal_strlit("Ox"); reveal_strlit("Viper");
        reveal_strlit("Cat"); reveal_strlit("Bear"); reveal_strlit("Walrus"); reveal_strlit("Mammoth");
        reveal_strlit("Lion"); reveal_strlit("Tiger"); reveal_strlit("Phoenix"); reveal_strlit("Hydra");
        reveal_strlit("Tarrasque"); reveal_strlit("Carbuncle"); reveal_strlit("Chimera"); reveal_strlit("Kraken");
        assert(
            "Rhino"@.len() != "Armadillo"@.len() && "Rhino"@.len() != "Lizard"@.len()
            && "Rhino"@.len() != "Wolf"@.len() && "Rhino"@.len() != "Ram"@.len()
            && "Rhino"@[0] != "Eagle"@[0] && "Rhino"@.len() != "Ox"@.len()
            && "Rhino"@[0] != "Viper"@[0] && "Rhino"@.len() != "Cat"@.len()
            && "Rhino"@.len() != "Bear"@.len() && "Rhino"@.len() != "Walrus"@.len()
            && "Rhino"@.len() != "Mammoth"@.len() && "Rhino"@.len() != "Lion"@.len()
            && "Rhino"@[0] != "Tiger"@[0] && "Rhino"@.len() != "Phoenix"@.len()
            && "Rhino"@[0] != "Hydra"@[0] && "Rhino"@.len() != "Tarrasque"@.len()
            && "Rhino"@.len() != "Carbuncle"@.len() && "Rhino"@.len() != "Chimera"@.len()
            && "Rhino"@.len() != "Kraken"@.len()
        );
    } else if name == "Lizard"@ {
        reveal_strlit("Armadillo"); reveal_strlit("Rhino"); reveal_strlit("Lizard"); reveal_strlit("Wolf");
        reveal_strlit("Ram"); reveal_strlit("Eagle"); reveal_strlit("Ox"); reveal_strlit("Viper");
        reveal_strlit("Cat"); reveal_strlit("Bear"); reveal_strlit("Walrus"); reveal_strlit("Mammoth");
        reveal_strlit("Lion"); reveal_strlit("Tiger"); reveal_strlit("Phoenix"); reveal_strlit("Hydra");
        reveal_strlit("Tarrasque"); reveal_strlit("Carbuncle"); reveal_strlit("Chimera"); reveal_strlit("Kraken");
        assert(
            "Lizard"@.len() != "Armadillo"@.len() && "Lizard"@.len() != "Rhino"@.len()
            && "Lizard"@.len() != "Wolf"@.len() && "Lizard"@.len() != "Ram"@.len()
            && "Lizard"@.len() != "Eagle"@.len() && "Lizard"@.len() != "Ox"@.len()
            && "Lizard"@.len() != "Viper"@.len() && "Lizard"@.len() != "Cat"@.len()
            && "Lizard"@.len() != "Bear"@.len() && "Lizard"@[0] != "Walrus"@[0]
            && "Lizard"@.len() != "Mammoth"@.len() && "Lizard"@.len() != "Lion"@.len()
            && "Lizard"@.len() != "Tiger"@.len() && "Lizard"@.len() != "Phoenix"@.len()
            && "Lizard"@.len() != "Hydra"@.len() && "Lizard"@.len() != "Tarrasque"@.len()
            && "Lizard"@.len() != "Carbuncle"@.len() && "Lizard"@.len() != "Chimera"@.len()
            && "Lizard"@[0] != "Kraken"@[0]
        );
    } else if name == "Wolf"@ {
        reveal_strlit("Armadillo"); reveal_strlit("Rhino"); reveal_strlit("Lizard"); reveal_strlit("Wolf");
        reveal_strlit("Ram"); reveal_strlit("Eagle"); reveal_strlit("Ox"); reveal_strlit("Viper");
        reveal_strlit("Cat"); reveal_strlit("Bear"); reveal_strlit("Walrus"); reveal_strlit("Mammoth");
        reveal_strlit("Lion"); reveal_strlit("Tiger"); reveal_strlit("Phoenix"); reveal_strlit("Hydra");
        reveal_strlit("Tarrasque"); reveal_strlit("Carbuncle"); reveal_strlit("Chimera"); reveal_strlit("Kraken");
        assert(
            "Wolf"@.len() != "Armadillo"@.len() && "Wolf"@.len() != "Rhino"@.len()
            && "Wolf"@.len() != "Lizard"@.len() && "Wolf"@.len() != "Ram"@.len()
            && "Wolf"@.len() != "Eagle"@.len() && "Wolf"@.len() != "Ox"@.len()
            && "Wolf"@.len() != "Viper"@.len() && "Wolf"@.len() != "Cat"@.len()
            && "Wolf"@[0] != "Bear"@[0] && "Wolf"@.len() != "Walrus"@.len()
            && "Wolf"@.len() != "Mammoth"@.len() && "Wolf"@[0] != "Lion"@[0]
            && "Wolf"@.len() != "Tiger"@.len() && "Wolf"@.len() != "Phoenix"@.len()
            && "Wolf"@.len() != "Hydra"@.len() && "Wolf"@.len() != "Tarrasque"@.len()
            && "Wolf"@.len() != "Carbuncle"@.len() && "Wolf"@.len() != "Chimera"@.len()
            && "Wolf"@.len() != "Kraken"@.len()
        );
    } else if name == "Ram"@ {
        reveal_strlit("Armadillo"); reveal_strlit("Rhino"); reveal_strlit("Lizard"); reveal_strlit("Wolf");
        reveal_strlit("Ram"); reveal_strlit("Eagle"); reveal_strlit("Ox"); reveal_strlit("Viper");
        reveal_strlit("Cat"); reveal_strlit("Bear"); reveal_strlit("Walrus"); reveal_strlit("Mammoth");
        reveal_strlit("Lion"); reveal_strlit("Tiger"); reveal_strlit("Phoenix"); reveal_strlit("Hydra");
        reveal_strlit("Tarrasque"); reveal_strlit("Carbuncle"); reveal_strlit("Chimera"); reveal_strlit("Kraken");
        assert(
            "Ram"@.len() != "Armadillo"@.len() && "Ram"@.len() != "Rhino"@.len()
            && "Ram"@.len() != "Lizard"@.len() && "Ram"@.len() != "Wolf"@.len()
            && "Ram"@.len() != "Eagle"@.len() && "Ram"@.len() != "Ox"@.len()
            && "Ram"@.len() != "Viper"@.len() && "Ram"@[0] != "Cat"@[0]
            && "Ram"@.len() != "Bear"@.len() && "Ram"@.len() != "Walrus"@.len()
            && "Ram"@.len() != "Mammoth"@.len() && "Ram"@.len() != "Lion"@.len()
            && "Ram"@.len() != "Tiger"@.len() && "Ram"@.len() != "Phoenix"@.len()
            && "Ram"@.len() != "Hydra"@.len() && "Ram"@.len() != "Tarrasque"@.len()
            && "Ram"@.len() != "Carbuncle"@.len() && "Ram"@.len() != "Chimera"@.len()
            && "Ram"@.len() != "Kraken"@.len()
        );
    } else if name == "Eagle"@ {
        reveal_strlit("Armadillo"); reveal_strlit("Rhino"); reveal_strlit("Lizard"); reveal_strlit("Wolf");
        reveal_strlit("Ram"); reveal_strlit("Eagle"); reveal_strlit("Ox"); reveal_strlit("Viper");
        reveal_strlit("Cat"); reveal_strlit("Bear"); reveal_strlit("Walrus"); reveal_strlit("Mammoth");
        reveal_strlit("Lion"); reveal_strlit("Tiger"); reveal_strlit("Phoenix"); reveal_strlit("Hydra");
        reveal_strlit("Tarrasque"); reveal_strlit("Carbuncle"); reveal_strlit("Chimera"); reveal_strlit("Kraken");
        assert(
            "Eagle"@.len() != "Armadillo"@.len() && "Eagle"@[0] != "Rhino"@[0]
            && "Eagle"@.len() != "Lizard"@.len() && "Eagle"@.len() != "Wolf"@.len()
            && "Eagle"@.len() != "Ram"@.len() && "Eagle"@.len() != "Ox"@.len()
            && "Eagle"@[0] != "Viper"@[0] && "Eagle"@.len() != "Cat"@.len()
            && "Eagle"@.len() != "Bear"@.len() && "Eagle"@.len() != "Walrus"@.len()
            && "Eagle"@.len() != "Mammoth"@.len() && "Eagle"@.len() != "Lion"@.len()
            && "Eagle"@[0] != "Tiger"@[0] && "Eagle"@.len() != "Phoenix"@.len()
            && "Eagle"@[0] != "Hydra"@[0] && "Eagle"@.len() != "Tarrasque"@.len()
            && "Eagle"@.len() != "Carbuncle"@.len() && "Eagle"@.len() != "Chimera"@.len()
            && "Eagle"@.len() != "Kraken"@.len()
        );
    } else if name == "Ox"@ {
        reveal_strlit("Armadillo"); reveal_strlit("Rhino"); reveal_strlit("Lizard"); reveal_strlit("Wolf");
        reveal_strlit("Ram"); reveal_strlit("Eagle"); reveal_strlit("Ox"); reveal_strlit("Viper");
        reveal_strlit("Cat"); reveal_strlit("Bear"); reveal_strlit("Walrus"); reveal_strlit("Mammoth");
        reveal_strlit("Lion"); reveal_strlit("Tiger"); reveal_strlit("Phoenix"); reveal_strlit("Hydra");
        reveal_strlit("Tarrasque"); reveal_strlit("Carbuncle"); reveal_strlit("Chimera"); reveal_strlit("Kraken");
        assert(
            "Ox"@.len() != "Armadillo"@.len() && "Ox"@.len() != "Rhino"@.len()
            && "Ox"@.len() != "Lizard"@.len() && "Ox"@.len() != "Wolf"@.len()
            && "Ox"@.len() != "Ram"@.len() && "Ox"@.len() != "Eagle"@.len()
            && "Ox"@.len() != "Viper"@.len() && "Ox"@.len() != "Cat"@.len()
            && "Ox"@.len() != "Bear"@.len() && "Ox"@.len() != "Walrus"@.len()
            && "Ox"@.len() != "Mammoth"@.len() && "Ox"@.len() != "Lion"@.len()
            && "Ox"@.len() != "Tiger"@.len() && "Ox"@.len() != "Phoenix"@.len()
            && "Ox"@.len() != "Hydra"@.len() && "Ox"@.len() != "Tarrasque"@.len()
            && "Ox"@.len() != "Carbuncle"@.len() && "Ox"@.len() != "Chimera"@.len()
            && "Ox"@.len() != "Kraken"@.len()
        );
    } else if name == "Viper"@ {
        reveal_strlit("Armadillo"); reveal_strlit("Rhino"); reveal_strlit("Lizard"); reveal_strlit("Wolf");
        reveal_strlit("Ram"); reveal_strlit("Eagle"); reveal_strlit("Ox"); reveal_strlit("Viper");
        reveal_strlit("Cat"); reveal_strlit("Bear"); reveal_strlit("Walrus"); reveal_strlit("Mammoth");
        reveal_strlit("Lion"); reveal_strlit("Tiger"); reveal_strlit("Phoenix"); reveal_strlit("Hydra");
        reveal_strlit("Tarrasque"); reveal_strlit("Carbuncle"); reveal_strlit("Chimera"); reveal_strlit("Kraken");
        assert(
            "Viper"@.len() != "Armadillo"@.len() && "Viper"@[0] != "Rhino"@[0]
            && "Viper"@.len() != "Lizard"@.len() && "Viper"@.len() != "Wolf"@.len()
            && "Viper"@.len() != "Ram"@.len() && "Viper"@[0] != "Eagle"@[0]
            && "Viper"@.len() != "Ox"@.len() && "Viper"@.len() != "Cat"@.len()
            && "Viper"@.len() != "Bear"@.len() && "Viper"@.len() != "Walrus"@.len()
            && "Viper"@.len() != "Mammoth"@.len() && "Viper"@.len() != "Lion"@.len()
            && "Viper"@[0] != "Tiger"@[0] && "Viper"@.len() != "Phoenix"@.len()
            && "Viper"@[0] != "Hydra"@[0] && "Viper"@.len() != "Tarrasque"@.len()
            && "Viper"@.len() != "Carbuncle"@.len() && "Viper"@.len() != "Chimera"@.len()
            && "Viper"@.len() != "Kraken"@.len()
        );
    } else if name == "Cat"@ {
        reveal_strlit("Armadillo"); reveal_strlit("Rhino"); reveal_strlit("Lizard"); reveal_strlit("Wolf");
        reveal_strlit("Ram"); reveal_strlit("Eagle"); reveal_strlit("Ox"); reveal_strlit("Viper");
        reveal_strlit("Cat"); reveal_strlit("Bear"); reveal_strlit("Walrus"); reveal_strlit("Mammoth");
        reveal_strlit("Lion"); reveal_strlit("Tiger"); reveal_strlit("Phoenix"); reveal_strlit("Hydra");
        reveal_strlit("Tarrasque"); reveal_strlit("Carbuncle"); reveal_strlit("Chimera"); reveal_strlit("Kraken");
        assert(
            "Cat"@.len() != "Armadillo"@.len() && "Cat"@.len() != "Rhino"@.len()
            && "Cat"@.len() != "Lizard"@.len() && "Cat"@.len() != "Wolf"@.len()
            && "Cat"@[0] != "Ram"@[0] && "Cat"@.len() != "Eagle"@.len()
            && "Cat"@.len() != "Ox"@.len() && "Cat"@.len() != "Viper"@.len()
            && "Cat"@.len() != "Bear"@.len() && "Cat"@.len() != "Walrus"@.len()
            && "Cat"@.len() != "Mammoth"@.len() && "Cat"@.len() != "Lion"@.len()
            && "Cat"@.len() != "Tiger"@.len() && "Cat"@.len() != "Phoenix"@.len()
            && "Cat"@.len() != "Hydra"@.len() && "Cat"@.len() != "Tarrasque"@.len()
            && "Cat"@.len() != "Carbuncle"@.len() && "Cat"@.len() != "Chimera"@.len()
            && "Cat"@.len() != "Kraken"@.len()
        );
    } else if name == "Bear"@ {
        reveal_strlit("Armadillo"); reveal_strlit("Rhino"); reveal_strlit("Lizard"); reveal_strlit("Wolf");
        reveal_strlit("Ram"); reveal_strlit("Eagle"); reveal_strlit("Ox"); reveal_strlit("Viper");
        reveal_strlit("Cat"); reveal_strlit("Bear"); reveal_strlit("Walrus"); reveal_strlit("Mammoth");
        reveal_strlit("Lion"); reveal_strlit("Tiger"); reveal_strlit("Phoenix"); reveal_strlit("Hydra");
        reveal_strlit("Tarrasque"); reveal_strlit("Carbuncle"); reveal_strlit("Chimera"); reveal_strlit("Kraken");
        assert(
            "Bear"@.len() != "Armadillo"@.len() && "Bear"@.len() != "Rhino"@.len()
            && "Bear"@.len() != "Lizard"@.len() && "Bear"@[0] != "Wolf"@[0]
            && "Bear"@.len() != "Ram"@.len() && "Bear"@.len() != "Eagle"@.len()
            && "Bear"@.len() != "Ox"@.len() && "Bear"@.len() != "Viper"@.len()
            && "Bear"@.len() != "Cat"@.len() && "Bear"@.len() != "Walrus"@.len()
            && "Bear"@.len() != "Mammoth"@.len() && "Bear"@[0] != "Lion"@[0]
            && "Bear"@.len() != "Tiger"@.len() && "Bear"@.len() != "Phoenix"@.len()
            && "Bear"@.len() != "Hydra"@.len() && "Bear"@.len() != "Tarrasque"@.len()
            && "Bear"@.len() != "Carbuncle"@.len() && "Bear"@.len() != "Chimera"@.len()
            && "Bear"@.len() != "Kraken"@.len()
        );
    } else if name == "Walrus"@ {
        reveal_strlit("Armadillo"); reveal_strlit("Rhino"); reveal_strlit("Lizard"); reveal_strlit("Wolf");
        reveal_strlit("Ram"); reveal_strlit("Eagle"); reveal_strlit("Ox"); reveal_strlit("Viper");
        reveal_strlit("Cat"); reveal_strlit("Bear"); reveal_strlit("Walrus"); reveal_strlit("Mammoth");
        reveal_strlit("Lion"); reveal_strlit("Tiger"); reveal_strlit("Phoenix"); reveal_strlit("Hydra");
        reveal_strlit("Tarrasque"); reveal_strlit("Carbuncle"); reveal_strlit("Chimera"); reveal_strlit("Kraken");
        assert(
            "Walrus"@.len() != "Armadillo"@.len() && "Walrus"@.len() != "Rhino"@.len()
            && "Walrus"@[0] != "Lizard"@[0] && "Walrus"@.len() != "Wolf"@.len()
            && "Walrus"@.len() != "Ram"@.len() && "Walrus"@.len() != "Eagle"@.len()
            && "Walrus"@.len() != "Ox"@.len() && "Walrus"@.len() != "Viper"@.len()
            && "Walrus"@.len() != "Cat"@.len() && "Walrus"@.len() != "Bear"@.len()
            && "Walrus"@.len() != "Mammoth"@.len() && "Walrus"@.len() != "Lion"@.len()
            && "Walrus"@.len() != "Tiger"@.len() && "Walrus"@.len() != "Phoenix"@.len()
            && "Walrus"@.len() != "Hydra"@.len() && "Walrus"@.len() != "Tarrasque"@.len()
            && "Walrus"@.len() != "Carbuncle"@.len() && "Walrus"@.len() != "Chimera"@.len()
            && "Walrus"@[0] != "Kraken"@[0]
        );
    } else if name == "Mammoth"@ {
        reveal_strlit("Armadillo"); reveal_strlit("Rhino"); reveal_strlit("Lizard"); reveal_strlit("Wolf");
        reveal_strlit("Ram"); reveal_strlit("Eagle"); reveal_strlit("Ox"); reveal_strlit("Viper");
        reveal_strlit("Cat"); reveal_strlit("Bear"); reveal_strlit("Walrus"); reveal_strlit("Mammoth");
        reveal_strlit("Lion"); reveal_strlit("Tiger"); reveal_strlit("Phoenix"); reveal_strlit("Hydra");
        reveal_strlit("Tarrasque"); reveal_strlit("Carbuncle"); reveal_strlit("Chimera"); reveal_strlit("Kraken");
        assert(
            "Mammoth"@.len() != "Armadillo"@.len() && "Mammoth"@.len() != "Rhino"@.len()
            && "Mammoth"@.len() != "Lizard"@.len() && "Mammoth"@.len() != "Wolf"@.len()
            && "Mammoth"@.len() != "Ram"@.len() && "Mammoth"@.len() != "Eagle"@.len()
            && "Mammoth"@.len() != "Ox"@.len() && "Mammoth"@.len() != "Viper"@.len()
            && "Mammoth"@.len() != "Cat"@.len() && "Mammoth"@.len() != "Bear"@.len()
            && "Mammoth"@.len() != "Walrus"@.len() && "Mammoth"@.len() != "Lion"@.len()
            && "Mammoth"@.len() != "Tiger"@.len() && "Mammoth"@[0] != "Phoenix"@[0]
            && "Mammoth"@.len() != "Hydra"@.len() && "Mammoth"@.len() != "Tarrasque"@.len()
            && "Mammoth"@.len() != "Carbuncle"@.len() && "Mammoth"@[0] != "Chimera"@[0]
            && "Mammoth"@.len() != "Kraken"@.len()
        );
    } else if name == "Lion"@ {
        reveal_strlit("Armadillo"); reveal_strlit("Rhino"); reveal_strlit("Lizard"); reveal_strlit("Wolf");
        reveal_strlit("Ram"); reveal_strlit("Eagle"); reveal_strlit("Ox"); reveal_strlit("Viper");
        reveal_strlit("Cat"); reveal_strlit("Bear"); reveal_strlit("Walrus"); reveal_strlit("Mammoth");
        reveal_strlit("Lion"); reveal_strlit("Tiger"); reveal_strlit("Phoenix"); reveal_strlit("Hydra");
        reveal_strlit("Tarrasque"); reveal_strlit("Carbuncle"); reveal_strlit("Chimera"); reveal_strlit("Kraken");
        assert(
            "Lion"@.len() != "Armadillo"@.len() && "Lion"@.len() != "Rhino"@.len()
            && "Lion"@.len() != "Lizard"@.len() && "Lion"@[0] != "Wolf"@[0]
            && "Lion"@.len() != "Ram"@.len() && "Lion"@.len() != "Eagle"@.len()
            && "Lion"@.len() != "Ox"@.len() && "Lion"@.len() != "Viper"@.len()
            && "Lion"@.len() != "Cat"@.len() && "Lion"@[0] != "Bear"@[0]
            && "Lion"@.len() != "Walrus"@.len() && "Lion"@.len() != "Mammoth"@.len()
            && "Lion"@.len() != "Tiger"@.len() && "Lion"@.len() != "Phoenix"@.len()
            && "Lion"@.len() != "Hydra"@.len() && "Lion"@.len() != "Tarrasque"@.len()
            && "Lion"@.len() != "Carbuncle"@.len() && "Lion"@.len() != "Chimera"@.len()
            && "Lion"@.len() != "Kraken"@.len()
        );
    } else if name == "Tiger"@ {
        reveal_strlit("Armadillo"); reveal_strlit("Rhino"); reveal_strlit("Lizard"); reveal_strlit("Wolf");
        reveal_strlit("Ram"); reveal_strlit("Eagle"); reveal_strlit("Ox"); reveal_strlit("Viper");
        reveal_strlit("Cat"); reveal_strlit("Bear"); reveal_strlit("Walrus"); reveal_strlit("Mammoth");
        reveal_strlit("Lion"); reveal_strlit("Tiger"); reveal_strlit("Phoenix"); reveal_strlit("Hydra");
        reveal_strlit("Tarrasque"); reveal_strlit("Carbuncle"); reveal_strlit("Chimera"); reveal_strlit("Kraken");
        assert(
            "Tiger"@.len() != "Armadillo"@.len() && "Tiger"@[0] != "Rhino"@[0]
            && "Tiger"@.len() != "Lizard"@.len() && "Tiger"@.len() != "Wolf"@.len()
            && "Tiger"@.len() != "Ram"@.len() && "Tiger"@[0] != "Eagle"@[0]
            && "Tiger"@.len() != "Ox"@.len() && "Tiger"@[0] != "Viper"@[0]
            && "Tiger"@.len() != "Cat"@.len() && "Tiger"@.len() != "Bear"@.len()
            && "Tiger"@.len() != "Walrus"@.len() && "Tiger"@.len() != "Mammoth"@.len()
            && "Tiger"@.len() != "Lion"@.len() && "Tiger"@.len() != "Phoenix"@.len()
            && "Tiger"@[0] != "Hydra"@[0] && "Tiger"@.len() != "Tarrasque"@.len()
            && "Tiger"@.len() != "Carbuncle"@.len() && "Tiger"@.len() != "Chimera"@.len()
            && "Tiger"@.len() != "Kraken"@.len()
        );
    } else if name == "Phoenix"@ {
        reveal_strlit("Armadillo"); reveal_strlit("Rhino"); reveal_strlit("Lizard"); reveal_strlit("Wolf");
        reveal_strlit("Ram"); reveal_strlit("Eagle"); reveal_strlit("Ox"); reveal_strlit("Viper");
        reveal_strlit("Cat"); reveal_strlit("Bear"); reveal_strlit("Walrus"); reveal_strlit("Mammoth");
        reveal_strlit("Lion"); reveal_strlit("Tiger"); reveal_strlit("Phoenix"); reveal_strlit("Hydra");
        reveal_strlit("Tarrasque"); reveal_strlit("Carbuncle"); reveal_strlit("Chimera"); reveal_strlit("Kraken");
        assert(
            "Phoenix"@.len() != "Armadillo"@.len() && "Phoenix"@.len() != "Rhino"@.len()
            && "Phoenix"@.len() != "Lizard"@.len() && "Phoenix"@.len() != "Wolf"@.len()
            && "Phoenix"@.len() != "Ram"@.len() && "Phoenix"@.len() != "Eagle"@.len()
            && "Phoenix"@.len() != "Ox"@.len() && "Phoenix"@.len() != "Viper"@.len()
            && "Phoenix"@.len() != "Cat"@.len() && "Phoenix"@.len() != "Bear"@.len()
            && "Phoenix"@.len() != "Walrus"@.len() && "Phoenix"@[0] != "Mammoth"@[0]
            && "Phoenix"@.len() != "Lion"@.len() && "Phoenix"@.len() != "Tiger"@.len()
            && "Phoenix"@.len() != "Hydra"@.len() && "Phoenix"@.len() != "Tarrasque"@.len()
            && "Phoenix"@.len() != "Carbuncle"@.len() && "Phoenix"@[0] != "Chimera"@[0]
            && "Phoenix"@.len() != "Kraken"@.len()
        );
    } else if name == "Hydra"@ {
        reveal_strlit("Armadillo"); reveal_strlit("Rhino"); reveal_strlit("Lizard"); reveal_strlit("Wolf");
        reveal_strlit("Ram"); reveal_strlit("Eagle"); reveal_strlit("Ox"); reveal_strlit("Viper");
        reveal_strlit("Cat"); reveal_strlit("Bear"); reveal_strlit("Walrus"); reveal_strlit("Mammoth");
        reveal_strlit("Lion"); reveal_strlit("Tiger"); reveal_strlit("Phoenix"); reveal_strlit("Hydra");
        reveal_strlit("Tarrasque"); reveal_strlit("Carbuncle"); reveal_strlit("Chimera"); reveal_strlit("Kraken");
        assert(
            "Hydra"@.len() != "Armadillo"@.len() && "Hydra"@[0] != "Rhino"@[0]
            && "Hydra"@.len() != "Lizard"@.len() && "Hydra"@.len() != "Wolf"@.len()
            && "Hydra"@.len() != "Ram"@.len() && "Hydra"@[0] != "Eagle"@[0]
            && "Hydra"@.len() != "Ox"@.len() && "Hydra"@[0] != "Viper"@[0]
            && "Hydra"@.len() != "Cat"@.len() && "Hydra"@.len() != "Bear"@.len()
            && "Hydra"@.len() != "Walrus"@.len() && "Hydra"@.len() != "Mammoth"@.len()
            && "Hydra"@.len() != "Lion"@.len() && "Hydra"@[0] != "Tiger"@[0]
            && "Hydra"@.len() != "Phoenix"@.len() && "Hydra"@.len() != "Tarrasque"@.len()
            && "Hydra"@.len() != "Carbuncle"@.len() && "Hydra"@.len() != "Chimera"@.len()
            && "Hydra"@.len() != "Kraken"@.len()
        );
    } else if name == "Tarrasque"@ {
        reveal_strlit("Armadillo"); reveal_strlit("Rhino"); reveal_strlit("Lizard"); reveal_strlit("Wolf");
        reveal_strlit("Ram"); reveal_strlit("Eagle"); reveal_strlit("Ox"); reveal_strlit("Viper");
        reveal_strlit("Cat"); reveal_strlit("Bear"); reveal_strlit("Walrus"); reveal_strlit("Mammoth");
        reveal_strlit("Lion"); reveal_strlit("Tiger"); reveal_strlit("Phoenix"); reveal_strlit("Hydra");
        reveal_strlit("Tarrasque"); reveal_strlit("Carbuncle"); reveal_strlit("Chimera"); reveal_strlit("Kraken");
        assert(
            "Tarrasque"@[0] != "Armadillo"@[0] && "Tarrasque"@.len() != "Rhino"@.len()
            && "Tarrasque"@.len() != "Lizard"@.len() && "Tarrasque"@.len() != "Wolf"@.len()
            && "Tarrasque"@.len() != "Ram"@.len() && "Tarrasque"@.len() != "Eagle"@.len()
            && "Tarrasque"@.len() != "Ox"@.len() && "Tarrasque"@.len() != "Viper"@.len()
            && "Tarrasque"@.len() != "Cat"@.len() && "Tarrasque"@.len() != "Bear"@.len()
            && "Tarrasque"@.len() != "Walrus"@.len() && "Tarrasque"@.len() != "Mammoth"@.len()
            && "Tarrasque"@.len() != "Lion"@.len() && "Tarrasque"@.len() != "Tiger"@.len()
            && "Tarrasque"@.len() != "Phoenix"@.len() && "Tarrasque"@.len() != "Hydra"@.len()
            && "Tarrasque"@[0] != "Carbuncle"@[0] && "Tarrasque"@.len() != "Chimera"@.len()
            && "Tarrasque"@.len() != "Kraken"@.len()
        );
    } else if name == "Carbuncle"@ {
        reveal_strlit("Armadillo"); reveal_strlit("Rhino"); reveal_strlit("Lizard"); reveal_strlit("Wolf");
        reveal_strlit("Ram"); reveal_strlit("Eagle"); reveal_strlit("Ox"); reveal_strlit("Viper");
        reveal_strlit("Cat"); reveal_strlit("Bear"); reveal_strlit("Walrus"); reveal_strlit("Mammoth");
        reveal_strlit("Lion"); reveal_strlit("Tiger"); reveal_strlit("Phoenix"); reveal_strlit("Hydra");
        reveal_strlit("Tarrasque"); reveal_strlit("Carbuncle"); reveal_strlit("Chimera"); reveal_strlit("Kraken");
        assert(
            "Carbuncle"@[0] != "Armadillo"@[0] && "Carbuncle"@.len() != "Rhino"@.len()
            && "Carbuncle"@.len() != "Lizard"@.len() && "Carbuncle"@.len() != "Wolf"@.len()
            && "Carbuncle"@.len() != "Ram"@.len() && "Carbuncle"@.len() != "Eagle"@.len()
            && "Carbuncle"@.len() != "Ox"@.len() && "Carbuncle"@.len() != "Viper"@.len()
            && "Carbuncle"@.len() != "Cat"@.len() && "Carbuncle"@.len() != "Bear"@.len()
            && "Carbuncle"@.len() != "Walrus"@.len() && "Carbuncle"@.len() != "Mammoth"@.len()
            && "Carbuncle"@.len() != "Lion"@.len() && "Carbuncle"@.len() != "Tiger"@.len()
            && "Carbuncle"@.len() != "Phoenix"@.len() && "Carbuncle"@.len() != "Hydra"@.len()
            && "Carbuncle"@[0] != "Tarrasque"@[0] && "Carbuncle"@.len() != "Chimera"@.len()
            && "Carbuncle"@.len() != "Kraken"@.len()
        );
    } else if name == "Chimera"@ {
        reveal_strlit("Armadillo"); reveal_strlit("Rhino"); reveal_strlit("Lizard"); reveal_strlit("Wolf");
        reveal_strlit("Ram"); reveal_strlit("Eagle"); reveal_strlit("Ox"); reveal_strlit("Viper");
        reveal_strlit("Cat"); reveal_strlit("Bear"); reveal_strlit("Walrus"); reveal_strlit("Mammoth");
        reveal_strlit("Lion"); reveal_strlit("Tiger"); reveal_strlit("Phoenix"); reveal_strlit("Hydra");
        reveal_strlit("Tarrasque"); reveal_strlit("Carbuncle"); reveal_strlit("Chimera"); reveal_strlit("Kraken");
        assert(
            "Chimera"@.len() != "Armadillo"@.len() && "Chimera"@.len() != "Rhino"@.len()
            && "Chimera"@.len() != "Lizard"@.len() && "Chimera"@.len() != "Wolf"@.len()
            && "Chimera"@.len() != "Ram"@.len() && "Chimera"@.len() != "Eagle"@.len()
            && "Chimera"@.len() != "Ox"@.len() && "Chimera"@.len() != "Viper"@.len()
            && "Chimera"@.len() != "Cat"@.len() && "Chimera"@.len() != "Bear"@.len()
            && "Chimera"@.len() != "Walrus"@.len() && "Chimera"@[0] != "Mammoth"@[0]
            && "Chimera"@.len() != "Lion"@.len() && "Chimera"@.len() != "Tiger"@.len()
            && "Chimera"@[0] != "Phoenix"@[0] && "Chimera"@.len() != "Hydra"@.len()
            && "Chimera"@.len() != "Tarrasque"@.len() && "Chimera"@.len() != "Carbuncle"@.len()
            && "Chimera"@.len() != "Kraken"@.len()
        );
    } else if name == "Kraken"@ {
        reveal_strlit("Armadillo"); reveal_strlit("Rhino"); reveal_strlit("Lizard"); reveal_strlit("Wolf");
        reveal_strlit("Ram"); reveal_strlit("Eagle"); reveal_strlit("Ox"); reveal_strlit("Viper");
        reveal_strlit("Cat"); reveal_strlit("Bear"); reveal_strlit("Walrus"); reveal_strlit("Mammoth");
        reveal_strlit("Lion"); reveal_strlit("Tiger"); reveal_strlit("Phoenix"); reveal_strlit("Hydra");
        reveal_strlit("Tarrasque"); reveal_strlit("Carbuncle"); reveal_strlit("Chimera"); reveal_strlit("Kraken");
        assert(
            "Kraken"@.len() != "Armadillo"@.len() && "Kraken"@.len() != "Rhino"@.len()
            && "Kraken"@[0] != "Lizard"@[0] && "Kraken"@.len() != "Wolf"@.len()
            && "Kraken"@.len() != "Ram"@.len() && "Kraken"@.len() != "Eagle"@.len()
            && "Kraken"@.len() != "Ox"@.len() && "Kraken"@.len() != "Viper"@.len()
            && "Kraken"@.len() != "Cat"@.len() && "Kraken"@.len() != "Bear"@.len()
            && "Kraken"@[0] != "Walrus"@[0] && "Kraken"@.len() != "Mammoth"@.len()
            && "Kraken"@.len() != "Lion"@.len() && "Kraken"@.len() != "Tiger"@.len()
            && "Kraken"@.len() != "Phoenix"@.len() && "Kraken"@.len() != "Hydra"@.len()
            && "Kraken"@.len() != "Tarrasque"@.len() && "Kraken"@.len() != "Carbuncle"@.len()
            && "Kraken"@.len() != "Chimera"@.len()
        );
    }
}

} // verus!
