//! Dungeon difficulty settings and the choice of the encounter that a
//! simulation fights.
use crate::text::str_equals;
use rand::Rng;
use vstd::prelude::*;

verus! {

/// Defines the valid types of mini boss
#[derive(Debug, Clone, Copy, PartialEq, Eq, Structural)]
pub enum MiniBossType {
    Agile,
    Dire,
    Huge,
    Legendary,
}

/// The mini boss that a roll of `0..=3` selects.
pub open spec fn mini_boss_of_roll(roll: usize) -> MiniBossType {
    if roll == 0 {
        MiniBossType::Agile
    } else if roll == 1 {
        MiniBossType::Dire
    } else if roll == 2 {
        MiniBossType::Huge
    } else {
        MiniBossType::Legendary
    }
}

/// `rand::Rng::gen_range(0..bound)` on the thread-local generator: some
/// number below `bound`. Which one is left to chance.
#[verifier::external_body]
fn random_below(bound: usize) -> (res: usize)
    requires
        bound > 0,
    ensures
        res < bound,
{
    rand::thread_rng().gen_range(0..bound)
}

impl MiniBossType {
    /// The mini boss selected by a roll; every roll from 3 up selects `Legendary`.
    pub fn from_roll(roll: usize) -> (res: MiniBossType)
        ensures
            res == mini_boss_of_roll(roll),
    {
        if roll == 0 {
            MiniBossType::Agile
        } else if roll == 1 {
            MiniBossType::Dire
        } else if roll == 2 {
            MiniBossType::Huge
        } else {
            MiniBossType::Legendary
        }
    }

    /// A mini boss drawn uniformly from the four kinds.
    pub fn random() -> (res: MiniBossType) {
        let roll = random_below(4);
        MiniBossType::from_roll(roll)
    }
}

/// The difficulty setting that a study docket names: 1 Easy, 2 Medium,
/// 3 Hard, 4 Extreme, 5 Boss Easy, 6 Boss Medium, 7 Boss Hard, 8 Boss Extreme.
pub open spec fn difficulty_from_name(name: Seq<char>) -> Option<usize> {
    if name == "Easy"@ {
        Some(1)
    } else if name == "Medium"@ {
        Some(2)
    } else if name == "Hard"@ {
        Some(3)
    } else if name == "Extreme"@ {
        Some(4)
    } else if name == "Boss Easy"@ {
        Some(5)
    } else if name == "Boss Medium"@ {
        Some(6)
    } else if name == "Boss Hard"@ {
        Some(7)
    } else if name == "Boss Extreme"@ {
        Some(8)
    } else {
        None
    }
}

/// The name of a difficulty setting in `1..=8`.
pub open spec fn difficulty_name_spec(difficulty: usize) -> Seq<char> {
    if difficulty == 1 {
        "Easy"@
    } else if difficulty == 2 {
        "Medium"@
    } else if difficulty == 3 {
        "Hard"@
    } else if difficulty == 4 {
        "Extreme"@
    } else if difficulty == 5 {
        "Boss Easy"@
    } else if difficulty == 6 {
        "Boss Medium"@
    } else if difficulty == 7 {
        "Boss Hard"@
    } else {
        "Boss Extreme"@
    }
}

/// Reads a difficulty setting from its name.
pub fn parse_difficulty(name: &str) -> (res: Option<usize>)
    ensures
        res == difficulty_from_name(name@),
{
    if str_equals(name, "Easy") {
        Some(1)
    } else if str_equals(name, "Medium") {
        Some(2)
    } else if str_equals(name, "Hard") {
        Some(3)
    } else if str_equals(name, "Extreme") {
        Some(4)
    } else if str_equals(name, "Boss Easy") {
        Some(5)
    } else if str_equals(name, "Boss Medium") {
        Some(6)
    } else if str_equals(name, "Boss Hard") {
        Some(7)
    } else if str_equals(name, "Boss Extreme") {
        Some(8)
    } else {
        None
    }
}

/// The name of a difficulty setting in `1..=8`.
pub fn difficulty_name(difficulty: usize) -> (res: String)
    requires
        1 <= difficulty <= 8,
    ensures
        res@ == difficulty_name_spec(difficulty),
{
    if difficulty == 1 {
        String::from_str("Easy")
    } else if difficulty == 2 {
        String::from_str("Medium")
    } else if difficulty == 3 {
        String::from_str("Hard")
    } else if difficulty == 4 {
        String::from_str("Extreme")
    } else if difficulty == 5 {
        String::from_str("Boss Easy")
    } else if difficulty == 6 {
        String::from_str("Boss Medium")
    } else if difficulty == 7 {
        String::from_str("Boss Hard")
    } else {
        String::from_str("Boss Extreme")
    }
}

/// Reading back the name of a difficulty setting gives the setting.
pub proof fn lemma_difficulty_name_round_trip(difficulty: usize)
    requires
        1 <= difficulty <= 8,
    ensures
        difficulty_from_name(difficulty_name_spec(difficulty)) == Some(difficulty),
{
    reveal_strlit("Easy");
    reveal_strlit("Medium");
    reveal_strlit("Hard");
    reveal_strlit("Extreme");
    reveal_strlit("Boss Easy");
    reveal_strlit("Boss Medium");
    reveal_strlit("Boss Hard");
    reveal_strlit("Boss Extreme");
    let n = difficulty_name_spec(difficulty);
    let names = seq![
        "Easy"@,
        "Medium"@,
        "Hard"@,
        "Extreme"@,
        "Boss Easy"@,
        "Boss Medium"@,
        "Boss Hard"@,
        "Boss Extreme"@,
    ];
    assert(n == names[difficulty - 1]);
    assert forall|j: int| 0 <= j < difficulty - 1 implies names[j] != n by {
        if names[j].len() == n.len() {
            if j == 0 {
                assert(names[j][0] != n[0]);
            } else {
                assert(names[j][5] != n[5]);
            }
        }
    }
}

/// The miniboss setting that a study docket names: `Some(false)` for no
/// minibosses, `Some(true)` for only minibosses, `None` for a random chance.
pub open spec fn miniboss_setting_from_name(name: Seq<char>) -> Option<Option<bool>> {
    if name == "No Minibosses"@ {
        Some(Some(false))
    } else if name == "Only Minibosses"@ {
        Some(Some(true))
    } else if name == "Random Minibosses"@ {
        Some(None)
    } else {
        None
    }
}

/// Reads the miniboss setting of a dungeon specification.
pub fn parse_miniboss_setting(name: &str) -> (res: Option<Option<bool>>)
    ensures
        res == miniboss_setting_from_name(name@),
{
    if str_equals(name, "No Minibosses") {
        Some(Some(false))
    } else if str_equals(name, "Only Minibosses") {
        Some(Some(true))
    } else if str_equals(name, "Random Minibosses") {
        Some(None)
    } else {
        None
    }
}

/// How a trial result describes its miniboss setting.
pub open spec fn miniboss_setting_description_spec(force_minibosses: Option<bool>) -> Seq<char> {
    match force_minibosses {
        Some(true) => "Force Only Minibosses"@,
        Some(false) => "No Minibosses Allowed"@,
        None => "Minibosses Allowed with Random Chance"@,
    }
}

/// How a trial result describes its miniboss setting.
pub fn miniboss_setting_description(force_minibosses: Option<bool>) -> (res: String)
    ensures
        res@ == miniboss_setting_description_spec(force_minibosses),
{
    match force_minibosses {
        Some(setting) => {
            if setting {
                String::from_str("Force Only Minibosses")
            } else {
                String::from_str("No Minibosses Allowed")
            }
        },
        None => String::from_str("Minibosses Allowed with Random Chance"),
    }
}

/// Which encounter of a dungeon a simulation fights: a normal or a boss
/// encounter, at which of the four tiers, with which mini boss.
#[derive(Debug, Clone, Copy, PartialEq, Eq, Structural)]
pub struct EncounterPlan {
    pub is_boss: bool,
    pub is_extreme: bool,
    pub tier_index: usize,
    pub mini_boss: Option<MiniBossType>,
}

/// Every difficulty setting lies in `1..=8`.
pub open spec fn difficulties_valid(difficulty_settings: Seq<usize>) -> bool {
    forall|i: int| 0 <= i < difficulty_settings.len() ==> 1 <= #[trigger] difficulty_settings[i] <= 8
}

/// The encounter chosen when the draw picked `difficulty`, with the coin (for
/// a random chance of a mini boss) and the roll (for its kind) as drawn.
/// Settings 1 to 4 are the normal tiers, 5 to 8 the boss tiers; bosses never
/// come with a mini boss, and the extreme flag is raised at the top tier
/// (settings 4, Extreme, and 8, Boss Extreme).
pub open spec fn plan_for(
    difficulty: usize,
    force_minibosses: Option<bool>,
    coin: usize,
    roll: usize,
) -> EncounterPlan {
    if difficulty <= 4 {
        let idx = (difficulty - 1) as usize;
        EncounterPlan {
            is_boss: false,
            is_extreme: idx == 3,
            tier_index: idx,
            mini_boss: match force_minibosses {
                Some(true) => Some(mini_boss_of_roll(roll)),
                Some(false) => None,
                None => if coin == 1 {
                    Some(mini_boss_of_roll(roll))
                } else {
                    None
                },
            },
        }
    } else {
        let idx = (difficulty - 5) as usize;
        EncounterPlan { is_boss: true, is_extreme: idx == 3, tier_index: idx, mini_boss: None }
    }
}

/// The encounter plan for given draws: an error when a difficulty setting
/// lies outside `1..=8`, else the plan for the setting at position `choice`.
pub fn encounter_plan_from_draws(
    difficulty_settings: &Vec<usize>,
    force_minibosses: Option<bool>,
    choice: usize,
    coin: usize,
    roll: usize,
) -> (res: Result<EncounterPlan, &'static str>)
    requires
        choice < difficulty_settings@.len(),
    ensures
        res is Err <==> !difficulties_valid(difficulty_settings@),
        res matches Err(e) ==> e == "difficulty settings must be within range 1-8 inclusive",
        res matches Ok(plan) ==> plan == plan_for(
            difficulty_settings@[choice as int],
            force_minibosses,
            coin,
            roll,
        ),
{
    if !check_difficulties(difficulty_settings) {
        return Err("difficulty settings must be within range 1-8 inclusive");
    }
    Ok(plan_from_setting(difficulty_settings[choice], force_minibosses, coin, roll))
}

fn check_difficulties(difficulty_settings: &Vec<usize>) -> (res: bool)
    ensures
        res == difficulties_valid(difficulty_settings@),
{
    let mut i: usize = 0;
    while i < difficulty_settings.len()
        invariant
            i <= difficulty_settings@.len(),
            forall|j: int| 0 <= j < i ==> 1 <= #[trigger] difficulty_settings@[j] <= 8,
        decreases difficulty_settings@.len() - i,
    {
        let difficulty = difficulty_settings[i];
        if difficulty > 8 || difficulty < 1 {
            return false;
        }
        i = i + 1;
    }
    true
}

fn plan_from_setting(difficulty: usize, force_minibosses: Option<bool>, coin: usize, roll: usize) -> (res:
    EncounterPlan)
    requires
        1 <= difficulty <= 8,
    ensures
        res == plan_for(difficulty, force_minibosses, coin, roll),
{
    if difficulty <= 4 {
        let idx = difficulty - 1;
        let mini_boss = match force_minibosses {
            Some(setting) => {
                if setting {
                    Some(MiniBossType::from_roll(roll))
                } else {
                    None
                }
            },
            None => {
                if coin == 1 {
                    Some(MiniBossType::from_roll(roll))
                } else {
                    None
                }
            },
        };
        EncounterPlan { is_boss: false, is_extreme: idx == 3, tier_index: idx, mini_boss }
    } else {
        let idx = difficulty - 4 - 1;
        EncounterPlan { is_boss: true, is_extreme: idx == 3, tier_index: idx, mini_boss: None }
    }
}

/// Draws the encounter that a simulation fights: an error when a difficulty
/// setting lies outside `1..=8`; else a setting is drawn uniformly from the
/// list and, for a normal encounter with a random mini boss setting, a fair
/// coin decides whether a mini boss (of a uniformly drawn kind) comes along.
pub fn plan_encounter(difficulty_settings: &Vec<usize>, force_minibosses: Option<bool>) -> (res:
    Result<EncounterPlan, &'static str>)
    requires
        difficulty_settings@.len() > 0,
    ensures
        res is Err <==> !difficulties_valid(difficulty_settings@),
        res matches Err(e) ==> e == "difficulty settings must be within range 1-8 inclusive",
        res matches Ok(plan) ==> exists|i: int, coin: usize, roll: usize|
            0 <= i < difficulty_settings@.len() && plan == #[trigger] plan_for(
                difficulty_settings@[i],
                force_minibosses,
                coin,
                roll,
            ),
{
    if !check_difficulties(difficulty_settings) {
        return Err("difficulty settings must be within range 1-8 inclusive");
    }
    let choice = random_below(difficulty_settings.len());
    let difficulty = difficulty_settings[choice];
    let mut coin: usize = 0;
    let mut roll: usize = 0;
    if difficulty <= 4 {
        match force_minibosses {
            Some(setting) => {
                if setting {
                    roll = random_below(4);
                }
            },
            None => {
                coin = random_below(2);
                if coin == 1 {
                    roll = random_below(4);
                }
            },
        }
    }
    let res = encounter_plan_from_draws(difficulty_settings, force_minibosses, choice, coin, roll);
    proof {
        if let Ok(plan) = res {
            assert(0 <= choice < difficulty_settings@.len() && plan == plan_for(
                difficulty_settings@[choice as int],
                force_minibosses,
                coin,
                roll,
            ));
        }
    }
    res
}

/// The miniboss setting is honoured: boss difficulties (5 to 8) never bring
/// a mini boss; at a normal difficulty (1 to 4), "No Minibosses" brings
/// none and "Only Minibosses" always brings one. The tier lies in `0..4`, and
/// the encounter is extreme exactly at settings 4 (Extreme) and 8 (Boss
/// Extreme).
pub proof fn lemma_miniboss_setting_respected(
    difficulty: usize,
    force_minibosses: Option<bool>,
    coin: usize,
    roll: usize,
)
    requires
        1 <= difficulty <= 8,
    ensures
        difficulty >= 5 ==> plan_for(difficulty, force_minibosses, coin, roll).is_boss
            && plan_for(difficulty, force_minibosses, coin, roll).mini_boss is None,
        difficulty <= 4 && force_minibosses == Some(false) ==> plan_for(
            difficulty,
            force_minibosses,
            coin,
            roll,
        ).mini_boss is None,
        difficulty <= 4 && force_minibosses == Some(true) ==> plan_for(
            difficulty,
            force_minibosses,
            coin,
            roll,
        ).mini_boss is Some,
        plan_for(difficulty, force_minibosses, coin, roll).tier_index < 4,
        plan_for(difficulty, force_minibosses, coin, roll).is_extreme <==> (difficulty == 4
            || difficulty == 8),
{
}

/// A dungeon a study is run against, with the difficulty setting and the
/// miniboss setting to use there.
pub struct TrialDungeon {
    pub dungeon: String,
    pub difficulty: usize,
    pub force_minibosses: Option<bool>,
}

impl Clone for TrialDungeon {
    fn clone(&self) -> (res: Self)
        ensures
            res == *self,
    {
        TrialDungeon {
            dungeon: self.dungeon.clone(),
            difficulty: self.difficulty,
            force_minibosses: self.force_minibosses,
        }
    }
}

/// A dungeon to run a study against, at one difficulty and miniboss setting.
pub fn create_trial_dungeon(dungeon: String, difficulty: usize, force_minibosses: Option<bool>) -> (res:
    TrialDungeon)
    ensures
        res.dungeon == dungeon,
        res.difficulty == difficulty,
        res.force_minibosses == force_minibosses,
{
    TrialDungeon { dungeon, difficulty, force_minibosses }
}

/// Settings 1 to 4 (Easy, Medium, Hard, Extreme) are normal encounters and
/// settings 5 to 8 (Boss Easy to Boss Extreme) boss encounters, at the tiers
/// 0 to 3 in the same order.
pub proof fn lemma_boss_exactly_at_boss_settings(
    difficulty: usize,
    force_minibosses: Option<bool>,
    coin: usize,
    roll: usize,
)
    requires
        1 <= difficulty <= 8,
    ensures
        plan_for(difficulty, force_minibosses, coin, roll).is_boss <==> difficulty >= 5,
        plan_for(difficulty, force_minibosses, coin, roll).tier_index == (difficulty - 1) % 4,
{
}

} // verus!
