//! Heroes and teams: the archetype of each class, the head counts a team
//! keeps, its champion, and the display of per-hero lists.
use crate::equipment::{element_from_name, BoosterType, ElementType};
use crate::text::str_equals;
use vstd::prelude::*;

verus! {

/// Defines valid hero archetypes
#[derive(Debug, Clone, Copy, PartialEq, Eq, Structural)]
pub enum HeroArchetype {
    RedFighter,
    GreenRogue,
    BlueSpellcaster,
    Champion,
}

/// The red fighter classes.
pub open spec fn is_red_fighter_class(class: Seq<char>) -> bool {
    {
        class == "Soldier"@
        || class == "Mercenary"@
        || class == "Barbarian"@
        || class == "Chieftain"@
        || class == "Knight"@
        || class == "Lord"@
        || class == "Ranger"@
        || class == "Warden"@
        || class == "Samurai"@
        || class == "Daimyo"@
        || class == "Berserker"@
        || class == "Jarl"@
    }
}

fn in_red_fighter_class(class: &str) -> (res: bool)
    ensures
        res == is_red_fighter_class(class@),
{
    str_equals(class, "Soldier")
        || str_equals(class, "Mercenary")
        || str_equals(class, "Barbarian")
        || str_equals(class, "Chieftain")
        || str_equals(class, "Knight")
        || str_equals(class, "Lord")
        || str_equals(class, "Ranger")
        || str_equals(class, "Warden")
        || str_equals(class, "Samurai")
        || str_equals(class, "Daimyo")
        || str_equals(class, "Berserker")
        || str_equals(class, "Jarl")
}

/// The green rogue classes.
pub open spec fn is_green_rogue_class(class: Seq<char>) -> bool {
    {
        class == "Thief"@
        || class == "Trickster"@
        || class == "Monk"@
        || class == "Grandmaster"@
        || class == "Musketeer"@
        || class == "Conquistador"@
        || class == "Wanderer"@
        || class == "Pathfinder"@
        || class == "Ninja"@
        || class == "Sensei"@
        || class == "Dancer"@
        || class == "Acrobat"@
    }
}

fn in_green_rogue_class(class: &str) -> (res: bool)
    ensures
        res == is_green_rogue_class(class@),
{
    str_equals(class, "Thief")
        || str_equals(class, "Trickster")
        || str_equals(class, "Monk")
        || str_equals(class, "Grandmaster")
        || str_equals(class, "Musketeer")
        || str_equals(class, "Conquistador")
        || str_equals(class, "Wanderer")
        || str_equals(class, "Pathfinder")
        || str_equals(class, "Ninja")
        || str_equals(class, "Sensei")
        || str_equals(class, "Dancer")
        || str_equals(class, "Acrobat")
}

/// The blue spellcaster classes.
pub open spec fn is_blue_spellcaster_class(class: Seq<char>) -> bool {
    {
        class == "Mage"@
        || class == "Archmage"@
        || class == "Cleric"@
        || class == "Bishop"@
        || class == "Druid"@
        || class == "Arch Druid"@
        || class == "Sorcerer"@
        || class == "Warlock"@
        || class == "Spellblade"@
        || class == "Spellknight"@
        || class == "Geomancer"@
        || class == "Astramancer"@
    }
}

fn in_blue_spellcaster_class(class: &str) -> (res: bool)
    ensures
        res == is_blue_spellcaster_class(class@),
{
    str_equals(class, "Mage")
        || str_equals(class, "Archmage")
        || str_equals(class, "Cleric")
        || str_equals(class, "Bishop")
        || str_equals(class, "Druid")
        || str_equals(class, "Arch Druid")
        || str_equals(class, "Sorcerer")
        || str_equals(class, "Warlock")
        || str_equals(class, "Spellblade")
        || str_equals(class, "Spellknight")
        || str_equals(class, "Geomancer")
        || str_equals(class, "Astramancer")
}

/// The champions.
pub open spec fn is_champion_class(class: Seq<char>) -> bool {
    {
        class == "Argon"@
        || class == "Lilu"@
        || class == "Polonia"@
        || class == "Yami"@
        || class == "Rudo"@
        || class == "Sia"@
        || class == "Donovan"@
        || class == "Ashley"@
        || class == "Hemma"@
        || class == "Aang"@
        || class == "Sokka"@
        || class == "King Reinholdt"@
    }
}

fn in_champion_class(class: &str) -> (res: bool)
    ensures
        res == is_champion_class(class@),
{
    str_equals(class, "Argon")
        || str_equals(class, "Lilu")
        || str_equals(class, "Polonia")
        || str_equals(class, "Yami")
        || str_equals(class, "Rudo")
        || str_equals(class, "Sia")
        || str_equals(class, "Donovan")
        || str_equals(class, "Ashley")
        || str_equals(class, "Hemma")
        || str_equals(class, "Aang")
        || str_equals(class, "Sokka")
        || str_equals(class, "King Reinholdt")
}

/// The archetype of a class, or none for an unknown class.
pub open spec fn archetype_of_class_spec(class: Seq<char>) -> Option<HeroArchetype> {
    if is_red_fighter_class(class) {
        Some(HeroArchetype::RedFighter)
    } else if is_green_rogue_class(class) {
        Some(HeroArchetype::GreenRogue)
    } else if is_blue_spellcaster_class(class) {
        Some(HeroArchetype::BlueSpellcaster)
    } else if is_champion_class(class) {
        Some(HeroArchetype::Champion)
    } else {
        None
    }
}

/// The archetype of a class, or `None` for an unknown class.
pub fn archetype_of_class(class: &str) -> (res: Option<HeroArchetype>)
    ensures
        res == archetype_of_class_spec(class@),
{
    if in_red_fighter_class(class) {
        Some(HeroArchetype::RedFighter)
    } else if in_green_rogue_class(class) {
        Some(HeroArchetype::GreenRogue)
    } else if in_blue_spellcaster_class(class) {
        Some(HeroArchetype::BlueSpellcaster)
    } else if in_champion_class(class) {
        Some(HeroArchetype::Champion)
    } else {
        None
    }
}

/// The part of a simulated hero that the team bookkeeping reads: who it is,
/// its class and archetype, rank, innate tier, element and berserker level.
pub struct HeroProfile {
    pub identifier: String,
    pub class: String,
    pub archetype: HeroArchetype,
    pub level: u8,
    pub rank: u8,
    pub innate_tier: u8,
    pub element_type: ElementType,
    pub berserker_level: u8,
}

impl Clone for HeroProfile {
    fn clone(&self) -> (res: Self)
        ensures
            res == *self,
    {
        HeroProfile {
            identifier: self.identifier.clone(),
            class: self.class.clone(),
            archetype: self.archetype,
            level: self.level,
            rank: self.rank,
            innate_tier: self.innate_tier,
            element_type: self.element_type,
            berserker_level: self.berserker_level,
        }
    }
}

/// The berserker level of a hero: its rank capped at 4 for Berserkers and
/// Jarls, 0 for every other class.
pub open spec fn berserker_level_spec(class: Seq<char>, rank: u8) -> u8 {
    if class == "Berserker"@ || class == "Jarl"@ {
        if rank < 4 {
            rank
        } else {
            4
        }
    } else {
        0
    }
}

/// Creates the profile of a simulated hero: an error for an unknown class, an
/// error for an unknown element, else the class's archetype, the element read
/// from its name, and the berserker level.
pub fn create_sim_hero_profile(
    identifier: String,
    class: String,
    level: u8,
    rank: u8,
    innate_tier: u8,
    element_type_string: String,
) -> (res: Result<HeroProfile, &'static str>)
    ensures
        archetype_of_class_spec(class@) is None ==> res == Err::<HeroProfile, &'static str>(
            "Unknown Class, Could Not Create Hero",
        ),
        archetype_of_class_spec(class@) is Some && element_from_name(element_type_string@) is None
            ==> res == Err::<HeroProfile, &'static str>(
            "Unknown Element Type, Could Not Create Hero",
        ),
        res is Ok <==> archetype_of_class_spec(class@) is Some && element_from_name(
            element_type_string@,
        ) is Some,
        res matches Ok(hero) ==> {
            &&& hero.identifier@ == identifier@
            &&& hero.class@ == class@
            &&& Some(hero.archetype) == archetype_of_class_spec(class@)
            &&& hero.level == level
            &&& hero.rank == rank
            &&& hero.innate_tier == innate_tier
            &&& Some(hero.element_type) == element_from_name(element_type_string@)
            &&& hero.berserker_level == berserker_level_spec(class@, rank)
        },
{
    let archetype = match archetype_of_class(class.as_str()) {
        Some(a) => a,
        None => {
            return Err("Unknown Class, Could Not Create Hero");
        },
    };
    let element_type = match ElementType::from_name(element_type_string.as_str()) {
        Some(e) => e,
        None => {
            return Err("Unknown Element Type, Could Not Create Hero");
        },
    };
    let mut berserker_level: u8 = 0;
    if str_equals(class.as_str(), "Berserker") || str_equals(class.as_str(), "Jarl") {
        berserker_level = if rank < 4 {
            rank
        } else {
            4
        };
    }
    Ok(
        HeroProfile {
            identifier,
            class,
            archetype,
            level,
            rank,
            innate_tier,
            element_type,
            berserker_level,
        },
    )
}

/// How many of `heroes` have archetype `a`.
pub open spec fn count_archetype(heroes: Seq<HeroProfile>, a: HeroArchetype) -> nat
    decreases heroes.len(),
{
    if heroes.len() == 0 {
        0
    } else {
        count_archetype(heroes.drop_last(), a) + if heroes.last().archetype == a {
            1nat
        } else {
            0nat
        }
    }
}

/// How many of `heroes` are of class `class`.
pub open spec fn count_class(heroes: Seq<HeroProfile>, class: Seq<char>) -> nat
    decreases heroes.len(),
{
    if heroes.len() == 0 {
        0
    } else {
        count_class(heroes.drop_last(), class) + if heroes.last().class@ == class {
            1nat
        } else {
            0nat
        }
    }
}

/// The innate tier that a champion of rank `rank` brings; below rank 4 the
/// tier stays at `prev`.
pub open spec fn champion_tier_for_rank(prev: u8, rank: u8) -> u8 {
    if rank >= 11 {
        4
    } else if rank >= 7 {
        3
    } else if rank >= 4 {
        2
    } else {
        prev
    }
}

/// The champion of a team and its innate tier: the class of the last
/// champion among `heroes` ("None" if there is none), and the tier that the
/// champions' ranks set in turn, starting from 1.
pub open spec fn champion_of(heroes: Seq<HeroProfile>) -> (Seq<char>, u8)
    decreases heroes.len(),
{
    if heroes.len() == 0 {
        ("None"@, 1u8)
    } else {
        let prev = champion_of(heroes.drop_last());
        let h = heroes.last();
        if h.archetype == HeroArchetype::Champion {
            (h.class@, champion_tier_for_rank(prev.1, h.rank))
        } else {
            prev
        }
    }
}

/// One or more Heroes fighting together in a dungeon and what booster they have
pub struct Team {
    heroes: Vec<HeroProfile>,
    booster: Option<BoosterType>,
    num_fighters: u8,
    num_rogues: u8,
    num_spellcasters: u8,
    num_tricksters: u8,
    champion: String,
    champion_innate_tier: u8,
}

impl Team {
    /// The heroes of the team, in order.
    pub closed spec fn heroes_spec(&self) -> Seq<HeroProfile> {
        self.heroes@
    }

    /// The booster of the team.
    pub closed spec fn booster_spec(&self) -> Option<BoosterType> {
        self.booster
    }

    /// The head counts `(spellcasters, rogues, fighters, tricksters)`.
    pub closed spec fn archetype_counts(&self) -> (u8, u8, u8, u8) {
        (self.num_spellcasters, self.num_rogues, self.num_fighters, self.num_tricksters)
    }

    /// The champion and its innate tier.
    pub closed spec fn champion_spec(&self) -> (Seq<char>, u8) {
        (self.champion@, self.champion_innate_tier)
    }

    /// The number of heroes.
    pub fn get_heroes_len(&self) -> (res: usize)
        ensures
            res == self.heroes_spec().len(),
    {
        self.heroes.len()
    }

    /// The heroes of the team.
    pub fn get_heroes(&self) -> (res: Vec<HeroProfile>)
        ensures
            res@ == self.heroes_spec(),
    {
        let mut res: Vec<HeroProfile> = Vec::new();
        let mut i: usize = 0;
        while i < self.heroes.len()
            invariant
                i <= self.heroes@.len(),
                res@ == self.heroes@.subrange(0, i as int),
            decreases self.heroes@.len() - i,
        {
            res.push(self.heroes[i].clone());
            i = i + 1;
            assert(res@ =~= self.heroes@.subrange(0, i as int));
        }
        assert(res@ =~= self.heroes@);
        res
    }

    /// The booster of the team.
    pub fn get_booster(&self) -> (res: Option<BoosterType>)
        ensures
            res == self.booster_spec(),
    {
        self.booster
    }

    /// The position of the first hero of class `class_name`, if any.
    pub fn get_class_index(&self, class_name: String) -> (res: Option<usize>)
        ensures
            match res {
                Some(i) => i < self.heroes_spec().len() && self.heroes_spec()[i as int].class@
                    == class_name@ && forall|j: int|
                    0 <= j < i ==> #[trigger] self.heroes_spec()[j].class@ != class_name@,
                None => forall|j: int|
                    0 <= j < self.heroes_spec().len() ==> #[trigger] self.heroes_spec()[j].class@
                        != class_name@,
            },
    {
        let mut i: usize = 0;
        while i < self.heroes.len()
            invariant
                i <= self.heroes@.len(),
                forall|j: int| 0 <= j < i ==> #[trigger] self.heroes@[j].class@ != class_name@,
            decreases self.heroes@.len() - i,
        {
            if self.heroes[i].class == class_name {
                return Some(i);
            }
            i = i + 1;
        }
        None
    }

    /// The position of the hero with identifier `identifier`, if any.
    pub fn get_index_of_hero_with_identifier(&self, identifier: &String) -> (res: Option<usize>)
        ensures
            match res {
                Some(i) => i < self.heroes_spec().len() && self.heroes_spec()[i as int].identifier@
                    == identifier@ && forall|j: int|
                    0 <= j < i ==> #[trigger] self.heroes_spec()[j].identifier@ != identifier@,
                None => forall|j: int|
                    0 <= j < self.heroes_spec().len() ==> #[trigger] self.heroes_spec()[j].identifier@
                        != identifier@,
            },
    {
        let mut i: usize = 0;
        while i < self.heroes.len()
            invariant
                i <= self.heroes@.len(),
                forall|j: int| 0 <= j < i ==> #[trigger] self.heroes@[j].identifier@ != identifier@,
            decreases self.heroes@.len() - i,
        {
            if self.heroes[i].identifier == *identifier {
                return Some(i);
            }
            i = i + 1;
        }
        None
    }

    /// The champion's class ("None" without one) and innate tier.
    pub fn get_champion_info(&self) -> (res: (String, u8))
        ensures
            (res.0@, res.1) == self.champion_spec(),
    {
        (self.champion.clone(), self.champion_innate_tier)
    }

    /// The head counts `(spellcasters, rogues, fighters, tricksters)`.
    pub fn get_num_archetypes(&self) -> (res: (u8, u8, u8, u8))
        ensures
            res == self.archetype_counts(),
    {
        (self.num_spellcasters, self.num_rogues, self.num_fighters, self.num_tricksters)
    }
}

/// The head counts of a team (per archetype, and of Tricksters) each fit in a `u8`.
pub open spec fn team_counts_fit(heroes: Seq<HeroProfile>) -> bool {
    &&& count_archetype(heroes, HeroArchetype::RedFighter) <= 255
    &&& count_archetype(heroes, HeroArchetype::GreenRogue) <= 255
    &&& count_archetype(heroes, HeroArchetype::BlueSpellcaster) <= 255
    &&& count_class(heroes, "Trickster"@) <= 255
}

/// Whether the head counts of a team made of `heroes` fit in a `u8` each,
/// as `create_team` needs.
pub fn team_counts_within_bounds(heroes: &Vec<HeroProfile>) -> (res: bool)
    ensures
        res == team_counts_fit(heroes@),
{
    let mut fighters: usize = 0;
    let mut rogues: usize = 0;
    let mut spellcasters: usize = 0;
    let mut tricksters: usize = 0;
    let mut i: usize = 0;
    while i < heroes.len()
        invariant
            i <= heroes@.len(),
            fighters == count_archetype(heroes@.subrange(0, i as int), HeroArchetype::RedFighter),
            rogues == count_archetype(heroes@.subrange(0, i as int), HeroArchetype::GreenRogue),
            spellcasters == count_archetype(
                heroes@.subrange(0, i as int),
                HeroArchetype::BlueSpellcaster,
            ),
            tricksters == count_class(heroes@.subrange(0, i as int), "Trickster"@),
            fighters <= i && rogues <= i && spellcasters <= i && tricksters <= i,
        decreases heroes@.len() - i,
    {
        let ghost prefix = heroes@.subrange(0, i as int);
        let ghost next = heroes@.subrange(0, i + 1);
        proof {
            assert(next.drop_last() =~= prefix);
        }
        let hero = &heroes[i];
        match hero.archetype {
            HeroArchetype::RedFighter => {
                fighters = fighters + 1;
            },
            HeroArchetype::GreenRogue => {
                rogues = rogues + 1;
            },
            HeroArchetype::BlueSpellcaster => {
                spellcasters = spellcasters + 1;
            },
            HeroArchetype::Champion => {},
        }
        if str_equals(hero.class.as_str(), "Trickster") {
            tricksters = tricksters + 1;
        }
        i = i + 1;
    }
    proof {
        assert(heroes@.subrange(0, heroes@.len() as int) =~= heroes@);
    }
    fighters <= 255 && rogues <= 255 && spellcasters <= 255 && tricksters <= 255
}

/// Creates a team: an error without heroes, else the team with its head
/// counts per archetype, its number of Tricksters and its champion.
pub fn create_team(heroes: Vec<HeroProfile>, booster: Option<BoosterType>) -> (res: Result<Team, &'static str>)
    requires
        team_counts_fit(heroes@),
    ensures
        res is Err <==> heroes@.len() < 1,
        res matches Err(e) ==> e == "cannot form team with < 1 hero",
        res matches Ok(team) ==> {
            &&& team.heroes_spec() == heroes@
            &&& team.booster_spec() == booster
            &&& team.archetype_counts() == (
                count_archetype(heroes@, HeroArchetype::BlueSpellcaster) as u8,
                count_archetype(heroes@, HeroArchetype::GreenRogue) as u8,
                count_archetype(heroes@, HeroArchetype::RedFighter) as u8,
                count_class(heroes@, "Trickster"@) as u8,
            )
            &&& team.champion_spec() == champion_of(heroes@)
        },
{
    if heroes.len() < 1 {
        return Err("cannot form team with < 1 hero");
    }
    let mut num_fighters: u8 = 0;
    let mut num_rogues: u8 = 0;
    let mut num_spellcasters: u8 = 0;
    let mut num_tricksters: u8 = 0;
    let mut champion = String::from_str("None");
    let mut champion_innate_tier: u8 = 1;
    let mut i: usize = 0;
    while i < heroes.len()
        invariant
            i <= heroes@.len(),
            team_counts_fit(heroes@),
            num_fighters == count_archetype(heroes@.subrange(0, i as int), HeroArchetype::RedFighter),
            num_rogues == count_archetype(heroes@.subrange(0, i as int), HeroArchetype::GreenRogue),
            num_spellcasters == count_archetype(
                heroes@.subrange(0, i as int),
                HeroArchetype::BlueSpellcaster,
            ),
            num_tricksters == count_class(heroes@.subrange(0, i as int), "Trickster"@),
            (champion@, champion_innate_tier) == champion_of(heroes@.subrange(0, i as int)),
        decreases heroes@.len() - i,
    {
        let ghost prefix = heroes@.subrange(0, i as int);
        let ghost next = heroes@.subrange(0, i + 1);
        proof {
            assert(next.drop_last() =~= prefix);
            lemma_counts_bounded(heroes@, i as int + 1);
        }
        let hero = &heroes[i];
        match hero.archetype {
            HeroArchetype::RedFighter => num_fighters = num_fighters + 1,
            HeroArchetype::GreenRogue => num_rogues = num_rogues + 1,
            HeroArchetype::BlueSpellcaster => num_spellcasters = num_spellcasters + 1,
            HeroArchetype::Champion => {
                champion = hero.class.clone();
                if hero.rank >= 11 {
                    champion_innate_tier = 4;
                } else if hero.rank >= 7 {
                    champion_innate_tier = 3;
                } else if hero.rank >= 4 {
                    champion_innate_tier = 2;
                }
            },
        }
        if str_equals(hero.class.as_str(), "Trickster") {
            num_tricksters = num_tricksters + 1;
        }
        i = i + 1;
    }
    assert(heroes@.subrange(0, heroes@.len() as int) =~= heroes@);
    Ok(
        Team {
            heroes,
            booster,
            num_fighters,
            num_rogues,
            num_spellcasters,
            num_tricksters,
            champion,
            champion_innate_tier,
        },
    )
}

/// A prefix holds no more heroes of an archetype or class than the whole.
proof fn lemma_counts_bounded(heroes: Seq<HeroProfile>, k: int)
    requires
        0 <= k <= heroes.len(),
    ensures
        count_archetype(heroes.subrange(0, k), HeroArchetype::RedFighter) <= count_archetype(
            heroes,
            HeroArchetype::RedFighter,
        ),
        count_archetype(heroes.subrange(0, k), HeroArchetype::GreenRogue) <= count_archetype(
            heroes,
            HeroArchetype::GreenRogue,
        ),
        count_archetype(heroes.subrange(0, k), HeroArchetype::BlueSpellcaster) <= count_archetype(
            heroes,
            HeroArchetype::BlueSpellcaster,
        ),
        count_class(heroes.subrange(0, k), "Trickster"@) <= count_class(heroes, "Trickster"@),
    decreases heroes.len(),
{
    if k < heroes.len() {
        assert(heroes.drop_last().subrange(0, k) =~= heroes.subrange(0, k));
        lemma_counts_bounded(heroes.drop_last(), k);
    } else {
        assert(heroes.subrange(0, k) =~= heroes);
    }
}

/// A list of strings that displays as `[a, b, c]`.
pub struct StringVec(pub Vec<String>);

/// The strings of `items` joined with `sep` between each two.
pub open spec fn join_spec(items: Seq<Seq<char>>, sep: Seq<char>) -> Seq<char>
    decreases items.len(),
{
    if items.len() == 0 {
        Seq::<char>::empty()
    } else if items.len() == 1 {
        items[0]
    } else {
        join_spec(items.drop_last(), sep) + sep + items.last()
    }
}

impl StringVec {
    /// The strings of the list, as character sequences.
    pub open spec fn items(&self) -> Seq<Seq<char>> {
        self.0@.map_values(|s: String| s@)
    }

    /// An empty list.
    pub fn new() -> (res: StringVec)
        ensures
            res.items() == Seq::<Seq<char>>::empty(),
    {
        let res = StringVec(Vec::new());
        assert(res.items() =~= Seq::<Seq<char>>::empty());
        res
    }

    /// Appends a string at the end of the list.
    pub fn push(&mut self, new_entry: String)
        ensures
            final(self).items() == old(self).items().push(new_entry@),
    {
        self.0.push(new_entry);
        assert(self.items() =~= old(self).items().push(new_entry@));
    }

    /// The display form of a non-empty list: its strings separated by ", "
    /// between square brackets.
    pub fn to_display_string(&self) -> (res: String)
        requires
            self.items().len() >= 1,
        ensures
            res@ == "["@ + join_spec(self.items(), ", "@) + "]"@,
    {
        let len = self.0.len();
        let mut comma_separated = String::new();
        let mut i: usize = 0;
        proof {
            assert(self.items().subrange(0, 0) =~= Seq::<Seq<char>>::empty());
        }
        while i < len - 1
            invariant
                len == self.0@.len(),
                len >= 1,
                i <= len - 1,
                self.items().len() == len,
                i == 0 ==> comma_separated@ == Seq::<char>::empty(),
                i > 0 ==> comma_separated@ == join_spec(self.items().subrange(0, i as int), ", "@)
                    + ", "@,
            decreases len - 1 - i,
        {
            proof {
                let sub = self.items().subrange(0, i + 1);
                assert(sub.drop_last() =~= self.items().subrange(0, i as int));
                assert(sub.last() == self.0@[i as int]@);
                if i == 0 {
                    assert(join_spec(sub, ", "@) == sub[0]);
                }
            }
            comma_separated.append(self.0[i].as_str());
            comma_separated.append(", ");
            i = i + 1;
        }
        comma_separated.append(self.0[len - 1].as_str());
        proof {
            assert(self.items().subrange(0, len as int) =~= self.items());
            assert(self.items().subrange(0, len as int).drop_last() =~= self.items().subrange(
                0,
                (len - 1) as int,
            ));
        }
        let mut res = String::from_str("[");
        res.append(comma_separated.as_str());
        res.append("]");
        res
    }
}

/// The game's class table: each of the 48 classes has the archetype listed
/// here (twelve fighters, twelve rogues, twelve spellcasters and twelve
/// champions), and no other class has an archetype.
pub proof fn lemma_archetypes_follow_class_table(class: Seq<char>)
    ensures
        archetype_of_class_spec("Soldier"@) == Some(HeroArchetype::RedFighter),
        archetype_of_class_spec("Mercenary"@) == Some(HeroArchetype::RedFighter),
        archetype_of_class_spec("Barbarian"@) == Some(HeroArchetype::RedFighter),
        archetype_of_class_spec("Chieftain"@) == Some(HeroArchetype::RedFighter),
        archetype_of_class_spec("Knight"@) == Some(HeroArchetype::RedFighter),
        archetype_of_class_spec("Lord"@) == Some(HeroArchetype::RedFighter),
        archetype_of_class_spec("Ranger"@) == Some(HeroArchetype::RedFighter),
        archetype_of_class_spec("Warden"@) == Some(HeroArchetype::RedFighter),
        archetype_of_class_spec("Samurai"@) == Some(HeroArchetype::RedFighter),
        archetype_of_class_spec("Daimyo"@) == Some(HeroArchetype::RedFighter),
        archetype_of_class_spec("Berserker"@) == Some(HeroArchetype::RedFighter),
        archetype_of_class_spec("Jarl"@) == Some(HeroArchetype::RedFighter),
        archetype_of_class_spec("Thief"@) == Some(HeroArchetype::GreenRogue),
        archetype_of_class_spec("Trickster"@) == Some(HeroArchetype::GreenRogue),
        archetype_of_class_spec("Monk"@) == Some(HeroArchetype::GreenRogue),
        archetype_of_class_spec("Grandmaster"@) == Some(HeroArchetype::GreenRogue),
        archetype_of_class_spec("Musketeer"@) == Some(HeroArchetype::GreenRogue),
        archetype_of_class_spec("Conquistador"@) == Some(HeroArchetype::GreenRogue),
        archetype_of_class_spec("Wanderer"@) == Some(HeroArchetype::GreenRogue),
        archetype_of_class_spec("Pathfinder"@) == Some(HeroArchetype::GreenRogue),
        archetype_of_class_spec("Ninja"@) == Some(HeroArchetype::GreenRogue),
        archetype_of_class_spec("Sensei"@) == Some(HeroArchetype::GreenRogue),
        archetype_of_class_spec("Dancer"@) == Some(HeroArchetype::GreenRogue),
        archetype_of_class_spec("Acrobat"@) == Some(HeroArchetype::GreenRogue),
        archetype_of_class_spec("Mage"@) == Some(HeroArchetype::BlueSpellcaster),
        archetype_of_class_spec("Archmage"@) == Some(HeroArchetype::BlueSpellcaster),
        archetype_of_class_spec("Cleric"@) == Some(HeroArchetype::BlueSpellcaster),
        archetype_of_class_spec("Bishop"@) == Some(HeroArchetype::BlueSpellcaster),
        archetype_of_class_spec("Druid"@) == Some(HeroArchetype::BlueSpellcaster),
        archetype_of_class_spec("Arch Druid"@) == Some(HeroArchetype::BlueSpellcaster),
        archetype_of_class_spec("Sorcerer"@) == Some(HeroArchetype::BlueSpellcaster),
        archetype_of_class_spec("Warlock"@) == Some(HeroArchetype::BlueSpellcaster),
        archetype_of_class_spec("Spellblade"@) == Some(HeroArchetype::BlueSpellcaster),
        archetype_of_class_spec("Spellknight"@) == Some(HeroArchetype::BlueSpellcaster),
        archetype_of_class_spec("Geomancer"@) == Some(HeroArchetype::BlueSpellcaster),
        archetype_of_class_spec("Astramancer"@) == Some(HeroArchetype::BlueSpellcaster),
        archetype_of_class_spec("Argon"@) == Some(HeroArchetype::Champion),
        archetype_of_class_spec("Lilu"@) == Some(HeroArchetype::Champion),
        archetype_of_class_spec("Polonia"@) == Some(HeroArchetype::Champion),
        archetype_of_class_spec("Yami"@) == Some(HeroArchetype::Champion),
        archetype_of_class_spec("Rudo"@) == Some(HeroArchetype::Champion),
        archetype_of_class_spec("Sia"@) == Some(HeroArchetype::Champion),
        archetype_of_class_spec("Donovan"@) == Some(HeroArchetype::Champion),
        archetype_of_class_spec("Ashley"@) == Some(HeroArchetype::Champion),
        archetype_of_class_spec("Hemma"@) == Some(HeroArchetype::Champion),
        archetype_of_class_spec("Aang"@) == Some(HeroArchetype::Champion),
        archetype_of_class_spec("Sokka"@) == Some(HeroArchetype::Champion),
        archetype_of_class_spec("King Reinholdt"@) == Some(HeroArchetype::Champion),
        archetype_of_class_spec(class) is Some ==> (
            class == "Soldier"@ || class == "Mercenary"@ || class == "Barbarian"@
            || class == "Chieftain"@ || class == "Knight"@ || class == "Lord"@
            || class == "Ranger"@ || class == "Warden"@ || class == "Samurai"@
            || class == "Daimyo"@ || class == "Berserker"@ || class == "Jarl"@
            || class == "Thief"@ || class == "Trickster"@ || class == "Monk"@
            || class == "Grandmaster"@ || class == "Musketeer"@ || class == "Conquistador"@
            || class == "Wanderer"@ || class == "Pathfinder"@ || class == "Ninja"@
            || class == "Sensei"@ || class == "Dancer"@ || class == "Acrobat"@
            || class == "Mage"@ || class == "Archmage"@ || class == "Cleric"@
            || class == "Bishop"@ || class == "Druid"@ || class == "Arch Druid"@
            || class == "Sorcerer"@ || class == "Warlock"@ || class == "Spellblade"@
            || class == "Spellknight"@ || class == "Geomancer"@ || class == "Astramancer"@
            || class == "Argon"@ || class == "Lilu"@ || class == "Polonia"@
            || class == "Yami"@ || class == "Rudo"@ || class == "Sia"@
            || class == "Donovan"@ || class == "Ashley"@ || class == "Hemma"@
            || class == "Aang"@ || class == "Sokka"@ || class == "King Reinholdt"@
        ),
{
    assert(archetype_of_class_spec("Soldier"@) == Some(HeroArchetype::RedFighter)) by {
        reveal_strlit("Soldier");
    }
    assert(archetype_of_class_spec("Mercenary"@) == Some(HeroArchetype::RedFighter)) by {
        reveal_strlit("Mercenary");
    }
    assert(archetype_of_class_spec("Barbarian"@) == Some(HeroArchetype::RedFighter)) by {
        reveal_strlit("Barbarian");
    }
    assert(archetype_of_class_spec("Chieftain"@) == Some(HeroArchetype::RedFighter)) by {
        reveal_strlit("Chieftain");
    }
    assert(archetype_of_class_spec("Knight"@) == Some(HeroArchetype::RedFighter)) by {
        reveal_strlit("Knight");
    }
    assert(archetype_of_class_spec("Lord"@) == Some(HeroArchetype::RedFighter)) by {
        reveal_strlit("Lord");
    }
    assert(archetype_of_class_spec("Ranger"@) == Some(HeroArchetype::RedFighter)) by {
        reveal_strlit("Ranger");
    }
    assert(archetype_of_class_spec("Warden"@) == Some(HeroArchetype::RedFighter)) by {
        reveal_strlit("Warden");
    }
    assert(archetype_of_class_spec("Samurai"@) == Some(HeroArchetype::RedFighter)) by {
        reveal_strlit("Samurai");
    }
    assert(archetype_of_class_spec("Daimyo"@) == Some(HeroArchetype::RedFighter)) by {
        reveal_strlit("Daimyo");
    }
    assert(archetype_of_class_spec("Berserker"@) == Some(HeroArchetype::RedFighter)) by {
        reveal_strlit("Berserker");
    }
    assert(archetype_of_class_spec("Jarl"@) == Some(HeroArchetype::RedFighter)) by {
        reveal_strlit("Jarl");
    }
    assert(archetype_of_class_spec("Thief"@) == Some(HeroArchetype::GreenRogue)) by {
        reveal_strlit("Thief"); reveal_strlit("Soldier"); reveal_strlit("Mercenary"); reveal_strlit("Barbarian");
        reveal_strlit("Chieftain"); reveal_strlit("Knight"); reveal_strlit("Lord"); reveal_strlit("Ranger");
        reveal_strlit("Warden"); reveal_strlit("Samurai"); reveal_strlit("Daimyo"); reveal_strlit("Berserker");
        reveal_strlit("Jarl");
        assert(
            "Thief"@.len() != "Soldier"@.len() && "Thief"@.len() != "Mercenary"@.len()
            && "Thief"@.len() != "Barbarian"@.len() && "Thief"@.len() != "Chieftain"@.len()
            && "Thief"@.len() != "Knight"@.len() && "Thief"@.len() != "Lord"@.len()
            && "Thief"@.len() != "Ranger"@.len() && "Thief"@.len() != "Warden"@.len()
            && "Thief"@.len() != "Samurai"@.len() && "Thief"@.len() != "Daimyo"@.len()
            && "Thief"@.len() != "Berserker"@.len() && "Thief"@.len() != "Jarl"@.len()
        );
    }
    assert(archetype_of_class_spec("Trickster"@) == Some(HeroArchetype::GreenRogue)) by {
        reveal_strlit("Trickster"); reveal_strlit("Soldier"); reveal_strlit("Mercenary"); reveal_strlit("Barbarian");
        reveal_strlit("Chieftain"); reveal_strlit("Knight"); reveal_strlit("Lord"); reveal_strlit("Ranger");
        reveal_strlit("Warden"); reveal_strlit("Samurai"); reveal_strlit("Daimyo"); reveal_strlit("Berserker");
        reveal_strlit("Jarl");
        assert(
            "Trickster"@.len() != "Soldier"@.len() && "Trickster"@[0] != "Mercenary"@[0]
            && "Trickster"@[0] != "Barbarian"@[0] && "Trickster"@[0] != "Chieftain"@[0]
            && "Trickster"@.len() != "Knight"@.len() && "Trickster"@.len() != "Lord"@.len()
            && "Trickster"@.len() != "Ranger"@.len() && "Trickster"@.len() != "Warden"@.len()
            && "Trickster"@.len() != "Samurai"@.len() && "Trickster"@.len() != "Daimyo"@.len()
            && "Trickster"@[0] != "Berserker"@[0] && "Trickster"@.len() != "Jarl"@.len()
        );
    }
    assert(archetype_of_class_spec("Monk"@) == Some(HeroArchetype::GreenRogue)) by {
        reveal_strlit("Monk"); reveal_strlit("Soldier"); reveal_strlit("Mercenary"); reveal_strlit("Barbarian");
        reveal_strlit("Chieftain"); reveal_strlit("Knight"); reveal_strlit("Lord"); reveal_strlit("Ranger");
        reveal_strlit("Warden"); reveal_strlit("Samurai"); reveal_strlit("Daimyo"); reveal_strlit("Berserker");
        reveal_strlit("Jarl");
        assert(
            "Monk"@.len() != "Soldier"@.len() && "Monk"@.len() != "Mercenary"@.len()
            && "Monk"@.len() != "Barbarian"@.len() && "Monk"@.len() != "Chieftain"@.len()
            && "Monk"@.len() != "Knight"@.len() && "Monk"@[0] != "Lord"@[0]
            && "Monk"@.len() != "Ranger"@.len() && "Monk"@.len() != "Warden"@.len()
            && "Monk"@.len() != "Samurai"@.len() && "Monk"@.len() != "Daimyo"@.len()
            && "Monk"@.len() != "Berserker"@.len() && "Monk"@[0] != "Jarl"@[0]
        );
    }
    assert(archetype_of_class_spec("Grandmaster"@) == Some(HeroArchetype::GreenRogue)) by {
        reveal_strlit("Grandmaster"); reveal_strlit("Soldier"); reveal_strlit("Mercenary"); reveal_strlit("Barbarian");
        reveal_strlit("Chieftain"); reveal_strlit("Knight"); reveal_strlit("Lord"); reveal_strlit("Ranger");
        reveal_strlit("Warden"); reveal_strlit("Samurai"); reveal_strlit("Daimyo"); reveal_strlit("Berserker");
        reveal_strlit("Jarl");
        assert(
            "Grandmaster"@.len() != "Soldier"@.len() && "Grandmaster"@.len() != "Mercenary"@.len()
            && "Grandmaster"@.len() != "Barbarian"@.len() && "Grandmaster"@.len() != "Chieftain"@.len()
            && "Grandmaster"@.len() != "Knight"@.len() && "Grandmaster"@.len() != "Lord"@.len()
            && "Grandmaster"@.len() != "Ranger"@.len() && "Grandmaster"@.len() != "Warden"@.len()
            && "Grandmaster"@.len() != "Samurai"@.len() && "Grandmaster"@.len() != "Daimyo"@.len()
            && "Grandmaster"@.len() != "Berserker"@.len() && "Grandmaster"@.len() != "Jarl"@.len()
        );
    }
    assert(archetype_of_class_spec("Musketeer"@) == Some(HeroArchetype::GreenRogue)) by {
        reveal_strlit("Musketeer"); reveal_strlit("Soldier"); reveal_strlit("Mercenary"); reveal_strlit("Barbarian");
        reveal_strlit("Chieftain"); reveal_strlit("Knight"); reveal_strlit("Lord"); reveal_strlit("Ranger");
        reveal_strlit("Warden"); reveal_strlit("Samurai"); reveal_strlit("Daimyo"); reveal_strlit("Berserker");
        reveal_strlit("Jarl");
        assert(
            "Musketeer"@.len() != "Soldier"@.len() && "Musketeer"@[1] != "Mercenary"@[1]
            && "Musketeer"@[0] != "Barbarian"@[0] && "Musketeer"@[0] != "Chieftain"@[0]
            && "Musketeer"@.len() != "Knight"@.len() && "Musketeer"@.len() != "Lord"@.len()
            && "Musketeer"@.len() != "Ranger"@.len() && "Musketeer"@.len() != "Warden"@.len()
            && "Musketeer"@.len() != "Samurai"@.len() && "Musketeer"@.len() != "Daimyo"@.len()
            && "Musketeer"@[0] != "Berserker"@[0] && "Musketeer"@.len() != "Jarl"@.len()
        );
    }
    assert(archetype_of_class_spec("Conquistador"@) == Some(HeroArchetype::GreenRogue)) by {
        reveal_strlit("Conquistador"); reveal_strlit("Soldier"); reveal_strlit("Mercenary"); reveal_strlit("Barbarian");
        reveal_strlit("Chieftain"); reveal_strlit("Knight"); reveal_strlit("Lord"); reveal_strlit("Ranger");
        reveal_strlit("Warden"); reveal_strlit("Samurai"); reveal_strlit("Daimyo"); reveal_strlit("Berserker");
        reveal_strlit("Jarl");
        assert(
            "Conquistador"@.len() != "Soldier"@.len() && "Conquistador"@.len() != "Mercenary"@.len()
            && "Conquistador"@.len() != "Barbarian"@.len() && "Conquistador"@.len() != "Chieftain"@.len()
            && "Conquistador"@.len() != "Knight"@.len() && "Conquistador"@.len() != "Lord"@.len()
            && "Conquistador"@.len() != "Ranger"@.len() && "Conquistador"@.len() != "Warden"@.len()
            && "Conquistador"@.len() != "Samurai"@.len() && "Conquistador"@.len() != "Daimyo"@.len()
            && "Conquistador"@.len() != "Berserker"@.len() && "Conquistador"@.len() != "Jarl"@.len()
        );
    }
    assert(archetype_of_class_spec("Wanderer"@) == Some(HeroArchetype::GreenRogue)) by {
        reveal_strlit("Wanderer"); reveal_strlit("Soldier"); reveal_strlit("Mercenary"); reveal_strlit("Barbarian");
        reveal_strlit("Chieftain"); reveal_strlit("Knight"); reveal_strlit("Lord"); reveal_strlit("Ranger");
        reveal_strlit("Warden"); reveal_strlit("Samurai"); reveal_strlit("Daimyo"); reveal_strlit("Berserker");
        reveal_strlit("Jarl");
        assert(
            "Wanderer"@.len() != "Soldier"@.len() && "Wanderer"@.len() != "Mercenary"@.len()
            && "Wanderer"@.len() != "Barbarian"@.len() && "Wanderer"@.len() != "Chieftain"@.len()
            && "Wanderer"@.len() != "Knight"@.len() && "Wanderer"@.len() != "Lord"@.len()
            && "Wanderer"@.len() != "Ranger"@.len() && "Wanderer"@.len() != "Warden"@.len()
            && "Wanderer"@.len() != "Samurai"@.len() && "Wanderer"@.len() != "Daimyo"@.len()
            && "Wanderer"@.len() != "Berserker"@.len() && "Wanderer"@.len() != "Jarl"@.len()
        );
    }
    assert(archetype_of_class_spec("Pathfinder"@) == Some(HeroArchetype::GreenRogue)) by {
        reveal_strlit("Pathfinder"); reveal_strlit("Soldier"); reveal_strlit("Mercenary"); reveal_strlit("Barbarian");
        reveal_strlit("Chieftain"); reveal_strlit("Knight"); reveal_strlit("Lord"); reveal_strlit("Ranger");
        reveal_strlit("Warden"); reveal_strlit("Samurai"); reveal_strlit("Daimyo"); reveal_strlit("Berserker");
        reveal_strlit("Jarl");
        assert(
            "Pathfinder"@.len() != "Soldier"@.len() && "Pathfinder"@.len() != "Mercenary"@.len()
            && "Pathfinder"@.len() != "Barbarian"@.len() && "Pathfinder"@.len() != "Chieftain"@.len()
            && "Pathfinder"@.len() != "Knight"@.len() && "Pathfinder"@.len() != "Lord"@.len()
            && "Pathfinder"@.len() != "Ranger"@.len() && "Pathfinder"@.len() != "Warden"@.len()
            && "Pathfinder"@.len() != "Samurai"@.len() && "Pathfinder"@.len() != "Daimyo"@.len()
            && "Pathfinder"@.len() != "Berserker"@.len() && "Pathfinder"@.len() != "Jarl"@.len()
        );
    }
    assert(archetype_of_class_spec("Ninja"@) == Some(HeroArchetype::GreenRogue)) by {
        reveal_strlit("Ninja"); reveal_strlit("Soldier"); reveal_strlit("Mercenary"); reveal_strlit("Barbarian");
        reveal_strlit("Chieftain"); reveal_strlit("Knight"); reveal_strlit("Lord"); reveal_strlit("Ranger");
        reveal_strlit("Warden"); reveal_strlit("Samurai"); reveal_strlit("Daimyo"); reveal_strlit("Berserker");
        reveal_strlit("Jarl");
        assert(
            "Ninja"@.len() != "Soldier"@.len() && "Ninja"@.len() != "Mercenary"@.len()
            && "Ninja"@.len() != "Barbarian"@.len() && "Ninja"@.len() != "Chieftain"@.len()
            && "Ninja"@.len() != "Knight"@.len() && "Ninja"@.len() != "Lord"@.len()
            && "Ninja"@.len() != "Ranger"@.len() && "Ninja"@.len() != "Warden"@.len()
            && "Ninja"@.len() != "Samurai"@.len() && "Ninja"@.len() != "Daimyo"@.len()
            && "Ninja"@.len() != "Berserker"@.len() && "Ninja"@.len() != "Jarl"@.len()
        );
    }
    assert(archetype_of_class_spec("Sensei"@) == Some(HeroArchetype::GreenRogue)) by {
        reveal_strlit("Sensei"); reveal_strlit("Soldier"); reveal_strlit("Mercenary"); reveal_strlit("Barbarian");
        reveal_strlit("Chieftain"); reveal_strlit("Knight"); reveal_strlit("Lord"); reveal_strlit("Ranger");
        reveal_strlit("Warden"); reveal_strlit("Samurai"); reveal_strlit("Daimyo"); reveal_strlit("Berserker");
        reveal_strlit("Jarl");
        assert(
            "Sensei"@.len() != "Soldier"@.len() && "Sensei"@.len() != "Mercenary"@.len()
            && "Sensei"@.len() != "Barbarian"@.len() && "Sensei"@.len() != "Chieftain"@.len()
            && "Sensei"@[0] != "Knight"@[0] && "Sensei"@.len() != "Lord"@.len()
            && "Sensei"@[0] != "Ranger"@[0] && "Sensei"@[0] != "Warden"@[0]
            && "Sensei"@.len() != "Samurai"@.len() && "Sensei"@[0] != "Daimyo"@[0]
            && "Sensei"@.len() != "Berserker"@.len() && "Sensei"@.len() != "Jarl"@.len()
        );
    }
    assert(archetype_of_class_spec("Dancer"@) == Some(HeroArchetype::GreenRogue)) by {
        reveal_strlit("Dancer"); reveal_strlit("Soldier"); reveal_strlit("Mercenary"); reveal_strlit("Barbarian");
        reveal_strlit("Chieftain"); reveal_strlit("Knight"); reveal_strlit("Lord"); reveal_strlit("Ranger");
        reveal_strlit("Warden"); reveal_strlit("Samurai"); reveal_strlit("Daimyo"); reveal_strlit("Berserker");
        reveal_strlit("Jarl");
        assert(
            "Dancer"@.len() != "Soldier"@.len() && "Dancer"@.len() != "Mercenary"@.len()
            && "Dancer"@.len() != "Barbarian"@.len() && "Dancer"@.len() != "Chieftain"@.len()
            && "Dancer"@[0] != "Knight"@[0] && "Dancer"@.len() != "Lord"@.len()
            && "Dancer"@[0] != "Ranger"@[0] && "Dancer"@[0] != "Warden"@[0]
            && "Dancer"@.len() != "Samurai"@.len() && "Dancer"@[2] != "Daimyo"@[2]
            && "Dancer"@.len() != "Berserker"@.len() && "Dancer"@.len() != "Jarl"@.len()
        );
    }
    assert(archetype_of_class_spec("Acrobat"@) == Some(HeroArchetype::GreenRogue)) by {
        reveal_strlit("Acrobat"); reveal_strlit("Soldier"); reveal_strlit("Mercenary"); reveal_strlit("Barbarian");
        reveal_strlit("Chieftain"); reveal_strlit("Knight"); reveal_strlit("Lord"); reveal_strlit("Ranger");
        reveal_strlit("Warden"); reveal_strlit("Samurai"); reveal_strlit("Daimyo"); reveal_strlit("Berserker");
        reveal_strlit("Jarl");
        assert(
            "Acrobat"@[0] != "Soldier"@[0] && "Acrobat"@.len() != "Mercenary"@.len()
            && "Acrobat"@.len() != "Barbarian"@.len() && "Acrobat"@.len() != "Chieftain"@.len()
            && "Acrobat"@.len() != "Knight"@.len() && "Acrobat"@.len() != "Lord"@.len()
            && "Acrobat"@.len() != "Ranger"@.len() && "Acrobat"@.len() != "Warden"@.len()
            && "Acrobat"@[0] != "Samurai"@[0] && "Acrobat"@.len() != "Daimyo"@.len()
            && "Acrobat"@.len() != "Berserker"@.len() && "Acrobat"@.len() != "Jarl"@.len()
        );
    }
    assert(archetype_of_class_spec("Mage"@) == Some(HeroArchetype::BlueSpellcaster)) by {
        reveal_strlit("Mage"); reveal_strlit("Soldier"); reveal_strlit("Mercenary"); reveal_strlit("Barbarian");
        reveal_strlit("Chieftain"); reveal_strlit("Knight"); reveal_strlit("Lord"); reveal_strlit("Ranger");
        reveal_strlit("Warden"); reveal_strlit("Samurai"); reveal_strlit("Daimyo"); reveal_strlit("Berserker");
        reveal_strlit("Jarl"); reveal_strlit("Thief"); reveal_strlit("Trickster"); reveal_strlit("Monk");
        reveal_strlit("Grandmaster"); reveal_strlit("Musketeer"); reveal_strlit("Conquistador"); reveal_strlit("Wanderer");
        reveal_strlit("Pathfinder"); reveal_strlit("Ninja"); reveal_strlit("Sensei"); reveal_strlit("Dancer");
        reveal_strlit("Acrobat");
        assert(
            "Mage"@.len() != "Soldier"@.len() && "Mage"@.len() != "Mercenary"@.len()
            && "Mage"@.len() != "Barbarian"@.len() && "Mage"@.len() != "Chieftain"@.len()
            && "Mage"@.len() != "Knight"@.len() && "Mage"@[0] != "Lord"@[0]
            && "Mage"@.len() != "Ranger"@.len() && "Mage"@.len() != "Warden"@.len()
            && "Mage"@.len() != "Samurai"@.len() && "Mage"@.len() != "Daimyo"@.len()
            && "Mage"@.len() != "Berserker"@.len() && "Mage"@[0] != "Jarl"@[0]
            && "Mage"@.len() != "Thief"@.len() && "Mage"@.len() != "Trickster"@.len()
            && "Mage"@[1] != "Monk"@[1] && "Mage"@.len() != "Grandmaster"@.len()
            && "Mage"@.len() != "Musketeer"@.len() && "Mage"@.len() != "Conquistador"@.len()
            && "Mage"@.len() != "Wanderer"@.len() && "Mage"@.len() != "Pathfinder"@.len()
            && "Mage"@.len() != "Ninja"@.len() && "Mage"@.len() != "Sensei"@.len()
            && "Mage"@.len() != "Dancer"@.len() && "Mage"@.len() != "Acrobat"@.len()
        );
    }
    assert(archetype_of_class_spec("Archmage"@) == Some(HeroArchetype::BlueSpellcaster)) by {
        reveal_strlit("Archmage"); reveal_strlit("Soldier"); reveal_strlit("Mercenary"); reveal_strlit("Barbarian");
        reveal_strlit("Chieftain"); reveal_strlit("Knight"); reveal_strlit("Lord"); reveal_strlit("Ranger");
        reveal_strlit("Warden"); reveal_strlit("Samurai"); reveal_strlit("Daimyo"); reveal_strlit("Berserker");
        reveal_strlit("Jarl"); reveal_strlit("Thief"); reveal_strlit("Trickster"); reveal_strlit("Monk");
        reveal_strlit("Grandmaster"); reveal_strlit("Musketeer"); reveal_strlit("Conquistador"); reveal_strlit("Wanderer");
        reveal_strlit("Pathfinder"); reveal_strlit("Ninja"); reveal_strlit("Sensei"); reveal_strlit("Dancer");
        reveal_strlit("Acrobat");
        assert(
            "Archmage"@.len() != "Soldier"@.len() && "Archmage"@.len() != "Mercenary"@.len()
            && "Archmage"@.len() != "Barbarian"@.len() && "Archmage"@.len() != "Chieftain"@.len()
            && "Archmage"@.len() != "Knight"@.len() && "Archmage"@.len() != "Lord"@.len()
            && "Archmage"@.len() != "Ranger"@.len() && "Archmage"@.len() != "Warden"@.len()
            && "Archmage"@.len() != "Samurai"@.len() && "Archmage"@.len() != "Daimyo"@.len()
            && "Archmage"@.len() != "Berserker"@.len() && "Archmage"@.len() != "Jarl"@.len()
            && "Archmage"@.len() != "Thief"@.len() && "Archmage"@.len() != "Trickster"@.len()
            && "Archmage"@.len() != "Monk"@.len() && "Archmage"@.len() != "Grandmaster"@.len()
            && "Archmage"@.len() != "Musketeer"@.len() && "Archmage"@.len() != "Conquistador"@.len()
            && "Archmage"@[0] != "Wanderer"@[0] && "Archmage"@.len() != "Pathfinder"@.len()
            && "Archmage"@.len() != "Ninja"@.len() && "Archmage"@.len() != "Sensei"@.len()
            && "Archmage"@.len() != "Dancer"@.len() && "Archmage"@.len() != "Acrobat"@.len()
        );
    }
    assert(archetype_of_class_spec("Cleric"@) == Some(HeroArchetype::BlueSpellcaster)) by {
        reveal_strlit("Cleric"); reveal_strlit("Soldier"); reveal_strlit("Mercenary"); reveal_strlit("Barbarian");
        reveal_strlit("Chieftain"); reveal_strlit("Knight"); reveal_strlit("Lord"); reveal_strlit("Ranger");
        reveal_strlit("Warden"); reveal_strlit("Samurai"); reveal_strlit("Daimyo"); reveal_strlit("Berserker");
        reveal_strlit("Jarl"); reveal_strlit("Thief"); reveal_strlit("Trickster"); reveal_strlit("Monk");
        reveal_strlit("Grandmaster"); reveal_strlit("Musketeer"); reveal_strlit("Conquistador"); reveal_strlit("Wanderer");
        reveal_strlit("Pathfinder"); reveal_strlit("Ninja"); reveal_strlit("Sensei"); reveal_strlit("Dancer");
        reveal_strlit("Acrobat");
        assert(
            "Cleric"@.len() != "Soldier"@.len() && "Cleric"@.len() != "Mercenary"@.len()
            && "Cleric"@.len() != "Barbarian"@.len() && "Cleric"@.len() != "Chieftain"@.len()
            && "Cleric"@[0] != "Knight"@[0] && "Cleric"@.len() != "Lord"@.len()
            && "Cleric"@[0] != "Ranger"@[0] && "Cleric"@[0] != "Warden"@[0]
            && "Cleric"@.len() != "Samurai"@.len() && "Cleric"@[0] != "Daimyo"@[0]
            && "Cleric"@.len() != "Berserker"@.len() && "Cleric"@.len() != "Jarl"@.len()
            && "Cleric"@.len() != "Thief"@.len() && "Cleric"@.len() != "Trickster"@.len()
            && "Cleric"@.len() != "Monk"@.len() && "Cleric"@.len() != "Grandmaster"@.len()
            && "Cleric"@.len() != "Musketeer"@.len() && "Cleric"@.len() != "Conquistador"@.len()
            && "Cleric"@.len() != "Wanderer"@.len() && "Cleric"@.len() != "Pathfinder"@.len()
            && "Cleric"@.len() != "Ninja"@.len() && "Cleric"@[0] != "Sensei"@[0]
            && "Cleric"@[0] != "Dancer"@[0] && "Cleric"@.len() != "Acrobat"@.len()
        );
    }
    assert(archetype_of_class_spec("Bishop"@) == Some(HeroArchetype::BlueSpellcaster)) by {
        reveal_strlit("Bishop"); reveal_strlit("Soldier"); reveal_strlit("Mercenary"); reveal_strlit("Barbarian");
        reveal_strlit("Chieftain"); reveal_strlit("Knight"); reveal_strlit("Lord"); reveal_strlit("Ranger");
        reveal_strlit("Warden"); reveal_strlit("Samurai"); reveal_strlit("Daimyo"); reveal_strlit("Berserker");
        reveal_strlit("Jarl"); reveal_strlit("Thief"); reveal_strlit("Trickster"); reveal_strlit("Monk");
        reveal_strlit("Grandmaster"); reveal_strlit("Musketeer"); reveal_strlit("Conquistador"); reveal_strlit("Wanderer");
        reveal_strlit("Pathfinder"); reveal_strlit("Ninja"); reveal_strlit("Sensei"); reveal_strlit("Dancer");
        reveal_strlit("Acrobat");
        assert(
            "Bishop"@.len() != "Soldier"@.len() && "Bishop"@.len() != "Mercenary"@.len()
            && "Bishop"@.len() != "Barbarian"@.len() && "Bishop"@.len() != "Chieftain"@.len()
            && "Bishop"@[0] != "Knight"@[0] && "Bishop"@.len() != "Lord"@.len()
            && "Bishop"@[0] != "Ranger"@[0] && "Bishop"@[0] != "Warden"@[0]
            && "Bishop"@.len() != "Samurai"@.len() && "Bishop"@[0] != "Daimyo"@[0]
            && "Bishop"@.len() != "Berserker"@.len() && "Bishop"@.len() != "Jarl"@.len()
            && "Bishop"@.len() != "Thief"@.len() && "Bishop"@.len() != "Trickster"@.len()
            && "Bishop"@.len() != "Monk"@.len() && "Bishop"@.len() != "Grandmaster"@.len()
            && "Bishop"@.len() != "Musketeer"@.len() && "Bishop"@.len() != "Conquistador"@.len()
            && "Bishop"@.len() != "Wanderer"@.len() && "Bishop"@.len() != "Pathfinder"@.len()
            && "Bishop"@.len() != "Ninja"@.len() && "Bishop"@[0] != "Sensei"@[0]
            && "Bishop"@[0] != "Dancer"@[0] && "Bishop"@.len() != "Acrobat"@.len()
        );
    }
    assert(archetype_of_class_spec("Druid"@) == Some(HeroArchetype::BlueSpellcaster)) by {
        reveal_strlit("Druid"); reveal_strlit("Soldier"); reveal_strlit("Mercenary"); reveal_strlit("Barbarian");
        reveal_strlit("Chieftain"); reveal_strlit("Knight"); reveal_strlit("Lord"); reveal_strlit("Ranger");
        reveal_strlit("Warden"); reveal_strlit("Samurai"); reveal_strlit("Daimyo"); reveal_strlit("Berserker");
        reveal_strlit("Jarl"); reveal_strlit("Thief"); reveal_strlit("Trickster"); reveal_strlit("Monk");
        reveal_strlit("Grandmaster"); reveal_strlit("Musketeer"); reveal_strlit("Conquistador"); reveal_strlit("Wanderer");
        reveal_strlit("Pathfinder"); reveal_strlit("Ninja"); reveal_strlit("Sensei"); reveal_strlit("Dancer");
        reveal_strlit("Acrobat");
        assert(
            "Druid"@.len() != "Soldier"@.len() && "Druid"@.len() != "Mercenary"@.len()
            && "Druid"@.len() != "Barbarian"@.len() && "Druid"@.len() != "Chieftain"@.len()
            && "Druid"@.len() != "Knight"@.len() && "Druid"@.len() != "Lord"@.len()
            && "Druid"@.len() != "Ranger"@.len() && "Druid"@.len() != "Warden"@.len()
            && "Druid"@.len() != "Samurai"@.len() && "Druid"@.len() != "Daimyo"@.len()
            && "Druid"@.len() != "Berserker"@.len() && "Druid"@.len() != "Jarl"@.len()
            && "Druid"@[0] != "Thief"@[0] && "Druid"@.len() != "Trickster"@.len()
            && "Druid"@.len() != "Monk"@.len() && "Druid"@.len() != "Grandmaster"@.len()
            && "Druid"@.len() != "Musketeer"@.len() && "Druid"@.len() != "Conquistador"@.len()
            && "Druid"@.len() != "Wanderer"@.len() && "Druid"@.len() != "Pathfinder"@.len()
            && "Druid"@[0] != "Ninja"@[0] && "Druid"@.len() != "Sensei"@.len()
            && "Druid"@.len() != "Dancer"@.len() && "Druid"@.len() != "Acrobat"@.len()
        );
    }
    assert(archetype_of_class_spec("Arch Druid"@) == Some(HeroArchetype::BlueSpellcaster)) by {
        reveal_strlit("Arch Druid"); reveal_strlit("Soldier"); reveal_strlit("Mercenary"); reveal_strlit("Barbarian");
        reveal_strlit("Chieftain"); reveal_strlit("Knight"); reveal_strlit("Lord"); reveal_strlit("Ranger");
        reveal_strlit("Warden"); reveal_strlit("Samurai"); reveal_strlit("Daimyo"); reveal_strlit("Berserker");
        reveal_strlit("Jarl"); reveal_strlit("Thief"); reveal_strlit("Trickster"); reveal_strlit("Monk");
        reveal_strlit("Grandmaster"); reveal_strlit("Musketeer"); reveal_strlit("Conquistador"); reveal_strlit("Wanderer");
        reveal_strlit("Pathfinder"); reveal_strlit("Ninja"); reveal_strlit("Sensei"); reveal_strlit("Dancer");
        reveal_strlit("Acrobat");
        assert(
            "Arch Druid"@.len() != "Soldier"@.len() && "Arch Druid"@.len() != "Mercenary"@.len()
            && "Arch Druid"@.len() != "Barbarian"@.len() && "Arch Druid"@.len() != "Chieftain"@.len()
            && "Arch Druid"@.len() != "Knight"@.len() && "Arch Druid"@.len() != "Lord"@.len()
            && "Arch Druid"@.len() != "Ranger"@.len() && "Arch Druid"@.len() != "Warden"@.len()
            && "Arch Druid"@.len() != "Samurai"@.len() && "Arch Druid"@.len() != "Daimyo"@.len()
            && "Arch Druid"@.len() != "Berserker"@.len() && "Arch Druid"@.len() != "Jarl"@.len()
            && "Arch Druid"@.len() != "Thief"@.len() && "Arch Druid"@.len() != "Trickster"@.len()
            && "Arch Druid"@.len() != "Monk"@.len() && "Arch Druid"@.len() != "Grandmaster"@.len()
            && "Arch Druid"@.len() != "Musketeer"@.len() && "Arch Druid"@.len() != "Conquistador"@.len()
            && "Arch Druid"@.len() != "Wanderer"@.len() && "Arch Druid"@[0] != "Pathfinder"@[0]
            && "Arch Druid"@.len() != "Ninja"@.len() && "Arch Druid"@.len() != "Sensei"@.len()
            && "Arch Druid"@.len() != "Dancer"@.len() && "Arch Druid"@.len() != "Acrobat"@.len()
        );
    }
    assert(archetype_of_class_spec("Sorcerer"@) == Some(HeroArchetype::BlueSpellcaster)) by {
        reveal_strlit("Sorcerer"); reveal_strlit("Soldier"); reveal_strlit("Mercenary"); reveal_strlit("Barbarian");
        reveal_strlit("Chieftain"); reveal_strlit("Knight"); reveal_strlit("Lord"); reveal_strlit("Ranger");
        reveal_strlit("Warden"); reveal_strlit("Samurai"); reveal_strlit("Daimyo"); reveal_strlit("Berserker");
        reveal_strlit("Jarl"); reveal_strlit("Thief"); reveal_strlit("Trickster"); reveal_strlit("Monk");
        reveal_strlit("Grandmaster"); reveal_strlit("Musketeer"); reveal_strlit("Conquistador"); reveal_strlit("Wanderer");
        reveal_strlit("Pathfinder"); reveal_strlit("Ninja"); reveal_strlit("Sensei"); reveal_strlit("Dancer");
        reveal_strlit("Acrobat");
        assert(
            "Sorcerer"@.len() != "Soldier"@.len() && "Sorcerer"@.len() != "Mercenary"@.len()
            && "Sorcerer"@.len() != "Barbarian"@.len() && "Sorcerer"@.len() != "Chieftain"@.len()
            && "Sorcerer"@.len() != "Knight"@.len() && "Sorcerer"@.len() != "Lord"@.len()
            && "Sorcerer"@.len() != "Ranger"@.len() && "Sorcerer"@.len() != "Warden"@.len()
            && "Sorcerer"@.len() != "Samurai"@.len() && "Sorcerer"@.len() != "Daimyo"@.len()
            && "Sorcerer"@.len() != "Berserker"@.len() && "Sorcerer"@.len() != "Jarl"@.len()
            && "Sorcerer"@.len() != "Thief"@.len() && "Sorcerer"@.len() != "Trickster"@.len()
            && "Sorcerer"@.len() != "Monk"@.len() && "Sorcerer"@.len() != "Grandmaster"@.len()
            && "Sorcerer"@.len() != "Musketeer"@.len() && "Sorcerer"@.len() != "Conquistador"@.len()
            && "Sorcerer"@[0] != "Wanderer"@[0] && "Sorcerer"@.len() != "Pathfinder"@.len()
            && "Sorcerer"@.len() != "Ninja"@.len() && "Sorcerer"@.len() != "Sensei"@.len()
            && "Sorcerer"@.len() != "Dancer"@.len() && "Sorcerer"@.len() != "Acrobat"@.len()
        );
    }
    assert(archetype_of_class_spec("Warlock"@) == Some(HeroArchetype::BlueSpellcaster)) by {
        reveal_strlit("Warlock"); reveal_strlit("Soldier"); reveal_strlit("Mercenary"); reveal_strlit("Barbarian");
        reveal_strlit("Chieftain"); reveal_strlit("Knight"); reveal_strlit("Lord"); reveal_strlit("Ranger");
        reveal_strlit("Warden"); reveal_strlit("Samurai"); reveal_strlit("Daimyo"); reveal_strlit("Berserker");
        reveal_strlit("Jarl"); reveal_strlit("Thief"); reveal_strlit("Trickster"); reveal_strlit("Monk");
        reveal_strlit("Grandmaster"); reveal_strlit("Musketeer"); reveal_strlit("Conquistador"); reveal_strlit("Wanderer");
        reveal_strlit("Pathfinder"); reveal_strlit("Ninja"); reveal_strlit("Sensei"); reveal_strlit("Dancer");
        reveal_strlit("Acrobat");
        assert(
            "Warlock"@[0] != "Soldier"@[0] && "Warlock"@.len() != "Mercenary"@.len()
            && "Warlock"@.len() != "Barbarian"@.len() && "Warlock"@.len() != "Chieftain"@.len()
            && "Warlock"@.len() != "Knight"@.len() && "Warlock"@.len() != "Lord"@.len()
            && "Warlock"@.len() != "Ranger"@.len() && "Warlock"@.len() != "Warden"@.len()
            && "Warlock"@[0] != "Samurai"@[0] && "Warlock"@.len() != "Daimyo"@.len()
            && "Warlock"@.len() != "Berserker"@.len() && "Warlock"@.len() != "Jarl"@.len()
            && "Warlock"@.len() != "Thief"@.len() && "Warlock"@.len() != "Trickster"@.len()
            && "Warlock"@.len() != "Monk"@.len() && "Warlock"@.len() != "Grandmaster"@.len()
            && "Warlock"@.len() != "Musketeer"@.len() && "Warlock"@.len() != "Conquistador"@.len()
            && "Warlock"@.len() != "Wanderer"@.len() && "Warlock"@.len() != "Pathfinder"@.len()
            && "Warlock"@.len() != "Ninja"@.len() && "Warlock"@.len() != "Sensei"@.len()
            && "Warlock"@.len() != "Dancer"@.len() && "Warlock"@[0] != "Acrobat"@[0]
        );
    }
    assert(archetype_of_class_spec("Spellblade"@) == Some(HeroArchetype::BlueSpellcaster)) by {
        reveal_strlit("Spellblade"); reveal_strlit("Soldier"); reveal_strlit("Mercenary"); reveal_strlit("Barbarian");
        reveal_strlit("Chieftain"); reveal_strlit("Knight"); reveal_strlit("Lord"); reveal_strlit("Ranger");
        reveal_strlit("Warden"); reveal_strlit("Samurai"); reveal_strlit("Daimyo"); reveal_strlit("Berserker");
        reveal_strlit("Jarl"); reveal_strlit("Thief"); reveal_strlit("Trickster"); reveal_strlit("Monk");
        reveal_strlit("Grandmaster"); reveal_strlit("Musketeer"); reveal_strlit("Conquistador"); reveal_strlit("Wanderer");
        reveal_strlit("Pathfinder"); reveal_strlit("Ninja"); reveal_strlit("Sensei"); reveal_strlit("Dancer");
        reveal_strlit("Acrobat");
        assert(
            "Spellblade"@.len() != "Soldier"@.len() && "Spellblade"@.len() != "Mercenary"@.len()
            && "Spellblade"@.len() != "Barbarian"@.len() && "Spellblade"@.len() != "Chieftain"@.len()
            && "Spellblade"@.len() != "Knight"@.len() && "Spellblade"@.len() != "Lord"@.len()
            && "Spellblade"@.len() != "Ranger"@.len() && "Spellblade"@.len() != "Warden"@.len()
            && "Spellblade"@.len() != "Samurai"@.len() && "Spellblade"@.len() != "Daimyo"@.len()
            && "Spellblade"@.len() != "Berserker"@.len() && "Spellblade"@.len() != "Jarl"@.len()
            && "Spellblade"@.len() != "Thief"@.len() && "Spellblade"@.len() != "Trickster"@.len()
            && "Spellblade"@.len() != "Monk"@.len() && "Spellblade"@.len() != "Grandmaster"@.len()
            && "Spellblade"@.len() != "Musketeer"@.len() && "Spellblade"@.len() != "Conquistador"@.len()
            && "Spellblade"@.len() != "Wanderer"@.len() && "Spellblade"@[0] != "Pathfinder"@[0]
            && "Spellblade"@.len() != "Ninja"@.len() && "Spellblade"@.len() != "Sensei"@.len()
            && "Spellblade"@.len() != "Dancer"@.len() && "Spellblade"@.len() != "Acrobat"@.len()
        );
    }
    assert(archetype_of_class_spec("Spellknight"@) == Some(HeroArchetype::BlueSpellcaster)) by {
        reveal_strlit("Spellknight"); reveal_strlit("Soldier"); reveal_strlit("Mercenary"); reveal_strlit("Barbarian");
        reveal_strlit("Chieftain"); reveal_strlit("Knight"); reveal_strlit("Lord"); reveal_strlit("Ranger");
        reveal_strlit("Warden"); reveal_strlit("Samurai"); reveal_strlit("Daimyo"); reveal_strlit("Berserker");
        reveal_strlit("Jarl"); reveal_strlit("Thief"); reveal_strlit("Trickster"); reveal_strlit("Monk");
        reveal_strlit("Grandmaster"); reveal_strlit("Musketeer"); reveal_strlit("Conquistador"); reveal_strlit("Wanderer");
        reveal_strlit("Pathfinder"); reveal_strlit("Ninja"); reveal_strlit("Sensei"); reveal_strlit("Dancer");
        reveal_strlit("Acrobat");
        assert(
            "Spellknight"@.len() != "Soldier"@.len() && "Spellknight"@.len() != "Mercenary"@.len()
            && "Spellknight"@.len() != "Barbarian"@.len() && "Spellknight"@.len() != "Chieftain"@.len()
            && "Spellknight"@.len() != "Knight"@.len() && "Spellknight"@.len() != "Lord"@.len()
            && "Spellknight"@.len() != "Ranger"@.len() && "Spellknight"@.len() != "Warden"@.len()
            && "Spellknight"@.len() != "Samurai"@.len() && "Spellknight"@.len() != "Daimyo"@.len()
            && "Spellknight"@.len() != "Berserker"@.len() && "Spellknight"@.len() != "Jarl"@.len()
            && "Spellknight"@.len() != "Thief"@.len() && "Spellknight"@.len() != "Trickster"@.len()
            && "Spellknight"@.len() != "Monk"@.len() && "Spellknight"@[0] != "Grandmaster"@[0]
            && "Spellknight"@.len() != "Musketeer"@.len() && "Spellknight"@.len() != "Conquistador"@.len()
            && "Spellknight"@.len() != "Wanderer"@.len() && "Spellknight"@.len() != "Pathfinder"@.len()
            && "Spellknight"@.len() != "Ninja"@.len() && "Spellknight"@.len() != "Sensei"@.len()
            && "Spellknight"@.len() != "Dancer"@.len() && "Spellknight"@.len() != "Acrobat"@.len()
        );
    }
    assert(archetype_of_class_spec("Geomancer"@) == Some(HeroArchetype::BlueSpellcaster)) by {
        reveal_strlit("Geomancer"); reveal_strlit("Soldier"); reveal_strlit("Mercenary"); reveal_strlit("Barbarian");
        reveal_strlit("Chieftain"); reveal_strlit("Knight"); reveal_strlit("Lord"); reveal_strlit("Ranger");
        reveal_strlit("Warden"); reveal_strlit("Samurai"); reveal_strlit("Daimyo"); reveal_strlit("Berserker");
        reveal_strlit("Jarl"); reveal_strlit("Thief"); reveal_strlit("Trickster"); reveal_strlit("Monk");
        reveal_strlit("Grandmaster"); reveal_strlit("Musketeer"); reveal_strlit("Conquistador"); reveal_strlit("Wanderer");
        reveal_strlit("Pathfinder"); reveal_strlit("Ninja"); reveal_strlit("Sensei"); reveal_strlit("Dancer");
        reveal_strlit("Acrobat");
        assert(
            "Geomancer"@.len() != "Soldier"@.len() && "Geomancer"@[0] != "Mercenary"@[0]
            && "Geomancer"@[0] != "Barbarian"@[0] && "Geomancer"@[0] != "Chieftain"@[0]
            && "Geomancer"@.len() != "Knight"@.len() && "Geomancer"@.len() != "Lord"@.len()
            && "Geomancer"@.len() != "Ranger"@.len() && "Geomancer"@.len() != "Warden"@.len()
            && "Geomancer"@.len() != "Samurai"@.len() && "Geomancer"@.len() != "Daimyo"@.len()
            && "Geomancer"@[0] != "Berserker"@[0] && "Geomancer"@.len() != "Jarl"@.len()
            && "Geomancer"@.len() != "Thief"@.len() && "Geomancer"@[0] != "Trickster"@[0]
            && "Geomancer"@.len() != "Monk"@.len() && "Geomancer"@.len() != "Grandmaster"@.len()
            && "Geomancer"@[0] != "Musketeer"@[0] && "Geomancer"@.len() != "Conquistador"@.len()
            && "Geomancer"@.len() != "Wanderer"@.len() && "Geomancer"@.len() != "Pathfinder"@.len()
            && "Geomancer"@.len() != "Ninja"@.len() && "Geomancer"@.len() != "Sensei"@.len()
            && "Geomancer"@.len() != "Dancer"@.len() && "Geomancer"@.len() != "Acrobat"@.len()
        );
    }
    assert(archetype_of_class_spec("Astramancer"@) == Some(HeroArchetype::BlueSpellcaster)) by {
        reveal_strlit("Astramancer"); reveal_strlit("Soldier"); reveal_strlit("Mercenary"); reveal_strlit("Barbarian");
        reveal_strlit("Chieftain"); reveal_strlit("Knight"); reveal_strlit("Lord"); reveal_strlit("Ranger");
        reveal_strlit("Warden"); reveal_strlit("Samurai"); reveal_strlit("Daimyo"); reveal_strlit("Berserker");
        reveal_strlit("Jarl"); reveal_strlit("Thief"); reveal_strlit("Trickster"); reveal_strlit("Monk");
        reveal_strlit("Grandmaster"); reveal_strlit("Musketeer"); reveal_strlit("Conquistador"); reveal_strlit("Wanderer");
        reveal_strlit("Pathfinder"); reveal_strlit("Ninja"); reveal_strlit("Sensei"); reveal_strlit("Dancer");
        reveal_strlit("Acrobat");
        assert(
            "Astramancer"@.len() != "Soldier"@.len() && "Astramancer"@.len() != "Mercenary"@.len()
            && "Astramancer"@.len() != "Barbarian"@.len() && "Astramancer"@.len() != "Chieftain"@.len()
            && "Astramancer"@.len() != "Knight"@.len() && "Astramancer"@.len() != "Lord"@.len()
            && "Astramancer"@.len() != "Ranger"@.len() && "Astramancer"@.len() != "Warden"@.len()
            && "Astramancer"@.len() != "Samurai"@.len() && "Astramancer"@.len() != "Daimyo"@.len()
            && "Astramancer"@.len() != "Berserker"@.len() && "Astramancer"@.len() != "Jarl"@.len()
            && "Astramancer"@.len() != "Thief"@.len() && "Astramancer"@.len() != "Trickster"@.len()
            && "Astramancer"@.len() != "Monk"@.len() && "Astramancer"@[0] != "Grandmaster"@[0]
            && "Astramancer"@.len() != "Musketeer"@.len() && "Astramancer"@.len() != "Conquistador"@.len()
            && "Astramancer"@.len() != "Wanderer"@.len() && "Astramancer"@.len() != "Pathfinder"@.len()
            && "Astramancer"@.len() != "Ninja"@.len() && "Astramancer"@.len() != "Sensei"@.len()
            && "Astramancer"@.len() != "Dancer"@.len() && "Astramancer"@.len() != "Acrobat"@.len()
        );
    }
    assert(archetype_of_class_spec("Argon"@) == Some(HeroArchetype::Champion)) by {
        reveal_strlit("Argon"); reveal_strlit("Soldier"); reveal_strlit("Mercenary"); reveal_strlit("Barbarian");
        reveal_strlit("Chieftain"); reveal_strlit("Knight"); reveal_strlit("Lord"); reveal_strlit("Ranger");
        reveal_strlit("Warden"); reveal_strlit("Samurai"); reveal_strlit("Daimyo"); reveal_strlit("Berserker");
        reveal_strlit("Jarl"); reveal_strlit("Thief"); reveal_strlit("Trickster"); reveal_strlit("Monk");
        reveal_strlit("Grandmaster"); reveal_strlit("Musketeer"); reveal_strlit("Conquistador"); reveal_strlit("Wanderer");
        reveal_strlit("Pathfinder"); reveal_strlit("Ninja"); reveal_strlit("Sensei"); reveal_strlit("Dancer");
        reveal_strlit("Acrobat"); reveal_strlit("Mage"); reveal_strlit("Archmage"); reveal_strlit("Cleric");
        reveal_strlit("Bishop"); reveal_strlit("Druid"); reveal_strlit("Arch Druid"); reveal_strlit("Sorcerer");
        reveal_strlit("Warlock"); reveal_strlit("Spellblade"); reveal_strlit("Spellknight"); reveal_strlit("Geomancer");
        reveal_strlit("Astramancer");
        assert(
            "Argon"@.len() != "Soldier"@.len() && "Argon"@.len() != "Mercenary"@.len()
            && "Argon"@.len() != "Barbarian"@.len() && "Argon"@.len() != "Chieftain"@.len()
            && "Argon"@.len() != "Knight"@.len() && "Argon"@.len() != "Lord"@.len()
            && "Argon"@.len() != "Ranger"@.len() && "Argon"@.len() != "Warden"@.len()
            && "Argon"@.len() != "Samurai"@.len() && "Argon"@.len() != "Daimyo"@.len()
            && "Argon"@.len() != "Berserker"@.len() && "Argon"@.len() != "Jarl"@.len()
            && "Argon"@[0] != "Thief"@[0] && "Argon"@.len() != "Trickster"@.len()
            && "Argon"@.len() != "Monk"@.len() && "Argon"@.len() != "Grandmaster"@.len()
            && "Argon"@.len() != "Musketeer"@.len() && "Argon"@.len() != "Conquistador"@.len()
            && "Argon"@.len() != "Wanderer"@.len() && "Argon"@.len() != "Pathfinder"@.len()
            && "Argon"@[0] != "Ninja"@[0] && "Argon"@.len() != "Sensei"@.len()
            && "Argon"@.len() != "Dancer"@.len() && "Argon"@.len() != "Acrobat"@.len()
            && "Argon"@.len() != "Mage"@.len() && "Argon"@.len() != "Archmage"@.len()
            && "Argon"@.len() != "Cleric"@.len() && "Argon"@.len() != "Bishop"@.len()
            && "Argon"@[0] != "Druid"@[0] && "Argon"@.len() != "Arch Druid"@.len()
            && "Argon"@.len() != "Sorcerer"@.len() && "Argon"@.len() != "Warlock"@.len()
            && "Argon"@.len() != "Spellblade"@.len() && "Argon"@.len() != "Spellknight"@.len()
            && "Argon"@.len() != "Geomancer"@.len() && "Argon"@.len() != "Astramancer"@.len()
        );
    }
    assert(archetype_of_class_spec("Lilu"@) == Some(HeroArchetype::Champion)) by {
        reveal_strlit("Lilu"); reveal_strlit("Soldier"); reveal_strlit("Mercenary"); reveal_strlit("Barbarian");
        reveal_strlit("Chieftain"); reveal_strlit("Knight"); reveal_strlit("Lord"); reveal_strlit("Ranger");
        reveal_strlit("Warden"); reveal_strlit("Samurai"); reveal_strlit("Daimyo"); reveal_strlit("Berserker");
        reveal_strlit("Jarl"); reveal_strlit("Thief"); reveal_strlit("Trickster"); reveal_strlit("Monk");
        reveal_strlit("Grandmaster"); reveal_strlit("Musketeer"); reveal_strlit("Conquistador"); reveal_strlit("Wanderer");
        reveal_strlit("Pathfinder"); reveal_strlit("Ninja"); reveal_strlit("Sensei"); reveal_strlit("Dancer");
        reveal_strlit("Acrobat"); reveal_strlit("Mage"); reveal_strlit("Archmage"); reveal_strlit("Cleric");
        reveal_strlit("Bishop"); reveal_strlit("Druid"); reveal_strlit("Arch Druid"); reveal_strlit("Sorcerer");
        reveal_strlit("Warlock"); reveal_strlit("Spellblade"); reveal_strlit("Spellknight"); reveal_strlit("Geomancer");
        reveal_strlit("Astramancer");
        assert(
            "Lilu"@.len() != "Soldier"@.len() && "Lilu"@.len() != "Mercenary"@.len()
            && "Lilu"@.len() != "Barbarian"@.len() && "Lilu"@.len() != "Chieftain"@.len()
            && "Lilu"@.len() != "Knight"@.len() && "Lilu"@[1] != "Lord"@[1]
            && "Lilu"@.len() != "Ranger"@.len() && "Lilu"@.len() != "Warden"@.len()
            && "Lilu"@.len() != "Samurai"@.len() && "Lilu"@.len() != "Daimyo"@.len()
            && "Lilu"@.len() != "Berserker"@.len() && "Lilu"@[0] != "Jarl"@[0]
            && "Lilu"@.len() != "Thief"@.len() && "Lilu"@.len() != "Trickster"@.len()
            && "Lilu"@[0] != "Monk"@[0] && "Lilu"@.len() != "Grandmaster"@.len()
            && "Lilu"@.len() != "Musketeer"@.len() && "Lilu"@.len() != "Conquistador"@.len()
            && "Lilu"@.len() != "Wanderer"@.len() && "Lilu"@.len() != "Pathfinder"@.len()
            && "Lilu"@.len() != "Ninja"@.len() && "Lilu"@.len() != "Sensei"@.len()
            && "Lilu"@.len() != "Dancer"@.len() && "Lilu"@.len() != "Acrobat"@.len()
            && "Lilu"@[0] != "Mage"@[0] && "Lilu"@.len() != "Archmage"@.len()
            && "Lilu"@.len() != "Cleric"@.len() && "Lilu"@.len() != "Bishop"@.len()
            && "Lilu"@.len() != "Druid"@.len() && "Lilu"@.len() != "Arch Druid"@.len()
            && "Lilu"@.len() != "Sorcerer"@.len() && "Lilu"@.len() != "Warlock"@.len()
            && "Lilu"@.len() != "Spellblade"@.len() && "Lilu"@.len() != "Spellknight"@.len()
            && "Lilu"@.len() != "Geomancer"@.len() && "Lilu"@.len() != "Astramancer"@.len()
        );
    }
    assert(archetype_of_class_spec("Polonia"@) == Some(HeroArchetype::Champion)) by {
        reveal_strlit("Polonia"); reveal_strlit("Soldier"); reveal_strlit("Mercenary"); reveal_strlit("Barbarian");
        reveal_strlit("Chieftain"); reveal_strlit("Knight"); reveal_strlit("Lord"); reveal_strlit("Ranger");
        reveal_strlit("Warden"); reveal_strlit("Samurai"); reveal_strlit("Daimyo"); reveal_strlit("Berserker");
        reveal_strlit("Jarl"); reveal_strlit("Thief"); reveal_strlit("Trickster"); reveal_strlit("Monk");
        reveal_strlit("Grandmaster"); reveal_strlit("Musketeer"); reveal_strlit("Conquistador"); reveal_strlit("Wanderer");
        reveal_strlit("Pathfinder"); reveal_strlit("Ninja"); reveal_strlit("Sensei"); reveal_strlit("Dancer");
        reveal_strlit("Acrobat"); reveal_strlit("Mage"); reveal_strlit("Archmage"); reveal_strlit("Cleric");
        reveal_strlit("Bishop"); reveal_strlit("Druid"); reveal_strlit("Arch Druid"); reveal_strlit("Sorcerer");
        reveal_strlit("Warlock"); reveal_strlit("Spellblade"); reveal_strlit("Spellknight"); reveal_strlit("Geomancer");
        reveal_strlit("Astramancer");
        assert(
            "Polonia"@[0] != "Soldier"@[0] && "Polonia"@.len() != "Mercenary"@.len()
            && "Polonia"@.len() != "Barbarian"@.len() && "Polonia"@.len() != "Chieftain"@.len()
            && "Polonia"@.len() != "Knight"@.len() && "Polonia"@.len() != "Lord"@.len()
            && "Polonia"@.len() != "Ranger"@.len() && "Polonia"@.len() != "Warden"@.len()
            && "Polonia"@[0] != "Samurai"@[0] && "Polonia"@.len() != "Daimyo"@.len()
            && "Polonia"@.len() != "Berserker"@.len() && "Polonia"@.len() != "Jarl"@.len()
            && "Polonia"@.len() != "Thief"@.len() && "Polonia"@.len() != "Trickster"@.len()
            && "Polonia"@.len() != "Monk"@.len() && "Polonia"@.len() != "Grandmaster"@.len()
            && "Polonia"@.len() != "Musketeer"@.len() && "Polonia"@.len() != "Conquistador"@.len()
            && "Polonia"@.len() != "Wanderer"@.len() && "Polonia"@.len() != "Pathfinder"@.len()
            && "Polonia"@.len() != "Ninja"@.len() && "Polonia"@.len() != "Sensei"@.len()
            && "Polonia"@.len() != "Dancer"@.len() && "Polonia"@[0] != "Acrobat"@[0]
            && "Polonia"@.len() != "Mage"@.len() && "Polonia"@.len() != "Archmage"@.len()
            && "Polonia"@.len() != "Cleric"@.len() && "Polonia"@.len() != "Bishop"@.len()
            && "Polonia"@.len() != "Druid"@.len() && "Polonia"@.len() != "Arch Druid"@.len()
            && "Polonia"@.len() != "Sorcerer"@.len() && "Polonia"@[0] != "Warlock"@[0]
            && "Polonia"@.len() != "Spellblade"@.len() && "Polonia"@.len() != "Spellknight"@.len()
            && "Polonia"@.len() != "Geomancer"@.len() && "Polonia"@.len() != "Astramancer"@.len()
        );
    }
    assert(archetype_of_class_spec("Yami"@) == Some(HeroArchetype::Champion)) by {
        reveal_strlit("Yami"); reveal_strlit("Soldier"); reveal_strlit("Mercenary"); reveal_strlit("Barbarian");
        reveal_strlit("Chieftain"); reveal_strlit("Knight"); reveal_strlit("Lord"); reveal_strlit("Ranger");
        reveal_strlit("Warden"); reveal_strlit("Samurai"); reveal_strlit("Daimyo"); reveal_strlit("Berserker");
        reveal_strlit("Jarl"); reveal_strlit("Thief"); reveal_strlit("Trickster"); reveal_strlit("Monk");
        reveal_strlit("Grandmaster"); reveal_strlit("Musketeer"); reveal_strlit("Conquistador"); reveal_strlit("Wanderer");
        reveal_strlit("Pathfinder"); reveal_strlit("Ninja"); reveal_strlit("Sensei"); reveal_strlit("Dancer");
        reveal_strlit("Acrobat"); reveal_strlit("Mage"); reveal_strlit("Archmage"); reveal_strlit("Cleric");
        reveal_strlit("Bishop"); reveal_strlit("Druid"); reveal_strlit("Arch Druid"); reveal_strlit("Sorcerer");
        reveal_strlit("Warlock"); reveal_strlit("Spellblade"); reveal_strlit("Spellknight"); reveal_strlit("Geomancer");
        reveal_strlit("Astramancer");
        assert(
            "Yami"@.len() != "Soldier"@.len() && "Yami"@.len() != "Mercenary"@.len()
            && "Yami"@.len() != "Barbarian"@.len() && "Yami"@.len() != "Chieftain"@.len()
            && "Yami"@.len() != "Knight"@.len() && "Yami"@[0] != "Lord"@[0]
            && "Yami"@.len() != "Ranger"@.len() && "Yami"@.len() != "Warden"@.len()
            && "Yami"@.len() != "Samurai"@.len() && "Yami"@.len() != "Daimyo"@.len()
            && "Yami"@.len() != "Berserker"@.len() && "Yami"@[0] != "Jarl"@[0]
            && "Yami"@.len() != "Thief"@.len() && "Yami"@.len() != "Trickster"@.len()
            && "Yami"@[0] != "Monk"@[0] && "Yami"@.len() != "Grandmaster"@.len()
            && "Yami"@.len() != "Musketeer"@.len() && "Yami"@.len() != "Conquistador"@.len()
            && "Yami"@.len() != "Wanderer"@.len() && "Yami"@.len() != "Pathfinder"@.len()
            && "Yami"@.len() != "Ninja"@.len() && "Yami"@.len() != "Sensei"@.len()
            && "Yami"@.len() != "Dancer"@.len() && "Yami"@.len() != "Acrobat"@.len()
            && "Yami"@[0] != "Mage"@[0] && "Yami"@.len() != "Archmage"@.len()
            && "Yami"@.len() != "Cleric"@.len() && "Yami"@.len() != "Bishop"@.len()
            && "Yami"@.len() != "Druid"@.len() && "Yami"@.len() != "Arch Druid"@.len()
            && "Yami"@.len() != "Sorcerer"@.len() && "Yami"@.len() != "Warlock"@.len()
            && "Yami"@.len() != "Spellblade"@.len() && "Yami"@.len() != "Spellknight"@.len()
            && "Yami"@.len() != "Geomancer"@.len() && "Yami"@.len() != "Astramancer"@.len()
        );
    }
    assert(archetype_of_class_spec("Rudo"@) == Some(HeroArchetype::Champion)) by {
        reveal_strlit("Rudo"); reveal_strlit("Soldier"); reveal_strlit("Mercenary"); reveal_strlit("Barbarian");
        reveal_strlit("Chieftain"); reveal_strlit("Knight"); reveal_strlit("Lord"); reveal_strlit("Ranger");
        reveal_strlit("Warden"); reveal_strlit("Samurai"); reveal_strlit("Daimyo"); reveal_strlit("Berserker");
        reveal_strlit("Jarl"); reveal_strlit("Thief"); reveal_strlit("Trickster"); reveal_strlit("Monk");
        reveal_strlit("Grandmaster"); reveal_strlit("Musketeer"); reveal_strlit("Conquistador"); reveal_strlit("Wanderer");
        reveal_strlit("Pathfinder"); reveal_strlit("Ninja"); reveal_strlit("Sensei"); reveal_strlit("Dancer");
        reveal_strlit("Acrobat"); reveal_strlit("Mage"); reveal_strlit("Archmage"); reveal_strlit("Cleric");
        reveal_strlit("Bishop"); reveal_strlit("Druid"); reveal_strlit("Arch Druid"); reveal_strlit("Sorcerer");
        reveal_strlit("Warlock"); reveal_strlit("Spellblade"); reveal_strlit("Spellknight"); reveal_strlit("Geomancer");
        reveal_strlit("Astramancer");
        assert(
            "Rudo"@.len() != "Soldier"@.len() && "Rudo"@.len() != "Mercenary"@.len()
            && "Rudo"@.len() != "Barbarian"@.len() && "Rudo"@.len() != "Chieftain"@.len()
            && "Rudo"@.len() != "Knight"@.len() && "Rudo"@[0] != "Lord"@[0]
            && "Rudo"@.len() != "Ranger"@.len() && "Rudo"@.len() != "Warden"@.len()
            && "Rudo"@.len() != "Samurai"@.len() && "Rudo"@.len() != "Daimyo"@.len()
            && "Rudo"@.len() != "Berserker"@.len() && "Rudo"@[0] != "Jarl"@[0]
            && "Rudo"@.len() != "Thief"@.len() && "Rudo"@.len() != "Trickster"@.len()
            && "Rudo"@[0] != "Monk"@[0] && "Rudo"@.len() != "Grandmaster"@.len()
            && "Rudo"@.len() != "Musketeer"@.len() && "Rudo"@.len() != "Conquistador"@.len()
            && "Rudo"@.len() != "Wanderer"@.len() && "Rudo"@.len() != "Pathfinder"@.len()
            && "Rudo"@.len() != "Ninja"@.len() && "Rudo"@.len() != "Sensei"@.len()
            && "Rudo"@.len() != "Dancer"@.len() && "Rudo"@.len() != "Acrobat"@.len()
            && "Rudo"@[0] != "Mage"@[0] && "Rudo"@.len() != "Archmage"@.len()
            && "Rudo"@.len() != "Cleric"@.len() && "Rudo"@.len() != "Bishop"@.len()
            && "Rudo"@.len() != "Druid"@.len() && "Rudo"@.len() != "Arch Druid"@.len()
            && "Rudo"@.len() != "Sorcerer"@.len() && "Rudo"@.len() != "Warlock"@.len()
            && "Rudo"@.len() != "Spellblade"@.len() && "Rudo"@.len() != "Spellknight"@.len()
            && "Rudo"@.len() != "Geomancer"@.len() && "Rudo"@.len() != "Astramancer"@.len()
        );
    }
    assert(archetype_of_class_spec("Sia"@) == Some(HeroArchetype::Champion)) by {
        reveal_strlit("Sia"); reveal_strlit("Soldier"); reveal_strlit("Mercenary"); reveal_strlit("Barbarian");
        reveal_strlit("Chieftain"); reveal_strlit("Knight"); reveal_strlit("Lord"); reveal_strlit("Ranger");
        reveal_strlit("Warden"); reveal_strlit("Samurai"); reveal_strlit("Daimyo"); reveal_strlit("Berserker");
        reveal_strlit("Jarl"); reveal_strlit("Thief"); reveal_strlit("Trickster"); reveal_strlit("Monk");
        reveal_strlit("Grandmaster"); reveal_strlit("Musketeer"); reveal_strlit("Conquistador"); reveal_strlit("Wanderer");
        reveal_strlit("Pathfinder"); reveal_strlit("Ninja"); reveal_strlit("Sensei"); reveal_strlit("Dancer");
        reveal_strlit("Acrobat"); reveal_strlit("Mage"); reveal_strlit("Archmage"); reveal_strlit("Cleric");
        reveal_strlit("Bishop"); reveal_strlit("Druid"); reveal_strlit("Arch Druid"); reveal_strlit("Sorcerer");
        reveal_strlit("Warlock"); reveal_strlit("Spellblade"); reveal_strlit("Spellknight"); reveal_strlit("Geomancer");
        reveal_strlit("Astramancer");
        assert(
            "Sia"@.len() != "Soldier"@.len() && "Sia"@.len() != "Mercenary"@.len()
            && "Sia"@.len() != "Barbarian"@.len() && "Sia"@.len() != "Chieftain"@.len()
            && "Sia"@.len() != "Knight"@.len() && "Sia"@.len() != "Lord"@.len()
            && "Sia"@.len() != "Ranger"@.len() && "Sia"@.len() != "Warden"@.len()
            && "Sia"@.len() != "Samurai"@.len() && "Sia"@.len() != "Daimyo"@.len()
            && "Sia"@.len() != "Berserker"@.len() && "Sia"@.len() != "Jarl"@.len()
            && "Sia"@.len() != "Thief"@.len() && "Sia"@.len() != "Trickster"@.len()
            && "Sia"@.len() != "Monk"@.len() && "Sia"@.len() != "Grandmaster"@.len()
            && "Sia"@.len() != "Musketeer"@.len() && "Sia"@.len() != "Conquistador"@.len()
            && "Sia"@.len() != "Wanderer"@.len() && "Sia"@.len() != "Pathfinder"@.len()
            && "Sia"@.len() != "Ninja"@.len() && "Sia"@.len() != "Sensei"@.len()
            && "Sia"@.len() != "Dancer"@.len() && "Sia"@.len() != "Acrobat"@.len()
            && "Sia"@.len() != "Mage"@.len() && "Sia"@.len() != "Archmage"@.len()
            && "Sia"@.len() != "Cleric"@.len() && "Sia"@.len() != "Bishop"@.len()
            && "Sia"@.len() != "Druid"@.len() && "Sia"@.len() != "Arch Druid"@.len()
            && "Sia"@.len() != "Sorcerer"@.len() && "Sia"@.len() != "Warlock"@.len()
            && "Sia"@.len() != "Spellblade"@.len() && "Sia"@.len() != "Spellknight"@.len()
            && "Sia"@.len() != "Geomancer"@.len() && "Sia"@.len() != "Astramancer"@.len()
        );
    }
    assert(archetype_of_class_spec("Donovan"@) == Some(HeroArchetype::Champion)) by {
        reveal_strlit("Donovan"); reveal_strlit("Soldier"); reveal_strlit("Mercenary"); reveal_strlit("Barbarian");
        reveal_strlit("Chieftain"); reveal_strlit("Knight"); reveal_strlit("Lord"); reveal_strlit("Ranger");
        reveal_strlit("Warden"); reveal_strlit("Samurai"); reveal_strlit("Daimyo"); reveal_strlit("Berserker");
        reveal_strlit("Jarl"); reveal_strlit("Thief"); reveal_strlit("Trickster"); reveal_strlit("Monk");
        reveal_strlit("Grandmaster"); reveal_strlit("Musketeer"); reveal_strlit("Conquistador"); reveal_strlit("Wanderer");
        reveal_strlit("Pathfinder"); reveal_strlit("Ninja"); reveal_strlit("Sensei"); reveal_strlit("Dancer");
        reveal_strlit("Acrobat"); reveal_strlit("Mage"); reveal_strlit("Archmage"); reveal_strlit("Cleric");
        reveal_strlit("Bishop"); reveal_strlit("Druid"); reveal_strlit("Arch Druid"); reveal_strlit("Sorcerer");
        reveal_strlit("Warlock"); reveal_strlit("Spellblade"); reveal_strlit("Spellknight"); reveal_strlit("Geomancer");
        reveal_strlit("Astramancer");
        assert(
            "Donovan"@[0] != "Soldier"@[0] && "Donovan"@.len() != "Mercenary"@.len()
            && "Donovan"@.len() != "Barbarian"@.len() && "Donovan"@.len() != "Chieftain"@.len()
            && "Donovan"@.len() != "Knight"@.len() && "Donovan"@.len() != "Lord"@.len()
            && "Donovan"@.len() != "Ranger"@.len() && "Donovan"@.len() != "Warden"@.len()
            && "Donovan"@[0] != "Samurai"@[0] && "Donovan"@.len() != "Daimyo"@.len()
            && "Donovan"@.len() != "Berserker"@.len() && "Donovan"@.len() != "Jarl"@.len()
            && "Donovan"@.len() != "Thief"@.len() && "Donovan"@.len() != "Trickster"@.len()
            && "Donovan"@.len() != "Monk"@.len() && "Donovan"@.len() != "Grandmaster"@.len()
            && "Donovan"@.len() != "Musketeer"@.len() && "Donovan"@.len() != "Conquistador"@.len()
            && "Donovan"@.len() != "Wanderer"@.len() && "Donovan"@.len() != "Pathfinder"@.len()
            && "Donovan"@.len() != "Ninja"@.len() && "Donovan"@.len() != "Sensei"@.len()
            && "Donovan"@.len() != "Dancer"@.len() && "Donovan"@[0] != "Acrobat"@[0]
            && "Donovan"@.len() != "Mage"@.len() && "Donovan"@.len() != "Archmage"@.len()
            && "Donovan"@.len() != "Cleric"@.len() && "Donovan"@.len() != "Bishop"@.len()
            && "Donovan"@.len() != "Druid"@.len() && "Donovan"@.len() != "Arch Druid"@.len()
            && "Donovan"@.len() != "Sorcerer"@.len() && "Donovan"@[0] != "Warlock"@[0]
            && "Donovan"@.len() != "Spellblade"@.len() && "Donovan"@.len() != "Spellknight"@.len()
            && "Donovan"@.len() != "Geomancer"@.len() && "Donovan"@.len() != "Astramancer"@.len()
        );
    }
    assert(archetype_of_class_spec("Ashley"@) == Some(HeroArchetype::Champion)) by {
        reveal_strlit("Ashley"); reveal_strlit("Soldier"); reveal_strlit("Mercenary"); reveal_strlit("Barbarian");
        reveal_strlit("Chieftain"); reveal_strlit("Knight"); reveal_strlit("Lord"); reveal_strlit("Ranger");
        reveal_strlit("Warden"); reveal_strlit("Samurai"); reveal_strlit("Daimyo"); reveal_strlit("Berserker");
        reveal_strlit("Jarl"); reveal_strlit("Thief"); reveal_strlit("Trickster"); reveal_strlit("Monk");
        reveal_strlit("Grandmaster"); reveal_strlit("Musketeer"); reveal_strlit("Conquistador"); reveal_strlit("Wanderer");
        reveal_strlit("Pathfinder"); reveal_strlit("Ninja"); reveal_strlit("Sensei"); reveal_strlit("Dancer");
        reveal_strlit("Acrobat"); reveal_strlit("Mage"); reveal_strlit("Archmage"); reveal_strlit("Cleric");
        reveal_strlit("Bishop"); reveal_strlit("Druid"); reveal_strlit("Arch Druid"); reveal_strlit("Sorcerer");
        reveal_strlit("Warlock"); reveal_strlit("Spellblade"); reveal_strlit("Spellknight"); reveal_strlit("Geomancer");
        reveal_strlit("Astramancer");
        assert(
            "Ashley"@.len() != "Soldier"@.len() && "Ashley"@.len() != "Mercenary"@.len()
            && "Ashley"@.len() != "Barbarian"@.len() && "Ashley"@.len() != "Chieftain"@.len()
            && "Ashley"@[0] != "Knight"@[0] && "Ashley"@.len() != "Lord"@.len()
            && "Ashley"@[0] != "Ranger"@[0] && "Ashley"@[0] != "Warden"@[0]
            && "Ashley"@.len() != "Samurai"@.len() && "Ashley"@[0] != "Daimyo"@[0]
            && "Ashley"@.len() != "Berserker"@.len() && "Ashley"@.len() != "Jarl"@.len()
            && "Ashley"@.len() != "Thief"@.len() && "Ashley"@.len() != "Trickster"@.len()
            && "Ashley"@.len() != "Monk"@.len() && "Ashley"@.len() != "Grandmaster"@.len()
            && "Ashley"@.len() != "Musketeer"@.len() && "Ashley"@.len() != "Conquistador"@.len()
            && "Ashley"@.len() != "Wanderer"@.len() && "Ashley"@.len() != "Pathfinder"@.len()
            && "Ashley"@.len() != "Ninja"@.len() && "Ashley"@[0] != "Sensei"@[0]
            && "Ashley"@[0] != "Dancer"@[0] && "Ashley"@.len() != "Acrobat"@.len()
            && "Ashley"@.len() != "Mage"@.len() && "Ashley"@.len() != "Archmage"@.len()
            && "Ashley"@[0] != "Cleric"@[0] && "Ashley"@[0] != "Bishop"@[0]
            && "Ashley"@.len() != "Druid"@.len() && "Ashley"@.len() != "Arch Druid"@.len()
            && "Ashley"@.len() != "Sorcerer"@.len() && "Ashley"@.len() != "Warlock"@.len()
            && "Ashley"@.len() != "Spellblade"@.len() && "Ashley"@.len() != "Spellknight"@.len()
            && "Ashley"@.len() != "Geomancer"@.len() && "Ashley"@.len() != "Astramancer"@.len()
        );
    }
    assert(archetype_of_class_spec("Hemma"@) == Some(HeroArchetype::Champion)) by {
        reveal_strlit("Hemma"); reveal_strlit("Soldier"); reveal_strlit("Mercenary"); reveal_strlit("Barbarian");
        reveal_strlit("Chieftain"); reveal_strlit("Knight"); reveal_strlit("Lord"); reveal_strlit("Ranger");
        reveal_strlit("Warden"); reveal_strlit("Samurai"); reveal_strlit("Daimyo"); reveal_strlit("Berserker");
        reveal_strlit("Jarl"); reveal_strlit("Thief"); reveal_strlit("Trickster"); reveal_strlit("Monk");
        reveal_strlit("Grandmaster"); reveal_strlit("Musketeer"); reveal_strlit("Conquistador"); reveal_strlit("Wanderer");
        reveal_strlit("Pathfinder"); reveal_strlit("Ninja"); reveal_strlit("Sensei"); reveal_strlit("Dancer");
        reveal_strlit("Acrobat"); reveal_strlit("Mage"); reveal_strlit("Archmage"); reveal_strlit("Cleric");
        reveal_strlit("Bishop"); reveal_strlit("Druid"); reveal_strlit("Arch Druid"); reveal_strlit("Sorcerer");
        reveal_strlit("Warlock"); reveal_strlit("Spellblade"); reveal_strlit("Spellknight"); reveal_strlit("Geomancer");
        reveal_strlit("Astramancer");
        assert(
            "Hemma"@.len() != "Soldier"@.len() && "Hemma"@.len() != "Mercenary"@.len()
            && "Hemma"@.len() != "Barbarian"@.len() && "Hemma"@.len() != "Chieftain"@.len()
            && "Hemma"@.len() != "Knight"@.len() && "Hemma"@.len() != "Lord"@.len()
            && "Hemma"@.len() != "Ranger"@.len() && "Hemma"@.len() != "Warden"@.len()
            && "Hemma"@.len() != "Samurai"@.len() && "Hemma"@.len() != "Daimyo"@.len()
            && "Hemma"@.len() != "Berserker"@.len() && "Hemma"@.len() != "Jarl"@.len()
            && "Hemma"@[0] != "Thief"@[0] && "Hemma"@.len() != "Trickster"@.len()
            && "Hemma"@.len() != "Monk"@.len() && "Hemma"@.len() != "Grandmaster"@.len()
            && "Hemma"@.len() != "Musketeer"@.len() && "Hemma"@.len() != "Conquistador"@.len()
            && "Hemma"@.len() != "Wanderer"@.len() && "Hemma"@.len() != "Pathfinder"@.len()
            && "Hemma"@[0] != "Ninja"@[0] && "Hemma"@.len() != "Sensei"@.len()
            && "Hemma"@.len() != "Dancer"@.len() && "Hemma"@.len() != "Acrobat"@.len()
            && "Hemma"@.len() != "Mage"@.len() && "Hemma"@.len() != "Archmage"@.len()
            && "Hemma"@.len() != "Cleric"@.len() && "Hemma"@.len() != "Bishop"@.len()
            && "Hemma"@[0] != "Druid"@[0] && "Hemma"@.len() != "Arch Druid"@.len()
            && "Hemma"@.len() != "Sorcerer"@.len() && "Hemma"@.len() != "Warlock"@.len()
            && "Hemma"@.len() != "Spellblade"@.len() && "Hemma"@.len() != "Spellknight"@.len()
            && "Hemma"@.len() != "Geomancer"@.len() && "Hemma"@.len() != "Astramancer"@.len()
        );
    }
    assert(archetype_of_class_spec("Aang"@) == Some(HeroArchetype::Champion)) by {
        reveal_strlit("Aang"); reveal_strlit("Soldier"); reveal_strlit("Mercenary"); reveal_strlit("Barbarian");
        reveal_strlit("Chieftain"); reveal_strlit("Knight"); reveal_strlit("Lord"); reveal_strlit("Ranger");
        reveal_strlit("Warden"); reveal_strlit("Samurai"); reveal_strlit("Daimyo"); reveal_strlit("Berserker");
        reveal_strlit("Jarl"); reveal_strlit("Thief"); reveal_strlit("Trickster"); reveal_strlit("Monk");
        reveal_strlit("Grandmaster"); reveal_strlit("Musketeer"); reveal_strlit("Conquistador"); reveal_strlit("Wanderer");
        reveal_strlit("Pathfinder"); reveal_strlit("Ninja"); reveal_strlit("Sensei"); reveal_strlit("Dancer");
        reveal_strlit("Acrobat"); reveal_strlit("Mage"); reveal_strlit("Archmage"); reveal_strlit("Cleric");
        reveal_strlit("Bishop"); reveal_strlit("Druid"); reveal_strlit("Arch Druid"); reveal_strlit("Sorcerer");
        reveal_strlit("Warlock"); reveal_strlit("Spellblade"); reveal_strlit("Spellknight"); reveal_strlit("Geomancer");
        reveal_strlit("Astramancer");
        assert(
            "Aang"@.len() != "Soldier"@.len() && "Aang"@.len() != "Mercenary"@.len()
            && "Aang"@.len() != "Barbarian"@.len() && "Aang"@.len() != "Chieftain"@.len()
            && "Aang"@.len() != "Knight"@.len() && "Aang"@[0] != "Lord"@[0]
            && "Aang"@.len() != "Ranger"@.len() && "Aang"@.len() != "Warden"@.len()
            && "Aang"@.len() != "Samurai"@.len() && "Aang"@.len() != "Daimyo"@.len()
            && "Aang"@.len() != "Berserker"@.len() && "Aang"@[0] != "Jarl"@[0]
            && "Aang"@.len() != "Thief"@.len() && "Aang"@.len() != "Trickster"@.len()
            && "Aang"@[0] != "Monk"@[0] && "Aang"@.len() != "Grandmaster"@.len()
            && "Aang"@.len() != "Musketeer"@.len() && "Aang"@.len() != "Conquistador"@.len()
            && "Aang"@.len() != "Wanderer"@.len() && "Aang"@.len() != "Pathfinder"@.len()
            && "Aang"@.len() != "Ninja"@.len() && "Aang"@.len() != "Sensei"@.len()
            && "Aang"@.len() != "Dancer"@.len() && "Aang"@.len() != "Acrobat"@.len()
            && "Aang"@[0] != "Mage"@[0] && "Aang"@.len() != "Archmage"@.len()
            && "Aang"@.len() != "Cleric"@.len() && "Aang"@.len() != "Bishop"@.len()
            && "Aang"@.len() != "Druid"@.len() && "Aang"@.len() != "Arch Druid"@.len()
            && "Aang"@.len() != "Sorcerer"@.len() && "Aang"@.len() != "Warlock"@.len()
            && "Aang"@.len() != "Spellblade"@.len() && "Aang"@.len() != "Spellknight"@.len()
            && "Aang"@.len() != "Geomancer"@.len() && "Aang"@.len() != "Astramancer"@.len()
        );
    }
    assert(archetype_of_class_spec("Sokka"@) == Some(HeroArchetype::Champion)) by {
        reveal_strlit("Sokka"); reveal_strlit("Soldier"); reveal_strlit("Mercenary"); reveal_strlit("Barbarian");
        reveal_strlit("Chieftain"); reveal_strlit("Knight"); reveal_strlit("Lord"); reveal_strlit("Ranger");
        reveal_strlit("Warden"); reveal_strlit("Samurai"); reveal_strlit("Daimyo"); reveal_strlit("Berserker");
        reveal_strlit("Jarl"); reveal_strlit("Thief"); reveal_strlit("Trickster"); reveal_strlit("Monk");
        reveal_strlit("Grandmaster"); reveal_strlit("Musketeer"); reveal_strlit("Conquistador"); reveal_strlit("Wanderer");
        reveal_strlit("Pathfinder"); reveal_strlit("Ninja"); reveal_strlit("Sensei"); reveal_strlit("Dancer");
        reveal_strlit("Acrobat"); reveal_strlit("Mage"); reveal_strlit("Archmage"); reveal_strlit("Cleric");
        reveal_strlit("Bishop"); reveal_strlit("Druid"); reveal_strlit("Arch Druid"); reveal_strlit("Sorcerer");
        reveal_strlit("Warlock"); reveal_strlit("Spellblade"); reveal_strlit("Spellknight"); reveal_strlit("Geomancer");
        reveal_strlit("Astramancer");
        assert(
            "Sokka"@.len() != "Soldier"@.len() && "Sokka"@.len() != "Mercenary"@.len()
            && "Sokka"@.len() != "Barbarian"@.len() && "Sokka"@.len() != "Chieftain"@.len()
            && "Sokka"@.len() != "Knight"@.len() && "Sokka"@.len() != "Lord"@.len()
            && "Sokka"@.len() != "Ranger"@.len() && "Sokka"@.len() != "Warden"@.len()
            && "Sokka"@.len() != "Samurai"@.len() && "Sokka"@.len() != "Daimyo"@.len()
            && "Sokka"@.len() != "Berserker"@.len() && "Sokka"@.len() != "Jarl"@.len()
            && "Sokka"@[0] != "Thief"@[0] && "Sokka"@.len() != "Trickster"@.len()
            && "Sokka"@.len() != "Monk"@.len() && "Sokka"@.len() != "Grandmaster"@.len()
            && "Sokka"@.len() != "Musketeer"@.len() && "Sokka"@.len() != "Conquistador"@.len()
            && "Sokka"@.len() != "Wanderer"@.len() && "Sokka"@.len() != "Pathfinder"@.len()
            && "Sokka"@[0] != "Ninja"@[0] && "Sokka"@.len() != "Sensei"@.len()
            && "Sokka"@.len() != "Dancer"@.len() && "Sokka"@.len() != "Acrobat"@.len()
            && "Sokka"@.len() != "Mage"@.len() && "Sokka"@.len() != "Archmage"@.len()
            && "Sokka"@.len() != "Cleric"@.len() && "Sokka"@.len() != "Bishop"@.len()
            && "Sokka"@[0] != "Druid"@[0] && "Sokka"@.len() != "Arch Druid"@.len()
            && "Sokka"@.len() != "Sorcerer"@.len() && "Sokka"@.len() != "Warlock"@.len()
            && "Sokka"@.len() != "Spellblade"@.len() && "Sokka"@.len() != "Spellknight"@.len()
            && "Sokka"@.len() != "Geomancer"@.len() && "Sokka"@.len() != "Astramancer"@.len()
        );
    }
    assert(archetype_of_class_spec("King Reinholdt"@) == Some(HeroArchetype::Champion)) by {
        reveal_strlit("King Reinholdt"); reveal_strlit("Soldier"); reveal_strlit("Mercenary"); reveal_strlit("Barbarian");
        reveal_strlit("Chieftain"); reveal_strlit("Knight"); reveal_strlit("Lord"); reveal_strlit("Ranger");
        reveal_strlit("Warden"); reveal_strlit("Samurai"); reveal_strlit("Daimyo"); reveal_strlit("Berserker");
        reveal_strlit("Jarl"); reveal_strlit("Thief"); reveal_strlit("Trickster"); reveal_strlit("Monk");
        reveal_strlit("Grandmaster"); reveal_strlit("Musketeer"); reveal_strlit("Conquistador"); reveal_strlit("Wanderer");
        reveal_strlit("Pathfinder"); reveal_strlit("Ninja"); reveal_strlit("Sensei"); reveal_strlit("Dancer");
        reveal_strlit("Acrobat"); reveal_strlit("Mage"); reveal_strlit("Archmage"); reveal_strlit("Cleric");
        reveal_strlit("Bishop"); reveal_strlit("Druid"); reveal_strlit("Arch Druid"); reveal_strlit("Sorcerer");
        reveal_strlit("Warlock"); reveal_strlit("Spellblade"); reveal_strlit("Spellknight"); reveal_strlit("Geomancer");
        reveal_strlit("Astramancer");
        assert(
            "King Reinholdt"@.len() != "Soldier"@.len() && "King Reinholdt"@.len() != "Mercenary"@.len()
            && "King Reinholdt"@.len() != "Barbarian"@.len() && "King Reinholdt"@.len() != "Chieftain"@.len()
            && "King Reinholdt"@.len() != "Knight"@.len() && "King Reinholdt"@.len() != "Lord"@.len()
            && "King Reinholdt"@.len() != "Ranger"@.len() && "King Reinholdt"@.len() != "Warden"@.len()
            && "King Reinholdt"@.len() != "Samurai"@.len() && "King Reinholdt"@.len() != "Daimyo"@.len()
            && "King Reinholdt"@.len() != "Berserker"@.len() && "King Reinholdt"@.len() != "Jarl"@.len()
            && "King Reinholdt"@.len() != "Thief"@.len() && "King Reinholdt"@.len() != "Trickster"@.len()
            && "King Reinholdt"@.len() != "Monk"@.len() && "King Reinholdt"@.len() != "Grandmaster"@.len()
            && "King Reinholdt"@.len() != "Musketeer"@.len() && "King Reinholdt"@.len() != "Conquistador"@.len()
            && "King Reinholdt"@.len() != "Wanderer"@.len() && "King Reinholdt"@.len() != "Pathfinder"@.len()
            && "King Reinholdt"@.len() != "Ninja"@.len() && "King Reinholdt"@.len() != "Sensei"@.len()
            && "King Reinholdt"@.len() != "Dancer"@.len() && "King Reinholdt"@.len() != "Acrobat"@.len()
            && "King Reinholdt"@.len() != "Mage"@.len() && "King Reinholdt"@.len() != "Archmage"@.len()
            && "King Reinholdt"@.len() != "Cleric"@.len() && "King Reinholdt"@.len() != "Bishop"@.len()
            && "King Reinholdt"@.len() != "Druid"@.len() && "King Reinholdt"@.len() != "Arch Druid"@.len()
            && "King Reinholdt"@.len() != "Sorcerer"@.len() && "King Reinholdt"@.len() != "Warlock"@.len()
            && "King Reinholdt"@.len() != "Spellblade"@.len() && "King Reinholdt"@.len() != "Spellknight"@.len()
            && "King Reinholdt"@.len() != "Geomancer"@.len() && "King Reinholdt"@.len() != "Astramancer"@.len()
        );
    }
}

} // verus!
