//! Study dockets: the rows that describe studies to run, their validation,
//! and the reading of a row's team, dungeons and skills into a study plan.
use crate::dungeons::{
    TrialDungeon,
    create_trial_dungeon,
    difficulty_from_name,
    miniboss_setting_from_name,
    parse_difficulty,
    parse_miniboss_setting,
};
use crate::equipment::{BoosterType, booster_from_name, parse_booster};
use crate::heroes::{HeroProfile, Team, create_team, team_counts_fit};
use crate::lookup::NameMap;
use crate::studies::{HeroBuilderInformation, excludes_class, incompatible_skills_spec};
use crate::text::{
    lemma_split_nonempty, list_items, split, split_spec, split_trimmed, split_list,
    str_equals, trimmed_pieces, views,
};
use vstd::prelude::*;

verus! {

/// Defines available study types for DocketStudy
#[derive(Debug, Clone, Copy, PartialEq, Eq, Structural)]
pub enum DocketStudyType {
    StaticDuoSkillStudy,
}

impl DocketStudyType {
    /// The name under which the type is written in a docket.
    pub fn name(&self) -> (res: String)
        ensures
            res@ == "StaticDuoSkillStudy"@,
    {
        String::from_str("StaticDuoSkillStudy")
    }

    /// Reads a study type from its name.
    pub fn from_name(name: &str) -> (res: Option<DocketStudyType>)
        ensures
            res is Some <==> name@ == "StaticDuoSkillStudy"@,
    {
        proof {
            reveal_strlit("StaticDuoSkillStudy");
        }
        if str_equals(name, "StaticDuoSkillStudy") {
            Some(DocketStudyType::StaticDuoSkillStudy)
        } else {
            None
        }
    }
}

impl Default for DocketStudyType {
    fn default() -> (res: Self)
        ensures
            res == DocketStudyType::StaticDuoSkillStudy,
    {
        DocketStudyType::StaticDuoSkillStudy
    }
}

/// Defines valid skill name types for DocketStudy
/// All skill names in this DocketStudy setting must conform to this format
#[derive(Debug, Clone, Copy, PartialEq, Eq, Structural)]
pub enum DocketStudySkillNameFormat {
    Abbreviated,
    FullTierOne,
    FullAnyTier,
}

/// The name under which a skill name format is written in a docket.
pub open spec fn skill_name_format_name(f: DocketStudySkillNameFormat) -> Seq<char> {
    match f {
        DocketStudySkillNameFormat::Abbreviated => "Abbreviated"@,
        DocketStudySkillNameFormat::FullTierOne => "FullTierOne"@,
        DocketStudySkillNameFormat::FullAnyTier => "FullAnyTier"@,
    }
}

/// The skill name format written as `name`, if any.
pub open spec fn skill_name_format_from_name(name: Seq<char>) -> Option<DocketStudySkillNameFormat> {
    if name == "Abbreviated"@ {
        Some(DocketStudySkillNameFormat::Abbreviated)
    } else if name == "FullTierOne"@ {
        Some(DocketStudySkillNameFormat::FullTierOne)
    } else if name == "FullAnyTier"@ {
        Some(DocketStudySkillNameFormat::FullAnyTier)
    } else {
        None
    }
}

impl DocketStudySkillNameFormat {
    /// The name under which the format is written in a docket.
    pub fn name(&self) -> (res: String)
        ensures
            res@ == skill_name_format_name(*self),
    {
        match self {
            DocketStudySkillNameFormat::Abbreviated => String::from_str("Abbreviated"),
            DocketStudySkillNameFormat::FullTierOne => String::from_str("FullTierOne"),
            DocketStudySkillNameFormat::FullAnyTier => String::from_str("FullAnyTier"),
        }
    }

    /// Reads a skill name format from its name.
    pub fn from_name(name: &str) -> (res: Option<DocketStudySkillNameFormat>)
        ensures
            res == skill_name_format_from_name(name@),
    {
        if str_equals(name, "Abbreviated") {
            Some(DocketStudySkillNameFormat::Abbreviated)
        } else if str_equals(name, "FullTierOne") {
            Some(DocketStudySkillNameFormat::FullTierOne)
        } else if str_equals(name, "FullAnyTier") {
            Some(DocketStudySkillNameFormat::FullAnyTier)
        } else {
            None
        }
    }
}

impl Default for DocketStudySkillNameFormat {
    fn default() -> (res: Self)
        ensures
            res == DocketStudySkillNameFormat::FullAnyTier,
    {
        DocketStudySkillNameFormat::FullAnyTier
    }
}

/// Reading back the name of a skill name format gives the format.
pub proof fn lemma_skill_name_format_round_trip(f: DocketStudySkillNameFormat)
    ensures
        skill_name_format_from_name(skill_name_format_name(f)) == Some(f),
{
    reveal_strlit("Abbreviated");
    reveal_strlit("FullTierOne");
    reveal_strlit("FullAnyTier");
    let n = skill_name_format_name(f);
    assert("Abbreviated"@[0] != "FullTierOne"@[0]);
    assert("FullTierOne"@[4] != "FullAnyTier"@[4]);
    match f {
        DocketStudySkillNameFormat::Abbreviated => {},
        DocketStudySkillNameFormat::FullTierOne => {
            assert(n[0] != "Abbreviated"@[0]);
        },
        DocketStudySkillNameFormat::FullAnyTier => {
            assert(n[0] != "Abbreviated"@[0]);
            assert(n[4] != "FullTierOne"@[4]);
        },
    }
}

/// Holds info for generating a study: one row of a study docket. The runoff
/// scoring threshold of a row is a real number and is read beside it.
pub struct DocketStudy {
    pub completed: bool,
    pub identifier: String,
    pub description: String,
    pub type_: DocketStudyType,
    pub skill_name_format: DocketStudySkillNameFormat,
    pub sim_qty: i32,
    pub team_hero_identifiers: String,
    pub team_booster: String,
    pub preset_skills: String,
    pub dungeon_specifications: String,
    pub automatic_rank_difficulty_optimization: bool,
    pub excluded_skills: String,
}

/// Why a docket row cannot be run, in the order in which the checks are made.
#[derive(Debug, Clone, Copy, PartialEq, Eq, Structural)]
pub enum DocketStudyIssue {
    MissingIdentifier,
    SimQtyOutOfRange,
    RunoffThresholdOutOfRange,
    MissingTeamHeroIdentifiers,
    MissingTeamBooster,
    MissingDungeonSpecifications,
}

/// The first reason why `study` cannot be run, if any: an identifier, team
/// hero identifiers, a team booster and dungeon specifications are required,
/// the simulation quantity lies in `1..=50000` and the runoff threshold in
/// `(0, 100]`. Preset and excluded skills may be empty.
pub open spec fn validation_issue_spec(study: DocketStudy, runoff_threshold_in_range: bool) -> Option<
    DocketStudyIssue,
> {
    if study.identifier@.len() == 0 {
        Some(DocketStudyIssue::MissingIdentifier)
    } else if study.sim_qty <= 0 || study.sim_qty > 50000 {
        Some(DocketStudyIssue::SimQtyOutOfRange)
    } else if !runoff_threshold_in_range {
        Some(DocketStudyIssue::RunoffThresholdOutOfRange)
    } else if study.team_hero_identifiers@.len() == 0 {
        Some(DocketStudyIssue::MissingTeamHeroIdentifiers)
    } else if study.team_booster@.len() == 0 {
        Some(DocketStudyIssue::MissingTeamBooster)
    } else if study.dungeon_specifications@.len() == 0 {
        Some(DocketStudyIssue::MissingDungeonSpecifications)
    } else {
        None
    }
}

impl DocketStudy {
    /// The first reason why the row cannot be run, given whether its runoff
    /// scoring threshold lies in `(0, 100]`.
    pub fn validation_issue(&self, runoff_threshold_in_range: bool) -> (res: Option<DocketStudyIssue>)
        ensures
            res == validation_issue_spec(*self, runoff_threshold_in_range),
    {
        if self.identifier.as_str().is_empty() {
            Some(DocketStudyIssue::MissingIdentifier)
        } else if self.sim_qty <= 0 || self.sim_qty > 50000 {
            Some(DocketStudyIssue::SimQtyOutOfRange)
        } else if !runoff_threshold_in_range {
            Some(DocketStudyIssue::RunoffThresholdOutOfRange)
        } else if self.team_hero_identifiers.as_str().is_empty() {
            Some(DocketStudyIssue::MissingTeamHeroIdentifiers)
        } else if self.team_booster.as_str().is_empty() {
            Some(DocketStudyIssue::MissingTeamBooster)
        } else if self.dungeon_specifications.as_str().is_empty() {
            Some(DocketStudyIssue::MissingDungeonSpecifications)
        } else {
            None
        }
    }

    /// Whether the row can be run, given whether its runoff scoring threshold
    /// lies in `(0, 100]`.
    pub fn is_valid(&self, runoff_threshold_in_range: bool) -> (res: bool)
        ensures
            res <==> validation_issue_spec(*self, runoff_threshold_in_range) is None,
    {
        self.validation_issue(runoff_threshold_in_range).is_none()
    }
}

impl Clone for DocketStudy {
    fn clone(&self) -> (res: Self)
        ensures
            res == *self,
    {
        DocketStudy {
            completed: self.completed,
            identifier: self.identifier.clone(),
            description: self.description.clone(),
            type_: self.type_,
            skill_name_format: self.skill_name_format,
            sim_qty: self.sim_qty,
            team_hero_identifiers: self.team_hero_identifiers.clone(),
            team_booster: self.team_booster.clone(),
            preset_skills: self.preset_skills.clone(),
            dungeon_specifications: self.dungeon_specifications.clone(),
            automatic_rank_difficulty_optimization: self.automatic_rank_difficulty_optimization,
            excluded_skills: self.excluded_skills.clone(),
        }
    }
}

/// Defines a plan for generating and running Studies
pub struct Docket {
    pub studies: Vec<DocketStudy>,
    pub path: String,
}

impl Default for Docket {
    fn default() -> (res: Self)
        ensures
            res.studies@.len() == 0,
            res.path@.len() == 0,
    {
        Docket { studies: Vec::new(), path: String::new() }
    }
}

impl Docket {
    /// Sets the path the docket is saved to.
    pub fn set_path(&mut self, path: String)
        ensures
            final(self).path == path,
            final(self).studies@ == old(self).studies@,
    {
        self.path = path;
    }

    /// Appends a study row.
    pub fn add_study(&mut self, study: DocketStudy)
        ensures
            final(self).studies@ == old(self).studies@.push(study),
            final(self).path == old(self).path,
    {
        self.studies.push(study);
    }

    /// A copy of the study rows.
    pub fn get_studies(&self) -> (res: Vec<DocketStudy>)
        ensures
            res@ == self.studies@,
    {
        let mut res: Vec<DocketStudy> = Vec::new();
        let mut i: usize = 0;
        while i < self.studies.len()
            invariant
                i <= self.studies@.len(),
                res@ == self.studies@.subrange(0, i as int),
            decreases self.studies@.len() - i,
        {
            res.push(self.studies[i].clone());
            i = i + 1;
            assert(res@ =~= self.studies@.subrange(0, i as int));
        }
        assert(res@ =~= self.studies@);
        res
    }

    /// The identifiers of the study rows, in order.
    pub fn get_study_names(&self) -> (res: Vec<String>)
        ensures
            res@.len() == self.studies@.len(),
            forall|i: int| 0 <= i < res@.len() ==> #[trigger] res@[i] == self.studies@[i].identifier,
    {
        let mut res: Vec<String> = Vec::new();
        let mut i: usize = 0;
        while i < self.studies.len()
            invariant
                i <= self.studies@.len(),
                res@.len() == i,
                forall|k: int| 0 <= k < i ==> #[trigger] res@[k] == self.studies@[k].identifier,
            decreases self.studies@.len() - i,
        {
            res.push(self.studies[i].identifier.clone());
            i = i + 1;
        }
        res
    }

    /// The number of study rows.
    pub fn get_num_studies(&self) -> (res: usize)
        ensures
            res == self.studies@.len(),
    {
        self.studies.len()
    }

    /// The positions of the rows not yet completed, in order: the studies
    /// that running the docket starts; completed rows are skipped.
    pub fn pending_study_indices(&self) -> (res: Vec<usize>)
        ensures
            forall|a: int, b: int| 0 <= a < b < res@.len() ==> #[trigger] res@[a] < #[trigger] res@[b],
            forall|k: int|
                0 <= k < self.studies@.len() ==> (!self.studies@[k].completed <==> res@.contains(
                    k as usize,
                )),
            forall|a: int| 0 <= a < res@.len() ==> #[trigger] res@[a] < self.studies@.len(),
    {
        let mut res: Vec<usize> = Vec::new();
        let mut i: usize = 0;
        while i < self.studies.len()
            invariant
                i <= self.studies@.len(),
                forall|a: int| 0 <= a < res@.len() ==> #[trigger] res@[a] < i,
                forall|a: int, b: int| 0 <= a < b < res@.len() ==> #[trigger] res@[a] < #[trigger] res@[b],
                forall|k: int|
                    0 <= k < i ==> (!self.studies@[k].completed <==> res@.contains(k as usize)),
            decreases self.studies@.len() - i,
        {
            if !self.studies[i].completed {
                let ghost before = res@;
                res.push(i);
                proof {
                    assert(res@[before.len() as int] == i);
                    assert forall|k: int| 0 <= k < i + 1 implies (!self.studies@[k].completed
                        <==> res@.contains(k as usize)) by {
                        if k < i {
                            if before.contains(k as usize) {
                                let a = choose|a: int| 0 <= a < before.len() && before[a] == k as usize;
                                assert(res@[a] == k as usize);
                            }
                            if res@.contains(k as usize) {
                                let a = choose|a: int| 0 <= a < res@.len() && res@[a] == k as usize;
                                if a == before.len() {
                                    assert(false);
                                }
                                assert(before[a] == k as usize);
                            }
                        }
                    }
                }
            } else {
                proof {
                    assert forall|a: int| 0 <= a < res@.len() implies res@[a] != i by {
                        assert(res@[a] < i);
                    }
                }
            }
            i = i + 1;
        }
        res
    }

    /// Marks the study row at `index` completed.
    pub fn set_study_completed(&mut self, index: usize)
        requires
            index < old(self).studies@.len(),
        ensures
            final(self).studies@.len() == old(self).studies@.len(),
            final(self).studies@[index as int].completed,
            forall|k: int|
                0 <= k < old(self).studies@.len() && k != index ==> #[trigger] final(self).studies@[k]
                    == old(self).studies@[k],
            final(self).path == old(self).path,
            ({
                let s = final(self).studies@[index as int];
                let o = old(self).studies@[index as int];
                s.identifier == o.identifier && s.description == o.description && s.type_ == o.type_
                    && s.skill_name_format == o.skill_name_format && s.sim_qty == o.sim_qty
                    && s.team_hero_identifiers == o.team_hero_identifiers && s.team_booster
                    == o.team_booster && s.preset_skills == o.preset_skills
                    && s.dungeon_specifications == o.dungeon_specifications
                    && s.automatic_rank_difficulty_optimization
                    == o.automatic_rank_difficulty_optimization && s.excluded_skills
                    == o.excluded_skills
            }),
    {
        let mut study = self.studies[index].clone();
        study.completed = true;
        self.studies.set(index, study);
    }
}

/// Every name of `names` is a key of `m`.
pub open spec fn all_known<V>(names: Seq<Seq<char>>, m: Map<Seq<char>, V>) -> bool {
    forall|i: int| 0 <= i < names.len() ==> m.contains_key(#[trigger] names[i])
}

/// The hero identifiers of a row: its team field cut at `;`, each piece trimmed.
pub open spec fn team_pieces(study: DocketStudy) -> Seq<Seq<char>> {
    trimmed_pieces(study.team_hero_identifiers@, ';')
}

/// The team of a row can be formed: each of its hero identifiers names a
/// loaded hero and its booster field names a booster setting.
pub open spec fn team_resolves(study: DocketStudy, heroes: Map<Seq<char>, HeroProfile>) -> bool {
    all_known(team_pieces(study), heroes) && booster_from_name(study.team_booster@) is Some
}

/// The heroes that the identifiers of a row name, in order.
pub open spec fn resolved_heroes(study: DocketStudy, heroes: Map<Seq<char>, HeroProfile>) -> Seq<HeroProfile> {
    team_pieces(study).map_values(|p: Seq<char>| heroes[p])
}

/// Looks up the heroes and the booster of a row: `None` when an identifier
/// names no loaded hero or the booster field names no booster setting, else
/// the named heroes, in order, and the booster.
pub fn resolve_team(docket_study: &DocketStudy, loaded_heroes: &NameMap<HeroProfile>) -> (res: Option<
    (Vec<HeroProfile>, Option<BoosterType>),
>)
    ensures
        res is Some <==> team_resolves(*docket_study, loaded_heroes@),
        res matches Some((heroes, booster)) ==> {
            &&& heroes@ == resolved_heroes(*docket_study, loaded_heroes@)
            &&& Some(booster) == booster_from_name(docket_study.team_booster@)
        },
{
    let ids = split_trimmed(docket_study.team_hero_identifiers.as_str(), ';');
    let ghost pieces = team_pieces(*docket_study);
    let mut team_heroes: Vec<HeroProfile> = Vec::new();
    let mut i: usize = 0;
    while i < ids.len()
        invariant
            pieces == team_pieces(*docket_study),
            views(ids@) == pieces,
            ids@.len() == pieces.len(),
            i <= ids@.len(),
            team_heroes@.len() == i,
            forall|k: int| 0 <= k < i ==> loaded_heroes@.contains_key(#[trigger] pieces[k]),
            forall|k: int| 0 <= k < i ==> #[trigger] team_heroes@[k] == loaded_heroes@[pieces[k]],
        decreases ids@.len() - i,
    {
        assert(ids@[i as int]@ == pieces[i as int]);
        match loaded_heroes.get(ids[i].as_str()) {
            Some(hero) => {
                team_heroes.push(hero.clone());
            },
            None => {
                assert(!loaded_heroes@.contains_key(pieces[i as int]));
                return None;
            },
        }
        i = i + 1;
    }
    let team_booster = match parse_booster(docket_study.team_booster.as_str()) {
        Some(b) => b,
        None => {
            return None;
        },
    };
    assert(team_heroes@ =~= resolved_heroes(*docket_study, loaded_heroes@));
    Some((team_heroes, team_booster))
}

/// Forms the team of a row out of the loaded heroes: `None` when an
/// identifier names no loaded hero or the booster field names no booster
/// setting, else the team of the named heroes, in order, with that booster.
pub fn parse_team(docket_study: &DocketStudy, loaded_heroes: &NameMap<HeroProfile>) -> (res: Option<Team>)
    requires
        team_resolves(*docket_study, loaded_heroes@) ==> team_counts_fit(
            resolved_heroes(*docket_study, loaded_heroes@),
        ),
    ensures
        res is Some <==> team_resolves(*docket_study, loaded_heroes@),
        res matches Some(team) ==> {
            &&& team.heroes_spec() == resolved_heroes(*docket_study, loaded_heroes@)
            &&& Some(team.booster_spec()) == booster_from_name(docket_study.team_booster@)
        },
{
    let (team_heroes, team_booster) = match resolve_team(docket_study, loaded_heroes) {
        Some(r) => r,
        None => {
            return None;
        },
    };
    proof {
        lemma_split_nonempty(docket_study.team_hero_identifiers@, ';');
    }
    match create_team(team_heroes, team_booster) {
        Ok(team) => Some(team),
        Err(_) => {
            proof {
                assert(false);
            }
            None
        },
    }
}

/// The dungeon specifications of a row: its dungeon field cut at `|`, each
/// piece trimmed.
pub open spec fn dungeon_pieces(study: DocketStudy) -> Seq<Seq<char>> {
    trimmed_pieces(study.dungeon_specifications@, '|')
}

/// The parts of one dungeon specification, `name : difficulty : minibosses`,
/// each trimmed.
pub open spec fn dungeon_parts(piece: Seq<char>) -> Seq<Seq<char>> {
    trimmed_pieces(piece, ':')
}

/// The specification has the three parts that reading it takes, and they
/// name a loaded dungeon, a difficulty setting and a miniboss setting.
pub open spec fn dungeon_resolves<D>(piece: Seq<char>, dungeons: Map<Seq<char>, D>) -> bool {
    &&& split_spec(piece, ':').len() >= 3
    &&& dungeons.contains_key(dungeon_parts(piece)[0])
    &&& difficulty_from_name(dungeon_parts(piece)[1]) is Some
    &&& miniboss_setting_from_name(dungeon_parts(piece)[2]) is Some
}

/// Every dungeon specification of the row resolves.
pub open spec fn dungeons_resolve<D>(study: DocketStudy, dungeons: Map<Seq<char>, D>) -> bool {
    forall|i: int|
        0 <= i < dungeon_pieces(study).len() ==> dungeon_resolves(#[trigger] dungeon_pieces(study)[i], dungeons)
}

/// The dungeon specifications of the row before the `i`-th all resolve.
pub open spec fn resolve_before<D>(study: DocketStudy, dungeons: Map<Seq<char>, D>, i: int) -> bool {
    forall|k: int| 0 <= k < i ==> dungeon_resolves(#[trigger] dungeon_pieces(study)[k], dungeons)
}

/// Reading the dungeon specifications of the row in order, up to the first
/// that does not resolve, meets none with fewer than three parts.
pub open spec fn dungeons_readable<D>(study: DocketStudy, dungeons: Map<Seq<char>, D>) -> bool {
    forall|i: int|
        0 <= i < dungeon_pieces(study).len() && resolve_before(study, dungeons, i) ==> #[trigger] split_spec(
            dungeon_pieces(study)[i],
            ':',
        ).len() >= 3
}

/// Whether the specification `piece`, which has three parts, resolves.
fn dungeon_piece_resolves<D>(piece: &String, loaded_dungeons: &NameMap<D>) -> (res: bool)
    requires
        split_spec(piece@, ':').len() >= 3,
    ensures
        res == dungeon_resolves(piece@, loaded_dungeons@),
{
    let parts = split_trimmed(piece.as_str(), ':');
    assert(parts@[0]@ == dungeon_parts(piece@)[0]);
    assert(parts@[1]@ == dungeon_parts(piece@)[1]);
    assert(parts@[2]@ == dungeon_parts(piece@)[2]);
    loaded_dungeons.contains_key(parts[0].as_str()) && parse_difficulty(parts[1].as_str()).is_some()
        && parse_miniboss_setting(parts[2].as_str()).is_some()
}

/// Whether reading the dungeon specifications of a row, in order up to the
/// first that does not resolve, meets only specifications with three parts
/// (see `dungeons_readable`).
pub fn dungeon_specifications_readable<D>(docket_study: &DocketStudy, loaded_dungeons: &NameMap<D>) -> (res:
    bool)
    ensures
        res == dungeons_readable(*docket_study, loaded_dungeons@),
{
    let specs = split_trimmed(docket_study.dungeon_specifications.as_str(), '|');
    let ghost pieces = dungeon_pieces(*docket_study);
    let mut i: usize = 0;
    while i < specs.len()
        invariant
            pieces == dungeon_pieces(*docket_study),
            views(specs@) == pieces,
            specs@.len() == pieces.len(),
            i <= specs@.len(),
            forall|k: int| 0 <= k < i ==> dungeon_resolves(#[trigger] pieces[k], loaded_dungeons@),
        decreases specs@.len() - i,
    {
        assert(specs@[i as int]@ == pieces[i as int]);
        let parts = split(specs[i].as_str(), ':');
        if parts.len() < 3 {
            assert(resolve_before(*docket_study, loaded_dungeons@, i as int));
            assert(split_spec(pieces[i as int], ':').len() < 3);
            return false;
        }
        if !dungeon_piece_resolves(&specs[i], loaded_dungeons) {
            proof {
                assert forall|j: int|
                    0 <= j < pieces.len() && resolve_before(
                        *docket_study,
                        loaded_dungeons@,
                        j,
                    ) implies #[trigger] split_spec(pieces[j], ':').len() >= 3 by {
                    if j > i {
                        assert(!dungeon_resolves(pieces[i as int], loaded_dungeons@));
                    } else if j < i {
                        assert(dungeon_resolves(pieces[j], loaded_dungeons@));
                    }
                }
            }
            return true;
        }
        i = i + 1;
    }
    proof {
        assert forall|j: int|
            0 <= j < pieces.len() && resolve_before(*docket_study, loaded_dungeons@, j) implies #[trigger] split_spec(
            pieces[j],
            ':',
        ).len() >= 3 by {
            assert(dungeon_resolves(pieces[j], loaded_dungeons@));
        }
    }
    true
}

/// `dungeon` is the trial dungeon that the specification `piece` describes.
pub open spec fn describes(dungeon: TrialDungeon, piece: Seq<char>) -> bool {
    &&& dungeon.dungeon@ == dungeon_parts(piece)[0]
    &&& Some(dungeon.difficulty) == difficulty_from_name(dungeon_parts(piece)[1])
    &&& Some(dungeon.force_minibosses) == miniboss_setting_from_name(dungeon_parts(piece)[2])
}

/// Reads the dungeon specifications of a row, `name : difficulty :
/// minibosses` separated by `|`: `None` when one names no loaded dungeon, no
/// difficulty setting or no miniboss setting, else the trial dungeons in
/// order.
pub fn parse_dungeons<D>(docket_study: &DocketStudy, loaded_dungeons: &NameMap<D>) -> (res: Option<
    Vec<TrialDungeon>,
>)
    requires
        dungeons_readable(*docket_study, loaded_dungeons@),
    ensures
        res is Some <==> dungeons_resolve(*docket_study, loaded_dungeons@),
        res matches Some(v) ==> {
            &&& v@.len() == dungeon_pieces(*docket_study).len()
            &&& forall|i: int|
                0 <= i < v@.len() ==> describes(#[trigger] v@[i], dungeon_pieces(*docket_study)[i])
        },
{
    let specs = split_trimmed(docket_study.dungeon_specifications.as_str(), '|');
    let ghost pieces = dungeon_pieces(*docket_study);
    let mut dungeons: Vec<TrialDungeon> = Vec::new();
    let mut i: usize = 0;
    while i < specs.len()
        invariant
            pieces == dungeon_pieces(*docket_study),
            dungeons_readable(*docket_study, loaded_dungeons@),
            views(specs@) == pieces,
            specs@.len() == pieces.len(),
            i <= specs@.len(),
            dungeons@.len() == i,
            forall|k: int| 0 <= k < i ==> dungeon_resolves(#[trigger] pieces[k], loaded_dungeons@),
            forall|k: int| 0 <= k < i ==> describes(#[trigger] dungeons@[k], pieces[k]),
        decreases specs@.len() - i,
    {
        let ghost piece = pieces[i as int];
        assert(specs@[i as int]@ == piece);
        assert(resolve_before(*docket_study, loaded_dungeons@, i as int));
        assert(split_spec(piece, ':').len() >= 3);
        let parts = split_trimmed(specs[i].as_str(), ':');
        assert(views(parts@) == dungeon_parts(piece));
        assert(parts@[0]@ == dungeon_parts(piece)[0]);
        assert(parts@[1]@ == dungeon_parts(piece)[1]);
        assert(parts@[2]@ == dungeon_parts(piece)[2]);
        if !loaded_dungeons.contains_key(parts[0].as_str()) {
            return None;
        }
        let difficulty = match parse_difficulty(parts[1].as_str()) {
            Some(d) => d,
            None => {
                return None;
            },
        };
        let minibosses = match parse_miniboss_setting(parts[2].as_str()) {
            Some(m) => m,
            None => {
                return None;
            },
        };
        dungeons.push(create_trial_dungeon(parts[0].clone(), difficulty, minibosses));
        i = i + 1;
    }
    Some(dungeons)
}

/// The names that `m` gives the skills of `skills`, when it knows them all.
pub open spec fn lookup_all(skills: Seq<Seq<char>>, m: Map<Seq<char>, String>) -> Option<Seq<Seq<char>>> {
    if all_known(skills, m) {
        Some(skills.map_values(|k: Seq<char>| m[k]@))
    } else {
        None
    }
}

/// The tier-one names of skills written in `format`: an empty list, or one
/// that starts with an empty name, stays as it is, as do tier-one names;
/// abbreviations and names of any tier are looked up, and the translation
/// fails when one of them is unknown.
pub open spec fn translate_spec(
    format: DocketStudySkillNameFormat,
    skills: Seq<Seq<char>>,
    abbreviations: Map<Seq<char>, String>,
    any_tier: Map<Seq<char>, String>,
) -> Option<Seq<Seq<char>>> {
    if skills.len() == 0 || skills[0].len() == 0 {
        Some(skills)
    } else {
        match format {
            DocketStudySkillNameFormat::Abbreviated => lookup_all(skills, abbreviations),
            DocketStudySkillNameFormat::FullAnyTier => lookup_all(skills, any_tier),
            DocketStudySkillNameFormat::FullTierOne => Some(skills),
        }
    }
}

/// The views of an optional list of strings.
pub open spec fn opt_views(o: Option<Vec<String>>) -> Option<Seq<Seq<char>>> {
    match o {
        Some(v) => Some(views(v@)),
        None => None,
    }
}

/// The values that `m` holds under each of `skills`, or `None` when one is
/// not a key.
fn lookup_all_names(skills: &Vec<String>, m: &NameMap<String>) -> (res: Option<Vec<String>>)
    ensures
        opt_views(res) == lookup_all(views(skills@), m@),
{
    let mut res: Vec<String> = Vec::new();
    let mut i: usize = 0;
    while i < skills.len()
        invariant
            i <= skills@.len(),
            res@.len() == i,
            forall|k: int| 0 <= k < i ==> m@.contains_key(#[trigger] skills@[k]@),
            forall|k: int| 0 <= k < i ==> #[trigger] res@[k]@ == m@[skills@[k]@]@,
        decreases skills@.len() - i,
    {
        match m.get(skills[i].as_str()) {
            Some(name) => {
                res.push(name.clone());
            },
            None => {
                proof {
                    assert(views(skills@)[i as int] == skills@[i as int]@);
                    assert(!all_known(views(skills@), m@));
                }
                return None;
            },
        }
        i = i + 1;
    }
    proof {
        assert forall|k: int| 0 <= k < views(skills@).len() implies m@.contains_key(
            #[trigger] views(skills@)[k],
        ) by {
            assert(m@.contains_key(skills@[k]@));
        }
        assert(views(res@) =~= views(skills@).map_values(|k: Seq<char>| m@[k]@));
    }
    Some(res)
}

/// Translates skill names written in `format` to tier-one names (see
/// `translate_spec`).
pub fn translate_skillset_based_on_skill_name_format(
    format: &DocketStudySkillNameFormat,
    skillset: Vec<String>,
    loaded_hero_builder_information: &HeroBuilderInformation,
) -> (res: Option<Vec<String>>)
    ensures
        opt_views(res) == translate_spec(
            *format,
            views(skillset@),
            loaded_hero_builder_information.hero_abbreviation_skill_map@,
            loaded_hero_builder_information.hero_skill_any_tier_to_tier_1_name_map@,
        ),
{
    if skillset.len() == 0 || skillset[0].as_str().is_empty() {
        return Some(skillset);
    }
    match format {
        DocketStudySkillNameFormat::Abbreviated => lookup_all_names(
            &skillset,
            &loaded_hero_builder_information.hero_abbreviation_skill_map,
        ),
        DocketStudySkillNameFormat::FullAnyTier => lookup_all_names(
            &skillset,
            &loaded_hero_builder_information.hero_skill_any_tier_to_tier_1_name_map,
        ),
        DocketStudySkillNameFormat::FullTierOne => Some(skillset),
    }
}

/// Whether `names` holds `name`.
fn contains_name(names: &Vec<String>, name: &String) -> (res: bool)
    ensures
        res == views(names@).contains(name@),
{
    let res = crate::skills::contains_string(names, name);
    proof {
        if res {
            let i = choose|i: int| 0 <= i < names@.len() && #[trigger] names@[i]@ == name@;
            assert(views(names@)[i] == name@);
        }
        if views(names@).contains(name@) {
            let i = choose|i: int| 0 <= i < views(names@).len() && views(names@)[i] == name@;
            assert(names@[i]@ == name@);
        }
    }
    res
}

/// The skills named in a row's excluded-skills field, cut at `;`, trimmed
/// (a blank field names no skill; inside a field that is not blank, an
/// empty piece stays, as an empty name) and translated to tier-one names.
pub open spec fn excluded_translation(study: DocketStudy, info: HeroBuilderInformation) -> Option<Seq<Seq<char>>> {
    translate_spec(
        study.skill_name_format,
        list_items(study.excluded_skills@, ';'),
        info.hero_abbreviation_skill_map@,
        info.hero_skill_any_tier_to_tier_1_name_map@,
    )
}

/// The skills named in a row's preset-skills field, cut at `;`, trimmed
/// (a blank field names no skill; inside a field that is not blank, an
/// empty piece stays, as an empty name) and translated to tier-one names.
pub open spec fn preset_translation(study: DocketStudy, info: HeroBuilderInformation) -> Option<Seq<Seq<char>>> {
    translate_spec(
        study.skill_name_format,
        list_items(study.preset_skills@, ';'),
        info.hero_abbreviation_skill_map@,
        info.hero_skill_any_tier_to_tier_1_name_map@,
    )
}

/// A skill that a study varies upon: a loaded valid skill that is neither
/// excluded nor preset, is not made incompatible by a preset skill, and is
/// not one of the hero skills that `class` may not learn.
pub open spec fn kept_skill(
    k: Seq<char>,
    loaded: Seq<Seq<char>>,
    excluded: Seq<Seq<char>>,
    preset: Seq<Seq<char>>,
    skills: Map<Seq<char>, crate::skills::HeroSkillInfo>,
    class: Seq<char>,
) -> bool {
    &&& loaded.contains(k)
    &&& !excluded.contains(k)
    &&& !preset.contains(k)
    &&& !incompatible_skills_spec(skills, preset).contains(k)
    &&& !(skills.contains_key(k) && excludes_class(skills[k], class))
}

/// The skills a row's study varies upon, each once: `None` when the excluded
/// or the preset skills do not translate, else the loaded valid skills that
/// `kept_skill` keeps, for the class of the first team hero.
pub fn parse_valid_skills(
    docket_study: &DocketStudy,
    loaded_valid_skills: &Vec<String>,
    loaded_hero_builder_information: &HeroBuilderInformation,
    team_heroes: &Vec<HeroProfile>,
) -> (res: Option<Vec<String>>)
    requires
        team_heroes@.len() >= 1,
    ensures
        res is Some <==> (excluded_translation(*docket_study, *loaded_hero_builder_information) is Some
            && preset_translation(*docket_study, *loaded_hero_builder_information) is Some),
        res matches Some(v) ==> {
            &&& views(v@).no_duplicates()
            &&& forall|k: Seq<char>|
                #[trigger] views(v@).contains(k) <==> kept_skill(
                    k,
                    views(loaded_valid_skills@),
                    excluded_translation(*docket_study, *loaded_hero_builder_information).unwrap(),
                    preset_translation(*docket_study, *loaded_hero_builder_information).unwrap(),
                    loaded_hero_builder_information.hero_skill_map@,
                    team_heroes@[0].class@,
                )
        },
{
    let info = loaded_hero_builder_information;
    let excluded = match translate_skillset_based_on_skill_name_format(
        &docket_study.skill_name_format,
        split_list(docket_study.excluded_skills.as_str(), ';'),
        info,
    ) {
        Some(v) => v,
        None => {
            return None;
        },
    };
    let preset = match translate_skillset_based_on_skill_name_format(
        &docket_study.skill_name_format,
        split_list(docket_study.preset_skills.as_str(), ';'),
        info,
    ) {
        Some(v) => v,
        None => {
            return None;
        },
    };
    let incompatible = info.get_incompatible_skills(&preset);
    let hero_incompatible = info.get_skills_incompatible_with_hero(team_heroes[0].class.clone());
    let ghost ex = views(excluded@);
    let ghost pre = views(preset@);
    let ghost loaded = views(loaded_valid_skills@);
    let ghost class = team_heroes@[0].class@;
    let ghost skills = info.hero_skill_map@;
    let mut res: Vec<String> = Vec::new();
    let mut i: usize = 0;
    while i < loaded_valid_skills.len()
        invariant
            i <= loaded_valid_skills@.len(),
            loaded == views(loaded_valid_skills@),
            ex == views(excluded@),
            pre == views(preset@),
            views(incompatible@) == incompatible_skills_spec(skills, pre),
            forall|k: Seq<char>|
                views(hero_incompatible@).contains(k) <==> (#[trigger] skills.contains_key(k)
                    && excludes_class(skills[k], class)),
            views(res@).no_duplicates(),
            forall|k: Seq<char>|
                #[trigger] views(res@).contains(k) <==> kept_skill(
                    k,
                    loaded.subrange(0, i as int),
                    ex,
                    pre,
                    skills,
                    class,
                ),
        decreases loaded_valid_skills@.len() - i,
    {
        let skill = &loaded_valid_skills[i];
        let ghost k0 = skill@;
        proof {
            assert(loaded[i as int] == k0);
            let ghost s0 = loaded.subrange(0, i as int);
            let ghost s1 = loaded.subrange(0, i + 1);
            assert forall|k: Seq<char>| s1.contains(k) <==> (s0.contains(k) || k == k0) by {
                if s1.contains(k) {
                    let j = choose|j: int| 0 <= j < s1.len() && s1[j] == k;
                    if j < i {
                        assert(s0[j] == k);
                    }
                }
                if s0.contains(k) {
                    let j = choose|j: int| 0 <= j < s0.len() && s0[j] == k;
                    assert(s1[j] == k);
                }
                if k == k0 {
                    assert(s1[i as int] == k);
                }
            }
            assert(skills.contains_key(k0) ==> (views(hero_incompatible@).contains(k0) <==> excludes_class(
                skills[k0],
                class,
            )));
        }
        let keep = !contains_name(&excluded, skill) && !contains_name(&preset, skill)
            && !contains_name(&incompatible, skill) && !contains_name(&hero_incompatible, skill)
            && !contains_name(&res, skill);
        if keep {
            let ghost before = res@;
            res.push(skill.clone());
            proof {
                assert(!ex.contains(k0));
                assert(!pre.contains(k0));
                assert(!incompatible_skills_spec(skills, pre).contains(k0));
                assert(!(skills.contains_key(k0) && excludes_class(skills[k0], class)));
                assert(loaded.subrange(0, i + 1).contains(k0));
                assert(kept_skill(k0, loaded.subrange(0, i + 1), ex, pre, skills, class));
                assert(views(res@) =~= views(before).push(k0));
                assert forall|a: int, b: int|
                    0 <= a < views(res@).len() && 0 <= b < views(res@).len() && a != b implies views(
                    res@,
                )[a] != views(res@)[b] by {
                    if a < views(before).len() && b < views(before).len() {
                    } else if a == views(before).len() {
                        assert(views(before)[b] == views(res@)[b]);
                    } else {
                        assert(views(before)[a] == views(res@)[a]);
                    }
                }
                assert forall|k: Seq<char>| #[trigger] views(res@).contains(k) <==> kept_skill(
                    k,
                    loaded.subrange(0, i + 1),
                    ex,
                    pre,
                    skills,
                    class,
                ) by {
                    if k == k0 {
                        assert(views(res@)[views(before).len() as int] == k);
                    } else {
                        if views(res@).contains(k) {
                            let j = choose|j: int| 0 <= j < views(res@).len() && views(res@)[j] == k;
                            assert(j < views(before).len());
                            assert(views(before)[j] == k);
                        }
                        if views(before).contains(k) {
                            let j = choose|j: int| 0 <= j < views(before).len() && views(before)[j] == k;
                            assert(views(res@)[j] == k);
                        }
                        assert(loaded.subrange(0, i + 1).contains(k) == loaded.subrange(
                            0,
                            i as int,
                        ).contains(k));
                        assert(views(before).contains(k) == kept_skill(
                            k,
                            loaded.subrange(0, i as int),
                            ex,
                            pre,
                            skills,
                            class,
                        ));
                    }
                }
            }
        } else {
            proof {
                assert forall|k: Seq<char>| #[trigger] views(res@).contains(k) <==> kept_skill(
                    k,
                    loaded.subrange(0, i + 1),
                    ex,
                    pre,
                    skills,
                    class,
                ) by {
                    if k == k0 && views(res@).contains(k) {
                        assert(kept_skill(k, loaded.subrange(0, i as int), ex, pre, skills, class));
                    }
                }
            }
        }
        i = i + 1;
    }
    proof {
        assert(loaded.subrange(0, loaded_valid_skills@.len() as int) =~= loaded);
    }
    Some(res)
}

/// What running a docket row needs, read out of the row: the team, the
/// dungeons, the skills varied upon, the preset skills and the hero whose
/// skills vary (the first of the team).
pub struct DocketStudyPlan {
    pub team: Team,
    pub dungeons: Vec<TrialDungeon>,
    pub valid_skills: Vec<String>,
    pub preset_skills: Vec<String>,
    pub subject_hero_identifier: String,
}

/// Why a docket row is skipped: the part of it that could not be read.
#[derive(Debug, Clone, Copy, PartialEq, Eq, Structural)]
pub enum DocketPlanFailure {
    TeamNotParsed,
    DungeonsNotParsed,
    ValidSkillsNotParsed,
}

/// Reads a docket row as running it does: its team, then its dungeons, then
/// its excluded and preset skills, skipping the row at the first part that
/// cannot be read.
pub fn plan_docket_study<D>(
    docket_study: &DocketStudy,
    loaded_heroes: &NameMap<HeroProfile>,
    loaded_dungeons: &NameMap<D>,
    loaded_valid_skills: &Vec<String>,
    loaded_hero_builder_information: &HeroBuilderInformation,
) -> (res: Result<DocketStudyPlan, DocketPlanFailure>)
    requires
        team_resolves(*docket_study, loaded_heroes@) ==> team_counts_fit(
            resolved_heroes(*docket_study, loaded_heroes@),
        ),
        team_resolves(*docket_study, loaded_heroes@) ==> dungeons_readable(
            *docket_study,
            loaded_dungeons@,
        ),
    ensures
        (res matches Err(DocketPlanFailure::TeamNotParsed)) <==> !team_resolves(
            *docket_study,
            loaded_heroes@,
        ),
        (res matches Err(DocketPlanFailure::DungeonsNotParsed)) <==> (team_resolves(
            *docket_study,
            loaded_heroes@,
        ) && !dungeons_resolve(*docket_study, loaded_dungeons@)),
        (res matches Err(DocketPlanFailure::ValidSkillsNotParsed)) <==> (team_resolves(
            *docket_study,
            loaded_heroes@,
        ) && dungeons_resolve(*docket_study, loaded_dungeons@) && !(excluded_translation(
            *docket_study,
            *loaded_hero_builder_information,
        ) is Some && preset_translation(*docket_study, *loaded_hero_builder_information) is Some)),
        res matches Ok(plan) ==> {
            let heroes = resolved_heroes(*docket_study, loaded_heroes@);
            &&& plan.team.heroes_spec() == heroes
            &&& Some(plan.team.booster_spec()) == booster_from_name(docket_study.team_booster@)
            &&& plan.dungeons@.len() == dungeon_pieces(*docket_study).len()
            &&& forall|i: int|
                0 <= i < plan.dungeons@.len() ==> describes(
                    #[trigger] plan.dungeons@[i],
                    dungeon_pieces(*docket_study)[i],
                )
            &&& views(plan.valid_skills@).no_duplicates()
            &&& forall|k: Seq<char>|
                #[trigger] views(plan.valid_skills@).contains(k) <==> kept_skill(
                    k,
                    views(loaded_valid_skills@),
                    excluded_translation(*docket_study, *loaded_hero_builder_information).unwrap(),
                    preset_translation(*docket_study, *loaded_hero_builder_information).unwrap(),
                    loaded_hero_builder_information.hero_skill_map@,
                    heroes[0].class@,
                )
            &&& views(plan.preset_skills@) == preset_translation(
                *docket_study,
                *loaded_hero_builder_information,
            ).unwrap()
            &&& plan.subject_hero_identifier@ == heroes[0].identifier@
        },
{
    let team = match parse_team(docket_study, loaded_heroes) {
        Some(t) => t,
        None => {
            return Err(DocketPlanFailure::TeamNotParsed);
        },
    };
    let team_heroes = team.get_heroes();
    proof {
        lemma_split_nonempty(docket_study.team_hero_identifiers@, ';');
    }
    let dungeons = match parse_dungeons(docket_study, loaded_dungeons) {
        Some(d) => d,
        None => {
            return Err(DocketPlanFailure::DungeonsNotParsed);
        },
    };
    let valid_skills = match parse_valid_skills(
        docket_study,
        loaded_valid_skills,
        loaded_hero_builder_information,
        &team_heroes,
    ) {
        Some(v) => v,
        None => {
            return Err(DocketPlanFailure::ValidSkillsNotParsed);
        },
    };
    let preset_skills = match translate_skillset_based_on_skill_name_format(
        &docket_study.skill_name_format,
        split_list(docket_study.preset_skills.as_str(), ';'),
        loaded_hero_builder_information,
    ) {
        Some(p) => p,
        None => {
            proof {
                assert(false);
            }
            return Err(DocketPlanFailure::ValidSkillsNotParsed);
        },
    };
    let subject_hero_identifier = team_heroes[0].identifier.clone();
    Ok(DocketStudyPlan { team, dungeons, valid_skills, preset_skills, subject_hero_identifier })
}

/// A study never varies upon a skill that one of its preset skills is
/// incompatible with: for each preset skill the table knows, the skill named
/// in its `incompatible_with_t1_name` is not kept.
pub proof fn lemma_incompatible_with_preset_never_varied(
    loaded: Seq<Seq<char>>,
    excluded: Seq<Seq<char>>,
    preset: Seq<Seq<char>>,
    skills: Map<Seq<char>, crate::skills::HeroSkillInfo>,
    class: Seq<char>,
    i: int,
)
    requires
        0 <= i < preset.len(),
        skills.contains_key(preset[i]),
    ensures
        !kept_skill(skills[preset[i]].incompatible_with_t1_name@, loaded, excluded, preset, skills, class),
{
    crate::studies::lemma_incompatible_skills_are_those_named(skills, preset);
    assert(incompatible_skills_spec(skills, preset).contains(
        skills[preset[i]].incompatible_with_t1_name@,
    ));
}

} // verus!
