use vstd::prelude::*;

verus! {

/// Basic profile of a character.
pub struct UserDefaultData {
    pub character_name: String,
    pub world_name: String,
    pub character_gender: String,
    pub character_class: String,
    pub character_class_level: String,
    pub character_level: i16,
    pub character_exp: i64,
    pub character_exp_rate: String,
    pub character_guild_name: String,
    pub character_image: String,
    pub character_date_create: String,
}

/// One named stat with its value as text.
pub struct Stat {
    pub stat_name: String,
    pub stat_value: String,
}

/// The stat summary of a character.
pub struct UserStatData {
    pub final_stat: Vec<Stat>,
}

/// The levels of a character's six traits.
pub struct Propensity {
    pub charisma_level: i8,
    pub sensibility_level: i8,
    pub insight_level: i8,
    pub willingness_level: i8,
    pub handicraft_level: i8,
    pub charm_level: i8,
}

/// One ability line.
pub struct AbilityInfo {
    pub ability_no: String,
    pub ability_grade: String,
    pub ability_value: String,
}

/// The abilities of a character with their overall grade.
pub struct Ability {
    pub ability_grade: String,
    pub ability_info: Vec<AbilityInfo>,
}

/// One skill; absent effect texts arrive as empty strings.
pub struct SkillInfo {
    pub skill_name: String,
    pub skill_description: String,
    pub skill_level: i8,
    pub skill_effect: String,
    pub skill_icon: String,
    pub skill_effect_next: String,
}

/// The skills of a character at one skill grade.
pub struct CharacterSkill {
    pub character_skill: Vec<SkillInfo>,
}

/// The body of a skill request: the skill grade asked for.
pub struct CharacterSkilLevel {
    pub level: i8,
}

/// The link skills of a character.
pub struct CharacterLinkSkill {
    pub character_link_skill: Vec<SkillInfo>,
}

/// One slot of the V matrix; absent core texts arrive as empty strings.
pub struct VMatrixInfo {
    pub slot_id: String,
    pub slot_level: i8,
    pub v_core_name: String,
    pub v_core_level: i8,
    pub v_core_skill_1: String,
    pub v_core_skill_2: String,
    pub v_core_skill_3: String,
    pub v_core_type: String,
}

/// The V matrix of a character.
pub struct VMatrix {
    pub character_v_core_equipment: Vec<VMatrixInfo>,
    pub character_v_matrix_remain_slot_upgrade_point: i8,
}

/// A skill linked to a hexa core.
pub struct HexaSkillInfo {
    pub hexa_skill_id: String,
}

/// One hexa core.
pub struct HexaMatrixInfo {
    pub hexa_core_name: String,
    pub hexa_core_level: i8,
    pub hexa_core_type: String,
    pub linked_skill: Vec<HexaSkillInfo>,
}

/// The hexa matrix of a character.
pub struct HexaMatrix {
    pub character_hexa_core_equipment: Vec<HexaMatrixInfo>,
}

/// The best training-ground record; an absent record date arrives empty.
pub struct Dojang {
    pub dojang_best_floor: i8,
    pub date_dojang_record: String,
    pub dojang_best_time: i32,
}

} // verus!
