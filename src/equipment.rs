use vstd::prelude::*;

verus! {

/// Stat options of an equipped item.
pub struct ItemEquipmentInfoOption {
    pub str: String,
    pub dex: String,
    pub int: String,
    pub luk: String,
    pub max_hp: String,
    pub max_mp: String,
    pub attack_power: String,
    pub magic_power: String,
    pub armor: String,
    pub speed: String,
    pub jump: String,
    pub boss_damage: String,
    pub ignore_monster_armor: String,
    pub all_stat: String,
    pub damage: String,
    pub equipment_level_decrease: i8,
    pub max_hp_rate: String,
    pub max_mp_rate: String,
    pub base_equipment_level: i16,
}

/// Exceptional or additional options of an equipped item; absent values
/// arrive as their defaults.
pub struct ItemEquipmentInfoExceptionalOption {
    pub str: String,
    pub dex: String,
    pub int: String,
    pub luk: String,
    pub max_hp: String,
    pub max_mp: String,
    pub attack_power: String,
    pub magic_power: String,
    pub exceptional_upgrade: i16,
    pub armor: String,
    pub speed: String,
    pub jump: String,
    pub damage: String,
    pub all_stat: String,
    pub equipment_level_decrease: i16,
}

/// Etc. or star-force options of an equipped item.
pub struct ItemEquipmentStatOption {
    pub str: String,
    pub dex: String,
    pub int: String,
    pub luk: String,
    pub max_hp: String,
    pub max_mp: String,
    pub attack_power: String,
    pub magic_power: String,
    pub armor: String,
    pub speed: String,
    pub jump: String,
}

/// One equipped item; absent potential and soul texts arrive as empty
/// strings.
pub struct ItemEquipmentInfo {
    pub item_equipment_part: String,
    pub item_equipment_slot: String,
    pub item_name: String,
    pub item_icon: String,
    pub item_shape_name: String,
    pub item_shape_icon: String,
    pub item_total_option: ItemEquipmentInfoOption,
    pub item_base_option: ItemEquipmentInfoOption,
    pub potential_option_grade: String,
    pub additional_potential_option_grade: String,
    pub potential_option_1: String,
    pub potential_option_2: String,
    pub potential_option_3: String,
    pub additional_potential_option_1: String,
    pub additional_potential_option_2: String,
    pub additional_potential_option_3: String,
    pub item_exceptional_option: ItemEquipmentInfoExceptionalOption,
    pub item_add_option: ItemEquipmentInfoExceptionalOption,
    pub scroll_upgrade: String,
    pub cuttable_count: String,
    pub golden_hammer_flag: String,
    pub scroll_resilience_count: String,
    pub scroll_upgradeable_count: String,
    pub soul_name: String,
    pub soul_option: String,
    pub starforce: String,
    pub item_etc_option: ItemEquipmentStatOption,
    pub item_starforce_option: ItemEquipmentStatOption,
    pub special_ring_level: i8,
}

/// The equipped items of a character.
pub struct ItemEquipment {
    pub item_equipment: Vec<ItemEquipmentInfo>,
}

/// One arcane or authentic symbol.
pub struct SymbolInfo {
    pub symbol_name: String,
    pub symbol_icon: String,
    pub symbol_force: String,
    pub symbol_level: i8,
    pub symbol_str: String,
    pub symbol_dex: String,
    pub symbol_int: String,
    pub symbol_luk: String,
    pub symbol_hp: String,
    pub symbol_drop_rate: String,
    pub symbol_meso_rate: String,
    pub symbol_exp_rate: String,
    pub symbol_growth_count: i32,
    pub symbol_require_growth_count: i32,
}

/// The symbols of a character.
pub struct Symbol {
    pub symbol: Vec<SymbolInfo>,
}

} // verus!
