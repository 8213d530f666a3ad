//! Telemetry of the running game: its closed vocabularies, its records and its events.
//!
//! Every type here is read from a JSON document through `FromJson`. The keys are those of
//! the telemetry endpoint; a number that the endpoint writes with a fraction is kept as a
//! `Real`.

use crate::json::{
    double_bits, field, has, holds, json_double_bits, json_is_object, json_member, json_text,
    may_have, may_hold, member, optional_field, text_at, FromJson,
};
use crate::text::{chars_of, contains, has_infix, has_prefix, spells, starts_with};
use vstd::prelude::*;
use vstd::std_specs::convert::FromSpecImpl;

verus! {

/// A number with a fraction.
///
/// The client sends a double. It is kept as its IEEE 754 bit pattern, so that it is handed on
/// without loss and without arithmetic: `f64::from_bits` gives the number back.
#[derive(Debug, Clone, Copy, PartialEq, Eq, Structural)]
pub struct Real {
    pub bits: u64,
}

/// Any number, read as a double.
impl FromJson for Real {
    open spec fn fits(v: serde_json::Value) -> bool {
        json_double_bits(v) is Some
    }

    open spec fn read_from(self, v: serde_json::Value) -> bool {
        json_double_bits(v) == Some(self.bits)
    }

    fn decode(v: &serde_json::Value) -> (r: Option<Real>) {
        match double_bits(v) {
            Some(bits) => Some(Real { bits }),
            None => None,
        }
    }
}

/// The name under which a player is known in the game.
pub type SummonerName = String;

/// Seconds of game time.
pub type Time = Real;

/// `value` is what the member `key` of the object `v` holds, and `None` where that member
/// holds no `T`. The member has to be there.
pub open spec fn holds_if_any<T: FromJson>(
    value: Option<T>,
    v: serde_json::Value,
    key: Seq<char>,
) -> bool {
    json_member(v, key) matches Some(m) && match value {
        Some(inner) => inner.read_from(m),
        None => !T::fits(m),
    }
}

/// Reads the member `key` of the object `v`, taking a member that holds no `T` for `None`.
/// The outer `None` is a missing member.
pub fn treat_error_as_none<T: FromJson>(v: &serde_json::Value, key: &str) -> (r: Option<
    Option<T>,
>)
    ensures
        r is Some <==> json_member(*v, key@) is Some,
        r matches Some(value) ==> holds_if_any(value, *v, key@),
{
    match member(v, key) {
        Some(m) => Some(T::decode(m)),
        None => None,
    }
}

/// Everything that the telemetry endpoint knows about the running game.
#[derive(Debug, Clone, PartialEq, Eq)]
pub struct AllGameData {
    /// The player at this machine; `None` for a spectator, of whom the endpoint sends none.
    pub active_player: Option<ActivePlayer>,
    pub all_players: Vec<Player>,
    /// The events so far; on the wire they stand one level down, under `Events`.
    pub events: Vec<GameEvent>,
    pub game_data: GameStats,
}

/// An object with the members `activePlayer`, `allPlayers`, `events`, `gameData`.
impl FromJson for AllGameData {
    open spec fn fits(v: serde_json::Value) -> bool {
        &&& json_member(v, "activePlayer"@) is Some
        &&& has::<Vec<Player>>(v, "allPlayers"@)
        &&& has::<IngameEvents>(v, "events"@)
        &&& has::<GameStats>(v, "gameData"@)
    }

    open spec fn read_from(self, v: serde_json::Value) -> bool {
        &&& holds_if_any(self.active_player, v, "activePlayer"@)
        &&& holds(self.all_players, v, "allPlayers"@)
        &&& holds(IngameEvents { events: self.events }, v, "events"@)
        &&& holds(self.game_data, v, "gameData"@)
    }

    fn decode(v: &serde_json::Value) -> (r: Option<AllGameData>) {
        let active_player = treat_error_as_none::<ActivePlayer>(v, "activePlayer")?;
        let all_players = field::<Vec<Player>>(v, "allPlayers")?;
        let events = field::<IngameEvents>(v, "events")?.events;
        let game_data = field::<GameStats>(v, "gameData")?;
        Some(AllGameData { active_player, all_players, events, game_data })
    }
}

pub type Gold = Real;

pub type Level = i32;

/// The player at this machine.
#[derive(Debug, Clone, PartialEq, Eq)]
pub struct ActivePlayer {
    pub abilities: PlayerAbilities,
    pub champion_stats: PlayerChampionStats,
    pub current_gold: Gold,
    pub runes: FullPlayerRunes,
    pub level: Level,
    pub summoner_name: SummonerName,
    pub team_relative_colors: bool,
}

/// An object with the members `abilities`, `championStats`, `currentGold`, `fullRunes`,
/// `level`, `summonerName`, `teamRelativeColors`.
impl FromJson for ActivePlayer {
    open spec fn fits(v: serde_json::Value) -> bool {
        &&& has::<PlayerAbilities>(v, "abilities"@)
        &&& has::<PlayerChampionStats>(v, "championStats"@)
        &&& has::<Gold>(v, "currentGold"@)
        &&& has::<FullPlayerRunes>(v, "fullRunes"@)
        &&& has::<Level>(v, "level"@)
        &&& has::<SummonerName>(v, "summonerName"@)
        &&& has::<bool>(v, "teamRelativeColors"@)
    }

    open spec fn read_from(self, v: serde_json::Value) -> bool {
        &&& holds(self.abilities, v, "abilities"@)
        &&& holds(self.champion_stats, v, "championStats"@)
        &&& holds(self.current_gold, v, "currentGold"@)
        &&& holds(self.runes, v, "fullRunes"@)
        &&& holds(self.level, v, "level"@)
        &&& holds(self.summoner_name, v, "summonerName"@)
        &&& holds(self.team_relative_colors, v, "teamRelativeColors"@)
    }

    fn decode(v: &serde_json::Value) -> (r: Option<ActivePlayer>) {
        let abilities = field::<PlayerAbilities>(v, "abilities")?;
        let champion_stats = field::<PlayerChampionStats>(v, "championStats")?;
        let current_gold = field::<Gold>(v, "currentGold")?;
        let runes = field::<FullPlayerRunes>(v, "fullRunes")?;
        let level = field::<Level>(v, "level")?;
        let summoner_name = field::<SummonerName>(v, "summonerName")?;
        let team_relative_colors = field::<bool>(v, "teamRelativeColors")?;
        Some(
            ActivePlayer {
                abilities,
                champion_stats,
                current_gold,
                runes,
                level,
                summoner_name,
                team_relative_colors,
            },
        )
    }
}

/// The abilities of a champion, by their keys.
#[derive(Debug, Clone, PartialEq, Eq)]
pub struct PlayerAbilities {
    pub e: Ability,
    pub passive: Passive,
    pub q: Ability,
    pub r: Ability,
    pub w: Ability,
}

/// An object with the members `E`, `Passive`, `Q`, `R`, `W`.
impl FromJson for PlayerAbilities {
    open spec fn fits(v: serde_json::Value) -> bool {
        &&& has::<Ability>(v, "E"@)
        &&& has::<Passive>(v, "Passive"@)
        &&& has::<Ability>(v, "Q"@)
        &&& has::<Ability>(v, "R"@)
        &&& has::<Ability>(v, "W"@)
    }

    open spec fn read_from(self, v: serde_json::Value) -> bool {
        &&& holds(self.e, v, "E"@)
        &&& holds(self.passive, v, "Passive"@)
        &&& holds(self.q, v, "Q"@)
        &&& holds(self.r, v, "R"@)
        &&& holds(self.w, v, "W"@)
    }

    fn decode(v: &serde_json::Value) -> (r: Option<PlayerAbilities>) {
        let e = field::<Ability>(v, "E")?;
        let passive = field::<Passive>(v, "Passive")?;
        let q = field::<Ability>(v, "Q")?;
        let r = field::<Ability>(v, "R")?;
        let w = field::<Ability>(v, "W")?;
        Some(PlayerAbilities { e, passive, q, r, w })
    }
}

pub type AbilityLevel = i32;

pub type AbilityName = String;

/// One ability of a champion.
#[derive(Debug, Clone, PartialEq, Eq)]
pub struct Ability {
    pub ability_level: AbilityLevel,
    pub display_name: AbilityName,
    pub id: String,
    pub raw_description: String,
    pub raw_display_name: String,
}

/// An object with the members `abilityLevel`, `displayName`, `id`, `rawDescription`,
/// `rawDisplayName`.
impl FromJson for Ability {
    open spec fn fits(v: serde_json::Value) -> bool {
        &&& has::<AbilityLevel>(v, "abilityLevel"@)
        &&& has::<AbilityName>(v, "displayName"@)
        &&& has::<String>(v, "id"@)
        &&& has::<String>(v, "rawDescription"@)
        &&& has::<String>(v, "rawDisplayName"@)
    }

    open spec fn read_from(self, v: serde_json::Value) -> bool {
        &&& holds(self.ability_level, v, "abilityLevel"@)
        &&& holds(self.display_name, v, "displayName"@)
        &&& holds(self.id, v, "id"@)
        &&& holds(self.raw_description, v, "rawDescription"@)
        &&& holds(self.raw_display_name, v, "rawDisplayName"@)
    }

    fn decode(v: &serde_json::Value) -> (r: Option<Ability>) {
        let ability_level = field::<AbilityLevel>(v, "abilityLevel")?;
        let display_name = field::<AbilityName>(v, "displayName")?;
        let id = field::<String>(v, "id")?;
        let raw_description = field::<String>(v, "rawDescription")?;
        let raw_display_name = field::<String>(v, "rawDisplayName")?;
        Some(Ability { ability_level, display_name, id, raw_description, raw_display_name })
    }
}

/// The passive ability of a champion.
#[derive(Debug, Clone, PartialEq, Eq)]
pub struct Passive {
    pub display_name: AbilityName,
    pub id: String,
    pub raw_description: String,
    pub raw_display_name: String,
}

/// An object with the members `displayName`, `id`, `rawDescription`, `rawDisplayName`.
impl FromJson for Passive {
    open spec fn fits(v: serde_json::Value) -> bool {
        &&& has::<AbilityName>(v, "displayName"@)
        &&& has::<String>(v, "id"@)
        &&& has::<String>(v, "rawDescription"@)
        &&& has::<String>(v, "rawDisplayName"@)
    }

    open spec fn read_from(self, v: serde_json::Value) -> bool {
        &&& holds(self.display_name, v, "displayName"@)
        &&& holds(self.id, v, "id"@)
        &&& holds(self.raw_description, v, "rawDescription"@)
        &&& holds(self.raw_display_name, v, "rawDisplayName"@)
    }

    fn decode(v: &serde_json::Value) -> (r: Option<Passive>) {
        let display_name = field::<AbilityName>(v, "displayName")?;
        let id = field::<String>(v, "id")?;
        let raw_description = field::<String>(v, "rawDescription")?;
        let raw_display_name = field::<String>(v, "rawDisplayName")?;
        Some(Passive { display_name, id, raw_description, raw_display_name })
    }
}

pub type AbilityHaste = Real;

pub type AbilityPower = Real;

pub type Armor = Real;

pub type ArmorPenetrationFlat = Real;

pub type ArmorPenetrationPercent = Real;

pub type AttackDamage = Real;

pub type AttackRange = Real;

pub type AttackSpeed = Real;

pub type BonusArmorPenetrationPercent = Real;

pub type BonusMagicPenetrationPercent = Real;

pub type CritChance = Real;

pub type CritDamage = Real;

pub type CurrentHealth = Real;

pub type HealShieldPower = Real;

pub type HealthRegenRate = Real;

pub type LifeSteal = Real;

pub type MagicLethality = Real;

pub type MagicPenetrationFlat = Real;

pub type MagicPenetrationPercent = Real;

pub type MagicResist = Real;

pub type MaxHealth = Real;

pub type MoveSpeed = Real;

pub type Omnivamp = Real;

pub type PhysicalLethality = Real;

pub type PhysicalVamp = Real;

pub type ResourceMax = Real;

pub type ResourceRegenRate = Real;

pub type ResourceValue = Real;

pub type SpellVamp = Real;

pub type Tenacity = Real;

/// The statistics of the active player's champion.
#[derive(Debug, Clone, PartialEq, Eq)]
pub struct PlayerChampionStats {
    pub ability_haste: AbilityHaste,
    pub ability_power: AbilityPower,
    pub armor: Armor,
    pub armor_penetration_flat: ArmorPenetrationFlat,
    pub armor_penetration_percent: ArmorPenetrationPercent,
    pub attack_damage: AttackDamage,
    pub attack_range: AttackRange,
    pub attack_speed: AttackSpeed,
    pub bonus_armor_penetration_percent: BonusArmorPenetrationPercent,
    pub bonus_magic_penetration_percent: BonusMagicPenetrationPercent,
    pub crit_chance: CritChance,
    pub crit_damage: CritDamage,
    pub current_health: CurrentHealth,
    pub heal_shield_power: HealShieldPower,
    pub health_regen_rate: HealthRegenRate,
    pub life_steal: LifeSteal,
    pub magic_lethality: MagicLethality,
    pub magic_penetration_flat: MagicPenetrationFlat,
    pub magic_penetration_percent: MagicPenetrationPercent,
    pub magic_resist: MagicResist,
    pub max_health: MaxHealth,
    pub move_speed: MoveSpeed,
    pub omnivamp: Omnivamp,
    pub physical_lethality: PhysicalLethality,
    pub physical_vamp: PhysicalVamp,
    pub resource_max: ResourceMax,
    pub resource_regen_rate: ResourceRegenRate,
    pub resource_type: ResourceType,
    pub resource_value: ResourceValue,
    pub spell_vamp: SpellVamp,
    pub tenacity: Tenacity,
}

/// An object with the members `abilityHaste`, `abilityPower`, `armor`, `armorPenetrationFlat`,
/// `armorPenetrationPercent`, `attackDamage`, `attackRange`, `attackSpeed`,
/// `bonusArmorPenetrationPercent`, `bonusMagicPenetrationPercent`, `critChance`, `critDamage`,
/// `currentHealth`, `healShieldPower`, `healthRegenRate`, `lifeSteal`, `magicLethality`,
/// `magicPenetrationFlat`, `magicPenetrationPercent`, `magicResist`, `maxHealth`, `moveSpeed`,
/// `omnivamp`, `physicalLethality`, `physicalVamp`, `resourceMax`, `resourceRegenRate`,
/// `resourceType`, `resourceValue`, `spellVamp`, `tenacity`.
impl FromJson for PlayerChampionStats {
    open spec fn fits(v: serde_json::Value) -> bool {
        &&& has::<AbilityHaste>(v, "abilityHaste"@)
        &&& has::<AbilityPower>(v, "abilityPower"@)
        &&& has::<Armor>(v, "armor"@)
        &&& has::<ArmorPenetrationFlat>(v, "armorPenetrationFlat"@)
        &&& has::<ArmorPenetrationPercent>(v, "armorPenetrationPercent"@)
        &&& has::<AttackDamage>(v, "attackDamage"@)
        &&& has::<AttackRange>(v, "attackRange"@)
        &&& has::<AttackSpeed>(v, "attackSpeed"@)
        &&& has::<BonusArmorPenetrationPercent>(v, "bonusArmorPenetrationPercent"@)
        &&& has::<BonusMagicPenetrationPercent>(v, "bonusMagicPenetrationPercent"@)
        &&& has::<CritChance>(v, "critChance"@)
        &&& has::<CritDamage>(v, "critDamage"@)
        &&& has::<CurrentHealth>(v, "currentHealth"@)
        &&& has::<HealShieldPower>(v, "healShieldPower"@)
        &&& has::<HealthRegenRate>(v, "healthRegenRate"@)
        &&& has::<LifeSteal>(v, "lifeSteal"@)
        &&& has::<MagicLethality>(v, "magicLethality"@)
        &&& has::<MagicPenetrationFlat>(v, "magicPenetrationFlat"@)
        &&& has::<MagicPenetrationPercent>(v, "magicPenetrationPercent"@)
        &&& has::<MagicResist>(v, "magicResist"@)
        &&& has::<MaxHealth>(v, "maxHealth"@)
        &&& has::<MoveSpeed>(v, "moveSpeed"@)
        &&& has::<Omnivamp>(v, "omnivamp"@)
        &&& has::<PhysicalLethality>(v, "physicalLethality"@)
        &&& has::<PhysicalVamp>(v, "physicalVamp"@)
        &&& has::<ResourceMax>(v, "resourceMax"@)
        &&& has::<ResourceRegenRate>(v, "resourceRegenRate"@)
        &&& has::<ResourceType>(v, "resourceType"@)
        &&& has::<ResourceValue>(v, "resourceValue"@)
        &&& has::<SpellVamp>(v, "spellVamp"@)
        &&& has::<Tenacity>(v, "tenacity"@)
    }

    open spec fn read_from(self, v: serde_json::Value) -> bool {
        &&& holds(self.ability_haste, v, "abilityHaste"@)
        &&& holds(self.ability_power, v, "abilityPower"@)
        &&& holds(self.armor, v, "armor"@)
        &&& holds(self.armor_penetration_flat, v, "armorPenetrationFlat"@)
        &&& holds(self.armor_penetration_percent, v, "armorPenetrationPercent"@)
        &&& holds(self.attack_damage, v, "attackDamage"@)
        &&& holds(self.attack_range, v, "attackRange"@)
        &&& holds(self.attack_speed, v, "attackSpeed"@)
        &&& holds(self.bonus_armor_penetration_percent, v, "bonusArmorPenetrationPercent"@)
        &&& holds(self.bonus_magic_penetration_percent, v, "bonusMagicPenetrationPercent"@)
        &&& holds(self.crit_chance, v, "critChance"@)
        &&& holds(self.crit_damage, v, "critDamage"@)
        &&& holds(self.current_health, v, "currentHealth"@)
        &&& holds(self.heal_shield_power, v, "healShieldPower"@)
        &&& holds(self.health_regen_rate, v, "healthRegenRate"@)
        &&& holds(self.life_steal, v, "lifeSteal"@)
        &&& holds(self.magic_lethality, v, "magicLethality"@)
        &&& holds(self.magic_penetration_flat, v, "magicPenetrationFlat"@)
        &&& holds(self.magic_penetration_percent, v, "magicPenetrationPercent"@)
        &&& holds(self.magic_resist, v, "magicResist"@)
        &&& holds(self.max_health, v, "maxHealth"@)
        &&& holds(self.move_speed, v, "moveSpeed"@)
        &&& holds(self.omnivamp, v, "omnivamp"@)
        &&& holds(self.physical_lethality, v, "physicalLethality"@)
        &&& holds(self.physical_vamp, v, "physicalVamp"@)
        &&& holds(self.resource_max, v, "resourceMax"@)
        &&& holds(self.resource_regen_rate, v, "resourceRegenRate"@)
        &&& holds(self.resource_type, v, "resourceType"@)
        &&& holds(self.resource_value, v, "resourceValue"@)
        &&& holds(self.spell_vamp, v, "spellVamp"@)
        &&& holds(self.tenacity, v, "tenacity"@)
    }

    fn decode(v: &serde_json::Value) -> (r: Option<PlayerChampionStats>) {
        let ability_haste = field::<AbilityHaste>(v, "abilityHaste")?;
        let ability_power = field::<AbilityPower>(v, "abilityPower")?;
        let armor = field::<Armor>(v, "armor")?;
        let armor_penetration_flat = field::<ArmorPenetrationFlat>(v, "armorPenetrationFlat")?;
        let armor_penetration_percent = field::<ArmorPenetrationPercent>(
            v,
            "armorPenetrationPercent",
        )?;
        let attack_damage = field::<AttackDamage>(v, "attackDamage")?;
        let attack_range = field::<AttackRange>(v, "attackRange")?;
        let attack_speed = field::<AttackSpeed>(v, "attackSpeed")?;
        let bonus_armor_penetration_percent = field::<BonusArmorPenetrationPercent>(
            v,
            "bonusArmorPenetrationPercent",
        )?;
        let bonus_magic_penetration_percent = field::<BonusMagicPenetrationPercent>(
            v,
            "bonusMagicPenetrationPercent",
        )?;
        let crit_chance = field::<CritChance>(v, "critChance")?;
        let crit_damage = field::<CritDamage>(v, "critDamage")?;
        let current_health = field::<CurrentHealth>(v, "currentHealth")?;
        let heal_shield_power = field::<HealShieldPower>(v, "healShieldPower")?;
        let health_regen_rate = field::<HealthRegenRate>(v, "healthRegenRate")?;
        let life_steal = field::<LifeSteal>(v, "lifeSteal")?;
        let magic_lethality = field::<MagicLethality>(v, "magicLethality")?;
        let magic_penetration_flat = field::<MagicPenetrationFlat>(v, "magicPenetrationFlat")?;
        let magic_penetration_percent = field::<MagicPenetrationPercent>(
            v,
            "magicPenetrationPercent",
        )?;
        let magic_resist = field::<MagicResist>(v, "magicResist")?;
        let max_health = field::<MaxHealth>(v, "maxHealth")?;
        let move_speed = field::<MoveSpeed>(v, "moveSpeed")?;
        let omnivamp = field::<Omnivamp>(v, "omnivamp")?;
        let physical_lethality = field::<PhysicalLethality>(v, "physicalLethality")?;
        let physical_vamp = field::<PhysicalVamp>(v, "physicalVamp")?;
        let resource_max = field::<ResourceMax>(v, "resourceMax")?;
        let resource_regen_rate = field::<ResourceRegenRate>(v, "resourceRegenRate")?;
        let resource_type = field::<ResourceType>(v, "resourceType")?;
        let resource_value = field::<ResourceValue>(v, "resourceValue")?;
        let spell_vamp = field::<SpellVamp>(v, "spellVamp")?;
        let tenacity = field::<Tenacity>(v, "tenacity")?;
        Some(
            PlayerChampionStats {
                ability_haste,
                ability_power,
                armor,
                armor_penetration_flat,
                armor_penetration_percent,
                attack_damage,
                attack_range,
                attack_speed,
                bonus_armor_penetration_percent,
                bonus_magic_penetration_percent,
                crit_chance,
                crit_damage,
                current_health,
                heal_shield_power,
                health_regen_rate,
                life_steal,
                magic_lethality,
                magic_penetration_flat,
                magic_penetration_percent,
                magic_resist,
                max_health,
                move_speed,
                omnivamp,
                physical_lethality,
                physical_vamp,
                resource_max,
                resource_regen_rate,
                resource_type,
                resource_value,
                spell_vamp,
                tenacity,
            },
        )
    }
}

/// The resource that a champion spends on abilities.
#[derive(Debug, Clone, Copy, PartialEq, Eq, Structural)]
pub enum ResourceType {
    Mana,
    Energy,
    /// The champion has no resource; written `NONE`.
    NoResource,
    Shield,
    Battlefury,
    Dragonfury,
    Rage,
    Heat,
    Gnarfury,
    Ferocity,
    Bloodwell,
    Wind,
    Ammo,
    Moonlight,
    Other,
    Max,
    /// Any text that the vocabulary does not list.
    Unknown,
}

impl ResourceType {
    /// The variant that the client writes as `name`; `None` where it writes none so.
    pub open spec fn known(name: Seq<char>) -> Option<ResourceType> {
        if name == "MANA"@ {
            Some(ResourceType::Mana)
        } else if name == "ENERGY"@ {
            Some(ResourceType::Energy)
        } else if name == "NONE"@ {
            Some(ResourceType::NoResource)
        } else if name == "SHIELD"@ {
            Some(ResourceType::Shield)
        } else if name == "BATTLEFURY"@ {
            Some(ResourceType::Battlefury)
        } else if name == "DRAGONFURY"@ {
            Some(ResourceType::Dragonfury)
        } else if name == "RAGE"@ {
            Some(ResourceType::Rage)
        } else if name == "HEAT"@ {
            Some(ResourceType::Heat)
        } else if name == "GNARFURY"@ {
            Some(ResourceType::Gnarfury)
        } else if name == "FEROCITY"@ {
            Some(ResourceType::Ferocity)
        } else if name == "BLOODWELL"@ {
            Some(ResourceType::Bloodwell)
        } else if name == "WIND"@ {
            Some(ResourceType::Wind)
        } else if name == "AMMO"@ {
            Some(ResourceType::Ammo)
        } else if name == "MOONLIGHT"@ {
            Some(ResourceType::Moonlight)
        } else if name == "OTHER"@ {
            Some(ResourceType::Other)
        } else if name == "MAX"@ {
            Some(ResourceType::Max)
        } else {
            None
        }
    }

    /// The variant that stands for `name`: the known one, or `Unknown` for any other text.
    pub open spec fn decoded(name: Seq<char>) -> ResourceType {
        match Self::known(name) {
            Some(v) => v,
            None => ResourceType::Unknown,
        }
    }

    /// What `name()` returns.
    pub open spec fn label(self) -> Seq<char> {
        match self {
            ResourceType::Mana => "Mana"@,
            ResourceType::Energy => "Energy"@,
            ResourceType::NoResource => "None"@,
            ResourceType::Shield => "Shield"@,
            ResourceType::Battlefury => "Battlefury"@,
            ResourceType::Dragonfury => "Dragonfury"@,
            ResourceType::Rage => "Rage"@,
            ResourceType::Heat => "Heat"@,
            ResourceType::Gnarfury => "Gnarfury"@,
            ResourceType::Ferocity => "Ferocity"@,
            ResourceType::Bloodwell => "Bloodwell"@,
            ResourceType::Wind => "Wind"@,
            ResourceType::Ammo => "Ammo"@,
            ResourceType::Moonlight => "Moonlight"@,
            ResourceType::Other => "Other"@,
            ResourceType::Max => "Max"@,
            ResourceType::Unknown => "Unknown"@,
        }
    }

    /// Looks `name` up in the vocabulary.
    pub fn lookup(name: &str) -> (r: Option<ResourceType>)
        ensures
            r == Self::known(name@),
    {
        let chars = chars_of(name);
        if spells(&chars, "MANA") {
            Some(ResourceType::Mana)
        } else if spells(&chars, "ENERGY") {
            Some(ResourceType::Energy)
        } else if spells(&chars, "NONE") {
            Some(ResourceType::NoResource)
        } else if spells(&chars, "SHIELD") {
            Some(ResourceType::Shield)
        } else if spells(&chars, "BATTLEFURY") {
            Some(ResourceType::Battlefury)
        } else if spells(&chars, "DRAGONFURY") {
            Some(ResourceType::Dragonfury)
        } else if spells(&chars, "RAGE") {
            Some(ResourceType::Rage)
        } else if spells(&chars, "HEAT") {
            Some(ResourceType::Heat)
        } else if spells(&chars, "GNARFURY") {
            Some(ResourceType::Gnarfury)
        } else if spells(&chars, "FEROCITY") {
            Some(ResourceType::Ferocity)
        } else if spells(&chars, "BLOODWELL") {
            Some(ResourceType::Bloodwell)
        } else if spells(&chars, "WIND") {
            Some(ResourceType::Wind)
        } else if spells(&chars, "AMMO") {
            Some(ResourceType::Ammo)
        } else if spells(&chars, "MOONLIGHT") {
            Some(ResourceType::Moonlight)
        } else if spells(&chars, "OTHER") {
            Some(ResourceType::Other)
        } else if spells(&chars, "MAX") {
            Some(ResourceType::Max)
        } else {
            None
        }
    }

    /// Decodes `name`; a text outside the vocabulary gives `Unknown`, never a failure.
    pub fn from_wire(name: &str) -> (r: ResourceType)
        ensures
            r == Self::decoded(name@),
    {
        match Self::lookup(name) {
            Some(v) => v,
            None => ResourceType::Unknown,
        }
    }

    /// The variant's name.
    pub fn name(&self) -> (r: &'static str)
        ensures
            r@ == self.label(),
    {
        match self {
            ResourceType::Mana => "Mana",
            ResourceType::Energy => "Energy",
            ResourceType::NoResource => "None",
            ResourceType::Shield => "Shield",
            ResourceType::Battlefury => "Battlefury",
            ResourceType::Dragonfury => "Dragonfury",
            ResourceType::Rage => "Rage",
            ResourceType::Heat => "Heat",
            ResourceType::Gnarfury => "Gnarfury",
            ResourceType::Ferocity => "Ferocity",
            ResourceType::Bloodwell => "Bloodwell",
            ResourceType::Wind => "Wind",
            ResourceType::Ammo => "Ammo",
            ResourceType::Moonlight => "Moonlight",
            ResourceType::Other => "Other",
            ResourceType::Max => "Max",
            ResourceType::Unknown => "Unknown",
        }
    }
}

/// A string; one outside the vocabulary is read as `Unknown`.
impl FromJson for ResourceType {
    open spec fn fits(v: serde_json::Value) -> bool {
        json_text(v) is Some
    }

    open spec fn read_from(self, v: serde_json::Value) -> bool {
        json_text(v) matches Some(name) && self == Self::decoded(name)
    }

    fn decode(v: &serde_json::Value) -> (r: Option<ResourceType>) {
        Some(Self::from_wire(v.as_str()?))
    }
}

/// All runes of the active player, or the sign that there are none.
///
/// The two shapes are tried in this order. The first is an object with the members
/// `general_runes`, `keystone`, `primary_rune_tree`, `secondary_rune_tree` and `stat_runes`;
/// any other object is the second.
#[derive(Debug, Clone, PartialEq, Eq)]
pub enum FullPlayerRunes {
    Runes {
        general_runes: Vec<Rune>,
        keystone: Rune,
        primary_rune_tree: Box<RuneTree>,
        secondary_rune_tree: Box<RuneTree>,
        stat_runes: Vec<StatRune>,
    },
    NoRunes {},
}

impl FullPlayerRunes {
    /// The object `v` has all the members of `Runes`.
    pub open spec fn has_runes(v: serde_json::Value) -> bool {
        &&& has::<Vec<Rune>>(v, "general_runes"@)
        &&& has::<Rune>(v, "keystone"@)
        &&& has::<Box<RuneTree>>(v, "primary_rune_tree"@)
        &&& has::<Box<RuneTree>>(v, "secondary_rune_tree"@)
        &&& has::<Vec<StatRune>>(v, "stat_runes"@)
    }

    /// Reads the shape `Runes`.
    fn decode_runes(v: &serde_json::Value) -> (r: Option<FullPlayerRunes>)
        ensures
            r is Some <==> Self::has_runes(*v),
            r matches Some(runes) ==> runes is Runes && runes.read_from(*v),
    {
        let general_runes = field::<Vec<Rune>>(v, "general_runes")?;
        let keystone = field::<Rune>(v, "keystone")?;
        let primary_rune_tree = field::<Box<RuneTree>>(v, "primary_rune_tree")?;
        let secondary_rune_tree = field::<Box<RuneTree>>(v, "secondary_rune_tree")?;
        let stat_runes = field::<Vec<StatRune>>(v, "stat_runes")?;
        Some(
            FullPlayerRunes::Runes {
                general_runes,
                keystone,
                primary_rune_tree,
                secondary_rune_tree,
                stat_runes,
            },
        )
    }
}

/// An object: one with all the members of `Runes` holds them, any other holds `NoRunes`.
impl FromJson for FullPlayerRunes {
    open spec fn fits(v: serde_json::Value) -> bool {
        Self::has_runes(v) || json_is_object(v)
    }

    open spec fn read_from(self, v: serde_json::Value) -> bool {
        match self {
            FullPlayerRunes::Runes {
                general_runes,
                keystone,
                primary_rune_tree,
                secondary_rune_tree,
                stat_runes,
            } => {
                &&& holds(general_runes, v, "general_runes"@)
                &&& holds(keystone, v, "keystone"@)
                &&& holds(primary_rune_tree, v, "primary_rune_tree"@)
                &&& holds(secondary_rune_tree, v, "secondary_rune_tree"@)
                &&& holds(stat_runes, v, "stat_runes"@)
            },
            FullPlayerRunes::NoRunes {} => !Self::has_runes(v) && json_is_object(v),
        }
    }

    fn decode(v: &serde_json::Value) -> (r: Option<FullPlayerRunes>) {
        match Self::decode_runes(v) {
            Some(runes) => Some(runes),
            None => if v.is_object() {
                Some(FullPlayerRunes::NoRunes {})
            } else {
                None
            },
        }
    }
}

/// The main runes of a player.
#[derive(Debug, Clone, PartialEq, Eq)]
pub struct PlayerRunes {
    pub keystone: Rune,
    pub primary_rune_tree: RuneTree,
    pub secondary_rune_tree: RuneTree,
}

/// An object with the members `keystone`, `primaryRuneTree`, `secondaryRuneTree`.
impl FromJson for PlayerRunes {
    open spec fn fits(v: serde_json::Value) -> bool {
        &&& has::<Rune>(v, "keystone"@)
        &&& has::<RuneTree>(v, "primaryRuneTree"@)
        &&& has::<RuneTree>(v, "secondaryRuneTree"@)
    }

    open spec fn read_from(self, v: serde_json::Value) -> bool {
        &&& holds(self.keystone, v, "keystone"@)
        &&& holds(self.primary_rune_tree, v, "primaryRuneTree"@)
        &&& holds(self.secondary_rune_tree, v, "secondaryRuneTree"@)
    }

    fn decode(v: &serde_json::Value) -> (r: Option<PlayerRunes>) {
        let keystone = field::<Rune>(v, "keystone")?;
        let primary_rune_tree = field::<RuneTree>(v, "primaryRuneTree")?;
        let secondary_rune_tree = field::<RuneTree>(v, "secondaryRuneTree")?;
        Some(PlayerRunes { keystone, primary_rune_tree, secondary_rune_tree })
    }
}

pub type RuneId = i32;

pub type RuneName = String;

/// One rune.
#[derive(Debug, Clone, PartialEq, Eq)]
pub struct Rune {
    pub display_name: RuneName,
    pub id: RuneId,
    pub raw_description: String,
    pub raw_display_name: String,
}

/// An object with the members `displayName`, `id`, `rawDescription`, `rawDisplayName`.
impl FromJson for Rune {
    open spec fn fits(v: serde_json::Value) -> bool {
        &&& has::<RuneName>(v, "displayName"@)
        &&& has::<RuneId>(v, "id"@)
        &&& has::<String>(v, "rawDescription"@)
        &&& has::<String>(v, "rawDisplayName"@)
    }

    open spec fn read_from(self, v: serde_json::Value) -> bool {
        &&& holds(self.display_name, v, "displayName"@)
        &&& holds(self.id, v, "id"@)
        &&& holds(self.raw_description, v, "rawDescription"@)
        &&& holds(self.raw_display_name, v, "rawDisplayName"@)
    }

    fn decode(v: &serde_json::Value) -> (r: Option<Rune>) {
        let display_name = field::<RuneName>(v, "displayName")?;
        let id = field::<RuneId>(v, "id")?;
        let raw_description = field::<String>(v, "rawDescription")?;
        let raw_display_name = field::<String>(v, "rawDisplayName")?;
        Some(Rune { display_name, id, raw_description, raw_display_name })
    }
}

pub type RuneTreeId = i32;

pub type RuneTreeName = String;

/// One tree of runes.
#[derive(Debug, Clone, PartialEq, Eq)]
pub struct RuneTree {
    pub display_name: RuneTreeName,
    pub id: RuneTreeId,
    pub raw_description: String,
    pub raw_display_name: String,
}

/// An object with the members `displayName`, `id`, `rawDescription`, `rawDisplayName`.
impl FromJson for RuneTree {
    open spec fn fits(v: serde_json::Value) -> bool {
        &&& has::<RuneTreeName>(v, "displayName"@)
        &&& has::<RuneTreeId>(v, "id"@)
        &&& has::<String>(v, "rawDescription"@)
        &&& has::<String>(v, "rawDisplayName"@)
    }

    open spec fn read_from(self, v: serde_json::Value) -> bool {
        &&& holds(self.display_name, v, "displayName"@)
        &&& holds(self.id, v, "id"@)
        &&& holds(self.raw_description, v, "rawDescription"@)
        &&& holds(self.raw_display_name, v, "rawDisplayName"@)
    }

    fn decode(v: &serde_json::Value) -> (r: Option<RuneTree>) {
        let display_name = field::<RuneTreeName>(v, "displayName")?;
        let id = field::<RuneTreeId>(v, "id")?;
        let raw_description = field::<String>(v, "rawDescription")?;
        let raw_display_name = field::<String>(v, "rawDisplayName")?;
        Some(RuneTree { display_name, id, raw_description, raw_display_name })
    }
}

pub type StatRuneId = i32;

/// One stat rune.
#[derive(Debug, Clone, PartialEq, Eq)]
pub struct StatRune {
    pub id: StatRuneId,
    pub raw_description: String,
}

/// An object with the members `id`, `rawDescription`.
impl FromJson for StatRune {
    open spec fn fits(v: serde_json::Value) -> bool {
        &&& has::<StatRuneId>(v, "id"@)
        &&& has::<String>(v, "rawDescription"@)
    }

    open spec fn read_from(self, v: serde_json::Value) -> bool {
        &&& holds(self.id, v, "id"@)
        &&& holds(self.raw_description, v, "rawDescription"@)
    }

    fn decode(v: &serde_json::Value) -> (r: Option<StatRune>) {
        let id = field::<StatRuneId>(v, "id")?;
        let raw_description = field::<String>(v, "rawDescription")?;
        Some(StatRune { id, raw_description })
    }
}

pub type ChampionName = String;

pub type SkinName = String;

pub type SkinId = i32;

/// One player of the running game.
#[derive(Debug, Clone, PartialEq, Eq)]
pub struct Player {
    pub champion_name: ChampionName,
    pub is_bot: bool,
    pub is_dead: bool,
    pub items: Vec<PlayerItem>,
    pub level: Level,
    pub position: Position,
    pub raw_champion_name: String,
    pub respawn_timer: Time,
    pub runes: Option<PlayerRunes>,
    pub scores: PlayerScores,
    /// `None` for a spectator.
    pub raw_skin_name: Option<String>,
    /// `None` for a spectator.
    pub skin_name: Option<SkinName>,
    pub skin_id: SkinId,
    pub summoner_name: SummonerName,
    pub summoner_spells: SummonerSpells,
    pub team: TeamId,
}

/// An object with the members `championName`, `isBot`, `isDead`, `items`, `level`, `position`,
/// `rawChampionName`, `respawnTimer`, `runes`, `scores`, `rawSkinName`, `skinName`, `skinID`,
/// `summonerName`, `summonerSpells`, `team`.
impl FromJson for Player {
    open spec fn fits(v: serde_json::Value) -> bool {
        &&& has::<ChampionName>(v, "championName"@)
        &&& has::<bool>(v, "isBot"@)
        &&& has::<bool>(v, "isDead"@)
        &&& has::<Vec<PlayerItem>>(v, "items"@)
        &&& has::<Level>(v, "level"@)
        &&& has::<Position>(v, "position"@)
        &&& has::<String>(v, "rawChampionName"@)
        &&& has::<Time>(v, "respawnTimer"@)
        &&& may_have::<PlayerRunes>(v, "runes"@)
        &&& has::<PlayerScores>(v, "scores"@)
        &&& may_have::<String>(v, "rawSkinName"@)
        &&& may_have::<SkinName>(v, "skinName"@)
        &&& has::<SkinId>(v, "skinID"@)
        &&& has::<SummonerName>(v, "summonerName"@)
        &&& has::<SummonerSpells>(v, "summonerSpells"@)
        &&& has::<TeamId>(v, "team"@)
    }

    open spec fn read_from(self, v: serde_json::Value) -> bool {
        &&& holds(self.champion_name, v, "championName"@)
        &&& holds(self.is_bot, v, "isBot"@)
        &&& holds(self.is_dead, v, "isDead"@)
        &&& holds(self.items, v, "items"@)
        &&& holds(self.level, v, "level"@)
        &&& holds(self.position, v, "position"@)
        &&& holds(self.raw_champion_name, v, "rawChampionName"@)
        &&& holds(self.respawn_timer, v, "respawnTimer"@)
        &&& may_hold(self.runes, v, "runes"@)
        &&& holds(self.scores, v, "scores"@)
        &&& may_hold(self.raw_skin_name, v, "rawSkinName"@)
        &&& may_hold(self.skin_name, v, "skinName"@)
        &&& holds(self.skin_id, v, "skinID"@)
        &&& holds(self.summoner_name, v, "summonerName"@)
        &&& holds(self.summoner_spells, v, "summonerSpells"@)
        &&& holds(self.team, v, "team"@)
    }

    fn decode(v: &serde_json::Value) -> (r: Option<Player>) {
        let champion_name = field::<ChampionName>(v, "championName")?;
        let is_bot = field::<bool>(v, "isBot")?;
        let is_dead = field::<bool>(v, "isDead")?;
        let items = field::<Vec<PlayerItem>>(v, "items")?;
        let level = field::<Level>(v, "level")?;
        let position = field::<Position>(v, "position")?;
        let raw_champion_name = field::<String>(v, "rawChampionName")?;
        let respawn_timer = field::<Time>(v, "respawnTimer")?;
        let runes = optional_field::<PlayerRunes>(v, "runes")?;
        let scores = field::<PlayerScores>(v, "scores")?;
        let raw_skin_name = optional_field::<String>(v, "rawSkinName")?;
        let skin_name = optional_field::<SkinName>(v, "skinName")?;
        let skin_id = field::<SkinId>(v, "skinID")?;
        let summoner_name = field::<SummonerName>(v, "summonerName")?;
        let summoner_spells = field::<SummonerSpells>(v, "summonerSpells")?;
        let team = field::<TeamId>(v, "team")?;
        Some(
            Player {
                champion_name,
                is_bot,
                is_dead,
                items,
                level,
                position,
                raw_champion_name,
                respawn_timer,
                runes,
                scores,
                raw_skin_name,
                skin_name,
                skin_id,
                summoner_name,
                summoner_spells,
                team,
            },
        )
    }
}

pub type ItemCount = i32;

pub type ItemName = String;

pub type ItemId = i32;

pub type Price = i32;

pub type ItemSlot = i32;

/// One item of a player.
#[derive(Debug, Clone, PartialEq, Eq)]
pub struct PlayerItem {
    pub can_use: bool,
    pub consumable: bool,
    pub count: ItemCount,
    pub display_name: ItemName,
    pub item_id: ItemId,
    pub price: Price,
    pub raw_description: String,
    pub raw_display_name: String,
    pub slot: ItemSlot,
}

/// An object with the members `canUse`, `consumable`, `count`, `displayName`, `itemID`,
/// `price`, `rawDescription`, `rawDisplayName`, `slot`.
impl FromJson for PlayerItem {
    open spec fn fits(v: serde_json::Value) -> bool {
        &&& has::<bool>(v, "canUse"@)
        &&& has::<bool>(v, "consumable"@)
        &&& has::<ItemCount>(v, "count"@)
        &&& has::<ItemName>(v, "displayName"@)
        &&& has::<ItemId>(v, "itemID"@)
        &&& has::<Price>(v, "price"@)
        &&& has::<String>(v, "rawDescription"@)
        &&& has::<String>(v, "rawDisplayName"@)
        &&& has::<ItemSlot>(v, "slot"@)
    }

    open spec fn read_from(self, v: serde_json::Value) -> bool {
        &&& holds(self.can_use, v, "canUse"@)
        &&& holds(self.consumable, v, "consumable"@)
        &&& holds(self.count, v, "count"@)
        &&& holds(self.display_name, v, "displayName"@)
        &&& holds(self.item_id, v, "itemID"@)
        &&& holds(self.price, v, "price"@)
        &&& holds(self.raw_description, v, "rawDescription"@)
        &&& holds(self.raw_display_name, v, "rawDisplayName"@)
        &&& holds(self.slot, v, "slot"@)
    }

    fn decode(v: &serde_json::Value) -> (r: Option<PlayerItem>) {
        let can_use = field::<bool>(v, "canUse")?;
        let consumable = field::<bool>(v, "consumable")?;
        let count = field::<ItemCount>(v, "count")?;
        let display_name = field::<ItemName>(v, "displayName")?;
        let item_id = field::<ItemId>(v, "itemID")?;
        let price = field::<Price>(v, "price")?;
        let raw_description = field::<String>(v, "rawDescription")?;
        let raw_display_name = field::<String>(v, "rawDisplayName")?;
        let slot = field::<ItemSlot>(v, "slot")?;
        Some(
            PlayerItem {
                can_use,
                consumable,
                count,
                display_name,
                item_id,
                price,
                raw_description,
                raw_display_name,
                slot,
            },
        )
    }
}

/// The lane or role that a player was assigned.
#[derive(Debug, Clone, Copy, PartialEq, Eq, Structural)]
pub enum Position {
    Top,
    Jungle,
    Middle,
    Bottom,
    Utility,
    /// No position was assigned; written `NONE`.
    Unassigned,
    /// Any text that the vocabulary does not list.
    Unknown,
}

impl Position {
    /// The variant that the client writes as `name`; `None` where it writes none so.
    pub open spec fn known(name: Seq<char>) -> Option<Position> {
        if name == "TOP"@ {
            Some(Position::Top)
        } else if name == "JUNGLE"@ {
            Some(Position::Jungle)
        } else if name == "MIDDLE"@ {
            Some(Position::Middle)
        } else if name == "BOTTOM"@ {
            Some(Position::Bottom)
        } else if name == "UTILITY"@ {
            Some(Position::Utility)
        } else if name == "NONE"@ {
            Some(Position::Unassigned)
        } else {
            None
        }
    }

    /// The variant that stands for `name`: the known one, or `Unknown` for any other text.
    pub open spec fn decoded(name: Seq<char>) -> Position {
        match Self::known(name) {
            Some(v) => v,
            None => Position::Unknown,
        }
    }

    /// What `name()` returns.
    pub open spec fn label(self) -> Seq<char> {
        match self {
            Position::Top => "Top"@,
            Position::Jungle => "Jungle"@,
            Position::Middle => "Middle"@,
            Position::Bottom => "Bottom"@,
            Position::Utility => "Utility"@,
            Position::Unassigned => "None"@,
            Position::Unknown => "Unknown"@,
        }
    }

    /// Looks `name` up in the vocabulary.
    pub fn lookup(name: &str) -> (r: Option<Position>)
        ensures
            r == Self::known(name@),
    {
        let chars = chars_of(name);
        if spells(&chars, "TOP") {
            Some(Position::Top)
        } else if spells(&chars, "JUNGLE") {
            Some(Position::Jungle)
        } else if spells(&chars, "MIDDLE") {
            Some(Position::Middle)
        } else if spells(&chars, "BOTTOM") {
            Some(Position::Bottom)
        } else if spells(&chars, "UTILITY") {
            Some(Position::Utility)
        } else if spells(&chars, "NONE") {
            Some(Position::Unassigned)
        } else {
            None
        }
    }

    /// Decodes `name`; a text outside the vocabulary gives `Unknown`, never a failure.
    pub fn from_wire(name: &str) -> (r: Position)
        ensures
            r == Self::decoded(name@),
    {
        match Self::lookup(name) {
            Some(v) => v,
            None => Position::Unknown,
        }
    }

    /// The variant's name.
    pub fn name(&self) -> (r: &'static str)
        ensures
            r@ == self.label(),
    {
        match self {
            Position::Top => "Top",
            Position::Jungle => "Jungle",
            Position::Middle => "Middle",
            Position::Bottom => "Bottom",
            Position::Utility => "Utility",
            Position::Unassigned => "None",
            Position::Unknown => "Unknown",
        }
    }
}

/// A string; one outside the vocabulary is read as `Unknown`.
impl FromJson for Position {
    open spec fn fits(v: serde_json::Value) -> bool {
        json_text(v) is Some
    }

    open spec fn read_from(self, v: serde_json::Value) -> bool {
        json_text(v) matches Some(name) && self == Self::decoded(name)
    }

    fn decode(v: &serde_json::Value) -> (r: Option<Position>) {
        Some(Self::from_wire(v.as_str()?))
    }
}

pub type Kills = i32;

pub type Deaths = i32;

pub type Assists = i32;

pub type CreepScore = i32;

pub type WardScore = Real;

/// The scores of a player.
#[derive(Debug, Clone, PartialEq, Eq)]
pub struct PlayerScores {
    pub kills: Kills,
    pub deaths: Deaths,
    pub assists: Assists,
    pub creep_score: CreepScore,
    pub ward_score: WardScore,
}

/// An object with the members `kills`, `deaths`, `assists`, `creepScore`, `wardScore`.
impl FromJson for PlayerScores {
    open spec fn fits(v: serde_json::Value) -> bool {
        &&& has::<Kills>(v, "kills"@)
        &&& has::<Deaths>(v, "deaths"@)
        &&& has::<Assists>(v, "assists"@)
        &&& has::<CreepScore>(v, "creepScore"@)
        &&& has::<WardScore>(v, "wardScore"@)
    }

    open spec fn read_from(self, v: serde_json::Value) -> bool {
        &&& holds(self.kills, v, "kills"@)
        &&& holds(self.deaths, v, "deaths"@)
        &&& holds(self.assists, v, "assists"@)
        &&& holds(self.creep_score, v, "creepScore"@)
        &&& holds(self.ward_score, v, "wardScore"@)
    }

    fn decode(v: &serde_json::Value) -> (r: Option<PlayerScores>) {
        let kills = field::<Kills>(v, "kills")?;
        let deaths = field::<Deaths>(v, "deaths")?;
        let assists = field::<Assists>(v, "assists")?;
        let creep_score = field::<CreepScore>(v, "creepScore")?;
        let ward_score = field::<WardScore>(v, "wardScore")?;
        Some(PlayerScores { kills, deaths, assists, creep_score, ward_score })
    }
}

/// The two summoner spells of a player, or the sign that there are none.
///
/// The two shapes are tried in this order. The first is an object with the members
/// `summoner_spell_one` and `summoner_spell_two`; any other object is the second.
#[derive(Debug, Clone, PartialEq, Eq)]
pub enum SummonerSpells {
    SummonerSpells { summoner_spell_one: SummonerSpell, summoner_spell_two: SummonerSpell },
    NoSummonerSpells {},
}

impl SummonerSpells {
    /// The object `v` has both members of `SummonerSpells`.
    pub open spec fn has_spells(v: serde_json::Value) -> bool {
        &&& has::<SummonerSpell>(v, "summoner_spell_one"@)
        &&& has::<SummonerSpell>(v, "summoner_spell_two"@)
    }

    /// Reads the shape `SummonerSpells`.
    fn decode_spells(v: &serde_json::Value) -> (r: Option<SummonerSpells>)
        ensures
            r is Some <==> Self::has_spells(*v),
            r matches Some(spells) ==> spells is SummonerSpells && spells.read_from(*v),
    {
        let summoner_spell_one = field::<SummonerSpell>(v, "summoner_spell_one")?;
        let summoner_spell_two = field::<SummonerSpell>(v, "summoner_spell_two")?;
        Some(SummonerSpells::SummonerSpells { summoner_spell_one, summoner_spell_two })
    }
}

/// An object: one with both members of `SummonerSpells` holds them, any other holds
/// `NoSummonerSpells`.
impl FromJson for SummonerSpells {
    open spec fn fits(v: serde_json::Value) -> bool {
        Self::has_spells(v) || json_is_object(v)
    }

    open spec fn read_from(self, v: serde_json::Value) -> bool {
        match self {
            SummonerSpells::SummonerSpells { summoner_spell_one, summoner_spell_two } => {
                &&& holds(summoner_spell_one, v, "summoner_spell_one"@)
                &&& holds(summoner_spell_two, v, "summoner_spell_two"@)
            },
            SummonerSpells::NoSummonerSpells {} => !Self::has_spells(v) && json_is_object(v),
        }
    }

    fn decode(v: &serde_json::Value) -> (r: Option<SummonerSpells>) {
        match Self::decode_spells(v) {
            Some(spells) => Some(spells),
            None => if v.is_object() {
                Some(SummonerSpells::NoSummonerSpells {})
            } else {
                None
            },
        }
    }
}

pub type SummonerSpellName = String;

/// One summoner spell.
#[derive(Debug, Clone, PartialEq, Eq)]
pub struct SummonerSpell {
    pub display_name: SummonerSpellName,
    pub raw_description: String,
    pub raw_display_name: String,
}

/// An object with the members `displayName`, `rawDescription`, `rawDisplayName`.
impl FromJson for SummonerSpell {
    open spec fn fits(v: serde_json::Value) -> bool {
        &&& has::<SummonerSpellName>(v, "displayName"@)
        &&& has::<String>(v, "rawDescription"@)
        &&& has::<String>(v, "rawDisplayName"@)
    }

    open spec fn read_from(self, v: serde_json::Value) -> bool {
        &&& holds(self.display_name, v, "displayName"@)
        &&& holds(self.raw_description, v, "rawDescription"@)
        &&& holds(self.raw_display_name, v, "rawDisplayName"@)
    }

    fn decode(v: &serde_json::Value) -> (r: Option<SummonerSpell>) {
        let display_name = field::<SummonerSpellName>(v, "displayName")?;
        let raw_description = field::<String>(v, "rawDescription")?;
        let raw_display_name = field::<String>(v, "rawDisplayName")?;
        Some(SummonerSpell { display_name, raw_description, raw_display_name })
    }
}

/// A team of the running game.
#[derive(Debug, Clone, Copy, PartialEq, Eq, Structural)]
pub enum TeamId {
    All,
    /// The blue team, on the left side.
    Order,
    /// The red team, on the right side.
    Chaos,
    Neutral,
    /// Any text that the vocabulary does not list.
    Unknown,
}

impl TeamId {
    /// The variant that the client writes as `name`; `None` where it writes none so.
    pub open spec fn known(name: Seq<char>) -> Option<TeamId> {
        if name == "ALL"@ {
            Some(TeamId::All)
        } else if name == "ORDER"@ {
            Some(TeamId::Order)
        } else if name == "CHAOS"@ {
            Some(TeamId::Chaos)
        } else if name == "NEUTRAL"@ {
            Some(TeamId::Neutral)
        } else {
            None
        }
    }

    /// The variant that stands for `name`: the known one, or `Unknown` for any other text.
    pub open spec fn decoded(name: Seq<char>) -> TeamId {
        match Self::known(name) {
            Some(v) => v,
            None => TeamId::Unknown,
        }
    }

    /// What `name()` returns.
    pub open spec fn label(self) -> Seq<char> {
        match self {
            TeamId::All => "ALL"@,
            TeamId::Order => "ORDER"@,
            TeamId::Chaos => "CHAOS"@,
            TeamId::Neutral => "NEUTRAL"@,
            TeamId::Unknown => "UNKNOWN"@,
        }
    }

    /// Looks `name` up in the vocabulary.
    pub fn lookup(name: &str) -> (r: Option<TeamId>)
        ensures
            r == Self::known(name@),
    {
        let chars = chars_of(name);
        if spells(&chars, "ALL") {
            Some(TeamId::All)
        } else if spells(&chars, "ORDER") {
            Some(TeamId::Order)
        } else if spells(&chars, "CHAOS") {
            Some(TeamId::Chaos)
        } else if spells(&chars, "NEUTRAL") {
            Some(TeamId::Neutral)
        } else {
            None
        }
    }

    /// Decodes `name`; a text outside the vocabulary gives `Unknown`, never a failure.
    pub fn from_wire(name: &str) -> (r: TeamId)
        ensures
            r == Self::decoded(name@),
    {
        match Self::lookup(name) {
            Some(v) => v,
            None => TeamId::Unknown,
        }
    }

    /// The team as a query parameter writes it: its wire name, in capitals.
    pub fn name(&self) -> (r: &'static str)
        ensures
            r@ == self.label(),
    {
        match self {
            TeamId::All => "ALL",
            TeamId::Order => "ORDER",
            TeamId::Chaos => "CHAOS",
            TeamId::Neutral => "NEUTRAL",
            TeamId::Unknown => "UNKNOWN",
        }
    }
}

/// A string; one outside the vocabulary is read as `Unknown`.
impl FromJson for TeamId {
    open spec fn fits(v: serde_json::Value) -> bool {
        json_text(v) is Some
    }

    open spec fn read_from(self, v: serde_json::Value) -> bool {
        json_text(v) matches Some(name) && self == Self::decoded(name)
    }

    fn decode(v: &serde_json::Value) -> (r: Option<TeamId>) {
        Some(Self::from_wire(v.as_str()?))
    }
}

/// The running number of an event; the telemetry endpoint counts from zero.
pub type EventId = u32;

/// The answer to a query for events: the events, under `Events`.
#[derive(Debug, Clone, PartialEq, Eq)]
pub struct IngameEvents {
    pub events: Vec<GameEvent>,
}

/// An object with the member `Events`.
impl FromJson for IngameEvents {
    open spec fn fits(v: serde_json::Value) -> bool {
        &&& has::<Vec<GameEvent>>(v, "Events"@)
    }

    open spec fn read_from(self, v: serde_json::Value) -> bool {
        &&& holds(self.events, v, "Events"@)
    }

    fn decode(v: &serde_json::Value) -> (r: Option<IngameEvents>) {
        let events = field::<Vec<GameEvent>>(v, "Events")?;
        Some(IngameEvents { events })
    }
}

/// One event of the running game, as the telemetry endpoint reports it.
///
/// Each kind carries the event's identifier and its time; the rest differs by kind.
#[derive(Debug, Clone, PartialEq, Eq)]
pub enum GameEvent {
    Ace(Ace),
    HordeKill(HordeKill),
    BaronKill(BaronKill),
    ChampionKill(ChampionKill),
    DragonKill(DragonKill),
    FirstBlood(FirstBlood),
    FirstBrick(FirstBrick),
    GameEnd(GameEnd),
    GameStart(GameStart),
    HeraldKill(HeraldKill),
    InhibKilled(InhibKilled),
    InhibRespawned(InhibRespawned),
    InhibRespawningSoon(InhibRespawningSoon),
    MinionsSpawning(MinionsSpawning),
    Multikill(Multikill),
    TurretKilled(TurretKilled),
}

impl GameEvent {
    /// The event's identifier.
    pub open spec fn id(self) -> EventId {
        match self {
            GameEvent::Ace(e) => e.event_id,
            GameEvent::HordeKill(e) => e.event_id,
            GameEvent::BaronKill(e) => e.event_id,
            GameEvent::ChampionKill(e) => e.event_id,
            GameEvent::DragonKill(e) => e.event_id,
            GameEvent::FirstBlood(e) => e.event_id,
            GameEvent::FirstBrick(e) => e.event_id,
            GameEvent::GameEnd(e) => e.event_id,
            GameEvent::GameStart(e) => e.event_id,
            GameEvent::HeraldKill(e) => e.event_id,
            GameEvent::InhibKilled(e) => e.event_id,
            GameEvent::InhibRespawned(e) => e.event_id,
            GameEvent::InhibRespawningSoon(e) => e.event_id,
            GameEvent::MinionsSpawning(e) => e.event_id,
            GameEvent::Multikill(e) => e.event_id,
            GameEvent::TurretKilled(e) => e.event_id,
        }
    }

    /// The event's time.
    pub open spec fn time(self) -> Time {
        match self {
            GameEvent::Ace(e) => e.event_time,
            GameEvent::HordeKill(e) => e.event_time,
            GameEvent::BaronKill(e) => e.event_time,
            GameEvent::ChampionKill(e) => e.event_time,
            GameEvent::DragonKill(e) => e.event_time,
            GameEvent::FirstBlood(e) => e.event_time,
            GameEvent::FirstBrick(e) => e.event_time,
            GameEvent::GameEnd(e) => e.event_time,
            GameEvent::GameStart(e) => e.event_time,
            GameEvent::HeraldKill(e) => e.event_time,
            GameEvent::InhibKilled(e) => e.event_time,
            GameEvent::InhibRespawned(e) => e.event_time,
            GameEvent::InhibRespawningSoon(e) => e.event_time,
            GameEvent::MinionsSpawning(e) => e.event_time,
            GameEvent::Multikill(e) => e.event_time,
            GameEvent::TurretKilled(e) => e.event_time,
        }
    }

    /// The event's identifier.
    pub fn get_event_id(&self) -> (r: EventId)
        ensures
            r == self.id(),
    {
        match self {
            GameEvent::Ace(e) => e.event_id,
            GameEvent::HordeKill(e) => e.event_id,
            GameEvent::BaronKill(e) => e.event_id,
            GameEvent::ChampionKill(e) => e.event_id,
            GameEvent::DragonKill(e) => e.event_id,
            GameEvent::FirstBlood(e) => e.event_id,
            GameEvent::FirstBrick(e) => e.event_id,
            GameEvent::GameEnd(e) => e.event_id,
            GameEvent::GameStart(e) => e.event_id,
            GameEvent::HeraldKill(e) => e.event_id,
            GameEvent::InhibKilled(e) => e.event_id,
            GameEvent::InhibRespawned(e) => e.event_id,
            GameEvent::InhibRespawningSoon(e) => e.event_id,
            GameEvent::MinionsSpawning(e) => e.event_id,
            GameEvent::Multikill(e) => e.event_id,
            GameEvent::TurretKilled(e) => e.event_id,
        }
    }

    /// The event's time.
    pub fn get_event_time(&self) -> (r: Time)
        ensures
            r == self.time(),
    {
        match self {
            GameEvent::Ace(e) => e.event_time,
            GameEvent::HordeKill(e) => e.event_time,
            GameEvent::BaronKill(e) => e.event_time,
            GameEvent::ChampionKill(e) => e.event_time,
            GameEvent::DragonKill(e) => e.event_time,
            GameEvent::FirstBlood(e) => e.event_time,
            GameEvent::FirstBrick(e) => e.event_time,
            GameEvent::GameEnd(e) => e.event_time,
            GameEvent::GameStart(e) => e.event_time,
            GameEvent::HeraldKill(e) => e.event_time,
            GameEvent::InhibKilled(e) => e.event_time,
            GameEvent::InhibRespawned(e) => e.event_time,
            GameEvent::InhibRespawningSoon(e) => e.event_time,
            GameEvent::MinionsSpawning(e) => e.event_time,
            GameEvent::Multikill(e) => e.event_time,
            GameEvent::TurretKilled(e) => e.event_time,
        }
    }
}

/// An object that names a kind of event under `EventName` and holds that kind's record.
/// The kinds are tried by name in the order of the variants; an object without a name, or
/// with the name of no kind, holds no event.
impl FromJson for GameEvent {
    open spec fn fits(v: serde_json::Value) -> bool {
        match text_at(v, "EventName"@) {
            Some(tag) => if tag == "Ace"@ {
                Ace::fits(v)
            } else if tag == "HordeKill"@ {
                HordeKill::fits(v)
            } else if tag == "BaronKill"@ {
                BaronKill::fits(v)
            } else if tag == "ChampionKill"@ {
                ChampionKill::fits(v)
            } else if tag == "DragonKill"@ {
                DragonKill::fits(v)
            } else if tag == "FirstBlood"@ {
                FirstBlood::fits(v)
            } else if tag == "FirstBrick"@ {
                FirstBrick::fits(v)
            } else if tag == "GameEnd"@ {
                GameEnd::fits(v)
            } else if tag == "GameStart"@ {
                GameStart::fits(v)
            } else if tag == "HeraldKill"@ {
                HeraldKill::fits(v)
            } else if tag == "InhibKilled"@ {
                InhibKilled::fits(v)
            } else if tag == "InhibRespawned"@ {
                InhibRespawned::fits(v)
            } else if tag == "InhibRespawningSoon"@ {
                InhibRespawningSoon::fits(v)
            } else if tag == "MinionsSpawning"@ {
                MinionsSpawning::fits(v)
            } else if tag == "Multikill"@ {
                Multikill::fits(v)
            } else if tag == "TurretKilled"@ {
                TurretKilled::fits(v)
            } else {
                false
            },
            None => false,
        }
    }

    open spec fn read_from(self, v: serde_json::Value) -> bool {
        text_at(v, "EventName"@) matches Some(tag) && match self {
            GameEvent::Ace(e) => tag == "Ace"@ && e.read_from(v),
            GameEvent::HordeKill(e) => tag == "HordeKill"@ && e.read_from(v),
            GameEvent::BaronKill(e) => tag == "BaronKill"@ && e.read_from(v),
            GameEvent::ChampionKill(e) => tag == "ChampionKill"@ && e.read_from(v),
            GameEvent::DragonKill(e) => tag == "DragonKill"@ && e.read_from(v),
            GameEvent::FirstBlood(e) => tag == "FirstBlood"@ && e.read_from(v),
            GameEvent::FirstBrick(e) => tag == "FirstBrick"@ && e.read_from(v),
            GameEvent::GameEnd(e) => tag == "GameEnd"@ && e.read_from(v),
            GameEvent::GameStart(e) => tag == "GameStart"@ && e.read_from(v),
            GameEvent::HeraldKill(e) => tag == "HeraldKill"@ && e.read_from(v),
            GameEvent::InhibKilled(e) => tag == "InhibKilled"@ && e.read_from(v),
            GameEvent::InhibRespawned(e) => tag == "InhibRespawned"@ && e.read_from(v),
            GameEvent::InhibRespawningSoon(e) => tag == "InhibRespawningSoon"@ && e.read_from(v),
            GameEvent::MinionsSpawning(e) => tag == "MinionsSpawning"@ && e.read_from(v),
            GameEvent::Multikill(e) => tag == "Multikill"@ && e.read_from(v),
            GameEvent::TurretKilled(e) => tag == "TurretKilled"@ && e.read_from(v),
        }
    }

    fn decode(v: &serde_json::Value) -> (r: Option<GameEvent>) {
        let tag = chars_of(field::<String>(v, "EventName")?.as_str());
        if spells(&tag, "Ace") {
            Some(GameEvent::Ace(Ace::decode(v)?))
        } else if spells(&tag, "HordeKill") {
            Some(GameEvent::HordeKill(HordeKill::decode(v)?))
        } else if spells(&tag, "BaronKill") {
            Some(GameEvent::BaronKill(BaronKill::decode(v)?))
        } else if spells(&tag, "ChampionKill") {
            Some(GameEvent::ChampionKill(ChampionKill::decode(v)?))
        } else if spells(&tag, "DragonKill") {
            Some(GameEvent::DragonKill(DragonKill::decode(v)?))
        } else if spells(&tag, "FirstBlood") {
            Some(GameEvent::FirstBlood(FirstBlood::decode(v)?))
        } else if spells(&tag, "FirstBrick") {
            Some(GameEvent::FirstBrick(FirstBrick::decode(v)?))
        } else if spells(&tag, "GameEnd") {
            Some(GameEvent::GameEnd(GameEnd::decode(v)?))
        } else if spells(&tag, "GameStart") {
            Some(GameEvent::GameStart(GameStart::decode(v)?))
        } else if spells(&tag, "HeraldKill") {
            Some(GameEvent::HeraldKill(HeraldKill::decode(v)?))
        } else if spells(&tag, "InhibKilled") {
            Some(GameEvent::InhibKilled(InhibKilled::decode(v)?))
        } else if spells(&tag, "InhibRespawned") {
            Some(GameEvent::InhibRespawned(InhibRespawned::decode(v)?))
        } else if spells(&tag, "InhibRespawningSoon") {
            Some(GameEvent::InhibRespawningSoon(InhibRespawningSoon::decode(v)?))
        } else if spells(&tag, "MinionsSpawning") {
            Some(GameEvent::MinionsSpawning(MinionsSpawning::decode(v)?))
        } else if spells(&tag, "Multikill") {
            Some(GameEvent::Multikill(Multikill::decode(v)?))
        } else if spells(&tag, "TurretKilled") {
            Some(GameEvent::TurretKilled(TurretKilled::decode(v)?))
        } else {
            None
        }
    }
}

/// A team has been wiped out.
#[derive(Debug, Clone, PartialEq, Eq)]
pub struct Ace {
    pub acer: SummonerName,
    pub acing_team: TeamId,
    pub event_id: EventId,
    pub event_time: Time,
}

/// An object with the members `Acer`, `AcingTeam`, `EventID`, `EventTime`.
impl FromJson for Ace {
    open spec fn fits(v: serde_json::Value) -> bool {
        &&& has::<SummonerName>(v, "Acer"@)
        &&& has::<TeamId>(v, "AcingTeam"@)
        &&& has::<EventId>(v, "EventID"@)
        &&& has::<Time>(v, "EventTime"@)
    }

    open spec fn read_from(self, v: serde_json::Value) -> bool {
        &&& holds(self.acer, v, "Acer"@)
        &&& holds(self.acing_team, v, "AcingTeam"@)
        &&& holds(self.event_id, v, "EventID"@)
        &&& holds(self.event_time, v, "EventTime"@)
    }

    fn decode(v: &serde_json::Value) -> (r: Option<Ace>) {
        let acer = field::<SummonerName>(v, "Acer")?;
        let acing_team = field::<TeamId>(v, "AcingTeam")?;
        let event_id = field::<EventId>(v, "EventID")?;
        let event_time = field::<Time>(v, "EventTime")?;
        Some(Ace { acer, acing_team, event_id, event_time })
    }
}

/// A camp of void grubs has been killed.
#[derive(Debug, Clone, PartialEq, Eq)]
pub struct HordeKill {
    pub assisters: Vec<SummonerName>,
    pub event_id: EventId,
    pub event_time: Time,
    pub killer_name: Killer,
    /// Whether the kill was taken from the other team. The client writes `True` or `False`.
    pub stolen: bool,
}

/// An object with the members `Assisters`, `EventID`, `EventTime`, `KillerName`, `Stolen`.
impl FromJson for HordeKill {
    open spec fn fits(v: serde_json::Value) -> bool {
        &&& has::<Vec<SummonerName>>(v, "Assisters"@)
        &&& has::<EventId>(v, "EventID"@)
        &&& has::<Time>(v, "EventTime"@)
        &&& has::<Killer>(v, "KillerName"@)
        &&& has_flag_word(v, "Stolen"@)
    }

    open spec fn read_from(self, v: serde_json::Value) -> bool {
        &&& holds(self.assisters, v, "Assisters"@)
        &&& holds(self.event_id, v, "EventID"@)
        &&& holds(self.event_time, v, "EventTime"@)
        &&& holds(self.killer_name, v, "KillerName"@)
        &&& holds_flag_word(self.stolen, v, "Stolen"@)
    }

    fn decode(v: &serde_json::Value) -> (r: Option<HordeKill>) {
        let assisters = field::<Vec<SummonerName>>(v, "Assisters")?;
        let event_id = field::<EventId>(v, "EventID")?;
        let event_time = field::<Time>(v, "EventTime")?;
        let killer_name = field::<Killer>(v, "KillerName")?;
        let stolen = flag_word_field(v, "Stolen")?;
        Some(HordeKill { assisters, event_id, event_time, killer_name, stolen })
    }
}

/// The baron has been killed.
#[derive(Debug, Clone, PartialEq, Eq)]
pub struct BaronKill {
    pub assisters: Vec<SummonerName>,
    pub event_id: EventId,
    pub event_time: Time,
    pub killer_name: Killer,
    /// Whether the kill was taken from the other team. The client writes `True` or `False`.
    pub stolen: bool,
}

/// An object with the members `Assisters`, `EventID`, `EventTime`, `KillerName`, `Stolen`.
impl FromJson for BaronKill {
    open spec fn fits(v: serde_json::Value) -> bool {
        &&& has::<Vec<SummonerName>>(v, "Assisters"@)
        &&& has::<EventId>(v, "EventID"@)
        &&& has::<Time>(v, "EventTime"@)
        &&& has::<Killer>(v, "KillerName"@)
        &&& has_flag_word(v, "Stolen"@)
    }

    open spec fn read_from(self, v: serde_json::Value) -> bool {
        &&& holds(self.assisters, v, "Assisters"@)
        &&& holds(self.event_id, v, "EventID"@)
        &&& holds(self.event_time, v, "EventTime"@)
        &&& holds(self.killer_name, v, "KillerName"@)
        &&& holds_flag_word(self.stolen, v, "Stolen"@)
    }

    fn decode(v: &serde_json::Value) -> (r: Option<BaronKill>) {
        let assisters = field::<Vec<SummonerName>>(v, "Assisters")?;
        let event_id = field::<EventId>(v, "EventID")?;
        let event_time = field::<Time>(v, "EventTime")?;
        let killer_name = field::<Killer>(v, "KillerName")?;
        let stolen = flag_word_field(v, "Stolen")?;
        Some(BaronKill { assisters, event_id, event_time, killer_name, stolen })
    }
}

/// A champion has been killed.
#[derive(Debug, Clone, PartialEq, Eq)]
pub struct ChampionKill {
    pub assisters: Vec<SummonerName>,
    pub event_id: EventId,
    pub event_time: Time,
    pub killer_name: Killer,
    pub victim_name: SummonerName,
}

/// An object with the members `Assisters`, `EventID`, `EventTime`, `KillerName`, `VictimName`.
impl FromJson for ChampionKill {
    open spec fn fits(v: serde_json::Value) -> bool {
        &&& has::<Vec<SummonerName>>(v, "Assisters"@)
        &&& has::<EventId>(v, "EventID"@)
        &&& has::<Time>(v, "EventTime"@)
        &&& has::<Killer>(v, "KillerName"@)
        &&& has::<SummonerName>(v, "VictimName"@)
    }

    open spec fn read_from(self, v: serde_json::Value) -> bool {
        &&& holds(self.assisters, v, "Assisters"@)
        &&& holds(self.event_id, v, "EventID"@)
        &&& holds(self.event_time, v, "EventTime"@)
        &&& holds(self.killer_name, v, "KillerName"@)
        &&& holds(self.victim_name, v, "VictimName"@)
    }

    fn decode(v: &serde_json::Value) -> (r: Option<ChampionKill>) {
        let assisters = field::<Vec<SummonerName>>(v, "Assisters")?;
        let event_id = field::<EventId>(v, "EventID")?;
        let event_time = field::<Time>(v, "EventTime")?;
        let killer_name = field::<Killer>(v, "KillerName")?;
        let victim_name = field::<SummonerName>(v, "VictimName")?;
        Some(ChampionKill { assisters, event_id, event_time, killer_name, victim_name })
    }
}

/// A dragon has been killed.
#[derive(Debug, Clone, PartialEq, Eq)]
pub struct DragonKill {
    pub assisters: Vec<SummonerName>,
    pub dragon_type: DragonType,
    pub event_id: EventId,
    pub event_time: Time,
    pub killer_name: Killer,
    /// Whether the kill was taken from the other team. The client writes `True` or `False`.
    pub stolen: bool,
}

/// An object with the members `Assisters`, `DragonType`, `EventID`, `EventTime`, `KillerName`,
/// `Stolen`.
impl FromJson for DragonKill {
    open spec fn fits(v: serde_json::Value) -> bool {
        &&& has::<Vec<SummonerName>>(v, "Assisters"@)
        &&& has::<DragonType>(v, "DragonType"@)
        &&& has::<EventId>(v, "EventID"@)
        &&& has::<Time>(v, "EventTime"@)
        &&& has::<Killer>(v, "KillerName"@)
        &&& has_flag_word(v, "Stolen"@)
    }

    open spec fn read_from(self, v: serde_json::Value) -> bool {
        &&& holds(self.assisters, v, "Assisters"@)
        &&& holds(self.dragon_type, v, "DragonType"@)
        &&& holds(self.event_id, v, "EventID"@)
        &&& holds(self.event_time, v, "EventTime"@)
        &&& holds(self.killer_name, v, "KillerName"@)
        &&& holds_flag_word(self.stolen, v, "Stolen"@)
    }

    fn decode(v: &serde_json::Value) -> (r: Option<DragonKill>) {
        let assisters = field::<Vec<SummonerName>>(v, "Assisters")?;
        let dragon_type = field::<DragonType>(v, "DragonType")?;
        let event_id = field::<EventId>(v, "EventID")?;
        let event_time = field::<Time>(v, "EventTime")?;
        let killer_name = field::<Killer>(v, "KillerName")?;
        let stolen = flag_word_field(v, "Stolen")?;
        Some(DragonKill { assisters, dragon_type, event_id, event_time, killer_name, stolen })
    }
}

/// The first kill of the game.
#[derive(Debug, Clone, PartialEq, Eq)]
pub struct FirstBlood {
    pub event_id: EventId,
    pub event_time: Time,
    pub recipient: String,
}

/// An object with the members `EventID`, `EventTime`, `Recipient`.
impl FromJson for FirstBlood {
    open spec fn fits(v: serde_json::Value) -> bool {
        &&& has::<EventId>(v, "EventID"@)
        &&& has::<Time>(v, "EventTime"@)
        &&& has::<String>(v, "Recipient"@)
    }

    open spec fn read_from(self, v: serde_json::Value) -> bool {
        &&& holds(self.event_id, v, "EventID"@)
        &&& holds(self.event_time, v, "EventTime"@)
        &&& holds(self.recipient, v, "Recipient"@)
    }

    fn decode(v: &serde_json::Value) -> (r: Option<FirstBlood>) {
        let event_id = field::<EventId>(v, "EventID")?;
        let event_time = field::<Time>(v, "EventTime")?;
        let recipient = field::<String>(v, "Recipient")?;
        Some(FirstBlood { event_id, event_time, recipient })
    }
}

/// The first turret of the game has fallen.
#[derive(Debug, Clone, PartialEq, Eq)]
pub struct FirstBrick {
    pub event_id: EventId,
    pub event_time: Time,
    pub killer_name: Killer,
}

/// An object with the members `EventID`, `EventTime`, `KillerName`.
impl FromJson for FirstBrick {
    open spec fn fits(v: serde_json::Value) -> bool {
        &&& has::<EventId>(v, "EventID"@)
        &&& has::<Time>(v, "EventTime"@)
        &&& has::<Killer>(v, "KillerName"@)
    }

    open spec fn read_from(self, v: serde_json::Value) -> bool {
        &&& holds(self.event_id, v, "EventID"@)
        &&& holds(self.event_time, v, "EventTime"@)
        &&& holds(self.killer_name, v, "KillerName"@)
    }

    fn decode(v: &serde_json::Value) -> (r: Option<FirstBrick>) {
        let event_id = field::<EventId>(v, "EventID")?;
        let event_time = field::<Time>(v, "EventTime")?;
        let killer_name = field::<Killer>(v, "KillerName")?;
        Some(FirstBrick { event_id, event_time, killer_name })
    }
}

/// The game is over.
#[derive(Debug, Clone, PartialEq, Eq)]
pub struct GameEnd {
    pub event_id: EventId,
    pub event_time: Time,
    pub result: GameResult,
}

/// An object with the members `EventID`, `EventTime`, `Result`.
impl FromJson for GameEnd {
    open spec fn fits(v: serde_json::Value) -> bool {
        &&& has::<EventId>(v, "EventID"@)
        &&& has::<Time>(v, "EventTime"@)
        &&& has::<GameResult>(v, "Result"@)
    }

    open spec fn read_from(self, v: serde_json::Value) -> bool {
        &&& holds(self.event_id, v, "EventID"@)
        &&& holds(self.event_time, v, "EventTime"@)
        &&& holds(self.result, v, "Result"@)
    }

    fn decode(v: &serde_json::Value) -> (r: Option<GameEnd>) {
        let event_id = field::<EventId>(v, "EventID")?;
        let event_time = field::<Time>(v, "EventTime")?;
        let result = field::<GameResult>(v, "Result")?;
        Some(GameEnd { event_id, event_time, result })
    }
}

/// The game has started.
#[derive(Debug, Clone, PartialEq, Eq)]
pub struct GameStart {
    pub event_id: EventId,
    pub event_time: Time,
}

/// An object with the members `EventID`, `EventTime`.
impl FromJson for GameStart {
    open spec fn fits(v: serde_json::Value) -> bool {
        &&& has::<EventId>(v, "EventID"@)
        &&& has::<Time>(v, "EventTime"@)
    }

    open spec fn read_from(self, v: serde_json::Value) -> bool {
        &&& holds(self.event_id, v, "EventID"@)
        &&& holds(self.event_time, v, "EventTime"@)
    }

    fn decode(v: &serde_json::Value) -> (r: Option<GameStart>) {
        let event_id = field::<EventId>(v, "EventID")?;
        let event_time = field::<Time>(v, "EventTime")?;
        Some(GameStart { event_id, event_time })
    }
}

/// The rift herald has been killed.
#[derive(Debug, Clone, PartialEq, Eq)]
pub struct HeraldKill {
    pub assisters: Vec<SummonerName>,
    pub event_id: EventId,
    pub event_time: Time,
    pub killer_name: Killer,
    /// Whether the kill was taken from the other team. The client writes `True` or `False`.
    pub stolen: bool,
}

/// An object with the members `Assisters`, `EventID`, `EventTime`, `KillerName`, `Stolen`.
impl FromJson for HeraldKill {
    open spec fn fits(v: serde_json::Value) -> bool {
        &&& has::<Vec<SummonerName>>(v, "Assisters"@)
        &&& has::<EventId>(v, "EventID"@)
        &&& has::<Time>(v, "EventTime"@)
        &&& has::<Killer>(v, "KillerName"@)
        &&& has_flag_word(v, "Stolen"@)
    }

    open spec fn read_from(self, v: serde_json::Value) -> bool {
        &&& holds(self.assisters, v, "Assisters"@)
        &&& holds(self.event_id, v, "EventID"@)
        &&& holds(self.event_time, v, "EventTime"@)
        &&& holds(self.killer_name, v, "KillerName"@)
        &&& holds_flag_word(self.stolen, v, "Stolen"@)
    }

    fn decode(v: &serde_json::Value) -> (r: Option<HeraldKill>) {
        let assisters = field::<Vec<SummonerName>>(v, "Assisters")?;
        let event_id = field::<EventId>(v, "EventID")?;
        let event_time = field::<Time>(v, "EventTime")?;
        let killer_name = field::<Killer>(v, "KillerName")?;
        let stolen = flag_word_field(v, "Stolen")?;
        Some(HeraldKill { assisters, event_id, event_time, killer_name, stolen })
    }
}

/// An inhibitor has been destroyed.
#[derive(Debug, Clone, PartialEq, Eq)]
pub struct InhibKilled {
    pub assisters: Vec<SummonerName>,
    pub event_id: EventId,
    pub event_time: Time,
    pub inhib_killed: Inhibitor,
    pub killer_name: Killer,
}

/// An object with the members `Assisters`, `EventID`, `EventTime`, `InhibKilled`, `KillerName`.
impl FromJson for InhibKilled {
    open spec fn fits(v: serde_json::Value) -> bool {
        &&& has::<Vec<SummonerName>>(v, "Assisters"@)
        &&& has::<EventId>(v, "EventID"@)
        &&& has::<Time>(v, "EventTime"@)
        &&& has::<Inhibitor>(v, "InhibKilled"@)
        &&& has::<Killer>(v, "KillerName"@)
    }

    open spec fn read_from(self, v: serde_json::Value) -> bool {
        &&& holds(self.assisters, v, "Assisters"@)
        &&& holds(self.event_id, v, "EventID"@)
        &&& holds(self.event_time, v, "EventTime"@)
        &&& holds(self.inhib_killed, v, "InhibKilled"@)
        &&& holds(self.killer_name, v, "KillerName"@)
    }

    fn decode(v: &serde_json::Value) -> (r: Option<InhibKilled>) {
        let assisters = field::<Vec<SummonerName>>(v, "Assisters")?;
        let event_id = field::<EventId>(v, "EventID")?;
        let event_time = field::<Time>(v, "EventTime")?;
        let inhib_killed = field::<Inhibitor>(v, "InhibKilled")?;
        let killer_name = field::<Killer>(v, "KillerName")?;
        Some(InhibKilled { assisters, event_id, event_time, inhib_killed, killer_name })
    }
}

/// An inhibitor is back.
#[derive(Debug, Clone, PartialEq, Eq)]
pub struct InhibRespawned {
    pub event_id: EventId,
    pub event_time: Time,
    pub inhib_respawned: Inhibitor,
}

/// An object with the members `EventID`, `EventTime`, `InhibRespawned`.
impl FromJson for InhibRespawned {
    open spec fn fits(v: serde_json::Value) -> bool {
        &&& has::<EventId>(v, "EventID"@)
        &&& has::<Time>(v, "EventTime"@)
        &&& has::<Inhibitor>(v, "InhibRespawned"@)
    }

    open spec fn read_from(self, v: serde_json::Value) -> bool {
        &&& holds(self.event_id, v, "EventID"@)
        &&& holds(self.event_time, v, "EventTime"@)
        &&& holds(self.inhib_respawned, v, "InhibRespawned"@)
    }

    fn decode(v: &serde_json::Value) -> (r: Option<InhibRespawned>) {
        let event_id = field::<EventId>(v, "EventID")?;
        let event_time = field::<Time>(v, "EventTime")?;
        let inhib_respawned = field::<Inhibitor>(v, "InhibRespawned")?;
        Some(InhibRespawned { event_id, event_time, inhib_respawned })
    }
}

/// An inhibitor will be back shortly.
#[derive(Debug, Clone, PartialEq, Eq)]
pub struct InhibRespawningSoon {
    pub event_id: EventId,
    pub event_time: Time,
    pub inhib_respawning_soon: Inhibitor,
}

/// An object with the members `EventID`, `EventTime`, `InhibRespawningSoon`.
impl FromJson for InhibRespawningSoon {
    open spec fn fits(v: serde_json::Value) -> bool {
        &&& has::<EventId>(v, "EventID"@)
        &&& has::<Time>(v, "EventTime"@)
        &&& has::<Inhibitor>(v, "InhibRespawningSoon"@)
    }

    open spec fn read_from(self, v: serde_json::Value) -> bool {
        &&& holds(self.event_id, v, "EventID"@)
        &&& holds(self.event_time, v, "EventTime"@)
        &&& holds(self.inhib_respawning_soon, v, "InhibRespawningSoon"@)
    }

    fn decode(v: &serde_json::Value) -> (r: Option<InhibRespawningSoon>) {
        let event_id = field::<EventId>(v, "EventID")?;
        let event_time = field::<Time>(v, "EventTime")?;
        let inhib_respawning_soon = field::<Inhibitor>(v, "InhibRespawningSoon")?;
        Some(InhibRespawningSoon { event_id, event_time, inhib_respawning_soon })
    }
}

/// The first wave of minions is leaving the base.
#[derive(Debug, Clone, PartialEq, Eq)]
pub struct MinionsSpawning {
    pub event_id: EventId,
    pub event_time: Time,
}

/// An object with the members `EventID`, `EventTime`.
impl FromJson for MinionsSpawning {
    open spec fn fits(v: serde_json::Value) -> bool {
        &&& has::<EventId>(v, "EventID"@)
        &&& has::<Time>(v, "EventTime"@)
    }

    open spec fn read_from(self, v: serde_json::Value) -> bool {
        &&& holds(self.event_id, v, "EventID"@)
        &&& holds(self.event_time, v, "EventTime"@)
    }

    fn decode(v: &serde_json::Value) -> (r: Option<MinionsSpawning>) {
        let event_id = field::<EventId>(v, "EventID")?;
        let event_time = field::<Time>(v, "EventTime")?;
        Some(MinionsSpawning { event_id, event_time })
    }
}

/// How many champions a multikill took.
pub type KillStreak = i32;

/// A player has killed several champions in a row.
#[derive(Debug, Clone, PartialEq, Eq)]
pub struct Multikill {
    pub event_id: EventId,
    pub event_time: Time,
    pub kill_streak: KillStreak,
    pub killer_name: SummonerName,
}

/// An object with the members `EventID`, `EventTime`, `KillStreak`, `KillerName`.
impl FromJson for Multikill {
    open spec fn fits(v: serde_json::Value) -> bool {
        &&& has::<EventId>(v, "EventID"@)
        &&& has::<Time>(v, "EventTime"@)
        &&& has::<KillStreak>(v, "KillStreak"@)
        &&& has::<SummonerName>(v, "KillerName"@)
    }

    open spec fn read_from(self, v: serde_json::Value) -> bool {
        &&& holds(self.event_id, v, "EventID"@)
        &&& holds(self.event_time, v, "EventTime"@)
        &&& holds(self.kill_streak, v, "KillStreak"@)
        &&& holds(self.killer_name, v, "KillerName"@)
    }

    fn decode(v: &serde_json::Value) -> (r: Option<Multikill>) {
        let event_id = field::<EventId>(v, "EventID")?;
        let event_time = field::<Time>(v, "EventTime")?;
        let kill_streak = field::<KillStreak>(v, "KillStreak")?;
        let killer_name = field::<SummonerName>(v, "KillerName")?;
        Some(Multikill { event_id, event_time, kill_streak, killer_name })
    }
}

/// A turret has been destroyed.
#[derive(Debug, Clone, PartialEq, Eq)]
pub struct TurretKilled {
    pub assisters: Vec<SummonerName>,
    pub event_id: EventId,
    pub event_time: Time,
    pub killer_name: Killer,
    pub turret_killed: Turret,
}

/// An object with the members `Assisters`, `EventID`, `EventTime`, `KillerName`,
/// `TurretKilled`.
impl FromJson for TurretKilled {
    open spec fn fits(v: serde_json::Value) -> bool {
        &&& has::<Vec<SummonerName>>(v, "Assisters"@)
        &&& has::<EventId>(v, "EventID"@)
        &&& has::<Time>(v, "EventTime"@)
        &&& has::<Killer>(v, "KillerName"@)
        &&& has::<Turret>(v, "TurretKilled"@)
    }

    open spec fn read_from(self, v: serde_json::Value) -> bool {
        &&& holds(self.assisters, v, "Assisters"@)
        &&& holds(self.event_id, v, "EventID"@)
        &&& holds(self.event_time, v, "EventTime"@)
        &&& holds(self.killer_name, v, "KillerName"@)
        &&& holds(self.turret_killed, v, "TurretKilled"@)
    }

    fn decode(v: &serde_json::Value) -> (r: Option<TurretKilled>) {
        let assisters = field::<Vec<SummonerName>>(v, "Assisters")?;
        let event_id = field::<EventId>(v, "EventID")?;
        let event_time = field::<Time>(v, "EventTime")?;
        let killer_name = field::<Killer>(v, "KillerName")?;
        let turret_killed = field::<Turret>(v, "TurretKilled")?;
        Some(TurretKilled { assisters, event_id, event_time, killer_name, turret_killed })
    }
}

/// The element of a dragon.
///
/// The client names each element by a short token (`Fire`) and by the name of the
/// monster (`SRU_Dragon_Fire`); both are understood.
#[derive(Debug, Clone, Copy, PartialEq, Eq, Structural)]
pub enum DragonType {
    Infernal,
    Ocean,
    Mountain,
    Cloud,
    Hextech,
    Chemtech,
    Elder,
}

impl DragonType {
    /// The variant that the client writes as `name`; `None` where it writes none so.
    pub open spec fn known(name: Seq<char>) -> Option<DragonType> {
        if name == "Fire"@ || name == "SRU_Dragon_Fire"@ {
            Some(DragonType::Infernal)
        } else if name == "Water"@ || name == "SRU_Dragon_Water"@ {
            Some(DragonType::Ocean)
        } else if name == "Earth"@ || name == "SRU_Dragon_Earth"@ {
            Some(DragonType::Mountain)
        } else if name == "Air"@ || name == "SRU_Dragon_Air"@ {
            Some(DragonType::Cloud)
        } else if name == "Hextech"@ || name == "SRU_Dragon_Hextech"@ {
            Some(DragonType::Hextech)
        } else if name == "Chemtech"@ || name == "SRU_Dragon_Chemtech"@ {
            Some(DragonType::Chemtech)
        } else if name == "Elder"@ || name == "SRU_Dragon_Elder"@ {
            Some(DragonType::Elder)
        } else {
            None
        }
    }

    /// What `name()` returns.
    pub open spec fn label(self) -> Seq<char> {
        match self {
            DragonType::Infernal => "Infernal"@,
            DragonType::Ocean => "Ocean"@,
            DragonType::Mountain => "Mountain"@,
            DragonType::Cloud => "Cloud"@,
            DragonType::Hextech => "Hextech"@,
            DragonType::Chemtech => "Chemtech"@,
            DragonType::Elder => "Elder"@,
        }
    }

    /// Looks `name` up in the vocabulary.
    pub fn lookup(name: &str) -> (r: Option<DragonType>)
        ensures
            r == Self::known(name@),
    {
        let chars = chars_of(name);
        if spells(&chars, "Fire") || spells(&chars, "SRU_Dragon_Fire") {
            Some(DragonType::Infernal)
        } else if spells(&chars, "Water") || spells(&chars, "SRU_Dragon_Water") {
            Some(DragonType::Ocean)
        } else if spells(&chars, "Earth") || spells(&chars, "SRU_Dragon_Earth") {
            Some(DragonType::Mountain)
        } else if spells(&chars, "Air") || spells(&chars, "SRU_Dragon_Air") {
            Some(DragonType::Cloud)
        } else if spells(&chars, "Hextech") || spells(&chars, "SRU_Dragon_Hextech") {
            Some(DragonType::Hextech)
        } else if spells(&chars, "Chemtech") || spells(&chars, "SRU_Dragon_Chemtech") {
            Some(DragonType::Chemtech)
        } else if spells(&chars, "Elder") || spells(&chars, "SRU_Dragon_Elder") {
            Some(DragonType::Elder)
        } else {
            None
        }
    }

    /// The variant's name.
    pub fn name(&self) -> (r: &'static str)
        ensures
            r@ == self.label(),
    {
        match self {
            DragonType::Infernal => "Infernal",
            DragonType::Ocean => "Ocean",
            DragonType::Mountain => "Mountain",
            DragonType::Cloud => "Cloud",
            DragonType::Hextech => "Hextech",
            DragonType::Chemtech => "Chemtech",
            DragonType::Elder => "Elder",
        }
    }
}

/// A string of the vocabulary, and no other.
impl FromJson for DragonType {
    open spec fn fits(v: serde_json::Value) -> bool {
        json_text(v) matches Some(name) && Self::known(name) is Some
    }

    open spec fn read_from(self, v: serde_json::Value) -> bool {
        json_text(v) matches Some(name) && Self::known(name) == Some(self)
    }

    fn decode(v: &serde_json::Value) -> (r: Option<DragonType>) {
        Self::lookup(v.as_str()?)
    }
}

/// How the game ended for the observed side.
#[derive(Debug, Clone, Copy, PartialEq, Eq, Structural)]
pub enum GameResult {
    Win,
    Lose,
}

impl GameResult {
    /// The variant that the client writes as `name`; `None` where it writes none so.
    pub open spec fn known(name: Seq<char>) -> Option<GameResult> {
        if name == "Win"@ {
            Some(GameResult::Win)
        } else if name == "Lose"@ {
            Some(GameResult::Lose)
        } else {
            None
        }
    }

    /// What `name()` returns.
    pub open spec fn label(self) -> Seq<char> {
        match self {
            GameResult::Win => "Win"@,
            GameResult::Lose => "Lose"@,
        }
    }

    /// Looks `name` up in the vocabulary.
    pub fn lookup(name: &str) -> (r: Option<GameResult>)
        ensures
            r == Self::known(name@),
    {
        let chars = chars_of(name);
        if spells(&chars, "Win") {
            Some(GameResult::Win)
        } else if spells(&chars, "Lose") {
            Some(GameResult::Lose)
        } else {
            None
        }
    }

    /// The variant's name.
    pub fn name(&self) -> (r: &'static str)
        ensures
            r@ == self.label(),
    {
        match self {
            GameResult::Win => "Win",
            GameResult::Lose => "Lose",
        }
    }
}

/// A string of the vocabulary, and no other.
impl FromJson for GameResult {
    open spec fn fits(v: serde_json::Value) -> bool {
        json_text(v) matches Some(name) && Self::known(name) is Some
    }

    open spec fn read_from(self, v: serde_json::Value) -> bool {
        json_text(v) matches Some(name) && Self::known(name) == Some(self)
    }

    fn decode(v: &serde_json::Value) -> (r: Option<GameResult>) {
        Self::lookup(v.as_str()?)
    }
}

/// Who or what dealt a killing blow.
///
/// The client reports a killer as free text. `Killer::from` sorts that text by a fixed list of
/// rules; what fits none of them is taken to be a player's name.
#[derive(Debug, Clone, PartialEq, Eq)]
pub enum Killer {
    Minion,
    Dragon(DragonType),
    Gromp,
    Blue,
    Murkwolf,
    Razorbeak,
    Red,
    Krug,
    RiftHerald,
    Baron,
    Turret(Turret),
    Summoner(String),
}

/// A `Killer` with the player's name as a sequence of characters.
pub enum KillerView {
    Minion,
    Dragon(DragonType),
    Gromp,
    Blue,
    Murkwolf,
    Razorbeak,
    Red,
    Krug,
    RiftHerald,
    Baron,
    Turret(Turret),
    Summoner(Seq<char>),
}

impl View for Killer {
    type V = KillerView;

    open spec fn view(&self) -> KillerView {
        match self {
            Killer::Minion => KillerView::Minion,
            Killer::Dragon(d) => KillerView::Dragon(*d),
            Killer::Gromp => KillerView::Gromp,
            Killer::Blue => KillerView::Blue,
            Killer::Murkwolf => KillerView::Murkwolf,
            Killer::Razorbeak => KillerView::Razorbeak,
            Killer::Red => KillerView::Red,
            Killer::Krug => KillerView::Krug,
            Killer::RiftHerald => KillerView::RiftHerald,
            Killer::Baron => KillerView::Baron,
            Killer::Turret(t) => KillerView::Turret(*t),
            Killer::Summoner(name) => KillerView::Summoner(name@),
        }
    }
}

impl Killer {
    /// The killer that `name` stands for. The rules, in the order in which they are tried:
    ///
    /// 1. a dragon's token or monster name gives that dragon;
    /// 2. a listed turret name gives that turret;
    /// 3. a text that begins with `Minion` is a minion;
    /// 4. a text that holds `RiftHerald`, `Baron`, `Gromp`, `Blue`, `Murkwolf`, `Razorbeak`,
    ///    `Red` or `Krug`, tried in this order, gives the monster of that name;
    /// 5. any other text is a player's name.
    pub open spec fn classify(name: Seq<char>) -> KillerView {
        if let Some(dragon) = DragonType::known(name) {
            KillerView::Dragon(dragon)
        } else if let Some(turret) = Turret::known(name) {
            KillerView::Turret(turret)
        } else if has_prefix(name, "Minion"@) {
            KillerView::Minion
        } else if has_infix(name, "RiftHerald"@) {
            KillerView::RiftHerald
        } else if has_infix(name, "Baron"@) {
            KillerView::Baron
        } else if has_infix(name, "Gromp"@) {
            KillerView::Gromp
        } else if has_infix(name, "Blue"@) {
            KillerView::Blue
        } else if has_infix(name, "Murkwolf"@) {
            KillerView::Murkwolf
        } else if has_infix(name, "Razorbeak"@) {
            KillerView::Razorbeak
        } else if has_infix(name, "Red"@) {
            KillerView::Red
        } else if has_infix(name, "Krug"@) {
            KillerView::Krug
        } else {
            KillerView::Summoner(name)
        }
    }

    /// The killer that `classify` names, holding `name` itself where it is a player's name.
    pub open spec fn of_name(name: String) -> Killer {
        match Self::classify(name@) {
            KillerView::Minion => Killer::Minion,
            KillerView::Dragon(d) => Killer::Dragon(d),
            KillerView::Gromp => Killer::Gromp,
            KillerView::Blue => Killer::Blue,
            KillerView::Murkwolf => Killer::Murkwolf,
            KillerView::Razorbeak => Killer::Razorbeak,
            KillerView::Red => Killer::Red,
            KillerView::Krug => Killer::Krug,
            KillerView::RiftHerald => Killer::RiftHerald,
            KillerView::Baron => Killer::Baron,
            KillerView::Turret(t) => Killer::Turret(t),
            KillerView::Summoner(_) => Killer::Summoner(name),
        }
    }

    /// What `to_text()` returns: the name of the dragon, turret or player, or else of the
    /// variant.
    pub open spec fn label(self) -> Seq<char> {
        match self {
            Killer::Minion => "Minion"@,
            Killer::Dragon(d) => d.label(),
            Killer::Gromp => "Gromp"@,
            Killer::Blue => "Blue"@,
            Killer::Murkwolf => "Murkwolf"@,
            Killer::Razorbeak => "Razorbeak"@,
            Killer::Red => "Red"@,
            Killer::Krug => "Krug"@,
            Killer::RiftHerald => "RiftHerald"@,
            Killer::Baron => "Baron"@,
            Killer::Turret(t) => t.label(),
            Killer::Summoner(name) => name@,
        }
    }

    /// The killer as text.
    pub fn to_text(&self) -> (r: String)
        ensures
            r@ == self.label(),
    {
        match self {
            Killer::Minion => "Minion".to_owned(),
            Killer::Dragon(d) => d.name().to_owned(),
            Killer::Gromp => "Gromp".to_owned(),
            Killer::Blue => "Blue".to_owned(),
            Killer::Murkwolf => "Murkwolf".to_owned(),
            Killer::Razorbeak => "Razorbeak".to_owned(),
            Killer::Red => "Red".to_owned(),
            Killer::Krug => "Krug".to_owned(),
            Killer::RiftHerald => "RiftHerald".to_owned(),
            Killer::Baron => "Baron".to_owned(),
            Killer::Turret(t) => t.name().to_owned(),
            Killer::Summoner(name) => name.clone(),
        }
    }
}

impl FromSpecImpl<String> for Killer {
    open spec fn obeys_from_spec() -> bool {
        true
    }

    open spec fn from_spec(name: String) -> Killer {
        Killer::of_name(name)
    }
}

impl Killer {
    /// Sorts the client's free text into a killer, by the rules of `Killer::classify`.
    pub fn from_name(name: String) -> (r: Killer)
        ensures
            r == Killer::of_name(name),
            r@ == Killer::classify(name@),
    {
        let chars = chars_of(name.as_str());
        if let Some(dragon) = DragonType::lookup(name.as_str()) {
            Killer::Dragon(dragon)
        } else if let Some(turret) = Turret::lookup(name.as_str()) {
            Killer::Turret(turret)
        } else if starts_with(&chars, "Minion") {
            Killer::Minion
        } else if contains(&chars, "RiftHerald") {
            Killer::RiftHerald
        } else if contains(&chars, "Baron") {
            Killer::Baron
        } else if contains(&chars, "Gromp") {
            Killer::Gromp
        } else if contains(&chars, "Blue") {
            Killer::Blue
        } else if contains(&chars, "Murkwolf") {
            Killer::Murkwolf
        } else if contains(&chars, "Razorbeak") {
            Killer::Razorbeak
        } else if contains(&chars, "Red") {
            Killer::Red
        } else if contains(&chars, "Krug") {
            Killer::Krug
        } else {
            Killer::Summoner(name)
        }
    }
}

impl From<String> for Killer {
    /// Sorts the client's free text into a killer, by the rules of `Killer::classify`.
    fn from(name: String) -> (r: Killer)
        ensures
            r@ == Killer::classify(name@),
    {
        Killer::from_name(name)
    }
}

/// A string, sorted by the rules of `Killer::classify`.
impl FromJson for Killer {
    open spec fn fits(v: serde_json::Value) -> bool {
        json_text(v) is Some
    }

    open spec fn read_from(self, v: serde_json::Value) -> bool {
        json_text(v) matches Some(name) && self@ == Killer::classify(name)
    }

    fn decode(v: &serde_json::Value) -> (r: Option<Killer>) {
        Some(Killer::from_name(String::decode(v)?))
    }
}

/// A turret, by the client's internal name.
///
/// Team 1 is the blue team on the left side, team 2 the red team on the right side.
/// The names are shared between maps, so one variant can be two different turrets.
#[derive(Debug, Clone, Copy, PartialEq, Eq, Structural)]
pub enum Turret {
    /// Summoner's Rift: blue team, upper nexus turret.
    Team1C01A,
    /// Summoner's Rift: blue team, lower nexus turret.
    Team1C02A,
    /// Summoner's Rift: blue team, mid inhibitor turret.
    Team1C03A,
    /// Summoner's Rift: blue team, mid inner turret.
    Team1C04A,
    /// Summoner's Rift: blue team, mid outer turret.
    Team1C05A,
    /// Summoner's Rift: blue team, top inhibitor turret.
    Team1C06A,
    /// Summoner's Rift: blue team, bottom inhibitor turret. ARAM: blue team, inner turret.
    Team1C07A,
    /// ARAM: blue team, outer turret.
    Team1C08A,
    /// ARAM: blue team, bottom nexus turret.
    Team1C09A,
    /// ARAM: blue team, top nexus turret.
    Team1C10A,
    /// Summoner's Rift: blue team, top inner turret.
    Team1L02A,
    /// Summoner's Rift: blue team, top outer turret.
    Team1L03A,
    /// Summoner's Rift: blue team, bottom inner turret.
    Team1R02A,
    /// Summoner's Rift: blue team, bottom outer turret.
    Team1R03A,
    /// Blue team, fountain.
    Team1Fountain,
    /// Summoner's Rift: red team, lower nexus turret.
    Team2C01A,
    /// Summoner's Rift: red team, upper nexus turret.
    Team2C02A,
    /// Summoner's Rift: red team, mid inhibitor turret.
    Team2C03A,
    /// Summoner's Rift: red team, mid inner turret.
    Team2C04A,
    /// Summoner's Rift: red team, mid outer turret.
    Team2C05A,
    /// Summoner's Rift: red team, top inhibitor turret. ARAM: red team, outer turret.
    Team2L01A,
    /// Summoner's Rift: red team, top inner turret. ARAM: red team, inner turret.
    Team2L02A,
    /// Summoner's Rift: red team, top outer turret. ARAM: red team, lower nexus turret.
    Team2L03A,
    /// ARAM: red team, upper nexus turret.
    Team2L04A,
    /// Summoner's Rift: red team, bottom inhibitor turret.
    Team2R01A,
    /// Summoner's Rift: red team, bottom inner turret.
    Team2R02A,
    /// Summoner's Rift: red team, bottom outer turret.
    Team2R03A,
    /// Red team, fountain.
    Team2Fountain,
    /// A turret raised by a champion.
    Obelisk,
    /// Any turret that the vocabulary does not list.
    Unknown,
}

impl Turret {
    /// The variant that the client writes as `name`; `None` where it writes none so.
    pub open spec fn known(name: Seq<char>) -> Option<Turret> {
        if name == "Turret_T1_C_01_A"@ {
            Some(Turret::Team1C01A)
        } else if name == "Turret_T1_C_02_A"@ {
            Some(Turret::Team1C02A)
        } else if name == "Turret_T1_C_03_A"@ {
            Some(Turret::Team1C03A)
        } else if name == "Turret_T1_C_04_A"@ {
            Some(Turret::Team1C04A)
        } else if name == "Turret_T1_C_05_A"@ {
            Some(Turret::Team1C05A)
        } else if name == "Turret_T1_C_06_A"@ {
            Some(Turret::Team1C06A)
        } else if name == "Turret_T1_C_07_A"@ {
            Some(Turret::Team1C07A)
        } else if name == "Turret_T1_C_08_A"@ {
            Some(Turret::Team1C08A)
        } else if name == "Turret_T1_C_09_A"@ {
            Some(Turret::Team1C09A)
        } else if name == "Turret_T1_C_010_A"@ {
            Some(Turret::Team1C10A)
        } else if name == "Turret_T1_L_02_A"@ {
            Some(Turret::Team1L02A)
        } else if name == "Turret_T1_L_03_A"@ {
            Some(Turret::Team1L03A)
        } else if name == "Turret_T1_R_02_A"@ {
            Some(Turret::Team1R02A)
        } else if name == "Turret_T1_R_03_A"@ {
            Some(Turret::Team1R03A)
        } else if name == "Turret_OrderTurretShrine_A"@ {
            Some(Turret::Team1Fountain)
        } else if name == "Turret_T2_C_01_A"@ {
            Some(Turret::Team2C01A)
        } else if name == "Turret_T2_C_02_A"@ {
            Some(Turret::Team2C02A)
        } else if name == "Turret_T2_C_03_A"@ {
            Some(Turret::Team2C03A)
        } else if name == "Turret_T2_C_04_A"@ {
            Some(Turret::Team2C04A)
        } else if name == "Turret_T2_C_05_A"@ {
            Some(Turret::Team2C05A)
        } else if name == "Turret_T2_L_01_A"@ {
            Some(Turret::Team2L01A)
        } else if name == "Turret_T2_L_02_A"@ {
            Some(Turret::Team2L02A)
        } else if name == "Turret_T2_L_03_A"@ {
            Some(Turret::Team2L03A)
        } else if name == "Turret_T2_L_04_A"@ {
            Some(Turret::Team2L04A)
        } else if name == "Turret_T2_R_01_A"@ {
            Some(Turret::Team2R01A)
        } else if name == "Turret_T2_R_02_A"@ {
            Some(Turret::Team2R02A)
        } else if name == "Turret_T2_R_03_A"@ {
            Some(Turret::Team2R03A)
        } else if name == "Turret_ChaosTurretShrine_A"@ {
            Some(Turret::Team2Fountain)
        } else if name == "Obelisk"@ {
            Some(Turret::Obelisk)
        } else {
            None
        }
    }

    /// The variant that stands for `name`: the known one, or `Unknown` for any other text.
    pub open spec fn decoded(name: Seq<char>) -> Turret {
        match Self::known(name) {
            Some(v) => v,
            None => Turret::Unknown,
        }
    }

    /// What `name()` returns.
    pub open spec fn label(self) -> Seq<char> {
        match self {
            Turret::Team1C01A => "Team1C01A"@,
            Turret::Team1C02A => "Team1C02A"@,
            Turret::Team1C03A => "Team1C03A"@,
            Turret::Team1C04A => "Team1C04A"@,
            Turret::Team1C05A => "Team1C05A"@,
            Turret::Team1C06A => "Team1C06A"@,
            Turret::Team1C07A => "Team1C07A"@,
            Turret::Team1C08A => "Team1C08A"@,
            Turret::Team1C09A => "Team1C09A"@,
            Turret::Team1C10A => "Team1C10A"@,
            Turret::Team1L02A => "Team1L02A"@,
            Turret::Team1L03A => "Team1L03A"@,
            Turret::Team1R02A => "Team1R02A"@,
            Turret::Team1R03A => "Team1R03A"@,
            Turret::Team1Fountain => "Team1Fountain"@,
            Turret::Team2C01A => "Team2C01A"@,
            Turret::Team2C02A => "Team2C02A"@,
            Turret::Team2C03A => "Team2C03A"@,
            Turret::Team2C04A => "Team2C04A"@,
            Turret::Team2C05A => "Team2C05A"@,
            Turret::Team2L01A => "Team2L01A"@,
            Turret::Team2L02A => "Team2L02A"@,
            Turret::Team2L03A => "Team2L03A"@,
            Turret::Team2L04A => "Team2L04A"@,
            Turret::Team2R01A => "Team2R01A"@,
            Turret::Team2R02A => "Team2R02A"@,
            Turret::Team2R03A => "Team2R03A"@,
            Turret::Team2Fountain => "Team2Fountain"@,
            Turret::Obelisk => "Obelisk"@,
            Turret::Unknown => "Unknown"@,
        }
    }

    /// Looks `name` up in the vocabulary.
    pub fn lookup(name: &str) -> (r: Option<Turret>)
        ensures
            r == Self::known(name@),
    {
        let chars = chars_of(name);
        if spells(&chars, "Turret_T1_C_01_A") {
            Some(Turret::Team1C01A)
        } else if spells(&chars, "Turret_T1_C_02_A") {
            Some(Turret::Team1C02A)
        } else if spells(&chars, "Turret_T1_C_03_A") {
            Some(Turret::Team1C03A)
        } else if spells(&chars, "Turret_T1_C_04_A") {
            Some(Turret::Team1C04A)
        } else if spells(&chars, "Turret_T1_C_05_A") {
            Some(Turret::Team1C05A)
        } else if spells(&chars, "Turret_T1_C_06_A") {
            Some(Turret::Team1C06A)
        } else if spells(&chars, "Turret_T1_C_07_A") {
            Some(Turret::Team1C07A)
        } else if spells(&chars, "Turret_T1_C_08_A") {
            Some(Turret::Team1C08A)
        } else if spells(&chars, "Turret_T1_C_09_A") {
            Some(Turret::Team1C09A)
        } else if spells(&chars, "Turret_T1_C_010_A") {
            Some(Turret::Team1C10A)
        } else if spells(&chars, "Turret_T1_L_02_A") {
            Some(Turret::Team1L02A)
        } else if spells(&chars, "Turret_T1_L_03_A") {
            Some(Turret::Team1L03A)
        } else if spells(&chars, "Turret_T1_R_02_A") {
            Some(Turret::Team1R02A)
        } else if spells(&chars, "Turret_T1_R_03_A") {
            Some(Turret::Team1R03A)
        } else if spells(&chars, "Turret_OrderTurretShrine_A") {
            Some(Turret::Team1Fountain)
        } else if spells(&chars, "Turret_T2_C_01_A") {
            Some(Turret::Team2C01A)
        } else if spells(&chars, "Turret_T2_C_02_A") {
            Some(Turret::Team2C02A)
        } else if spells(&chars, "Turret_T2_C_03_A") {
            Some(Turret::Team2C03A)
        } else if spells(&chars, "Turret_T2_C_04_A") {
            Some(Turret::Team2C04A)
        } else if spells(&chars, "Turret_T2_C_05_A") {
            Some(Turret::Team2C05A)
        } else if spells(&chars, "Turret_T2_L_01_A") {
            Some(Turret::Team2L01A)
        } else if spells(&chars, "Turret_T2_L_02_A") {
            Some(Turret::Team2L02A)
        } else if spells(&chars, "Turret_T2_L_03_A") {
            Some(Turret::Team2L03A)
        } else if spells(&chars, "Turret_T2_L_04_A") {
            Some(Turret::Team2L04A)
        } else if spells(&chars, "Turret_T2_R_01_A") {
            Some(Turret::Team2R01A)
        } else if spells(&chars, "Turret_T2_R_02_A") {
            Some(Turret::Team2R02A)
        } else if spells(&chars, "Turret_T2_R_03_A") {
            Some(Turret::Team2R03A)
        } else if spells(&chars, "Turret_ChaosTurretShrine_A") {
            Some(Turret::Team2Fountain)
        } else if spells(&chars, "Obelisk") {
            Some(Turret::Obelisk)
        } else {
            None
        }
    }

    /// Decodes `name`; a text outside the vocabulary gives `Unknown`, never a failure.
    pub fn from_wire(name: &str) -> (r: Turret)
        ensures
            r == Self::decoded(name@),
    {
        match Self::lookup(name) {
            Some(v) => v,
            None => Turret::Unknown,
        }
    }

    /// The variant's name.
    pub fn name(&self) -> (r: &'static str)
        ensures
            r@ == self.label(),
    {
        match self {
            Turret::Team1C01A => "Team1C01A",
            Turret::Team1C02A => "Team1C02A",
            Turret::Team1C03A => "Team1C03A",
            Turret::Team1C04A => "Team1C04A",
            Turret::Team1C05A => "Team1C05A",
            Turret::Team1C06A => "Team1C06A",
            Turret::Team1C07A => "Team1C07A",
            Turret::Team1C08A => "Team1C08A",
            Turret::Team1C09A => "Team1C09A",
            Turret::Team1C10A => "Team1C10A",
            Turret::Team1L02A => "Team1L02A",
            Turret::Team1L03A => "Team1L03A",
            Turret::Team1R02A => "Team1R02A",
            Turret::Team1R03A => "Team1R03A",
            Turret::Team1Fountain => "Team1Fountain",
            Turret::Team2C01A => "Team2C01A",
            Turret::Team2C02A => "Team2C02A",
            Turret::Team2C03A => "Team2C03A",
            Turret::Team2C04A => "Team2C04A",
            Turret::Team2C05A => "Team2C05A",
            Turret::Team2L01A => "Team2L01A",
            Turret::Team2L02A => "Team2L02A",
            Turret::Team2L03A => "Team2L03A",
            Turret::Team2L04A => "Team2L04A",
            Turret::Team2R01A => "Team2R01A",
            Turret::Team2R02A => "Team2R02A",
            Turret::Team2R03A => "Team2R03A",
            Turret::Team2Fountain => "Team2Fountain",
            Turret::Obelisk => "Obelisk",
            Turret::Unknown => "Unknown",
        }
    }
}

/// A string; one outside the vocabulary is read as `Unknown`.
impl FromJson for Turret {
    open spec fn fits(v: serde_json::Value) -> bool {
        json_text(v) is Some
    }

    open spec fn read_from(self, v: serde_json::Value) -> bool {
        json_text(v) matches Some(name) && self == Self::decoded(name)
    }

    fn decode(v: &serde_json::Value) -> (r: Option<Turret>) {
        Some(Self::from_wire(v.as_str()?))
    }
}

/// An inhibitor, by the client's internal name.
#[derive(Debug, Clone, Copy, PartialEq, Eq, Structural)]
pub enum Inhibitor {
    /// Summoner's Rift: blue team, top inhibitor.
    Team1L1,
    /// Summoner's Rift: blue team, mid inhibitor. ARAM: blue team's inhibitor.
    Team1C1,
    /// Summoner's Rift: blue team, bottom inhibitor.
    Team1R1,
    /// Summoner's Rift: red team, top inhibitor.
    Team2L1,
    /// Summoner's Rift: red team, mid inhibitor. ARAM: red team's inhibitor.
    Team2C1,
    /// Summoner's Rift: red team, bottom inhibitor.
    Team2R1,
    /// Any inhibitor that the vocabulary does not list.
    Unknown,
}

impl Inhibitor {
    /// The variant that the client writes as `name`; `None` where it writes none so.
    pub open spec fn known(name: Seq<char>) -> Option<Inhibitor> {
        if name == "Barracks_T1_L1"@ {
            Some(Inhibitor::Team1L1)
        } else if name == "Barracks_T1_C1"@ {
            Some(Inhibitor::Team1C1)
        } else if name == "Barracks_T1_R1"@ {
            Some(Inhibitor::Team1R1)
        } else if name == "Barracks_T2_L1"@ {
            Some(Inhibitor::Team2L1)
        } else if name == "Barracks_T2_C1"@ {
            Some(Inhibitor::Team2C1)
        } else if name == "Barracks_T2_R1"@ {
            Some(Inhibitor::Team2R1)
        } else {
            None
        }
    }

    /// The variant that stands for `name`: the known one, or `Unknown` for any other text.
    pub open spec fn decoded(name: Seq<char>) -> Inhibitor {
        match Self::known(name) {
            Some(v) => v,
            None => Inhibitor::Unknown,
        }
    }

    /// What `name()` returns.
    pub open spec fn label(self) -> Seq<char> {
        match self {
            Inhibitor::Team1L1 => "Team1L1"@,
            Inhibitor::Team1C1 => "Team1C1"@,
            Inhibitor::Team1R1 => "Team1R1"@,
            Inhibitor::Team2L1 => "Team2L1"@,
            Inhibitor::Team2C1 => "Team2C1"@,
            Inhibitor::Team2R1 => "Team2R1"@,
            Inhibitor::Unknown => "Unknown"@,
        }
    }

    /// Looks `name` up in the vocabulary.
    pub fn lookup(name: &str) -> (r: Option<Inhibitor>)
        ensures
            r == Self::known(name@),
    {
        let chars = chars_of(name);
        if spells(&chars, "Barracks_T1_L1") {
            Some(Inhibitor::Team1L1)
        } else if spells(&chars, "Barracks_T1_C1") {
            Some(Inhibitor::Team1C1)
        } else if spells(&chars, "Barracks_T1_R1") {
            Some(Inhibitor::Team1R1)
        } else if spells(&chars, "Barracks_T2_L1") {
            Some(Inhibitor::Team2L1)
        } else if spells(&chars, "Barracks_T2_C1") {
            Some(Inhibitor::Team2C1)
        } else if spells(&chars, "Barracks_T2_R1") {
            Some(Inhibitor::Team2R1)
        } else {
            None
        }
    }

    /// Decodes `name`; a text outside the vocabulary gives `Unknown`, never a failure.
    pub fn from_wire(name: &str) -> (r: Inhibitor)
        ensures
            r == Self::decoded(name@),
    {
        match Self::lookup(name) {
            Some(v) => v,
            None => Inhibitor::Unknown,
        }
    }

    /// The variant's name.
    pub fn name(&self) -> (r: &'static str)
        ensures
            r@ == self.label(),
    {
        match self {
            Inhibitor::Team1L1 => "Team1L1",
            Inhibitor::Team1C1 => "Team1C1",
            Inhibitor::Team1R1 => "Team1R1",
            Inhibitor::Team2L1 => "Team2L1",
            Inhibitor::Team2C1 => "Team2C1",
            Inhibitor::Team2R1 => "Team2R1",
            Inhibitor::Unknown => "Unknown",
        }
    }
}

/// A string; one outside the vocabulary is read as `Unknown`.
impl FromJson for Inhibitor {
    open spec fn fits(v: serde_json::Value) -> bool {
        json_text(v) is Some
    }

    open spec fn read_from(self, v: serde_json::Value) -> bool {
        json_text(v) matches Some(name) && self == Self::decoded(name)
    }

    fn decode(v: &serde_json::Value) -> (r: Option<Inhibitor>) {
        Some(Self::from_wire(v.as_str()?))
    }
}

/// The boolean that the client writes as the word `True` or `False`.
pub open spec fn flag_word(word: Seq<char>) -> Option<bool> {
    if word == "True"@ {
        Some(true)
    } else if word == "False"@ {
        Some(false)
    } else {
        None
    }
}

/// The object `v` has a string member `key` that is a word for a boolean.
pub open spec fn has_flag_word(v: serde_json::Value, key: Seq<char>) -> bool {
    text_at(v, key) matches Some(word) && flag_word(word) is Some
}

/// `value` is the boolean that the string member `key` of the object `v` is the word for.
pub open spec fn holds_flag_word(value: bool, v: serde_json::Value, key: Seq<char>) -> bool {
    text_at(v, key) matches Some(word) && flag_word(word) == Some(value)
}

/// `True` is the word for `true`, `False` the word for `false`, and no other text is a word
/// for a boolean.
pub proof fn lemma_flag_words_are_strict()
    ensures
        flag_word("True"@) == Some(true),
        flag_word("False"@) == Some(false),
        forall|word: Seq<char>|
            word != "True"@ && word != "False"@ ==> (#[trigger] flag_word(word)) is None,
{
    reveal_strlit("True");
    reveal_strlit("False");
    assert("True"@.len() != "False"@.len());
}

/// Reads a boolean that the client writes as a word. Only `True` and `False` are words for
/// one: any other text is refused, none is taken for a default.
pub fn deserialize_bool(word: &str) -> (r: Option<bool>)
    ensures
        r == flag_word(word@),
{
    let chars = chars_of(word);
    if spells(&chars, "True") {
        Some(true)
    } else if spells(&chars, "False") {
        Some(false)
    } else {
        None
    }
}

/// Reads the member `key` of the object `v` as a boolean written as a word.
pub fn flag_word_field(v: &serde_json::Value, key: &str) -> (r: Option<bool>)
    ensures
        r is Some <==> has_flag_word(*v, key@),
        r matches Some(value) ==> holds_flag_word(value, *v, key@),
{
    deserialize_bool(field::<String>(v, key)?.as_str())
}

pub type MapNumber = i32;

/// The statistics of the running game.
#[derive(Debug, Clone, PartialEq, Eq)]
pub struct GameStats {
    pub game_mode: GameMode,
    pub game_time: Time,
    pub map_name: MapName,
    pub map_number: MapNumber,
    pub map_terrain: MapTerrain,
}

/// An object with the members `gameMode`, `gameTime`, `mapName`, `mapNumber`, `mapTerrain`.
impl FromJson for GameStats {
    open spec fn fits(v: serde_json::Value) -> bool {
        &&& has::<GameMode>(v, "gameMode"@)
        &&& has::<Time>(v, "gameTime"@)
        &&& has::<MapName>(v, "mapName"@)
        &&& has::<MapNumber>(v, "mapNumber"@)
        &&& has::<MapTerrain>(v, "mapTerrain"@)
    }

    open spec fn read_from(self, v: serde_json::Value) -> bool {
        &&& holds(self.game_mode, v, "gameMode"@)
        &&& holds(self.game_time, v, "gameTime"@)
        &&& holds(self.map_name, v, "mapName"@)
        &&& holds(self.map_number, v, "mapNumber"@)
        &&& holds(self.map_terrain, v, "mapTerrain"@)
    }

    fn decode(v: &serde_json::Value) -> (r: Option<GameStats>) {
        let game_mode = field::<GameMode>(v, "gameMode")?;
        let game_time = field::<Time>(v, "gameTime")?;
        let map_name = field::<MapName>(v, "mapName")?;
        let map_number = field::<MapNumber>(v, "mapNumber")?;
        let map_terrain = field::<MapTerrain>(v, "mapTerrain")?;
        Some(GameStats { game_mode, game_time, map_name, map_number, map_terrain })
    }
}

/// The rule set of the running game.
#[derive(Debug, Clone, Copy, PartialEq, Eq, Structural)]
pub enum GameMode {
    /// Summoner's Rift and Twisted Treeline.
    Classic,
    /// Dominion, on the Crystal Scar.
    Odin,
    Aram,
    Tutorial,
    /// First part of the tutorial.
    Tutorial1,
    /// Second part of the tutorial.
    Tutorial2,
    /// Third part of the tutorial.
    Tutorial3,
    Urf,
    PracticeTool,
    /// Doom Bots.
    DoombotsTeemo,
    OneForAll,
    Ascension,
    /// Snowdown Showdown.
    FirstBlood,
    /// Legend of the Poro King.
    KingPoro,
    /// Nexus Siege.
    Siege,
    /// Blood Hunt Assassin.
    Assassinate,
    /// All Random Summoner's Rift.
    ARSR,
    /// Dark Star: Singularity.
    Darkstar,
    /// Star Guardian Invasion.
    StarGuardian,
    /// PROJECT: Hunters.
    Project,
    /// Nexus Blitz, under either of its two wire names.
    NexusBlitz,
    /// Odyssey: Extraction.
    Odyssey,
    /// Ultimate Spellbook.
    UltBook,
    /// Arena, two against two against two against two.
    Arena,
    /// Any mode that the vocabulary does not list.
    Unknown,
}

impl GameMode {
    /// The variant that the client writes as `name`; `None` where it writes none so.
    pub open spec fn known(name: Seq<char>) -> Option<GameMode> {
        if name == "CLASSIC"@ {
            Some(GameMode::Classic)
        } else if name == "ODIN"@ {
            Some(GameMode::Odin)
        } else if name == "ARAM"@ {
            Some(GameMode::Aram)
        } else if name == "TUTORIAL"@ {
            Some(GameMode::Tutorial)
        } else if name == "TUTORIAL_MODULE_1"@ {
            Some(GameMode::Tutorial1)
        } else if name == "TUTORIAL_MODULE_2"@ {
            Some(GameMode::Tutorial2)
        } else if name == "TUTORIAL_MODULE_3"@ {
            Some(GameMode::Tutorial3)
        } else if name == "URF"@ {
            Some(GameMode::Urf)
        } else if name == "PRACTICETOOL"@ {
            Some(GameMode::PracticeTool)
        } else if name == "DOOMBOTSTEEMO"@ {
            Some(GameMode::DoombotsTeemo)
        } else if name == "ONEFORALL"@ {
            Some(GameMode::OneForAll)
        } else if name == "ASCENSION"@ {
            Some(GameMode::Ascension)
        } else if name == "FIRSTBLOOD"@ {
            Some(GameMode::FirstBlood)
        } else if name == "KINGPORO"@ {
            Some(GameMode::KingPoro)
        } else if name == "SIEGE"@ {
            Some(GameMode::Siege)
        } else if name == "ASSASSINATE"@ {
            Some(GameMode::Assassinate)
        } else if name == "ARSR"@ {
            Some(GameMode::ARSR)
        } else if name == "DARKSTAR"@ {
            Some(GameMode::Darkstar)
        } else if name == "STARGUARDIAN"@ {
            Some(GameMode::StarGuardian)
        } else if name == "PROJECT"@ {
            Some(GameMode::Project)
        } else if name == "NEXUSBLITZ"@ || name == "GAMEMODEX"@ {
            Some(GameMode::NexusBlitz)
        } else if name == "ODYSSEY"@ {
            Some(GameMode::Odyssey)
        } else if name == "ULTBOOK"@ {
            Some(GameMode::UltBook)
        } else if name == "CHERRY"@ {
            Some(GameMode::Arena)
        } else {
            None
        }
    }

    /// The variant that stands for `name`: the known one, or `Unknown` for any other text.
    pub open spec fn decoded(name: Seq<char>) -> GameMode {
        match Self::known(name) {
            Some(v) => v,
            None => GameMode::Unknown,
        }
    }

    /// What `name()` returns.
    pub open spec fn label(self) -> Seq<char> {
        match self {
            GameMode::Classic => "Classic"@,
            GameMode::Odin => "Odin"@,
            GameMode::Aram => "Aram"@,
            GameMode::Tutorial => "Tutorial"@,
            GameMode::Tutorial1 => "Tutorial1"@,
            GameMode::Tutorial2 => "Tutorial2"@,
            GameMode::Tutorial3 => "Tutorial3"@,
            GameMode::Urf => "Urf"@,
            GameMode::PracticeTool => "PracticeTool"@,
            GameMode::DoombotsTeemo => "DoombotsTeemo"@,
            GameMode::OneForAll => "OneForAll"@,
            GameMode::Ascension => "Ascension"@,
            GameMode::FirstBlood => "FirstBlood"@,
            GameMode::KingPoro => "KingPoro"@,
            GameMode::Siege => "Siege"@,
            GameMode::Assassinate => "Assassinate"@,
            GameMode::ARSR => "ARSR"@,
            GameMode::Darkstar => "Darkstar"@,
            GameMode::StarGuardian => "StarGuardian"@,
            GameMode::Project => "Project"@,
            GameMode::NexusBlitz => "NexusBlitz"@,
            GameMode::Odyssey => "Odyssey"@,
            GameMode::UltBook => "UltBook"@,
            GameMode::Arena => "Arena"@,
            GameMode::Unknown => "Unknown"@,
        }
    }

    /// Looks `name` up in the vocabulary.
    pub fn lookup(name: &str) -> (r: Option<GameMode>)
        ensures
            r == Self::known(name@),
    {
        let chars = chars_of(name);
        if spells(&chars, "CLASSIC") {
            Some(GameMode::Classic)
        } else if spells(&chars, "ODIN") {
            Some(GameMode::Odin)
        } else if spells(&chars, "ARAM") {
            Some(GameMode::Aram)
        } else if spells(&chars, "TUTORIAL") {
            Some(GameMode::Tutorial)
        } else if spells(&chars, "TUTORIAL_MODULE_1") {
            Some(GameMode::Tutorial1)
        } else if spells(&chars, "TUTORIAL_MODULE_2") {
            Some(GameMode::Tutorial2)
        } else if spells(&chars, "TUTORIAL_MODULE_3") {
            Some(GameMode::Tutorial3)
        } else if spells(&chars, "URF") {
            Some(GameMode::Urf)
        } else if spells(&chars, "PRACTICETOOL") {
            Some(GameMode::PracticeTool)
        } else if spells(&chars, "DOOMBOTSTEEMO") {
            Some(GameMode::DoombotsTeemo)
        } else if spells(&chars, "ONEFORALL") {
            Some(GameMode::OneForAll)
        } else if spells(&chars, "ASCENSION") {
            Some(GameMode::Ascension)
        } else if spells(&chars, "FIRSTBLOOD") {
            Some(GameMode::FirstBlood)
        } else if spells(&chars, "KINGPORO") {
            Some(GameMode::KingPoro)
        } else if spells(&chars, "SIEGE") {
            Some(GameMode::Siege)
        } else if spells(&chars, "ASSASSINATE") {
            Some(GameMode::Assassinate)
        } else if spells(&chars, "ARSR") {
            Some(GameMode::ARSR)
        } else if spells(&chars, "DARKSTAR") {
            Some(GameMode::Darkstar)
        } else if spells(&chars, "STARGUARDIAN") {
            Some(GameMode::StarGuardian)
        } else if spells(&chars, "PROJECT") {
            Some(GameMode::Project)
        } else if spells(&chars, "NEXUSBLITZ") || spells(&chars, "GAMEMODEX") {
            Some(GameMode::NexusBlitz)
        } else if spells(&chars, "ODYSSEY") {
            Some(GameMode::Odyssey)
        } else if spells(&chars, "ULTBOOK") {
            Some(GameMode::UltBook)
        } else if spells(&chars, "CHERRY") {
            Some(GameMode::Arena)
        } else {
            None
        }
    }

    /// Decodes `name`; a text outside the vocabulary gives `Unknown`, never a failure.
    pub fn from_wire(name: &str) -> (r: GameMode)
        ensures
            r == Self::decoded(name@),
    {
        match Self::lookup(name) {
            Some(v) => v,
            None => GameMode::Unknown,
        }
    }

    /// The variant's name.
    pub fn name(&self) -> (r: &'static str)
        ensures
            r@ == self.label(),
    {
        match self {
            GameMode::Classic => "Classic",
            GameMode::Odin => "Odin",
            GameMode::Aram => "Aram",
            GameMode::Tutorial => "Tutorial",
            GameMode::Tutorial1 => "Tutorial1",
            GameMode::Tutorial2 => "Tutorial2",
            GameMode::Tutorial3 => "Tutorial3",
            GameMode::Urf => "Urf",
            GameMode::PracticeTool => "PracticeTool",
            GameMode::DoombotsTeemo => "DoombotsTeemo",
            GameMode::OneForAll => "OneForAll",
            GameMode::Ascension => "Ascension",
            GameMode::FirstBlood => "FirstBlood",
            GameMode::KingPoro => "KingPoro",
            GameMode::Siege => "Siege",
            GameMode::Assassinate => "Assassinate",
            GameMode::ARSR => "ARSR",
            GameMode::Darkstar => "Darkstar",
            GameMode::StarGuardian => "StarGuardian",
            GameMode::Project => "Project",
            GameMode::NexusBlitz => "NexusBlitz",
            GameMode::Odyssey => "Odyssey",
            GameMode::UltBook => "UltBook",
            GameMode::Arena => "Arena",
            GameMode::Unknown => "Unknown",
        }
    }
}

/// A string; one outside the vocabulary is read as `Unknown`.
impl FromJson for GameMode {
    open spec fn fits(v: serde_json::Value) -> bool {
        json_text(v) is Some
    }

    open spec fn read_from(self, v: serde_json::Value) -> bool {
        json_text(v) matches Some(name) && self == Self::decoded(name)
    }

    fn decode(v: &serde_json::Value) -> (r: Option<GameMode>) {
        Some(Self::from_wire(v.as_str()?))
    }
}

/// The map of the running game, by the client's internal name.
#[derive(Debug, Clone, Copy, PartialEq, Eq, Structural)]
pub enum MapName {
    /// Summoner's Rift, first summer variant.
    Map1,
    /// Summoner's Rift, first autumn variant.
    Map2,
    /// The Proving Grounds, the tutorial map.
    Map3,
    /// Twisted Treeline, first version.
    Map4,
    /// The Crystal Scar.
    Map8,
    /// Twisted Treeline.
    Map10,
    /// Summoner's Rift, current version.
    Map11,
    /// Howling Abyss.
    Map12,
    /// Butcher's Bridge.
    Map14,
    /// Cosmic Ruins.
    Map16,
    /// Valoran City Park.
    Map18,
    /// Substructure 43.
    Map19,
    /// Crash Site.
    Map20,
    /// Nexus Blitz.
    Map21,
    /// Convergence.
    Map22,
    /// Arena.
    Map30,
    /// Any map that the vocabulary does not list.
    Unknown,
}

impl MapName {
    /// The variant that the client writes as `name`; `None` where it writes none so.
    pub open spec fn known(name: Seq<char>) -> Option<MapName> {
        if name == "Map1"@ {
            Some(MapName::Map1)
        } else if name == "Map2"@ {
            Some(MapName::Map2)
        } else if name == "Map3"@ {
            Some(MapName::Map3)
        } else if name == "Map4"@ {
            Some(MapName::Map4)
        } else if name == "Map8"@ {
            Some(MapName::Map8)
        } else if name == "Map10"@ {
            Some(MapName::Map10)
        } else if name == "Map11"@ {
            Some(MapName::Map11)
        } else if name == "Map12"@ {
            Some(MapName::Map12)
        } else if name == "Map14"@ {
            Some(MapName::Map14)
        } else if name == "Map16"@ {
            Some(MapName::Map16)
        } else if name == "Map18"@ {
            Some(MapName::Map18)
        } else if name == "Map19"@ {
            Some(MapName::Map19)
        } else if name == "Map20"@ {
            Some(MapName::Map20)
        } else if name == "Map21"@ {
            Some(MapName::Map21)
        } else if name == "Map22"@ {
            Some(MapName::Map22)
        } else if name == "Map30"@ {
            Some(MapName::Map30)
        } else {
            None
        }
    }

    /// The variant that stands for `name`: the known one, or `Unknown` for any other text.
    pub open spec fn decoded(name: Seq<char>) -> MapName {
        match Self::known(name) {
            Some(v) => v,
            None => MapName::Unknown,
        }
    }

    /// What `name()` returns.
    pub open spec fn label(self) -> Seq<char> {
        match self {
            MapName::Map1 => "Map1"@,
            MapName::Map2 => "Map2"@,
            MapName::Map3 => "Map3"@,
            MapName::Map4 => "Map4"@,
            MapName::Map8 => "Map8"@,
            MapName::Map10 => "Map10"@,
            MapName::Map11 => "Map11"@,
            MapName::Map12 => "Map12"@,
            MapName::Map14 => "Map14"@,
            MapName::Map16 => "Map16"@,
            MapName::Map18 => "Map18"@,
            MapName::Map19 => "Map19"@,
            MapName::Map20 => "Map20"@,
            MapName::Map21 => "Map21"@,
            MapName::Map22 => "Map22"@,
            MapName::Map30 => "Map30"@,
            MapName::Unknown => "Unknown"@,
        }
    }

    /// Looks `name` up in the vocabulary.
    pub fn lookup(name: &str) -> (r: Option<MapName>)
        ensures
            r == Self::known(name@),
    {
        let chars = chars_of(name);
        if spells(&chars, "Map1") {
            Some(MapName::Map1)
        } else if spells(&chars, "Map2") {
            Some(MapName::Map2)
        } else if spells(&chars, "Map3") {
            Some(MapName::Map3)
        } else if spells(&chars, "Map4") {
            Some(MapName::Map4)
        } else if spells(&chars, "Map8") {
            Some(MapName::Map8)
        } else if spells(&chars, "Map10") {
            Some(MapName::Map10)
        } else if spells(&chars, "Map11") {
            Some(MapName::Map11)
        } else if spells(&chars, "Map12") {
            Some(MapName::Map12)
        } else if spells(&chars, "Map14") {
            Some(MapName::Map14)
        } else if spells(&chars, "Map16") {
            Some(MapName::Map16)
        } else if spells(&chars, "Map18") {
            Some(MapName::Map18)
        } else if spells(&chars, "Map19") {
            Some(MapName::Map19)
        } else if spells(&chars, "Map20") {
            Some(MapName::Map20)
        } else if spells(&chars, "Map21") {
            Some(MapName::Map21)
        } else if spells(&chars, "Map22") {
            Some(MapName::Map22)
        } else if spells(&chars, "Map30") {
            Some(MapName::Map30)
        } else {
            None
        }
    }

    /// Decodes `name`; a text outside the vocabulary gives `Unknown`, never a failure.
    pub fn from_wire(name: &str) -> (r: MapName)
        ensures
            r == Self::decoded(name@),
    {
        match Self::lookup(name) {
            Some(v) => v,
            None => MapName::Unknown,
        }
    }

    /// The variant's name.
    pub fn name(&self) -> (r: &'static str)
        ensures
            r@ == self.label(),
    {
        match self {
            MapName::Map1 => "Map1",
            MapName::Map2 => "Map2",
            MapName::Map3 => "Map3",
            MapName::Map4 => "Map4",
            MapName::Map8 => "Map8",
            MapName::Map10 => "Map10",
            MapName::Map11 => "Map11",
            MapName::Map12 => "Map12",
            MapName::Map14 => "Map14",
            MapName::Map16 => "Map16",
            MapName::Map18 => "Map18",
            MapName::Map19 => "Map19",
            MapName::Map20 => "Map20",
            MapName::Map21 => "Map21",
            MapName::Map22 => "Map22",
            MapName::Map30 => "Map30",
            MapName::Unknown => "Unknown",
        }
    }
}

/// A string; one outside the vocabulary is read as `Unknown`.
impl FromJson for MapName {
    open spec fn fits(v: serde_json::Value) -> bool {
        json_text(v) is Some
    }

    open spec fn read_from(self, v: serde_json::Value) -> bool {
        json_text(v) matches Some(name) && self == Self::decoded(name)
    }

    fn decode(v: &serde_json::Value) -> (r: Option<MapName>) {
        Some(Self::from_wire(v.as_str()?))
    }
}

/// The elemental terrain that the map has taken on.
#[derive(Debug, Clone, Copy, PartialEq, Eq, Structural)]
pub enum MapTerrain {
    Default,
    Infernal,
    Ocean,
    Mountain,
    Cloud,
    Hextech,
    Chemtech,
}

impl MapTerrain {
    /// The variant that the client writes as `name`; `None` where it writes none so.
    pub open spec fn known(name: Seq<char>) -> Option<MapTerrain> {
        if name == "Default"@ {
            Some(MapTerrain::Default)
        } else if name == "Infernal"@ {
            Some(MapTerrain::Infernal)
        } else if name == "Ocean"@ {
            Some(MapTerrain::Ocean)
        } else if name == "Mountain"@ {
            Some(MapTerrain::Mountain)
        } else if name == "Cloud"@ {
            Some(MapTerrain::Cloud)
        } else if name == "Hextech"@ {
            Some(MapTerrain::Hextech)
        } else if name == "Chemtech"@ {
            Some(MapTerrain::Chemtech)
        } else {
            None
        }
    }

    /// What `name()` returns.
    pub open spec fn label(self) -> Seq<char> {
        match self {
            MapTerrain::Default => "Default"@,
            MapTerrain::Infernal => "Infernal"@,
            MapTerrain::Ocean => "Ocean"@,
            MapTerrain::Mountain => "Mountain"@,
            MapTerrain::Cloud => "Cloud"@,
            MapTerrain::Hextech => "Hextech"@,
            MapTerrain::Chemtech => "Chemtech"@,
        }
    }

    /// Looks `name` up in the vocabulary.
    pub fn lookup(name: &str) -> (r: Option<MapTerrain>)
        ensures
            r == Self::known(name@),
    {
        let chars = chars_of(name);
        if spells(&chars, "Default") {
            Some(MapTerrain::Default)
        } else if spells(&chars, "Infernal") {
            Some(MapTerrain::Infernal)
        } else if spells(&chars, "Ocean") {
            Some(MapTerrain::Ocean)
        } else if spells(&chars, "Mountain") {
            Some(MapTerrain::Mountain)
        } else if spells(&chars, "Cloud") {
            Some(MapTerrain::Cloud)
        } else if spells(&chars, "Hextech") {
            Some(MapTerrain::Hextech)
        } else if spells(&chars, "Chemtech") {
            Some(MapTerrain::Chemtech)
        } else {
            None
        }
    }

    /// The variant's name.
    pub fn name(&self) -> (r: &'static str)
        ensures
            r@ == self.label(),
    {
        match self {
            MapTerrain::Default => "Default",
            MapTerrain::Infernal => "Infernal",
            MapTerrain::Ocean => "Ocean",
            MapTerrain::Mountain => "Mountain",
            MapTerrain::Cloud => "Cloud",
            MapTerrain::Hextech => "Hextech",
            MapTerrain::Chemtech => "Chemtech",
        }
    }
}

/// A string of the vocabulary, and no other.
impl FromJson for MapTerrain {
    open spec fn fits(v: serde_json::Value) -> bool {
        json_text(v) matches Some(name) && Self::known(name) is Some
    }

    open spec fn read_from(self, v: serde_json::Value) -> bool {
        json_text(v) matches Some(name) && Self::known(name) == Some(self)
    }

    fn decode(v: &serde_json::Value) -> (r: Option<MapTerrain>) {
        Self::lookup(v.as_str()?)
    }
}

/// A name that a vocabulary does not list is read as the vocabulary's `Unknown`, and every
/// string holds a value of such a vocabulary: a name that the client has added since is no
/// reason for a decoder to fail.
pub proof fn lemma_unlisted_names_are_unknown(name: Seq<char>, v: serde_json::Value)
    ensures
        MapName::known(name) is None ==> MapName::decoded(name) == MapName::Unknown,
        GameMode::known(name) is None ==> GameMode::decoded(name) == GameMode::Unknown,
        Position::known(name) is None ==> Position::decoded(name) == Position::Unknown,
        TeamId::known(name) is None ==> TeamId::decoded(name) == TeamId::Unknown,
        ResourceType::known(name) is None ==> ResourceType::decoded(name)
            == ResourceType::Unknown,
        Turret::known(name) is None ==> Turret::decoded(name) == Turret::Unknown,
        Inhibitor::known(name) is None ==> Inhibitor::decoded(name) == Inhibitor::Unknown,
        json_text(v) is Some ==> MapName::fits(v) && GameMode::fits(v) && Position::fits(v)
            && TeamId::fits(v) && ResourceType::fits(v) && Turret::fits(v) && Inhibitor::fits(v),
{
}

} // verus!
