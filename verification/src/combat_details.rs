//! Filters and asset keys for hit detail rows, shared by every frontend.
use std::collections::HashMap;

use vstd::prelude::*;

use crate::double::Double;
use crate::model::{CharacterInfo, Hit, HitDirection};
use crate::text::{
    as_text, contains, held, holds, occurs_at, occurs_in, or_else, same_text, shown, starts_with,
    strip_prefix,
};

verus! {

broadcast use vstd::std_specs::hash::group_hash_axioms;

/// Which hits a detail page lists.
#[derive(Clone, Debug, PartialEq, Eq)]
pub enum CombatDetailFilter {
    All,
    Outgoing,
    Incoming,
    CharacterAttributed,
    CharacterDirect,
    ReactionDamage,
    SharedMechanics,
    Unattributed,
    QteType(String),
}

impl Default for CombatDetailFilter {
    fn default() -> (result: Self)
        ensures
            result == CombatDetailFilter::All,
    {
        CombatDetailFilter::All
    }
}

impl CombatDetailFilter {
    /// Whether the filter lists a hit.
    pub open spec fn selects(self, hit: Hit) -> bool {
        let incoming = hit.direction == HitDirection::Incoming;
        let owned = hit.direction == HitDirection::Outgoing && hit.char_known;
        match self {
            CombatDetailFilter::All => true,
            CombatDetailFilter::Outgoing => !incoming,
            CombatDetailFilter::Incoming => incoming,
            CombatDetailFilter::CharacterAttributed => owned && !hit.class.unbalance,
            CombatDetailFilter::CharacterDirect => owned && !hit.class.unbalance
                && hit.class.reaction_damage.below(hit.class.total_damage),
            CombatDetailFilter::ReactionDamage => owned && (Double { bits: 0 }).below(
                hit.class.reaction_damage,
            ),
            CombatDetailFilter::SharedMechanics => !incoming && hit.class.unbalance,
            CombatDetailFilter::Unattributed => !incoming && !hit.class.unbalance && !owned,
            CombatDetailFilter::QteType(attack_type) => !incoming && (held(hit.attack_type) == Some(
                attack_type@,
            ) || held(hit.follow_up_attack_type) == Some(attack_type@)),
        }
    }

    pub fn matches(&self, hit: &Hit) -> (result: bool)
        ensures
            result == self.selects(*hit),
    {
        match self {
            CombatDetailFilter::All => true,
            CombatDetailFilter::Outgoing => !hit.direction.is_incoming(),
            CombatDetailFilter::Incoming => hit.direction.is_incoming(),
            CombatDetailFilter::CharacterAttributed => hit.direction.is_outgoing() && hit.char_known
                && !hit.class.unbalance,
            CombatDetailFilter::CharacterDirect => hit.direction.is_outgoing() && hit.char_known
                && !hit.class.unbalance && hit.class.reaction_damage.is_below(
                hit.class.total_damage,
            ),
            CombatDetailFilter::ReactionDamage => hit.direction.is_outgoing() && hit.char_known
                && hit.class.reaction_damage.is_positive(),
            CombatDetailFilter::SharedMechanics => !hit.direction.is_incoming()
                && hit.class.unbalance,
            CombatDetailFilter::Unattributed => !(hit.direction.is_incoming() || hit.class.unbalance
                || (hit.direction.is_outgoing() && hit.char_known)),
            CombatDetailFilter::QteType(attack_type) => !hit.direction.is_incoming() && (holds(
                &hit.attack_type,
                attack_type.as_str(),
            ) || holds(&hit.follow_up_attack_type, attack_type.as_str())),
        }
    }
}

/// The asset index of an Esper Cycle attack type.
pub open spec fn reaction_key(attack_type: Seq<char>) -> Option<u8> {
    let prefix = "环合·"@;
    let reaction = attack_type.skip(prefix.len() as int);
    if !occurs_at(attack_type, prefix, 0) {
        None
    } else if reaction == "创生"@ || reaction == "创生花"@ {
        Some(1)
    } else if reaction == "覆纹"@ {
        Some(2)
    } else if reaction == "黯星"@ {
        Some(3)
    } else if reaction == "浊燃"@ || reaction == "灼燃"@ {
        Some(4)
    } else if reaction == "浸染"@ {
        Some(5)
    } else if reaction == "延滞"@ {
        Some(6)
    } else if reaction == "盈蓄"@ {
        Some(7)
    } else if reaction == "失谐"@ {
        Some(8)
    } else {
        None
    }
}

/// The localized reaction-text asset of a hit.
pub fn reaction_text_key_for_hit(hit: &Hit) -> (result: Option<u8>)
    ensures
        result == (match held(hit.attack_type) {
            Some(attack_type) => reaction_key(attack_type),
            None => None,
        }),
{
    match &hit.attack_type {
        Some(attack_type) => reaction_text_key_from_trigger_attack_type(attack_type.as_str()),
        None => None,
    }
}

pub fn reaction_text_key_from_trigger_attack_type(attack_type: &str) -> (result: Option<u8>)
    ensures
        result == reaction_key(attack_type@),
{
    match strip_prefix(attack_type, "环合·") {
        None => None,
        Some(reaction) => {
            assert(reaction@ =~= attack_type@.skip("环合·"@.len() as int));
            if same_text(reaction, "创生") || same_text(reaction, "创生花") {
                Some(1)
            } else if same_text(reaction, "覆纹") {
                Some(2)
            } else if same_text(reaction, "黯星") {
                Some(3)
            } else if same_text(reaction, "浊燃") || same_text(reaction, "灼燃") {
                Some(4)
            } else if same_text(reaction, "浸染") {
                Some(5)
            } else if same_text(reaction, "延滞") {
                Some(6)
            } else if same_text(reaction, "盈蓄") {
                Some(7)
            } else if same_text(reaction, "失谐") {
                Some(8)
            } else {
                None
            }
        },
    }
}

/// The digit set of a mixed-attribute attack type.
pub open spec fn mixed_key(attack_type: Seq<char>, attribute: Option<Seq<char>>) -> Option<
    Seq<char>,
> {
    let light = attribute == Some("光"@);
    let phase = attribute == Some("相"@);
    let soul = attribute == Some("魂"@);
    let dark = attribute == Some("暗"@);
    if occurs_at(attack_type, "环合·"@, 0) {
        None
    } else if attack_type == "创生"@ || attack_type == "创生花"@ {
        Some("Guangling_G"@)
    } else if attack_type == "覆纹"@ {
        Some("lingzhou_L"@)
    } else if attack_type == "黯星"@ {
        Some("Anhun_A"@)
    } else if attack_type == "浊燃"@ {
        Some("Zhouan_A"@)
    } else if attack_type == "延滞"@ {
        if light {
            Some("Guangxiang_G"@)
        } else if phase {
            Some("Guangxiang_X"@)
        } else {
            None
        }
    } else if attack_type == "浸染"@ || attack_type == "魂相"@ {
        if soul {
            Some("Hunxiang_H"@)
        } else if phase {
            Some("Hunxiang_X"@)
        } else {
            None
        }
    } else if attack_type == "盈蓄"@ {
        if light {
            Some("Guangling_G"@)
        } else if phase {
            Some("Guangxiang_X"@)
        } else {
            None
        }
    } else if attack_type == "失谐"@ {
        if dark {
            Some("Anhun_A"@)
        } else {
            None
        }
    } else {
        None
    }
}

pub fn mixed_damage_digit_key(attack_type: &str, source_attribute: Option<&str>) -> (result: Option<
    &'static str,
>)
    ensures
        shown(result) == mixed_key(attack_type@, shown(source_attribute)),
{
    if starts_with(attack_type, "环合·") {
        return None;
    }
    if same_text(attack_type, "创生") || same_text(attack_type, "创生花") {
        return Some("Guangling_G");
    }
    if same_text(attack_type, "覆纹") {
        return Some("lingzhou_L");
    }
    if same_text(attack_type, "黯星") {
        return Some("Anhun_A");
    }
    if same_text(attack_type, "浊燃") {
        return Some("Zhouan_A");
    }
    match source_attribute {
        None => None,
        Some(attribute) => {
            if same_text(attack_type, "延滞") {
                if same_text(attribute, "光") {
                    Some("Guangxiang_G")
                } else if same_text(attribute, "相") {
                    Some("Guangxiang_X")
                } else {
                    None
                }
            } else if same_text(attack_type, "浸染") || same_text(attack_type, "魂相") {
                if same_text(attribute, "魂") {
                    Some("Hunxiang_H")
                } else if same_text(attribute, "相") {
                    Some("Hunxiang_X")
                } else {
                    None
                }
            } else if same_text(attack_type, "盈蓄") {
                if same_text(attribute, "光") {
                    Some("Guangling_G")
                } else if same_text(attribute, "相") {
                    Some("Guangxiang_X")
                } else {
                    None
                }
            } else if same_text(attack_type, "失谐") {
                if same_text(attribute, "暗") {
                    Some("Anhun_A")
                } else {
                    None
                }
            } else {
                None
            }
        },
    }
}

/// The attribute that a hit's digits are drawn in: its own, or else its
/// character's.
pub open spec fn source_attribute(hit: Hit, characters: Map<u32, CharacterInfo>) -> Option<
    Seq<char>,
> {
    if hit.damage_attribute is Some {
        held(hit.damage_attribute)
    } else if characters.dom().contains(hit.char_id) {
        held(characters[hit.char_id].attribute)
    } else {
        None
    }
}

/// The digit set of a hit's own damage.
pub open spec fn digit_key(hit: Hit, characters: Map<u32, CharacterInfo>) -> Option<Seq<char>> {
    let attribute = source_attribute(hit, characters);
    if hit.direction == HitDirection::Incoming {
        Some("HP"@)
    } else if held(hit.attack_type) == Some("倾陷伤害"@) || (hit.damage_name is Some && occurs_in(
        hit.damage_name->0@,
        "倾陷"@,
    )) {
        Some("真实"@)
    } else {
        match held(hit.attack_type) {
            Some(attack_type) => match mixed_key(attack_type, attribute) {
                Some(key) => Some(key),
                None => attribute,
            },
            None => attribute,
        }
    }
}

/// The digit set that a hit's own damage is drawn with.
pub fn damage_digit_key_for_hit<'a>(
    hit: &'a Hit,
    characters: &'a HashMap<u32, CharacterInfo>,
) -> (result: Option<&'a str>)
    ensures
        shown(result) == digit_key(*hit, characters@),
{
    if hit.direction.is_incoming() {
        return Some("HP");
    }
    let of_character: Option<&'a str> = match characters.get(&hit.char_id) {
        Some(character) => as_text(&character.attribute),
        None => None,
    };
    let attribute: Option<&'a str> = or_else(as_text(&hit.damage_attribute), of_character);
    let break_damage = holds(&hit.attack_type, "倾陷伤害") || match &hit.damage_name {
        Some(name) => contains(name.as_str(), "倾陷"),
        None => false,
    };
    if break_damage {
        return Some("真实");
    }
    let mixed: Option<&'a str> = match &hit.attack_type {
        Some(attack_type) => match mixed_damage_digit_key(attack_type.as_str(), attribute) {
            Some(key) => Some(key),
            None => None,
        },
        None => None,
    };
    or_else(mixed, attribute)
}

/// The digit set of a hit's follow-up damage.
pub open spec fn follow_up_digit_key(hit: Hit) -> Option<Seq<char>> {
    let attribute = held(hit.follow_up_damage_attribute);
    if attribute is None {
        None
    } else {
        match held(hit.follow_up_attack_type) {
            Some(attack_type) => match mixed_key(attack_type, attribute) {
                Some(key) => Some(key),
                None => attribute,
            },
            None => attribute,
        }
    }
}

/// The digit set that a hit's follow-up damage is drawn with.
pub fn follow_up_damage_digit_key_for_hit<'a>(hit: &'a Hit) -> (result: Option<&'a str>)
    ensures
        shown(result) == follow_up_digit_key(*hit),
{
    let attribute: &'a str = match &hit.follow_up_damage_attribute {
        Some(attribute) => attribute.as_str(),
        None => {
            return None;
        },
    };
    let mixed: Option<&'a str> = match &hit.follow_up_attack_type {
        Some(attack_type) => match mixed_damage_digit_key(attack_type.as_str(), Some(attribute)) {
            Some(key) => Some(key),
            None => None,
        },
        None => None,
    };
    or_else(mixed, Some(attribute))
}

/// Every hit is incoming or in the outgoing list, and not both; and every hit
/// falls under exactly one of incoming, character-attributed, shared and
/// unattributed damage.
pub proof fn attribution_filters_partition_the_hits(hit: Hit)
    ensures
        CombatDetailFilter::Incoming.selects(hit) <==> !CombatDetailFilter::Outgoing.selects(hit),
        ({
            let incoming = CombatDetailFilter::Incoming.selects(hit);
            let attributed = CombatDetailFilter::CharacterAttributed.selects(hit);
            let shared = CombatDetailFilter::SharedMechanics.selects(hit);
            let unattributed = CombatDetailFilter::Unattributed.selects(hit);
            &&& incoming || attributed || shared || unattributed
            &&& !(incoming && attributed) && !(incoming && shared) && !(incoming && unattributed)
            &&& !(attributed && shared) && !(attributed && unattributed)
            &&& !(shared && unattributed)
        }),
        CombatDetailFilter::CharacterDirect.selects(hit)
            ==> CombatDetailFilter::CharacterAttributed.selects(hit),
{
}

} // verus!
