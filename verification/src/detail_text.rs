//! The texts of detail rows: skills, attack types, characters and targets.
use vstd::prelude::*;

use crate::combat_details::CombatDetailFilter;
use crate::model::{ActiveEffectKind, CharacterInfo, Hit, HitDirection, Language};
use crate::names::DisplayNames;
use crate::text::{
    as_text, blank, contains, held, holds, is_blank, occurs_at, occurs_in, or_else, same_text,
    shown, starts_with, strip_prefix, trim, trimmed,
};

verus! {

/// The stable identity of the skill behind a hit.
pub open spec fn skill_of(hit: Hit) -> Seq<char> {
    if hit.damage_component is Some {
        hit.damage_component->0@
    } else if hit.ability_name is Some {
        hit.ability_name->0@
    } else if hit.gameplay_effect_name is Some {
        hit.gameplay_effect_name->0@
    } else if hit.damage_name is Some {
        hit.damage_name->0@
    } else if hit.attack_type is Some {
        hit.attack_type->0@
    } else {
        "Unmapped Skill"@
    }
}

pub fn hit_skill_name_ref<'a>(hit: &'a Hit) -> (result: &'a str)
    ensures
        result@ == skill_of(*hit),
{
    match or_else(
        as_text(&hit.damage_component),
        or_else(
            as_text(&hit.ability_name),
            or_else(
                as_text(&hit.gameplay_effect_name),
                or_else(as_text(&hit.damage_name), as_text(&hit.attack_type)),
            ),
        ),
    ) {
        Some(name) => name,
        None => "Unmapped Skill",
    }
}

/// How an attack type reads: by its own label, or as a reaction of the Esper
/// Cycle by the reaction's label, or as it is.
pub open spec fn attack_type_text(names: DisplayNames, value: Seq<char>) -> Seq<char> {
    let prefix = "环合·"@;
    let reaction = value.skip(prefix.len() as int);
    match names.skill_labels.named(value) {
        Some(key) => names.text_of(key),
        None => if occurs_at(value, prefix, 0) && names.skill_labels.named(reaction) is Some {
            names.text_of("Esper Cycle"@) + " · "@ + names.text_of(
                names.skill_labels.named(reaction)->0,
            )
        } else {
            value
        },
    }
}

pub fn translate_attack_type(names: &DisplayNames, value: &str) -> (result: String)
    ensures
        result@ == attack_type_text(*names, value@),
{
    if let Some(key) = names.skill_labels.lookup(value) {
        return names.translate(key).to_owned();
    }
    if let Some(reaction) = strip_prefix(value, "环合·") {
        assert(reaction@ =~= value@.skip("环合·"@.len() as int));
        if let Some(key) = names.skill_labels.lookup(reaction) {
            let mut result: String = names.translate("Esper Cycle").to_owned();
            result.append(" · ");
            result.append(names.translate(key));
            return result;
        }
    }
    value.to_owned()
}

/// The name that the resource tables have for a hit's skill.
pub open spec fn resource_name(names: DisplayNames, hit: Hit) -> Option<Seq<char>> {
    let by_damage = match held(hit.gameplay_effect_name) {
        Some(name) => names.abilities.damage_names.named(name),
        None => None,
    };
    let by_ability = match held(hit.ability_name) {
        Some(name) => names.abilities.ability_names.named(name),
        None => None,
    };
    if by_damage is Some {
        by_damage
    } else {
        by_ability
    }
}

fn resolve_name<'a>(names: &'a DisplayNames, hit: &Hit) -> (result: Option<&'a str>)
    ensures
        shown(result) == resource_name(*names, *hit),
{
    let by_damage: Option<&'a str> = match &hit.gameplay_effect_name {
        Some(name) => names.abilities.damage_names.lookup(name.as_str()),
        None => None,
    };
    let by_ability: Option<&'a str> = match &hit.ability_name {
        Some(name) => names.abilities.ability_names.lookup(name.as_str()),
        None => None,
    };
    or_else(by_damage, by_ability)
}

/// The name that a hit carries itself.
pub open spec fn legacy_name(hit: Hit) -> Option<Seq<char>> {
    if hit.damage_component is Some {
        held(hit.damage_component)
    } else {
        held(hit.damage_name)
    }
}

/// A name that only developers should see.
pub open spec fn technical(name: Seq<char>) -> bool {
    occurs_at(name, "GA_"@, 0) || occurs_at(name, "GE_"@, 0) || occurs_at(name, "Buff_"@, 0)
        || occurs_in(name, "_"@)
}

pub fn is_technical_skill_name(value: &str) -> (result: bool)
    ensures
        result == technical(value@),
{
    starts_with(value, "GA_") || starts_with(value, "GE_") || starts_with(value, "Buff_")
        || contains(value, "_")
}

/// How a skill summary is named: by the resource tables; else by the name
/// that the hit carries, unless that is technical; else by the attack type;
/// else by whatever name there is.
pub open spec fn skill_text(names: DisplayNames, hit: Hit) -> Seq<char> {
    let legacy = match legacy_name(hit) {
        Some(name) => if blank(name) {
            None
        } else {
            Some(name)
        },
        None => None,
    };
    match resource_name(names, hit) {
        Some(name) => name,
        None => if legacy is Some && !technical(legacy->0) {
            legacy->0
        } else if hit.attack_type is Some && !blank(hit.attack_type->0@) {
            attack_type_text(names, hit.attack_type->0@)
        } else if legacy is Some {
            legacy->0
        } else {
            skill_of(hit)
        },
    }
}

pub fn skill_summary_display_name(names: &DisplayNames, hit: &Hit) -> (result: String)
    ensures
        result@ == skill_text(*names, *hit),
{
    if let Some(name) = resolve_name(names, hit) {
        return name.to_owned();
    }
    let legacy: Option<&str> = match or_else(
        as_text(&hit.damage_component),
        as_text(&hit.damage_name),
    ) {
        Some(name) => if is_blank(name) {
            None
        } else {
            Some(name)
        },
        None => None,
    };
    if let Some(name) = legacy {
        if !is_technical_skill_name(name) {
            return name.to_owned();
        }
    }
    if let Some(attack_type) = &hit.attack_type {
        if !is_blank(attack_type.as_str()) {
            return translate_attack_type(names, attack_type.as_str());
        }
    }
    match legacy {
        Some(name) => name.to_owned(),
        None => hit_skill_name_ref(hit).to_owned(),
    }
}

/// The attack type part of a row's type label.
pub open spec fn kind_part(names: DisplayNames, hit: Hit) -> Option<Seq<char>> {
    if hit.attack_type is Some && hit.attack_type->0@.len() > 0 {
        Some(attack_type_text(names, hit.attack_type->0@))
    } else {
        None
    }
}

/// The skill part of a row's type label.
pub open spec fn name_part(names: DisplayNames, hit: Hit) -> Option<Seq<char>> {
    if hit.ability_name is Some || hit.gameplay_effect_name is Some || hit.damage_component is Some
        || hit.damage_name is Some {
        Some(
            if resource_name(names, hit) is Some {
                resource_name(names, hit)->0
            } else if legacy_name(hit) is Some {
                legacy_name(hit)->0
            } else {
                skill_of(hit)
            },
        )
    } else {
        None
    }
}

/// A row's type label.
pub open spec fn type_text(names: DisplayNames, hit: Hit) -> Seq<char> {
    match hit.direction {
        HitDirection::Incoming => names.text_of("Incoming"@),
        HitDirection::Unknown => names.text_of("Candidate Output"@),
        HitDirection::Outgoing => match (kind_part(names, hit), name_part(names, hit)) {
            (Some(kind), Some(name)) => if held(hit.attack_type) != Some(name) && kind != name {
                kind + "·"@ + name
            } else {
                kind
            },
            (Some(kind), None) => kind,
            (None, Some(name)) => name,
            (None, None) => names.text_of("Unmapped Skill"@),
        },
    }
}

pub fn hit_type_display_text(names: &DisplayNames, hit: &Hit) -> (result: String)
    ensures
        result@ == type_text(*names, *hit),
{
    match hit.direction {
        HitDirection::Incoming => {
            return names.translate("Incoming").to_owned();
        },
        HitDirection::Unknown => {
            return names.translate("Candidate Output").to_owned();
        },
        HitDirection::Outgoing => {},
    }
    let kind: Option<String> = match &hit.attack_type {
        Some(attack_type) => if attack_type.as_str().is_empty() {
            None
        } else {
            Some(translate_attack_type(names, attack_type.as_str()))
        },
        None => None,
    };
    let named = hit.ability_name.is_some() || hit.gameplay_effect_name.is_some()
        || hit.damage_component.is_some() || hit.damage_name.is_some();
    let name: Option<&str> = if named {
        match or_else(
            resolve_name(names, hit),
            or_else(as_text(&hit.damage_component), as_text(&hit.damage_name)),
        ) {
            Some(name) => Some(name),
            None => Some(hit_skill_name_ref(hit)),
        }
    } else {
        None
    };
    match (kind, name) {
        (Some(kind), Some(name)) => {
            if !holds(&hit.attack_type, name) && !same_text(kind.as_str(), name) {
                let mut result: String = kind;
                result.append("·");
                result.append(name);
                result
            } else {
                kind
            }
        },
        (Some(kind), None) => kind,
        (None, Some(name)) => name.to_owned(),
        (None, None) => names.translate("Unmapped Skill").to_owned(),
    }
}

/// A character's name in a language, or the name that stands in for it.
pub open spec fn localized_name(
    info: Option<CharacterInfo>,
    language: Language,
    fallback: Seq<char>,
) -> Seq<char> {
    match info {
        Some(info) => {
            let own = match language {
                Language::SimplifiedChinese => trimmed(info.name_zh@),
                Language::English | Language::Japanese => trimmed(info.name_en@),
            };
            if own.len() > 0 {
                own
            } else {
                fallback
            }
        },
        None => fallback,
    }
}

pub fn localized_character_name(
    info: Option<&CharacterInfo>,
    language: Language,
    fallback: &str,
) -> (result: String)
    ensures
        result@ == localized_name(
            match info {
                Some(info) => Some(*info),
                None => None,
            },
            language,
            fallback@,
        ),
{
    if let Some(info) = info {
        let own = match language {
            Language::SimplifiedChinese => trim(info.name_zh.as_str()),
            Language::English | Language::Japanese => trim(info.name_en.as_str()),
        };
        if !own.is_empty() {
            return own.to_owned();
        }
    }
    fallback.to_owned()
}

/// The name of a hit's target in a language, or in the next best one. A blank
/// name counts as none.
pub open spec fn target_name(hit: Hit, language: Language) -> Option<Seq<char>> {
    let zh = held(hit.target_name);
    let en = if hit.target_name_en is Some {
        held(hit.target_name_en)
    } else {
        zh
    };
    let ja = if hit.target_name_ja is Some {
        held(hit.target_name_ja)
    } else {
        en
    };
    let name = match language {
        Language::SimplifiedChinese => zh,
        Language::English => en,
        Language::Japanese => ja,
    };
    if name is Some && blank(name->0) {
        None
    } else {
        name
    }
}

pub fn localized_target_name<'a>(hit: &'a Hit, language: Language) -> (result: Option<&'a str>)
    ensures
        shown(result) == target_name(*hit, language),
{
    let zh: Option<&'a str> = as_text(&hit.target_name);
    let en: Option<&'a str> = or_else(as_text(&hit.target_name_en), zh);
    let ja: Option<&'a str> = or_else(as_text(&hit.target_name_ja), en);
    let name: Option<&'a str> = match language {
        Language::SimplifiedChinese => zh,
        Language::English => en,
        Language::Japanese => ja,
    };
    match name {
        Some(text) => if is_blank(text) {
            None
        } else {
            Some(text)
        },
        None => None,
    }
}

/// The identity of a filter towards frontends.
pub open spec fn filter_code(filter: CombatDetailFilter) -> Seq<char> {
    match filter {
        CombatDetailFilter::All => "all"@,
        CombatDetailFilter::Outgoing => "outgoing"@,
        CombatDetailFilter::Incoming => "incoming"@,
        CombatDetailFilter::CharacterAttributed => "characterAttributed"@,
        CombatDetailFilter::CharacterDirect => "characterDirect"@,
        CombatDetailFilter::ReactionDamage => "reactionDamage"@,
        CombatDetailFilter::SharedMechanics => "sharedMechanics"@,
        CombatDetailFilter::Unattributed => "unattributed"@,
        CombatDetailFilter::QteType(_) => "qteType"@,
    }
}

pub fn filter_id(filter: &CombatDetailFilter) -> (result: &'static str)
    ensures
        result@ == filter_code(*filter),
{
    match filter {
        CombatDetailFilter::All => "all",
        CombatDetailFilter::Outgoing => "outgoing",
        CombatDetailFilter::Incoming => "incoming",
        CombatDetailFilter::CharacterAttributed => "characterAttributed",
        CombatDetailFilter::CharacterDirect => "characterDirect",
        CombatDetailFilter::ReactionDamage => "reactionDamage",
        CombatDetailFilter::SharedMechanics => "sharedMechanics",
        CombatDetailFilter::Unattributed => "unattributed",
        CombatDetailFilter::QteType(_) => "qteType",
    }
}

/// The identity of an effect kind towards frontends.
pub open spec fn kind_code(kind: ActiveEffectKind) -> Seq<char> {
    match kind {
        ActiveEffectKind::GameplayEffect => "ge"@,
        ActiveEffectKind::Buff => "buff"@,
        ActiveEffectKind::Debuff => "debuff"@,
    }
}

pub fn effect_kind_id(kind: ActiveEffectKind) -> (result: &'static str)
    ensures
        result@ == kind_code(kind),
{
    match kind {
        ActiveEffectKind::GameplayEffect => "ge",
        ActiveEffectKind::Buff => "buff",
        ActiveEffectKind::Debuff => "debuff",
    }
}

/// A skill that the resource tables know, or that has a plain name of its own,
/// never shows a technical name.
pub proof fn known_skills_never_show_technical_names(names: DisplayNames, hit: Hit)
    requires
        resource_name(names, hit) is None,
        hit.attack_type is Some,
        !blank(hit.attack_type->0@),
        !technical(attack_type_text(names, hit.attack_type->0@)),
    ensures
        !technical(skill_text(names, hit)),
{
}

} // verus!
