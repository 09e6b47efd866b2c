//! What the texts, keys and names of detail rows stand for.
use std::collections::HashMap;

use vstd::prelude::*;

use crate::combat_details::{
    damage_digit_key_for_hit, follow_up_damage_digit_key_for_hit, mixed_damage_digit_key,
    reaction_text_key_for_hit, reaction_text_key_from_trigger_attack_type, CombatDetailFilter,
};
use crate::detail_text::{
    effect_kind_id, filter_id, hit_skill_name_ref, hit_type_display_text, is_technical_skill_name,
    localized_character_name, localized_target_name, skill_summary_display_name,
    translate_attack_type,
};
use crate::model::{ActiveEffectKind, CharacterInfo, Hit, Language};
use crate::names::{first_entry_is_first, DisplayNames, NameTable};
use crate::text::{blank, held, occurs_at, occurs_in, shown, trims_to};

verus! {

/// A name that is found is that of the first entry with the key; where none is
/// found no entry has the key.
pub proof fn names_are_found_by_their_key(table: &NameTable, key: &str, name: Option<&str>)
    requires
        call_ensures(NameTable::lookup, (table, key), name),
    ensures
        name matches Some(found) ==> exists|at: int|
            {
                &&& 0 <= at < table.entries@.len()
                &&& (#[trigger] table.entries@[at]).key@ == key@
                &&& table.entries@[at].name@ == found@
                &&& forall|earlier: int|
                    0 <= earlier < at ==> (#[trigger] table.entries@[earlier]).key@ != key@
            },
        name is None ==> forall|at: int|
            0 <= at < table.entries@.len() ==> (#[trigger] table.entries@[at]).key@ != key@,
{
    first_entry_is_first(table.entries@, key@);
    if name is Some {
        let at = crate::names::first_entry(table.entries@, key@)->0;
        assert(table.entries@[at].key@ == key@);
    }
}

/// A key with a translation reads as the translation, any other as itself.
pub proof fn keys_read_as_translated(
    names: &DisplayNames,
    key: &str,
    found: Option<&str>,
    text: &str,
)
    requires
        call_ensures(NameTable::lookup, (&names.translations, key), found),
        call_ensures(DisplayNames::translate, (names, key), text),
    ensures
        found matches Some(translation) ==> text@ == translation@,
        found is None ==> text@ == key@,
{
}

/// A skill goes by the first of these that its hit has: the damage component,
/// the ability, the effect, the damage, the attack type. One with none of them
/// is unmapped.
pub proof fn skills_go_by_the_first_name_there_is(hit: &Hit, name: &str)
    requires
        call_ensures(hit_skill_name_ref, (hit,), name),
    ensures
        hit.damage_component matches Some(component) ==> name@ == component@,
        hit.damage_component is None ==> {
            &&& hit.ability_name matches Some(ability) ==> name@ == ability@
            &&& hit.ability_name is None ==> {
                &&& hit.gameplay_effect_name matches Some(effect) ==> name@ == effect@
                &&& hit.gameplay_effect_name is None ==> {
                    &&& hit.damage_name matches Some(damage) ==> name@ == damage@
                    &&& hit.damage_name is None ==> {
                        &&& hit.attack_type matches Some(kind) ==> name@ == kind@
                        &&& hit.attack_type is None ==> name@ == "Unmapped Skill"@
                    }
                }
            }
        },
{
}

/// An attack type reads by its own label; one of the Esper Cycle without a
/// label of its own reads as that cycle with the reaction's label; any other
/// reads as it is.
pub proof fn attack_types_read_by_their_label(
    names: &DisplayNames,
    value: &str,
    reaction: &str,
    text: String,
    own: Option<&str>,
    within: Option<&str>,
    own_text: &str,
    within_text: &str,
    cycle: &str,
)
    requires
        call_ensures(translate_attack_type, (names, value), text),
        call_ensures(NameTable::lookup, (&names.skill_labels, value), own),
        call_ensures(NameTable::lookup, (&names.skill_labels, reaction), within),
        own matches Some(key) ==> call_ensures(DisplayNames::translate, (names, key), own_text),
        within matches Some(key) ==> call_ensures(
            DisplayNames::translate,
            (names, key),
            within_text,
        ),
        call_ensures(DisplayNames::translate, (names, "Esper Cycle"), cycle),
    ensures
        own is Some ==> text@ == own_text@,
        own is None && value@ == "环合·"@ + reaction@ && within is Some ==> text@ == cycle@ + " · "@
            + within_text@,
        own is None && value@ == "环合·"@ + reaction@ && within is None ==> text@ == value@,
        own is None && !occurs_at(value@, "环合·"@, 0) ==> text@ == value@,
{
    let prefix = "环合·"@;
    if value@ == prefix + reaction@ {
        assert(value@.skip(prefix.len() as int) =~= reaction@);
        assert(value@.subrange(0, prefix.len() as int) =~= prefix);
    }
}

/// A name is technical by its prefix or by an underscore.
pub proof fn technical_names_are_told_by_their_form(name: &str, technical: bool)
    requires
        call_ensures(is_technical_skill_name, (name,), technical),
    ensures
        technical <==> occurs_at(name@, "GA_"@, 0) || occurs_at(name@, "GE_"@, 0) || occurs_at(
            name@,
            "Buff_"@,
            0,
        ) || occurs_in(name@, "_"@),
{
}

/// A skill is shown by the tables where they know its effect or its ability;
/// else by a plain name of its own; else by its attack type; and only then by
/// a technical name.
pub proof fn skills_are_shown_by_the_best_name(
    names: &DisplayNames,
    hit: &Hit,
    text: String,
    by_effect: Option<&str>,
    by_ability: Option<&str>,
    effect: &str,
    ability: &str,
    own: &str,
    technical: bool,
    kind: &str,
    kind_text: String,
)
    requires
        call_ensures(skill_summary_display_name, (names, hit), text),
        held(hit.gameplay_effect_name) == Some(effect@),
        held(hit.ability_name) == Some(ability@),
        held(hit.damage_component) == Some(own@),
        held(hit.attack_type) == Some(kind@),
        !blank(own@),
        !blank(kind@),
        call_ensures(NameTable::lookup, (&names.abilities.damage_names, effect), by_effect),
        call_ensures(NameTable::lookup, (&names.abilities.ability_names, ability), by_ability),
        call_ensures(is_technical_skill_name, (own,), technical),
        call_ensures(translate_attack_type, (names, kind), kind_text),
    ensures
        by_effect matches Some(name) ==> text@ == name@,
        by_effect is None ==> (by_ability matches Some(name) ==> text@ == name@),
        by_effect is None && by_ability is None && !technical ==> text@ == own@,
        by_effect is None && by_ability is None && technical ==> text@ == kind_text@,
{
}

/// A row's type is that of an incoming hit, of a candidate, or the attack type
/// with the skill's name behind it where that says more.
pub proof fn rows_are_typed_by_kind_and_name(
    names: &DisplayNames,
    hit: &Hit,
    text: String,
    incoming: &str,
    candidate: &str,
    unmapped: &str,
    kind: &str,
    kind_text: String,
)
    requires
        call_ensures(hit_type_display_text, (names, hit), text),
        call_ensures(DisplayNames::translate, (names, "Incoming"), incoming),
        call_ensures(DisplayNames::translate, (names, "Candidate Output"), candidate),
        call_ensures(DisplayNames::translate, (names, "Unmapped Skill"), unmapped),
        hit.attack_type is Some ==> held(hit.attack_type) == Some(kind@),
        call_ensures(translate_attack_type, (names, kind), kind_text),
    ensures
        hit.direction is Incoming ==> text@ == incoming@,
        hit.direction is Unknown ==> text@ == candidate@,
        hit.direction is Outgoing && hit.damage_component is None && hit.damage_name is None
            && hit.ability_name is None && hit.gameplay_effect_name is None ==> {
            &&& hit.attack_type is None ==> text@ == unmapped@
            &&& hit.attack_type is Some && kind@.len() > 0 ==> text@ == kind_text@
        },
        hit.direction is Outgoing && hit.damage_component is Some && hit.ability_name is None
            && hit.gameplay_effect_name is None ==> {
            let name = hit.damage_component->0@;
            &&& hit.attack_type is None ==> text@ == name
            &&& hit.attack_type is Some && kind@.len() > 0 && kind@ != name && kind_text@ != name
                ==> text@ == kind_text@ + "·"@ + name
            &&& hit.attack_type is Some && kind@.len() > 0 && (kind@ == name || kind_text@ == name)
                ==> text@ == kind_text@
        },
{
}

/// A character goes by the name in the user's language, without white space
/// around it, and by the stand-in where there is none.
pub proof fn characters_go_by_their_localized_name(
    info: &CharacterInfo,
    fallback: &str,
    chinese: String,
    english: String,
    japanese: String,
    unknown: String,
)
    requires
        call_ensures(
            localized_character_name,
            (Some(info), Language::SimplifiedChinese, fallback),
            chinese,
        ),
        call_ensures(localized_character_name, (Some(info), Language::English, fallback), english),
        call_ensures(
            localized_character_name,
            (Some(info), Language::Japanese, fallback),
            japanese,
        ),
        call_ensures(
            localized_character_name,
            (None::<&CharacterInfo>, Language::English, fallback),
            unknown,
        ),
    ensures
        unknown@ == fallback@,
        english@ == japanese@,
        forall|own: Seq<char>|
            #[trigger] trims_to(info.name_zh@, own) ==> chinese@ == (if own.len() > 0 {
                own
            } else {
                fallback@
            }),
        forall|own: Seq<char>|
            #[trigger] trims_to(info.name_en@, own) ==> english@ == (if own.len() > 0 {
                own
            } else {
                fallback@
            }),
{
    assert forall|own: Seq<char>| #[trigger] trims_to(info.name_zh@, own) implies chinese@ == (
    if own.len() > 0 {
        own
    } else {
        fallback@
    }) by {
        crate::text::trimming_is_unique(
            info.name_zh@,
            own,
            crate::text::trimmed(info.name_zh@),
        );
    }
    assert forall|own: Seq<char>| #[trigger] trims_to(info.name_en@, own) implies english@ == (
    if own.len() > 0 {
        own
    } else {
        fallback@
    }) by {
        crate::text::trimming_is_unique(
            info.name_en@,
            own,
            crate::text::trimmed(info.name_en@),
        );
    }
}

/// A target goes by the name in the user's language or in the next best one:
/// Japanese falls back to English, English to Chinese. A blank name is none.
pub proof fn targets_go_by_the_next_best_name(
    hit: &Hit,
    chinese: Option<&str>,
    english: Option<&str>,
    japanese: Option<&str>,
)
    requires
        call_ensures(localized_target_name, (hit, Language::SimplifiedChinese), chinese),
        call_ensures(localized_target_name, (hit, Language::English), english),
        call_ensures(localized_target_name, (hit, Language::Japanese), japanese),
    ensures
        hit.target_name is None ==> chinese is None,
        hit.target_name matches Some(name) ==> shown(chinese) == (if blank(name@) {
            None
        } else {
            Some(name@)
        }),
        hit.target_name_en matches Some(name) ==> shown(english) == (if blank(name@) {
            None
        } else {
            Some(name@)
        }),
        hit.target_name_en is None ==> shown(english) == shown(chinese),
        hit.target_name_ja matches Some(name) ==> shown(japanese) == (if blank(name@) {
            None
        } else {
            Some(name@)
        }),
        hit.target_name_ja is None ==> shown(japanese) == shown(english),
{
}

/// Every filter has a name of its own towards frontends.
pub proof fn filters_have_names_of_their_own(filter: &CombatDetailFilter, id: &'static str)
    requires
        call_ensures(filter_id, (filter,), id),
    ensures
        *filter is All ==> id@ == "all"@,
        *filter is Outgoing ==> id@ == "outgoing"@,
        *filter is Incoming ==> id@ == "incoming"@,
        *filter is CharacterAttributed ==> id@ == "characterAttributed"@,
        *filter is CharacterDirect ==> id@ == "characterDirect"@,
        *filter is ReactionDamage ==> id@ == "reactionDamage"@,
        *filter is SharedMechanics ==> id@ == "sharedMechanics"@,
        *filter is Unattributed ==> id@ == "unattributed"@,
        *filter is QteType ==> id@ == "qteType"@,
{
}

/// Every kind of effect has a name of its own towards frontends.
pub proof fn effect_kinds_have_names_of_their_own(
    left: ActiveEffectKind,
    right: ActiveEffectKind,
    ours: &'static str,
    theirs: &'static str,
)
    requires
        call_ensures(effect_kind_id, (left,), ours),
        call_ensures(effect_kind_id, (right,), theirs),
    ensures
        ours@ == theirs@ <==> left == right,
        left is GameplayEffect ==> ours@ == "ge"@,
        left is Buff ==> ours@ == "buff"@,
        left is Debuff ==> ours@ == "debuff"@,
{
    reveal_strlit("ge");
    reveal_strlit("buff");
    reveal_strlit("debuff");
    assert("ge"@[0] == 'g');
    assert("buff"@[0] == 'b');
    assert("debuff"@[0] == 'd');
}

/// A hit taken is drawn as health, a break as true damage, whatever else is
/// known of it; any other hit in its own attribute, or else in that of its
/// character, unless its attack type is a mixture.
pub proof fn digits_are_drawn_in_the_hits_attribute(
    hit: &Hit,
    characters: &HashMap<u32, CharacterInfo>,
    key: Option<&str>,
)
    requires
        call_ensures(damage_digit_key_for_hit, (hit, characters), key),
    ensures
        hit.direction is Incoming ==> shown(key) == Some("HP"@),
        hit.direction !is Incoming && held(hit.attack_type) == Some("倾陷伤害"@) ==> shown(key)
            == Some("真实"@),
        hit.direction !is Incoming && held(hit.attack_type) != Some("倾陷伤害"@)
            && hit.damage_name is Some && occurs_in(hit.damage_name->0@, "倾陷"@) ==> shown(key)
            == Some("真实"@),
        hit.direction !is Incoming && hit.attack_type is None && hit.damage_name is None ==> {
            &&& hit.damage_attribute is Some ==> shown(key) == held(hit.damage_attribute)
            &&& hit.damage_attribute is None && characters@.dom().contains(hit.char_id) ==> shown(
                key,
            ) == held(characters@[hit.char_id].attribute)
            &&& hit.damage_attribute is None && !characters@.dom().contains(hit.char_id)
                ==> key is None
        },
{
    broadcast use vstd::std_specs::hash::group_hash_axioms;

}

/// A mixture's digits replace those of the attribute, and an attack type that
/// is none leaves them; what holds of the hit holds of its follow-up.
pub proof fn mixtures_replace_the_attribute(
    hit: &Hit,
    characters: &HashMap<u32, CharacterInfo>,
    key: Option<&str>,
    kind: &str,
    attribute: &str,
    mixed: Option<&'static str>,
    follow_up: Option<&str>,
    follow_up_kind: &str,
    follow_up_attribute: &str,
    follow_up_mixed: Option<&'static str>,
)
    requires
        call_ensures(damage_digit_key_for_hit, (hit, characters), key),
        hit.direction !is Incoming,
        hit.damage_name is None,
        held(hit.attack_type) == Some(kind@),
        kind@ != "倾陷伤害"@,
        held(hit.damage_attribute) == Some(attribute@),
        call_ensures(mixed_damage_digit_key, (kind, Some(attribute)), mixed),
        call_ensures(follow_up_damage_digit_key_for_hit, (hit,), follow_up),
        held(hit.follow_up_attack_type) == Some(follow_up_kind@),
        held(hit.follow_up_damage_attribute) == Some(follow_up_attribute@),
        call_ensures(
            mixed_damage_digit_key,
            (follow_up_kind, Some(follow_up_attribute)),
            follow_up_mixed,
        ),
    ensures
        mixed matches Some(set) ==> shown(key) == Some(set@),
        mixed is None ==> shown(key) == Some(attribute@),
        follow_up_mixed matches Some(set) ==> shown(follow_up) == Some(set@),
        follow_up_mixed is None ==> shown(follow_up) == Some(follow_up_attribute@),
{
}

/// A follow-up without an attribute has no digits.
pub proof fn follow_ups_need_an_attribute(hit: &Hit, key: Option<&str>)
    requires
        call_ensures(follow_up_damage_digit_key_for_hit, (hit,), key),
    ensures
        hit.follow_up_damage_attribute is None ==> key is None,
        hit.follow_up_damage_attribute is Some ==> key is Some,
        hit.follow_up_attack_type is None ==> shown(key) == held(hit.follow_up_damage_attribute),
{
}

/// The text of a reaction is told by the hit's attack type alone.
pub proof fn reactions_are_told_by_the_attack_type(
    hit: &Hit,
    key: Option<u8>,
    kind: &str,
    of_kind: Option<u8>,
)
    requires
        call_ensures(reaction_text_key_for_hit, (hit,), key),
        call_ensures(reaction_text_key_from_trigger_attack_type, (kind,), of_kind),
    ensures
        hit.attack_type is None ==> key is None,
        held(hit.attack_type) == Some(kind@) ==> key == of_kind,
        !occurs_at(kind@, "环合·"@, 0) ==> of_kind is None,
        of_kind matches Some(number) ==> 1 <= number <= 8,
{
}

/// Every reaction of the Esper Cycle has a text of its own; two names of one
/// reaction share it.
pub proof fn reactions_have_texts_of_their_own(kind: &str, reaction: Seq<char>, key: Option<u8>)
    requires
        kind@ == "环合·"@ + reaction,
        call_ensures(reaction_text_key_from_trigger_attack_type, (kind,), key),
    ensures
        key == Some(1u8) <==> reaction == "创生"@ || reaction == "创生花"@,
        key == Some(2u8) <==> reaction == "覆纹"@,
        key == Some(3u8) <==> reaction == "黯星"@,
        key == Some(4u8) <==> reaction == "浊燃"@ || reaction == "灼燃"@,
        key == Some(5u8) <==> reaction == "浸染"@,
        key == Some(6u8) <==> reaction == "延滞"@,
        key == Some(7u8) <==> reaction == "盈蓄"@,
        key == Some(8u8) <==> reaction == "失谐"@,
{
    let prefix = "环合·"@;
    assert(kind@.skip(prefix.len() as int) =~= reaction);
    assert(kind@.subrange(0, prefix.len() as int) =~= prefix);
    reaction_names_differ();
}

/// The names of the reactions are told apart by their first characters.
proof fn reaction_names_differ()
    ensures
        "创生"@[0] == '创' && "创生"@.len() == 2,
        "创生花"@[0] == '创' && "创生花"@.len() == 3,
        "覆纹"@[0] == '覆',
        "黯星"@[0] == '黯',
        "浊燃"@[0] == '浊',
        "灼燃"@[0] == '灼',
        "浸染"@[0] == '浸',
        "延滞"@[0] == '延',
        "盈蓄"@[0] == '盈',
        "失谐"@[0] == '失',
        "魂相"@[0] == '魂',
{
    reveal_strlit("创生");
    reveal_strlit("创生花");
    reveal_strlit("覆纹");
    reveal_strlit("黯星");
    reveal_strlit("浊燃");
    reveal_strlit("灼燃");
    reveal_strlit("浸染");
    reveal_strlit("延滞");
    reveal_strlit("盈蓄");
    reveal_strlit("失谐");
    reveal_strlit("魂相");
}

/// Four mixtures are drawn whatever the attribute; four more only in the
/// attributes that they are mixed of; and nothing else is a mixture.
pub proof fn mixtures_are_drawn_by_their_parts(
    kind: &str,
    attribute: Option<&str>,
    key: Option<&'static str>,
)
    requires
        !occurs_at(kind@, "环合·"@, 0),
        call_ensures(mixed_damage_digit_key, (kind, attribute), key),
    ensures
        kind@ == "创生"@ || kind@ == "创生花"@ ==> shown(key) == Some("Guangling_G"@),
        kind@ == "覆纹"@ ==> shown(key) == Some("lingzhou_L"@),
        kind@ == "黯星"@ ==> shown(key) == Some("Anhun_A"@),
        kind@ == "浊燃"@ ==> shown(key) == Some("Zhouan_A"@),
        kind@ == "延滞"@ && shown(attribute) == Some("光"@) ==> shown(key) == Some("Guangxiang_G"@),
        kind@ == "延滞"@ && shown(attribute) == Some("相"@) ==> shown(key) == Some("Guangxiang_X"@),
        (kind@ == "浸染"@ || kind@ == "魂相"@) && shown(attribute) == Some("魂"@) ==> shown(key)
            == Some("Hunxiang_H"@),
        (kind@ == "浸染"@ || kind@ == "魂相"@) && shown(attribute) == Some("相"@) ==> shown(key)
            == Some("Hunxiang_X"@),
        kind@ == "盈蓄"@ && shown(attribute) == Some("光"@) ==> shown(key) == Some("Guangling_G"@),
        kind@ == "盈蓄"@ && shown(attribute) == Some("相"@) ==> shown(key) == Some("Guangxiang_X"@),
        kind@ == "失谐"@ && shown(attribute) == Some("暗"@) ==> shown(key) == Some("Anhun_A"@),
        kind@ == "失谐"@ && shown(attribute) != Some("暗"@) ==> key is None,
        attribute is None && key is Some ==> kind@ == "创生"@ || kind@ == "创生花"@ || kind@
            == "覆纹"@ || kind@ == "黯星"@ || kind@ == "浊燃"@,
        key is Some ==> kind@ == "创生"@ || kind@ == "创生花"@ || kind@ == "覆纹"@ || kind@
            == "黯星"@ || kind@ == "浊燃"@ || kind@ == "延滞"@ || kind@ == "浸染"@ || kind@
            == "魂相"@ || kind@ == "盈蓄"@ || kind@ == "失谐"@,
{
    reaction_names_differ();
    reveal_strlit("光");
    reveal_strlit("相");
    reveal_strlit("魂");
    reveal_strlit("暗");
    assert("光"@[0] == '光');
    assert("相"@[0] == '相');
    assert("魂"@[0] == '魂');
    assert("暗"@[0] == '暗');
}

} // verus!
