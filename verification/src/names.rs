//! Look-up tables for display names.
use vstd::prelude::*;

use crate::text::same_text;

verus! {

#[derive(Clone, Debug)]
pub struct NameEntry {
    pub key: String,
    pub name: String,
}

/// A table from keys to names; the first entry of a key counts.
#[derive(Clone, Debug)]
pub struct NameTable {
    pub entries: Vec<NameEntry>,
}

/// The position of the first entry with a key.
pub open spec fn first_entry(entries: Seq<NameEntry>, key: Seq<char>) -> Option<int>
    decreases entries.len(),
{
    if entries.len() == 0 {
        None
    } else {
        match first_entry(entries.drop_last(), key) {
            Some(at) => Some(at),
            None => if entries.last().key@ == key {
                Some(entries.len() - 1)
            } else {
                None
            },
        }
    }
}

/// A first entry has the key, and no earlier one does.
pub proof fn first_entry_is_first(entries: Seq<NameEntry>, key: Seq<char>)
    ensures
        match first_entry(entries, key) {
            Some(at) => 0 <= at < entries.len() && entries[at].key@ == key && forall|k: int|
                0 <= k < at ==> (#[trigger] entries[k]).key@ != key,
            None => forall|k: int| 0 <= k < entries.len() ==> (#[trigger] entries[k]).key@ != key,
        },
    decreases entries.len(),
{
    if entries.len() > 0 {
        first_entry_is_first(entries.drop_last(), key);
        assert forall|k: int| 0 <= k < entries.len() - 1 implies #[trigger] entries[k]
            == entries.drop_last()[k] by {}
    }
}

impl NameTable {
    /// The name of a key, if the table has one.
    pub open spec fn named(self, key: Seq<char>) -> Option<Seq<char>> {
        match first_entry(self.entries@, key) {
            Some(at) => Some(self.entries@[at].name@),
            None => None,
        }
    }

    pub fn empty() -> (result: Self)
        ensures
            result.entries@.len() == 0,
    {
        NameTable { entries: Vec::new() }
    }

    pub fn lookup(&self, key: &str) -> (result: Option<&str>)
        ensures
            match result {
                Some(name) => self.named(key@) == Some(name@),
                None => self.named(key@) is None,
            },
    {
        let mut i: usize = 0;
        while i < self.entries.len()
            invariant
                i <= self.entries.len(),
                first_entry(self.entries@.take(i as int), key@) is None,
            decreases self.entries.len() - i,
        {
            if same_text(self.entries[i].key.as_str(), key) {
                proof {
                    let upto = self.entries@.take(i + 1);
                    assert(upto.drop_last() =~= self.entries@.take(i as int));
                    assert(first_entry(upto, key@) == Some(i as int));
                    first_entry_is_first(upto, key@);
                    first_entry_is_first(self.entries@, key@);
                    assert(self.entries@[i as int].key@ == key@);
                    let at = first_entry(self.entries@, key@)->0;
                    if at < i {
                        assert(upto[at].key@ == key@);
                    }
                }
                return Some(self.entries[i].name.as_str());
            }
            proof {
                let upto = self.entries@.take(i + 1);
                assert(upto.drop_last() =~= self.entries@.take(i as int));
            }
            i = i + 1;
        }
        assert(self.entries@.take(i as int) =~= self.entries@);
        None
    }
}

/// The names of abilities and damage effects in one language.
#[derive(Clone, Debug)]
pub struct AbilityNames {
    pub damage_names: NameTable,
    pub ability_names: NameTable,
}

impl AbilityNames {
    pub fn empty() -> (result: Self)
        ensures
            result.damage_names.entries@.len() == 0,
            result.ability_names.entries@.len() == 0,
    {
        AbilityNames { damage_names: NameTable::empty(), ability_names: NameTable::empty() }
    }
}

/// Everything that a row's texts are looked up in.
#[derive(Clone, Debug)]
pub struct DisplayNames {
    pub abilities: AbilityNames,
    /// From attack types to translation keys.
    pub skill_labels: NameTable,
    /// From translation keys to texts. A key without one stands for itself.
    pub translations: NameTable,
}

impl DisplayNames {
    /// The text of a translation key.
    pub open spec fn text_of(self, key: Seq<char>) -> Seq<char> {
        match self.translations.named(key) {
            Some(text) => text,
            None => key,
        }
    }

    pub fn translate<'a>(&'a self, key: &'a str) -> (result: &'a str)
        ensures
            result@ == self.text_of(key@),
    {
        match self.translations.lookup(key) {
            Some(text) => text,
            None => key,
        }
    }
}

} // verus!
