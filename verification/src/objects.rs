//! Small values that the views edit.

use vstd::prelude::*;

verus! {

/// One row of a key/value editor: the two texts, and whether the row is
/// ticked.
#[derive(Debug, PartialEq, Eq)]
pub struct MQTTyKeyValue {
    pub active: bool,
    pub key: String,
    pub value: String,
}

impl MQTTyKeyValue {
    /// A row with these texts.
    pub fn new(key: &str, value: &str, active: bool) -> (entry: Self)
        ensures
            entry.key@ == key@,
            entry.value@ == value@,
            entry.active == active,
    {
        MQTTyKeyValue { active, key: key.to_owned(), value: value.to_owned() }
    }
}

impl Default for MQTTyKeyValue {
    fn default() -> (entry: Self)
        ensures
            entry.key@.len() == 0,
            entry.value@.len() == 0,
            !entry.active,
    {
        MQTTyKeyValue { active: false, key: String::new(), value: String::new() }
    }
}

impl Clone for MQTTyKeyValue {
    fn clone(&self) -> (entry: Self)
        ensures
            entry == *self,
    {
        MQTTyKeyValue { active: self.active, key: self.key.clone(), value: self.value.clone() }
    }
}

/// The key and the value of each entry, in the order of the entries.
pub open spec fn pairs_of(entries: Seq<MQTTyKeyValue>) -> Seq<(Seq<char>, Seq<char>)> {
    entries.map_values(|e: MQTTyKeyValue| (e.key@, e.value@))
}

/// The user properties that the entries of an editor stand for: the key and
/// the value of every entry, ticked or not, in the order of the entries.
pub fn entries_to_user_properties(entries: &[MQTTyKeyValue]) -> (pairs: Vec<(String, String)>)
    ensures
        pairs.deep_view() == pairs_of(entries@),
{
    let mut pairs: Vec<(String, String)> = Vec::new();
    let mut i: usize = 0;
    while i < entries.len()
        invariant
            i <= entries.len(),
            pairs.len() == i,
            forall|j: int|
                0 <= j < i ==> pairs[j].0@ == entries[j].key@ && pairs[j].1@ == entries[j].value@,
        decreases entries.len() - i,
    {
        pairs.push((entries[i].key.clone(), entries[i].value.clone()));
        i += 1;
    }
    pairs
}

/// The entries of an editor whose last row is the empty one that waits for
/// the next entry: all rows but the last.
pub fn rows_to_entries(rows: Vec<MQTTyKeyValue>) -> (entries: Vec<MQTTyKeyValue>)
    ensures
        entries@ == if rows@.len() == 0 {
            rows@
        } else {
            rows@.drop_last()
        },
{
    let mut entries = rows;
    let _ = entries.pop();
    entries
}

} // verus!
