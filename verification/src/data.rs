//! Settings as the host keeps them for an overlay: values under names, and
//! defaults that stand in where no value was set.

use vstd::prelude::*;

verus! {

/// One setting: a text or a flag.
#[derive(Debug, PartialEq, Eq)]
pub enum DataValue {
    Text(String),
    Flag(bool),
}

/// The mathematical value of a [`DataValue`].
pub enum ValueModel {
    Text(Seq<char>),
    Flag(bool),
}

impl View for DataValue {
    type V = ValueModel;

    open spec fn view(&self) -> ValueModel {
        match *self {
            DataValue::Text(text) => ValueModel::Text(text@),
            DataValue::Flag(flag) => ValueModel::Flag(flag),
        }
    }
}

impl Clone for DataValue {
    fn clone(&self) -> (copy: DataValue)
        ensures
            copy == *self,
    {
        match self {
            DataValue::Text(text) => DataValue::Text(text.clone()),
            DataValue::Flag(flag) => DataValue::Flag(*flag),
        }
    }
}

/// The mathematical value of a [`Data`].
pub struct DataModel {
    /// The values that were set.
    pub values: Map<Seq<char>, ValueModel>,
    /// The defaults that were set.
    pub defaults: Map<Seq<char>, ValueModel>,
}

/// Settings without any entry.
pub open spec fn empty() -> DataModel {
    DataModel { values: Map::empty(), defaults: Map::empty() }
}

/// What a name stands for: its value, else its default, else nothing.
pub open spec fn lookup(data: DataModel, name: Seq<char>) -> Option<ValueModel> {
    if data.values.contains_key(name) {
        Some(data.values[name])
    } else if data.defaults.contains_key(name) {
        Some(data.defaults[name])
    } else {
        None
    }
}

/// The text that a name stands for, if it stands for a text.
pub open spec fn text_at(data: DataModel, name: Seq<char>) -> Option<Seq<char>> {
    match lookup(data, name) {
        Some(ValueModel::Text(text)) => Some(text),
        _ => None,
    }
}

/// The flag that a name stands for; a name that stands for no flag counts
/// as false.
pub open spec fn flag_at(data: DataModel, name: Seq<char>) -> bool {
    match lookup(data, name) {
        Some(ValueModel::Flag(flag)) => flag,
        _ => false,
    }
}

/// The settings with a value set.
pub open spec fn with_value(data: DataModel, name: Seq<char>, value: ValueModel) -> DataModel {
    DataModel { values: data.values.insert(name, value), defaults: data.defaults }
}

/// The settings with a default set.
pub open spec fn with_default(data: DataModel, name: Seq<char>, value: ValueModel) -> DataModel {
    DataModel { values: data.values, defaults: data.defaults.insert(name, value) }
}

/// The settings with all entries of other settings laid over them: where
/// both have a value, or both a default, under one name, the other's stays.
pub open spec fn overlaid(data: DataModel, other: DataModel) -> DataModel {
    DataModel {
        values: data.values.union_prefer_right(other.values),
        defaults: data.defaults.union_prefer_right(other.defaults),
    }
}

struct Entry {
    name: String,
    value: DataValue,
    is_default: bool,
}

spec fn model_of(entries: Seq<Entry>) -> DataModel
    decreases entries.len(),
{
    if entries.len() == 0 {
        empty()
    } else {
        let earlier = model_of(entries.drop_last());
        let entry = entries.last();
        if entry.is_default {
            with_default(earlier, entry.name@, entry.value@)
        } else {
            with_value(earlier, entry.name@, entry.value@)
        }
    }
}

spec fn layer(data: DataModel, is_default: bool) -> Map<Seq<char>, ValueModel> {
    if is_default {
        data.defaults
    } else {
        data.values
    }
}

spec fn matches_entry(entry: Entry, name: Seq<char>, is_default: bool) -> bool {
    entry.name@ == name && entry.is_default == is_default
}

proof fn lemma_unmatched(entries: Seq<Entry>, name: Seq<char>, is_default: bool)
    requires
        forall|k: int| 0 <= k < entries.len() ==> !matches_entry(#[trigger] entries[k], name, is_default),
    ensures
        !layer(model_of(entries), is_default).contains_key(name),
    decreases entries.len(),
{
    if entries.len() > 0 {
        let earlier = entries.drop_last();
        assert forall|k: int| 0 <= k < earlier.len() implies !matches_entry(
            #[trigger] earlier[k],
            name,
            is_default,
        ) by {
            assert(earlier[k] == entries[k]);
        }
        lemma_unmatched(earlier, name, is_default);
        assert(!matches_entry(entries[entries.len() - 1], name, is_default));
    }
}

proof fn lemma_last_match(entries: Seq<Entry>, name: Seq<char>, is_default: bool, at: int)
    requires
        0 <= at < entries.len(),
        matches_entry(entries[at], name, is_default),
        forall|k: int| at < k < entries.len() ==> !matches_entry(#[trigger] entries[k], name, is_default),
    ensures
        layer(model_of(entries), is_default).contains_key(name),
        layer(model_of(entries), is_default)[name] == entries[at].value@,
    decreases entries.len(),
{
    if at < entries.len() - 1 {
        let earlier = entries.drop_last();
        assert(earlier[at] == entries[at]);
        assert forall|k: int| at < k < earlier.len() implies !matches_entry(
            #[trigger] earlier[k],
            name,
            is_default,
        ) by {
            assert(earlier[k] == entries[k]);
        }
        lemma_last_match(earlier, name, is_default, at);
        assert(!matches_entry(entries[entries.len() - 1], name, is_default));
    }
}

proof fn lemma_appended(entries: Seq<Entry>, more: Seq<Entry>)
    ensures
        model_of(entries + more) == overlaid(model_of(entries), model_of(more)),
    decreases more.len(),
{
    let all = entries + more;
    if more.len() == 0 {
        assert(all =~= entries);
        assert(model_of(entries).values.union_prefer_right(Map::empty()) =~= model_of(
            entries,
        ).values);
        assert(model_of(entries).defaults.union_prefer_right(Map::empty()) =~= model_of(
            entries,
        ).defaults);
    } else {
        assert(all.drop_last() =~= entries + more.drop_last());
        assert(all.last() == more.last());
        lemma_appended(entries, more.drop_last());
        let a = model_of(entries);
        let b = model_of(more.drop_last());
        let entry = more.last();
        assert(a.values.union_prefer_right(b.values).insert(entry.name@, entry.value@)
            =~= a.values.union_prefer_right(b.values.insert(entry.name@, entry.value@)));
        assert(a.defaults.union_prefer_right(b.defaults).insert(entry.name@, entry.value@)
            =~= a.defaults.union_prefer_right(b.defaults.insert(entry.name@, entry.value@)));
    }
}

/// The settings of an overlay.
pub struct Data {
    entries: Vec<Entry>,
}

impl View for Data {
    type V = DataModel;

    closed spec fn view(&self) -> DataModel {
        model_of(self.entries@)
    }
}

impl Data {
    /// Settings without any entry.
    pub fn new() -> (data: Data)
        ensures
            data@ == empty(),
    {
        Data { entries: Vec::new() }
    }

    fn put(&mut self, name: &str, value: DataValue, is_default: bool)
        ensures
            final(self)@ == (if is_default {
                with_default(old(self)@, name@, value@)
            } else {
                with_value(old(self)@, name@, value@)
            }),
    {
        let ghost before = self.entries@;
        self.entries.push(Entry { name: name.to_owned(), value, is_default });
        assert(self.entries@.drop_last() =~= before);
    }

    fn find(&self, name: &str, is_default: bool) -> (found: Option<&DataValue>)
        ensures
            match found {
                Some(value) => layer(self@, is_default).contains_key(name@) && layer(
                    self@,
                    is_default,
                )[name@] == value@,
                None => !layer(self@, is_default).contains_key(name@),
            },
    {
        let wanted = name.to_owned();
        let mut i: usize = self.entries.len();
        while i > 0
            invariant
                i <= self.entries@.len(),
                wanted@ == name@,
                forall|k: int|
                    i <= k < self.entries@.len() ==> !matches_entry(
                        #[trigger] self.entries@[k],
                        name@,
                        is_default,
                    ),
            decreases i,
        {
            i -= 1;
            let entry = &self.entries[i];
            if entry.is_default == is_default && entry.name == wanted {
                proof {
                    lemma_last_match(self.entries@, name@, is_default, i as int);
                }
                return Some(&entry.value);
            }
        }
        proof {
            lemma_unmatched(self.entries@, name@, is_default);
        }
        None
    }

    fn get(&self, name: &str) -> (found: Option<&DataValue>)
        ensures
            match found {
                Some(value) => lookup(self@, name@) == Some(value@),
                None => lookup(self@, name@).is_none(),
            },
    {
        match self.find(name, false) {
            Some(value) => Some(value),
            None => self.find(name, true),
        }
    }

    /// Sets a text under a name.
    pub fn set_string(&mut self, key: &str, value: &str)
        ensures
            final(self)@ == with_value(old(self)@, key@, ValueModel::Text(value@)),
    {
        self.put(key, DataValue::Text(value.to_owned()), false);
    }

    /// The text that a name stands for: the one that was set, else the
    /// default. A name that stands for no text has none.
    pub fn get_string(&self, key: &str) -> (text: Option<String>)
        ensures
            crate::playback::text_of(text) == text_at(self@, key@),
    {
        match self.get(key) {
            Some(DataValue::Text(text)) => Some(text.clone()),
            _ => None,
        }
    }

    /// Sets the text that a name stands for while no value is set under it.
    pub fn set_default_string(&mut self, key: &str, value: &str)
        ensures
            final(self)@ == with_default(old(self)@, key@, ValueModel::Text(value@)),
    {
        self.put(key, DataValue::Text(value.to_owned()), true);
    }

    /// Sets a flag under a name.
    pub fn set_bool(&mut self, key: &str, value: bool)
        ensures
            final(self)@ == with_value(old(self)@, key@, ValueModel::Flag(value)),
    {
        self.put(key, DataValue::Flag(value), false);
    }

    /// The flag that a name stands for, and false where it stands for none.
    pub fn get_bool(&self, key: &str) -> (flag: bool)
        ensures
            flag == flag_at(self@, key@),
    {
        match self.get(key) {
            Some(DataValue::Flag(flag)) => *flag,
            _ => false,
        }
    }

    /// Lays all entries of other settings over these.
    pub fn apply(&mut self, other: &Data)
        ensures
            final(self)@ == overlaid(old(self)@, other@),
    {
        let ghost before = self.entries@;
        let mut i: usize = 0;
        assert(other.entries@.take(0) =~= Seq::<Entry>::empty());
        assert(before + Seq::<Entry>::empty() =~= before);
        while i < other.entries.len()
            invariant
                i <= other.entries@.len(),
                self.entries@ == before + other.entries@.take(i as int),
            decreases other.entries.len() - i,
        {
            let entry = &other.entries[i];
            self.entries.push(
                Entry {
                    name: entry.name.clone(),
                    value: entry.value.clone(),
                    is_default: entry.is_default,
                },
            );
            assert(other.entries@.take(i + 1) =~= other.entries@.take(i as int).push(
                other.entries@[i as int],
            ));
            assert(self.entries@ =~= before + other.entries@.take(i + 1));
            i += 1;
        }
        proof {
            assert(other.entries@.take(i as int) =~= other.entries@);
            lemma_appended(before, other.entries@);
        }
    }
}

} // verus!
