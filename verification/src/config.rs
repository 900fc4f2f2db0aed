//! Profiles: where the state of a set of workspaces lies, and how many of them
//! to scan at once.

use vstd::prelude::*;
use vstd::string::StringExecFns;
use crate::text::same_text;

verus! {

/// Where the state of the workspaces lies.
#[derive(Clone, Debug, PartialEq, Eq)]
pub enum Storage {
    /// A directory of state files on this machine.
    Mock { path: String },
    /// A bucket of an S3 object store.
    S3 { bucket: String, prefix: Option<String> },
    /// A bucket of Google Cloud Storage.
    Gcs { bucket: String, prefix: Option<String> },
    /// A container of Azure blob storage.
    Azure { container: String, prefix: Option<String> },
}

/// One profile of the configuration.
#[derive(Clone, Debug, PartialEq, Eq)]
pub struct Profile {
    pub storage: Storage,
    /// How many workspaces to scan at once, where the profile says so.
    pub jobs: Option<usize>,
}

/// Why the configuration could not answer.
#[derive(Clone, Debug, PartialEq, Eq)]
pub enum ConfigError {
    /// No profile has this name.
    ProfileNotFound(String),
}

impl ConfigError {
    /// The text of the error as a mathematical value.
    pub open spec fn text(self) -> Seq<char> {
        match self {
            ConfigError::ProfileNotFound(name) => "Profile '"@ + name@ + "' not found in config"@,
        }
    }

    /// The text of the error.
    pub fn message(&self) -> (m: String)
        ensures
            m@ == self.text(),
    {
        match self {
            ConfigError::ProfileNotFound(name) => {
                let mut m = String::from_str("Profile '");
                m.append(name.as_str());
                m.append("' not found in config");
                m
            },
        }
    }
}

/// A profile under its name.
#[derive(Clone, Debug)]
struct NamedProfile {
    name: String,
    profile: Profile,
}

/// The position of the entry named `name` in `entries`, at or behind `from`.
spec fn position_of(entries: Seq<NamedProfile>, name: Seq<char>, from: int) -> Option<int>
    decreases entries.len() - from,
{
    if from < 0 || from >= entries.len() {
        None
    } else if entries[from].name@ == name {
        Some(from)
    } else {
        position_of(entries, name, from + 1)
    }
}

/// Whether no two of `entries` have the same name.
spec fn distinct_names(entries: Seq<NamedProfile>) -> bool {
    forall|i: int, j: int|
        0 <= i < j < entries.len() ==> (#[trigger] entries[i]).name@ != (#[trigger] entries[j]).name@
}

/// The profiles of `entries` by name.
spec fn profiles_of(entries: Seq<NamedProfile>) -> Map<Seq<char>, Profile> {
    Map::new(
        |name: Seq<char>| position_of(entries, name, 0) is Some,
        |name: Seq<char>| entries[position_of(entries, name, 0)->0].profile,
    )
}

proof fn lemma_position_of(entries: Seq<NamedProfile>, name: Seq<char>, from: int)
    requires
        0 <= from <= entries.len(),
    ensures
        match position_of(entries, name, from) {
            Some(k) => from <= k < entries.len() && entries[k].name@ == name && forall|i: int|
                from <= i < k ==> (#[trigger] entries[i]).name@ != name,
            None => forall|i: int|
                from <= i < entries.len() ==> (#[trigger] entries[i]).name@ != name,
        },
    decreases entries.len() - from,
{
    if from < entries.len() && entries[from].name@ != name {
        lemma_position_of(entries, name, from + 1);
    }
}

proof fn lemma_position_same_names(
    a: Seq<NamedProfile>,
    b: Seq<NamedProfile>,
    name: Seq<char>,
    from: int,
)
    requires
        a.len() == b.len(),
        forall|i: int| 0 <= i < a.len() ==> (#[trigger] a[i]).name@ == b[i].name@,
    ensures
        position_of(a, name, from) == position_of(b, name, from),
    decreases a.len() - from,
{
    if 0 <= from < a.len() {
        assert(a[from].name@ == b[from].name@);
        lemma_position_same_names(a, b, name, from + 1);
    }
}

proof fn lemma_position_push(
    entries: Seq<NamedProfile>,
    entry: NamedProfile,
    name: Seq<char>,
    from: int,
)
    requires
        0 <= from <= entries.len(),
    ensures
        position_of(entries.push(entry), name, from) == match position_of(entries, name, from) {
            Some(k) => Some(k),
            None => if entry.name@ == name {
                Some(entries.len() as int)
            } else {
                None
            },
        },
    decreases entries.len() - from,
{
    let after = entries.push(entry);
    if from < entries.len() {
        assert(after[from] == entries[from]);
        lemma_position_push(entries, entry, name, from + 1);
    } else {
        assert(after[from] == entry);
        assert(position_of(after, name, from + 1) is None);
    }
}

proof fn lemma_replace(entries: Seq<NamedProfile>, index: int, entry: NamedProfile)
    requires
        distinct_names(entries),
        0 <= index < entries.len(),
        entries[index].name@ == entry.name@,
    ensures
        distinct_names(entries.update(index, entry)),
        profiles_of(entries.update(index, entry)) == profiles_of(entries).insert(
            entry.name@,
            entry.profile,
        ),
        profiles_of(entries).contains_key(entry.name@),
        profiles_of(entries)[entry.name@] == entries[index].profile,
{
    let after = entries.update(index, entry);
    let wanted = profiles_of(entries).insert(entry.name@, entry.profile);
    assert forall|i: int| 0 <= i < after.len() implies (#[trigger] after[i]).name@
        == entries[i].name@ by {}
    assert forall|key: Seq<char>|
        (#[trigger] profiles_of(after).dom().contains(key)) == wanted.dom().contains(key) && (
        profiles_of(after).dom().contains(key) ==> profiles_of(after)[key] == wanted[key]) by {
        lemma_position_same_names(after, entries, key, 0);
        lemma_position_of(entries, key, 0);
        if position_of(entries, key, 0) is Some {
            let k = position_of(entries, key, 0)->0;
            if key == entry.name@ {
                if k < index {
                    assert(entries[k].name@ != entries[index].name@);
                } else if index < k {
                    assert(entries[index].name@ != entries[k].name@);
                }
            }
        } else {
            assert(entries[index].name@ != key);
        }
    }
    assert(profiles_of(after) =~= wanted);
    assert forall|i: int, j: int| 0 <= i < j < after.len() implies (#[trigger] after[i]).name@
        != (#[trigger] after[j]).name@ by {
        assert(entries[i].name@ != entries[j].name@);
    }
    lemma_position_of(entries, entry.name@, 0);
    if position_of(entries, entry.name@, 0) is Some {
        let k = position_of(entries, entry.name@, 0)->0;
        if k < index {
            assert(entries[k].name@ != entries[index].name@);
        } else if index < k {
            assert(entries[index].name@ != entries[k].name@);
        }
    } else {
        assert(entries[index].name@ != entry.name@);
    }
}

proof fn lemma_append(entries: Seq<NamedProfile>, entry: NamedProfile)
    requires
        distinct_names(entries),
        forall|i: int| 0 <= i < entries.len() ==> (#[trigger] entries[i]).name@ != entry.name@,
    ensures
        distinct_names(entries.push(entry)),
        profiles_of(entries.push(entry)) == profiles_of(entries).insert(
            entry.name@,
            entry.profile,
        ),
        !profiles_of(entries).contains_key(entry.name@),
{
    let after = entries.push(entry);
    let wanted = profiles_of(entries).insert(entry.name@, entry.profile);
    assert forall|key: Seq<char>|
        (#[trigger] profiles_of(after).dom().contains(key)) == wanted.dom().contains(key) && (
        profiles_of(after).dom().contains(key) ==> profiles_of(after)[key] == wanted[key]) by {
        lemma_position_push(entries, entry, key, 0);
        lemma_position_of(entries, key, 0);
        if position_of(entries, key, 0) is Some {
            let k = position_of(entries, key, 0)->0;
            assert(after[k] == entries[k]);
            assert(entries[k].name@ != entry.name@);
        }
    }
    assert(profiles_of(after) =~= wanted);
    lemma_position_of(entries, entry.name@, 0);
    assert forall|i: int, j: int| 0 <= i < j < after.len() implies (#[trigger] after[i]).name@
        != (#[trigger] after[j]).name@ by {
        if j < entries.len() {
            assert(entries[i].name@ != entries[j].name@);
        } else {
            assert(entries[i].name@ != entry.name@);
        }
    }
}

proof fn lemma_domain(entries: Seq<NamedProfile>)
    requires
        distinct_names(entries),
    ensures
        profiles_of(entries).dom().finite(),
        profiles_of(entries).dom().len() == entries.len(),
    decreases entries.len(),
{
    if entries.len() == 0 {
        assert(profiles_of(entries).dom() =~= Set::<Seq<char>>::empty());
    } else {
        let front = entries.drop_last();
        lemma_domain(front);
        assert(front.push(entries.last()) =~= entries);
        lemma_append(front, entries.last());
    }
}

/// The profiles of a configuration, each under its own name. They are kept
/// in a list in which no name occurs twice; what a lookup gives is proved from
/// that list.
#[derive(Clone, Debug)]
pub struct Config {
    entries: Vec<NamedProfile>,
}

impl View for Config {
    type V = Map<Seq<char>, Profile>;

    /// The profiles by name.
    closed spec fn view(&self) -> Map<Seq<char>, Profile> {
        profiles_of(self.entries@)
    }
}

impl Config {
    /// Whether no two entries have the same name.
    pub closed spec fn wf(&self) -> bool {
        distinct_names(self.entries@)
    }

    /// A configuration without profiles.
    pub fn new() -> (c: Config)
        ensures
            c.wf(),
            c@ == Map::<Seq<char>, Profile>::empty(),
    {
        let c = Config { entries: Vec::new() };
        assert(c@ =~= Map::<Seq<char>, Profile>::empty());
        c
    }

    /// How many profiles there are.
    pub fn len(&self) -> (n: usize)
        requires
            self.wf(),
        ensures
            self@.dom().finite(),
            n == self@.dom().len(),
    {
        proof {
            lemma_domain(self.entries@);
        }
        self.entries.len()
    }

    /// Puts `profile` under `name`. A profile that was there under that name is
    /// replaced and handed back.
    pub fn insert(&mut self, name: String, profile: Profile) -> (previous: Option<Profile>)
        requires
            old(self).wf(),
        ensures
            final(self).wf(),
            final(self)@ == old(self)@.insert(name@, profile),
            previous == if old(self)@.contains_key(name@) {
                Some(old(self)@[name@])
            } else {
                None
            },
    {
        let mut i: usize = 0;
        while i < self.entries.len()
            invariant
                i <= self.entries.len(),
                *self == *old(self),
                self.wf(),
                forall|j: int| 0 <= j < i ==> (#[trigger] self.entries@[j]).name@ != name@,
            decreases self.entries.len() - i,
        {
            if same_text(self.entries[i].name.as_str(), name.as_str()) {
                proof {
                    lemma_replace(self.entries@, i as int, NamedProfile { name, profile });
                    assert(self.entries@.push(NamedProfile { name, profile }).update(
                        i as int,
                        NamedProfile { name, profile },
                    ).drop_last() =~= self.entries@.update(
                        i as int,
                        NamedProfile { name, profile },
                    ));
                }
                self.entries.push(NamedProfile { name, profile });
                let previous = self.entries.swap_remove(i);
                return Some(previous.profile);
            }
            i += 1;
        }
        proof {
            lemma_append(self.entries@, NamedProfile { name, profile });
        }
        self.entries.push(NamedProfile { name, profile });
        None
    }

    /// The profile named `name`.
    pub fn profile(&self, name: &str) -> (r: Result<&Profile, ConfigError>)
        ensures
            match r {
                Ok(profile) => self@.contains_key(name@) && *profile == self@[name@],
                Err(error) => !self@.contains_key(name@) && error is ProfileNotFound
                    && error->ProfileNotFound_0@ == name@,
            },
    {
        let mut i: usize = 0;
        while i < self.entries.len()
            invariant
                i <= self.entries.len(),
                position_of(self.entries@, name@, 0) == position_of(self.entries@, name@, i as int),
            decreases self.entries.len() - i,
        {
            if same_text(self.entries[i].name.as_str(), name) {
                return Ok(&self.entries[i].profile);
            }
            i += 1;
        }
        Err(ConfigError::ProfileNotFound(String::from_str(name)))
    }
}

} // verus!
