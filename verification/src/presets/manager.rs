//! The preset manager: where presets are looked for, what they are called,
//! which file a name resolves to, and how a preset moves between its file and
//! the settings store.

use crate::presets::legacy::{migrate_legacy, migrated, Fault, LegacyError};
use crate::presets::root;
use crate::settings::{distinct, free_of_nan, Address, Kind, Setting, SettingsStore, StoreView};
use crate::text::{
    chars_of, comes_before, lemma_precedes_irreflexive, lemma_precedes_total,
    lemma_precedes_transitive, precedes, string_of, texts,
};
use vstd::prelude::*;

verus! {

/// The signal direction a preset belongs to.
#[derive(Clone, Copy, Debug, PartialEq, Eq, Structural)]
pub enum PresetType {
    Input,
    Output,
}

/// One entry of a directory, as far as listing presets needs it.
#[derive(Clone, Debug)]
pub struct DirectoryEntry {
    /// The last component of the entry's path.
    pub file_name: String,
    /// Whether the entry is a regular file.
    pub is_file: bool,
}

/// The position of the last dot in `name`, or -1 where it has none.
pub open spec fn last_dot(name: Seq<char>) -> int
    decreases name.len(),
{
    if name.len() == 0 {
        -1
    } else if name.last() == '.' {
        name.len() - 1
    } else {
        last_dot(name.drop_last())
    }
}

/// The extension of a file name: what follows its last dot. A name without a
/// dot has none, nor has a name whose only dot is its first character.
pub open spec fn extension(name: Seq<char>) -> Option<Seq<char>> {
    if last_dot(name) <= 0 {
        None
    } else {
        Some(name.skip(last_dot(name) + 1))
    }
}

/// The stem of a file name: what stands before the dot of its extension, or
/// the whole name where it has no extension.
pub open spec fn stem(name: Seq<char>) -> Seq<char> {
    if last_dot(name) <= 0 {
        name
    } else {
        name.take(last_dot(name))
    }
}

/// Whether a directory entry is a preset that listings show: a regular file
/// with the extension of the preferred format, `yaml`, or with that of the
/// legacy format, `json`.
pub open spec fn is_listed(entry: DirectoryEntry) -> bool {
    entry.is_file && (extension(entry.file_name@) == Some("yaml"@) || extension(entry.file_name@)
        == Some("json"@))
}

/// The names of the presets among `entries`, in the order of the entries.
pub open spec fn presets_in(entries: Seq<DirectoryEntry>) -> Seq<Seq<char>>
    decreases entries.len(),
{
    if entries.len() == 0 {
        Seq::empty()
    } else if is_listed(entries.last()) {
        presets_in(entries.drop_last()).push(stem(entries.last().file_name@))
    } else {
        presets_in(entries.drop_last())
    }
}

/// Whether `name` is a preset in one of the first `count` listings.
pub open spec fn listed_in(listings: Seq<Vec<DirectoryEntry>>, count: int, name: Seq<char>) -> bool {
    exists|i: int| 0 <= i < count && #[trigger] presets_in(listings[i]@).contains(name)
}

/// Whether the names stand in ascending order, each before every later one.
pub open spec fn ascending(names: Seq<Seq<char>>) -> bool {
    forall|i: int, j: int| 0 <= i < j < names.len() ==> precedes(names[i], names[j])
}

/// The path of `file` in `directory`: the two with one slash between them.
/// No slash is added after an empty directory or one that ends in a slash,
/// and a `file` that starts with a slash is a path of its own.
pub open spec fn joined(directory: Seq<char>, file: Seq<char>) -> Seq<char> {
    if file.len() > 0 && file[0] == '/' {
        file
    } else if directory.len() == 0 || directory.last() == '/' {
        directory + file
    } else {
        directory.push('/') + file
    }
}

/// Whether `name` is a single component of a path: it holds no slash.
pub open spec fn plain_name(name: Seq<char>) -> bool {
    forall|i: int| 0 <= i < name.len() ==> name[i] != '/'
}

/// `directory` as the start of the paths of its files: with a slash at its
/// end, unless it is empty.
pub open spec fn within(directory: Seq<char>) -> Seq<char> {
    if directory.len() == 0 || directory.last() == '/' {
        directory
    } else {
        directory.push('/')
    }
}

/// The directory of input presets below the configuration directory `base`.
pub open spec fn input_directory_of(base: Seq<char>) -> Seq<char> {
    base + "/PulseEffects/input"@
}

/// The directory of output presets below the configuration directory `base`.
pub open spec fn output_directory_of(base: Seq<char>) -> Seq<char> {
    base + "/PulseEffects/output"@
}

/// The directory of autoload profiles below the configuration directory
/// `base`.
pub open spec fn autoload_directory_of(base: Seq<char>) -> Seq<char> {
    base + "/PulseEffects/autoload"@
}

/// The directory of input presets below the configuration directory `base`.
pub fn input_directory(base: &str) -> (r: String)
    ensures
        r@ == input_directory_of(base@),
{
    let mut r = base.to_owned();
    r.append("/PulseEffects/input");
    r
}

/// The directory of output presets below the configuration directory `base`.
pub fn output_directory(base: &str) -> (r: String)
    ensures
        r@ == output_directory_of(base@),
{
    let mut r = base.to_owned();
    r.append("/PulseEffects/output");
    r
}

/// The directory of autoload profiles below the configuration directory
/// `base`.
pub fn autoload_directory(base: &str) -> (r: String)
    ensures
        r@ == autoload_directory_of(base@),
{
    let mut r = base.to_owned();
    r.append("/PulseEffects/autoload");
    r
}

/// The extension of a file name.
pub fn file_extension(name: &str) -> (r: Option<String>)
    ensures
        match r {
            Some(e) => extension(name@) == Some(e@),
            None => extension(name@) is None,
        },
{
    let chars = chars_of(name);
    let dot = find_last_dot(&chars);
    match dot {
        None => None,
        Some(at) => {
            if at == 0 {
                None
            } else {
                let mut rest: Vec<char> = Vec::new();
                let mut i: usize = at + 1;
                while i < chars.len()
                    invariant
                        at < i <= chars.len(),
                        rest@ == chars@.subrange(at + 1, i as int),
                    decreases chars.len() - i,
                {
                    rest.push(chars[i]);
                    i += 1;
                }
                assert(rest@ =~= chars@.skip(at + 1));
                Some(string_of(&rest))
            }
        },
    }
}

/// The stem of a file name.
pub fn file_stem(name: &str) -> (r: String)
    ensures
        r@ == stem(name@),
{
    let chars = chars_of(name);
    let dot = find_last_dot(&chars);
    match dot {
        None => name.to_owned(),
        Some(at) => {
            if at == 0 {
                name.to_owned()
            } else {
                let mut start: Vec<char> = Vec::new();
                let mut i: usize = 0;
                while i < at
                    invariant
                        i <= at < chars.len(),
                        start@ == chars@.take(i as int),
                    decreases at - i,
                {
                    start.push(chars[i]);
                    i += 1;
                }
                string_of(&start)
            }
        },
    }
}

fn find_last_dot(name: &Vec<char>) -> (r: Option<usize>)
    ensures
        match r {
            Some(at) => at < name.len() && last_dot(name@) == at,
            None => last_dot(name@) == -1,
        },
{
    let mut found: Option<usize> = None;
    let mut i: usize = 0;
    assert(name@.take(0) =~= Seq::<char>::empty());
    while i < name.len()
        invariant
            i <= name.len(),
            match found {
                Some(at) => at < i && last_dot(name@.take(i as int)) == at,
                None => last_dot(name@.take(i as int)) == -1,
            },
        decreases name.len() - i,
    {
        assert(name@.take(i + 1).drop_last() =~= name@.take(i as int));
        if name[i] == '.' {
            found = Some(i);
        }
        i += 1;
    }
    assert(name@.take(name.len() as int) =~= name@);
    found
}

/// Whether `name` is a single component of a path.
pub fn is_plain_name(name: &str) -> (r: bool)
    ensures
        r == plain_name(name@),
{
    let chars = chars_of(name);
    let mut i: usize = 0;
    while i < chars.len()
        invariant
            i <= chars.len(),
            chars@ == name@,
            forall|j: int| 0 <= j < i ==> chars[j] != '/',
        decreases chars.len() - i,
    {
        if chars[i] == '/' {
            return false;
        }
        i += 1;
    }
    true
}

/// Whether the text of a preset holds a preset at all. A preset without a
/// file has an empty text, and then there is nothing to parse or to load.
pub fn has_preset(text: &str) -> (r: bool)
    ensures
        r == (text@.len() > 0),
{
    !text.is_empty()
}

/// The names of the presets among the entries of one directory: the stem of
/// every regular file with the extension `yaml` or `json`, in the order of
/// the entries.
pub fn get_presets_list(entries: &Vec<DirectoryEntry>) -> (r: Vec<String>)
    ensures
        texts(r@) == presets_in(entries@),
{
    let mut output: Vec<String> = Vec::new();
    let yaml = "yaml".to_owned();
    let json = "json".to_owned();
    let mut i: usize = 0;
    assert(entries@.take(0) =~= Seq::<DirectoryEntry>::empty());
    assert(texts(output@) =~= Seq::<Seq<char>>::empty());
    while i < entries.len()
        invariant
            i <= entries.len(),
            yaml@ == "yaml"@,
            json@ == "json"@,
            texts(output@) == presets_in(entries@.take(i as int)),
        decreases entries.len() - i,
    {
        assert(entries@.take(i + 1).drop_last() =~= entries@.take(i as int));
        let entry = &entries[i];
        if entry.is_file {
            match file_extension(entry.file_name.as_str()) {
                Some(found) => {
                    if found == yaml || found == json {
                        let ghost before = output@;
                        output.push(file_stem(entry.file_name.as_str()));
                        assert(texts(output@) =~= texts(before).push(stem(entry.file_name@)));
                    }
                },
                None => {},
            }
        }
        i += 1;
    }
    assert(entries@.take(entries.len() as int) =~= entries@);
    output
}

/// What the first `j + 1` names hold is what the first `j` hold and the next.
proof fn lemma_take_contains(names: Seq<Seq<char>>, j: int, name: Seq<char>)
    requires
        0 <= j < names.len(),
    ensures
        names.take(j + 1).contains(name) <==> (names.take(j).contains(name) || names[j] == name),
{
    let more = names.take(j + 1);
    let fewer = names.take(j);
    if more.contains(name) {
        let k = choose|k: int| 0 <= k < more.len() && #[trigger] more[k] == name;
        if k < j {
            assert(fewer[k] == name);
        }
    }
    if fewer.contains(name) {
        let k = choose|k: int| 0 <= k < fewer.len() && #[trigger] fewer[k] == name;
        assert(more[k] == name);
    }
    if names[j] == name {
        assert(more[j] == name);
    }
}

/// Puts `name` into the ascending list `names`, unless it is there already.
fn insert_name(names: &mut Vec<String>, name: String)
    requires
        ascending(texts(old(names)@)),
    ensures
        ascending(texts(final(names)@)),
        forall|n: Seq<char>|
            texts(final(names)@).contains(n) <==> (texts(old(names)@).contains(n) || n == name@),
{
    let ghost before = texts(names@);
    let mut at: usize = 0;
    while at < names.len() && comes_before(names[at].as_str(), name.as_str())
        invariant
            at <= names.len(),
            names@ == old(names)@,
            before == texts(names@),
            forall|j: int| 0 <= j < at ==> precedes(before[j], name@),
        decreases names.len() - at,
    {
        at += 1;
    }
    if at < names.len() && names[at] == name {
        assert(before[at as int] == name@);
        assert forall|n: Seq<char>| texts(names@).contains(n) <==> (before.contains(n) || n
            == name@) by {}
        return ;
    }
    names.insert(at, name);
    let ghost after = texts(names@);
    assert(after =~= before.insert(at as int, name@));
    proof {
        if at < before.len() {
            lemma_precedes_total(before[at as int], name@);
        }
        assert forall|i: int, j: int| 0 <= i < j < after.len() implies precedes(
            after[i],
            after[j],
        ) by {
            if j < at {
            } else if j == at {
            } else if i < at {
                assert(precedes(before[i], before[j - 1]));
            } else if i == at {
                if j - 1 > at {
                    lemma_precedes_transitive(name@, before[at as int], before[j - 1]);
                }
            } else {
                assert(precedes(before[i - 1], before[j - 1]));
            }
        }
        assert forall|n: Seq<char>| after.contains(n) <==> (before.contains(n) || n == name@) by {
            if after.contains(n) {
                let k = choose|k: int| 0 <= k < after.len() && #[trigger] after[k] == n;
                if k < at {
                    assert(before[k] == n);
                } else if k > at {
                    assert(before[k - 1] == n);
                }
            }
            if before.contains(n) {
                let k = choose|k: int| 0 <= k < before.len() && #[trigger] before[k] == n;
                if k < at {
                    assert(after[k] == n);
                } else {
                    assert(after[k + 1] == n);
                }
            }
            if n == name@ {
                assert(after[at as int] == n);
            }
        }
    }
}

/// In an ascending list no name stands twice.
pub proof fn lemma_ascending_has_no_duplicates(names: Seq<Seq<char>>)
    requires
        ascending(names),
    ensures
        forall|i: int, j: int| 0 <= i < names.len() && 0 <= j < names.len() && i != j ==> names[i]
            != names[j],
{
    assert forall|i: int, j: int|
        0 <= i < names.len() && 0 <= j < names.len() && i != j implies names[i] != names[j] by {
        lemma_precedes_irreflexive(names[i]);
        if i < j {
            assert(precedes(names[i], names[j]));
        } else {
            assert(precedes(names[j], names[i]));
        }
    }
}

/// Why a preset was not loaded.
#[derive(Clone, Debug)]
pub enum LoadError {
    /// The text of the preset could not be parsed; the message says why.
    Malformed(String),
    /// The preset is of the other direction than the one asked for.
    WrongType,
    /// An effect with bands has another number of bands than it should.
    BandCount,
    /// The store lacks a key of the preset, or holds it with another type.
    Store,
}

/// Why a preset was not saved.
#[derive(Clone, Copy, Debug, PartialEq, Eq, Structural)]
pub enum SaveError {
    /// The name holds a slash, so its file would not lie in the user's
    /// directory.
    Name,
    /// The store lacks a key of the preset, or holds it with another type.
    Store,
}

/// A preset of either direction.
#[derive(Clone, Debug)]
pub enum Preset {
    Output(root::Output),
    Input(root::Input),
}

impl Preset {
    /// The direction the preset belongs to.
    pub open spec fn kind(&self) -> PresetType {
        match self {
            Preset::Output(_) => PresetType::Output,
            Preset::Input(_) => PresetType::Input,
        }
    }

    /// Whether every effect with bands has as many of them as it should.
    pub open spec fn wf(&self) -> bool {
        match self {
            Preset::Output(preset) => preset.wf(),
            Preset::Input(preset) => preset.wf(),
        }
    }

    /// The preset as the settings it stands for, in the order in which they
    /// are written.
    pub open spec fn settings(&self) -> Seq<Setting> {
        match self {
            Preset::Output(preset) => preset.settings(),
            Preset::Input(preset) => preset.settings(),
        }
    }

    /// Whether the preset is what `store` holds for it.
    pub open spec fn taken_from(&self, store: StoreView) -> bool {
        match self {
            Preset::Output(preset) => preset.taken_from(store),
            Preset::Input(preset) => preset.taken_from(store),
        }
    }

    /// The settings that `store` holds for a preset of direction `kind`, or
    /// `None` where a key is missing or of another type.
    pub open spec fn stored(kind: PresetType, store: StoreView) -> Option<Seq<Setting>> {
        match kind {
            PresetType::Output => root::Output::stored(store),
            PresetType::Input => root::Input::stored(store),
        }
    }
}

/// The smaller of two numbers.
pub open spec fn smaller(a: int, b: int) -> int {
    if a <= b {
        a
    } else {
        b
    }
}

/// The position of the first `true` among the first `count` of `flags`, if
/// there is one.
pub open spec fn first_set(flags: Seq<bool>, count: int) -> Option<int>
    decreases count,
{
    if count <= 0 {
        None
    } else if first_set(flags, count - 1) is Some {
        first_set(flags, count - 1)
    } else if flags[count - 1] {
        Some(count - 1)
    } else {
        None
    }
}

impl Preset {
    /// The settings of a preset with all its bands name no key twice.
    pub proof fn lemma_settings(&self)
        requires
            self.wf(),
        ensures
            distinct(self.settings()),
    {
        match self {
            Preset::Output(preset) => preset.lemma_settings(),
            Preset::Input(preset) => preset.lemma_settings(),
        }
    }

    /// A store that holds a preset of the direction of this one accepts the
    /// settings of this one.
    pub proof fn lemma_accepted(&self, store: StoreView)
        requires
            self.wf(),
            Preset::stored(self.kind(), store) is Some,
        ensures
            store.accepts(self.settings()),
    {
        match self {
            Preset::Output(preset) => preset.lemma_accepted(store),
            Preset::Input(preset) => preset.lemma_accepted(store),
        }
    }

    /// What a store holds for a preset is what it holds at the keys of the
    /// preset.
    pub proof fn lemma_stored(kind: PresetType, store: StoreView)
        requires
            Preset::stored(kind, store) is Some,
        ensures
            store.reads(Preset::stored(kind, store).unwrap()),
    {
        match kind {
            PresetType::Output => root::Output::lemma_stored(store),
            PresetType::Input => root::Input::lemma_stored(store),
        }
    }
}

/// Saving and loading restore the store. Let `preset` be what `save` takes
/// from the store `saved`, and let it be loaded into any store `current` that
/// holds the keys of such a preset. Then every key of the preset shows the
/// value that it had in `saved`: the same value, or for a double one that is
/// equal as a number.
pub proof fn lemma_load_restores_what_was_saved(
    preset_type: PresetType,
    saved: StoreView,
    preset: Preset,
    current: StoreView,
)
    requires
        preset.kind() == preset_type,
        preset.wf(),
        preset.taken_from(saved),
        Preset::stored(preset_type, current) is Some,
    ensures
        forall|i: int|
            0 <= i < preset.settings().len() ==> {
                let address = (#[trigger] preset.settings()[i]).address;
                &&& current.apply(preset.settings()).values.contains_key(address)
                &&& current.apply(preset.settings()).values[address].shows(saved.values[address])
            },
{
    let list = preset.settings();
    Preset::lemma_stored(preset_type, saved);
    preset.lemma_settings();
    preset.lemma_accepted(current);
    current.lemma_apply_shows(list);
    assert forall|i: int| 0 <= i < list.len() implies {
        let address = (#[trigger] list[i]).address;
        &&& current.apply(list).values.contains_key(address)
        &&& current.apply(list).values[address].shows(saved.values[address])
    } by {
        assert(list[i] == saved.setting(list[i].address));
        assert(current.apply(list).values.contains_key(list[i].address));
    }
}

/// Loading is idempotent: loading a preset a second time changes no value in
/// the store. Where no double of the preset is a NaN, the second time writes
/// nothing at all, so the store with its log of writes is as the first time
/// left it. A NaN differs from every number, itself too, and is written each
/// time.
pub proof fn lemma_load_twice_is_load_once(
    preset_type: PresetType,
    preset: Preset,
    store: StoreView,
)
    requires
        preset.kind() == preset_type,
        preset.wf(),
        Preset::stored(preset_type, store) is Some,
    ensures
        store.apply(preset.settings()).apply(preset.settings()).values == store.apply(
            preset.settings(),
        ).values,
        free_of_nan(preset.settings()) ==> store.apply(preset.settings()).apply(
            preset.settings(),
        ) == store.apply(preset.settings()),
{
    preset.lemma_settings();
    preset.lemma_accepted(store);
    store.lemma_apply_twice(preset.settings());
    if free_of_nan(preset.settings()) {
        store.lemma_apply_twice_settled(preset.settings());
    }
}

/// Loading writes only what changes: the writes that loading a preset logs
/// are those settings of the preset that differ from the store as it was, in
/// the order of the preset, and every other key of the store keeps its value.
pub proof fn lemma_load_writes_changes_only(
    preset_type: PresetType,
    preset: Preset,
    store: StoreView,
)
    requires
        preset.kind() == preset_type,
        preset.wf(),
        Preset::stored(preset_type, store) is Some,
    ensures
        store.apply(preset.settings()).writes == store.writes + store.changes(preset.settings()),
        store.apply(preset.settings()).values.dom() == store.values.dom(),
        forall|address: Address|
            (forall|i: int|
                0 <= i < preset.settings().len() ==> (#[trigger] preset.settings()[i]).address
                    != address) ==> #[trigger] store.apply(preset.settings()).values[address]
                == store.values[address],
{
    preset.lemma_settings();
    preset.lemma_accepted(store);
    store.lemma_apply_writes(preset.settings());
    store.lemma_apply_frame(preset.settings());
}

/// Where presets are looked for: for each direction the user's directory,
/// which is also written to, and after it the system directories that exist.
#[derive(Clone, Debug)]
pub struct Manager {
    user_input_directory: String,
    user_output_directory: String,
    system_input_directories: Vec<String>,
    system_output_directories: Vec<String>,
}

impl Manager {
    /// The user's directory for the presets of one direction.
    pub closed spec fn user_directory_of(&self, preset_type: PresetType) -> Seq<char> {
        match preset_type {
            PresetType::Input => self.user_input_directory@,
            PresetType::Output => self.user_output_directory@,
        }
    }

    /// The system directories for the presets of one direction, in the order
    /// in which they were made known.
    pub closed spec fn system_directories_of(&self, preset_type: PresetType) -> Seq<Seq<char>> {
        match preset_type {
            PresetType::Input => texts(self.system_input_directories@),
            PresetType::Output => texts(self.system_output_directories@),
        }
    }

    /// The directories of the presets of one direction in the order in which
    /// they are searched: the user's first.
    pub open spec fn directories_of(&self, preset_type: PresetType) -> Seq<Seq<char>> {
        seq![self.user_directory_of(preset_type)] + self.system_directories_of(preset_type)
    }

    /// The file of the preset `name` with `extension` in each directory of
    /// `preset_type`, in the order of the directories.
    pub open spec fn candidates(
        &self,
        preset_type: PresetType,
        name: Seq<char>,
        extension: Seq<char>,
    ) -> Seq<Seq<char>> {
        Seq::new(
            self.directories_of(preset_type).len(),
            |i: int| joined(self.directories_of(preset_type)[i], name + extension),
        )
    }

    /// The file to which the preset `name` of `preset_type` is saved: the one
    /// with the extension `.yaml` in the user's directory.
    pub open spec fn saved_at(&self, preset_type: PresetType, name: Seq<char>) -> Seq<char> {
        joined(self.user_directory_of(preset_type), name + ".yaml"@)
    }

    /// A manager that knows the user's directories below the configuration
    /// directory `user_config_directory` and no others.
    pub fn new(user_config_directory: &str) -> (r: Manager)
        ensures
            r.user_directory_of(PresetType::Input) == input_directory_of(user_config_directory@),
            r.user_directory_of(PresetType::Output) == output_directory_of(user_config_directory@),
            r.system_directories_of(PresetType::Input) == Seq::<Seq<char>>::empty(),
            r.system_directories_of(PresetType::Output) == Seq::<Seq<char>>::empty(),
    {
        let r = Manager {
            user_input_directory: input_directory(user_config_directory),
            user_output_directory: output_directory(user_config_directory),
            system_input_directories: Vec::new(),
            system_output_directories: Vec::new(),
        };
        assert(r.system_directories_of(PresetType::Input) =~= Seq::<Seq<char>>::empty());
        assert(r.system_directories_of(PresetType::Output) =~= Seq::<Seq<char>>::empty());
        r
    }

    /// Makes the preset directories below the system configuration directory
    /// `config_directory` known, each where it exists.
    pub fn add_system_directory(
        &mut self,
        config_directory: &str,
        has_input: bool,
        has_output: bool,
    )
        ensures
            final(self).user_directory_of(PresetType::Input) == old(self).user_directory_of(
                PresetType::Input,
            ),
            final(self).user_directory_of(PresetType::Output) == old(self).user_directory_of(
                PresetType::Output,
            ),
            final(self).system_directories_of(PresetType::Input) == if has_input {
                old(self).system_directories_of(PresetType::Input).push(
                    input_directory_of(config_directory@),
                )
            } else {
                old(self).system_directories_of(PresetType::Input)
            },
            final(self).system_directories_of(PresetType::Output) == if has_output {
                old(self).system_directories_of(PresetType::Output).push(
                    output_directory_of(config_directory@),
                )
            } else {
                old(self).system_directories_of(PresetType::Output)
            },
    {
        if has_input {
            self.system_input_directories.push(input_directory(config_directory));
            assert(self.system_directories_of(PresetType::Input) =~= old(
                self,
            ).system_directories_of(PresetType::Input).push(input_directory_of(config_directory@)));
        }
        if has_output {
            self.system_output_directories.push(output_directory(config_directory));
            assert(self.system_directories_of(PresetType::Output) =~= old(
                self,
            ).system_directories_of(PresetType::Output).push(
                output_directory_of(config_directory@),
            ));
        }
    }

    fn user_directory(&self, preset_type: &PresetType) -> (r: &String)
        ensures
            r@ == self.user_directory_of(*preset_type),
    {
        match preset_type {
            PresetType::Output => &self.user_output_directory,
            PresetType::Input => &self.user_input_directory,
        }
    }

    fn system_directories(&self, preset_type: &PresetType) -> (r: &Vec<String>)
        ensures
            texts(r@) == self.system_directories_of(*preset_type),
    {
        match preset_type {
            PresetType::Output => &self.system_output_directories,
            PresetType::Input => &self.system_input_directories,
        }
    }

    /// The directories of the presets of one direction in the order in which
    /// they are searched.
    pub fn directories(&self, preset_type: &PresetType) -> (r: Vec<String>)
        ensures
            texts(r@) == self.directories_of(*preset_type),
    {
        let system = self.system_directories(preset_type);
        let mut r: Vec<String> = Vec::new();
        r.push(self.user_directory(preset_type).clone());
        let mut i: usize = 0;
        assert(texts(r@) =~= seq![self.user_directory_of(*preset_type)] + texts(system@).take(0));
        while i < system.len()
            invariant
                i <= system.len(),
                texts(r@) == seq![self.user_directory_of(*preset_type)] + texts(system@).take(
                    i as int,
                ),
            decreases system.len() - i,
        {
            let ghost before = texts(r@);
            r.push(system[i].clone());
            assert(texts(r@) =~= before.push(system[i as int]@));
            assert(texts(r@) =~= seq![self.user_directory_of(*preset_type)] + texts(system@).take(
                i + 1,
            ));
            i += 1;
        }
        assert(texts(system@).take(system.len() as int) =~= texts(system@));
        r
    }

    /// The names of the presets of one direction, in ascending order and each
    /// once. `listings` holds the entries of each directory of that direction,
    /// in the order of the directories; a directory without a listing counts
    /// as empty.
    pub fn get_names(&self, preset_type: &PresetType, listings: &Vec<Vec<DirectoryEntry>>) -> (r:
        Vec<String>)
        ensures
            ascending(texts(r@)),
            forall|i: int, j: int|
                0 <= i < r.len() && 0 <= j < r.len() && i != j ==> r[i]@ != r[j]@,
            forall|name: Seq<char>|
                texts(r@).contains(name) <==> listed_in(
                    listings@,
                    smaller(listings.len() as int, self.directories_of(*preset_type).len() as int),
                    name,
                ),
    {
        let system = self.system_directories(preset_type).len();
        let limit: usize = if listings.len() == 0 {
            0
        } else if listings.len() - 1 <= system {
            listings.len()
        } else {
            system + 1
        };
        let mut names: Vec<String> = Vec::new();
        let mut i: usize = 0;
        while i < limit
            invariant
                i <= limit <= listings.len(),
                ascending(texts(names@)),
                forall|name: Seq<char>|
                    texts(names@).contains(name) <==> listed_in(listings@, i as int, name),
            decreases limit - i,
        {
            let presets = get_presets_list(&listings[i]);
            let ghost found = presets_in(listings@[i as int]@);
            let mut j: usize = 0;
            while j < presets.len()
                invariant
                    j <= presets.len(),
                    i < listings.len(),
                    texts(presets@) == found,
                    found == presets_in(listings@[i as int]@),
                    ascending(texts(names@)),
                    forall|name: Seq<char>|
                        texts(names@).contains(name) <==> (listed_in(listings@, i as int, name)
                            || found.take(j as int).contains(name)),
                decreases presets.len() - j,
            {
                let ghost before = texts(names@);
                insert_name(&mut names, presets[j].clone());
                proof {
                    assert(presets[j as int]@ == found[j as int]);
                    assert forall|name: Seq<char>|
                        texts(names@).contains(name) <==> (listed_in(listings@, i as int, name)
                            || found.take(j + 1).contains(name)) by {
                        lemma_take_contains(found, j as int, name);
                    }
                }
                j += 1;
            }
            proof {
                assert(found.take(presets.len() as int) =~= found);
                assert forall|name: Seq<char>|
                    texts(names@).contains(name) <==> listed_in(listings@, i + 1, name) by {
                    if listed_in(listings@, i + 1, name) {
                        let k = choose|k: int|
                            0 <= k < i + 1 && #[trigger] presets_in(listings@[k]@).contains(name);
                        if k < i {
                            assert(listed_in(listings@, i as int, name));
                        }
                    }
                    if listed_in(listings@, i as int, name) {
                        let k = choose|k: int|
                            0 <= k < i && #[trigger] presets_in(listings@[k]@).contains(name);
                        assert(presets_in(listings@[k]@).contains(name));
                    }
                    if found.contains(name) {
                        assert(presets_in(listings@[i as int]@).contains(name));
                    }
                }
            }
            i += 1;
        }
        proof {
            lemma_ascending_has_no_duplicates(texts(names@));
            assert forall|a: int, b: int|
                0 <= a < names.len() && 0 <= b < names.len() && a != b implies names[a]@
                != names[b]@ by {
                assert(texts(names@)[a] != texts(names@)[b]);
            }
        }
        names
    }

    /// The file of the preset `name` with `extension` in each directory of
    /// `preset_type`, in the order in which the directories are searched.
    pub fn candidate_paths(&self, preset_type: &PresetType, name: &String, extension: &str) -> (r:
        Vec<String>)
        ensures
            texts(r@) == self.candidates(*preset_type, name@, extension@),
    {
        let mut file = name.clone();
        file.append(extension);
        let directories = self.directories(preset_type);
        let mut r: Vec<String> = Vec::new();
        let mut i: usize = 0;
        assert(texts(r@) =~= self.candidates(*preset_type, name@, extension@).take(0));
        while i < directories.len()
            invariant
                i <= directories.len(),
                file@ == name@ + extension@,
                texts(directories@) == self.directories_of(*preset_type),
                texts(r@) == self.candidates(*preset_type, name@, extension@).take(i as int),
            decreases directories.len() - i,
        {
            let ghost before = texts(r@);
            r.push(join_path(directories[i].as_str(), file.as_str()));
            assert(texts(directories@)[i as int] == directories[i as int]@);
            assert(texts(r@) =~= before.push(joined(directories[i as int]@, file@)));
            assert(texts(r@) =~= self.candidates(*preset_type, name@, extension@).take(i + 1));
            i += 1;
        }
        assert(self.candidates(*preset_type, name@, extension@).take(directories.len() as int)
            =~= self.candidates(*preset_type, name@, extension@));
        r
    }

    /// Resolves the preset `name` with `extension` to a file. `is_file` says
    /// of each candidate path, in order, whether a file is there; a candidate
    /// without a flag counts as missing. The first candidate with a file is
    /// the answer, so a file in the user's directory goes before one in a
    /// system directory. Where there is none, the answer is `false` and an
    /// empty path.
    pub fn check_file_type(
        &self,
        preset_type: &PresetType,
        name: &String,
        extension: &str,
        is_file: &Vec<bool>,
    ) -> (r: (bool, String))
        ensures
            match first_set(
                is_file@,
                smaller(is_file.len() as int, self.directories_of(*preset_type).len() as int),
            ) {
                Some(i) => r.0 && r.1@ == self.candidates(*preset_type, name@, extension@)[i],
                None => !r.0 && r.1@ == Seq::<char>::empty(),
            },
            is_file.len() > 0 && is_file[0] ==> r.0 && r.1@ == joined(
                self.user_directory_of(*preset_type),
                name@ + extension@,
            ),
    {
        let candidates = self.candidate_paths(preset_type, name, extension);
        let ghost count = smaller(
            is_file.len() as int,
            self.directories_of(*preset_type).len() as int,
        );
        proof {
            lemma_first_set_at_start(is_file@, count);
            assert(texts(candidates@).len() == candidates.len());
        }
        let mut i: usize = 0;
        while i < candidates.len() && i < is_file.len()
            invariant
                i <= candidates.len(),
                i <= is_file.len(),
                candidates.len() == self.directories_of(*preset_type).len(),
                texts(candidates@) == self.candidates(*preset_type, name@, extension@),
                count == smaller(
                    is_file.len() as int,
                    self.directories_of(*preset_type).len() as int,
                ),
                first_set(is_file@, i as int) is None,
            decreases candidates.len() - i,
        {
            if is_file[i] {
                proof {
                    lemma_first_set_stays(is_file@, i + 1, count);
                    lemma_first_set_at_start(is_file@, i as int);
                    assert(texts(candidates@)[i as int] == candidates[i as int]@);
                    assert(self.candidates(*preset_type, name@, extension@)[0] == joined(
                        self.user_directory_of(*preset_type),
                        name@ + extension@,
                    ));
                }
                return (true, candidates[i].clone());
            }
            i += 1;
        }
        (false, String::new())
    }

    /// The file to which the preset `name` of `preset_type` is saved: the
    /// file of that name with the extension `.yaml`, directly in the user's
    /// directory. It is the first file that is looked at when that preset is
    /// loaded. The name is a single component of a path.
    pub fn save_path(&self, preset_type: &PresetType, name: &String) -> (r: String)
        requires
            plain_name(name@),
        ensures
            r@ == self.saved_at(*preset_type, name@),
            r@ == within(self.user_directory_of(*preset_type)) + name@ + ".yaml"@,
            plain_name(name@ + ".yaml"@),
            r@ == self.candidates(*preset_type, name@, ".yaml"@)[0],
    {
        proof {
            reveal_strlit(".yaml");
            assert((name@ + ".yaml"@).len() > 0 && (name@ + ".yaml"@)[0] != '/');
        }
        let mut file = name.clone();
        file.append(".yaml");
        let r = join_path(self.user_directory(preset_type).as_str(), file.as_str());
        assert(r@ =~= within(self.user_directory_of(*preset_type)) + name@ + ".yaml"@);
        r
    }

    /// Takes the preset of `preset_type` that `store` holds at this moment,
    /// and says to which file it is to be written under `name`: a file
    /// directly in the user's directory. A name that holds a slash is refused,
    /// since its file would lie elsewhere. After that, there is no preset
    /// where the store lacks one of its keys or holds it with another type.
    pub fn save(&self, preset_type: &PresetType, name: &String, store: &SettingsStore) -> (r:
        Result<(String, Preset), SaveError>)
        ensures
            match r {
                Ok((path, preset)) => {
                    &&& plain_name(name@)
                    &&& path@ == self.saved_at(*preset_type, name@)
                    &&& path@ == within(self.user_directory_of(*preset_type)) + name@ + ".yaml"@
                    &&& preset.kind() == *preset_type
                    &&& preset.wf()
                    &&& preset.taken_from(store@)
                },
                Err(SaveError::Name) => !plain_name(name@),
                Err(SaveError::Store) => plain_name(name@) && Preset::stored(
                    *preset_type,
                    store@,
                ) is None,
            },
    {
        if !is_plain_name(name.as_str()) {
            return Err(SaveError::Name);
        }
        let preset = match preset_type {
            PresetType::Output => match root::Output::read(store) {
                Some(preset) => Preset::Output(preset),
                None => {
                    return Err(SaveError::Store);
                },
            },
            PresetType::Input => match root::Input::read(store) {
                Some(preset) => Preset::Input(preset),
                None => {
                    return Err(SaveError::Store);
                },
            },
        };
        Ok((self.save_path(preset_type, name), preset))
    }

    /// Brings a parsed preset into `store`. `parsed` is what parsing the text
    /// of the preset gave: the preset, or the parser's message. The store is
    /// written to only where all of the preset can be: after a parse error,
    /// for a preset of the other direction, for one with a wrong number of
    /// bands and for a store that lacks one of its keys the store stays as it
    /// is and the error says which of these it was, in this order. Else every
    /// field is handed to its key, and a key is written only where its value
    /// would change.
    pub fn load(
        &self,
        preset_type: &PresetType,
        parsed: Result<Preset, String>,
        store: &mut SettingsStore,
    ) -> (r: Result<(), LoadError>)
        ensures
            match parsed {
                Err(message) => r == Err::<(), LoadError>(LoadError::Malformed(message)),
                Ok(preset) => if preset.kind() != *preset_type {
                    r == Err::<(), LoadError>(LoadError::WrongType)
                } else if !preset.wf() {
                    r == Err::<(), LoadError>(LoadError::BandCount)
                } else if Preset::stored(*preset_type, old(store)@) is None {
                    r == Err::<(), LoadError>(LoadError::Store)
                } else {
                    r == Ok::<(), LoadError>(())
                },
            },
            match (r, parsed) {
                (Ok(_), Ok(preset)) => final(store)@ == old(store)@.apply(preset.settings()),
                _ => final(store)@ == old(store)@,
            },
            forall|address: Address, kind: Kind| #[trigger]
                final(store)@.holds(address, kind) == old(store)@.holds(address, kind),
    {
        match parsed {
            Err(message) => Err(LoadError::Malformed(message)),
            Ok(Preset::Output(preset)) => {
                match preset_type {
                    PresetType::Input => Err(LoadError::WrongType),
                    PresetType::Output => {
                        if !preset.is_well_formed() {
                            Err(LoadError::BandCount)
                        } else if root::Output::read(store).is_none() {
                            Err(LoadError::Store)
                        } else {
                            preset.apply(store);
                            Ok(())
                        }
                    },
                }
            },
            Ok(Preset::Input(preset)) => {
                match preset_type {
                    PresetType::Output => Err(LoadError::WrongType),
                    PresetType::Input => {
                        if !preset.is_well_formed() {
                            Err(LoadError::BandCount)
                        } else if root::Input::read(store).is_none() {
                            Err(LoadError::Store)
                        } else {
                            preset.apply(store);
                            Ok(())
                        }
                    },
                }
            },
        }
    }
}

/// The user's directory goes first: where a file of the name is in the user's
/// directory, that file is the one the name resolves to, whatever the system
/// directories hold. For the extension `.yaml` and a name without a slash it
/// is the file that saving writes.
pub proof fn lemma_user_directory_goes_first(
    manager: Manager,
    preset_type: PresetType,
    name: Seq<char>,
    extension: Seq<char>,
    is_file: Seq<bool>,
)
    requires
        is_file.len() > 0,
        is_file[0],
    ensures
        first_set(
            is_file,
            smaller(is_file.len() as int, manager.directories_of(preset_type).len() as int),
        ) == Some(0int),
        manager.candidates(preset_type, name, extension)[0] == joined(
            manager.user_directory_of(preset_type),
            name + extension,
        ),
        extension == ".yaml"@ ==> manager.candidates(preset_type, name, extension)[0]
            == manager.saved_at(preset_type, name),
{
    lemma_first_set_at_start(
        is_file,
        smaller(is_file.len() as int, manager.directories_of(preset_type).len() as int),
    );
}

/// Among no flags, or none that is set, there is no first one.
proof fn lemma_first_set_at_start(flags: Seq<bool>, count: int)
    ensures
        first_set(flags, 0) is None,
        count > 0 && flags[0] ==> first_set(flags, count) == Some(0int),
    decreases count,
{
    if count > 1 {
        lemma_first_set_at_start(flags, count - 1);
    }
}

/// The first set flag among the first `found` flags is the first among more.
proof fn lemma_first_set_stays(flags: Seq<bool>, found: int, count: int)
    requires
        0 < found <= count,
        first_set(flags, found - 1) is None,
        flags[found - 1],
    ensures
        first_set(flags, count) == Some(found - 1),
    decreases count - found,
{
    if found < count {
        lemma_first_set_stays(flags, found, count - 1);
    }
}

/// The path of `file` in `directory`.
pub fn join_path(directory: &str, file: &str) -> (r: String)
    ensures
        r@ == joined(directory@, file@),
{
    let start = chars_of(file);
    if start.len() > 0 && start[0] == '/' {
        return file.to_owned();
    }
    let end = chars_of(directory);
    let mut r = directory.to_owned();
    if end.len() > 0 && end[end.len() - 1] != '/' {
        r.push('/');
    }
    r.append(file);
    r
}

/// The text of a preset, given what was found on disk: `yaml` is the content
/// of its file in the preferred format, `json` that of its file in the legacy
/// format, each where there is such a file. The preferred format goes first;
/// a legacy preset is migrated; where there is neither file the text is empty,
/// which is no error.
pub fn preset_file_to_string(yaml: Option<String>, json: Option<String>) -> (r: Result<
    String,
    LegacyError,
>)
    ensures
        match (yaml, json) {
            (Some(text), _) => r is Ok && r->Ok_0@ == text@,
            (None, Some(text)) => match r {
                Ok(migrated_text) => migrated(text@) == Ok::<Seq<char>, Fault>(migrated_text@),
                Err(e) => migrated(text@) == Err::<Seq<char>, Fault>(e.fault()),
            },
            (None, None) => r is Ok && r->Ok_0@ == Seq::<char>::empty(),
        },
{
    match yaml {
        Some(text) => Ok(text),
        None => match json {
            Some(text) => migrate_legacy(text.as_str()),
            None => Ok(String::new()),
        },
    }
}

} // verus!
