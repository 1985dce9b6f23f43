//! The override mapping and the directory it is kept in: the built-in
//! limits, the lookup of a dimension's limits by name, the paths of the
//! configuration and log files, and what to make of a stored configuration.

use vstd::prelude::*;
use vstd::string::*;
use crate::bytes::SLASH;

verus! {

/// The lower and upper build limit of a dimension.
#[derive(Clone, Copy, Debug, PartialEq, Eq, Structural)]
pub struct BuildLimit {
    pub min: i16,
    pub max: i16,
}

/// The limits that a configuration sets for the dimension of one name. A
/// configuration is a list of such entries in which each name occurs once.
#[derive(Clone, Debug, PartialEq, Eq)]
pub struct OverrideEntry {
    pub name: String,
    pub limit: BuildLimit,
}

impl View for OverrideEntry {
    type V = (Seq<char>, BuildLimit);

    open spec fn view(&self) -> (Seq<char>, BuildLimit) {
        (self.name@, self.limit)
    }
}

/// No name occurs twice among the entries, so that they stand for a
/// mapping from names to limits.
pub open spec fn distinct_names(entries: Seq<OverrideEntry>) -> bool {
    forall|i: int, j: int|
        0 <= i < j < entries.len() ==> (#[trigger] entries[i]).name@ != (#[trigger] entries[j]).name@
}

/// The name and limits of each entry, in order.
pub open spec fn entries_view(entries: Seq<OverrideEntry>) -> Seq<(Seq<char>, BuildLimit)> {
    entries.map_values(|e: OverrideEntry| e@)
}

/// The name of the configuration file.
pub const CONFIG_FILE: &'static str = "dimensions.json";

/// The name of the log file.
pub const LOG_FILE: &'static str = "log.txt";

/// The directory, below the platform's own, that holds both files.
pub const CONFIG_SUBDIR: &'static str = "/BuildLimitChanger/";

/// The directory of the configuration: unset at first, set at most once.
pub struct ConfigDir {
    dir: Option<String>,
}

impl View for ConfigDir {
    type V = Option<Seq<char>>;

    closed spec fn view(&self) -> Option<Seq<char>> {
        match self.dir {
            Some(d) => Some(d@),
            None => None,
        }
    }
}

impl ConfigDir {
    /// The cell with no directory set.
    pub fn new() -> (cell: ConfigDir)
        ensures
            cell@ is None,
    {
        ConfigDir { dir: None }
    }

    /// The directory, once it is set.
    pub fn get(&self) -> (dir: Option<&String>)
        ensures
            match dir {
                Some(d) => self@ == Some(d@),
                None => self@ is None,
            },
    {
        self.dir.as_ref()
    }
}

/// A file name is put behind a directory with a separator between them,
/// unless the directory is empty or its last byte is a separator already.
pub open spec fn needs_separator(dir: Seq<char>) -> bool {
    let bytes = vstd::utf8::encode_utf8(dir);
    bytes.len() > 0 && bytes.last() != SLASH
}

/// The path of the file `file` in the directory `dir`.
pub open spec fn join_spec(dir: Seq<char>, file: Seq<char>) -> Seq<char> {
    if needs_separator(dir) {
        dir + "/"@ + file
    } else {
        dir + file
    }
}

/// The path of a file in a directory.
pub fn join(dir: &String, file: &str) -> (path: String)
    ensures
        path@ == join_spec(dir@, file@),
{
    let bytes: &[u8] = dir.as_str().as_bytes();
    let mut path: String = dir.clone();
    if bytes.len() > 0 && bytes[bytes.len() - 1] != SLASH {
        path.append("/");
    }
    path.append(file);
    path
}

/// Sets the configuration directory, unless one is set already. Returns
/// whether it was set.
pub fn set_config_dir(cell: &mut ConfigDir, path: String) -> (stored: bool)
    ensures
        stored == (old(cell)@ is None),
        stored ==> final(cell)@ == Some(path@),
        !stored ==> final(cell)@ == old(cell)@,
{
    if cell.dir.is_some() {
        false
    } else {
        cell.dir = Some(path);
        true
    }
}

/// The path of the configuration file, once the directory is set.
pub fn config_path(cell: &ConfigDir) -> (path: Option<String>)
    ensures
        match path {
            Some(p) => cell@ matches Some(d) && p@ == join_spec(d, CONFIG_FILE@),
            None => cell@ is None,
        },
{
    match &cell.dir {
        Some(d) => Some(join(d, CONFIG_FILE)),
        None => None,
    }
}

/// The path of the log file, once the directory is set.
pub fn log_path(cell: &ConfigDir) -> (path: Option<String>)
    ensures
        match path {
            Some(p) => cell@ matches Some(d) && p@ == join_spec(d, LOG_FILE@),
            None => cell@ is None,
        },
{
    match &cell.dir {
        Some(d) => Some(join(d, LOG_FILE)),
        None => None,
    }
}

/// The configuration directory below the platform's directory `base`.
pub fn config_dir(base: &str) -> (dir: String)
    ensures
        dir@ == base@ + CONFIG_SUBDIR@,
{
    let mut dir: String = String::from_str(base);
    dir.append(CONFIG_SUBDIR);
    dir
}

/// How the set-up of the configuration directory ended.
#[derive(Clone, Copy, Debug, PartialEq, Eq, Structural)]
pub enum ConfigInit {
    /// The directory cannot be written; none was set.
    NotWritable,
    /// A directory was set before; it stays.
    AlreadySet,
    /// The directory is set.
    Ready,
}

/// Makes `path`, the platform's directory, the path of the configuration
/// directory below it, and sets it as the configuration directory where it
/// can be written. `writable` says whether `config_dir` of the path that
/// is handed in can be written.
pub fn init_config(path: &mut String, writable: bool, cell: &mut ConfigDir) -> (status: ConfigInit)
    ensures
        final(path)@ == old(path)@ + CONFIG_SUBDIR@,
        status == if !writable {
            ConfigInit::NotWritable
        } else if old(cell)@ is Some {
            ConfigInit::AlreadySet
        } else {
            ConfigInit::Ready
        },
        final(cell)@ == if status == ConfigInit::Ready {
            Some(final(path)@)
        } else {
            old(cell)@
        },
{
    path.append(CONFIG_SUBDIR);
    if !writable {
        return ConfigInit::NotWritable;
    }
    if set_config_dir(cell, path.clone()) {
        ConfigInit::Ready
    } else {
        ConfigInit::AlreadySet
    }
}

/// The limits that hold where no configuration can be read.
pub open spec fn default_limits_spec() -> Seq<(Seq<char>, BuildLimit)> {
    seq![
        ("Overworld"@, BuildLimit { min: (-64i16), max: 320 }),
        ("Nether"@, BuildLimit { min: 0, max: 128 }),
        ("TheEnd"@, BuildLimit { min: 0, max: 256 }),
    ]
}

/// The built-in limits of the three dimensions.
pub fn default_limits() -> (limits: Vec<OverrideEntry>)
    ensures
        entries_view(limits@) == default_limits_spec(),
        distinct_names(limits@),
{
    let mut limits: Vec<OverrideEntry> = Vec::new();
    limits.push(
        OverrideEntry { name: String::from_str("Overworld"), limit: BuildLimit { min: -64, max: 320 } },
    );
    limits.push(
        OverrideEntry { name: String::from_str("Nether"), limit: BuildLimit { min: 0, max: 128 } },
    );
    limits.push(
        OverrideEntry { name: String::from_str("TheEnd"), limit: BuildLimit { min: 0, max: 256 } },
    );
    proof {
        reveal_strlit("Overworld");
        reveal_strlit("Nether");
        reveal_strlit("TheEnd");
        assert("Overworld"@.len() != "Nether"@.len());
        assert("Overworld"@.len() != "TheEnd"@.len());
        assert("Nether"@[0] != "TheEnd"@[0]);
    }
    limits
}

/// What was found where the configuration is kept.
#[derive(Debug)]
pub enum StoredConfig {
    /// No configuration directory is set.
    NoDirectory,
    /// The file is absent or cannot be read as a configuration.
    Unreadable,
    /// The entries that the file holds.
    Parsed(Vec<OverrideEntry>),
}

/// The limits to work with, and whether the configuration file is to be
/// written anew with the built-in limits.
#[derive(Debug)]
pub struct Loaded {
    pub limits: Vec<OverrideEntry>,
    pub regenerate: bool,
}

/// Decides what limits to work with. A configuration that was read is
/// taken as it is. Where the file is absent or unreadable, the built-in
/// limits are taken and the file is to be written anew. Without a
/// configuration directory there are no limits and nothing is written.
pub fn load(stored: StoredConfig) -> (loaded: Loaded)
    ensures
        match stored {
            StoredConfig::NoDirectory => loaded.limits@.len() == 0 && !loaded.regenerate,
            StoredConfig::Unreadable => entries_view(loaded.limits@) == default_limits_spec()
                && loaded.regenerate,
            StoredConfig::Parsed(entries) => loaded.limits == entries && !loaded.regenerate,
        },
        (stored matches StoredConfig::Parsed(entries) ==> distinct_names(entries@))
            ==> distinct_names(loaded.limits@),
{
    match stored {
        StoredConfig::NoDirectory => Loaded { limits: Vec::new(), regenerate: false },
        StoredConfig::Unreadable => Loaded { limits: default_limits(), regenerate: true },
        StoredConfig::Parsed(entries) => Loaded { limits: entries, regenerate: false },
    }
}

/// The index of the first entry of the given name from index `from` on;
/// the length of `entries` where there is none.
pub open spec fn first_named(entries: Seq<OverrideEntry>, name: Seq<char>, from: int) -> int
    decreases entries.len() - from,
{
    if from < 0 || from >= entries.len() {
        entries.len() as int
    } else if entries[from].name@ == name {
        from
    } else {
        first_named(entries, name, from + 1)
    }
}

/// The limits that the entries set for the dimension of the given name.
pub open spec fn lookup_spec(entries: Seq<OverrideEntry>, name: Seq<char>) -> Option<BuildLimit> {
    let i = first_named(entries, name, 0);
    if i < entries.len() {
        Some(entries[i].limit)
    } else {
        None
    }
}

/// The lookup finds the first entry of the name: where it finds limits,
/// they are those of an entry of that name before which no entry has the
/// name; where it finds none, no entry has the name.
pub proof fn lemma_lookup_finds_first(entries: Seq<OverrideEntry>, name: Seq<char>, from: int)
    requires
        0 <= from <= entries.len(),
    ensures
        from <= first_named(entries, name, from) <= entries.len(),
        first_named(entries, name, from) < entries.len() ==> entries[first_named(
            entries,
            name,
            from,
        )].name@ == name,
        forall|k: int|
            from <= k < first_named(entries, name, from) ==> (#[trigger] entries[k]).name@ != name,
    decreases entries.len() - from,
{
    if from < entries.len() && entries[from].name@ != name {
        lemma_lookup_finds_first(entries, name, from + 1);
    }
}

/// Where no name occurs twice, the lookup gives what a mapping gives: the
/// limits of the one entry of the name, and none where no entry has it.
pub proof fn lemma_lookup_of_distinct_names(entries: Seq<OverrideEntry>, name: Seq<char>)
    requires
        distinct_names(entries),
    ensures
        forall|i: int|
            0 <= i < entries.len() && (#[trigger] entries[i]).name@ == name ==> lookup_spec(
                entries,
                name,
            ) == Some(entries[i].limit),
        lookup_spec(entries, name) is None <==> forall|i: int|
            0 <= i < entries.len() ==> (#[trigger] entries[i]).name@ != name,
{
    lemma_lookup_finds_first(entries, name, 0);
    let k = first_named(entries, name, 0);
    assert forall|i: int| 0 <= i < entries.len() && (#[trigger] entries[i]).name@ == name implies k
        == i by {
        if k < i {
            assert(entries[k].name@ != entries[i].name@);
        }
    }
}

/// Finds the first entry of the given name.
pub fn position(entries: &[OverrideEntry], name: &String) -> (at: Option<usize>)
    ensures
        match at {
            Some(i) => i < entries@.len() && i == first_named(entries@, name@, 0),
            None => first_named(entries@, name@, 0) == entries@.len(),
        },
{
    let mut i: usize = 0;
    while i < entries.len()
        invariant
            i <= entries@.len(),
            first_named(entries@, name@, 0) == first_named(entries@, name@, i as int),
        decreases entries@.len() - i,
    {
        if entries[i].name == *name {
            return Some(i);
        }
        i = i + 1;
    }
    None
}

/// Looks up the limits of the dimension of the given name: those of the
/// first entry of the name, which is the only one where no name occurs
/// twice.
pub fn lookup(entries: &[OverrideEntry], name: &String) -> (limit: Option<BuildLimit>)
    ensures
        limit == lookup_spec(entries@, name@),
        distinct_names(entries@) ==> forall|i: int|
            0 <= i < entries@.len() && (#[trigger] entries@[i]).name@ == name@ ==> limit == Some(
                entries@[i].limit,
            ),
{
    proof {
        if distinct_names(entries@) {
            lemma_lookup_of_distinct_names(entries@, name@);
        }
    }
    match position(entries, name) {
        Some(i) => Some(entries[i].limit),
        None => None,
    }
}

/// The entries after the limits of a name are set: the entry takes the
/// place of the first entry of its name, or comes behind the others where
/// none has its name.
pub open spec fn insert_spec(entries: Seq<OverrideEntry>, entry: OverrideEntry) -> Seq<
    OverrideEntry,
> {
    let i = first_named(entries, entry.name@, 0);
    if i < entries.len() {
        entries.update(i, entry)
    } else {
        entries.push(entry)
    }
}

/// Two lists whose entries have the same names, as far as the shorter one
/// reaches, agree on where a name comes first within that reach.
proof fn lemma_first_named_agrees(
    a: Seq<OverrideEntry>,
    b: Seq<OverrideEntry>,
    name: Seq<char>,
    from: int,
)
    requires
        0 <= from <= a.len() <= b.len(),
        forall|k: int| 0 <= k < a.len() ==> (#[trigger] a[k]).name@ == b[k].name@,
    ensures
        first_named(a, name, from) < a.len() ==> first_named(b, name, from) == first_named(
            a,
            name,
            from,
        ),
        first_named(a, name, from) == a.len() ==> first_named(b, name, from) >= a.len(),
    decreases a.len() - from,
{
    if from < a.len() {
        assert(a[from].name@ == b[from].name@);
        if a[from].name@ != name {
            lemma_first_named_agrees(a, b, name, from + 1);
        }
    } else {
        lemma_lookup_finds_first(b, name, from);
    }
}

/// Setting the limits of a name behaves as on a mapping: names stay
/// distinct, the name has the new limits, and every other name has the
/// limits it had.
pub proof fn lemma_insert_sets_one_name(entries: Seq<OverrideEntry>, entry: OverrideEntry)
    ensures
        distinct_names(entries) ==> distinct_names(insert_spec(entries, entry)),
        lookup_spec(insert_spec(entries, entry), entry.name@) == Some(entry.limit),
        forall|name: Seq<char>|
            name != entry.name@ ==> #[trigger] lookup_spec(insert_spec(entries, entry), name)
                == lookup_spec(entries, name),
{
    let after = insert_spec(entries, entry);
    let i = first_named(entries, entry.name@, 0);
    lemma_lookup_finds_first(entries, entry.name@, 0);
    assert forall|k: int| 0 <= k < entries.len() implies (#[trigger] entries[k]).name@
        == after[k].name@ by {}
    lemma_first_named_agrees(entries, after, entry.name@, 0);
    if i == entries.len() {
        lemma_lookup_finds_first(after, entry.name@, 0);
    }
    assert forall|name: Seq<char>| name != entry.name@ implies #[trigger] lookup_spec(after, name)
        == lookup_spec(entries, name) by {
        lemma_first_named_agrees(entries, after, name, 0);
        lemma_lookup_finds_first(entries, name, 0);
        lemma_lookup_finds_first(after, name, 0);
        let k = first_named(entries, name, 0);
        if k < entries.len() {
            assert(after[k].limit == entries[k].limit);
        } else if after.len() > entries.len() {
            assert(after[entries.len() as int].name@ == entry.name@);
        }
    }
    if distinct_names(entries) {
        assert forall|a: int, b: int| 0 <= a < b < after.len() implies (#[trigger] after[a]).name@ != (
        #[trigger] after[b]).name@ by {
            if b < entries.len() {
                assert(entries[a].name@ != entries[b].name@);
            } else {
                assert(entries[a].name@ != entry.name@);
            }
        }
    }
}

/// Sets the limits of a name: the entry takes the place of the entry of
/// its name, or comes behind the others where none has its name. Built
/// from nothing by this alone, a list holds each name once.
pub fn insert(entries: &mut Vec<OverrideEntry>, entry: OverrideEntry)
    ensures
        final(entries)@ == insert_spec(old(entries)@, entry),
        distinct_names(old(entries)@) ==> distinct_names(final(entries)@),
        lookup_spec(final(entries)@, entry.name@) == Some(entry.limit),
{
    proof {
        lemma_insert_sets_one_name(entries@, entry);
    }
    match position(entries.as_slice(), &entry.name) {
        Some(i) => {
            entries.set(i, entry);
        },
        None => {
            entries.push(entry);
        },
    }
}

} // verus!
