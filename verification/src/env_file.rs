//! Environment files written by setup scripts.
//!
//! A setup script exports variables to the tests that run after it by writing
//! one `KEY=VALUE` line per variable. The first `=` of a line ends the key;
//! nothing is escaped. A line without `=` is malformed, and a key that begins
//! with the runner's own prefix is refused.

use vstd::prelude::*;
use vstd::set_lib::lemma_subset_equality;
use vstd::std_specs::cmp::PartialEqSpecImpl;
use vstd::string::StrSliceExecFns;
use vstd::string::StringExecFns;

verus! {

/// Keys that begin with this prefix belong to the runner and may not be set
/// by a setup script.
pub const RESERVED_KEY_PREFIX: &'static str = "NEXTEST";

/// The character that ends the key of a line.
pub const KEY_VALUE_SEPARATOR: char = '=';

/// An error in the output of a setup script.
#[derive(Clone, Debug, PartialEq, Eq)]
pub enum SetupScriptOutputError {
    /// The environment file could not be opened.
    EnvFileOpen {
        /// The path of the environment file.
        path: String,
        /// What the operating system reported.
        error: String,
    },
    /// The environment file could not be read.
    EnvFileRead {
        /// The path of the environment file.
        path: String,
        /// What the operating system reported.
        error: String,
    },
    /// A line of the environment file holds no `=`.
    EnvFileParse {
        /// The path of the environment file.
        path: String,
        /// The offending line.
        line: String,
    },
    /// A line of the environment file sets a key kept for the runner.
    EnvFileReservedKey {
        /// The offending key.
        key: String,
    },
}

/// The mathematical content of a [`SetupScriptOutputError`].
pub enum SetupScriptOutputErrorView {
    EnvFileOpen { path: Seq<char>, error: Seq<char> },
    EnvFileRead { path: Seq<char>, error: Seq<char> },
    EnvFileParse { path: Seq<char>, line: Seq<char> },
    EnvFileReservedKey { key: Seq<char> },
}

impl View for SetupScriptOutputError {
    type V = SetupScriptOutputErrorView;

    open spec fn view(&self) -> SetupScriptOutputErrorView {
        match self {
            SetupScriptOutputError::EnvFileOpen { path, error } => {
                SetupScriptOutputErrorView::EnvFileOpen { path: path@, error: error@ }
            },
            SetupScriptOutputError::EnvFileRead { path, error } => {
                SetupScriptOutputErrorView::EnvFileRead { path: path@, error: error@ }
            },
            SetupScriptOutputError::EnvFileParse { path, line } => {
                SetupScriptOutputErrorView::EnvFileParse { path: path@, line: line@ }
            },
            SetupScriptOutputError::EnvFileReservedKey { key } => {
                SetupScriptOutputErrorView::EnvFileReservedKey { key: key@ }
            },
        }
    }
}

/// Whether `key` begins with the reserved prefix.
pub open spec fn is_reserved_key(key: Seq<char>) -> bool {
    RESERVED_KEY_PREFIX@.is_prefix_of(key)
}

/// The position of the first `=` in `line`, where there is one.
pub open spec fn separator_index(line: Seq<char>) -> int
    recommends
        line.contains(KEY_VALUE_SEPARATOR),
{
    choose|i: int|
        0 <= i < line.len() && line[i] == KEY_VALUE_SEPARATOR && forall|j: int|
            0 <= j < i ==> line[j] != KEY_VALUE_SEPARATOR
}

/// What one line of an environment file at `path` means: the key and the
/// value that it sets, or the error that it is refused with.
pub open spec fn env_line_meaning(path: Seq<char>, line: Seq<char>) -> Result<
    (Seq<char>, Seq<char>),
    SetupScriptOutputErrorView,
> {
    if !line.contains(KEY_VALUE_SEPARATOR) {
        Err(SetupScriptOutputErrorView::EnvFileParse { path, line })
    } else {
        let at = separator_index(line);
        let key = line.subrange(0, at);
        let value = line.subrange(at + 1, line.len() as int);
        if is_reserved_key(key) {
            Err(SetupScriptOutputErrorView::EnvFileReservedKey { key })
        } else {
            Ok((key, value))
        }
    }
}

/// The line that sets `key` to `value`.
pub open spec fn env_line(key: Seq<char>, value: Seq<char>) -> Seq<char> {
    key + seq![KEY_VALUE_SEPARATOR] + value
}

/// Finds the first `=` of `line`.
fn find_separator(line: &str) -> (found: Option<usize>)
    ensures
        match found {
            Some(at) => {
                &&& line@.contains(KEY_VALUE_SEPARATOR)
                &&& at == separator_index(line@)
                &&& at < line@.len()
            },
            None => !line@.contains(KEY_VALUE_SEPARATOR),
        },
{
    let len: usize = line.unicode_len();
    let mut at: usize = 0;
    for c in chars: line.chars()
        invariant
            len == line@.len(),
            at == chars.index(),
            chars.seq() == line@,
            forall|j: int| 0 <= j < at ==> line@[j] != KEY_VALUE_SEPARATOR,
    {
        if c == KEY_VALUE_SEPARATOR {
            assert(line@[at as int] == KEY_VALUE_SEPARATOR);
            return Some(at);
        }
        at = at + 1;
    }
    None
}

/// Tells whether `key` begins with [`RESERVED_KEY_PREFIX`].
pub fn has_reserved_prefix(key: &str) -> (reserved: bool)
    ensures
        reserved == is_reserved_key(key@),
{
    let prefix = RESERVED_KEY_PREFIX;
    let prefix_len: usize = prefix.unicode_len();
    let key_len: usize = key.unicode_len();
    if key_len < prefix_len {
        return false;
    }
    let mut i: usize = 0;
    while i < prefix_len
        invariant
            prefix@ == RESERVED_KEY_PREFIX@,
            prefix_len == prefix@.len(),
            key_len == key@.len(),
            prefix_len <= key_len,
            i <= prefix_len,
            forall|j: int| 0 <= j < i ==> key@[j] == prefix@[j],
        decreases prefix_len - i,
    {
        if key.get_char(i) != prefix.get_char(i) {
            assert(key@.subrange(0, prefix_len as int)[i as int] != prefix@[i as int]);
            return false;
        }
        i = i + 1;
    }
    assert(prefix@ =~= key@.subrange(0, prefix_len as int));
    true
}

/// Splits one line of the environment file at `env_path` into the key and the
/// value that it sets.
///
/// The line is refused with `EnvFileParse` where it holds no `=`, and with
/// `EnvFileReservedKey` where what stands before its first `=` begins with
/// the reserved prefix.
pub fn parse_env_line(env_path: &str, line: &str) -> (parsed: Result<
    (String, String),
    SetupScriptOutputError,
>)
    ensures
        match parsed {
            Ok((key, value)) => env_line_meaning(env_path@, line@) == Ok::<
                (Seq<char>, Seq<char>),
                SetupScriptOutputErrorView,
            >((key@, value@)),
            Err(error) => env_line_meaning(env_path@, line@) == Err::<
                (Seq<char>, Seq<char>),
                SetupScriptOutputErrorView,
            >(error@),
        },
{
    match find_separator(line) {
        None => Err(
            SetupScriptOutputError::EnvFileParse {
                path: env_path.to_owned(),
                line: line.to_owned(),
            },
        ),
        Some(at) => {
            let len: usize = line.unicode_len();
            let key = line.substring_char(0, at);
            let value = line.substring_char(at + 1, len);
            if has_reserved_prefix(key) {
                Err(SetupScriptOutputError::EnvFileReservedKey { key: key.to_owned() })
            } else {
                Ok((key.to_owned(), value.to_owned()))
            }
        },
    }
}


/// The map that a sequence of key and value pairs builds up, a later pair
/// replacing an earlier one for the same key.
pub open spec fn map_of_entries(entries: Seq<(Seq<char>, Seq<char>)>) -> Map<Seq<char>, Seq<char>>
    decreases entries.len(),
{
    if entries.len() == 0 {
        Map::empty()
    } else {
        map_of_entries(entries.drop_last()).insert(entries.last().0, entries.last().1)
    }
}

/// No two of the entries have the same key.
pub open spec fn keys_distinct(entries: Seq<(Seq<char>, Seq<char>)>) -> bool {
    forall|i: int, j: int| 0 <= i < j < entries.len() ==> entries[i].0 != entries[j].0
}

/// Some entry has the key `key`.
pub open spec fn has_key(entries: Seq<(Seq<char>, Seq<char>)>, key: Seq<char>) -> bool {
    exists|i: int| 0 <= i < entries.len() && #[trigger] entries[i].0 == key
}

/// What the lines of an environment file at `path` mean, read from the first
/// line on: the map that they build, or the error of the first line that is
/// refused.
pub open spec fn env_file_meaning(path: Seq<char>, lines: Seq<Seq<char>>) -> Result<
    Map<Seq<char>, Seq<char>>,
    SetupScriptOutputErrorView,
>
    decreases lines.len(),
{
    if lines.len() == 0 {
        Ok(Map::empty())
    } else {
        match env_file_meaning(path, lines.drop_last()) {
            Err(error) => Err(error),
            Ok(map) => match env_line_meaning(path, lines.last()) {
                Err(error) => Err(error),
                Ok((key, value)) => Ok(map.insert(key, value)),
            },
        }
    }
}

/// The lines that set the entries, one line for each in their order.
pub open spec fn env_lines(entries: Seq<(Seq<char>, Seq<char>)>) -> Seq<Seq<char>> {
    Seq::new(entries.len(), |i: int| env_line(entries[i].0, entries[i].1))
}

/// A key that a line can set: it holds no `=` and does not begin with the
/// reserved prefix.
pub open spec fn is_settable_key(key: Seq<char>) -> bool {
    !key.contains(KEY_VALUE_SEPARATOR) && !is_reserved_key(key)
}

/// The keys of the map are the keys of the entries, and where no key occurs
/// twice each entry's key maps to that entry's value.
pub proof fn lemma_map_of_entries(entries: Seq<(Seq<char>, Seq<char>)>)
    ensures
        forall|key: Seq<char>|
            #[trigger] map_of_entries(entries).contains_key(key) <==> has_key(entries, key),
        keys_distinct(entries) ==> forall|i: int|
            0 <= i < entries.len() ==> map_of_entries(entries)[#[trigger] entries[i].0]
                == entries[i].1,
        map_of_entries(entries).dom().finite(),
        keys_distinct(entries) ==> map_of_entries(entries).dom().len() == entries.len(),
    decreases entries.len(),
{
    if entries.len() > 0 {
        let front = entries.drop_last();
        let last = entries.last();
        lemma_map_of_entries(front);
        assert forall|key: Seq<char>| #[trigger]
            map_of_entries(entries).contains_key(key) <==> has_key(entries, key) by {
            if has_key(entries, key) {
                let i = choose|i: int| 0 <= i < entries.len() && #[trigger] entries[i].0 == key;
                if i < front.len() {
                    assert(front[i].0 == key);
                    assert(has_key(front, key));
                }
            }
            if map_of_entries(front).contains_key(key) {
                let i = choose|i: int| 0 <= i < front.len() && #[trigger] front[i].0 == key;
                assert(entries[i].0 == key);
            }
            if key == last.0 {
                assert(entries[entries.len() - 1].0 == key);
            }
        }
        if keys_distinct(entries) {
            assert(keys_distinct(front)) by {
                assert forall|i: int, j: int| 0 <= i < j < front.len() implies front[i].0
                    != front[j].0 by {
                    assert(entries[i].0 != entries[j].0);
                }
            }
            assert forall|i: int| 0 <= i < entries.len() implies map_of_entries(
                entries,
            )[#[trigger] entries[i].0] == entries[i].1 by {
                if i < front.len() {
                    assert(entries[i].0 != entries[entries.len() - 1].0);
                    assert(front[i] == entries[i]);
                }
            }
            assert(!map_of_entries(front).contains_key(last.0)) by {
                if has_key(front, last.0) {
                    let i = choose|i: int| 0 <= i < front.len() && #[trigger] front[i].0 == last.0;
                    assert(entries[i].0 != entries[entries.len() - 1].0);
                }
            }
        }
    }
}

/// A line that sets a settable key to a value means that key and that value.
pub proof fn lemma_env_line_round_trip(path: Seq<char>, key: Seq<char>, value: Seq<char>)
    requires
        is_settable_key(key),
    ensures
        env_line_meaning(path, env_line(key, value)) == Ok::<
            (Seq<char>, Seq<char>),
            SetupScriptOutputErrorView,
        >((key, value)),
{
    let line = env_line(key, value);
    let at = key.len() as int;
    assert(line[at] == KEY_VALUE_SEPARATOR);
    assert forall|j: int| 0 <= j < at implies line[j] != KEY_VALUE_SEPARATOR by {
        assert(line[j] == key[j]);
    }
    assert(line.contains(KEY_VALUE_SEPARATOR));
    assert(separator_index(line) == at);
    assert(line.subrange(0, at) =~= key);
    assert(line.subrange(at + 1, line.len() as int) =~= value);
}

/// Writing the entries of a map out as lines and reading the lines back gives
/// the map again, where every key is settable.
pub proof fn lemma_env_file_round_trip(path: Seq<char>, entries: Seq<(Seq<char>, Seq<char>)>)
    requires
        forall|i: int| 0 <= i < entries.len() ==> is_settable_key(#[trigger] entries[i].0),
    ensures
        env_file_meaning(path, env_lines(entries)) == Ok::<
            Map<Seq<char>, Seq<char>>,
            SetupScriptOutputErrorView,
        >(map_of_entries(entries)),
    decreases entries.len(),
{
    if entries.len() > 0 {
        let front = entries.drop_last();
        assert forall|i: int| 0 <= i < front.len() implies is_settable_key(
            #[trigger] front[i].0,
        ) by {
            assert(front[i].0 == entries[i].0);
        }
        lemma_env_file_round_trip(path, front);
        assert(env_lines(entries).drop_last() =~= env_lines(front));
        assert(is_settable_key(entries[entries.len() - 1].0));
        lemma_env_line_round_trip(path, entries.last().0, entries.last().1);
    }
}

/// Replacing the value of the entry at `at` keeps the keys distinct and sets
/// that entry's key to `value` in the map; `at` is the one place of its key.
pub proof fn lemma_entry_replaced(entries: Seq<(Seq<char>, Seq<char>)>, at: int, value: Seq<char>)
    requires
        keys_distinct(entries),
        0 <= at < entries.len(),
    ensures
        keys_distinct(entries.update(at, (entries[at].0, value))),
        map_of_entries(entries.update(at, (entries[at].0, value))) == map_of_entries(
            entries,
        ).insert(entries[at].0, value),
        map_of_entries(entries).contains_key(entries[at].0),
        map_of_entries(entries)[entries[at].0] == entries[at].1,
        has_key(entries, entries[at].0),
        at == choose|i: int| 0 <= i < entries.len() && (#[trigger] entries[i]).0 == entries[at].0,
{
    let key = entries[at].0;
    let after = entries.update(at, (key, value));
    assert(keys_distinct(after)) by {
        assert forall|i: int, j: int| 0 <= i < j < after.len() implies after[i].0
            != after[j].0 by {
            assert(entries[i].0 != entries[j].0);
        }
    }
    lemma_map_of_entries(entries);
    lemma_map_of_entries(after);
    assert forall|k: Seq<char>| has_key(after, k) <==> has_key(entries, k) by {
        if has_key(after, k) {
            let i = choose|i: int| 0 <= i < after.len() && #[trigger] after[i].0 == k;
            assert(entries[i].0 == k);
        }
        if has_key(entries, k) {
            let i = choose|i: int| 0 <= i < entries.len() && #[trigger] entries[i].0 == k;
            assert(after[i].0 == k);
        }
    }
    assert forall|k: Seq<char>| #[trigger] map_of_entries(after).contains_key(k) implies
        map_of_entries(after)[k] == map_of_entries(entries).insert(key, value)[k] by {
        let i = choose|i: int| 0 <= i < after.len() && #[trigger] after[i].0 == k;
        assert(map_of_entries(after)[after[i].0] == after[i].1);
        if i != at {
            if i < at {
                assert(entries[i].0 != entries[at].0);
            } else {
                assert(entries[at].0 != entries[i].0);
            }
            assert(map_of_entries(entries)[entries[i].0] == entries[i].1);
        }
    }
    assert(map_of_entries(after).dom() =~= map_of_entries(entries).insert(key, value).dom());
    assert(map_of_entries(after) =~= map_of_entries(entries).insert(key, value));
    assert(map_of_entries(entries)[entries[at].0] == entries[at].1);
    let chosen = choose|i: int| 0 <= i < entries.len() && (#[trigger] entries[i]).0 == key;
    assert(entries[at].0 == key);
    if chosen < at {
        assert(entries[chosen].0 != entries[at].0);
    } else if chosen > at {
        assert(entries[at].0 != entries[chosen].0);
    }
}

/// The environment that setup scripts export to the tests that follow them.
///
/// The entries are kept in the order in which their keys were first set, and
/// no key occurs twice. Two environments are equal if they set the same
/// keys to the same values, in whatever order.
#[derive(Debug, Eq)]
pub struct SetupScriptEnvMap {
    env_map: Vec<(String, String)>,
}

impl PartialEq for SetupScriptEnvMap {
    fn eq(&self, other: &Self) -> (equal: bool) {
        proof {
            use_type_invariant(self);
            use_type_invariant(other);
            lemma_map_of_entries(self.entries());
            lemma_map_of_entries(other.entries());
        }
        if self.env_map.len() != other.env_map.len() {
            return false;
        }
        let mut at: usize = 0;
        while at < self.env_map.len()
            invariant
                at <= self.env_map.len(),
                keys_distinct(self.entries()),
                keys_distinct(other.entries()),
                forall|j: int|
                    0 <= j < at ==> other@.contains_key((#[trigger] self.entries()[j]).0)
                        && other@[self.entries()[j].0] == self.entries()[j].1,
            decreases self.env_map.len() - at,
        {
            let ghost key = self.entries()[at as int].0;
            proof {
                lemma_map_of_entries(self.entries());
                lemma_map_of_entries(other.entries());
            }
            assert(has_key(self.entries(), key));
            match other.position(&self.env_map[at].0) {
                Some(found) => {
                    assert(has_key(other.entries(), key)) by {
                        assert(other.entries()[found as int].0 == key);
                    }
                    assert(other@[other.entries()[found as int].0]
                        == other.entries()[found as int].1);
                    if other.env_map[found].1 != self.env_map[at].1 {
                        assert(self@[self.entries()[at as int].0] == self.entries()[at as int].1);
                        return false;
                    }
                },
                None => {
                    assert(self@.contains_key(key) && !other@.contains_key(key));
                    return false;
                },
            }
            at = at + 1;
        }
        proof {
            assert forall|key: Seq<char>| #[trigger] self@.contains_key(key) implies
                other@.contains_key(key) && other@[key] == self@[key] by {
                let j = choose|j: int|
                    0 <= j < self.entries().len() && #[trigger] self.entries()[j].0 == key;
                assert(other@.contains_key(self.entries()[j].0));
                assert(self@[self.entries()[j].0] == self.entries()[j].1);
            }
            assert(self@.dom().subset_of(other@.dom()));
            lemma_subset_equality(self@.dom(), other@.dom());
            assert(self@ =~= other@);
        }
        true
    }
}

impl PartialEqSpecImpl for SetupScriptEnvMap {
    open spec fn obeys_eq_spec() -> bool {
        true
    }

    open spec fn eq_spec(&self, other: &Self) -> bool {
        self@ == other@
    }
}

impl View for SetupScriptEnvMap {
    type V = Map<Seq<char>, Seq<char>>;

    open spec fn view(&self) -> Map<Seq<char>, Seq<char>> {
        map_of_entries(self.entries())
    }
}

impl Clone for SetupScriptEnvMap {
    fn clone(&self) -> (copy: Self)
        ensures
            copy.entries() == self.entries(),
            copy@ == self@,
    {
        proof {
            use_type_invariant(self);
        }
        let mut entries: Vec<(String, String)> = Vec::new();
        let mut at: usize = 0;
        while at < self.env_map.len()
            invariant
                at <= self.env_map.len(),
                entries.deep_view() =~= self.entries().take(at as int),
            decreases self.env_map.len() - at,
        {
            let key = self.env_map[at].0.clone();
            let value = self.env_map[at].1.clone();
            let ghost before = entries.deep_view();
            entries.push((key, value));
            proof {
                assert(entries.deep_view() =~= before.push((key@, value@)));
                assert(self.entries()[at as int] == (key@, value@));
                assert(self.entries().take(at + 1) =~= self.entries().take(at as int).push(
                    self.entries()[at as int],
                ));
            }
            at = at + 1;
        }
        assert(entries.deep_view() =~= self.entries());
        SetupScriptEnvMap { env_map: entries }
    }
}

impl SetupScriptEnvMap {
    /// The entries of the map, in the order in which their keys were first set.
    pub closed spec fn entries(&self) -> Seq<(Seq<char>, Seq<char>)> {
        self.env_map.deep_view()
    }

    #[verifier::type_invariant]
    spec fn well_formed(&self) -> bool {
        keys_distinct(self.entries())
    }

    /// An environment that sets nothing.
    pub fn new() -> (env: Self)
        ensures
            env.entries() == Seq::<(Seq<char>, Seq<char>)>::empty(),
            env@ == Map::<Seq<char>, Seq<char>>::empty(),
    {
        let env = SetupScriptEnvMap { env_map: Vec::new() };
        assert(env.entries() =~= Seq::<(Seq<char>, Seq<char>)>::empty());
        env
    }

    /// The number of variables that are set.
    pub fn len(&self) -> (count: usize)
        ensures
            count == self.entries().len(),
            keys_distinct(self.entries()),
            self@.dom().finite(),
            count == self@.dom().len(),
    {
        proof {
            use_type_invariant(self);
            lemma_map_of_entries(self.entries());
        }
        self.env_map.len()
    }

    /// Where among the entries `key` is set.
    fn position(&self, key: &String) -> (found: Option<usize>)
        ensures
            match found {
                Some(at) => at < self.entries().len() && self.entries()[at as int].0 == key@,
                None => !has_key(self.entries(), key@),
            },
    {
        let mut at: usize = 0;
        while at < self.env_map.len()
            invariant
                at <= self.env_map.len(),
                forall|j: int| 0 <= j < at ==> (#[trigger] self.entries()[j]).0 != key@,
            decreases self.env_map.len() - at,
        {
            if self.env_map[at].0 == *key {
                return Some(at);
            }
            at = at + 1;
        }
        None
    }

    /// The value that `key` is set to, if it is set.
    pub fn get(&self, key: &str) -> (value: Option<&String>)
        ensures
            match value {
                Some(value) => self@.contains_key(key@) && self@[key@] == value@,
                None => !self@.contains_key(key@),
            },
    {
        proof {
            use_type_invariant(self);
            lemma_map_of_entries(self.entries());
        }
        let wanted = key.to_owned();
        match self.position(&wanted) {
            Some(at) => {
                assert(self.entries()[at as int].0 == key@);
                Some(&self.env_map[at].1)
            },
            None => None,
        }
    }

    /// The entry at `index` in the order of the entries, as key and value.
    pub fn entry(&self, index: usize) -> (entry: Option<(&String, &String)>)
        ensures
            match entry {
                Some((key, value)) => index < self.entries().len() && self.entries()[index as int]
                    == (key@, value@),
                None => index >= self.entries().len(),
            },
    {
        if index < self.env_map.len() {
            Some((&self.env_map[index].0, &self.env_map[index].1))
        } else {
            None
        }
    }

    /// Sets `key` to `value` and returns the value that `key` was set to
    /// before. A key that was set keeps its place among the entries; a new key
    /// goes to their end.
    pub fn insert(&mut self, key: String, value: String) -> (previous: Option<String>)
        ensures
            final(self)@ == old(self)@.insert(key@, value@),
            match previous {
                Some(previous) => old(self)@.contains_key(key@) && old(self)@[key@] == previous@,
                None => !old(self)@.contains_key(key@),
            },
            final(self).entries() == if has_key(old(self).entries(), key@) {
                old(self).entries().update(
                    choose|i: int|
                        0 <= i < old(self).entries().len() && (#[trigger] old(self).entries()[i]).0
                            == key@,
                    (key@, value@),
                )
            } else {
                old(self).entries().push((key@, value@))
            },
    {
        proof {
            use_type_invariant(&*self);
            lemma_map_of_entries(self.entries());
        }
        let ghost before = self.entries();
        let found = self.position(&key);
        let mut entries: Vec<(String, String)> = Vec::new();
        std::mem::swap(&mut self.env_map, &mut entries);
        assert(entries.deep_view() == before);
        let previous = match found {
            Some(at) => {
                let replaced = entries.remove(at);
                entries.insert(at, (key, value));
                proof {
                    lemma_entry_replaced(before, at as int, value@);
                    assert(entries.deep_view() =~= before.update(at as int, (key@, value@)));
                }
                Some(replaced.1)
            },
            None => {
                entries.push((key, value));
                proof {
                    let after = entries.deep_view();
                    assert(after =~= before.push((key@, value@)));
                    assert(after.drop_last() =~= before);
                    assert forall|i: int, j: int| 0 <= i < j < after.len() implies after[i].0
                        != after[j].0 by {
                        if j < before.len() {
                            assert(before[i].0 != before[j].0);
                        } else {
                            assert(before[i].0 != key@);
                        }
                    }
                }
                None
            },
        };
        std::mem::swap(&mut self.env_map, &mut entries);
        previous
    }

    /// Reads one more line of the environment file at `env_path` into the
    /// map. A line that is refused leaves the map as it was.
    pub fn insert_line(&mut self, env_path: &str, line: &str) -> (outcome: Result<
        (),
        SetupScriptOutputError,
    >)
        ensures
            match outcome {
                Ok(()) => {
                    &&& env_line_meaning(env_path@, line@) matches Ok((key, value))
                    &&& final(self)@ == old(self)@.insert(key, value)
                },
                Err(error) => {
                    &&& env_line_meaning(env_path@, line@) == Err::<
                        (Seq<char>, Seq<char>),
                        SetupScriptOutputErrorView,
                    >(error@)
                    &&& final(self).entries() == old(self).entries()
                },
            },
    {
        match parse_env_line(env_path, line) {
            Ok((key, value)) => {
                self.insert(key, value);
                Ok(())
            },
            Err(error) => Err(error),
        }
    }

    /// Takes over every variable that `other` sets, in place of what was set
    /// for the same key here.
    pub fn merge(&mut self, other: &SetupScriptEnvMap)
        ensures
            final(self)@ == old(self)@.union_prefer_right(other@),
    {
        let count = other.len();
        let mut at: usize = 0;
        assert(other.entries().take(0) =~= Seq::<(Seq<char>, Seq<char>)>::empty());
        assert(self@ =~= old(self)@.union_prefer_right(Map::empty()));
        while at < count
            invariant
                count == other.entries().len(),
                at <= count,
                self@ == old(self)@.union_prefer_right(
                    map_of_entries(other.entries().take(at as int)),
                ),
            decreases count - at,
        {
            let ghost done = map_of_entries(other.entries().take(at as int));
            match other.entry(at) {
                Some((key, value)) => {
                    self.insert(key.clone(), value.clone());
                    proof {
                        assert(other.entries().take(at + 1).drop_last() =~= other.entries().take(
                            at as int,
                        ));
                        assert(other.entries().take(at + 1).last() == (key@, value@));
                        assert(self@ =~= old(self)@.union_prefer_right(
                            done.insert(key@, value@),
                        ));
                    }
                },
                None => {},
            }
            at = at + 1;
        }
        assert(other.entries().take(count as int) =~= other.entries());
    }

    /// The lines of an environment file that sets what this map sets, one
    /// line for each entry in their order.
    pub fn to_lines(&self) -> (lines: Vec<String>)
        ensures
            lines.deep_view() == env_lines(self.entries()),
    {
        let mut lines: Vec<String> = Vec::new();
        let mut at: usize = 0;
        while at < self.env_map.len()
            invariant
                at <= self.env_map.len(),
                lines.deep_view() =~= env_lines(self.entries()).take(at as int),
            decreases self.env_map.len() - at,
        {
            let mut line = self.env_map[at].0.clone();
            line.append("=");
            line.append(self.env_map[at].1.as_str());
            let ghost before = lines.deep_view();
            proof {
                reveal_strlit("=");
                assert("="@ =~= seq![KEY_VALUE_SEPARATOR]);
                assert(line@ == env_line(self.entries()[at as int].0, self.entries()[at as int].1));
            }
            lines.push(line);
            proof {
                assert(lines.deep_view() =~= before.push(line@));
                assert(env_lines(self.entries()).take(at + 1) =~= env_lines(self.entries()).take(
                    at as int,
                ).push(env_lines(self.entries())[at as int]));
            }
            at = at + 1;
        }
        assert(lines.deep_view() =~= env_lines(self.entries()));
        lines
    }
}

/// Reads the lines of the environment file at `env_path`, from the first on,
/// into the environment that they set. The first line that is refused ends
/// the reading with its error.
pub fn parse_env_file(env_path: &str, lines: &Vec<String>) -> (parsed: Result<
    SetupScriptEnvMap,
    SetupScriptOutputError,
>)
    ensures
        match parsed {
            Ok(env) => env_file_meaning(env_path@, lines.deep_view()) == Ok::<
                Map<Seq<char>, Seq<char>>,
                SetupScriptOutputErrorView,
            >(env@),
            Err(error) => env_file_meaning(env_path@, lines.deep_view()) == Err::<
                Map<Seq<char>, Seq<char>>,
                SetupScriptOutputErrorView,
            >(error@),
        },
{
    let mut env = SetupScriptEnvMap::new();
    let mut at: usize = 0;
    assert(lines.deep_view().take(0) =~= Seq::<Seq<char>>::empty());
    while at < lines.len()
        invariant
            at <= lines.len(),
            env_file_meaning(env_path@, lines.deep_view().take(at as int)) == Ok::<
                Map<Seq<char>, Seq<char>>,
                SetupScriptOutputErrorView,
            >(env@),
        decreases lines.len() - at,
    {
        proof {
            assert(lines.deep_view().take(at + 1).drop_last() =~= lines.deep_view().take(
                at as int,
            ));
            assert(lines.deep_view().take(at + 1).last() == lines[at as int]@);
        }
        match env.insert_line(env_path, lines[at].as_str()) {
            Ok(()) => {},
            Err(error) => {
                proof {
                    lemma_env_file_error_stays(
                        env_path@,
                        lines.deep_view(),
                        at + 1,
                    );
                }
                return Err(error);
            },
        }
        at = at + 1;
    }
    assert(lines.deep_view().take(at as int) =~= lines.deep_view());
    Ok(env)
}

/// Once the first `upto` lines are refused, so is the whole file, with the
/// same error.
pub proof fn lemma_env_file_error_stays(path: Seq<char>, lines: Seq<Seq<char>>, upto: int)
    requires
        0 <= upto <= lines.len(),
        env_file_meaning(path, lines.take(upto)) is Err,
    ensures
        env_file_meaning(path, lines) == env_file_meaning(path, lines.take(upto)),
    decreases lines.len(),
{
    if upto < lines.len() {
        assert(lines.drop_last().take(upto) =~= lines.take(upto));
        lemma_env_file_error_stays(path, lines.drop_last(), upto);
    } else {
        assert(lines.take(upto) =~= lines);
    }
}

} // verus!
