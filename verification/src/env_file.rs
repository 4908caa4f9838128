//! The settings file: one `KEY=VALUE` per line.
//!
//! A line is split at its first `=`; what stands before and after is taken
//! without the white space around it. A line without `=` says nothing.

use vstd::prelude::*;
use vstd::string::*;

verus! {

/// A character that Unicode counts as white space.
pub open spec fn is_space(c: char) -> bool {
    let n = c as u32;
    ||| 0x09 <= n <= 0x0D
    ||| n == 0x20
    ||| n == 0x85
    ||| n == 0xA0
    ||| n == 0x1680
    ||| 0x2000 <= n <= 0x200A
    ||| n == 0x2028
    ||| n == 0x2029
    ||| n == 0x202F
    ||| n == 0x205F
    ||| n == 0x3000
}

/// `text` without the white space at its start.
pub open spec fn trim_start(text: Seq<char>) -> Seq<char>
    decreases text.len(),
{
    if text.len() > 0 && is_space(text[0]) {
        trim_start(text.drop_first())
    } else {
        text
    }
}

/// `text` without the white space at its end.
pub open spec fn trim_end(text: Seq<char>) -> Seq<char>
    decreases text.len(),
{
    if text.len() > 0 && is_space(text.last()) {
        trim_end(text.drop_last())
    } else {
        text
    }
}

/// `text` without the white space at either end.
pub open spec fn trimmed(text: Seq<char>) -> Seq<char> {
    trim_end(trim_start(text))
}

/// How many characters of `text` stand before the first `c`: all of them if
/// there is none.
pub open spec fn position(text: Seq<char>, c: char) -> nat
    decreases text.len(),
{
    if text.len() == 0 || text[0] == c {
        0
    } else {
        1 + position(text.drop_first(), c)
    }
}

/// The setting that a line holds, if it has an `=`.
pub open spec fn entry_of(line: Seq<char>) -> Option<(Seq<char>, Seq<char>)> {
    let eq = position(line, '=') as int;
    if eq < line.len() {
        Some((trimmed(line.take(eq)), trimmed(line.skip(eq + 1))))
    } else {
        None
    }
}

/// What the lines of a file say, one pair for each line with an `=`, in the
/// order of the lines. A key stands here as often as lines name it.
pub open spec fn env_lines(text: Seq<char>) -> Seq<(Seq<char>, Seq<char>)>
    decreases text.len(),
{
    if text.len() == 0 {
        Seq::empty()
    } else {
        let end = position(text, '\n') as int;
        let rest = if end < text.len() {
            env_lines(text.skip(end + 1))
        } else {
            Seq::empty()
        };
        match entry_of(text.take(end)) {
            Some(entry) => seq![entry] + rest,
            None => rest,
        }
    }
}

/// No key stands twice in the settings.
pub open spec fn keys_distinct(entries: Seq<(Seq<char>, Seq<char>)>) -> bool {
    forall|i: int, j: int| 0 <= i < j < entries.len() ==> entries[i].0 != entries[j].0
}

/// Where `key` stands in the settings: the place of the first setting with
/// that key, and the number of settings if there is none.
pub open spec fn key_index(entries: Seq<(Seq<char>, Seq<char>)>, key: Seq<char>) -> nat
    decreases entries.len(),
{
    if entries.len() == 0 || entries[0].0 == key {
        0
    } else {
        1 + key_index(entries.drop_first(), key)
    }
}

/// The settings after `key` was given `value`: the value replaces the one
/// that the key had, and a key that was not there is added at the end.
pub open spec fn insert_entry(
    entries: Seq<(Seq<char>, Seq<char>)>,
    key: Seq<char>,
    value: Seq<char>,
) -> Seq<(Seq<char>, Seq<char>)> {
    let at = key_index(entries, key) as int;
    if at < entries.len() {
        entries.update(at, (key, value))
    } else {
        entries.push((key, value))
    }
}

/// The settings that lines add up to when they are taken in one after the
/// other: one setting for each key, with the value of the last line that
/// names it.
pub open spec fn settings_of(lines: Seq<(Seq<char>, Seq<char>)>) -> Seq<(Seq<char>, Seq<char>)>
    decreases lines.len(),
{
    if lines.len() == 0 {
        Seq::empty()
    } else {
        insert_entry(settings_of(lines.drop_last()), lines.last().0, lines.last().1)
    }
}

/// The settings of a file: one for each key that its lines name.
pub open spec fn env_entries(text: Seq<char>) -> Seq<(Seq<char>, Seq<char>)> {
    settings_of(env_lines(text))
}

/// The value that the settings give to `key`: that of the last setting
/// which names it.
pub open spec fn lookup(entries: Seq<(Seq<char>, Seq<char>)>, key: Seq<char>) -> Option<Seq<char>>
    decreases entries.len(),
{
    if entries.len() == 0 {
        None
    } else if entries.last().0 == key {
        Some(entries.last().1)
    } else {
        lookup(entries.drop_last(), key)
    }
}

/// What a list of settings says, with its texts as sequences of characters.
pub open spec fn entries_view(entries: Seq<(String, String)>) -> Seq<(Seq<char>, Seq<char>)> {
    Seq::new(entries.len(), |i: int| (entries[i].0@, entries[i].1@))
}

/// The settings read from a file: keys with their values, no key twice.
#[derive(Debug, PartialEq, Eq)]
pub struct EnvVars {
    entries: Vec<(String, String)>,
}

impl View for EnvVars {
    type V = Seq<(Seq<char>, Seq<char>)>;

    closed spec fn view(&self) -> Seq<(Seq<char>, Seq<char>)> {
        entries_view(self.entries@)
    }
}

/// Whether `c` is white space.
fn is_space_char(c: char) -> (space: bool)
    ensures
        space == is_space(c),
{
    let n = c as u32;
    (0x09 <= n && n <= 0x0D) || n == 0x20 || n == 0x85 || n == 0xA0 || n == 0x1680 || (0x2000 <= n
        && n <= 0x200A) || n == 0x2028 || n == 0x2029 || n == 0x202F || n == 0x205F || n == 0x3000
}

/// The characters of `text`.
fn chars_of(text: &str) -> (chars: Vec<char>)
    ensures
        chars@ == text@,
{
    broadcast use vstd::string::axiom_spec_iter;

    let mut chars: Vec<char> = Vec::new();
    for c in it: text.chars()
        invariant
            it.seq() == text@,
            chars@ == text@.take(it.index()),
    {
        chars.push(c);
        assert(chars@ =~= text@.take(it.index() + 1));
    }
    assert(chars@ =~= text@);
    chars
}

/// Where the first `c` of `chars[from..to]` stands, or `to` if there is none.
fn find(chars: &Vec<char>, c: char, from: usize, to: usize) -> (at: usize)
    requires
        from <= to <= chars.len(),
    ensures
        from <= at <= to,
        at - from == position(chars@.subrange(from as int, to as int), c),
{
    let mut i = from;
    while i < to && chars[i] != c
        invariant
            from <= i <= to <= chars.len(),
            position(chars@.subrange(from as int, to as int), c) == (i - from) + position(
                chars@.subrange(i as int, to as int),
                c,
            ),
        decreases to - i,
    {
        assert(chars@.subrange(i as int, to as int).drop_first() =~= chars@.subrange(
            i + 1,
            to as int,
        ));
        i += 1;
    }
    i
}

/// The part of `chars[from..to]` that is left without the white space at
/// either end.
fn trim_range(chars: &Vec<char>, from: usize, to: usize) -> (range: (usize, usize))
    requires
        from <= to <= chars.len(),
    ensures
        from <= range.0 <= range.1 <= to,
        chars@.subrange(range.0 as int, range.1 as int) == trimmed(
            chars@.subrange(from as int, to as int),
        ),
{
    let mut start = from;
    while start < to && is_space_char(chars[start])
        invariant
            from <= start <= to <= chars.len(),
            trim_start(chars@.subrange(from as int, to as int)) == trim_start(
                chars@.subrange(start as int, to as int),
            ),
        decreases to - start,
    {
        assert(chars@.subrange(start as int, to as int).drop_first() =~= chars@.subrange(
            start + 1,
            to as int,
        ));
        start += 1;
    }
    let mut end = to;
    while end > start && is_space_char(chars[end - 1])
        invariant
            start <= end <= to <= chars.len(),
            trim_end(chars@.subrange(start as int, to as int)) == trim_end(
                chars@.subrange(start as int, end as int),
            ),
        decreases end - start,
    {
        assert(chars@.subrange(start as int, end as int).drop_last() =~= chars@.subrange(
            start as int,
            end - 1,
        ));
        end -= 1;
    }
    (start, end)
}

/// Reads the settings out of the text of a settings file.
///
/// Each line with an `=` gives a key its value; lines without one are
/// passed over. A key that several lines name is one setting, with the
/// value of the last of those lines.
pub fn read_env_file(content: &str) -> (vars: EnvVars)
    ensures
        vars@ == env_entries(content@),
        keys_distinct(vars@),
{
    let chars = chars_of(content);
    let len = chars.len();
    let mut vars = EnvVars::new();
    let ghost mut seen: Seq<(Seq<char>, Seq<char>)> = Seq::empty();
    let mut pos: usize = 0;
    proof {
        assert(content@.skip(0) =~= content@);
        assert(seen + env_lines(content@) =~= env_lines(content@));
    }
    while pos < len
        invariant
            chars@ == content@,
            len == chars.len(),
            pos <= len,
            seen + env_lines(content@.skip(pos as int)) == env_lines(content@),
            vars@ == settings_of(seen),
        decreases len - pos,
    {
        let ghost tail = content@.skip(pos as int);
        let end = find(&chars, '\n', pos, len);
        let eq = find(&chars, '=', pos, end);
        let next = if end < len {
            end + 1
        } else {
            len
        };
        proof {
            assert(tail =~= chars@.subrange(pos as int, len as int));
            assert(tail.take(end - pos) =~= chars@.subrange(pos as int, end as int));
            assert(end < len ==> tail.skip(end - pos + 1) =~= content@.skip(next as int));
            assert(end == len ==> env_lines(content@.skip(next as int)) =~= Seq::empty());
        }
        let ghost line = chars@.subrange(pos as int, end as int);
        if eq < end {
            let key_range = trim_range(&chars, pos, eq);
            let value_range = trim_range(&chars, eq + 1, end);
            let key = String::from_str(content.substring_char(key_range.0, key_range.1));
            let value = String::from_str(content.substring_char(value_range.0, value_range.1));
            proof {
                assert(line.take(eq - pos) =~= chars@.subrange(pos as int, eq as int));
                assert(line.skip(eq - pos + 1) =~= chars@.subrange(eq + 1, end as int));
                assert(entry_of(line) == Some((key@, value@)));
                assert(seen.push((key@, value@)) + env_lines(content@.skip(next as int)) =~= seen
                    + (seq![(key@, value@)] + env_lines(content@.skip(next as int))));
                assert(seen.push((key@, value@)).drop_last() =~= seen);
                seen = seen.push((key@, value@));
            }
            vars.insert(key, value);
        } else {
            assert(entry_of(line) is None);
        }
        pos = next;
    }
    proof {
        assert(env_lines(content@.skip(pos as int)) =~= Seq::empty());
        assert(seen + Seq::empty() =~= seen);
        use_type_invariant(&vars);
    }
    vars
}

impl EnvVars {
    /// No key stands twice: this holds of all settings.
    #[verifier::type_invariant]
    spec fn no_key_twice(self) -> bool {
        keys_distinct(self@)
    }

    /// Settings that name nothing.
    pub fn new() -> (vars: Self)
        ensures
            vars@ == Seq::<(Seq<char>, Seq<char>)>::empty(),
            keys_distinct(vars@),
    {
        let vars = EnvVars { entries: Vec::new() };
        assert(vars@ =~= Seq::empty());
        vars
    }

    /// How many keys the settings name.
    pub fn len(&self) -> (count: usize)
        ensures
            count == self@.len(),
            keys_distinct(self@),
    {
        proof {
            use_type_invariant(self);
        }
        self.entries.len()
    }

    /// Gives `key` the value `value`. A key that is there keeps its place
    /// and loses its old value; a key that is not there is added.
    pub fn insert(&mut self, key: String, value: String)
        ensures
            final(self)@ == insert_entry(old(self)@, key@, value@),
            keys_distinct(final(self)@),
            lookup(final(self)@, key@) == Some(value@),
    {
        proof {
            use_type_invariant(&*self);
        }
        let ghost before = self@;
        let mut entries: Vec<(String, String)> = Vec::new();
        assert(entries_view(entries@) =~= Seq::empty());
        core::mem::swap(&mut self.entries, &mut entries);
        let count = entries.len();
        let mut i: usize = 0;
        while i < count && !(entries[i].0 == key)
            invariant
                i <= count,
                count == entries@.len(),
                entries_view(entries@) == before,
                forall|j: int| 0 <= j < i ==> before[j].0 != key@,
            decreases count - i,
        {
            i += 1;
        }
        proof {
            lemma_key_index_is(before, key@, i as int);
            lemma_insert_keeps_keys_distinct(before, key@, value@);
            lemma_insert_changes_one_key(before, key@, value@, key@);
        }
        if i < count {
            entries.set(i, (key, value));
            assert(entries_view(entries@) =~= before.update(i as int, (key@, value@)));
        } else {
            entries.push((key, value));
            assert(entries_view(entries@) =~= before.push((key@, value@)));
        }
        core::mem::swap(&mut self.entries, &mut entries);
    }

    /// The value given to `key`, if the settings name it.
    pub fn get(&self, key: &str) -> (value: Option<String>)
        ensures
            match value {
                Some(text) => lookup(self@, key@) == Some(text@),
                None => lookup(self@, key@) is None,
            },
    {
        let wanted = String::from_str(key);
        let mut i = self.entries.len();
        assert(self@.take(i as int) =~= self@);
        while i > 0
            invariant
                i <= self.entries@.len(),
                wanted@ == key@,
                lookup(self@, key@) == lookup(self@.take(i as int), key@),
            decreases i,
        {
            i -= 1;
            assert(self@.take(i + 1).drop_last() =~= self@.take(i as int));
            if self.entries[i].0 == wanted {
                return Some(self.entries[i].1.clone());
            }
        }
        None
    }
}

/// `key_index` is the place of the first setting with the key: no setting
/// before it has the key, and the one at it has, if there is one.
proof fn lemma_key_index(entries: Seq<(Seq<char>, Seq<char>)>, key: Seq<char>)
    ensures
        key_index(entries, key) <= entries.len(),
        key_index(entries, key) < entries.len() ==> entries[key_index(entries, key) as int].0
            == key,
        forall|j: int| 0 <= j < key_index(entries, key) ==> entries[j].0 != key,
    decreases entries.len(),
{
    if entries.len() == 0 || entries[0].0 == key {
    } else {
        let rest = entries.drop_first();
        lemma_key_index(rest, key);
        assert forall|j: int| 0 <= j < key_index(entries, key) implies entries[j].0 != key by {
            if j > 0 {
                assert(rest[j - 1] == entries[j]);
            }
        }
        if key_index(entries, key) < entries.len() {
            assert(rest[key_index(rest, key) as int] == entries[key_index(entries, key) as int]);
        }
    }
}

/// The place at which a search from the front stops is `key_index`.
proof fn lemma_key_index_is(entries: Seq<(Seq<char>, Seq<char>)>, key: Seq<char>, at: int)
    requires
        0 <= at <= entries.len(),
        forall|j: int| 0 <= j < at ==> entries[j].0 != key,
        at < entries.len() ==> entries[at].0 == key,
    ensures
        key_index(entries, key) == at,
{
    lemma_key_index(entries, key);
    let found = key_index(entries, key) as int;
    if found < at {
        assert(entries[found].0 == key);
    } else if found > at {
        assert(entries[at].0 != key);
    }
}

/// The value of a key is that of the last setting which names it.
proof fn lemma_lookup_found(entries: Seq<(Seq<char>, Seq<char>)>, key: Seq<char>, at: int)
    requires
        0 <= at < entries.len(),
        entries[at].0 == key,
        forall|j: int| at < j < entries.len() ==> entries[j].0 != key,
    ensures
        lookup(entries, key) == Some(entries[at].1),
    decreases entries.len(),
{
    if entries.last().0 == key {
        assert(at == entries.len() - 1);
    } else {
        lemma_lookup_found(entries.drop_last(), key, at);
    }
}

/// Changing a setting with another key does not change the value of `key`.
proof fn lemma_lookup_update_other(
    entries: Seq<(Seq<char>, Seq<char>)>,
    at: int,
    entry: (Seq<char>, Seq<char>),
    key: Seq<char>,
)
    requires
        0 <= at < entries.len(),
        entries[at].0 != key,
        entry.0 != key,
    ensures
        lookup(entries.update(at, entry), key) == lookup(entries, key),
    decreases entries.len(),
{
    let changed = entries.update(at, entry);
    if at == entries.len() - 1 {
        assert(changed.drop_last() =~= entries.drop_last());
    } else {
        assert(changed.drop_last() =~= entries.drop_last().update(at, entry));
        if changed.last().0 != key {
            lemma_lookup_update_other(entries.drop_last(), at, entry, key);
        }
    }
}

/// Giving a key a value leaves no key twice in settings that had none twice.
pub proof fn lemma_insert_keeps_keys_distinct(
    entries: Seq<(Seq<char>, Seq<char>)>,
    key: Seq<char>,
    value: Seq<char>,
)
    requires
        keys_distinct(entries),
    ensures
        keys_distinct(insert_entry(entries, key, value)),
{
    lemma_key_index(entries, key);
}

/// Giving a key a value changes what the settings say of that key and of
/// no other.
pub proof fn lemma_insert_changes_one_key(
    entries: Seq<(Seq<char>, Seq<char>)>,
    key: Seq<char>,
    value: Seq<char>,
    other: Seq<char>,
)
    requires
        keys_distinct(entries),
    ensures
        lookup(insert_entry(entries, key, value), other) == if other == key {
            Some(value)
        } else {
            lookup(entries, other)
        },
{
    lemma_key_index(entries, key);
    let at = key_index(entries, key) as int;
    let after = insert_entry(entries, key, value);
    if at < entries.len() {
        if other == key {
            lemma_lookup_found(after, key, at);
        } else {
            lemma_lookup_update_other(entries, at, (key, value), other);
        }
    } else {
        assert(after.drop_last() =~= entries);
    }
}

/// The settings of a list of lines name no key twice, and give each key the
/// value of the last line that names it.
pub proof fn lemma_last_line_wins(lines: Seq<(Seq<char>, Seq<char>)>, key: Seq<char>)
    ensures
        keys_distinct(settings_of(lines)),
        lookup(settings_of(lines), key) == lookup(lines, key),
    decreases lines.len(),
{
    if lines.len() > 0 {
        let front = settings_of(lines.drop_last());
        lemma_last_line_wins(lines.drop_last(), key);
        lemma_insert_keeps_keys_distinct(front, lines.last().0, lines.last().1);
        lemma_insert_changes_one_key(front, lines.last().0, lines.last().1, key);
    }
}

/// The settings of a file name no key twice, and give each key the value of
/// the last line of the file that names it.
pub proof fn lemma_file_settings(text: Seq<char>, key: Seq<char>)
    ensures
        keys_distinct(env_entries(text)),
        lookup(env_entries(text), key) == lookup(env_lines(text), key),
{
    lemma_last_line_wins(env_lines(text), key);
}

} // verus!
