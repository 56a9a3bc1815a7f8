use vstd::prelude::*;
use vstd::string::StringExecFns;
use crate::text::{
    char_views, chars_are, chars_of, copy_range, eq_ignore_ascii_case, first_index,
    first_index_exec, fold_ascii_seq, fold_case_chars, fold_case_seq, lowercase_of, split_on,
    split_on_exec, string_of, to_lowercase, trim, trim_chars,
};

verus! {

/// One launcher entry: the label shown in the menu and the command it runs.
pub struct MenuEntry {
    pub label: String,
    pub command: String,
}

impl View for MenuEntry {
    type V = (Seq<char>, Seq<char>);

    open spec fn view(&self) -> (Seq<char>, Seq<char>) {
        (self.label@, self.command@)
    }
}

/// What one load of the configuration yields.
pub struct AppConfig {
    pub locale: String,
    pub hotkey_text: String,
    pub entries: Vec<MenuEntry>,
}

/// The contents of an `AppConfig`, and the section a reader is in.
pub struct ConfigModel {
    pub section: Seq<char>,
    pub locale: Seq<char>,
    pub hotkey_text: Seq<char>,
    pub entries: Seq<(Seq<char>, Seq<char>)>,
}

pub open spec fn entry_views(v: Seq<MenuEntry>) -> Seq<(Seq<char>, Seq<char>)> {
    v.map_values(|e: MenuEntry| e@)
}

impl AppConfig {
    /// The values held, with the section left empty.
    pub open spec fn model(&self) -> ConfigModel {
        ConfigModel {
            section: Seq::empty(),
            locale: self.locale@,
            hotkey_text: self.hotkey_text@,
            entries: entry_views(self.entries@),
        }
    }
}

/// The state before the first line: locale `ko`, no shortcut, no entries, no section.
pub open spec fn initial_model() -> ConfigModel {
    ConfigModel { section: Seq::empty(), locale: "ko"@, hotkey_text: Seq::empty(), entries: Seq::empty() }
}

/// A `key = value` line of the current section: `locale` in `global` sets the locale (in
/// lower case), `short_key` in `env` sets the shortcut text (keys compared without ASCII
/// case), and any pair in `apps` adds an entry. Key and value are trimmed and must not be empty.
pub open spec fn apply_pair(st: ConfigModel, key: Seq<char>, value: Seq<char>) -> ConfigModel {
    if key.len() == 0 || value.len() == 0 {
        st
    } else if st.section == "global"@ {
        if fold_ascii_seq(key) == "locale"@ {
            ConfigModel { locale: lowercase_of(value), ..st }
        } else {
            st
        }
    } else if st.section == "env"@ {
        if fold_ascii_seq(key) == "short_key"@ {
            ConfigModel { hotkey_text: value, ..st }
        } else {
            st
        }
    } else if st.section == "apps"@ {
        ConfigModel { entries: st.entries.push((key, value)), ..st }
    } else {
        st
    }
}

/// Reads one line. Blank lines and lines starting with `#` are skipped; `[name]` opens a
/// section (its name compared without case); a line with `=` is a pair, split at the first
/// `=`; anything else is skipped.
pub open spec fn config_step(st: ConfigModel, line: Seq<char>) -> ConfigModel {
    let t = trim(line);
    if t.len() == 0 || t[0] == '#' {
        st
    } else if t[0] == '[' && t.last() == ']' {
        ConfigModel { section: fold_case_seq(t.subrange(1, t.len() - 1)), ..st }
    } else {
        let e = first_index(t, '=');
        if e < t.len() {
            apply_pair(st, trim(t.take(e)), trim(t.skip(e + 1)))
        } else {
            st
        }
    }
}

/// The state after reading the lines in order.
pub open spec fn read_lines(lines: Seq<Seq<char>>) -> ConfigModel
    decreases lines.len(),
{
    if lines.len() == 0 {
        initial_model()
    } else {
        config_step(read_lines(lines.drop_last()), lines.last())
    }
}

/// The configuration that a text describes, read line by line.
pub open spec fn config_of(text: Seq<char>) -> ConfigModel {
    read_lines(split_on(text, '\n'))
}

/// Whether `a` and `b` hold the same locale, shortcut text and entries.
pub open spec fn same_values(a: ConfigModel, b: ConfigModel) -> bool {
    &&& a.locale == b.locale
    &&& a.hotkey_text == b.hotkey_text
    &&& a.entries == b.entries
}

/// Reads configuration text: sections `[global]` (`locale`), `[env]` (`short_key`) and
/// `[apps]` (one `label = command` per entry, in the order written).
pub fn parse_config(text: &str) -> (r: AppConfig)
    ensures
        same_values(r.model(), config_of(text@)),
{
    let cs = chars_of(text);
    let lines = split_on_exec(cs.as_slice(), '\n');
    let ghost all = char_views(lines@);
    let mut section: Vec<char> = Vec::new();
    let mut locale = String::from_str("ko");
    let mut hotkey_text = String::new();
    let mut entries: Vec<MenuEntry> = Vec::new();
    let mut i: usize = 0;
    proof {
        reveal_strlit("ko");
    }
    assert(all.take(0).len() == 0);
    assert(entry_views(entries@) == Seq::<(Seq<char>, Seq<char>)>::empty());
    while i < lines.len()
        invariant
            all == char_views(lines@),
            all == split_on(text@, '\n'),
            i <= lines@.len(),
            section@ == read_lines(all.take(i as int)).section,
            same_values(
                ConfigModel { section: section@, locale: locale@, hotkey_text: hotkey_text@, entries: entry_views(entries@) },
                read_lines(all.take(i as int)),
            ),
        decreases lines@.len() - i,
    {
        assert(all.take(i + 1).drop_last() == all.take(i as int));
        assert(all.take(i + 1).last() == lines@[i as int]@);
        let t = trim_chars(lines[i].as_slice());
        let n = t.len();
        if n == 0 || t[0] == '#' {
        } else if t[0] == '[' && t[n - 1] == ']' {
            let name = copy_range(t.as_slice(), 1, n - 1);
            section = fold_case_chars(name.as_slice());
        } else {
            let e = first_index_exec(t.as_slice(), '=');
            if e < n {
                let k0 = copy_range(t.as_slice(), 0, e);
                let v0 = copy_range(t.as_slice(), e + 1, n);
                let key = trim_chars(k0.as_slice());
                let value = trim_chars(v0.as_slice());
                if key.len() == 0 || value.len() == 0 {
                } else if chars_are(section.as_slice(), "global") {
                    if eq_ignore_ascii_case(key.as_slice(), "locale") {
                        let v = string_of(value.as_slice());
                        locale = to_lowercase(v.as_str());
                    }
                } else if chars_are(section.as_slice(), "env") {
                    if eq_ignore_ascii_case(key.as_slice(), "short_key") {
                        hotkey_text = string_of(value.as_slice());
                    }
                } else if chars_are(section.as_slice(), "apps") {
                    let ghost before = entry_views(entries@);
                    let entry = MenuEntry { label: string_of(key.as_slice()), command: string_of(value.as_slice()) };
                    entries.push(entry);
                    assert(entry_views(entries@) == before.push((key@, value@)));
                }
            }
        }
        i = i + 1;
    }
    assert(all.take(all.len() as int) == all);
    AppConfig { locale, hotkey_text, entries }
}

} // verus!
