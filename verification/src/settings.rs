//! The machine's settings file: where backups go, when the last one was
//! taken, and whether the catalogue is held in memory.
//!
//! The file is plain `key=value` lines. These settings describe this
//! machine rather than the shop, so they live beside the database, not in
//! it; reading and writing the file is the caller's business, and this
//! module turns its text into settings and back.
use vstd::prelude::*;
use chrono::Datelike;
use crate::text::{first_index_of, lemma_first_index_of, spec_trim, trim, same_text};

verus! {

/// What `NaiveDate::parse_from_str(text, "%Y-%m-%d")` reads from `text`,
/// as (year, month, day), or `None` when it is not such a date.
pub uninterp spec fn spec_parse_day(text: Seq<char>) -> Option<(i32, u32, u32)>;

/// What `NaiveDate::from_ymd_opt(year, month, day)` formatted with
/// `"%Y-%m-%d"` writes, or `None` when there is no such date.
pub uninterp spec fn spec_day_text(year: i32, month: u32, day: u32) -> Option<Seq<char>>;

/// `chrono::NaiveDate::parse_from_str(text, "%Y-%m-%d")`, taken apart into
/// its year, month and day. Its result is named, not described.
#[verifier::external_body]
pub(crate) fn parse_day(text: &str) -> (r: Option<(i32, u32, u32)>)
    ensures
        r == spec_parse_day(text@),
{
    match chrono::NaiveDate::parse_from_str(text, "%Y-%m-%d") {
        Ok(d) => Some((d.year(), d.month(), d.day())),
        Err(_) => None,
    }
}

/// `chrono::NaiveDate::from_ymd_opt(year, month, day)` written with
/// `format("%Y-%m-%d")`: `None` exactly when there is no such date.
/// Claimed besides: `parse_from_str` with the same format reads the
/// written text back as the same year, month and day (`%Y` writes the
/// year zero-padded to four digits, with a sign outside 0..=9999, and
/// reads it back in either form; `%m` and `%d` write two digits), so the
/// text is at least ten characters of digits, signs and dashes.
#[verifier::external_body]
pub(crate) fn day_text(year: i32, month: u32, day: u32) -> (r: Option<String>)
    ensures
        match r {
            Some(t) => {
                &&& spec_day_text(year, month, day) == Some(t@)
                &&& spec_parse_day(t@) == Some((year, month, day))
                &&& t@.len() >= 10
                &&& forall|i: int| 0 <= i < t@.len() ==> is_date_char(#[trigger] t@[i])
            },
            None => spec_day_text(year, month, day) is None,
        },
{
    match chrono::NaiveDate::from_ymd_opt(year, month, day) {
        Some(d) => Some(d.format("%Y-%m-%d").to_string()),
        None => None,
    }
}

/// A character `%Y-%m-%d` can write: a digit, a sign or a dash.
pub open spec fn is_date_char(c: char) -> bool {
    ('0' <= c && c <= '9') || c == '-' || c == '+'
}

/// The persisted settings. `last_backup_date` is (year, month, day).
#[derive(Debug, Clone)]
pub struct Settings {
    pub backup_folder: Option<String>,
    pub last_backup_date: Option<(i32, u32, u32)>,
    /// Whether to hold the whole catalogue in memory; off unless the file
    /// says exactly `true`.
    pub preload_catalogue: bool,
}

/// The settings as values: the folder's text, the date, the switch.
pub struct SettingsView {
    pub backup_folder: Option<Seq<char>>,
    pub last_backup_date: Option<(i32, u32, u32)>,
    pub preload_catalogue: bool,
}

impl View for Settings {
    type V = SettingsView;

    open spec fn view(&self) -> SettingsView {
        SettingsView {
            backup_folder: match self.backup_folder {
                Some(f) => Some(f@),
                None => None,
            },
            last_backup_date: self.last_backup_date,
            preload_catalogue: self.preload_catalogue,
        }
    }
}

/// No backup folder, no backup taken, catalogue not held in memory.
pub open spec fn default_view() -> SettingsView {
    SettingsView { backup_folder: None, last_backup_date: None, preload_catalogue: false }
}

impl Default for Settings {
    fn default() -> (r: Settings)
        ensures
            r@ == default_view(),
    {
        Settings { backup_folder: None, last_backup_date: None, preload_catalogue: false }
    }
}

/// A line without the `\r` of a `\r\n` ending.
pub open spec fn strip_cr(line: Seq<char>) -> Seq<char> {
    if line.len() > 0 && line.last() == '\r' {
        line.drop_last()
    } else {
        line
    }
}

/// The lines of `s` as `str::lines` gives them: split at each `\n`, a
/// `\r` before it dropped, and no empty line after a final `\n`.
pub open spec fn spec_lines(s: Seq<char>) -> Seq<Seq<char>>
    decreases s.len(),
{
    if s.len() == 0 {
        Seq::empty()
    } else {
        let i = first_index_of(s, '\n') as int;
        if i >= s.len() {
            seq![strip_cr(s)]
        } else {
            seq![strip_cr(s.subrange(0, i))] + spec_lines(s.subrange(i + 1, s.len() as int))
        }
    }
}

/// What one line does to the settings read so far: `key=value` split at
/// the first `=`; a line without `=`, or with an unknown key, changes
/// nothing, and an empty `backup_folder` value is ignored.
pub open spec fn apply_line(v: SettingsView, line: Seq<char>) -> SettingsView {
    let i = first_index_of(line, '=') as int;
    if i >= line.len() {
        v
    } else {
        let key = line.subrange(0, i);
        let value = line.subrange(i + 1, line.len() as int);
        if key == "backup_folder"@ && value.len() > 0 {
            SettingsView { backup_folder: Some(value), ..v }
        } else if key == "last_backup_date"@ {
            let date = if value.len() == 0 {
                None
            } else {
                spec_parse_day(value)
            };
            SettingsView { last_backup_date: date, ..v }
        } else if key == "preload_catalogue"@ {
            SettingsView { preload_catalogue: spec_trim(value) == "true"@, ..v }
        } else {
            v
        }
    }
}

/// The lines applied in order to `v`.
pub open spec fn apply_lines(v: SettingsView, lines: Seq<Seq<char>>) -> SettingsView
    decreases lines.len(),
{
    if lines.len() == 0 {
        v
    } else {
        apply_lines(apply_line(v, lines[0]), lines.drop_first())
    }
}

/// The settings a file's text describes.
pub open spec fn spec_parse(text: Seq<char>) -> SettingsView {
    apply_lines(default_view(), spec_lines(text))
}

/// Position of the first `c` in `s` at or after `from`, or `s`'s length.
fn find_from(s: &str, from: usize, c: char) -> (r: usize)
    requires
        from <= s@.len(),
    ensures
        r == from + first_index_of(s@.subrange(from as int, s@.len() as int), c),
        from <= r <= s@.len(),
{
    let n = s.unicode_len();
    let mut i = from;
    while i < n && s.get_char(i) != c
        invariant
            from <= i <= n,
            n == s@.len(),
            forall|k: int| from <= k < i ==> s@[k] != c,
        decreases n - i,
    {
        i = i + 1;
    }
    proof {
        let rest = s@.subrange(from as int, s@.len() as int);
        assert forall|k: int| 0 <= k < i - from implies #[trigger] rest[k] != c by {
            assert(rest[k] == s@[from + k]);
        }
        lemma_first_index_of(rest, c, i - from);
    }
    i
}

/// Applies one line of the file to `settings`.
fn apply(settings: &mut Settings, line: &str)
    ensures
        final(settings)@ == apply_line(old(settings)@, line@),
{
    let n = line.unicode_len();
    let i = find_from(line, 0, '=');
    assert(line@.subrange(0, n as int) =~= line@);
    if i >= n {
        return;
    }
    let key = line.substring_char(0, i);
    let value = line.substring_char(i + 1, n);
    if same_text(key, "backup_folder") && value.unicode_len() > 0 {
        settings.backup_folder = Some(value.to_string());
    } else if same_text(key, "last_backup_date") {
        // An empty value is no date; chrono is not asked.
        settings.last_backup_date = if value.unicode_len() == 0 {
            None
        } else {
            parse_day(value)
        };
    } else if same_text(key, "preload_catalogue") {
        settings.preload_catalogue = same_text(trim(value), "true");
    }
}

/// The settings a file's text describes; anything it does not say keeps
/// its default.
pub fn parse(contents: &str) -> (r: Settings)
    ensures
        r@ == spec_parse(contents@),
{
    let mut settings = Settings::default();
    let n = contents.unicode_len();
    let mut pos: usize = 0;
    assert(contents@.subrange(0, n as int) =~= contents@);
    while pos < n
        invariant
            pos <= n,
            n == contents@.len(),
            spec_parse(contents@) == apply_lines(
                settings@,
                spec_lines(contents@.subrange(pos as int, n as int)),
            ),
        decreases n - pos,
    {
        let end = find_from(contents, pos, '\n');
        let mut line = contents.substring_char(pos, end);
        let len = line.unicode_len();
        if len > 0 && line.get_char(len - 1) == '\r' {
            line = line.substring_char(0, len - 1);
        }
        let ghost rest = contents@.subrange(pos as int, n as int);
        let ghost line_seq = line@;
        proof {
            assert(contents@.subrange(pos as int, end as int) =~= rest.subrange(0, end - pos));
            assert(line_seq =~= strip_cr(rest.subrange(0, end - pos)));
        }
        apply(&mut settings, line);
        if end < n {
            proof {
                let tail = rest.subrange(end - pos + 1, rest.len() as int);
                assert(tail =~= contents@.subrange(end + 1, n as int));
                let ls = seq![line_seq] + spec_lines(tail);
                assert(spec_lines(rest) == ls);
                assert(ls[0] == line_seq);
                assert(ls.drop_first() =~= spec_lines(tail));
            }
            pos = end + 1;
        } else {
            proof {
                assert(spec_lines(rest) == seq![line_seq]);
                assert(seq![line_seq].drop_first() =~= Seq::<Seq<char>>::empty());
                assert(contents@.subrange(n as int, n as int) =~= Seq::<char>::empty());
            }
            pos = n;
        }
    }
    proof {
        assert(contents@.subrange(pos as int, n as int) =~= Seq::<char>::empty());
    }
    settings
}

/// One line of the file: the key, `=`, the value, a newline.
pub open spec fn key_line(key: Seq<char>, value: Seq<char>) -> Seq<char> {
    key + seq!['='] + value + seq!['\n']
}

/// The text a folder is written as (nothing for no folder).
pub open spec fn folder_text(folder: Option<Seq<char>>) -> Seq<char> {
    match folder {
        Some(f) => f,
        None => Seq::empty(),
    }
}

/// The text a date is written as (nothing for no date, or for a
/// year-month-day that is no date).
pub open spec fn date_text(date: Option<(i32, u32, u32)>) -> Seq<char> {
    match date {
        Some((y, m, d)) => match spec_day_text(y, m, d) {
            Some(t) => t,
            None => Seq::empty(),
        },
        None => Seq::empty(),
    }
}

/// The text of the file that stores `v`.
pub open spec fn spec_render(v: SettingsView) -> Seq<char> {
    key_line("backup_folder"@, folder_text(v.backup_folder)) + key_line(
        "last_backup_date"@,
        date_text(v.last_backup_date),
    ) + key_line("preload_catalogue"@, switch_text(v.preload_catalogue))
}

/// Settings whose file reads back as themselves: a folder that is
/// non-empty, on one line, and does not end in a carriage return, and a
/// date that is a real date.
pub open spec fn writable(v: SettingsView) -> bool {
    &&& (v.backup_folder matches Some(f) ==> {
        &&& f.len() > 0
        &&& f.last() != '\r'
        &&& forall|i: int| 0 <= i < f.len() ==> f[i] != '\n'
    })
    &&& (v.last_backup_date matches Some((y, m, d)) ==> spec_day_text(y, m, d) is Some)
}

/// A value `apply_line` reads back from `key=value` once the line is split.
proof fn lemma_split_line(key: Seq<char>, value: Seq<char>, rest: Seq<char>)
    requires
        forall|i: int| 0 <= i < key.len() ==> key[i] != '\n' && key[i] != '=',
        forall|i: int| 0 <= i < value.len() ==> value[i] != '\n',
        value.len() == 0 || value.last() != '\r',
    ensures
        spec_lines(key_line(key, value) + rest) == seq![key + seq!['='] + value] + spec_lines(rest),
        first_index_of(key + seq!['='] + value, '=') == key.len(),
        (key + seq!['='] + value).subrange(0, key.len() as int) == key,
        (key + seq!['='] + value).subrange(key.len() + 1int, key.len() + 1int + value.len()) == value,
{
    let line = key + seq!['='] + value;
    let s = key_line(key, value) + rest;
    assert forall|i: int| 0 <= i < line.len() implies #[trigger] s[i] != '\n' by {
        if i < key.len() {
            assert(s[i] == key[i]);
        } else if i > key.len() {
            assert(s[i] == value[i - key.len() - 1]);
        }
    }
    assert(s[line.len() as int] == '\n');
    lemma_first_index_of(s, '\n', line.len() as int);
    assert(s.subrange(0, line.len() as int) =~= line);
    assert(s.subrange(line.len() + 1int, s.len() as int) =~= rest);
    assert(strip_cr(line) == line) by {
        if line.len() > 0 && line.last() == '\r' {
            if value.len() > 0 {
                assert(line.last() == value.last());
            }
        }
    }
    assert forall|i: int| 0 <= i < key.len() implies #[trigger] line[i] != '=' by {
        assert(line[i] == key[i]);
    }
    lemma_first_index_of(line, '=', key.len() as int);
    assert(line.subrange(0, key.len() as int) =~= key);
    assert(line.subrange(key.len() + 1int, key.len() + 1int + value.len()) =~= value);
}

/// A key of the file is one line and holds no `=`.
pub open spec fn plain_key(key: Seq<char>) -> bool {
    forall|i: int| 0 <= i < key.len() ==> key[i] != '\n' && key[i] != '='
}

proof fn lemma_keys()
    ensures
        plain_key("backup_folder"@),
        plain_key("last_backup_date"@),
        plain_key("preload_catalogue"@),
        "backup_folder"@ != "last_backup_date"@,
        "backup_folder"@ != "preload_catalogue"@,
        "last_backup_date"@ != "preload_catalogue"@,
{
    reveal_strlit("backup_folder");
    reveal_strlit("last_backup_date");
    reveal_strlit("preload_catalogue");
    assert("backup_folder"@.len() != "last_backup_date"@.len());
    assert("backup_folder"@.len() != "preload_catalogue"@.len());
    assert("last_backup_date"@.len() != "preload_catalogue"@.len());
}

/// The two texts the switch is written as.
pub open spec fn switch_text(on: bool) -> Seq<char> {
    if on {
        "true"@
    } else {
        "false"@
    }
}

proof fn lemma_switch_text(on: bool)
    ensures
        spec_trim(switch_text(on)) == switch_text(on),
        (switch_text(on) == "true"@) == on,
        switch_text(on).len() > 0,
        switch_text(on).last() != '\r',
        forall|i: int| 0 <= i < switch_text(on).len() ==> switch_text(on)[i] != '\n',
{
    reveal_strlit("true");
    reveal_strlit("false");
    let t = switch_text(on);
    let u = t.skip(crate::text::leading_space(t) as int);
    assert(u =~= t);
    assert(u.take(u.len() as int) =~= t);
    assert("true"@ != "false"@) by {
        assert("true"@.len() != "false"@.len());
    }
}

/// What is written is what is read: parsing the text written for settings
/// gives back those settings, when the folder fits on a line (see
/// `writable`) and the date's text reads back as the date.
pub proof fn lemma_settings_round_trip(v: SettingsView)
    requires
        writable(v),
        v.last_backup_date matches Some((y, m, d)) ==> spec_day_text(y, m, d) matches Some(t) && {
            &&& spec_parse_day(t) == Some((y, m, d))
            &&& t.len() > 0
            &&& forall|i: int| 0 <= i < t.len() ==> is_date_char(#[trigger] t[i])
        },
    ensures
        spec_parse(spec_render(v)) == v,
{
    lemma_keys();
    lemma_switch_text(v.preload_catalogue);
    let k1 = "backup_folder"@;
    let k2 = "last_backup_date"@;
    let k3 = "preload_catalogue"@;
    let v1 = folder_text(v.backup_folder);
    let v2 = date_text(v.last_backup_date);
    let v3 = switch_text(v.preload_catalogue);
    assert forall|i: int| 0 <= i < v2.len() implies v2[i] != '\n' by {
        if let Some((y, m, d)) = v.last_backup_date {
            assert(is_date_char(v2[i]));
        }
    }
    if v2.len() > 0 {
        if let Some((y, m, d)) = v.last_backup_date {
            assert(is_date_char(v2[v2.len() - 1]));
        }
    }
    let l3 = key_line(k3, v3);
    let empty = Seq::<char>::empty();
    lemma_split_line(k3, v3, empty);
    assert(l3 + empty =~= l3);
    assert(spec_lines(empty) =~= Seq::<Seq<char>>::empty());
    let l2 = key_line(k2, v2);
    lemma_split_line(k2, v2, l3);
    lemma_split_line(k1, v1, l2 + l3);
    let text = spec_render(v);
    assert(text =~= key_line(k1, v1) + (l2 + l3));
    let (a, b, c) = (k1 + seq!['='] + v1, k2 + seq!['='] + v2, k3 + seq!['='] + v3);
    assert(spec_lines(text) =~= seq![a, b, c]);
    let after1 = apply_line(default_view(), a);
    let after2 = apply_line(after1, b);
    let after3 = apply_line(after2, c);
    assert(after3 == v);
    assert(seq![a, b, c].drop_first() =~= seq![b, c]);
    assert(seq![b, c].drop_first() =~= seq![c]);
    assert(seq![c].drop_first() =~= Seq::<Seq<char>>::empty());
    assert(seq![c][0] == c);
    assert(seq![b, c][0] == b);
    assert(seq![a, b, c][0] == a);
    assert(apply_lines(after3, Seq::<Seq<char>>::empty()) == after3);
    assert(apply_lines(after2, seq![c]) == after3);
    assert(apply_lines(after1, seq![b, c]) == after3);
}

/// The text of the file that stores `settings`: one `key=value` line per
/// setting. Settings that are `writable` read back as themselves.
pub fn render(settings: &Settings) -> (r: String)
    ensures
        r@ == spec_render(settings@),
        writable(settings@) ==> spec_parse(r@) == settings@,
{
    let mut out = String::new();
    proof {
        reveal_strlit("=");
        reveal_strlit("\n");
    }
    out.append("backup_folder");
    out.append("=");
    match &settings.backup_folder {
        Some(f) => out.append(f.as_str()),
        None => {},
    }
    out.append("\n");
    out.append("last_backup_date");
    out.append("=");
    match settings.last_backup_date {
        Some((y, m, d)) => match day_text(y, m, d) {
            Some(t) => out.append(t.as_str()),
            None => {},
        },
        None => {},
    }
    out.append("\n");
    out.append("preload_catalogue");
    out.append("=");
    out.append(if settings.preload_catalogue { "true" } else { "false" });
    out.append("\n");
    proof {
        assert(out@ =~= spec_render(settings@));
        if writable(settings@) {
            lemma_settings_round_trip(settings@);
        }
    }
    out
}

/// Whether the day's automatic backup is due: a folder is chosen and no
/// backup has been taken `today`.
pub fn backup_due(settings: &Settings, today: (i32, u32, u32)) -> (r: bool)
    ensures
        r == (settings.backup_folder is Some && settings.last_backup_date != Some(today)),
{
    let taken_today = match settings.last_backup_date {
        Some(d) => d.0 == today.0 && d.1 == today.1 && d.2 == today.2,
        None => false,
    };
    settings.backup_folder.is_some() && !taken_today
}

/// Whether `line` sets the `preload_catalogue` switch.
pub open spec fn is_preload_line(line: Seq<char>) -> bool {
    let i = first_index_of(line, '=') as int;
    i < line.len() && line.subrange(0, i) == "preload_catalogue"@
}

/// Whether the preload line `line` switches preloading on: its value,
/// trimmed, is exactly `true`.
pub open spec fn preload_on(line: Seq<char>) -> bool {
    let i = first_index_of(line, '=') as int;
    spec_trim(line.subrange(i + 1, line.len() as int)) == "true"@
}

proof fn lemma_preload_step(v: SettingsView, line: Seq<char>)
    ensures
        apply_line(v, line).preload_catalogue == (if is_preload_line(line) {
            preload_on(line)
        } else {
            v.preload_catalogue
        }),
{
    lemma_keys();
}

proof fn lemma_preload_lines(v: SettingsView, lines: Seq<Seq<char>>)
    ensures
        (forall|j: int| 0 <= j < lines.len() ==> !is_preload_line(#[trigger] lines[j])) ==> apply_lines(
            v,
            lines,
        ).preload_catalogue == v.preload_catalogue,
        forall|k: int|
            0 <= k < lines.len() && is_preload_line(#[trigger] lines[k]) && (forall|j: int|
                k < j < lines.len() ==> !is_preload_line(#[trigger] lines[j])) ==> apply_lines(v, lines).preload_catalogue
                == preload_on(lines[k]),
    decreases lines.len(),
{
    if lines.len() > 0 {
        let rest = lines.drop_first();
        let w = apply_line(v, lines[0]);
        lemma_preload_step(v, lines[0]);
        lemma_preload_lines(w, rest);
        assert forall|k: int|
            0 <= k < lines.len() && is_preload_line(#[trigger] lines[k]) && (forall|j: int|
                k < j < lines.len() ==> !is_preload_line(#[trigger] lines[j])) implies apply_lines(v, lines).preload_catalogue
            == preload_on(lines[k]) by {
            if k == 0 {
                assert forall|j: int| 0 <= j < rest.len() implies !is_preload_line(#[trigger] rest[j]) by {
                    assert(rest[j] == lines[j + 1]);
                }
            } else {
                assert(rest[k - 1] == lines[k]);
                assert forall|j: int| k - 1 < j < rest.len() implies !is_preload_line(#[trigger] rest[j]) by {
                    assert(rest[j] == lines[j + 1]);
                }
            }
        }
        if forall|j: int| 0 <= j < lines.len() ==> !is_preload_line(#[trigger] lines[j]) {
            assert(!is_preload_line(lines[0]));
            assert forall|j: int| 0 <= j < rest.len() implies !is_preload_line(#[trigger] rest[j]) by {
                assert(rest[j] == lines[j + 1]);
            }
        }
    }
}

/// The last `preload_catalogue` line of the file decides the switch: on
/// exactly when its value, trimmed, is `true`; with no such line the
/// catalogue is not preloaded.
pub proof fn lemma_last_preload_line_decides(text: Seq<char>)
    ensures
        (forall|j: int| 0 <= j < spec_lines(text).len() ==> !is_preload_line(#[trigger] spec_lines(text)[j]))
            ==> !spec_parse(text).preload_catalogue,
        forall|k: int|
            0 <= k < spec_lines(text).len() && is_preload_line(#[trigger] spec_lines(text)[k]) && (forall|j: int|
                k < j < spec_lines(text).len() ==> !is_preload_line(#[trigger] spec_lines(text)[j]))
                ==> spec_parse(text).preload_catalogue == preload_on(spec_lines(text)[k]),
{
    lemma_preload_lines(default_view(), spec_lines(text));
}

} // verus!
