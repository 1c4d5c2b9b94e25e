//! Self-upgrade: which release is meant, and which checksum belongs to an
//! archive.

use crate::text;
use crate::text::has_at;
use vstd::prelude::*;

verus! {

/// The prefix of the tags of the agent's releases.
pub open spec fn tag_prefix() -> Seq<char> {
    seq!['p', 'r', 'o', 'x', 'y', '-', 'v']
}

fn tag_prefix_chars() -> (v: Vec<char>)
    ensures
        v@ == tag_prefix(),
{
    let mut v: Vec<char> = Vec::new();
    v.push('p');
    v.push('r');
    v.push('o');
    v.push('x');
    v.push('y');
    v.push('-');
    v.push('v');
    assert(v@ =~= tag_prefix());
    v
}

/// The tag of the release that `version` names: the version itself where
/// it is a tag already, else `proxy-v` and the version.
pub fn release_tag(version: &str) -> (tag: String)
    ensures
        tag@ == (if has_at(version@, 0, tag_prefix()) {
            version@
        } else {
            tag_prefix() + version@
        }),
{
    let v = text::chars_of(version);
    let prefix = tag_prefix_chars();
    if text::match_at(&v, 0, &prefix) {
        String::from_str(version)
    } else {
        let mut out = text::string_of(&prefix, 0, prefix.len());
        assert(prefix@.subrange(0, prefix@.len() as int) =~= prefix@);
        out.append(version);
        out
    }
}

/// The version that a release tag names: the tag without `proxy-v`.
pub fn tag_version(tag: &str) -> (version: String)
    ensures
        version@ == (if has_at(tag@, 0, tag_prefix()) {
            tag@.skip(7)
        } else {
            tag@
        }),
{
    let v = text::chars_of(tag);
    let prefix = tag_prefix_chars();
    if text::match_at(&v, 0, &prefix) {
        let s = text::string_of(&v, 7, v.len());
        assert(v@.subrange(7, v@.len() as int) =~= tag@.skip(7));
        s
    } else {
        String::from_str(tag)
    }
}

/// ASCII whitespace.
pub open spec fn is_space(c: char) -> bool {
    c == ' ' || c == '\t' || c == '\n' || c == '\x0C' || c == '\r'
}

/// The number of whitespace characters at the start of `s`.
pub open spec fn spaces_len(s: Seq<char>) -> nat
    decreases s.len(),
{
    if s.len() == 0 || !is_space(s[0]) {
        0
    } else {
        1 + spaces_len(s.skip(1))
    }
}

/// The number of characters at the start of `s` before the first
/// whitespace.
pub open spec fn word_len(s: Seq<char>) -> nat
    decreases s.len(),
{
    if s.len() == 0 || is_space(s[0]) {
        0
    } else {
        1 + word_len(s.skip(1))
    }
}

/// The number of characters at the start of `s` before the first line
/// feed.
pub open spec fn line_len(s: Seq<char>) -> nat
    decreases s.len(),
{
    if s.len() == 0 || s[0] == '\n' {
        0
    } else {
        1 + line_len(s.skip(1))
    }
}

proof fn lemma_line_len_bound(s: Seq<char>)
    ensures
        line_len(s) <= s.len(),
    decreases s.len(),
{
    if s.len() > 0 && s[0] != '\n' {
        lemma_line_len_bound(s.skip(1));
    }
}

/// The first two words of a line: where the first starts and ends, and
/// where the second does.
pub struct Words {
    pub hash_from: int,
    pub hash_to: int,
    pub name_from: int,
    pub name_to: int,
}

pub open spec fn words_of(line: Seq<char>) -> Words {
    let a = spaces_len(line) as int;
    let b = a + word_len(line.skip(a));
    let c = b + spaces_len(line.skip(b));
    let d = c + word_len(line.skip(c));
    Words { hash_from: a, hash_to: b, name_from: c, name_to: d }
}

/// Whether `name` ends with `suffix`.
pub open spec fn ends_with(name: Seq<char>, suffix: Seq<char>) -> bool {
    suffix.len() <= name.len() && name.skip(name.len() - suffix.len()) == suffix
}

/// The checksum that a line gives for `filename`: its first word, in lower
/// case, if its second word is the file's name or a path that ends with it.
pub open spec fn line_checksum(line: Seq<char>, filename: Seq<char>) -> Option<Seq<char>> {
    let w = words_of(line);
    let name = line.subrange(w.name_from, w.name_to);
    if w.hash_to > w.hash_from && w.name_to > w.name_from && ends_with(name, filename) {
        Some(text::lower(line.subrange(w.hash_from, w.hash_to)))
    } else {
        None
    }
}

/// The checksum of `filename` in a list of checksums, one `<hash> <name>`
/// per line: that of the first line that names the file.
pub open spec fn checksum(sums: Seq<char>, filename: Seq<char>) -> Option<Seq<char>>
    decreases sums.len(),
    via checksum_decreases
{
    if sums.len() == 0 {
        None
    } else {
        let n = line_len(sums) as int;
        match line_checksum(sums.take(n), filename) {
            Some(h) => Some(h),
            None => if n < sums.len() {
                checksum(sums.skip(n + 1), filename)
            } else {
                None
            },
        }
    }
}

#[via_fn]
proof fn checksum_decreases(sums: Seq<char>, filename: Seq<char>) {
    lemma_line_len_bound(sums);
}

/// The end of the whitespace that starts at `from`, within `v[..to]`.
fn skip_spaces(v: &Vec<char>, from: usize, to: usize) -> (at: usize)
    requires
        from <= to <= v@.len(),
    ensures
        from <= at <= to,
        at - from == spaces_len(v@.subrange(from as int, to as int)),
{
    let mut at = from;
    assert(v@.subrange(from as int, to as int).skip(0) =~= v@.subrange(from as int, to as int));
    while at < to && (v[at] == ' ' || v[at] == '\t' || v[at] == '\n' || v[at] == '\x0C' || v[at]
        == '\r')
        invariant
            from <= at <= to <= v@.len(),
            spaces_len(v@.subrange(from as int, to as int)) == (at - from) + spaces_len(
                v@.subrange(at as int, to as int),
            ),
        decreases to - at,
    {
        assert(v@.subrange(at as int, to as int).skip(1) =~= v@.subrange(at + 1, to as int));
        at += 1;
    }
    at
}

/// The end of the word that starts at `from`, within `v[..to]`.
fn skip_word(v: &Vec<char>, from: usize, to: usize) -> (at: usize)
    requires
        from <= to <= v@.len(),
    ensures
        from <= at <= to,
        at - from == word_len(v@.subrange(from as int, to as int)),
{
    let mut at = from;
    while at < to && !(v[at] == ' ' || v[at] == '\t' || v[at] == '\n' || v[at] == '\x0C' || v[at]
        == '\r')
        invariant
            from <= at <= to <= v@.len(),
            word_len(v@.subrange(from as int, to as int)) == (at - from) + word_len(
                v@.subrange(at as int, to as int),
            ),
        decreases to - at,
    {
        assert(v@.subrange(at as int, to as int).skip(1) =~= v@.subrange(at + 1, to as int));
        at += 1;
    }
    at
}

/// The end of the line that starts at `from`.
fn skip_line(v: &Vec<char>, from: usize) -> (at: usize)
    requires
        from <= v@.len(),
    ensures
        from <= at <= v@.len(),
        at - from == line_len(v@.skip(from as int)),
{
    let mut at = from;
    while at < v.len() && v[at] != '\n'
        invariant
            from <= at <= v@.len(),
            line_len(v@.skip(from as int)) == (at - from) + line_len(v@.skip(at as int)),
        decreases v@.len() - at,
    {
        assert(v@.skip(at as int).skip(1) =~= v@.skip(at + 1));
        at += 1;
    }
    at
}

fn lower_string_of(v: &Vec<char>, from: usize, to: usize) -> (s: String)
    requires
        from <= to <= v@.len(),
    ensures
        s@ == text::lower(v@.subrange(from as int, to as int)),
{
    let mut s = String::new();
    let mut i = from;
    while i < to
        invariant
            from <= i <= to <= v@.len(),
            s@ == text::lower(v@.subrange(from as int, to as int)).subrange(0, i - from),
        decreases to - i,
    {
        text::push_char(&mut s, text::to_lower_char(v[i]));
        i += 1;
        assert(s@ =~= text::lower(v@.subrange(from as int, to as int)).subrange(0, i - from));
    }
    assert(s@ =~= text::lower(v@.subrange(from as int, to as int)));
    s
}

/// Finds the checksum of `filename` in the text of a checksum list.
pub fn parse_checksum(sums_text: &str, filename: &str) -> (r: Option<String>)
    ensures
        match checksum(sums_text@, filename@) {
            Some(h) => r is Some && r->Some_0@ == h,
            None => r is None,
        },
{
    let v = text::chars_of(sums_text);
    let f = text::chars_of(filename);
    let mut i: usize = 0;
    assert(v@.skip(0) =~= v@);
    while i < v.len()
        invariant
            i <= v@.len(),
            v@ == sums_text@,
            f@ == filename@,
            checksum(v@, f@) == checksum(v@.skip(i as int), f@),
        decreases v@.len() - i,
    {
        let end = skip_line(&v, i);
        let ghost rest = v@.skip(i as int);
        let ghost line = rest.take(end - i);
        assert(line =~= v@.subrange(i as int, end as int));
        let a = skip_spaces(&v, i, end);
        assert(line.skip(a - i) =~= v@.subrange(a as int, end as int));
        let b = skip_word(&v, a, end);
        assert(line.skip(b - i) =~= v@.subrange(b as int, end as int));
        let c = skip_spaces(&v, b, end);
        assert(line.skip(c - i) =~= v@.subrange(c as int, end as int));
        let d = skip_word(&v, c, end);
        let ghost w = words_of(line);
        assert(w.hash_from == a - i && w.hash_to == b - i && w.name_from == c - i && w.name_to
            == d - i);
        assert(line.subrange(w.hash_from, w.hash_to) =~= v@.subrange(a as int, b as int));
        let ghost name = line.subrange(w.name_from, w.name_to);
        assert(name =~= v@.subrange(c as int, d as int));
        if b > a && d > c && f.len() <= d - c {
            let at = d - f.len();
            assert(v@.subrange(at as int, at + f@.len()) =~= name.skip(name.len() - f@.len()));
            if text::match_at(&v, at, &f) {
                return Some(lower_string_of(&v, a, b));
            }
        }
        if end < v.len() {
            assert(rest.skip(end - i + 1) =~= v@.skip(end + 1));
            i = end + 1;
        } else {
            return None;
        }
    }
    None
}


/// The largest binary that an upgrade unpacks: 100 MB.
pub const MAX_BINARY_SIZE: u64 = 104_857_600;

/// The name of the release archive for a platform.
pub fn archive_name(platform: &str) -> (name: String)
    ensures
        name@ == "aether-proxy-"@ + platform@ + ".tar.gz"@,
{
    let mut name = text::concat("aether-proxy-", platform);
    name.append(".tar.gz");
    name
}

/// The URL from which a file of a release is downloaded.
pub fn download_url(repo: &str, tag: &str, filename: &str) -> (url: String)
    ensures
        url@ == "https://github.com/"@ + repo@ + "/releases/download/"@ + tag@ + "/"@ + filename@,
{
    let mut url = text::concat("https://github.com/", repo);
    url.append("/releases/download/");
    url.append(tag);
    url.append("/");
    url.append(filename);
    url
}

/// What to do with an entry of a release archive.
#[derive(Debug, Clone, Copy, PartialEq, Eq, Structural)]
pub enum EntryVerdict {
    /// Not the binary: go on with the next entry.
    Skip,
    /// The binary: unpack it.
    Unpack,
    /// The binary, but larger than an upgrade unpacks; its size.
    TooLarge(u64),
}

/// Judges an entry of a release archive: only a regular file is looked at
/// (a link could lead the write elsewhere), only one with the binary's
/// name is the binary, and the binary may have 100 MB at most.
pub fn judge_entry(is_regular_file: bool, name_matches: bool, size: u64) -> (v: EntryVerdict)
    ensures
        v == (if !is_regular_file || !name_matches {
            EntryVerdict::Skip
        } else if size > MAX_BINARY_SIZE {
            EntryVerdict::TooLarge(size)
        } else {
            EntryVerdict::Unpack
        }),
{
    if !is_regular_file || !name_matches {
        EntryVerdict::Skip
    } else if size > MAX_BINARY_SIZE {
        EntryVerdict::TooLarge(size)
    } else {
        EntryVerdict::Unpack
    }
}

/// Whether the running version is the one that a release tag names.
pub fn is_current(tag: &str, running_version: &str) -> (r: bool)
    ensures
        r == ((if has_at(tag@, 0, tag_prefix()) {
            tag@.skip(7)
        } else {
            tag@
        }) == running_version@),
{
    let version = tag_version(tag);
    version == String::from_str(running_version)
}

} // verus!
