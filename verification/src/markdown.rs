//! What is read out of a skill's `SKILL.md`: its front matter, and the
//! version, author and summary that its text gives.

use crate::pattern::{capture_first, compile, compiled, first_group};
use crate::text::{
    chars_of, contains_literal, contains_text, index_of_char, is_literal, join, join_range, lines,
    lowercase, lowered, opt_text, prefix_string, rows, skip_leading, slice_of, split_lines,
    starts_with, strip_prefixes, to_string, trim, trim_start, trimmed, without_prefixes, CharClass,
};
use vstd::prelude::*;

verus! {

/// A test on one line of a document.
#[derive(Clone, Copy, Debug)]
pub enum LineKind {
    /// Nothing but `---`, with white space around it at most.
    Fence,
    /// No heading, not led by `---`, and not blank.
    Text,
    /// Blank, or a heading.
    Break,
    /// Neither a heading nor a fence.
    Plain,
    /// Not blank.
    Filled,
}

/// Whether a line holds white space alone.
pub open spec fn is_blank(line: Seq<char>) -> bool {
    trim(line, CharClass::Whitespace).len() == 0
}

/// Whether a line is a fence of the front matter.
pub open spec fn is_fence(line: Seq<char>) -> bool {
    trim(line, CharClass::Whitespace) == "---"@
}

impl LineKind {
    /// Whether `line` is of this kind.
    pub open spec fn holds(self, line: Seq<char>) -> bool {
        match self {
            LineKind::Fence => is_fence(line),
            LineKind::Text => !("#"@.is_prefix_of(line) || "---"@.is_prefix_of(line) || is_blank(
                line,
            )),
            LineKind::Break => is_blank(line) || "#"@.is_prefix_of(line),
            LineKind::Plain => !("#"@.is_prefix_of(line) || is_fence(line)),
            LineKind::Filled => !is_blank(line),
        }
    }

    /// Whether `line` is of this kind.
    pub fn test(&self, line: &Vec<char>) -> (b: bool)
        ensures
            b == self.holds(line@),
    {
        let t = trimmed(line, CharClass::Whitespace);
        match self {
            LineKind::Fence => is_literal(&t, "---"),
            LineKind::Text => !(starts_with(line, "#") || starts_with(line, "---") || t.len()
                == 0),
            LineKind::Break => t.len() == 0 || starts_with(line, "#"),
            LineKind::Plain => !(starts_with(line, "#") || is_literal(&t, "---")),
            LineKind::Filled => t.len() != 0,
        }
    }
}

/// The index of the first line of the given kind at or after `from`; the
/// number of lines where there is none.
pub open spec fn next_line(all: Seq<Seq<char>>, from: int, kind: LineKind) -> int
    decreases all.len() - from,
{
    if from >= all.len() {
        all.len() as int
    } else if kind.holds(all[from]) {
        from
    } else {
        next_line(all, from + 1, kind)
    }
}

/// The index of the first line of the given kind at or after `from`.
pub fn find_line(all: &Vec<Vec<char>>, from: usize, kind: LineKind) -> (i: usize)
    requires
        from <= all.len(),
    ensures
        from <= i <= all.len(),
        i == next_line(rows(all@), from as int, kind),
{
    let mut i: usize = from;
    assert(rows(all@).len() == all@.len());
    while i < all.len()
        invariant
            from <= i <= all.len(),
            rows(all@).len() == all@.len(),
            next_line(rows(all@), from as int, kind) == next_line(rows(all@), i as int, kind),
        decreases all.len() - i,
    {
        assert(rows(all@)[i as int] == all@[i as int]@);
        if kind.test(&all[i]) {
            return i;
        }
        i += 1;
    }
    i
}

/// The lines between the fence that opens a document and the next fence;
/// `None` where the first line is no fence or none follows it.
pub open spec fn fenced_lines(all: Seq<Seq<char>>) -> Option<Seq<Seq<char>>> {
    if all.len() > 0 && is_fence(all[0]) && next_line(all, 1, LineKind::Fence) < all.len() {
        Some(all.subrange(1, next_line(all, 1, LineKind::Fence)))
    } else {
        None
    }
}

/// The value that a line gives to the field `key` (the field's name with its
/// colon): what follows the key, without white space and quotes around it;
/// `None` where the line does not begin with the key or the value is empty.
pub open spec fn field_value(line: Seq<char>, key: Seq<char>) -> Option<Seq<char>> {
    let t = trim(line, CharClass::Whitespace);
    let v = trim(
        trim(trim(strip_prefixes(t, key), CharClass::Whitespace), CharClass::Only('"')),
        CharClass::Only('\''),
    );
    if key.is_prefix_of(t) && v.len() > 0 {
        Some(v)
    } else {
        None
    }
}

/// The value that the first `n` lines give to `key`: that of the last line
/// that gives one.
pub open spec fn last_value(block: Seq<Seq<char>>, n: nat, key: Seq<char>) -> Option<Seq<char>>
    decreases n,
{
    if n == 0 {
        None
    } else {
        match field_value(block[n - 1], key) {
            Some(v) => Some(v),
            None => last_value(block, (n - 1) as nat, key),
        }
    }
}

/// The description, name and version that the front matter of a document gives.
pub open spec fn frontmatter(content: Seq<char>) -> (
    Option<Seq<char>>,
    Option<Seq<char>>,
    Option<Seq<char>>,
) {
    match fenced_lines(lines(content)) {
        Some(block) => (
            last_value(block, block.len(), "description:"@),
            last_value(block, block.len(), "name:"@),
            last_value(block, block.len(), "version:"@),
        ),
        None => (None, None, None),
    }
}

/// The value that a line gives to the field `key`.
pub fn read_field(line: &Vec<char>, key: &str) -> (r: Option<String>)
    ensures
        opt_text(r) == field_value(line@, key@),
{
    let t = trimmed(line, CharClass::Whitespace);
    if !starts_with(&t, key) {
        return None;
    }
    let rest = without_prefixes(&t, key);
    let a = trimmed(&rest, CharClass::Whitespace);
    let b = trimmed(&a, CharClass::Only('"'));
    let c = trimmed(&b, CharClass::Only('\''));
    if c.len() > 0 {
        Some(to_string(&c))
    } else {
        None
    }
}

/// The value that the lines `all[from..to]` give to `key`.
fn read_last(all: &Vec<Vec<char>>, from: usize, to: usize, key: &str) -> (r: Option<String>)
    requires
        from <= to <= all.len(),
    ensures
        opt_text(r) == last_value(
            rows(all@).subrange(from as int, to as int),
            (to - from) as nat,
            key@,
        ),
{
    let ghost block = rows(all@).subrange(from as int, to as int);
    let mut found: Option<String> = None;
    let mut i: usize = from;
    while i < to
        invariant
            from <= i <= to <= all.len(),
            block == rows(all@).subrange(from as int, to as int),
            opt_text(found) == last_value(block, (i - from) as nat, key@),
        decreases to - i,
    {
        assert(block[i - from] == all@[i as int]@);
        match read_field(&all[i], key) {
            Some(v) => {
                found = Some(v);
            },
            None => {},
        }
        i += 1;
    }
    found
}

/// The description, name and version that the front matter of a document
/// gives, in this order.
pub fn parse_yaml_frontmatter(content: &str) -> (r: (Option<String>, Option<String>, Option<String>))
    ensures
        (opt_text(r.0), opt_text(r.1), opt_text(r.2)) == frontmatter(content@),
{
    let chars = chars_of(content);
    let all = split_lines(&chars);
    assert(rows(all@).len() == all@.len());
    if all.len() == 0 {
        return (None, None, None);
    }
    assert(rows(all@)[0] == all@[0]@);
    if !LineKind::Fence.test(&all[0]) {
        return (None, None, None);
    }
    let end = find_line(&all, 1, LineKind::Fence);
    if end >= all.len() {
        return (None, None, None);
    }
    let description = read_last(&all, 1, end, "description:");
    let name = read_last(&all, 1, end, "name:");
    let version = read_last(&all, 1, end, "version:");
    (description, name, version)
}

/// The text between the fences of a document that begins, after white space
/// at most, with `---`: the lines after the first one up to the next fence,
/// joined by line feeds. `None` where the document does not begin so or no
/// fence follows its first line.
pub open spec fn frontmatter_text(content: Seq<char>) -> Option<Seq<char>> {
    let all = lines(content);
    let end = next_line(all, 1, LineKind::Fence);
    if "---"@.is_prefix_of(trim_start(content, CharClass::Whitespace)) && end < all.len() {
        Some(join(all.subrange(1, end), "\n"@))
    } else {
        None
    }
}

/// The text between the fences of a document.
pub fn frontmatter_block(content: &str) -> (r: Option<String>)
    ensures
        opt_text(r) == frontmatter_text(content@),
{
    let chars = chars_of(content);
    let start = skip_leading(&chars, 0, chars.len(), CharClass::Whitespace);
    assert(chars@.subrange(0, chars.len() as int) == chars@);
    let head = slice_of(&chars, start, chars.len());
    assert(chars@.subrange(start as int, chars.len() as int) == chars@.skip(start as int));
    if !starts_with(&head, "---") {
        return None;
    }
    let all = split_lines(&chars);
    assert(rows(all@).len() == all@.len());
    if all.len() == 0 {
        return None;
    }
    let end = find_line(&all, 1, LineKind::Fence);
    if end >= all.len() {
        return None;
    }
    let sep = chars_of("\n");
    let block = join_range(&all, 1, end, &sep);
    Some(to_string(&block))
}

/// The most characters that a summary holds.
pub const SUMMARY_LIMIT: usize = 500;

/// The summary of a document without front matter: its first paragraph, that
/// is the lines from the first one with text up to the next blank line or
/// heading, joined by spaces and cut at `SUMMARY_LIMIT` characters.
pub open spec fn summary(content: Seq<char>) -> Seq<char> {
    let all = lines(content);
    let from = next_line(all, 0, LineKind::Text);
    let to = next_line(all, from, LineKind::Break);
    let text = join(all.subrange(from, to), " "@);
    if text.len() <= SUMMARY_LIMIT {
        text
    } else {
        text.take(SUMMARY_LIMIT as int)
    }
}

/// The summary of a document without front matter.
pub fn summarize(content: &str) -> (r: String)
    ensures
        r@ == summary(content@),
{
    let chars = chars_of(content);
    let all = split_lines(&chars);
    let from = find_line(&all, 0, LineKind::Text);
    let to = find_line(&all, from, LineKind::Break);
    let sep = chars_of(" ");
    let text = join_range(&all, from, to, &sep);
    assert(text@.take(text@.len() as int) == text@);
    prefix_string(&text, SUMMARY_LIMIT)
}

/// The first line with text of a document, headings and fences before it
/// passed over: the first line that is not blank, from the first line on that
/// is neither a heading nor a fence.
pub open spec fn first_text_line(content: Seq<char>) -> Option<Seq<char>> {
    let all = lines(content);
    let at = next_line(all, next_line(all, 0, LineKind::Plain), LineKind::Filled);
    if at < all.len() {
        Some(all[at])
    } else {
        None
    }
}

/// The first line with text of a document.
pub fn first_line_of_text(content: &str) -> (r: Option<String>)
    ensures
        opt_text(r) == first_text_line(content@),
{
    let chars = chars_of(content);
    let all = split_lines(&chars);
    assert(rows(all@).len() == all@.len());
    let from = find_line(&all, 0, LineKind::Plain);
    let at = find_line(&all, from, LineKind::Filled);
    if at < all.len() {
        assert(rows(all@)[at as int] == all@[at as int]@);
        Some(to_string(&all[at]))
    } else {
        None
    }
}

/// The author that a line names: where the line speaks of an author, in
/// whatever case, what follows its first colon, without white space and
/// without asterisks and backticks around it; `None` where that is empty.
pub open spec fn author_in(line: Seq<char>) -> Option<Seq<char>> {
    let colon = index_of_char(line, ':') as int;
    let name = trim(
        trim(line.skip(colon + 1), CharClass::Whitespace),
        CharClass::Either('*', '`'),
    );
    if contains_text(lowercase(line), "author"@) && colon < line.len() && name.len() > 0 {
        Some(name)
    } else {
        None
    }
}

/// The author that the first line names that names one, from line `from` on.
pub open spec fn first_author(all: Seq<Seq<char>>, from: int) -> Option<Seq<char>>
    decreases all.len() - from,
{
    if from >= all.len() {
        None
    } else {
        match author_in(all[from]) {
            Some(a) => Some(a),
            None => first_author(all, from + 1),
        }
    }
}

fn read_author(line: &Vec<char>) -> (r: Option<String>)
    ensures
        opt_text(r) == author_in(line@),
{
    let low = lowered(line);
    if !contains_literal(&low, "author") {
        return None;
    }
    let colon = skip_leading(line, 0, line.len(), CharClass::Except(':'));
    assert(line@.subrange(0, line.len() as int) == line@);
    if colon >= line.len() {
        return None;
    }
    let rest = slice_of(line, colon + 1, line.len());
    assert(line@.subrange(colon + 1, line.len() as int) == line@.skip(colon + 1));
    let a = trimmed(&rest, CharClass::Whitespace);
    let b = trimmed(&a, CharClass::Either('*', '`'));
    if b.len() > 0 {
        Some(to_string(&b))
    } else {
        None
    }
}

/// The author that a document names.
pub fn extract_author_from_md(content: &str) -> (r: Option<String>)
    ensures
        opt_text(r) == first_author(lines(content@), 0),
{
    let chars = chars_of(content);
    let all = split_lines(&chars);
    assert(rows(all@).len() == all@.len());
    let mut i: usize = 0;
    while i < all.len()
        invariant
            i <= all.len(),
            rows(all@) == lines(content@),
            rows(all@).len() == all@.len(),
            first_author(lines(content@), 0) == first_author(lines(content@), i as int),
        decreases all.len() - i,
    {
        assert(rows(all@)[i as int] == all@[i as int]@);
        match read_author(&all[i]) {
            Some(a) => {
                return Some(a);
            },
            None => {},
        }
        i += 1;
    }
    None
}

/// The pattern of a version number of three parts.
pub const VERSION_OF_THREE: &'static str = r"v?(\d+\.\d+\.\d+)";

/// The pattern of a version number of two parts.
pub const VERSION_OF_TWO: &'static str = r"v?(\d+\.\d+)";

/// What the first group of `pattern` takes in `text`; `None` also where the
/// pattern does not compile.
pub open spec fn group_of(pattern: Seq<char>, text: Seq<char>) -> Option<Seq<char>> {
    match compiled(pattern) {
        Some(re) => first_group(re, text),
        None => None,
    }
}

/// The version number in `text`: one of three parts where there is one, else
/// one of two parts.
pub open spec fn version_number(text: Seq<char>) -> Option<Seq<char>> {
    match group_of(VERSION_OF_THREE@, text) {
        Some(v) => Some(v),
        None => group_of(VERSION_OF_TWO@, text),
    }
}

/// The version that a line gives: its version number, where the line speaks
/// of a version, in whatever case.
pub open spec fn version_in(line: Seq<char>) -> Option<Seq<char>> {
    if contains_text(lowercase(line), "version"@) {
        version_number(line)
    } else {
        None
    }
}

/// The version that the first line gives that gives one, from line `from` on.
pub open spec fn first_version(all: Seq<Seq<char>>, from: int) -> Option<Seq<char>>
    decreases all.len() - from,
{
    if from >= all.len() {
        None
    } else {
        match version_in(all[from]) {
            Some(v) => Some(v),
            None => first_version(all, from + 1),
        }
    }
}

fn capture_with(pattern: &str, text: &str) -> (r: Option<String>)
    ensures
        opt_text(r) == group_of(pattern@, text@),
{
    match compile(pattern) {
        Ok(re) => capture_first(&re, text),
        Err(_) => None,
    }
}

/// The version number in `text`.
pub fn extract_version_number(text: &str) -> (r: Option<String>)
    ensures
        opt_text(r) == version_number(text@),
{
    match capture_with(VERSION_OF_THREE, text) {
        Some(v) => Some(v),
        None => capture_with(VERSION_OF_TWO, text),
    }
}

/// The version that a document gives.
pub fn extract_version_from_md(content: &str) -> (r: Option<String>)
    ensures
        opt_text(r) == first_version(lines(content@), 0),
{
    let chars = chars_of(content);
    let all = split_lines(&chars);
    assert(rows(all@).len() == all@.len());
    let mut i: usize = 0;
    while i < all.len()
        invariant
            i <= all.len(),
            rows(all@) == lines(content@),
            rows(all@).len() == all@.len(),
            first_version(lines(content@), 0) == first_version(lines(content@), i as int),
        decreases all.len() - i,
    {
        assert(rows(all@)[i as int] == all@[i as int]@);
        let low = lowered(&all[i]);
        if contains_literal(&low, "version") {
            let line = to_string(&all[i]);
            match extract_version_number(line.as_str()) {
                Some(v) => {
                    return Some(v);
                },
                None => {},
            }
        }
        i += 1;
    }
    None
}

} // verus!
