//! Which files of a package are looked into.
//!
//! A walk of the package's directory hands over one [`FileEntry`] per entry it
//! met. The functions here decide, from an entry's path alone, whether the
//! entry is left out, flagged as a binary, or read line by line.

use crate::text::{
    chars_of, contains_literal, contains_text, is_literal, lowercase, lowered, same_chars,
    skip_trailing, slice_of, texts, trailing, uppercase, uppered, CharClass,
};
use vstd::prelude::*;

verus! {

/// Extensions of executable binaries, which disqualify a package outright.
pub const BLOCKED_BINARY_EXTS: [&'static str; 9] = [
    "exe",
    "dll",
    "so",
    "dylib",
    "jar",
    "msi",
    "scr",
    "com",
    "pif",
];

/// Extensions of the text, script and configuration files that are read.
pub const SCANNABLE_EXTS: [&'static str; 43] = [
    "md",
    "txt",
    "sh",
    "bash",
    "zsh",
    "fish",
    "py",
    "js",
    "ts",
    "jsx",
    "tsx",
    "mjs",
    "cjs",
    "rb",
    "pl",
    "php",
    "lua",
    "r",
    "yaml",
    "yml",
    "json",
    "toml",
    "xml",
    "ini",
    "cfg",
    "conf",
    "ps1",
    "psm1",
    "bat",
    "cmd",
    "vbs",
    "wsf",
    "c",
    "cpp",
    "h",
    "hpp",
    "java",
    "go",
    "rs",
    "swift",
    "sql",
    "dockerfile",
    "makefile",
];

/// One entry that a walk of the package met.
#[derive(Clone, Debug)]
pub struct FileEntry {
    /// The entry's path, as it is reported.
    pub path: String,
    /// The components of that path, outermost first; the last is the entry's name.
    pub components: Vec<String>,
    /// Whether the entry is a regular file.
    pub is_file: bool,
    /// The bytes of the file; `None` where it was not or could not be read.
    pub content: Option<Vec<u8>>,
}

/// What a [`FileEntry`] holds.
pub struct EntryView {
    pub path: Seq<char>,
    pub components: Seq<Seq<char>>,
    pub is_file: bool,
    pub content: Option<Seq<u8>>,
}

impl View for FileEntry {
    type V = EntryView;

    open spec fn view(&self) -> EntryView {
        EntryView {
            path: self.path@,
            components: texts(self.components@),
            is_file: self.is_file,
            content: match self.content {
                Some(bytes) => Some(bytes@),
                None => None,
            },
        }
    }
}

/// The views of a sequence of entries.
pub open spec fn entry_views(entries: Seq<FileEntry>) -> Seq<EntryView> {
    entries.map_values(|e: FileEntry| e@)
}

/// What is done with an entry.
#[derive(Clone, Copy, Debug, PartialEq, Eq, Structural)]
pub enum FileClass {
    /// It lies in a hidden, dependency or build directory, or is hidden itself.
    Excluded,
    /// It is no regular file.
    NotAFile,
    /// It is an executable binary: flagged, and never read.
    BlockedBinary,
    /// Its lines are matched against the rules.
    Scannable,
    /// It is of no kind that is read.
    Skipped,
}

/// Whether `word` is one of `list`.
pub open spec fn listed(list: Seq<&'static str>, word: Seq<char>) -> bool {
    exists|i: int| 0 <= i < list.len() && (#[trigger] list[i])@ == word
}

/// Whether a path component prunes everything below it: a hidden name, or a
/// dependency, cache or build directory.
pub open spec fn is_pruned_name(name: Seq<char>) -> bool {
    (name.len() > 0 && name[0] == '.') || name == "node_modules"@ || name == "__pycache__"@ || name
        == "target"@
}

/// Whether some component of the path prunes the entry.
pub open spec fn is_excluded(components: Seq<Seq<char>>) -> bool {
    exists|i: int| 0 <= i < components.len() && is_pruned_name(#[trigger] components[i])
}

/// The entry's name: the last component of its path.
pub open spec fn file_name(components: Seq<Seq<char>>) -> Seq<char> {
    if components.len() == 0 {
        Seq::<char>::empty()
    } else {
        components.last()
    }
}

/// What follows the last dot of `name`; empty where there is no dot or the
/// only dot stands first.
pub open spec fn extension(name: Seq<char>) -> Seq<char> {
    let after = trailing(name, CharClass::Except('.')) as int;
    if name.len() - after <= 1 {
        Seq::<char>::empty()
    } else {
        name.skip(name.len() - after)
    }
}

/// What is done with an entry of the given path.
pub open spec fn class_of(components: Seq<Seq<char>>, is_file: bool) -> FileClass {
    let name = file_name(components);
    let ext = lowercase(extension(name));
    if is_excluded(components) {
        FileClass::Excluded
    } else if !is_file {
        FileClass::NotAFile
    } else if listed(BLOCKED_BINARY_EXTS@, ext) {
        FileClass::BlockedBinary
    } else if listed(SCANNABLE_EXTS@, ext) || contains_text(uppercase(name), "SKILL"@)
        || ext.len() == 0 {
        FileClass::Scannable
    } else {
        FileClass::Skipped
    }
}

fn in_list(list: &[&'static str], word: &Vec<char>) -> (b: bool)
    ensures
        b == listed(list@, word@),
{
    let mut i: usize = 0;
    while i < list.len()
        invariant
            i <= list.len(),
            forall|k: int| 0 <= k < i ==> (#[trigger] list@[k])@ != word@,
        decreases list.len() - i,
    {
        let w = chars_of(list[i]);
        if same_chars(&w, word) {
            return true;
        }
        i += 1;
    }
    false
}

/// Whether a path component prunes everything below it.
pub fn prunes(name: &Vec<char>) -> (b: bool)
    ensures
        b == is_pruned_name(name@),
{
    (name.len() > 0 && name[0] == '.') || is_literal(name, "node_modules") || is_literal(
        name,
        "__pycache__",
    ) || is_literal(name, "target")
}

/// What follows the last dot of `name`.
pub fn extension_of(name: &Vec<char>) -> (ext: Vec<char>)
    ensures
        ext@ == extension(name@),
{
    let start = skip_trailing(name, 0, name.len(), CharClass::Except('.'));
    assert(name@.subrange(0, name.len() as int) == name@);
    if start <= 1 {
        Vec::new()
    } else {
        let ext = slice_of(name, start, name.len());
        assert(name@.subrange(start as int, name.len() as int) == name@.skip(start as int));
        ext
    }
}

/// What is done with an entry of the given path.
pub fn classify(components: &Vec<String>, is_file: bool) -> (c: FileClass)
    ensures
        c == class_of(texts(components@), is_file),
{
    let ghost parts = texts(components@);
    let mut i: usize = 0;
    while i < components.len()
        invariant
            i <= components.len(),
            parts == texts(components@),
            forall|k: int| 0 <= k < i ==> !is_pruned_name(#[trigger] parts[k]),
        decreases components.len() - i,
    {
        let part = chars_of(components[i].as_str());
        assert(part@ == parts[i as int]);
        if prunes(&part) {
            return FileClass::Excluded;
        }
        i += 1;
    }
    if !is_file {
        return FileClass::NotAFile;
    }
    let name = if components.len() == 0 {
        Vec::new()
    } else {
        chars_of(components[components.len() - 1].as_str())
    };
    assert(name@ == file_name(parts));
    let raw = extension_of(&name);
    let ext = lowered(&raw);
    if in_list(BLOCKED_BINARY_EXTS.as_slice(), &ext) {
        return FileClass::BlockedBinary;
    }
    let shouted = uppered(&name);
    if in_list(SCANNABLE_EXTS.as_slice(), &ext) || contains_literal(&shouted, "SKILL")
        || ext.len() == 0 {
        FileClass::Scannable
    } else {
        FileClass::Skipped
    }
}

impl FileEntry {
    /// What is done with this entry.
    pub fn class(&self) -> (c: FileClass)
        ensures
            c == class_of(self@.components, self@.is_file),
    {
        classify(&self.components, self.is_file)
    }
}

} // verus!
