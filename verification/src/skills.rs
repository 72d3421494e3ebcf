//! Installed skills, as they are listed.

use crate::markdown::{
    extract_author_from_md, extract_version_from_md, first_author, first_line_of_text,
    first_text_line, first_version, frontmatter, parse_yaml_frontmatter, summarize, summary,
};
use crate::text::{chars_of, is_literal, lines, opt_text};
use vstd::prelude::*;

verus! {

/// `a` where it holds something, else `b`.
pub open spec fn or_else(a: Option<Seq<char>>, b: Option<Seq<char>>) -> Option<Seq<char>> {
    match a {
        Some(x) => Some(x),
        None => b,
    }
}

fn first_of(a: Option<String>, b: Option<String>) -> (r: Option<String>)
    ensures
        opt_text(r) == or_else(opt_text(a), opt_text(b)),
{
    match a {
        Some(x) => Some(x),
        None => b,
    }
}

fn copy_of(a: &Option<String>) -> (r: Option<String>)
    ensures
        opt_text(r) == opt_text(*a),
{
    match a {
        Some(x) => Some(x.clone()),
        None => None,
    }
}

/// What is recorded beside an installed skill about where it came from.
#[derive(Clone, Debug)]
pub struct SkillMetadata {
    /// `"marketplace"`, `"github"` or `"local"`.
    pub source: String,
    pub source_url: Option<String>,
    /// When the skill was installed, in milliseconds since the epoch.
    pub install_date: u64,
    pub commit_hash: Option<String>,
    pub version: Option<String>,
    pub author: Option<String>,
    pub description: Option<String>,
    pub description_zh: Option<String>,
    pub description_en: Option<String>,
}

/// What a [`SkillMetadata`] holds.
pub struct MetadataView {
    pub source: Seq<char>,
    pub source_url: Option<Seq<char>>,
    pub install_date: u64,
    pub commit_hash: Option<Seq<char>>,
    pub version: Option<Seq<char>>,
    pub author: Option<Seq<char>>,
    pub description: Option<Seq<char>>,
    pub description_zh: Option<Seq<char>>,
    pub description_en: Option<Seq<char>>,
}

impl View for SkillMetadata {
    type V = MetadataView;

    open spec fn view(&self) -> MetadataView {
        MetadataView {
            source: self.source@,
            source_url: opt_text(self.source_url),
            install_date: self.install_date,
            commit_hash: opt_text(self.commit_hash),
            version: opt_text(self.version),
            author: opt_text(self.author),
            description: opt_text(self.description),
            description_zh: opt_text(self.description_zh),
            description_en: opt_text(self.description_en),
        }
    }
}

impl SkillMetadata {
    /// The record of a skill that was fetched from `url` at the time `now`.
    pub fn github(url: &str, now: u64, commit_hash: Option<String>) -> (m: SkillMetadata)
        ensures
            m@ == (MetadataView {
                source: "github"@,
                source_url: Some(url@),
                install_date: now,
                commit_hash: opt_text(commit_hash),
                version: None,
                author: None,
                description: None,
                description_zh: None,
                description_en: None,
            }),
    {
        SkillMetadata {
            source: "github".to_owned(),
            source_url: Some(url.to_owned()),
            install_date: now,
            commit_hash,
            version: None,
            author: None,
            description: None,
            description_zh: None,
            description_en: None,
        }
    }

    /// The record of a skill that was copied from a local directory at the time `now`.
    pub fn local(now: u64) -> (m: SkillMetadata)
        ensures
            m@ == (MetadataView {
                source: "local"@,
                source_url: None,
                install_date: now,
                commit_hash: None,
                version: None,
                author: None,
                description: None,
                description_zh: None,
                description_en: None,
            }),
    {
        SkillMetadata {
            source: "local".to_owned(),
            source_url: None,
            install_date: now,
            commit_hash: None,
            version: None,
            author: None,
            description: None,
            description_zh: None,
            description_en: None,
        }
    }
}

/// An installed skill with all that is known of it.
#[derive(Debug)]
pub struct SkillInfo {
    pub name: String,
    pub description: String,
    pub description_zh: Option<String>,
    pub description_en: Option<String>,
    pub path: String,
    pub skill_type: String,
    pub version: Option<String>,
    pub author: Option<String>,
    pub source: Option<String>,
    pub source_url: Option<String>,
    pub install_date: Option<u64>,
    pub commit_hash: Option<String>,
}

/// What a [`SkillInfo`] holds.
pub struct SkillInfoView {
    pub name: Seq<char>,
    pub description: Seq<char>,
    pub description_zh: Option<Seq<char>>,
    pub description_en: Option<Seq<char>>,
    pub path: Seq<char>,
    pub skill_type: Seq<char>,
    pub version: Option<Seq<char>>,
    pub author: Option<Seq<char>>,
    pub source: Option<Seq<char>>,
    pub source_url: Option<Seq<char>>,
    pub install_date: Option<u64>,
    pub commit_hash: Option<Seq<char>>,
}

impl View for SkillInfo {
    type V = SkillInfoView;

    open spec fn view(&self) -> SkillInfoView {
        SkillInfoView {
            name: self.name@,
            description: self.description@,
            description_zh: opt_text(self.description_zh),
            description_en: opt_text(self.description_en),
            path: self.path@,
            skill_type: self.skill_type@,
            version: opt_text(self.version),
            author: opt_text(self.author),
            source: opt_text(self.source),
            source_url: opt_text(self.source_url),
            install_date: self.install_date,
            commit_hash: opt_text(self.commit_hash),
        }
    }
}

/// What of a metadata record goes into a listing; nothing where there is no record.
pub open spec fn recorded(metadata: Option<MetadataView>) -> MetadataView {
    match metadata {
        Some(m) => m,
        None => MetadataView {
            source: Seq::<char>::empty(),
            source_url: None,
            install_date: 0,
            commit_hash: None,
            version: None,
            author: None,
            description: None,
            description_zh: None,
            description_en: None,
        },
    }
}

/// The description of a skill: that of its front matter, else the summary of
/// its document.
pub open spec fn description_of(content: Seq<char>) -> Seq<char> {
    match frontmatter(content).0 {
        Some(d) => d,
        None => summary(content),
    }
}

/// The listing of a skill, from its document, the name and path of its
/// directory, and the record beside it.
///
/// The document goes before the record: name, version and author are taken
/// from the record, or the directory, only where the document gives none. The
/// descriptions in two languages are those of the record, and the
/// document's description where the record has none.
pub open spec fn skill_info_for(
    content: Seq<char>,
    dir_name: Seq<char>,
    dir_path: Seq<char>,
    skill_type: Seq<char>,
    metadata: Option<MetadataView>,
) -> SkillInfoView {
    let front = frontmatter(content);
    let all = lines(content);
    let m = recorded(metadata);
    SkillInfoView {
        name: match front.1 {
            Some(n) => n,
            None => dir_name,
        },
        description: description_of(content),
        description_zh: or_else(m.description_zh, Some(description_of(content))),
        description_en: or_else(m.description_en, Some(description_of(content))),
        path: dir_path,
        skill_type,
        version: or_else(or_else(front.2, first_version(all, 0)), m.version),
        author: or_else(first_author(all, 0), m.author),
        source: match metadata {
            Some(r) => Some(r.source),
            None => None,
        },
        source_url: m.source_url,
        install_date: match metadata {
            Some(r) => Some(r.install_date),
            None => None,
        },
        commit_hash: m.commit_hash,
    }
}

/// The view of an optional metadata record.
pub open spec fn opt_metadata(m: Option<&SkillMetadata>) -> Option<MetadataView> {
    match m {
        Some(r) => Some(r@),
        None => None,
    }
}

/// The listing of a skill, from its document, the name and path of its
/// directory, and the record beside it.
pub fn parse_skill_md(
    content: &str,
    dir_name: &str,
    dir_path: &str,
    skill_type: &str,
    metadata: Option<&SkillMetadata>,
) -> (info: SkillInfo)
    ensures
        info@ == skill_info_for(
            content@,
            dir_name@,
            dir_path@,
            skill_type@,
            opt_metadata(metadata),
        ),
{
    let (front_description, front_name, front_version) = parse_yaml_frontmatter(content);
    let description = match front_description {
        Some(d) => d,
        None => summarize(content),
    };
    let name = match front_name {
        Some(n) => n,
        None => dir_name.to_owned(),
    };
    let version = match front_version {
        Some(v) => Some(v),
        None => extract_version_from_md(content),
    };
    let author = extract_author_from_md(content);
    match metadata {
        Some(m) => SkillInfo {
            name,
            description_zh: first_of(copy_of(&m.description_zh), Some(description.clone())),
            description_en: first_of(copy_of(&m.description_en), Some(description.clone())),
            description,
            path: dir_path.to_owned(),
            skill_type: skill_type.to_owned(),
            version: first_of(version, copy_of(&m.version)),
            author: first_of(author, copy_of(&m.author)),
            source: Some(m.source.clone()),
            source_url: copy_of(&m.source_url),
            install_date: Some(m.install_date),
            commit_hash: copy_of(&m.commit_hash),
        },
        None => SkillInfo {
            name,
            description_zh: Some(description.clone()),
            description_en: Some(description.clone()),
            description,
            path: dir_path.to_owned(),
            skill_type: skill_type.to_owned(),
            version,
            author,
            source: None,
            source_url: None,
            install_date: None,
            commit_hash: None,
        },
    }
}

/// What the front matter of a skill's document says of the skill.
#[derive(Clone, Debug)]
pub struct SkillFrontmatter {
    pub name: Option<String>,
    pub description: Option<String>,
    pub description_zh: Option<String>,
    pub description_en: Option<String>,
}

/// A skill as it is listed.
#[derive(Clone, Debug)]
pub struct Skill {
    pub name: String,
    pub location: String,
    pub description: Option<String>,
    pub description_zh: Option<String>,
    pub description_en: Option<String>,
    pub path: String,
    /// `"system"` or `"project"`.
    pub skill_type: String,
}

/// What a [`Skill`] holds.
pub struct SkillView {
    pub name: Seq<char>,
    pub location: Seq<char>,
    pub description: Option<Seq<char>>,
    pub description_zh: Option<Seq<char>>,
    pub description_en: Option<Seq<char>>,
    pub path: Seq<char>,
    pub skill_type: Seq<char>,
}

impl View for Skill {
    type V = SkillView;

    open spec fn view(&self) -> SkillView {
        SkillView {
            name: self.name@,
            location: self.location@,
            description: opt_text(self.description),
            description_zh: opt_text(self.description_zh),
            description_en: opt_text(self.description_en),
            path: self.path@,
            skill_type: self.skill_type@,
        }
    }
}

/// The views of a sequence of skills.
pub open spec fn skill_views(v: Seq<Skill>) -> Seq<SkillView> {
    v.map_values(|s: Skill| s@)
}

/// The skill found in a directory, from the directory's name and path, its
/// document where that could be read, and the front matter of the document
/// where it has one that could be parsed.
///
/// The front matter goes first. Without a name there, the skill is named
/// after its directory; without a description there, the first line with
/// text of the document describes it.
pub open spec fn skill_for(
    dir_name: Seq<char>,
    dir_path: Seq<char>,
    skill_type: Seq<char>,
    content: Option<Seq<char>>,
    front: Option<SkillFrontmatter>,
) -> SkillView {
    SkillView {
        name: match front {
            Some(f) => match f.name {
                Some(n) => n@,
                None => dir_name,
            },
            None => dir_name,
        },
        location: skill_type,
        description: or_else(
            match front {
                Some(f) => opt_text(f.description),
                None => None,
            },
            match content {
                Some(c) => first_text_line(c),
                None => None,
            },
        ),
        description_zh: match front {
            Some(f) => opt_text(f.description_zh),
            None => None,
        },
        description_en: match front {
            Some(f) => opt_text(f.description_en),
            None => None,
        },
        path: dir_path,
        skill_type,
    }
}

/// The skill found in a directory.
pub fn skill_from_parts(
    dir_name: &str,
    dir_path: &str,
    skill_type: &str,
    content: Option<&str>,
    front: Option<&SkillFrontmatter>,
) -> (skill: Skill)
    ensures
        skill@ == skill_for(
            dir_name@,
            dir_path@,
            skill_type@,
            match content {
                Some(c) => Some(c@),
                None => None,
            },
            match front {
                Some(f) => Some(*f),
                None => None,
            },
        ),
{
    let fallback = match content {
        Some(c) => first_line_of_text(c),
        None => None,
    };
    match front {
        Some(f) => Skill {
            name: match &f.name {
                Some(n) => n.clone(),
                None => dir_name.to_owned(),
            },
            location: skill_type.to_owned(),
            description: first_of(copy_of(&f.description), fallback),
            description_zh: copy_of(&f.description_zh),
            description_en: copy_of(&f.description_en),
            path: dir_path.to_owned(),
            skill_type: skill_type.to_owned(),
        },
        None => Skill {
            name: dir_name.to_owned(),
            location: skill_type.to_owned(),
            description: fallback,
            description_zh: None,
            description_en: None,
            path: dir_path.to_owned(),
            skill_type: skill_type.to_owned(),
        },
    }
}

impl Skill {
    /// A copy of this skill.
    pub fn duplicate(&self) -> (s: Skill)
        ensures
            s@ == self@,
    {
        Skill {
            name: self.name.clone(),
            location: self.location.clone(),
            description: copy_of(&self.description),
            description_zh: copy_of(&self.description_zh),
            description_en: copy_of(&self.description_en),
            path: self.path.clone(),
            skill_type: self.skill_type.clone(),
        }
    }
}

/// Those of the first `n` skills whose type is `kind`, in order.
pub open spec fn of_type(all: Seq<SkillView>, n: nat, kind: Seq<char>) -> Seq<SkillView>
    decreases n,
{
    if n == 0 {
        Seq::<SkillView>::empty()
    } else if all[n - 1].skill_type == kind {
        of_type(all, (n - 1) as nat, kind).push(all[n - 1])
    } else {
        of_type(all, (n - 1) as nat, kind)
    }
}

/// The skills of one type among `all`, in order.
pub fn skills_of_type(all: &Vec<Skill>, kind: &str) -> (r: Vec<Skill>)
    ensures
        skill_views(r@) == of_type(skill_views(all@), all@.len(), kind@),
{
    let mut out: Vec<Skill> = Vec::new();
    let ghost views = skill_views(all@);
    assert(skill_views(out@) =~= Seq::<SkillView>::empty());
    let mut i: usize = 0;
    while i < all.len()
        invariant
            i <= all.len(),
            views == skill_views(all@),
            skill_views(out@) == of_type(views, i as nat, kind@),
        decreases all.len() - i,
    {
        let ghost before = skill_views(out@);
        assert(views[i as int] == all@[i as int]@);
        let t = chars_of(all[i].skill_type.as_str());
        if is_literal(&t, kind) {
            out.push(all[i].duplicate());
            assert(skill_views(out@) =~= before.push(all@[i as int]@));
        }
        i += 1;
    }
    out
}

/// The skills that were found, by type.
#[derive(Clone, Debug)]
pub struct ScanSkillsResponse {
    pub system_skills: Vec<Skill>,
    pub project_skills: Vec<Skill>,
}

/// The skills that were found, sorted into those of the system and those of
/// projects; a skill of neither type is in neither list.
pub fn scan_skills(all: &Vec<Skill>) -> (r: ScanSkillsResponse)
    ensures
        skill_views(r.system_skills@) == of_type(skill_views(all@), all@.len(), "system"@),
        skill_views(r.project_skills@) == of_type(skill_views(all@), all@.len(), "project"@),
{
    ScanSkillsResponse {
        system_skills: skills_of_type(all, "system"),
        project_skills: skills_of_type(all, "project"),
    }
}

} // verus!
