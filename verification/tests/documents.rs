use skills_manager::markdown::{
    extract_author_from_md, extract_version_from_md, extract_version_number, first_line_of_text,
    frontmatter_block, parse_yaml_frontmatter, read_field, summarize,
};
use skills_manager::skills::{
    parse_skill_md, scan_skills, skill_from_parts, skills_of_type, Skill, SkillFrontmatter,
    SkillMetadata,
};
use skills_manager::text::{chars_of, split_lines, split_on, to_string, trimmed, CharClass};

fn s(x: &str) -> Option<String> {
    Some(x.to_string())
}

fn lines_of(text: &str) -> Vec<String> {
    split_lines(&chars_of(text)).iter().map(|l| to_string(l)).collect()
}

#[test]
fn lines_are_split_as_the_standard_library_splits_them() {
    for text in [
        "", "a", "a\n", "a\nb", "a\r\nb\r\n", "\n", "\n\n", "a\r", "a\r\n\r\n", "\r\n", "a\n\rb",
        "x\r\r\ny", "é\nü\n", "one\ntwo\nthree",
    ] {
        let expected: Vec<String> = text.lines().map(|l| l.to_string()).collect();
        assert_eq!(lines_of(text), expected, "for {:?}", text);
    }
}

#[test]
fn splitting_on_a_character() {
    let parts = |t: &str| -> Vec<String> {
        split_on(&chars_of(t), '/').iter().map(|p| to_string(p)).collect()
    };
    for text in ["", "a", "a/b", "/a", "a/", "//", "https://github.com/o/r"] {
        let expected: Vec<String> = text.split('/').map(|p| p.to_string()).collect();
        assert_eq!(parts(text), expected, "for {:?}", text);
    }
}

#[test]
fn trimming_white_space() {
    for text in ["", " ", "  a  ", "\t\na b\r\n", "\u{a0}x\u{2003}", "\u{200b}x", "x", "\u{85}y\u{1680}"] {
        let got = to_string(&trimmed(&chars_of(text), CharClass::Whitespace));
        assert_eq!(got, text.trim(), "for {:?}", text);
    }
}

#[test]
fn trimming_given_characters() {
    let quote = |t: &str| to_string(&trimmed(&chars_of(t), CharClass::Only('"')));
    assert_eq!(quote("\"\"a\"b\"\""), "a\"b");
    assert_eq!(quote("\"\""), "");
    let marks = |t: &str| to_string(&trimmed(&chars_of(t), CharClass::Either('*', '`')));
    assert_eq!(marks("**`Ann`**"), "Ann");
    assert_eq!(marks("*`*"), "");
}

#[test]
fn frontmatter_fields() {
    let doc = "---\nname: demo\ndescription: \"A demo skill\"\nversion: '1.2.3'\n---\n# Demo\n";
    assert_eq!(parse_yaml_frontmatter(doc), (s("A demo skill"), s("demo"), s("1.2.3")));
}

#[test]
fn frontmatter_needs_both_fences() {
    assert_eq!(parse_yaml_frontmatter(""), (None, None, None));
    assert_eq!(parse_yaml_frontmatter("name: x\n---\n"), (None, None, None));
    assert_eq!(parse_yaml_frontmatter("---\nname: x\n"), (None, None, None));
    assert_eq!(parse_yaml_frontmatter("\n---\nname: x\n---\n"), (None, None, None));
    assert_eq!(parse_yaml_frontmatter("  ---  \nname: x\n ---\n"), (None, s("x"), None));
}

#[test]
fn frontmatter_ends_at_the_first_closing_fence() {
    let doc = "---\nname: a\n---\nname: b\n---\n";
    assert_eq!(parse_yaml_frontmatter(doc), (None, s("a"), None));
}

#[test]
fn frontmatter_last_value_wins_and_empty_values_are_passed_over() {
    let doc = "---\nname: first\nname: second\nname:\nname: \"\"\ndescription:   \n---\n";
    assert_eq!(parse_yaml_frontmatter(doc), (None, s("second"), None));
}

#[test]
fn frontmatter_field_details() {
    assert_eq!(read_field(&chars_of("  name:  'x y'  "), "name:"), s("x y"));
    assert_eq!(read_field(&chars_of("name:name:z"), "name:"), s("z"));
    assert_eq!(read_field(&chars_of("name: \"'q'\""), "name:"), s("q"));
    assert_eq!(read_field(&chars_of("name: '\"q\"'"), "name:"), s("\"q\""));
    assert_eq!(read_field(&chars_of("Name: x"), "name:"), None);
    assert_eq!(read_field(&chars_of("names: x"), "name:"), None);
    assert_eq!(read_field(&chars_of("name : x"), "name:"), None);
}

#[test]
fn frontmatter_block_is_framed() {
    assert_eq!(frontmatter_block("---\nname: x\ndescription: y\n---\nbody\n"), s("name: x\ndescription: y"));
    assert_eq!(frontmatter_block("---\n---\n"), s(""));
    assert_eq!(frontmatter_block("\n\n---\nname: x\n---\n"), s(""));
    assert_eq!(frontmatter_block("  ---\nname: x\nmore\n---\n"), s("name: x\nmore"));
    assert_eq!(frontmatter_block("--- title\na: 1\n---\n"), s("a: 1"));
    assert_eq!(frontmatter_block("---\nname: x\n"), None);
    assert_eq!(frontmatter_block("# T\n---\nname: x\n---\n"), None);
    assert_eq!(frontmatter_block(""), None);
    assert_eq!(frontmatter_block("---"), None);
}

#[test]
fn version_numbers() {
    assert_eq!(extract_version_number("Version: 1.0.0"), s("1.0.0"));
    assert_eq!(extract_version_number("v2.10.3-beta"), s("2.10.3"));
    assert_eq!(extract_version_number("release 3.4"), s("3.4"));
    assert_eq!(extract_version_number("1.2 then 4.5.6"), s("4.5.6"));
    assert_eq!(extract_version_number("version 7"), None);
    assert_eq!(extract_version_number(""), None);
}

#[test]
fn version_of_a_document() {
    assert_eq!(extract_version_from_md("# T\nrelease 9.9.9\n**VERSION**: v1.4\n"), s("1.4"));
    assert_eq!(extract_version_from_md("version: none\nVersion 2.0.1\n"), s("2.0.1"));
    assert_eq!(extract_version_from_md("1.2.3\n"), None);
    assert_eq!(extract_version_from_md(""), None);
}

#[test]
fn author_of_a_document() {
    assert_eq!(extract_author_from_md("# T\n**Author**: `Ann Lee`\n"), s("Ann Lee"));
    assert_eq!(extract_author_from_md("AUTHOR: bob\nauthor: carol\n"), s("bob"));
    assert_eq!(extract_author_from_md("author\nauthors: * \nAuthor:: dee*\n"), s(": dee"));
    assert_eq!(extract_author_from_md("writer: x\n"), None);
    assert_eq!(extract_author_from_md("the author is unknown\n"), None);
    assert_eq!(extract_author_from_md("author:\n"), None);
}

#[test]
fn summary_is_the_first_paragraph() {
    assert_eq!(summarize("# Title\n\nFirst line\nsecond line\n\nNext paragraph\n"), "First line second line");
    assert_eq!(summarize("---\n# T\n\n  \ntext\n# H\nmore\n"), "text");
    assert_eq!(summarize("# only a title\n"), "");
    assert_eq!(summarize(""), "");
    assert_eq!(summarize("--- x\nreal\n"), "real");
}

#[test]
fn summary_is_cut_at_five_hundred_characters() {
    let line = "é".repeat(300);
    let doc = format!("{}\n{}\n", line, line);
    let got = summarize(&doc);
    assert_eq!(got.chars().count(), 500);
    assert_eq!(got, format!("{} {}", line, "é".repeat(199)));
}

#[test]
fn first_line_with_text() {
    assert_eq!(first_line_of_text("# T\n---\n\n  hello  \nworld\n"), s("  hello  "));
    assert_eq!(first_line_of_text("# T\n\n# U\nx\n"), s("# U"));
    assert_eq!(first_line_of_text("# T\n---\n"), None);
    assert_eq!(first_line_of_text(""), None);
}

fn metadata() -> SkillMetadata {
    SkillMetadata {
        source: "marketplace".to_string(),
        source_url: s("https://example.com/x"),
        install_date: 1700000000000,
        commit_hash: s("abc"),
        version: s("0.0.1"),
        author: s("recorded"),
        description: s("ignored"),
        description_zh: s("中文"),
        description_en: None,
    }
}

#[test]
fn listing_prefers_the_document_to_the_record() {
    let doc = "---\nname: named\ndescription: described\nversion: 3.0\n---\nAuthor: me\n";
    let m = metadata();
    let info = parse_skill_md(doc, "dir", "/skills/dir", "system", Some(&m));
    assert_eq!(info.name, "named");
    assert_eq!(info.description, "described");
    assert_eq!(info.description_zh, s("中文"));
    assert_eq!(info.description_en, s("described"));
    assert_eq!(info.path, "/skills/dir");
    assert_eq!(info.skill_type, "system");
    assert_eq!(info.version, s("3.0"));
    assert_eq!(info.author, s("me"));
    assert_eq!(info.source, s("marketplace"));
    assert_eq!(info.source_url, s("https://example.com/x"));
    assert_eq!(info.install_date, Some(1700000000000));
    assert_eq!(info.commit_hash, s("abc"));
}

#[test]
fn listing_falls_back_to_the_record_and_the_directory() {
    let m = metadata();
    let info = parse_skill_md("# Title\n\nJust text.\n", "dir", "/p", "project", Some(&m));
    assert_eq!(info.name, "dir");
    assert_eq!(info.description, "Just text.");
    assert_eq!(info.version, s("0.0.1"));
    assert_eq!(info.author, s("recorded"));
    let bare = parse_skill_md("# Title\n\nJust text.\nversion 1.1\n", "dir", "/p", "project", None);
    assert_eq!(bare.description, "Just text. version 1.1");
    assert_eq!(bare.description_zh, s("Just text. version 1.1"));
    assert_eq!(bare.description_en, s("Just text. version 1.1"));
    assert_eq!(bare.version, s("1.1"));
    assert_eq!(bare.author, None);
    assert_eq!(bare.source, None);
    assert_eq!(bare.install_date, None);
}

#[test]
fn metadata_records() {
    let g = SkillMetadata::github("https://github.com/o/r", 5, s("deadbeef"));
    assert_eq!(g.source, "github");
    assert_eq!(g.source_url, s("https://github.com/o/r"));
    assert_eq!(g.install_date, 5);
    assert_eq!(g.commit_hash, s("deadbeef"));
    assert_eq!((g.version, g.author, g.description), (None, None, None));
    let l = SkillMetadata::local(9);
    assert_eq!(l.source, "local");
    assert_eq!(l.source_url, None);
    assert_eq!(l.install_date, 9);
    assert_eq!(l.commit_hash, None);
}

#[test]
fn skill_from_its_parts() {
    let front = SkillFrontmatter {
        name: s("pretty"),
        description: None,
        description_zh: s("中"),
        description_en: s("en"),
    };
    let skill = skill_from_parts("dir", "/s/dir", "system", Some("# T\n\nfirst\n"), Some(&front));
    assert_eq!(skill.name, "pretty");
    assert_eq!(skill.location, "system");
    assert_eq!(skill.skill_type, "system");
    assert_eq!(skill.description, s("first"));
    assert_eq!(skill.description_zh, s("中"));
    assert_eq!(skill.description_en, s("en"));
    assert_eq!(skill.path, "/s/dir");
    let plain = skill_from_parts("dir", "/s/dir", "project", None, None);
    assert_eq!(plain.name, "dir");
    assert_eq!(plain.description, None);
    let described = SkillFrontmatter { name: None, description: s("d"), description_zh: None, description_en: None };
    let third = skill_from_parts("dir", "/s/dir", "project", Some("x\n"), Some(&described));
    assert_eq!(third.name, "dir");
    assert_eq!(third.description, s("d"));
}

fn skill(name: &str, kind: &str) -> Skill {
    skill_from_parts(name, "/p", kind, None, None)
}

#[test]
fn skills_are_sorted_by_type() {
    let all = vec![skill("a", "system"), skill("b", "project"), skill("c", "other"), skill("d", "system")];
    let r = scan_skills(&all);
    let names = |v: &Vec<Skill>| v.iter().map(|s| s.name.clone()).collect::<Vec<_>>();
    assert_eq!(names(&r.system_skills), vec!["a", "d"]);
    assert_eq!(names(&r.project_skills), vec!["b"]);
    assert_eq!(names(&skills_of_type(&all, "other")), vec!["c"]);
    assert!(skills_of_type(&all, "none").is_empty());
}
