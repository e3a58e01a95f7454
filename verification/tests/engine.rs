use ghiqc::facts::parse_facts;
use ghiqc::facts::FactError;
use ghiqc::ignore_file::IgnoreFile;
use ghiqc::issue::Issue;
use ghiqc::matcher::ignore_issue;
use ghiqc::matcher::ignores_dim;
use ghiqc::matcher::ignores_title;
use ghiqc::matcher::matches_dimension;
use ghiqc::matcher::IssueView;
use ghiqc::pattern::pattern_matches;
use ghiqc::report::StdoutReport;

fn patterns(raw: &[&str]) -> Vec<String> {
    raw.iter().map(|s| String::from(*s)).collect()
}

#[test]
fn empty_pattern_list_matches_nothing() {
    assert_eq!(matches_dimension("anything", &patterns(&[])), false);
    assert_eq!(matches_dimension("", &patterns(&[])), false);
}

#[test]
fn exact_and_negated_are_complementary() {
    for value in ["p", "q", "", "pp"] {
        let plain = matches_dimension(value, &patterns(&["p"]));
        let negated = matches_dimension(value, &patterns(&["!p"]));
        assert_eq!(plain, value == "p");
        assert_eq!(negated, !plain);
    }
}

#[test]
fn prefix_and_negated_are_complementary() {
    for (value, starts) in [
        ("new feature", true),
        ("new", true),
        ("ne", false),
        ("old new", false),
        ("", false),
    ] {
        let plain = matches_dimension(value, &patterns(&["*new"]));
        let negated = matches_dimension(value, &patterns(&["!*new"]));
        assert_eq!(plain, starts);
        assert_eq!(negated, !starts);
    }
}

#[test]
fn array_membership_is_order_independent() {
    for value in ["a", "b", "c", "d", ""] {
        let one = matches_dimension(value, &patterns(&["[a,b,c]"]));
        let other = matches_dimension(value, &patterns(&["[c,b,a]"]));
        assert_eq!(one, other);
        assert_eq!(one, value == "a" || value == "b" || value == "c");
    }
}

#[test]
fn array_split_keeps_whitespace() {
    let facts = parse_facts(vec![String::from("author:[a, b]")]).unwrap();
    let hit_a = ignores_dim(String::from("a"), String::from("author"), &facts).unwrap();
    let hit_padded_b = ignores_dim(String::from(" b"), String::from("author"), &facts).unwrap();
    let hit_bare_b = ignores_dim(String::from("b"), String::from("author"), &facts).unwrap();
    assert_eq!(hit_a, true);
    assert_eq!(hit_padded_b, true);
    assert_eq!(hit_bare_b, false);
}

#[test]
fn array_tolerates_missing_closing_bracket() {
    let facts = parse_facts(vec![String::from("author:[a,b")]).unwrap();
    assert_eq!(
        ignores_dim(String::from("b"), String::from("author"), &facts).unwrap(),
        true
    );
}

#[test]
fn array_strips_brackets_anywhere() {
    let facts = parse_facts(vec![String::from("author:[a],b")]).unwrap();
    assert_eq!(
        ignores_dim(String::from("a"), String::from("author"), &facts).unwrap(),
        true
    );
    assert_eq!(
        ignores_dim(String::from("b"), String::from("author"), &facts).unwrap(),
        true
    );
}

#[test]
fn negated_array_misses_outsiders() {
    let facts = parse_facts(vec![String::from("author:![jeff,foo]")]).unwrap();
    assert_eq!(
        ignores_dim(String::from("other"), String::from("author"), &facts).unwrap(),
        true
    );
}

#[test]
fn array_does_not_ignore_outsider() {
    let facts = parse_facts(vec![String::from("author:[foo,bar,jeff]")]).unwrap();
    assert_eq!(
        ignores_dim(String::from("other"), String::from("author"), &facts).unwrap(),
        false
    );
}

#[test]
fn parse_preserves_insertion_order() {
    let facts = parse_facts(vec![String::from("title:x"), String::from("title:y")]).unwrap();
    assert_eq!(facts.title, vec![String::from("x"), String::from("y")]);
    assert_eq!(facts.author, Vec::<String>::new());
    assert_eq!(facts.label, Vec::<String>::new());
}

#[test]
fn parse_rejects_unsupported_line() {
    let err = parse_facts(vec![String::from("bogus:line")]).unwrap_err();
    assert_eq!(
        err,
        FactError::UnsupportedSyntax {
            line: String::from("bogus:line"),
        }
    );
    assert_eq!(
        err.message().as_str(),
        "Parsing error in line bogus:line: unsupported syntax"
    );
}

#[test]
fn parse_rejects_empty_line() {
    let err = parse_facts(vec![String::from("")]).unwrap_err();
    assert_eq!(
        err.message().as_str(),
        "Parsing error in line : unsupported syntax"
    );
}

#[test]
fn parse_stops_at_first_bad_line() {
    let err = parse_facts(vec![
        String::from("title:ok"),
        String::from("oops"),
        String::from("wrong too"),
    ])
    .unwrap_err();
    assert_eq!(
        err,
        FactError::UnsupportedSyntax {
            line: String::from("oops"),
        }
    );
}

#[test]
fn empty_pattern_matches_empty_value() {
    let facts = parse_facts(vec![String::from("title:")]).unwrap();
    assert_eq!(ignores_title(String::from(""), &facts), true);
    assert_eq!(ignores_title(String::from("x"), &facts), false);
}

#[test]
fn bare_negation_matches_nonempty_values() {
    let facts = parse_facts(vec![String::from("title:!")]).unwrap();
    assert_eq!(ignores_title(String::from("x"), &facts), true);
    assert_eq!(ignores_title(String::from(""), &facts), false);
}

#[test]
fn unknown_dimension_is_an_error() {
    let facts = parse_facts(vec![String::from("author:jeff")]).unwrap();
    let err = ignores_dim(String::from("v"), String::from("bogus"), &facts).unwrap_err();
    assert_eq!(
        err,
        FactError::MissingDimension {
            dimension: String::from("bogus"),
        }
    );
    assert_eq!(err.message().as_str(), "Failed to obtain bogus facts");
}

#[test]
fn raw_pattern_matching_covers_all_forms() {
    assert!(pattern_matches("jeff", "jeff"));
    assert!(!pattern_matches("jeff", "jef"));
    assert!(pattern_matches("*jef", "jeff"));
    assert!(!pattern_matches("*jeff", "jef"));
    assert!(pattern_matches("[a,jeff]", "jeff"));
    assert!(!pattern_matches("[a,jeff]", "b"));
    assert!(!pattern_matches("!jeff", "jeff"));
    assert!(pattern_matches("!jeff", "jef"));
    assert!(!pattern_matches("!*jef", "jeff"));
    assert!(pattern_matches("!*jeff", "jef"));
    assert!(!pattern_matches("![a,jeff]", "jeff"));
    assert!(pattern_matches("![a,jeff]", "b"));
}

fn issue_with(title: &str, author: &str, labels: &[&str]) -> IssueView {
    IssueView {
        title: String::from(title),
        author: String::from(author),
        labels: labels.iter().map(|l| String::from(*l)).collect(),
        body: String::from("a body"),
    }
}

#[test]
fn ignores_issue_on_any_label() {
    let facts = parse_facts(vec![String::from("label:bug")]).unwrap();
    let hit = issue_with("t", "a", &["feature", "bug"]);
    let miss = issue_with("t", "a", &["feature", "question"]);
    assert_eq!(ignore_issue(&hit, &facts), true);
    assert_eq!(ignore_issue(&miss, &facts), false);
}

#[test]
fn ignores_issue_on_title_or_author() {
    let facts = parse_facts(vec![
        String::from("title:*dup"),
        String::from("author:spam"),
    ])
    .unwrap();
    assert_eq!(ignore_issue(&issue_with("duplicate", "a", &[]), &facts), true);
    assert_eq!(ignore_issue(&issue_with("fine", "spam", &[]), &facts), true);
    assert_eq!(ignore_issue(&issue_with("fine", "a", &[]), &facts), false);
}

#[test]
fn does_not_ignore_issue_without_facts() {
    let facts = parse_facts(vec![]).unwrap();
    assert_eq!(
        ignore_issue(&issue_with("t", "a", &["l1", "l2"]), &facts),
        false
    );
}

#[test]
fn looks_up_dimensions_by_name() {
    let facts = parse_facts(vec![
        String::from("author:jeff"),
        String::from("label:bug"),
        String::from("title:dup"),
    ])
    .unwrap();
    assert_eq!(facts.get("author").unwrap(), &vec![String::from("jeff")]);
    assert_eq!(facts.get("label").unwrap(), &vec![String::from("bug")]);
    assert_eq!(facts.get("title").unwrap(), &vec![String::from("dup")]);
    assert!(facts.get("body").is_err());
}

#[test]
fn creates_issue_struct() {
    let number = 1;
    let repo = "jeff/foo";
    let issue = Issue::new(String::from(repo), number);
    assert_eq!(issue.number(), number);
    assert_eq!(issue.repo(), repo);
}

#[test]
fn keeps_ignore_file_path() {
    let ignore = IgnoreFile::new(String::from("ignore.ghiqc"));
    assert_eq!(ignore.path(), "ignore.ghiqc");
}

#[test]
fn builds_stdout_report() {
    assert!(StdoutReport::new() == StdoutReport::default());
}
