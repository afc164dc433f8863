use cargo_gen::document::load_documents;
use cargo_gen::document::Entry;
use cargo_gen::document::Node;
use cargo_gen::errors::DiscoveryError;
use cargo_gen::errors::FieldProblem;
use cargo_gen::errors::RecordField;
use cargo_gen::errors::SelectionError;
use cargo_gen::finder::find_all;
use cargo_gen::finder::listing;
use cargo_gen::finder::select;
use cargo_gen::finder::ListLine;
use cargo_gen::finder::Package;
use cargo_gen::gen::Generator;
use cargo_gen::locator::manifest_paths;
use cargo_gen::manifest::parse_documents;
use cargo_gen::manifest::parse_manifest;
use cargo_gen::manifest::parse_record;
use cargo_gen::manifest::parse_records;
use cargo_gen::manifest::MANIFEST_FILE;

type Outcome = Result<Generator, DiscoveryError>;

fn text(s: &str) -> Node {
    Node::Text(s.to_string())
}

fn table(entries: &[(&str, Node)]) -> Node {
    let mut all = Vec::new();
    for (key, value) in entries {
        all.push(Entry { key: text(key), value: copy(value) });
    }
    Node::Table(all)
}

fn copy(node: &Node) -> Node {
    match node {
        Node::Real(s) => Node::Real(s.clone()),
        Node::Integer(i) => Node::Integer(*i),
        Node::Text(s) => Node::Text(s.clone()),
        Node::Boolean(b) => Node::Boolean(*b),
        Node::List(items) => Node::List(items.iter().map(copy).collect()),
        Node::Table(entries) => Node::Table(
            entries.iter().map(|e| Entry { key: copy(&e.key), value: copy(&e.value) }).collect(),
        ),
        Node::Alias(a) => Node::Alias(*a),
        Node::Null => Node::Null,
        Node::BadValue => Node::BadValue,
    }
}

fn package(crate_path: &str, manifest: Option<&str>) -> Package {
    Package { crate_path: crate_path.to_string(), manifest: manifest.map(String::from) }
}

fn is_generator(outcome: &Outcome, name: &str, crate_path: &str, factory: &str) -> bool {
    match outcome {
        Ok(g) => g.name == name && g.crate_path == crate_path && g.factory == factory,
        Err(_) => false,
    }
}

fn is_record_error(
    outcome: &Outcome,
    at: &str,
    position: usize,
    which: RecordField,
    why: FieldProblem,
) -> bool {
    match outcome {
        Err(DiscoveryError::ManifestRecord { crate_path, index, field, problem }) => {
            crate_path == at && *index == position && *field == which && *problem == why
        }
        _ => false,
    }
}

fn is_syntax_error(outcome: &Outcome, at: &str) -> bool {
    matches!(outcome, Err(DiscoveryError::ManifestSyntax { crate_path, .. }) if crate_path == at)
}

const TWO_RECORDS: &str = "- name: a.x\n  factory: f\n- name: a.y\n  factory: f\n";

#[test]
fn the_manifest_file_has_a_fixed_name() {
    assert_eq!("cargo_generators.yaml", MANIFEST_FILE);
}

#[test]
fn a_project_without_manifests_offers_nothing() {
    let found = find_all(Ok(vec![package("/p", None), package("/d1", None), package("/d2", None)]));
    assert!(found.is_empty());
    assert!(find_all(Ok(vec![])).is_empty());
}

#[test]
fn a_package_without_manifest_gives_nothing() {
    assert!(parse_manifest("/p", None).is_empty());
}

#[test]
fn a_record_comes_out_as_it_went_in() {
    let found = parse_manifest(
        "/some where/pkg",
        Some("- name: \"  My.Gen-1 \"\n  factory: 'Krate::Mod::make '\n"),
    );
    assert_eq!(1, found.len());
    assert!(is_generator(&found[0], "  My.Gen-1 ", "/some where/pkg", "Krate::Mod::make "));
}

#[test]
fn one_malformed_record_among_many_is_one_failure() {
    let manifest = "- name: g0\n  factory: f0\n- name: g1\n  factory: f1\n- name: g2\n- name: g3\n  factory: f3\n- name: g4\n  factory: f4\n";
    let found = parse_manifest("/p", Some(manifest));
    assert_eq!(5, found.len());
    assert_eq!(4, found.iter().filter(|o| o.is_ok()).count());
    assert_eq!(1, found.iter().filter(|o| o.is_err()).count());
    assert!(is_generator(&found[0], "g0", "/p", "f0"));
    assert!(is_generator(&found[1], "g1", "/p", "f1"));
    assert!(is_record_error(&found[2], "/p", 2, RecordField::Factory, FieldProblem::Missing));
    assert!(is_generator(&found[3], "g3", "/p", "f3"));
    assert!(is_generator(&found[4], "g4", "/p", "f4"));
}

#[test]
fn a_failed_resolution_is_all_that_discovery_yields() {
    let found = find_all(Err("no Cargo.toml in /nowhere".to_string()));
    assert_eq!(1, found.len());
    match &found[0] {
        Err(DiscoveryError::Resolution { message }) => {
            assert_eq!("no Cargo.toml in /nowhere", message)
        }
        other => panic!("{:?}", other),
    }
    assert_eq!(
        "cannot resolve the dependencies: no Cargo.toml in /nowhere",
        found[0].as_ref().unwrap_err().message()
    );
}

#[test]
fn a_project_and_its_dependency_offer_the_same_generators() {
    let found = find_all(Ok(vec![
        package("/project", Some(TWO_RECORDS)),
        package("/dependency", Some(TWO_RECORDS)),
    ]));
    assert_eq!(4, found.len());
    assert!(is_generator(&found[0], "a.x", "/project", "f"));
    assert!(is_generator(&found[1], "a.y", "/project", "f"));
    assert!(is_generator(&found[2], "a.x", "/dependency", "f"));
    assert!(is_generator(&found[3], "a.y", "/dependency", "f"));
}

#[test]
fn a_record_without_factory_fails_alone() {
    let found = parse_manifest("/p", Some("[{name: \"a.x\"}, {name: \"a.y\", factory: \"f\"}]"));
    assert_eq!(2, found.len());
    assert!(is_record_error(&found[0], "/p", 0, RecordField::Factory, FieldProblem::Missing));
    assert!(is_generator(&found[1], "a.y", "/p", "f"));
}

#[test]
fn a_manifest_that_cannot_be_read_is_one_failure() {
    let found = parse_manifest("/p", Some("- name: [unclosed\n"));
    assert_eq!(1, found.len());
    assert!(is_syntax_error(&found[0], "/p"));
    match &found[0] {
        Err(DiscoveryError::ManifestSyntax { message, .. }) => {
            assert!(message.contains(" at line "), "{}", message);
            assert_ne!("not an array", message);
        }
        other => panic!("{:?}", other),
    }
}

#[test]
fn a_manifest_that_is_no_list_is_one_failure() {
    for manifest in ["name: a.x\nfactory: f\n", "just text", "42", "", "# nothing\n", "---\n"] {
        let found = parse_manifest("/p", Some(manifest));
        assert_eq!(1, found.len(), "{:?}", manifest);
        match &found[0] {
            Err(DiscoveryError::ManifestSyntax { crate_path, message }) => {
                assert_eq!("/p", crate_path);
                assert_eq!("not an array", message);
            }
            other => panic!("{:?}", other),
        }
    }
    let found = parse_manifest("/p", Some("{}"));
    assert_eq!("generator manifest of /p: not an array", found[0].as_ref().unwrap_err().message());
}

#[test]
fn an_empty_list_holds_no_record() {
    assert!(parse_manifest("/p", Some("[]")).is_empty());
}

#[test]
fn only_the_first_document_is_the_manifest() {
    let found = parse_manifest("/p", Some("- name: a\n  factory: f\n---\n- name: b\n  factory: g\n"));
    assert_eq!(1, found.len());
    assert!(is_generator(&found[0], "a", "/p", "f"));
}

#[test]
fn every_kind_of_bad_record_is_told_apart() {
    let manifest = "\
- factory: f
- name: 7
  factory: f
- name: n
- name: n
  factory: [f]
- just text
- name: ok
  factory: k::make
- name: true
- name: n
  factory: 1.5
- name: n
  factory: ~
- name: \"\"
  factory: f
- name: n
  factory: \"\"
";
    let found = parse_manifest("/p", Some(manifest));
    assert_eq!(11, found.len());
    assert!(is_record_error(&found[9], "/p", 9, RecordField::Name, FieldProblem::Empty));
    assert!(is_generator(&found[10], "n", "/p", ""));
    assert!(is_record_error(&found[0], "/p", 0, RecordField::Name, FieldProblem::Missing));
    assert!(is_record_error(&found[1], "/p", 1, RecordField::Name, FieldProblem::NotAString));
    assert!(is_record_error(&found[2], "/p", 2, RecordField::Factory, FieldProblem::Missing));
    assert!(is_record_error(&found[3], "/p", 3, RecordField::Factory, FieldProblem::NotAString));
    assert!(is_record_error(&found[4], "/p", 4, RecordField::Name, FieldProblem::Missing));
    assert!(is_generator(&found[5], "ok", "/p", "k::make"));
    assert!(is_record_error(&found[6], "/p", 6, RecordField::Name, FieldProblem::NotAString));
    assert!(is_record_error(&found[7], "/p", 7, RecordField::Factory, FieldProblem::NotAString));
    assert!(is_record_error(&found[8], "/p", 8, RecordField::Factory, FieldProblem::NotAString));
}

#[test]
fn other_fields_of_a_record_do_no_harm() {
    let found = parse_manifest(
        "/p",
        Some("- about: Generate an app\n  name: gen-test.app\n  args: [1, 2]\n  factory: gen_test::make\n"),
    );
    assert_eq!(1, found.len());
    assert!(is_generator(&found[0], "gen-test.app", "/p", "gen_test::make"));
}

#[test]
fn the_messages_name_the_package_the_record_and_the_field() {
    let found = parse_manifest("/the/pkg", Some("- name: a\n- 1\n- name: 2\n- name: a\n  factory: []\n"));
    let messages: Vec<String> =
        found.iter().map(|o| o.as_ref().unwrap_err().message()).collect();
    assert_eq!(
        vec![
            "generator manifest of /the/pkg: record 0: field factory is missing",
            "generator manifest of /the/pkg: record 1: field name is missing",
            "generator manifest of /the/pkg: record 2: field name is not a string",
            "generator manifest of /the/pkg: record 3: field factory is not a string",
        ],
        messages
    );
    let far = DiscoveryError::ManifestRecord {
        crate_path: "p".to_string(),
        index: 1204,
        field: RecordField::Name,
        problem: FieldProblem::Missing,
    };
    assert_eq!("generator manifest of p: record 1204: field name is missing", far.message());
    assert_eq!("name", RecordField::Name.name());
    assert_eq!("factory", RecordField::Factory.name());
    assert_eq!(" is missing", FieldProblem::Missing.words());
    assert_eq!(" is not a string", FieldProblem::NotAString.words());
    assert_eq!(" is empty", FieldProblem::Empty.words());
    let nameless = DiscoveryError::ManifestRecord {
        crate_path: "p".to_string(),
        index: 0,
        field: RecordField::Name,
        problem: FieldProblem::Empty,
    };
    assert_eq!("generator manifest of p: record 0: field name is empty", nameless.message());
}

#[test]
fn a_bad_manifest_hides_no_other_package() {
    let found = find_all(Ok(vec![
        package("/a", Some("- name: a1\n  factory: fa\n")),
        package("/b", Some(": : :\n  - [")),
        package("/c", None),
        package("/d", Some("text")),
        package("/e", Some("- name: e1\n- name: e2\n  factory: fe\n")),
    ]));
    assert_eq!(5, found.len());
    assert!(is_generator(&found[0], "a1", "/a", "fa"));
    assert!(is_syntax_error(&found[1], "/b"));
    assert!(is_syntax_error(&found[2], "/d"));
    assert!(is_record_error(&found[3], "/e", 0, RecordField::Factory, FieldProblem::Missing));
    assert!(is_generator(&found[4], "e2", "/e", "fe"));
}

#[test]
fn records_are_read_from_values_too() {
    let good = table(&[("name", text("n")), ("factory", text("f"))]);
    assert!(is_generator(&parse_record("/p", 3, &good), "n", "/p", "f"));
    let keyed_by_number = Node::Table(vec![
        Entry { key: Node::Integer(1), value: text("x") },
        Entry { key: text("factory"), value: text("f") },
    ]);
    assert!(is_record_error(
        &parse_record("/p", 3, &keyed_by_number),
        "/p",
        3,
        RecordField::Name,
        FieldProblem::Missing
    ));
    let found = parse_records("/p", &vec![copy(&good), Node::Null, copy(&good)]);
    assert_eq!(3, found.len());
    assert!(is_generator(&found[0], "n", "/p", "f"));
    assert!(is_record_error(&found[1], "/p", 1, RecordField::Name, FieldProblem::Missing));
    assert!(is_generator(&found[2], "n", "/p", "f"));
}

#[test]
fn what_was_read_decides_what_the_manifest_gives() {
    let found = parse_documents("/p", Err("bad at line 1 column 2".to_string()));
    assert_eq!(1, found.len());
    assert_eq!(
        "generator manifest of /p: bad at line 1 column 2",
        found[0].as_ref().unwrap_err().message()
    );
    let found = parse_documents("/p", Ok(vec![]));
    assert_eq!("generator manifest of /p: not an array", found[0].as_ref().unwrap_err().message());
    let found = parse_documents(
        "/p",
        Ok(vec![Node::List(vec![table(&[("name", text("n")), ("factory", text("f"))])])]),
    );
    assert_eq!(1, found.len());
    assert!(is_generator(&found[0], "n", "/p", "f"));
}

#[test]
fn the_first_of_two_equal_keys_is_the_field() {
    let twice = Node::Table(vec![
        Entry { key: text("k"), value: text("first") },
        Entry { key: text("k"), value: text("second") },
    ]);
    assert!(matches!(twice.field("k"), Some(Node::Text(t)) if t == "first"));
    assert!(twice.field("K").is_none());
    assert!(text("k").field("k").is_none());
    assert!(Node::List(vec![text("k")]).field("k").is_none());
}

#[test]
fn documents_are_read_value_by_value() {
    let read = load_documents(
        "t: text\ni: -12\nb: true\nr: 1.5\nn: ~\nl: [1, two]\nm: {k: v}\n7: seven\n",
    )
    .unwrap();
    assert_eq!(1, read.len());
    let doc = &read[0];
    assert!(matches!(doc.field("t"), Some(Node::Text(t)) if t == "text"));
    assert!(matches!(doc.field("i"), Some(Node::Integer(-12))));
    assert!(matches!(doc.field("b"), Some(Node::Boolean(true))));
    assert!(matches!(doc.field("r"), Some(Node::Real(r)) if r == "1.5"));
    assert!(matches!(doc.field("n"), Some(Node::Null)));
    match doc.field("l") {
        Some(Node::List(items)) => {
            assert_eq!(2, items.len());
            assert!(matches!(&items[0], Node::Integer(1)));
            assert!(matches!(&items[1], Node::Text(t) if t == "two"));
        }
        other => panic!("{:?}", other),
    }
    match doc.field("m") {
        Some(inner) => assert!(matches!(inner.field("k"), Some(Node::Text(t)) if t == "v")),
        None => panic!("no table"),
    }
    assert!(doc.field("7").is_none());
    match doc {
        Node::Table(entries) => {
            assert_eq!(8, entries.len());
            let keys: Vec<String> = entries
                .iter()
                .filter_map(|e| match &e.key {
                    Node::Text(t) => Some(t.clone()),
                    _ => None,
                })
                .collect();
            assert_eq!(vec!["t", "i", "b", "r", "n", "l", "m"], keys);
            assert!(matches!(&entries[7].key, Node::Integer(7)));
        }
        other => panic!("{:?}", other),
    }
}

#[test]
fn a_stream_may_hold_several_documents_or_none() {
    assert_eq!(0, load_documents("").unwrap().len());
    assert_eq!(2, load_documents("a\n---\nb\n").unwrap().len());
    let complaint = load_documents("[1, 2").unwrap_err();
    assert!(complaint.contains(" at line "), "{}", complaint);
}

fn sample() -> Vec<Outcome> {
    find_all(Ok(vec![
        package("/a", Some("- name: one\n  factory: a::one\n- name: two\n  factory: a::two\n- name: bad\n")),
        package("/b", Some("- name: two\n  factory: b::two\n- name: three\n  factory: b::three\n")),
    ]))
}

#[test]
fn a_generator_is_chosen_by_its_name() {
    let found = sample();
    assert_eq!(Ok(0), select(&found, "one"));
    assert_eq!(Ok(4), select(&found, "three"));
    assert_eq!(Err(SelectionError::Ambiguous), select(&found, "two"));
    assert_eq!(Err(SelectionError::NotFound), select(&found, "four"));
    assert_eq!(Err(SelectionError::NotFound), select(&found, "bad"));
    assert_eq!(Err(SelectionError::NotFound), select(&found, ""));
    assert_eq!(Err(SelectionError::NotFound), select(&vec![], "one"));
    assert_eq!(
        Err(SelectionError::NotFound),
        select(&find_all(Err("one".to_string())), "one")
    );
}

#[test]
fn the_listing_keeps_the_order_of_what_was_found() {
    let lines = listing(&sample());
    assert_eq!(5, lines.len());
    assert!(matches!(&lines[0], ListLine::Name(n) if n == "one"));
    assert!(matches!(&lines[1], ListLine::Name(n) if n == "two"));
    assert!(matches!(&lines[2], ListLine::Failure(m)
        if m == "generator manifest of /a: record 2: field factory is missing"));
    assert!(matches!(&lines[3], ListLine::Name(n) if n == "two"));
    assert!(matches!(&lines[4], ListLine::Name(n) if n == "three"));
    assert!(listing(&vec![]).is_empty());
}

#[test]
fn a_descriptor_can_be_copied() {
    let g = Generator::new("n".to_string(), "/p".to_string(), "k::f".to_string());
    let h = g.duplicate();
    assert_eq!(("n", "/p", "k::f"), (h.name.as_str(), h.crate_path.as_str(), h.factory.as_str()));
    assert_eq!(("n", "/p", "k::f"), (g.name.as_str(), g.crate_path.as_str(), g.factory.as_str()));
}

const REPORT: &str = "{\"packages\":[{\"name\":\"proj\",\"version\":\"0.1.0\",\"id\":\"path+file:///w/proj#0.1.0\",\"dependencies\":[{\"name\":\"dep\",\"req\":\"^1\",\"optional\":false}],\"manifest_path\":\"/w/proj/Cargo.toml\",\"edition\":\"2021\"},{\"name\":\"dep\",\"version\":\"1.0.0\",\"id\":\"registry+https://github.com/rust-lang/crates.io-index#dep@1.0.0\",\"dependencies\":[],\"manifest_path\":\"/home/u/.cargo/registry/src/index/dep-1.0.0/Cargo.toml\",\"edition\":\"2018\"}],\"workspace_members\":[\"path+file:///w/proj#0.1.0\"],\"resolve\":null,\"target_directory\":\"/w/proj/target\",\"version\":1}";

#[test]
fn the_packages_of_a_report_are_located_in_its_order() {
    assert_eq!(
        Ok(vec![
            "/w/proj/Cargo.toml".to_string(),
            "/home/u/.cargo/registry/src/index/dep-1.0.0/Cargo.toml".to_string(),
        ]),
        manifest_paths(load_documents(REPORT))
    );
    assert_eq!(Ok(vec![]), manifest_paths(load_documents("{\"packages\":[]}")));
}

#[test]
fn a_report_that_cannot_be_used_is_a_complaint() {
    assert_eq!(
        Err("the resolver's report lists no packages".to_string()),
        manifest_paths(load_documents(""))
    );
    assert_eq!(
        Err("the resolver's report lists no packages".to_string()),
        manifest_paths(load_documents("{\"packages\": 3}"))
    );
    assert_eq!(
        Err("the resolver's report lists no packages".to_string()),
        manifest_paths(load_documents("[1]"))
    );
    assert_eq!(
        Err("a package in the resolver's report has no manifest path".to_string()),
        manifest_paths(load_documents(
            "{\"packages\":[{\"manifest_path\":\"/a/Cargo.toml\"},{\"name\":\"x\"}]}"
        ))
    );
    assert_eq!(
        Err("a package in the resolver's report has no manifest path".to_string()),
        manifest_paths(load_documents("{\"packages\":[{\"manifest_path\":7}]}"))
    );
    assert_eq!(Err("gone".to_string()), manifest_paths(Err("gone".to_string())));
    assert!(manifest_paths(load_documents("{\"packages\":[")).is_err());
}
