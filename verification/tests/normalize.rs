use patch_tuesday::cvrf::{
    Acknowledgment, CVRFDocument, CVSSScoreSet, DocumentPublisher, DocumentTracking,
    Identification, Note, ProductStatus, Score, Threat, ValueField,
};
use patch_tuesday::normalize::normalize_all;
use patch_tuesday::{Severity, Vulnerability};

fn field(text: &str) -> ValueField {
    ValueField { value: Some(text.to_string()) }
}

fn no_field() -> ValueField {
    ValueField { value: None }
}

fn threat(type_: i32, text: &str) -> Threat {
    Threat { description: Some(field(text)), product_id: None, type_, date_specified: false }
}

fn status(type_: i32, ids: &[&str]) -> ProductStatus {
    ProductStatus { product_id: Some(ids.iter().map(|id| id.to_string()).collect()), type_ }
}

fn note(title: &str, value: Option<&str>) -> Note {
    Note {
        title: title.to_string(),
        type_: 2,
        ordinal: "0".to_string(),
        value: value.map(|v| v.to_string()),
    }
}

fn credit(names: Vec<ValueField>) -> Acknowledgment {
    Acknowledgment { name: names, url: vec![] }
}

fn score(base: f64) -> CVSSScoreSet {
    CVSSScoreSet {
        base_score: Score { bits: base.to_bits() },
        temporal_score: Score { bits: 0f64.to_bits() },
        vector: String::new(),
        product_id: vec![],
    }
}

fn entry(cve: &str) -> patch_tuesday::cvrf::Vulnerability {
    patch_tuesday::cvrf::Vulnerability {
        title: no_field(),
        notes: vec![],
        discovery_date_specified: false,
        release_date_specified: false,
        cve: cve.to_string(),
        product_statuses: vec![],
        threats: vec![],
        cvss_score_sets: vec![],
        remediations: vec![],
        acknowledgments: vec![],
        ordinal: "1".to_string(),
        revision_history: vec![],
    }
}

fn document(entries: Vec<patch_tuesday::cvrf::Vulnerability>) -> CVRFDocument {
    CVRFDocument {
        document_title: field("January 2021 Security Updates"),
        document_type: field("Security Update"),
        document_publisher: DocumentPublisher {
            contact_details: no_field(),
            issuing_authority: no_field(),
            type_: 0,
        },
        document_tracking: DocumentTracking {
            identification: Identification { id: field("2021-Jan"), alias: field("2021-Jan") },
            status: 2,
            version: "1.0".to_string(),
            revision_history: vec![],
            initial_release_date: String::new(),
            current_release_date: String::new(),
        },
        document_notes: vec![],
        product_tree: String::new(),
        vulnerability: entries,
    }
}

#[test]
fn rated_and_exploited_entry() {
    let mut raw = entry("CVE-2021-1234");
    raw.threats = vec![
        threat(3, "Critical"),
        threat(1, "Publicly Disclosed:No;Exploited:Yes;Exploitability:N/A"),
    ];
    raw.product_statuses = vec![status(3, &["11569"])];
    let v = Vulnerability::from(&raw);
    assert_eq!(v.cve, "CVE-2021-1234");
    assert!(v.severity == Severity::Critical);
    assert!(!v.public);
    assert!(v.exploited);
    assert_eq!(v.affected_products, vec!["11569".to_string()]);
}

#[test]
fn empty_entry_gets_every_default() {
    let v = Vulnerability::from(&entry(""));
    assert_eq!(v.title, "");
    assert_eq!(v.cve, "");
    assert!(v.severity == Severity::Unrated);
    assert!(v.cvss.is_none());
    assert_eq!(v.impact, "");
    assert_eq!(v.description, None);
    assert_eq!(v.acknowledgements, Some(String::new()));
    assert!(!v.public);
    assert!(!v.exploited);
    assert!(v.affected_products.is_empty());
}

#[test]
fn no_rating_threat_gives_unrated() {
    let mut raw = entry("CVE-2021-0001");
    raw.threats = vec![threat(0, "Remote Code Execution"), threat(1, "Exploited:Yes"), threat(2, "Critical")];
    let v = Vulnerability::from(&raw);
    assert!(v.severity == Severity::Unrated);
    assert_eq!(v.impact, "Remote Code Execution");
}

#[test]
fn rating_that_names_nothing_gives_unrated() {
    let mut raw = entry("CVE-2021-0002");
    raw.threats = vec![threat(3, "Catastrophic")];
    assert!(Vulnerability::from(&raw).severity == Severity::Unrated);
}

#[test]
fn rating_without_text_gives_unrated() {
    let mut raw = entry("CVE-2021-0003");
    raw.threats = vec![
        Threat { description: None, product_id: None, type_: 3, date_specified: false },
        threat(3, "Low"),
    ];
    assert!(Vulnerability::from(&raw).severity == Severity::Unrated);
    raw.threats[0].description = Some(no_field());
    assert!(Vulnerability::from(&raw).severity == Severity::Unrated);
}

#[test]
fn first_rating_counts_and_case_does_not() {
    let mut raw = entry("CVE-2021-0004");
    raw.threats = vec![threat(3, "iMPORTANT"), threat(3, "Low")];
    assert!(Vulnerability::from(&raw).severity == Severity::Important);
    raw.threats = vec![threat(3, "None")];
    assert!(Vulnerability::from(&raw).severity == Severity::Unrated);
    for (text, rating) in [
        ("Moderate", Severity::Moderate),
        ("High", Severity::High),
        ("Medium", Severity::Medium),
        ("Low", Severity::Low),
    ] {
        raw.threats = vec![threat(3, text)];
        assert!(Vulnerability::from(&raw).severity == rating);
    }
}

#[test]
fn impact_is_the_first_type_zero_threat() {
    let mut raw = entry("CVE-2021-0005");
    raw.threats = vec![threat(3, "Low"), threat(0, "Spoofing"), threat(0, "Denial of Service")];
    assert_eq!(Vulnerability::from(&raw).impact, "Spoofing");
    raw.threats = vec![Threat { description: None, product_id: None, type_: 0, date_specified: true }];
    assert_eq!(Vulnerability::from(&raw).impact, "");
}

#[test]
fn title_and_cve_are_carried_over() {
    let mut raw = entry("CVE-2021-0006");
    raw.title = field("Windows Kernel Elevation of Privilege Vulnerability");
    let v = Vulnerability::from(&raw);
    assert_eq!(v.title, "Windows Kernel Elevation of Privilege Vulnerability");
    assert_eq!(v.cve, "CVE-2021-0006");
}

#[test]
fn base_score_of_the_first_score_set() {
    let mut raw = entry("CVE-2021-0007");
    raw.cvss_score_sets = vec![score(7.8), score(9.1)];
    let v = Vulnerability::from(&raw);
    assert_eq!(v.cvss.map(|s| f64::from_bits(s.bits)), Some(7.8));
}

#[test]
fn description_is_the_first_note_so_titled() {
    let mut raw = entry("CVE-2021-0008");
    raw.notes = vec![
        note("FAQ", Some("not this")),
        note("Description", Some("<p>text</p>")),
        note("Description", Some("nor this")),
    ];
    assert_eq!(Vulnerability::from(&raw).description, Some("<p>text</p>".to_string()));
    raw.notes = vec![note("Description", None), note("Description", Some("late"))];
    assert_eq!(Vulnerability::from(&raw).description, None);
    raw.notes = vec![note("description", Some("wrong case"))];
    assert_eq!(Vulnerability::from(&raw).description, None);
}

#[test]
fn names_are_joined_with_nothing_between() {
    let mut raw = entry("CVE-2021-0009");
    raw.acknowledgments =
        vec![credit(vec![field("Alice"), field("Bob")]), credit(vec![]), credit(vec![field(" Carol")])];
    assert_eq!(Vulnerability::from(&raw).acknowledgements, Some("AliceBob Carol".to_string()));
}

#[test]
fn one_missing_name_voids_the_acknowledgements() {
    let mut raw = entry("CVE-2021-0010");
    raw.acknowledgments = vec![credit(vec![field("Alice")]), credit(vec![field("Bob"), no_field()])];
    assert_eq!(Vulnerability::from(&raw).acknowledgements, None);
    raw.acknowledgments = vec![credit(vec![no_field(), field("Alice")])];
    assert_eq!(Vulnerability::from(&raw).acknowledgements, None);
}

#[test]
fn flags_read_the_first_two_fields_only() {
    let flags = |text: &str| {
        let mut raw = entry("CVE-2021-0011");
        raw.threats = vec![threat(1, text)];
        let v = Vulnerability::from(&raw);
        (v.public, v.exploited)
    };
    assert_eq!(flags("Publicly Disclosed:Yes;Exploited:No;Latest Software Release:N/A"), (true, false));
    assert_eq!(flags("Publicly Disclosed:Yes;Exploited:Yes"), (true, true));
    assert_eq!(flags("DOS:N/A"), (false, false));
    assert_eq!(flags("Yes"), (true, false));
    assert_eq!(flags(";Yes"), (false, true));
    assert_eq!(flags("No;No;Yes"), (false, false));
    assert_eq!(flags("yes;YES"), (false, false));
    assert_eq!(flags(""), (false, false));
    assert_eq!(flags("Ye;sYes;"), (false, true));
}

#[test]
fn affected_products_come_from_the_first_type_three_status() {
    let mut raw = entry("CVE-2021-0012");
    raw.product_statuses = vec![status(1, &["1"]), status(3, &["11569", "12086"]), status(3, &["7"])];
    assert_eq!(
        Vulnerability::from(&raw).affected_products,
        vec!["11569".to_string(), "12086".to_string()]
    );
    raw.product_statuses = vec![status(2, &["11569"])];
    assert!(Vulnerability::from(&raw).affected_products.is_empty());
    raw.product_statuses = vec![ProductStatus { product_id: None, type_: 3 }, status(3, &["11569"])];
    assert!(Vulnerability::from(&raw).affected_products.is_empty());
}

#[test]
fn a_document_is_normalized_in_its_order() {
    let doc = document(vec![entry("CVE-2021-0001"), entry("CVE-2021-0002"), entry("CVE-2021-0003")]);
    let cves: Vec<String> = normalize_all(&doc).into_iter().map(|v| v.cve).collect();
    assert_eq!(cves, vec!["CVE-2021-0001", "CVE-2021-0002", "CVE-2021-0003"]);
    assert!(normalize_all(&document(vec![])).is_empty());
}

#[test]
fn a_clone_holds_the_same_record() {
    let mut raw = entry("CVE-2021-0013");
    raw.title = field("Title");
    raw.threats = vec![threat(3, "High"), threat(1, "Yes;Yes")];
    raw.product_statuses = vec![status(3, &["11569"])];
    raw.acknowledgments = vec![credit(vec![field("Alice")])];
    let v = Vulnerability::from(&raw);
    let w = v.clone();
    assert_eq!(w.title, v.title);
    assert_eq!(w.cve, v.cve);
    assert!(w.severity == v.severity);
    assert_eq!(w.acknowledgements, v.acknowledgements);
    assert_eq!(w.affected_products, v.affected_products);
    assert_eq!((w.public, w.exploited), (true, true));
    let f = field("x");
    assert_eq!(f.clone().value, f.value);
}
