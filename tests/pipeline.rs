use invoicehandler::candidate::{Action, Candidate, Outcome};
use invoicehandler::rules::RuleSet;

fn invoice_rules() -> RuleSet {
    RuleSet::from_pairs(&vec![
        (r"invoice_(\d+)\.pdf".to_string(), "INV-$1.pdf".to_string()),
        (".*".to_string(), "unmatched_$0".to_string()),
    ])
    .ok()
    .expect("valid")
}

#[test]
fn locked_file_never_reaches_the_rules() {
    let rules = invoice_rules();
    let mut c = Candidate::new("invoice_42.pdf", 3);
    assert!(matches!(c.on_exists(true), Action::Probe));
    assert!(matches!(c.on_probe(false, &rules), Action::SleepThenProbe));
    assert!(matches!(c.on_probe(false, &rules), Action::SleepThenProbe));
    assert!(matches!(c.on_probe(false, &rules), Action::Done(Outcome::Locked)));
    assert_eq!(c.attempts(), 3);
}

#[test]
fn vanished_file_is_not_probed() {
    let mut c = Candidate::new("invoice_42.pdf", 30);
    assert!(matches!(c.on_exists(false), Action::Done(Outcome::NoSuchFile)));
    assert_eq!(c.attempts(), 0);
}

#[test]
fn unlocked_invoice_is_renamed() {
    let rules = invoice_rules();
    let mut c = Candidate::new("invoice_42.pdf", 30);
    assert_eq!(c.filename(), "invoice_42.pdf");
    assert!(matches!(c.on_exists(true), Action::Probe));
    match c.on_probe(true, &rules) {
        Action::Rename { new_name } => assert_eq!(new_name, "INV-42.pdf"),
        _ => panic!("expected a rename"),
    }
    match c.on_rename(true) {
        Action::Done(Outcome::Renamed { rule, new_name }) => {
            assert_eq!(rule, 0);
            assert_eq!(new_name, "INV-42.pdf");
        }
        _ => panic!("expected a completed rename"),
    }
}

#[test]
fn failed_move_is_reported() {
    let rules = invoice_rules();
    let mut c = Candidate::new("readme.txt", 2);
    c.on_exists(true);
    assert!(matches!(c.on_probe(false, &rules), Action::SleepThenProbe));
    assert!(matches!(c.on_probe(true, &rules), Action::Rename { .. }));
    match c.on_rename(false) {
        Action::Done(Outcome::RenameFailed { rule, new_name }) => {
            assert_eq!(rule, 1);
            assert_eq!(new_name, "unmatched_readme.txt");
        }
        _ => panic!("expected a failed rename"),
    }
}

#[test]
fn empty_rules_leave_file_alone() {
    let rules = RuleSet::new();
    let mut c = Candidate::new("invoice_42.pdf", 1);
    c.on_exists(true);
    assert!(matches!(c.on_probe(true, &rules), Action::Done(Outcome::NoMatch)));
}

#[test]
fn unchanged_name_is_no_rename() {
    let rules = RuleSet::from_pairs(&vec![("INV".to_string(), "INV".to_string())]).ok().expect("valid");
    let mut c = Candidate::new("INV-1.pdf", 1);
    c.on_exists(true);
    assert!(matches!(c.on_probe(true, &rules), Action::Done(Outcome::Unchanged { rule: 0 })));
}
