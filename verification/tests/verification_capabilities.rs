use hardclaw::verification::accuracy::{
    slash_action_for, AccuracyStatus, OutcomeWindow, SlashAction, VerificationOutcome,
};
use hardclaw::verification::runtime::capabilities::{
    contains_bytes, leading_number, supports, EnvironmentCheck, JobDistribution,
    LanguageSupport,
};

#[test]
fn test_environment_checks() {
    let checks = EnvironmentCheck::check_all_from(None, None);
    assert!(!checks.is_empty());

    // WASM should always be available (embedded)
    let wasm_check = checks.iter().find(|c| c.language == LanguageSupport::Wasm);
    assert!(wasm_check.is_some());
    assert!(wasm_check.unwrap().available);
}

#[test]
fn python_versions() {
    let missing = EnvironmentCheck::check_python_from(None);
    assert!(!missing.available);
    assert!(missing.setup_instructions.unwrap().starts_with("Install Python 3.8 or higher:\nmacOS"));
    assert!(missing.warnings.is_empty());

    let recent = EnvironmentCheck::check_python_from(Some("Python 3.11.4".to_string()));
    assert!(recent.available);
    assert_eq!(recent.version, Some("Python 3.11.4".to_string()));
    assert!(recent.warnings.is_empty());
    assert!(recent.setup_instructions.is_none());

    let old = EnvironmentCheck::check_python_from(Some("Python 2.7.18".to_string()));
    assert!(old.available);
    assert_eq!(old.warnings, vec!["Python 3.8 or higher recommended".to_string()]);
}

#[test]
fn node_versions() {
    let embedded = EnvironmentCheck::check_nodejs_from(None);
    assert!(embedded.available);
    assert_eq!(embedded.version, Some("embedded (Deno)".to_string()));

    let old = EnvironmentCheck::check_nodejs_from(Some("v16.20.0".to_string()));
    assert_eq!(old.warnings, vec!["Node.js 18 or higher recommended".to_string()]);
    let recent = EnvironmentCheck::check_nodejs_from(Some("v18.0.0".to_string()));
    assert!(recent.warnings.is_empty());
    let odd = EnvironmentCheck::check_nodejs_from(Some("nightly".to_string()));
    assert!(odd.warnings.is_empty());

    let ts = EnvironmentCheck::check_typescript_from(Some("v16.20.0".to_string()));
    assert_eq!(ts.language, LanguageSupport::TypeScript);
    assert_eq!(ts.warnings.len(), 1);

    let all = EnvironmentCheck::check_all_from(Some("Python 3.9".to_string()), None);
    let languages: Vec<LanguageSupport> = all.iter().map(|c| c.language).collect();
    assert_eq!(languages, LanguageSupport::all());
    assert!(all.iter().all(|c| c.available));
    assert_eq!(all[3].version, Some("embedded (wasmer)".to_string()));
}

#[test]
fn languages() {
    assert_eq!(LanguageSupport::all().len(), 4);
    assert_eq!(LanguageSupport::Python.name(), "python");
    assert_eq!(LanguageSupport::JavaScript.name(), "javascript");
    assert_eq!(LanguageSupport::TypeScript.name(), "typescript");
    assert_eq!(LanguageSupport::Wasm.name(), "wasm");
    assert_eq!(LanguageSupport::Python.display_name(), "Python");
    assert_eq!(LanguageSupport::JavaScript.display_name(), "JavaScript");
    assert_eq!(LanguageSupport::TypeScript.display_name(), "TypeScript");
    assert_eq!(LanguageSupport::Wasm.display_name(), "WebAssembly");
    assert!(supports(&[LanguageSupport::Python, LanguageSupport::Wasm], LanguageSupport::Wasm));
    assert!(!supports(&[LanguageSupport::Python], LanguageSupport::Wasm));
    assert!(!supports(&[], LanguageSupport::Python));
}

#[test]
fn text_helpers() {
    assert!(contains_bytes(b"Python 3.10.2", b"3.10"));
    assert!(contains_bytes(b"abc", b""));
    assert!(contains_bytes(b"abc", b"abc"));
    assert!(contains_bytes(b"aab", b"ab"));
    assert!(!contains_bytes(b"abc", b"abcd"));
    assert!(!contains_bytes(b"abc", b"ac"));
    assert!(!contains_bytes(b"", b"a"));
    assert_eq!(leading_number(b"18.2.0"), Some(18));
    assert_eq!(leading_number(b"007"), Some(7));
    assert_eq!(leading_number(b"x1"), None);
    assert_eq!(leading_number(b""), None);
    assert_eq!(leading_number(b"4294967295"), Some(u32::MAX));
    assert_eq!(leading_number(b"4294967296"), None);
}

#[test]
fn slash_actions() {
    assert_eq!(slash_action_for(AccuracyStatus::Good, 2, 10), SlashAction::NoAction);
    assert_eq!(slash_action_for(AccuracyStatus::Probationary, 2, 10), SlashAction::NoAction);
    assert_eq!(slash_action_for(AccuracyStatus::Warning, 2, 10), SlashAction::NoAction);
    assert_eq!(slash_action_for(AccuracyStatus::Slashing, 2, 10), SlashAction::Slash { percent: 2 });
    assert_eq!(
        slash_action_for(AccuracyStatus::Critical, 2, 10),
        SlashAction::SlashAndDeactivate { percent: 10 }
    );
}

#[test]
fn supporters_are_found_in_order() {
    let validators = vec![
        vec![LanguageSupport::Python, LanguageSupport::Wasm],
        vec![LanguageSupport::JavaScript],
        vec![],
        vec![LanguageSupport::Wasm, LanguageSupport::Python],
        vec![LanguageSupport::Python],
    ];
    assert_eq!(JobDistribution::supporters(LanguageSupport::Python, &validators), vec![0, 3, 4]);
    assert_eq!(JobDistribution::supporters(LanguageSupport::JavaScript, &validators), vec![1]);
    assert_eq!(JobDistribution::supporters(LanguageSupport::Wasm, &validators), vec![0, 3]);
    assert!(JobDistribution::supporters(LanguageSupport::TypeScript, &validators).is_empty());
    assert!(JobDistribution::supporters(LanguageSupport::Python, &[]).is_empty());
}

fn outcome(agreed: bool, at: i64) -> VerificationOutcome {
    VerificationOutcome {
        agreed_with_consensus: agreed,
        solution_id: hardclaw::crypto::hash::Hash::zero(),
        timestamp: at,
    }
}

#[test]
fn outcome_window_rolls() {
    let mut window = OutcomeWindow::new();
    assert_eq!(window.len(), 0);
    assert_eq!(window.agreement_count(), 0);

    // three agreements, then two disagreements, in a window of four
    for at in 0..3 {
        window.record(outcome(true, at), 4);
    }
    assert_eq!((window.len(), window.agreement_count()), (3, 3));
    window.record(outcome(false, 3), 4);
    assert_eq!((window.len(), window.agreement_count()), (4, 3));
    // the oldest agreement leaves
    window.record(outcome(false, 4), 4);
    assert_eq!((window.len(), window.agreement_count()), (4, 2));
    assert_eq!(window.total_verifications(), 5);
    assert_eq!(window.total_agreements(), 3);

    // a smaller window trims more than one outcome at once
    window.record(outcome(true, 5), 2);
    assert_eq!((window.len(), window.agreement_count()), (2, 1));
    // a window of no size keeps nothing
    window.record(outcome(true, 6), 0);
    assert_eq!((window.len(), window.agreement_count()), (0, 0));
    assert_eq!(window.total_verifications(), 7);
    assert_eq!(window.total_agreements(), 5);
}
