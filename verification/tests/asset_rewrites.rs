use mendimaru::asset_imports::{
    check_depth, check_project_name, check_script_file, count_entry, count_read, file_verdict,
    import_targets, normalize, share_supported, AssetError, FileVerdict, Revision, ScanBudget,
    CodeLexer, MAX_ENTRIES, MAX_FILE_BYTES,
};

const ORIGINAL: &str = "import * as Widget from \"//host.lan/Data/Project/deployment/web/widgets/com/widget.mjs\";\r\nimport \"//host.lan/Data/Project/deployment/web/widgets/com/widget.css\";\r\n";
const NORMALIZED: &str = "import * as Widget from \"../widgets/com/widget.mjs\";\r\nimport \"../widgets/com/widget.css\";\r\n";
const ACTION_ORIGINAL: &str = "      \"action\": () => require(\"//host.lan/Data/Project/javascriptsource/atlas_core/actions/ReloadWithState\").ReloadWithState,\r\n";
const ACTION_NORMALIZED: &str = "      \"action\": () => require(\"\\\\\\\\host.lan\\\\Data\\\\Project\\\\javascriptsource\\\\atlas_core\\\\actions\\\\ReloadWithState.js\").ReloadWithState,\r\n";

fn targets() -> mendimaru::asset_imports::ImportTargets {
    import_targets(&vec!["Project".to_string()]).unwrap()
}

#[test]
fn normalizes_only_selected_widget_static_imports_at_the_correct_depth() {
    let targets = targets();
    assert_eq!(normalize(ORIGINAL, 1, &targets).unwrap(), (NORMALIZED.to_string(), 2));
    assert_eq!(normalize(ORIGINAL, 2, &targets).unwrap().0, NORMALIZED.replace("../widgets", "../../widgets"));
    let block = format!("/*\n{ORIGINAL}*/\nconst text = `\n{ORIGINAL}`;\n");
    assert_eq!(normalize(&block, 1, &targets).unwrap(), (block, 0));
    let untouched = [
        "// import \"//host.lan/Data/Project/deployment/web/widgets/a.css\";",
        "const value = '//host.lan/Data/Project/deployment/web/widgets/a.css';",
        "import '//host.lan/Data/Other/deployment/web/widgets/a.css';",
        "import 'https://example.test/widget.mjs';",
        "import '../widgets/a.css';",
        "import '//host.lan/Data/Project/javascriptsource/module/a.js';",
    ]
    .join("\n");
    assert_eq!(normalize(&untouched, 1, &targets).unwrap(), (untouched, 0));
    for suffix in ["../secret.js", "a/../../secret.js", "%2e%2e/secret.js", "a.css?x=1", "a\\b.mjs", "a.svg"] {
        let source = format!("import '//host.lan/Data/Project/deployment/web/widgets/{suffix}';");
        assert_eq!(normalize(&source, 1, &targets), Err(AssetError::WidgetImportUnsupported));
    }
}

#[test]
fn normalizes_only_generated_nanoflow_javascript_action_requires() {
    let targets = targets();
    assert_eq!(normalize(ACTION_ORIGINAL, 1, &targets).unwrap(), (ACTION_NORMALIZED.to_string(), 1));
    let block = format!("/*\n{ACTION_ORIGINAL}*/\nconst text = `\n{ACTION_ORIGINAL}`;\n");
    assert_eq!(normalize(&block, 1, &targets).unwrap(), (block, 0));
    let untouched = [
        "// \"action\": () => require(\"//host.lan/Data/Project/javascriptsource/a/b\").Action,",
        "\"action\": () => require(\"//host.lan/Data/Other/javascriptsource/a/b\").Action,",
        "\"value\": () => require(\"https://example.test/source\").Action,",
        "\"action\": () => require(\"../../javascriptsource/a/b.js\").Action,",
    ]
    .join("\n");
    assert_eq!(normalize(&untouched, 1, &targets).unwrap(), (untouched, 0));
    for suffix in ["../secret", "a/../../secret", "a%2fsecret", "a?x=1", "a\\b"] {
        let source = format!("\"action\": () => require(\"//host.lan/Data/Project/javascriptsource/{suffix}\").Action,");
        assert_eq!(normalize(&source, 1, &targets), Err(AssetError::ActionPathUnsupported));
    }
}

#[test]
fn import_targets_name_the_project_through_the_share() {
    let targets = import_targets(&vec!["Team".to_string(), "Orders".to_string()]).unwrap();
    assert_eq!(targets.widget_prefix.iter().collect::<String>(), "//host.lan/Data/Team/Orders/deployment/web/widgets/");
    assert_eq!(targets.action_prefix.iter().collect::<String>(), "//host.lan/Data/Team/Orders/javascriptsource/");
    assert_eq!(targets.action_unc.iter().collect::<String>(), r"\\\\host.lan\\Data\\Team\\Orders\\javascriptsource\\");
    assert_eq!(import_targets(&vec![]).unwrap_err(), AssetError::ProjectNotBelowWorkspace);
    assert!(share_supported(r"\\HOST.LAN\data"));
    assert!(!share_supported(r"\\other\Data"));
    assert_eq!(check_project_name("Orders"), Ok(()));
    assert_eq!(check_project_name("Or#ders"), Err(AssetError::ProjectPathUnsafe));
    assert_eq!(AssetError::ShareUnsupported.message(), "asset normalization requires the WinBoat host.lan Data share");
}

#[test]
fn import_clauses_and_line_endings_follow_the_generated_shape() {
    let targets = targets();
    let named = "import {a, b} from '//host.lan/Data/Project/deployment/web/widgets/x.js';";
    assert_eq!(normalize(named, 1, &targets).unwrap(), ("import {a, b} from '../widgets/x.js';".to_string(), 1));
    let no_from = "import a b '//host.lan/Data/Project/deployment/web/widgets/x.js';";
    assert_eq!(normalize(no_from, 1, &targets).unwrap().1, 0);
    let trailing = "import '//host.lan/Data/Project/deployment/web/widgets/x.js'; // note";
    assert_eq!(normalize(trailing, 1, &targets).unwrap().1, 0);
    let mixed = "import \"//host.lan/Data/Project/deployment/web/widgets/x.js';";
    assert_eq!(normalize(mixed, 1, &targets), Err(AssetError::WidgetImportUnsupported));
}

#[test]
fn the_lexer_sees_strings_comments_and_templates() {
    let text: Vec<char> = "a 'x\\'y' /* c */ `t` z".chars().collect();
    let mut lexer = CodeLexer::new();
    assert!(lexer.is_code_at(&text, 1));
    assert!(!lexer.is_code_at(&text, 5));
    assert!(lexer.is_code_at(&text, 9));
    assert!(!lexer.is_code_at(&text, 12));
    assert!(lexer.is_code_at(&text, 17));
    assert!(!lexer.is_code_at(&text, 19));
    assert!(!lexer.is_code_at(&text, 22));
}

#[test]
fn scans_wait_for_stable_revisions_and_stay_within_budgets() {
    let revision = Revision { device: 1, inode: 2, length: 3, modified_seconds: 4, modified_nanos: 5, changed_seconds: 6, changed_nanos: 7 };
    let changed = Revision { length: 4, ..revision };
    assert_eq!(file_verdict(revision, None, None), FileVerdict::Pending);
    assert_eq!(file_verdict(revision, None, Some(changed)), FileVerdict::Pending);
    assert_eq!(file_verdict(revision, None, Some(revision)), FileVerdict::Normalize);
    assert_eq!(file_verdict(revision, Some(revision), None), FileVerdict::Done);
    assert_eq!(file_verdict(revision, Some(changed), Some(revision)), FileVerdict::Normalize);
    assert_eq!(check_depth(8), Ok(()));
    assert_eq!(check_depth(9), Err(AssetError::NestingTooDeep));
    let mut budget = ScanBudget { entries: MAX_ENTRIES - 1, bytes: 0 };
    assert_eq!(count_entry(&mut budget), Ok(()));
    assert_eq!(count_entry(&mut budget), Err(AssetError::TooManyEntries));
    assert_eq!(check_script_file(true, 1, MAX_FILE_BYTES), Ok(()));
    assert_eq!(check_script_file(true, 2, 10), Err(AssetError::FileUnsupported));
    assert_eq!(check_script_file(true, 1, MAX_FILE_BYTES + 1), Err(AssetError::FileUnsupported));
    let mut reads = ScanBudget { entries: 0, bytes: 60 * 1024 * 1024 };
    assert_eq!(count_read(&mut reads, 4 * 1024 * 1024), Ok(()));
    assert_eq!(count_read(&mut reads, 1), Err(AssetError::ReadLimitExceeded));
}
