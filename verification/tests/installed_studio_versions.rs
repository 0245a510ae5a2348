use mendimaru::guest_apps::WinApp;
use mendimaru::installed_versions::parse_studio_versions;

fn app(name: &str, path: &str, source: &str) -> WinApp {
    WinApp { name: name.into(), path: path.into(), source: source.into() }
}

#[test]
fn extracts_versions_from_winboat_apps_using_reference_layout() {
    let apps = vec![
        app("studiopro", r"C:\Program Files\Mendix\11.12.2\modeler\studiopro.exe", ""),
        app("Mendix.VersionSelector", r"C:\Program Files\Mendix\Version Selector\VersionSelector.exe", ""),
        app("Studio Pro", r"C:\Program Files\Mendix\10.24.3.12345\modeler\studiopro.exe", "registry"),
    ];
    let versions = parse_studio_versions(apps, r"C:\Program Files\Mendix").unwrap();
    assert_eq!(versions.len(), 2);
    assert_eq!(versions[0].version, "11.12.2");
    assert_eq!(versions[1].version, "10.24.3");
}

#[test]
fn records_each_version_once_from_its_first_application() {
    let apps = vec![
        app("", "C:/Program Files/Mendix/9.24.0/Modeler/StudioPro.exe", ""),
        app("Second", r"C:\Program Files\Mendix\9.24.0\modeler\studiopro.exe", "other"),
        app("Ten", r"C:\PROGRAM FILES\MENDIX\10.6.1\MODELER\STUDIOPRO.EXE", "registry"),
        app("Outside", r"D:\Mendix\11.0.0\modeler\studiopro.exe", ""),
        app("Not a version", r"C:\Program Files\Mendix\latest\modeler\studiopro.exe", ""),
    ];
    let versions = parse_studio_versions(apps, r"C:\Program Files\Mendix\").unwrap();
    assert_eq!(versions.len(), 2);
    assert_eq!(versions[0].version, "10.6.1");
    assert_eq!(versions[0].display_name, "Ten");
    assert_eq!(versions[0].source, "registry");
    assert_eq!(versions[0].install_root, r"C:\Program Files\Mendix\10.6.1");
    assert_eq!(versions[1].version, "9.24.0");
    assert_eq!(versions[1].display_name, "Studio Pro 9.24.0");
    assert_eq!(versions[1].source, "WinBoat Guest Server");
    assert_eq!(versions[1].executable_path, "C:/Program Files/Mendix/9.24.0/Modeler/StudioPro.exe");
    assert!(versions.iter().all(|v| v.removable));
}

#[test]
fn orders_versions_by_their_numeric_parts() {
    let apps = vec![
        app("a", r"C:\M\9.9.9\modeler\studiopro.exe", ""),
        app("b", r"C:\M\10.0.0\modeler\studiopro.exe", ""),
        app("c", r"C:\M\10.0.10\modeler\studiopro.exe", ""),
        app("d", r"C:\M\10.0.2\modeler\studiopro.exe", ""),
    ];
    let versions: Vec<String> = parse_studio_versions(apps, r"C:\M")
        .unwrap()
        .into_iter()
        .map(|v| v.version)
        .collect();
    assert_eq!(versions, vec!["10.0.10", "10.0.2", "10.0.0", "9.9.9"]);
}

#[test]
fn refuses_paths_that_lower_casing_cannot_cut() {
    let apps = vec![app("x", "C:\\\u{212A}\\11.0.0\\modeler\\studiopro.exe", "")];
    assert!(parse_studio_versions(apps, "C:\\\u{212A}").is_none());
    let cut = vec![app("x", "C:\\\u{130}\\11.0.0\\modeler\\studiopro.exe", "")];
    assert_eq!(parse_studio_versions(cut, "C:\\\u{130}").unwrap()[0].version, "1.0.0");
}
