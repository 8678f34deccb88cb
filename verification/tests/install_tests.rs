use ket::install::{
    available_packages, find_package, find_package_named, installer_path, packages, TransferProgress,
    TransferStep,
};

#[test]
fn registry_has_nine_entries() {
    let all = packages();
    assert_eq!(all.len(), 9);
    assert_eq!(all[0].name, "python");
    assert_eq!(all[3].name, "node");
    assert_eq!(all[8].filename, "rustup-init.exe");
}

#[test]
fn find_package_ignores_case() {
    let p = find_package("PYTHON").expect("python");
    assert_eq!(p.display_name, "Python 3");
    assert_eq!(find_package("Git").unwrap().name, "git");
    assert_eq!(find_package("node").unwrap().display_name, "Node.js LTS");
    assert_eq!(find_package("NodeJS").unwrap().name, "nodejs");
    assert!(find_package("photoshop").is_none());
    assert!(find_package("").is_none());
    assert!(find_package_named("PYTHON").is_none());
    assert_eq!(find_package_named("vlc").unwrap().display_name, "VLC Media Player");
}

#[test]
fn available_packages_list_each_display_name_once() {
    let list = available_packages();
    let names: Vec<&str> = list.iter().map(|p| p.name).collect();
    assert_eq!(names, vec!["python", "git", "nodejs", "vscode", "ffmpeg", "7zip", "vlc", "rust"]);
}

#[test]
fn installer_goes_to_downloads_then_current_dir() {
    let p = find_package("7zip").unwrap();
    let expect = std::path::Path::new("/d").join("7z2409-x64.exe").to_string_lossy().into_owned();
    assert_eq!(installer_path(&p, Some("/d"), Some("/c")), expect);
    let expect = std::path::Path::new("/c").join("7z2409-x64.exe").to_string_lossy().into_owned();
    assert_eq!(installer_path(&p, None, Some("/c")), expect);
    assert_eq!(installer_path(&p, None, None), "7z2409-x64.exe");
}

#[test]
fn transfer_counts_bytes() {
    let mut t = TransferProgress::new();
    assert_eq!(t.on_read(8192), TransferStep::Write { len: 8192, position: 8192 });
    assert_eq!(t.on_read(100), TransferStep::Write { len: 100, position: 8292 });
    assert_eq!(t.on_read(0), TransferStep::Finished);
    assert_eq!(t.total(), 8292);
}

#[test]
fn lookup_ignores_ascii_case() {
    for q in ["python", "PYTHON", "PyThOn"] {
        assert_eq!(find_package(q).unwrap().name, "python");
    }
    for q in ["vscode", "VSCODE", "VsCode"] {
        assert_eq!(find_package(q).unwrap().filename, "VSCodeSetup-x64.exe");
    }
}

#[test]
fn listed_names_are_found_again() {
    for pkg in available_packages() {
        assert_eq!(find_package(pkg.name).unwrap().name, pkg.name);
    }
}
