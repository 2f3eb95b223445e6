use stratisd_core::devpath::DevicePath;
use stratisd_core::error::StratisError;

#[test]
fn nonexistent_path_fails() {
    let r = DevicePath::new("/this/path/does/not/exist/at/all".to_string());
    assert!(matches!(r, Err(StratisError::Io(_))));
}

#[test]
fn relative_path_is_made_canonical() {
    let p = DevicePath::new(".".to_string()).unwrap();
    assert!(p.as_str().starts_with('/'));
    assert!(!p.as_str().ends_with("/."));
    let q = DevicePath::new("./././".to_string()).unwrap();
    assert_eq!(q.as_str(), p.as_str());
    assert_eq!(&*q, p.as_str());
}

#[test]
fn root_is_its_own_canonical_form() {
    assert_eq!(DevicePath::new("/".to_string()).unwrap().as_str(), "/");
    assert_eq!(DevicePath::new("/.".to_string()).unwrap().as_str(), "/");
}

#[test]
fn resolution_error_is_handed_on() {
    let e = std::io::Error::new(std::io::ErrorKind::PermissionDenied, "denied");
    match DevicePath::from_resolution(Err(e)) {
        Err(StratisError::Io(e)) => assert_eq!(e.kind(), std::io::ErrorKind::PermissionDenied),
        _ => panic!("the error is handed on"),
    }
    let p = DevicePath::from_resolution(Ok("/dev/sda".to_string())).unwrap();
    assert_eq!(p.as_str(), "/dev/sda");
}

#[test]
fn resolved_path_has_no_trivial_components() {
    let p = DevicePath::new("./.././.".to_string()).unwrap();
    let s = p.as_str();
    assert!(s.starts_with('/'));
    assert!(!s.contains("/./") && !s.contains("/../") && !s.contains("//"));
    assert!(s == "/" || !s.ends_with('/'));
}
