use levo::sandbox::{is_path_within_allowed_directory, read_file_next, ReadFileAction, ReadFileStage, ReadRefusal};

fn comps(parts: &[&str]) -> Vec<String> {
    parts.iter().map(|s| s.to_string()).collect()
}

#[test]
fn within_compares_whole_components() {
    let public = comps(&["/", "test-folder", "public"]);
    assert!(is_path_within_allowed_directory(&public, &comps(&["/", "test-folder", "public", "hello.txt"])));
    assert!(is_path_within_allowed_directory(&public, &public));
    assert!(!is_path_within_allowed_directory(&public, &comps(&["/", "test-folder", "private", "hello.txt"])));
    assert!(!is_path_within_allowed_directory(&public, &comps(&["/", "test-folder", "publicity"])));
    assert!(!is_path_within_allowed_directory(&public, &comps(&["/", "test-folder"])));
    assert!(is_path_within_allowed_directory(&comps(&[]), &comps(&["/"])));
}

#[test]
fn no_allowed_directory_refuses() {
    match read_file_next(ReadFileStage::Requested { allow_read: false }) {
        ReadFileAction::Refuse(ReadRefusal::NotAllowed) => {}
        _ => panic!("expected a refusal"),
    }
    match read_file_next(ReadFileStage::Requested { allow_read: true }) {
        ReadFileAction::ResolveRoot => {}
        _ => panic!("expected to resolve the root"),
    }
}

#[test]
fn unresolved_paths_refuse_with_message() {
    match read_file_next(ReadFileStage::RootResolved { root: Err("no such dir".to_string()) }) {
        ReadFileAction::Refuse(ReadRefusal::RootUnresolved(m)) => assert_eq!(m, "no such dir"),
        _ => panic!("expected a refusal"),
    }
    match read_file_next(ReadFileStage::RootResolved { root: Ok(comps(&["/", "pub"])) }) {
        ReadFileAction::ResolveTarget { root } => assert_eq!(root, comps(&["/", "pub"])),
        _ => panic!("expected to resolve the target"),
    }
    match read_file_next(ReadFileStage::TargetResolved {
        root: comps(&["/", "pub"]),
        target: Err("missing".to_string()),
    }) {
        ReadFileAction::Refuse(ReadRefusal::TargetUnresolved(m)) => assert_eq!(m, "missing"),
        _ => panic!("expected a refusal"),
    }
}

#[test]
fn public_file_is_read_private_is_refused() {
    match read_file_next(ReadFileStage::TargetResolved {
        root: comps(&["/", "test-folder", "public"]),
        target: Ok(comps(&["/", "test-folder", "public", "hello.txt"])),
    }) {
        ReadFileAction::Read { target } => assert_eq!(target, comps(&["/", "test-folder", "public", "hello.txt"])),
        _ => panic!("expected a read"),
    }
    match read_file_next(ReadFileStage::TargetResolved {
        root: comps(&["/", "test-folder", "public"]),
        target: Ok(comps(&["/", "test-folder", "private", "hello.txt"])),
    }) {
        ReadFileAction::Refuse(ReadRefusal::OutsideAllowed { root, target }) => {
            assert_eq!(root, comps(&["/", "test-folder", "public"]));
            assert_eq!(target, comps(&["/", "test-folder", "private", "hello.txt"]));
        }
        _ => panic!("expected a refusal"),
    }
}
