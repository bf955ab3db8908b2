use git_branch_deleter::keys::{
    entry_path, get_public_and_private_key_paths, has_private_key_name, key_paths_at,
    private_key_paths, DefaultPathsExtractor, ExtractPaths, SshKey,
};

fn home_dir() -> String {
    "/root".to_owned()
}

fn names(list: &[&str]) -> Vec<String> {
    list.iter().map(|name| name.to_string()).collect()
}

#[test]
fn test_home_paths() {
    let paths = DefaultPathsExtractor::new();

    let home = paths.extract_home_dir_path();

    assert_eq!(home, home_dir());
}

#[test]
fn test_ssh_dir_when_no_path_is_provided() {
    let paths = DefaultPathsExtractor::new();

    let ssh_path = paths.extract_ssh_key_path(None);

    let real_ssh_path = format!("{}/.ssh/", home_dir());
    assert_eq!(ssh_path, SshKey::Dir(real_ssh_path));
}

#[test]
fn home_falls_back_to_root() {
    assert_eq!(DefaultPathsExtractor::new().extract_home_dir_path(), "/root");
}

#[test]
fn home_is_the_home_variable() {
    let paths = DefaultPathsExtractor::new().with_home("/home/op".to_string());
    assert_eq!(paths.extract_home_dir_path(), "/home/op");
}

#[test]
fn windows_home_falls_back_to_system_user() {
    let paths = DefaultPathsExtractor::new().on_windows();
    assert_eq!(paths.extract_home_dir_path(), "C:\\Users\\System");
}

#[test]
fn windows_home_joins_drive_and_home_path() {
    let paths = DefaultPathsExtractor::new()
        .on_windows()
        .with_system_drive("D:".to_string())
        .with_home_path("\\Users\\op".to_string());
    assert_eq!(paths.extract_home_dir_path(), "D:\\Users\\op");
}

#[test]
fn windows_home_ignores_the_home_variable() {
    let paths = DefaultPathsExtractor::new()
        .on_windows()
        .with_home("/home/op".to_string())
        .with_home_path("\\Users\\op".to_string());
    assert_eq!(paths.extract_home_dir_path(), "C:\\Users\\op");
}

#[test]
fn default_key_directory_is_dot_ssh_under_home() {
    let paths = DefaultPathsExtractor::new().with_home("/home/op".to_string());
    assert_eq!(paths.extract_ssh_key_path(None), SshKey::Dir("/home/op/.ssh/".to_string()));
    assert_eq!(paths.locate(None, true), SshKey::Dir("/home/op/.ssh/".to_string()));
}

#[test]
fn absolute_path_is_taken_as_it_is() {
    let paths = DefaultPathsExtractor::new().with_home("/home/op".to_string());
    assert_eq!(paths.extract_ssh_key_path(Some("/keys")), SshKey::Dir("/keys".to_string()));
}

#[test]
fn relative_path_is_resolved_against_home() {
    let paths = DefaultPathsExtractor::new().with_home("/home/op".to_string());
    assert_eq!(
        paths.extract_ssh_key_path(Some("keys/work")),
        SshKey::Dir("/home/op/keys/work".to_string())
    );
    assert_eq!(paths.locate(Some("keys"), true), SshKey::Dir("/home/op/keys".to_string()));
    assert_eq!(paths.locate(Some("keys"), false), SshKey::Dir("keys".to_string()));
}

#[test]
fn relative_path_under_home_with_trailing_slash() {
    let paths = DefaultPathsExtractor::new().with_home("/home/op/".to_string());
    assert_eq!(paths.locate(Some("keys"), true), SshKey::Dir("/home/op/keys".to_string()));
}

#[test]
fn known_regular_file_is_a_key_file() {
    let paths = DefaultPathsExtractor::new()
        .with_home("/home/op".to_string())
        .with_regular_file("/keys/deploy".to_string());
    assert_eq!(
        paths.extract_ssh_key_path(Some("/keys/deploy")),
        SshKey::File("/keys/deploy".to_string())
    );
    assert_eq!(
        paths.extract_ssh_key_path(Some("/keys/other")),
        SshKey::Dir("/keys/other".to_string())
    );
}

#[test]
fn relative_path_is_resolved_before_the_file_check() {
    let paths = DefaultPathsExtractor::new()
        .with_home("/home/op".to_string())
        .with_regular_file("/home/op/deploy".to_string());
    assert_eq!(paths.locate(Some("deploy"), true), SshKey::File("/home/op/deploy".to_string()));
    assert_eq!(paths.locate(Some("deploy"), false), SshKey::Dir("deploy".to_string()));
}

#[test]
fn ssh_key_path_is_the_same_for_both_kinds() {
    assert_eq!(SshKey::File("/a/b".to_string()).get_path(), "/a/b");
    assert_eq!(SshKey::Dir("/a/".to_string()).get_path(), "/a/");
}

#[test]
fn ssh_keys_differ_by_kind_and_path() {
    assert_ne!(SshKey::File("/a".to_string()), SshKey::Dir("/a".to_string()));
    assert_ne!(SshKey::Dir("/a".to_string()), SshKey::Dir("/b".to_string()));
    assert_eq!(SshKey::File("/a".to_string()), SshKey::File("/a".to_string()));
}

#[test]
fn private_key_names() {
    assert!(has_private_key_name("id_rsa"));
    assert!(has_private_key_name("id_ed25519"));
    assert!(has_private_key_name("id_"));
    assert!(has_private_key_name("id_rsa.pub.bak"));
    assert!(!has_private_key_name("id_rsa.pub"));
    assert!(!has_private_key_name("id_.pub"));
    assert!(!has_private_key_name("config"));
    assert!(!has_private_key_name("known_hosts"));
    assert!(!has_private_key_name("my_id_rsa"));
    assert!(!has_private_key_name("ID_rsa"));
}

#[test]
fn short_names_are_no_keys() {
    assert!(!has_private_key_name(""));
    assert!(!has_private_key_name("i"));
    assert!(!has_private_key_name("id"));
    assert!(!has_private_key_name(".pub"));
}

#[test]
fn names_beyond_ascii_are_compared_by_character() {
    assert!(has_private_key_name("id_clé"));
    assert!(!has_private_key_name("idé_rsa"));
    assert!(!has_private_key_name("id_é.pub"));
}

#[test]
fn entry_path_adds_one_separator() {
    assert_eq!(entry_path("/home/op/.ssh/", "id_rsa"), "/home/op/.ssh/id_rsa");
    assert_eq!(entry_path("/keys", "id_rsa"), "/keys/id_rsa");
    assert_eq!(entry_path("/", "id_rsa"), "/id_rsa");
    assert_eq!(entry_path("", "id_rsa"), "/id_rsa");
}

#[test]
fn directory_with_one_private_key() {
    let listing = names(&["id_rsa", "id_rsa.pub", "config", "known_hosts"]);
    assert_eq!(private_key_paths("/home/op/.ssh/", &listing), vec!["/home/op/.ssh/id_rsa"]);
}

#[test]
fn candidates_keep_the_order_of_the_listing() {
    let listing = names(&["id_rsa", "notes", "id_ed25519", "id_rsa.pub", "id_dsa"]);
    assert_eq!(
        private_key_paths("/k", &listing),
        vec!["/k/id_rsa", "/k/id_ed25519", "/k/id_dsa"]
    );
}

#[test]
fn directory_without_keys_gives_no_candidates() {
    let listing = names(&["config", "known_hosts", "id_rsa.pub"]);
    assert_eq!(private_key_paths("/k/", &listing), Vec::<String>::new());
    assert_eq!(private_key_paths("/k/", &Vec::new()), Vec::<String>::new());
}

#[test]
fn key_file_is_the_one_candidate() {
    let listing = names(&["id_rsa", "id_ed25519"]);
    let found = key_paths_at(SshKey::File("/keys/deploy".to_string()), Ok(listing)).unwrap();
    assert_eq!(found, vec!["/keys/deploy"]);
}

#[test]
fn key_file_needs_no_listing() {
    let found = key_paths_at(
        SshKey::File("/keys/deploy".to_string()),
        Err("permission denied".to_string()),
    )
    .unwrap();
    assert_eq!(found, vec!["/keys/deploy"]);
}

#[test]
fn failed_scan_is_an_error() {
    let found = key_paths_at(
        SshKey::Dir("/keys/".to_string()),
        Err("permission denied".to_string()),
    );
    assert_eq!(found.unwrap_err().message, "permission denied");
}

#[test]
fn empty_directory_is_no_error() {
    let found = key_paths_at(SshKey::Dir("/keys/".to_string()), Ok(Vec::new())).unwrap();
    assert!(found.is_empty());
}

#[test]
fn explicit_file_is_returned_whatever_the_directory_holds() {
    let paths = DefaultPathsExtractor::new()
        .with_home("/home/op".to_string())
        .with_regular_file("/home/op/.ssh/deploy".to_string());
    let listing = names(&["id_rsa", "id_rsa.pub", "deploy"]);
    let found =
        get_public_and_private_key_paths(paths, Some("/home/op/.ssh/deploy"), Ok(listing)).unwrap();
    assert_eq!(found, vec!["/home/op/.ssh/deploy"]);
}

#[test]
fn default_directory_is_scanned_when_no_path_is_given() {
    let paths = DefaultPathsExtractor::new().with_home("/home/op".to_string());
    let listing = names(&["id_rsa", "id_rsa.pub", "config", "known_hosts"]);
    let found = get_public_and_private_key_paths(paths, None, Ok(listing)).unwrap();
    assert_eq!(found, vec!["/home/op/.ssh/id_rsa"]);
}

#[test]
fn explicit_directory_is_scanned() {
    let paths = DefaultPathsExtractor::new();
    let listing = names(&["id_work", "id_work.pub"]);
    let found = get_public_and_private_key_paths(paths, Some("/keys"), Ok(listing)).unwrap();
    assert_eq!(found, vec!["/keys/id_work"]);
}

#[test]
fn scan_failure_reaches_the_caller() {
    let paths = DefaultPathsExtractor::new();
    let found = get_public_and_private_key_paths(paths, None, Err("no such directory".to_string()));
    assert_eq!(found.unwrap_err().message, "no such directory");
}

struct FixedPlace;

impl ExtractPaths for FixedPlace {
    fn extract_ssh_key_path(&self, _path: Option<&str>) -> SshKey {
        SshKey::Dir("/fixed/".to_string())
    }

    fn extract_home_dir_path(&self) -> String {
        "/fixed".to_string()
    }
}

#[test]
fn another_extractor_decides_where_to_look() {
    let listing = names(&["id_a", "b"]);
    let found = get_public_and_private_key_paths(FixedPlace, Some("/ignored"), Ok(listing)).unwrap();
    assert_eq!(found, vec!["/fixed/id_a"]);
}
