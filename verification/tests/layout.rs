use containr::layout::{config_file, is_path_safe, runtime_dir, start_fifo, state_file};

#[test]
fn runtime_dir_lies_under_containr() {
    assert_eq!(runtime_dir("/run/user/1000", "c1"), "/run/user/1000/containr/c1");
}

#[test]
fn runtime_dir_keeps_root_and_id_as_given() {
    assert_eq!(runtime_dir("", ""), "/containr/");
    assert_eq!(runtime_dir("/run/", "a b"), "/run//containr/a b");
}

#[test]
fn state_file_is_state_json() {
    assert_eq!(state_file("/run/user/1000/containr/c1"), "/run/user/1000/containr/c1/state.json");
}

#[test]
fn start_fifo_is_start() {
    assert_eq!(start_fifo("/run/user/1000/containr/c1"), "/run/user/1000/containr/c1/start");
}

#[test]
fn config_file_is_config_json() {
    assert_eq!(config_file("/bundles/c1"), "/bundles/c1/config.json");
}

#[test]
fn runtime_dir_ends_in_the_id() {
    let dir = runtime_dir("/run/user/1000", "c7");
    assert_eq!(dir.rsplit('/').next(), Some("c7"));
}

#[test]
fn plain_ids_are_path_safe() {
    for id in ["c1", "a b", "my-container_01", "...", "a.b", ".hidden", "é"] {
        assert!(is_path_safe(id));
    }
}

#[test]
fn empty_id_is_not_path_safe() {
    assert!(!is_path_safe(""));
}

#[test]
fn ids_with_a_slash_are_not_path_safe() {
    for id in ["/", "a/b", "/abs", "trailing/", "../up"] {
        assert!(!is_path_safe(id));
    }
}

#[test]
fn ids_with_nul_are_not_path_safe() {
    assert!(!is_path_safe("a\0b"));
    assert!(!is_path_safe("\0"));
}

#[test]
fn dot_and_dot_dot_are_not_path_safe() {
    assert!(!is_path_safe("."));
    assert!(!is_path_safe(".."));
}

#[test]
fn path_safe_id_names_its_runtime_dir() {
    for id in ["c1", "a b", "..."] {
        assert!(is_path_safe(id));
        let dir = runtime_dir("/run/user/1000", id);
        assert_eq!(dir.rsplit('/').next(), Some(id));
    }
}
