use containr::bundle::{ProcessSpec, Spec};
use containr::error::SpecError;
use containr::process::{split_env_entry, Process};

fn spec_with(args: Option<Vec<&str>>, env: Option<Vec<&str>>) -> Spec {
    Spec {
        version: String::from("1.0.2"),
        root_path: Some(String::from("rootfs")),
        process: Some(ProcessSpec {
            args: args.map(|list| list.into_iter().map(String::from).collect()),
            env: env.map(|list| list.into_iter().map(String::from).collect()),
            cwd: String::from("/"),
        }),
        annotations: None,
    }
}

#[test]
fn plan_takes_program_and_arguments() {
    let spec = spec_with(Some(vec!["/bin/sh", "-c", "stty size"]), Some(vec!["PATH=/bin", "A=b=c"]));
    let plan = Process::try_from(&spec).unwrap();
    assert_eq!(plan.program, "/bin/sh");
    assert_eq!(plan.args, vec![String::from("-c"), String::from("stty size")]);
    assert_eq!(
        plan.env,
        vec![
            (String::from("PATH"), String::from("/bin")),
            (String::from("A"), String::from("b=c")),
        ]
    );
    assert_eq!(plan.cwd, "/");
}

#[test]
fn plan_without_process_block_fails() {
    let mut spec = spec_with(Some(vec!["/bin/true"]), None);
    spec.process = None;
    assert_eq!(Process::try_from(&spec), Err(SpecError::MissingProcess));
}

#[test]
fn plan_without_args_fails() {
    let spec = spec_with(None, None);
    assert_eq!(Process::try_from(&spec), Err(SpecError::MissingArgs));
}

#[test]
fn plan_with_empty_args_fails() {
    let spec = spec_with(Some(vec![]), Some(vec!["broken"]));
    assert_eq!(Process::try_from(&spec), Err(SpecError::EmptyArgs));
}

#[test]
fn plan_names_first_malformed_env_entry() {
    let spec = spec_with(Some(vec!["/bin/true"]), Some(vec!["A=1", "broken", "alsobroken"]));
    assert_eq!(Process::try_from(&spec), Err(SpecError::MalformedEnv { index: 1 }));
}

#[test]
fn env_entry_splits_at_first_equals() {
    assert_eq!(split_env_entry("K=V"), Some((String::from("K"), String::from("V"))));
    assert_eq!(split_env_entry("K="), Some((String::from("K"), String::new())));
    assert_eq!(split_env_entry("=V"), Some((String::new(), String::from("V"))));
    assert_eq!(split_env_entry("ключ=знач=ение"), Some((String::from("ключ"), String::from("знач=ение"))));
    assert_eq!(split_env_entry("novalue"), None);
    assert_eq!(split_env_entry(""), None);
}
