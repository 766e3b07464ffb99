use rumahl_platform::supervisor_args::{parse_args, set_once, SupervisorArgsError};

fn args(values: &[&str]) -> Vec<Vec<u8>> {
    values.iter().map(|value| value.as_bytes().to_vec()).collect()
}

fn complete_args() -> Vec<Vec<u8>> {
    args(&[
        "--docker",
        "/usr/bin/docker",
        "--runtime-root",
        "/run/rumahl-runtime-supervisor/apps",
        "--image-root",
        "/var/lib/rumahl-runtime-images",
        "--network",
        "rumahl-apps",
        "--instance",
        "system",
        "--control-socket",
        "/run/rumahl-runtime-supervisor/control.sock",
        "--secret-socket",
        "/run/rumahl-runtime-supervisor/secrets.sock",
        "--platform-user",
        "rumahl-platform",
    ])
}

#[test]
fn parses_complete_explicit_configuration() {
    let parsed = parse_args(complete_args()).unwrap();
    assert_eq!(parsed.docker, b"/usr/bin/docker".to_vec());
    assert_eq!(parsed.network, "rumahl-apps");
    assert_eq!(parsed.platform_user, "rumahl-platform");
}

#[test]
fn rejects_missing_unknown_and_duplicate_options() {
    assert_eq!(
        parse_args(Vec::new()).unwrap_err(),
        SupervisorArgsError::MissingOption("--docker")
    );
    assert_eq!(
        parse_args(args(&["--other", "value"])).unwrap_err(),
        SupervisorArgsError::UnknownOption
    );
    let mut duplicate = complete_args();
    duplicate.extend(args(&["--network", "other"]));
    assert_eq!(
        parse_args(duplicate).unwrap_err(),
        SupervisorArgsError::DuplicateOption
    );
}

#[test]
fn options_may_come_in_any_order_but_need_values_and_text_names() {
    let mut reversed: Vec<Vec<u8>> = complete_args()
        .chunks(2)
        .rev()
        .flat_map(|pair| pair.to_vec())
        .collect();
    assert_eq!(parse_args(reversed.clone()).unwrap().instance, "system");
    reversed.push(b"--docker".to_vec());
    assert_eq!(
        parse_args(reversed).unwrap_err(),
        SupervisorArgsError::MissingValue
    );
    let mut non_text = args(&["--docker", "/usr/bin/docker", "--network"]);
    non_text.push(vec![0xff]);
    assert_eq!(
        parse_args(non_text).unwrap_err(),
        SupervisorArgsError::NonUtf8Value("--network")
    );
    let mut raw_path = args(&["--docker"]);
    raw_path.push(vec![b'/', 0xff]);
    assert_eq!(
        parse_args(raw_path).unwrap_err(),
        SupervisorArgsError::MissingOption("--runtime-root")
    );
    assert_eq!(
        parse_args(vec![vec![0xff], b"x".to_vec()]).unwrap_err(),
        SupervisorArgsError::UnknownOption
    );
}

#[test]
fn a_slot_takes_one_value() {
    let mut slot = None;
    assert!(set_once(&mut slot, 1).is_ok());
    assert_eq!(
        set_once(&mut slot, 2).unwrap_err(),
        SupervisorArgsError::DuplicateOption
    );
}
