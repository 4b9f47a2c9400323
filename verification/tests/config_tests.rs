use ini::Ini;
use keylime_common::config::{
    cloudagent_contact_ip_get, cloudagent_contact_port_get, cloudagent_ip_get,
    cloudagent_port_get, config_file_get, config_get, config_get_env, config_get_from,
    registrar_ip_get, registrar_port_get, revocation_ip_get, revocation_port_get,
    suppress_not_found,
};
use keylime_common::errors::{ConfigDetail, Error};

#[test]
fn test_config_get_parameters_exist() {}

#[test]
fn test_config_file_get() {
    // With an empty environment value the default is used
    assert_eq!(
        config_file_get(Some(String::new())),
        String::from("/etc/keylime.conf")
    );

    // With a non-empty environment value that value is used
    assert_eq!(
        config_file_get(Some(String::from("/tmp/testing.conf"))),
        String::from("/tmp/testing.conf")
    );
}

#[test]
fn test_config_file_get_unset() {
    assert_eq!(config_file_get(None), String::from("/etc/keylime.conf"));
}

fn sample_conf() -> Ini {
    let mut conf = Ini::new();
    conf.with_section(Some("general"))
        .set("receive_revocation_port", "8080")
        .set("receive_revocation_ip", "127.0.0.1");
    conf.with_section(Some("cloud_agent"))
        .set("cloudagent_port", "9002");
    conf
}

#[test]
fn test_config_get_from_present() {
    let conf = sample_conf();
    let r = config_get_from(
        &conf,
        String::from("sample.conf"),
        "general",
        "receive_revocation_port",
    );
    assert_eq!(r.unwrap(), "8080");
    let r = config_get_from(
        &conf,
        String::from("sample.conf"),
        "cloud_agent",
        "cloudagent_port",
    );
    assert_eq!(r.unwrap(), "9002");
}

#[test]
fn test_config_get_from_missing_section() {
    let conf = sample_conf();
    let r = config_get_from(&conf, String::from("sample.conf"), "registrar", "ip");
    match r {
        Err(Error::Configuration(ConfigDetail::MissingSection { section, file })) => {
            assert_eq!(section, "registrar");
            assert_eq!(file, "sample.conf");
        }
        other => panic!("expected a missing-section error, got {:?}", other),
    }
}

#[test]
fn test_config_get_from_missing_key() {
    let conf = sample_conf();
    let r = config_get_from(&conf, String::from("sample.conf"), "general", "no_such_key");
    match r {
        Err(Error::Configuration(ConfigDetail::MissingKey { section, key, file })) => {
            assert_eq!(section, "general");
            assert_eq!(key, "no_such_key");
            assert_eq!(file, "sample.conf");
        }
        other => panic!("expected a missing-key error, got {:?}", other),
    }
}

#[test]
fn test_config_get_missing_file() {
    let r = config_get(
        Some(String::from("/tmp/keylime_common_no_such_file.conf")),
        "general",
        "receive_revocation_port",
    );
    match r {
        Err(Error::Configuration(ConfigDetail::Load { file })) => {
            assert_eq!(file, "/tmp/keylime_common_no_such_file.conf");
        }
        other => panic!("expected a load error, got {:?}", other),
    }
}

#[test]
fn test_env_wins_without_file() {
    // The environment value wins even though the file does not exist
    let r = config_get_env(
        "general",
        "receive_revocation_port",
        Some(String::from("9090")),
        Some(String::from("/tmp/keylime_common_no_such_file.conf")),
    );
    assert_eq!(r.unwrap(), "9090");
}

#[test]
fn test_env_wins_over_file() {
    let path = "/tmp/keylime_common_test_env_wins.conf";
    sample_conf().write_to_file(path).unwrap();
    let r = config_get_env(
        "general",
        "receive_revocation_port",
        Some(String::from("9090")),
        Some(String::from(path)),
    );
    assert_eq!(r.unwrap(), "9090");
}

#[test]
fn test_empty_env_falls_through_to_file() {
    let path = "/tmp/keylime_common_test_env_empty.conf";
    sample_conf().write_to_file(path).unwrap();
    let r = config_get_env(
        "general",
        "receive_revocation_port",
        Some(String::new()),
        Some(String::from(path)),
    );
    assert_eq!(r.unwrap(), "8080");
}

#[test]
fn test_revocation_port_end_to_end() {
    let path = "/tmp/keylime_common_test_revocation.conf";
    sample_conf().write_to_file(path).unwrap();

    // Environment unset: the file value is returned
    let r = revocation_port_get(None, Some(String::from(path)));
    assert_eq!(r.unwrap(), "8080");

    // Environment empty: treated as unset
    let r = revocation_port_get(Some(String::new()), Some(String::from(path)));
    assert_eq!(r.unwrap(), "8080");

    // Environment set: it wins regardless of the file content
    let r = revocation_port_get(Some(String::from("9090")), Some(String::from(path)));
    assert_eq!(r.unwrap(), "9090");
}

#[test]
fn test_named_getters_env_override() {
    let missing = || Some(String::from("/tmp/keylime_common_no_such_file.conf"));
    assert_eq!(
        revocation_ip_get(Some(String::from("10.0.0.1")), missing()).unwrap(),
        "10.0.0.1"
    );
    assert_eq!(
        cloudagent_ip_get(Some(String::from("10.0.0.2")), missing()).unwrap(),
        "10.0.0.2"
    );
    assert_eq!(
        cloudagent_port_get(Some(String::from("9002")), missing()).unwrap(),
        "9002"
    );
    assert_eq!(
        registrar_ip_get(Some(String::from("10.0.0.3")), missing()).unwrap(),
        "10.0.0.3"
    );
    assert_eq!(
        registrar_port_get(Some(String::from("8890")), missing()).unwrap(),
        "8890"
    );
}

#[test]
fn test_suppress_not_found() {
    assert_eq!(
        suppress_not_found(Ok(String::from("value"))),
        Some(String::from("value"))
    );
    assert_eq!(suppress_not_found(Err(Error::Permission)), None);
    assert_eq!(
        suppress_not_found(Err(Error::Configuration(ConfigDetail::Load {
            file: String::from("f.conf")
        }))),
        None
    );
}

#[test]
fn test_contact_ip_absent_is_none() {
    let path = "/tmp/keylime_common_test_contact_ip.conf";
    sample_conf().write_to_file(path).unwrap();
    let r = cloudagent_contact_ip_get(None, Some(String::from(path)));
    assert_eq!(r, None);
}

#[test]
fn test_contact_ip_env_override() {
    let r = cloudagent_contact_ip_get(
        Some(String::from("192.168.0.7")),
        Some(String::from("/tmp/keylime_common_no_such_file.conf")),
    );
    assert_eq!(r, Some(String::from("192.168.0.7")));
}

#[test]
fn test_contact_port_absent_is_none() {
    // Setting entirely absent: no env value, no file key, not even a file
    let r = cloudagent_contact_port_get(
        None,
        Some(String::from("/tmp/keylime_common_no_such_file.conf")),
    );
    assert_eq!(r.unwrap(), None);

    // File present but without the key
    let path = "/tmp/keylime_common_test_contact_port_absent.conf";
    sample_conf().write_to_file(path).unwrap();
    let r = cloudagent_contact_port_get(None, Some(String::from(path)));
    assert_eq!(r.unwrap(), None);
}

#[test]
fn test_contact_port_present_values() {
    let path = "/tmp/keylime_common_test_contact_port.conf";
    let mut conf = sample_conf();
    conf.with_section(Some("cloud_agent"))
        .set("agent_contact_port", "9002");
    conf.write_to_file(path).unwrap();
    let r = cloudagent_contact_port_get(None, Some(String::from(path)));
    assert_eq!(r.unwrap(), Some(9002));
}

#[test]
fn test_contact_port_leading_plus_is_accepted() {
    let path = "/tmp/keylime_common_test_contact_port_plus.conf";
    let mut conf = sample_conf();
    conf.with_section(Some("cloud_agent"))
        .set("agent_contact_port", "+9002");
    conf.write_to_file(path).unwrap();
    let r = cloudagent_contact_port_get(None, Some(String::from(path)));
    assert_eq!(r.unwrap(), Some(9002));
}

#[test]
fn test_contact_port_non_numeric_is_error() {
    let path = "/tmp/keylime_common_test_contact_port_bad.conf";
    let mut conf = sample_conf();
    conf.with_section(Some("cloud_agent"))
        .set("agent_contact_port", "abc");
    conf.write_to_file(path).unwrap();
    let r = cloudagent_contact_port_get(None, Some(String::from(path)));
    match r {
        Err(Error::Configuration(ConfigDetail::BadPort { value })) => {
            assert_eq!(value, "abc");
        }
        other => panic!("expected a bad-port error, got {:?}", other),
    }
}

#[test]
fn test_contact_port_non_numeric_env_is_error() {
    let r = cloudagent_contact_port_get(
        Some(String::from("abc")),
        Some(String::from("/tmp/keylime_common_no_such_file.conf")),
    );
    match r {
        Err(Error::Configuration(ConfigDetail::BadPort { value })) => {
            assert_eq!(value, "abc");
        }
        other => panic!("expected a bad-port error, got {:?}", other),
    }
}
