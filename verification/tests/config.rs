use jvmti_abi::config::Config;
use jvmti_abi::version::{ParseError, Version};

fn args(list: &[&str]) -> Vec<String> {
    list.iter().map(|s| s.to_string()).collect()
}

#[test]
fn no_arguments_give_the_defaults() {
    let cfg = Config::parse(&args(&[])).ok().unwrap();
    assert_eq!(cfg.name, "JNI");
    assert_eq!(cfg.version_default, Version { major: 1, minor: 1 });
}

#[test]
fn name_alone() {
    let cfg = Config::parse(&args(&["JVMTI"])).ok().unwrap();
    assert_eq!(cfg.name, "JVMTI");
    assert_eq!(cfg.version_default, Version { major: 1, minor: 1 });
}

#[test]
fn name_and_default_version() {
    let cfg = Config::parse(&args(&["JVMTI", "1.0"])).ok().unwrap();
    assert_eq!(cfg.name, "JVMTI");
    assert_eq!(cfg.version_default, Version { major: 1, minor: 0 });
    let cfg = Config::parse(&args(&["X", "reserved"])).ok().unwrap();
    assert_eq!(cfg.version_default, Version { major: 999, minor: 0 });
}

#[test]
fn further_arguments_are_not_looked_at() {
    let cfg = Config::parse(&args(&["A", "9", "abc", ""])).ok().unwrap();
    assert_eq!(cfg.name, "A");
    assert_eq!(cfg.version_default, Version { major: 9, minor: 0 });
}

#[test]
fn malformed_default_version_is_refused() {
    assert_eq!(Config::parse(&args(&["JNI", "abc"])).err(), Some(ParseError));
    assert_eq!(Config::parse(&args(&["JNI", ""])).err(), Some(ParseError));
    assert_eq!(Config::parse(&args(&["JNI", "1.2.3"])).err(), Some(ParseError));
}

#[test]
fn the_name_is_taken_as_it_is() {
    let cfg = Config::parse(&args(&[""])).ok().unwrap();
    assert_eq!(cfg.name, "");
    let cfg = Config::parse(&args(&["abc", "1"])).ok().unwrap();
    assert_eq!(cfg.name, "abc");
}
