use nextest_core::env_file::{
    has_reserved_prefix, parse_env_file, parse_env_line, SetupScriptEnvMap,
    SetupScriptOutputError, KEY_VALUE_SEPARATOR, RESERVED_KEY_PREFIX,
};

fn lines(text: &[&str]) -> Vec<String> {
    text.iter().map(|line| line.to_string()).collect()
}

#[test]
fn the_reserved_prefix_is_the_runners_name() {
    assert_eq!(RESERVED_KEY_PREFIX, "NEXTEST");
    assert_eq!(KEY_VALUE_SEPARATOR, '=');
}

#[test]
fn a_line_is_split_at_its_first_equals_sign() {
    assert_eq!(
        parse_env_line("env", "KEY=VALUE"),
        Ok((String::from("KEY"), String::from("VALUE")))
    );
    assert_eq!(
        parse_env_line("env", "A=B=C"),
        Ok((String::from("A"), String::from("B=C")))
    );
    assert_eq!(
        parse_env_line("env", "A=="),
        Ok((String::from("A"), String::from("=")))
    );
}

#[test]
fn key_and_value_may_be_empty() {
    assert_eq!(
        parse_env_line("env", "KEY="),
        Ok((String::from("KEY"), String::new()))
    );
    assert_eq!(
        parse_env_line("env", "=VALUE"),
        Ok((String::new(), String::from("VALUE")))
    );
    assert_eq!(parse_env_line("env", "="), Ok((String::new(), String::new())));
}

#[test]
fn nothing_is_escaped_or_trimmed() {
    assert_eq!(
        parse_env_line("env", " K =\" v \\n\" "),
        Ok((String::from(" K "), String::from("\" v \\n\" ")))
    );
}

#[test]
fn characters_beyond_ascii_count_as_one() {
    assert_eq!(
        parse_env_line("env", "gr\u{fc}\u{df}e=\u{1f980}=\u{e9}"),
        Ok((
            String::from("gr\u{fc}\u{df}e"),
            String::from("\u{1f980}=\u{e9}")
        ))
    );
}

#[test]
fn a_line_without_equals_sign_is_refused() {
    assert_eq!(
        parse_env_line("out/env", "KEY VALUE"),
        Err(SetupScriptOutputError::EnvFileParse {
            path: String::from("out/env"),
            line: String::from("KEY VALUE"),
        })
    );
}

#[test]
fn a_blank_line_is_refused() {
    assert_eq!(
        parse_env_line("out/env", ""),
        Err(SetupScriptOutputError::EnvFileParse {
            path: String::from("out/env"),
            line: String::new(),
        })
    );
}

#[test]
fn a_reserved_key_is_refused() {
    assert_eq!(
        parse_env_line("env", "NEXTEST_RUN_ID=1"),
        Err(SetupScriptOutputError::EnvFileReservedKey {
            key: String::from("NEXTEST_RUN_ID"),
        })
    );
    assert_eq!(
        parse_env_line("env", "NEXTEST=1"),
        Err(SetupScriptOutputError::EnvFileReservedKey {
            key: String::from("NEXTEST"),
        })
    );
}

#[test]
fn only_a_prefix_of_the_key_is_reserved() {
    assert!(parse_env_line("env", "NEXTES=1").is_ok());
    assert!(parse_env_line("env", "MY_NEXTEST=1").is_ok());
    assert!(parse_env_line("env", "nextest=1").is_ok());
    assert!(parse_env_line("env", "X=NEXTEST").is_ok());
}

#[test]
fn has_reserved_prefix_looks_at_the_start() {
    assert!(has_reserved_prefix("NEXTEST"));
    assert!(has_reserved_prefix("NEXTEST_PROFILE"));
    assert!(!has_reserved_prefix("NEXTES"));
    assert!(!has_reserved_prefix(""));
    assert!(!has_reserved_prefix("_NEXTEST"));
    assert!(!has_reserved_prefix("NEXTESt"));
}

#[test]
fn a_file_is_read_line_by_line() {
    let env = parse_env_file("env", &lines(&["A=1", "B=2", "C=3=4"])).unwrap();
    assert_eq!(env.len(), 3);
    assert_eq!(env.get("A"), Some(&String::from("1")));
    assert_eq!(env.get("B"), Some(&String::from("2")));
    assert_eq!(env.get("C"), Some(&String::from("3=4")));
    assert_eq!(env.get("D"), None);
}

#[test]
fn an_empty_file_sets_nothing() {
    let env = parse_env_file("env", &Vec::new()).unwrap();
    assert_eq!(env.len(), 0);
    assert_eq!(env, SetupScriptEnvMap::new());
}

#[test]
fn a_later_line_replaces_an_earlier_one() {
    let env = parse_env_file("env", &lines(&["A=1", "B=2", "A=3"])).unwrap();
    assert_eq!(env.len(), 2);
    assert_eq!(env.get("A"), Some(&String::from("3")));
    assert_eq!(
        env.entry(0),
        Some((&String::from("A"), &String::from("3")))
    );
    assert_eq!(
        env.entry(1),
        Some((&String::from("B"), &String::from("2")))
    );
    assert_eq!(env.entry(2), None);
}

#[test]
fn the_first_refused_line_ends_the_reading() {
    assert_eq!(
        parse_env_file("env", &lines(&["A=1", "oops", "NEXTEST_X=1"])),
        Err(SetupScriptOutputError::EnvFileParse {
            path: String::from("env"),
            line: String::from("oops"),
        })
    );
    assert_eq!(
        parse_env_file("env", &lines(&["NEXTEST_X=1", "oops"])),
        Err(SetupScriptOutputError::EnvFileReservedKey {
            key: String::from("NEXTEST_X"),
        })
    );
    assert_eq!(
        parse_env_file("env", &lines(&["A=1", ""])),
        Err(SetupScriptOutputError::EnvFileParse {
            path: String::from("env"),
            line: String::new(),
        })
    );
}

#[test]
fn insert_returns_what_was_set_before() {
    let mut env = SetupScriptEnvMap::new();
    assert_eq!(env.insert(String::from("A"), String::from("1")), None);
    assert_eq!(env.insert(String::from("B"), String::from("2")), None);
    assert_eq!(
        env.insert(String::from("A"), String::from("3")),
        Some(String::from("1"))
    );
    assert_eq!(env.len(), 2);
    assert_eq!(env.get("A"), Some(&String::from("3")));
    assert_eq!(env.get("B"), Some(&String::from("2")));
}

#[test]
fn a_refused_line_leaves_the_map_as_it_was() {
    let mut env = SetupScriptEnvMap::new();
    assert_eq!(env.insert_line("env", "A=1"), Ok(()));
    let before = env.clone();
    assert!(env.insert_line("env", "no separator").is_err());
    assert!(env.insert_line("env", "NEXTEST_A=2").is_err());
    assert_eq!(env, before);
    assert_eq!(env.insert_line("env", "A=2"), Ok(()));
    assert_eq!(env.get("A"), Some(&String::from("2")));
}

#[test]
fn merge_prefers_the_later_script() {
    let mut phase = parse_env_file("one", &lines(&["A=1", "B=2"])).unwrap();
    let later = parse_env_file("two", &lines(&["B=20", "C=30"])).unwrap();
    phase.merge(&later);
    assert_eq!(phase.len(), 3);
    assert_eq!(phase.get("A"), Some(&String::from("1")));
    assert_eq!(phase.get("B"), Some(&String::from("20")));
    assert_eq!(phase.get("C"), Some(&String::from("30")));
    assert_eq!(later.len(), 2);
}

#[test]
fn lines_are_written_in_the_order_of_the_entries() {
    let mut env = SetupScriptEnvMap::new();
    env.insert(String::from("Z"), String::from("26"));
    env.insert(String::from("A"), String::from("x=y"));
    env.insert(String::from(""), String::from(""));
    assert_eq!(env.to_lines(), lines(&["Z=26", "A=x=y", "="]));
}

#[test]
fn written_lines_read_back_as_the_same_map() {
    let mut env = SetupScriptEnvMap::new();
    env.insert(String::from("PATH_TO_DB"), String::from("/tmp/db=1"));
    env.insert(String::from("EMPTY"), String::new());
    env.insert(String::from("name with space"), String::from(" v "));
    env.insert(String::from("PATH_TO_DB"), String::from("/tmp/db=2"));
    let read = parse_env_file("env", &env.to_lines()).unwrap();
    assert_eq!(read, env);
    assert_eq!(read.get("PATH_TO_DB"), Some(&String::from("/tmp/db=2")));
}

#[test]
fn a_key_with_equals_sign_does_not_read_back() {
    let mut env = SetupScriptEnvMap::new();
    env.insert(String::from("A=B"), String::from("C"));
    let read = parse_env_file("env", &env.to_lines()).unwrap();
    assert_ne!(read, env);
    assert_eq!(read.get("A"), Some(&String::from("B=C")));
}

#[test]
fn a_copy_is_equal_and_apart() {
    let mut env = SetupScriptEnvMap::new();
    env.insert(String::from("A"), String::from("1"));
    let copy = env.clone();
    env.insert(String::from("A"), String::from("2"));
    assert_eq!(copy.get("A"), Some(&String::from("1")));
    assert_eq!(env.get("A"), Some(&String::from("2")));
}

#[test]
fn environments_are_equal_whatever_the_order() {
    let mut one = SetupScriptEnvMap::new();
    one.insert(String::from("A"), String::from("1"));
    one.insert(String::from("B"), String::from("2"));
    let mut other = SetupScriptEnvMap::new();
    other.insert(String::from("B"), String::from("2"));
    other.insert(String::from("A"), String::from("1"));
    assert_eq!(one, other);
    other.insert(String::from("A"), String::from("one"));
    assert_ne!(one, other);
    other.insert(String::from("A"), String::from("1"));
    other.insert(String::from("C"), String::from("3"));
    assert_ne!(one, other);
    assert_ne!(other, one);
    one.insert(String::from("D"), String::from("3"));
    assert_ne!(one, other);
}
