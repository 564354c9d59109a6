use cargo_lambda::env::{extract_var, lambda_environment, read_env_file, EnvOptions, EnvVarExtractor, HashMapEnvExtractor, VarError};
use cargo_lambda::error::MetadataError;
use cargo_lambda::strmap::StringMap;

fn map_of(pairs: &[(&str, &str)]) -> StringMap {
    StringMap::from_pairs(pairs)
}

#[test]
fn test_extract_var() {
    let (k, v) = extract_var("FOO=BAR").unwrap();
    assert_eq!("FOO", k);
    assert_eq!("BAR", v);

    let (k, v) = extract_var(" FOO = BAR ").unwrap();
    assert_eq!("FOO", k);
    assert_eq!("BAR", v);

    extract_var("=BAR").expect_err("missing key");
    extract_var("FOO=").expect_err("missing value");
    extract_var("  ").expect_err("missing variable");
}

#[test]
fn test_empty_environment() {
    let env = lambda_environment(None, None, None).unwrap();
    assert!(env.is_empty());
}

#[test]
fn test_base_environment() {
    let base = map_of(&[("FOO", "BAR")]);
    let env = lambda_environment(Some(&base), None, None).unwrap();

    assert_eq!("BAR", env.get("FOO").unwrap());
}

#[test]
fn test_environment_with_flags() {
    let base = map_of(&[("FOO", "BAR")]);

    let flags = vec!["FOO=QUX".to_string(), "BAZ=QUUX".to_string()];
    let env = lambda_environment(Some(&base), None, Some(&flags)).unwrap();

    assert_eq!("QUX", env.get("FOO").unwrap());
    assert_eq!("QUUX", env.get("BAZ").unwrap());
}

#[test]
fn environment_with_file_variables() {
    let base = map_of(&[("FOO", "BAR")]);
    let file = map_of(&[("BAR", "BAZ"), ("QUUX", "QUUUX")]);
    let flags = vec!["FOO=QUX".to_string(), "BAZ=QUUX".to_string()];
    let vars = lambda_environment(Some(&base), Some(&file), Some(&flags)).unwrap();

    assert_eq!("QUX", vars.get("FOO").unwrap());
    assert_eq!("QUUX", vars.get("BAZ").unwrap());
    assert_eq!("BAZ", vars.get("BAR").unwrap());
    assert_eq!("QUUUX", vars.get("QUUX").unwrap());
    assert!(!vars.contains_key("IGNORE"));
    assert!(!vars.contains_key(""));
}

#[test]
fn invalid_flag_is_reported() {
    let flags = vec!["FOO=BAR".to_string(), "BROKEN".to_string(), "=X".to_string()];
    match lambda_environment(None, None, Some(&flags)) {
        Err(MetadataError::InvalidEnvVar(line)) => assert_eq!("BROKEN", line),
        other => panic!("unexpected result: {other:?}"),
    }
}

#[test]
fn env_options_count_and_environment() {
    let mut opts = EnvOptions::new();
    assert_eq!(0, opts.count_fields());
    opts.env_var = Some(vec!["A=1".to_string()]);
    assert_eq!(1, opts.count_fields());
    opts.env_file = Some(".env".to_string());
    assert_eq!(2, opts.count_fields());

    let base = map_of(&[("A", "0"), ("B", "2")]);
    let env = opts.lambda_environment(&base, None).unwrap();
    assert_eq!("1", env.get("A").unwrap());
    assert_eq!("2", env.get("B").unwrap());
    assert_eq!(2, env.len());
}

#[test]
fn hash_map_extractor_reads_variables() {
    let ex = HashMapEnvExtractor::from_pairs(vec![("FOO", "BAR"), ("FOO", "BAZ")]);
    assert_eq!(Ok("BAZ".to_string()), ex.var("FOO"));
    assert_eq!(Err(VarError::NotPresent), ex.var("NOPE"));
}

#[test]
fn string_map_keeps_insertion_order() {
    let mut m = StringMap::new();
    m.insert("b".to_string(), "1".to_string());
    m.insert("a".to_string(), "2".to_string());
    m.insert("b".to_string(), "3".to_string());
    let keys: Vec<&str> = m.pairs().iter().map(|(k, _)| k.as_str()).collect();
    assert_eq!(vec!["b", "a"], keys);
    assert_eq!("3", m.get("b").unwrap());
    let mut other = StringMap::new();
    other.insert("c".to_string(), "4".to_string());
    other.insert("a".to_string(), "5".to_string());
    m.extend(&other);
    assert_eq!(3, m.len());
    assert_eq!("5", m.get("a").unwrap());
    assert_eq!("4", m.get("c").unwrap());
}

#[test]
fn env_file_text_gives_variables() {
    let vars = read_env_file(".env", "# settings\nCLIENT_ID=abc\nEMPTY=\n").unwrap();
    assert_eq!(vars.get("CLIENT_ID").map(String::as_str), Some("abc"));
    assert_eq!(vars.get("EMPTY").map(String::as_str), Some(""));
    assert_eq!(vars.len(), 2);
    assert!(read_env_file(".env", "").unwrap().is_empty());
}

#[test]
fn malformed_env_file_is_refused_with_its_path() {
    match read_env_file("conf/.env", "key with whitespace=x") {
        Err(MetadataError::InvalidEnvFile(path, _)) => assert_eq!(path, "conf/.env"),
        other => panic!("unexpected {:?}", other),
    }
}

#[test]
fn test_environment_with_file() {
    let file_vars = read_env_file(".env", "BAR=BAZ\n\nexport QUUX = 'QUUUX'\n#IGNORE=ME").unwrap();

    let base = map_of(&[("FOO", "BAR")]);

    let flags = vec!["FOO=QUX".to_string(), "BAZ=QUUX".to_string()];
    let vars = lambda_environment(Some(&base), Some(&file_vars), Some(&flags)).unwrap();

    assert_eq!(Some("QUX"), vars.get("FOO").map(String::as_str));
    assert_eq!(Some("QUUX"), vars.get("BAZ").map(String::as_str));
    assert_eq!(Some("BAZ"), vars.get("BAR").map(String::as_str));
    assert_eq!(Some("QUUUX"), vars.get("QUUX").map(String::as_str));
    assert!(!vars.contains_key("IGNORE"));
    assert!(!vars.contains_key(""));
}
