use cargo_lambda::archive::{archive_dir, archive_source, convert_to_unix_path, ArchiveSource, include_map, join_path, replace_str, zip_destination_name, BinaryArchive, BinaryData, BinaryModifiedAt, CpuArchitecture};
use cargo_lambda::target_arch::BuildError;

#[test]
fn test_convert_to_unix_path() {
    let path = join_path(&join_path("extensions", "test"), "filename");
    assert_eq!(
        "extensions/test/filename",
        convert_to_unix_path(&path).expect("failed to convert file path")
    );
}

#[test]
fn test_convert_to_unix_path_keep_original() {
    let path = "extensions/test/filename";
    assert_eq!(
        "extensions/test/filename",
        convert_to_unix_path(path).expect("failed to convert file path")
    );
}

#[test]
fn test_convert_to_unix_path_empty_path() {
    let path = "";
    assert_eq!(
        "",
        convert_to_unix_path(path).expect("failed to convert file path")
    );
}

#[test]
fn join_path_follows_unix_rules() {
    assert_eq!("a/b", join_path("a", "b"));
    assert_eq!("a/b", join_path("a/", "b"));
    assert_eq!("b", join_path("", "b"));
    assert_eq!("/b", join_path("a", "/b"));
}

#[test]
fn binary_data_names_function_and_extensions() {
    let f = BinaryData::new("my-fn", false, false);
    assert_eq!("bootstrap", f.binary_name());
    assert_eq!("bootstrap.zip", f.zip_name());
    assert_eq!("my-fn", f.binary_location());
    assert_eq!(None, f.parent_dir());
    assert_eq!("build", f.build_help());
    assert_eq!("bootstrap", f.binary_path_in_zip());

    let e = BinaryData::new("logs", true, false);
    assert_eq!("logs", e.binary_name());
    assert_eq!("logs.zip", e.zip_name());
    assert_eq!("extensions", e.binary_location());
    assert_eq!(Some("extensions"), e.parent_dir());
    assert_eq!("build --extension", e.build_help());
    assert_eq!("extensions/logs", e.binary_path_in_zip());

    let i = BinaryData::new("inner", true, true);
    assert_eq!("inner", i.binary_name());
    assert_eq!(None, i.parent_dir());
    assert_eq!("build --extension --internal", i.build_help());
    assert_eq!("inner", i.binary_path_in_zip());
}

#[test]
fn archive_sha256_is_upper_hex_digest() {
    let archive = BinaryArchive::new("a.zip".to_string(), "arm64".to_string(), BinaryModifiedAt::unknown());
    assert_eq!(
        "E3B0C44298FC1C149AFBF4C8996FB92427AE41E4649B934CA495991B7852B855",
        archive.sha256(b"")
    );
    assert_eq!(
        "BA7816BF8F01CFEA414140DE5DAE2223B00361A396177A9CB410FF61F20015AD",
        archive.sha256(b"abc")
    );
}

#[test]
fn archive_architecture_names() {
    let a = BinaryArchive::new("a.zip".to_string(), "arm64".to_string(), BinaryModifiedAt::unknown());
    assert!(matches!(a.architecture(), CpuArchitecture::Arm64));
    let x = BinaryArchive::new("a.zip".to_string(), "x86_64".to_string(), BinaryModifiedAt::unknown());
    assert!(matches!(x.architecture(), CpuArchitecture::X8664));
    let o = BinaryArchive::new("a.zip".to_string(), "riscv".to_string(), BinaryModifiedAt::unknown());
    assert!(matches!(o.architecture(), CpuArchitecture::Unknown(s) if s == "riscv"));
}

#[test]
fn modified_at_humanize() {
    assert_eq!("at unknown time", BinaryModifiedAt::unknown().humanize());
    assert!(!BinaryModifiedAt::now().humanize().is_empty());
}

#[test]
fn included_files_by_name() {
    let files = vec!["assets".to_string(), "config:conf/prod".to_string(), "a:b:c".to_string()];
    let m = include_map(&files);
    assert_eq!(m.get("assets").map(String::as_str), Some("assets"));
    assert_eq!(m.get("config").map(String::as_str), Some("conf/prod"));
    assert_eq!(m.get("a").map(String::as_str), Some("b:c"));
    assert_eq!(m.len(), 3);
}

#[test]
fn zip_names_replace_the_included_path() {
    assert_eq!(zip_destination_name("conf/prod/app.toml", "conf/prod", "config"), "config/app.toml");
    assert_eq!(zip_destination_name("assets/logo.png", "assets", "assets"), "assets/logo.png");
    assert_eq!(replace_str("aaa", "aa", "b"), "ba");
    assert_eq!(replace_str("abc", "", "-"), "-a-b-c-");
    assert_eq!(replace_str("abc", "x", "y"), "abc");
}

#[test]
fn archives_are_looked_for_under_the_lambda_directory() {
    let f = BinaryData::new("func", false, false);
    assert_eq!(archive_dir(None, None, &f), "target/lambda/func");
    assert_eq!(archive_dir(None, Some("/tmp/t"), &f), "/tmp/t/lambda/func");
    assert_eq!(archive_dir(Some("out"), Some("/tmp/t"), &f), "out/func");
    let e = BinaryData::new("ext", true, false);
    assert_eq!(archive_dir(None, None, &e), "target/lambda/extensions");
}

#[test]
fn a_built_binary_comes_before_an_existing_archive() {
    let f = BinaryData::new("func", false, false);
    match archive_source("target/lambda/func", &f, true, true) {
        Ok(ArchiveSource::ZipBinary { binary_path, directory }) => {
            assert_eq!(binary_path, "target/lambda/func/bootstrap");
            assert_eq!(directory, "target/lambda/func");
        }
        other => panic!("unexpected {other:?}"),
    }
    match archive_source("target/lambda/func", &f, false, true) {
        Ok(ArchiveSource::UseZip { zip_path }) => {
            assert_eq!(zip_path, "target/lambda/func/bootstrap.zip")
        }
        other => panic!("unexpected {other:?}"),
    }
    let e = BinaryData::new("ext", true, true);
    match archive_source("target/lambda/extensions", &e, false, false) {
        Err(BuildError::BinaryMissing(name, help)) => {
            assert_eq!(name, "ext");
            assert_eq!(help, "build --extension --internal");
        }
        other => panic!("unexpected {other:?}"),
    }
}
