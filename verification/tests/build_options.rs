use cargo_lambda::build_plan::build_profile;
use cargo_lambda::build_options::{Build, BuildOutputFormat, CargoBuildOptions};
use cargo_lambda::deploy_config::CompilerOptions;
use cargo_lambda::fields::FieldValue;
use cargo_lambda::watch_options::CommonOptions;

fn no_common() -> CommonOptions {
    CommonOptions {
        quiet: false,
        jobs: None,
        keep_going: false,
        profile: None,
        features: vec![],
        all_features: false,
        no_default_features: false,
        target: vec![],
        target_dir: None,
        message_format: vec![],
        verbose: 0,
        color: None,
        frozen: false,
        locked: false,
        offline: false,
        config: vec![],
        unstable_flags: vec![],
        timings: None,
    }
}

fn default_build() -> Build {
    Build {
        output_format: None,
        lambda_dir: None,
        arm64: false,
        x86_64: false,
        extension: false,
        internal: false,
        flatten: None,
        skip_target_check: false,
        compiler: None,
        disable_optimizations: false,
        includes: None,
        cargo_opts: CargoBuildOptions {
            manifest_path: None,
            release: false,
            bins: false,
            bin: vec![],
            examples: false,
            example: vec![],
            all_targets: false,
            packages: vec![],
            workspace: false,
            exclude: vec![],
            tests: false,
            test: vec![],
            benches: false,
            bench: vec![],
            common: no_common(),
        },
    }
}

/// The fields in a form that compares: name and a text for the value.
fn shown(fields: &[(String, FieldValue)]) -> Vec<(String, String)> {
    fields
        .iter()
        .map(|(n, v)| {
            let t = match v {
                FieldValue::Bool(b) => b.to_string(),
                FieldValue::Int(i) => i.to_string(),
                FieldValue::Str(s) => format!("{s:?}"),
                FieldValue::Strings(v) => format!("{v:?}"),
                FieldValue::Routes(r) => format!("{} routes", r.len()),
                FieldValue::Compiler(CompilerOptions::CargoZigbuild) => "{type: cargo_zigbuild}".to_string(),
                FieldValue::Compiler(CompilerOptions::Cross) => "{type: cross}".to_string(),
                FieldValue::Compiler(CompilerOptions::Cargo(_)) => "{type: cargo}".to_string(),
            };
            (n.clone(), t)
        })
        .collect()
}

fn expect(pairs: &[(&str, &str)]) -> Vec<(String, String)> {
    pairs.iter().map(|(a, b)| (a.to_string(), b.to_string())).collect()
}

#[test]
fn test_serialize_minimal_build() {
    let build = default_build();
    assert!(build.serialized_fields().is_empty());
    assert_eq!(build.count_fields(), 0);
}

#[test]
fn test_serialize_with_optional_fields() {
    let mut build = default_build();
    build.lambda_dir = Some("/tmp/lambda".to_string());
    build.compiler = Some(CompilerOptions::Cross);
    build.includes = Some(vec!["file1.txt".to_string(), "file2.txt".to_string()]);
    let fields = build.serialized_fields();
    assert_eq!(
        shown(&fields),
        expect(&[
            ("lambda_dir", "\"/tmp/lambda\""),
            ("compiler", "{type: cross}"),
            ("include", "[\"file1.txt\", \"file2.txt\"]"),
        ])
    );
    assert_eq!(build.count_fields(), 3);
}

#[test]
fn test_serialize_with_boolean_fields() {
    let mut build = default_build();
    build.arm64 = true;
    build.extension = true;
    build.skip_target_check = true;
    let fields = build.serialized_fields();
    assert_eq!(
        shown(&fields),
        expect(&[("arm64", "true"), ("extension", "true"), ("skip_target_check", "true")])
    );
    assert_eq!(build.count_fields(), 3);
}

#[test]
fn test_serialize_with_cargo_opts() {
    let mut build = default_build();
    build.cargo_opts.common.target = vec!["x86_64-unknown-linux-gnu".to_string()];
    build.cargo_opts.common.features = vec!["feature1".to_string(), "feature2".to_string()];
    build.cargo_opts.common.all_features = true;
    build.cargo_opts.common.profile = Some("release".to_string());
    let fields = build.serialized_fields();
    let mut got = shown(&fields);
    got.sort();
    let mut want = expect(&[
        ("target", "[\"x86_64-unknown-linux-gnu\"]"),
        ("features", "[\"feature1\", \"feature2\"]"),
        ("all_features", "true"),
        ("profile", "\"release\""),
    ]);
    want.sort();
    assert_eq!(got, want);
    assert_eq!(build.count_fields(), 4);
}

#[test]
fn test_serialize_complete_build() {
    let mut build = default_build();
    build.output_format = Some(BuildOutputFormat::Zip);
    build.lambda_dir = Some("/tmp/lambda".to_string());
    build.arm64 = true;
    build.extension = true;
    build.compiler = Some(CompilerOptions::CargoZigbuild);
    build.includes = Some(vec!["include1".to_string()]);
    build.cargo_opts.common.target = vec!["x86_64-unknown-linux-gnu".to_string()];
    build.cargo_opts.common.features = vec!["feature1".to_string()];
    build.cargo_opts.common.all_features = true;
    let fields = build.serialized_fields();
    let mut got = shown(&fields);
    got.sort();
    let mut want = expect(&[
        ("output_format", "\"zip\""),
        ("lambda_dir", "\"/tmp/lambda\""),
        ("arm64", "true"),
        ("extension", "true"),
        ("compiler", "{type: cargo_zigbuild}"),
        ("include", "[\"include1\"]"),
        ("target", "[\"x86_64-unknown-linux-gnu\"]"),
        ("features", "[\"feature1\"]"),
        ("all_features", "true"),
    ]);
    want.sort();
    assert_eq!(got, want);
    assert_eq!(build.count_fields(), 9);
}

#[test]
fn release_is_written_but_not_announced() {
    let mut build = default_build();
    build.cargo_opts.release = true;
    assert_eq!(shown(&build.serialized_fields()), expect(&[("release", "true")]));
    assert_eq!(build.count_fields(), 0);
}

#[test]
fn build_profiles_name_their_target_directories() {
    let mut b = default_build();
    assert_eq!(build_profile(b.cargo_opts.common.profile.as_deref(), b.cargo_opts.release), "debug");
    b.cargo_opts.release = true;
    assert_eq!(build_profile(b.cargo_opts.common.profile.as_deref(), b.cargo_opts.release), "release");
    for (profile, dir) in [("dev", "debug"), ("test", "debug"), ("release", "release"), ("bench", "release"), ("fast", "fast")] {
        b.cargo_opts.common.profile = Some(profile.to_string());
        assert_eq!(build_profile(b.cargo_opts.common.profile.as_deref(), b.cargo_opts.release), dir);
    }
}
