use cargo_lambda::cargo_meta::CargoTarget;
use cargo_lambda::deploy_config::{BuildConfig, CargoCompilerOptions, CompilerOptions, DeployConfig};
use cargo_lambda::error::MetadataError;
use cargo_lambda::lambda::{Memory, Timeout, Tracing};
use cargo_lambda::metadata::{
    function_build_metadata, function_deploy_metadata, function_environment_metadata,
    LambdaMetadata, Metadata, PackageLambda, PackageMetadata, ProjectMetadata,
};
use cargo_lambda::strmap::StringMap;

fn env_of(pairs: &[(&str, &str)]) -> StringMap {
    let mut m = StringMap::new();
    for (k, v) in pairs {
        m.insert(k.to_string(), v.to_string());
    }
    m
}

fn bin(name: &str) -> CargoTarget {
    CargoTarget {
        name: name.to_string(),
        kind: vec!["bin".to_string()],
        crate_types: vec!["bin".to_string()],
    }
}

fn lib(name: &str) -> CargoTarget {
    CargoTarget {
        name: name.to_string(),
        kind: vec!["lib".to_string()],
        crate_types: vec!["lib".to_string()],
    }
}

fn package_metadata(env: &[(&str, &str)]) -> PackageMetadata {
    PackageMetadata { env: env_of(env), deploy: None, build: BuildConfig::default() }
}

fn lambda(package: PackageMetadata, bin: Vec<(String, PackageMetadata)>) -> LambdaMetadata {
    LambdaMetadata { package, bin }
}

fn empty_workspace() -> LambdaMetadata {
    lambda(package_metadata(&[]), vec![])
}

fn package(name: &str, targets: Vec<CargoTarget>, md: Option<LambdaMetadata>) -> PackageLambda {
    PackageLambda { name: name.to_string(), targets, metadata: Metadata { lambda: md.map(Ok) } }
}

/// The settings of the single binary package: `FOO=BAR`, deploy settings, and a build
/// with `cargo brazil build`.
fn single_binary_package() -> ProjectMetadata {
    let mut deploy = DeployConfig::default();
    deploy.memory = Some(Memory::from(512));
    deploy.timeout = Some(Timeout::new(60));
    deploy.env_file = Some(".env.production".to_string());
    deploy.layers = Some(vec![
        "arn:aws:lambda:us-east-1:xxxxxxxx:layers:layer1".to_string(),
        "arn:aws:lambda:us-east-1:xxxxxxxx:layers:layer2".to_string(),
    ]);
    deploy.tracing = Tracing::Active;
    deploy.env = env_of(&[("VAR1", "VAL1")]);
    deploy.iam_role = Some("arn:aws:lambda:us-east-1:xxxxxxxx:iam:role1".to_string());
    deploy.tags = Some(env_of(&[("organization", "aws"), ("team", "lambda")]));
    let mut pm = package_metadata(&[("FOO", "BAR")]);
    pm.deploy = Some(deploy);
    pm.build = BuildConfig {
        compiler: Some(CompilerOptions::Cargo(CargoCompilerOptions {
            subcommand: Some(vec!["brazil".to_string(), "build".to_string()]),
            extra_args: None,
        })),
        target: None,
    };
    ProjectMetadata {
        workspace: empty_workspace(),
        packages: vec![package("basic-lambda", vec![bin("basic-lambda")], Some(lambda(pm, vec![])))],
    }
}

fn multi_binary_package() -> ProjectMetadata {
    let md = lambda(
        package_metadata(&[("FOO", "BAR")]),
        vec![("delete-product".to_string(), package_metadata(&[("BAZ", "QUX")]))],
    );
    ProjectMetadata {
        workspace: empty_workspace(),
        packages: vec![package(
            "multi-binary-package",
            vec![
                bin("delete-product"),
                bin("get-product"),
                bin("get-products"),
                bin("put-product"),
                bin("dynamodb-streams"),
            ],
            Some(md),
        )],
    }
}

fn workspace_package() -> ProjectMetadata {
    ProjectMetadata {
        workspace: lambda(package_metadata(&[("FOO", "BAR")]), vec![]),
        packages: vec![
            package("basic-lambda-1", vec![bin("basic-lambda-1")], Some(empty_workspace())),
            package("basic-lambda-2", vec![bin("basic-lambda-2")], None),
        ],
    }
}

#[test]
fn test_metadata_packages() {
    let env =
        function_environment_metadata(&single_binary_package(), Some("basic-lambda")).unwrap();
    assert_eq!(env.get("FOO").unwrap(), "BAR");
}

#[test]
fn test_deploy_metadata_packages() {
    let env = function_deploy_metadata(&single_binary_package(), "basic-lambda")
        .unwrap()
        .unwrap();

    let layers = [
        "arn:aws:lambda:us-east-1:xxxxxxxx:layers:layer1".to_string(),
        "arn:aws:lambda:us-east-1:xxxxxxxx:layers:layer2".to_string(),
    ];

    assert_eq!(Some(Memory::from(512)), env.memory);
    assert_eq!(Some(Timeout::new(60)), env.timeout);
    assert_eq!(Some(".env.production"), env.env_file.as_deref());
    assert_eq!(Some(layers.to_vec()), env.layers);
    assert_eq!(Tracing::Active, env.tracing);
    assert_eq!(1, env.env.len());
    assert_eq!(env.env.get("VAR1").unwrap(), "VAL1");
    assert_eq!(
        Some("arn:aws:lambda:us-east-1:xxxxxxxx:iam:role1".to_string()),
        env.iam_role
    );

    let tags = env.tags.as_ref().unwrap();
    assert_eq!(2, tags.len());
    assert_eq!(tags.get("organization").unwrap(), "aws");
    assert_eq!(tags.get("team").unwrap(), "lambda");
    let s3_tags = env.s3_tags().unwrap();
    assert_eq!(2, s3_tags.split('&').collect::<Vec<_>>().len());
    assert!(s3_tags.contains("organization=aws"), "{s3_tags}");
    assert!(s3_tags.contains("team=lambda"), "{s3_tags}");
}

#[test]
fn test_metadata_multi_packages() {
    let env =
        function_environment_metadata(&multi_binary_package(), Some("get-product")).unwrap();
    assert_eq!(env.get("FOO").unwrap(), "BAR");

    let env =
        function_environment_metadata(&multi_binary_package(), Some("delete-product")).unwrap();
    assert_eq!(env.get("BAZ").unwrap(), "QUX");
}

#[test]
fn test_invalid_metadata() {
    let project = ProjectMetadata {
        workspace: empty_workspace(),
        packages: vec![PackageLambda {
            name: "missing-binary-package".to_string(),
            targets: vec![bin("get-products")],
            metadata: Metadata { lambda: Some(Err("invalid type: string".to_string())) },
        }],
    };
    let result = function_environment_metadata(&project, Some("get-products"));
    assert!(result.is_err());
    match result {
        Err(MetadataError::InvalidCargoMetadata(m)) => assert_eq!(m, "invalid type: string"),
        other => panic!("unexpected {:?}", other),
    }
}

#[test]
fn test_metadata_workspace_packages() {
    let env =
        function_environment_metadata(&workspace_package(), Some("basic-lambda-1")).unwrap();
    assert_eq!(env.get("FOO").unwrap(), "BAR");

    let env =
        function_environment_metadata(&workspace_package(), Some("basic-lambda-2")).unwrap();
    assert_eq!(env.get("FOO").unwrap(), "BAR");
}

#[test]
fn test_metadata_packages_without_name() {
    let env = function_environment_metadata(&single_binary_package(), None).unwrap();
    assert_eq!(env.get("FOO").unwrap(), "BAR");
}

#[test]
fn test_build_config_metadata() {
    let env = function_build_metadata(&single_binary_package()).unwrap();
    let opts = match env.compiler.unwrap() {
        CompilerOptions::Cargo(opts) => opts,
        other => panic!("unexpected compiler: {:?}", other),
    };
    let subcommand = opts.subcommand.unwrap();
    assert_eq!(vec!["brazil".to_string(), "build".to_string()], subcommand);
}

#[test]
fn test_deploy_lambda_env() {
    let mut d = DeployConfig::default();
    let env = d.lambda_environment(None);
    assert!(env.is_empty());

    let extra = env_of(&[("FOO", "BAR")]);
    let env = d.extend_environment(None, &extra);
    assert_eq!(1, env.len());
    assert_eq!("BAR", env.get("FOO").unwrap());

    d.env = env_of(&[("BAZ", "QUX")]);
    let env = d.extend_environment(None, &extra);
    assert_eq!(2, env.len());
    assert_eq!("BAR", env.get("FOO").unwrap());
    assert_eq!("QUX", env.get("BAZ").unwrap());
}

#[test]
fn environment_layers_workspace_package_and_binary() {
    let ws = lambda(
        package_metadata(&[("A", "ws"), ("B", "ws")]),
        vec![("f".to_string(), package_metadata(&[("B", "ws-bin"), ("C", "ws-bin")]))],
    );
    let pkg = lambda(
        package_metadata(&[("C", "pkg")]),
        vec![("f".to_string(), package_metadata(&[("D", "pkg-bin")]))],
    );
    let project = ProjectMetadata {
        workspace: ws,
        packages: vec![package("p", vec![lib("p"), bin("f")], Some(pkg))],
    };
    let env = function_environment_metadata(&project, Some("f")).unwrap();
    assert_eq!(4, env.len());
    assert_eq!(env.get("A").unwrap(), "ws");
    assert_eq!(env.get("B").unwrap(), "ws-bin");
    assert_eq!(env.get("C").unwrap(), "pkg");
    assert_eq!(env.get("D").unwrap(), "pkg-bin");
    let other = function_environment_metadata(&project, Some("g")).unwrap();
    assert_eq!(2, other.len());
}

#[test]
fn deploy_metadata_merges_workspace_and_package() {
    let mut ws_deploy = DeployConfig::default();
    ws_deploy.memory = Some(Memory::from(128));
    ws_deploy.timeout = Some(Timeout::new(10));
    let mut ws_pm = package_metadata(&[]);
    ws_pm.deploy = Some(ws_deploy);
    let mut pkg_deploy = DeployConfig::default();
    pkg_deploy.memory = Some(Memory::from(1024));
    pkg_deploy.timeout = Some(Timeout::new(0));
    let mut pkg_pm = package_metadata(&[]);
    pkg_pm.deploy = Some(pkg_deploy);
    let project = ProjectMetadata {
        workspace: lambda(ws_pm, vec![]),
        packages: vec![package("f", vec![bin("f")], Some(lambda(pkg_pm, vec![])))],
    };
    let c = function_deploy_metadata(&project, "f").unwrap().unwrap();
    assert_eq!(Some(Memory::from(1024)), c.memory);
    assert_eq!(Some(Timeout::new(10)), c.timeout);
    assert!(function_deploy_metadata(&workspace_package(), "basic-lambda-1").unwrap().is_none());
}

#[test]
fn build_metadata_defaults_to_workspace() {
    let mut ws_pm = package_metadata(&[]);
    ws_pm.build = BuildConfig { compiler: Some(CompilerOptions::Cross), target: None };
    let project = ProjectMetadata {
        workspace: lambda(ws_pm, vec![]),
        packages: vec![package("l", vec![lib("l")], Some(empty_workspace()))],
    };
    let b = function_build_metadata(&project).unwrap();
    assert!(matches!(b.compiler, Some(CompilerOptions::Cross)));
}
