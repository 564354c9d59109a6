use cargo_lambda::git_url::{is_remote_zip_file, match_git_http_url, match_git_ssh_url, GitProtocol, GitRepo, LocalPath, TemplateSource};

#[test]
fn test_is_remote_zip_file() {
    assert!(is_remote_zip_file(
        "https://github.com/cargo-lambda/cargo-lambda/archive/refs/heads/main.zip"
    ));
    assert!(!is_remote_zip_file(
        "https://github.com/cargo-lambda/cargo-lambda"
    ));
    assert!(!is_remote_zip_file(
        "https://github.com/cargo-lambda/cargo-lambda/archive/refs/heads/main"
    ));
    assert!(!is_remote_zip_file("c:\\path\\to\\file.zip"));
}

#[test]
fn test_match_git_http_url() {
    assert!(match_git_http_url("https://github.com").is_none());
    assert!(match_git_http_url("https://github.com/").is_none());
    assert!(match_git_http_url("https://github.com/cargo-lambda").is_none());
    assert!(match_git_http_url("https://github.com/cargo-lambda/").is_none());

    let repo = match_git_http_url("https://github.com/cargo-lambda/cargo-lambda").unwrap();
    assert_eq!("github.com", repo.host);
    assert_eq!("cargo-lambda/cargo-lambda", repo.repo);
    assert_eq!(None, repo.reference);
    assert_eq!(None, repo.auth_user);
    assert_eq!(GitProtocol::Http, repo.protocol);

    let repo =
        match_git_http_url("https://github.com/cargo-lambda/cargo-lambda/tag/v0.1.0").unwrap();
    assert_eq!("github.com", repo.host);
    assert_eq!("cargo-lambda/cargo-lambda", repo.repo);
    assert_eq!(Some("v0.1.0".into()), repo.reference);
    assert_eq!(None, repo.auth_user);
    assert_eq!(GitProtocol::Http, repo.protocol);

    let repo = match_git_http_url(
        "https://github.com/cargo-lambda/cargo-lambda/branch/branch-with-slashes",
    )
    .unwrap();
    assert_eq!("github.com", repo.host);
    assert_eq!("cargo-lambda/cargo-lambda", repo.repo);
    assert_eq!(Some("branch-with-slashes".into()), repo.reference);
    assert_eq!(GitProtocol::Http, repo.protocol);
    assert_eq!(None, repo.auth_user);

    let repo = match_git_http_url(
        "https://gitlab.com/cargo-lambda/cargo-lambda/branch/branch-with-slashes",
    )
    .unwrap();
    assert_eq!("gitlab.com", repo.host);
    assert_eq!("cargo-lambda/cargo-lambda", repo.repo);
    assert_eq!(Some("branch-with-slashes".into()), repo.reference);
    assert_eq!(GitProtocol::Http, repo.protocol);
    assert_eq!(None, repo.auth_user);

    let repo =
        match_git_http_url("https://github.com/cargo-lambda/cargo-lambda/tree/main").unwrap();
    assert_eq!(Some("main".into()), repo.reference);
}

#[test]
fn http_url_edge_cases() {
    let repo = match_git_http_url("https://github.com/a1/b2/").unwrap();
    assert_eq!("a1/b2", repo.repo);
    assert_eq!(None, repo.reference);

    let repo = match_git_http_url("https://h.io/ow/re/branch/feature/x/").unwrap();
    assert_eq!(Some("feature-x".into()), repo.reference);

    let repo = match_git_http_url("https://h.io/ow/repotag/v1").unwrap();
    assert_eq!("ow/repo", repo.repo);
    assert_eq!(Some("v1".into()), repo.reference);

    let repo = match_git_http_url("see https://h.io/ow/re").unwrap();
    assert_eq!("h.io", repo.host);

    assert!(match_git_http_url("https://h.io/ow/re.git").is_none());
    assert!(match_git_http_url("https://h.io/_w/re").is_none());
    assert!(match_git_http_url("https://h.io/ow/re/tag/").is_none());
    assert!(match_git_http_url("https://h.io/ow/re/tag/a\nb").is_none());
}

#[test]
fn test_match_git_ssh_url() {
    assert!(match_git_ssh_url("ssh://github.com").is_none());
    assert!(match_git_ssh_url("ssh://github.com/cargo-lambda").is_none());

    assert!(match_git_ssh_url("git@github.com").is_none());
    assert!(match_git_ssh_url("git@github.com:").is_none());
    assert!(match_git_ssh_url("git@github.com:/").is_none());
    assert!(match_git_ssh_url("git@github.com:cargo-lambda").is_none());
    assert!(match_git_ssh_url("git@github.com:cargo-lambda/").is_none());

    let repo = match_git_ssh_url("ssh://github.com/cargo-lambda/cargo-lambda").unwrap();
    assert_eq!("github.com", repo.host);
    assert_eq!("cargo-lambda/cargo-lambda", repo.repo);
    assert_eq!(None, repo.reference);
    assert_eq!(GitProtocol::Ssh, repo.protocol);
    assert_eq!(None, repo.auth_user);
    let repo = match_git_ssh_url("git@github.com:cargo-lambda/cargo-lambda").unwrap();
    assert_eq!("github.com", repo.host);
    assert_eq!("cargo-lambda/cargo-lambda", repo.repo);
    assert_eq!(None, repo.reference);
    assert_eq!(GitProtocol::Ssh, repo.protocol);
    assert_eq!(Some("git".into()), repo.auth_user);
    let repo = match_git_ssh_url("ssh://github.com/cargo-lambda/cargo-lambda.git").unwrap();
    assert_eq!("github.com", repo.host);
    assert_eq!("cargo-lambda/cargo-lambda", repo.repo);
    assert_eq!(None, repo.reference);
    assert_eq!(GitProtocol::Ssh, repo.protocol);
    assert_eq!(None, repo.auth_user);

    let repo = match_git_ssh_url("git@github.com:cargo-lambda/cargo-lambda.git").unwrap();
    assert_eq!("github.com", repo.host);
    assert_eq!("cargo-lambda/cargo-lambda", repo.repo);
    assert_eq!(None, repo.reference);
    assert_eq!(GitProtocol::Ssh, repo.protocol);
    assert_eq!(Some("git".into()), repo.auth_user);
}

#[test]
fn repo_urls() {
    let repo = GitRepo {
        host: "github.com".to_string(),
        repo: "a/b".to_string(),
        reference: None,
        auth_user: None,
        protocol: GitProtocol::Http,
    };
    assert_eq!("https://github.com/a/b", repo.to_url());
    let repo = match_git_ssh_url("git@github.com:a1/b2.git").unwrap();
    assert_eq!("ssh://github.com/a1/b2", repo.to_url());
}

fn missing(reason: &str) -> LocalPath {
    LocalPath { real_path: Err(reason.to_string()), is_zip_file: false, is_dir: false }
}

fn found(path: &str, is_zip_file: bool, is_dir: bool) -> LocalPath {
    LocalPath { real_path: Ok(path.to_string()), is_zip_file, is_dir }
}

#[test]
fn test_template_source() {
    let none = missing("No such file or directory (os error 2)");
    match TemplateSource::from_option("https://github.com/cargo-lambda/cargo-lambda", &none).unwrap() {
        TemplateSource::RemoteRepo(repo) => {
            assert_eq!(repo.host, "github.com");
            assert_eq!(repo.repo, "cargo-lambda/cargo-lambda");
            assert_eq!(repo.reference, None);
            assert_eq!(repo.auth_user, None);
            assert_eq!(repo.protocol, GitProtocol::Http);
        }
        other => panic!("unexpected {:?}", other),
    }

    let zip = "https://github.com/cargo-lambda/cargo-lambda/archive/refs/heads/main.zip";
    match TemplateSource::from_option(zip, &none).unwrap() {
        TemplateSource::RemoteZip(url) => assert_eq!(url, zip),
        other => panic!("unexpected {:?}", other),
    }

    let local_zip = found("/work/tests/templates/function-template.zip", true, false);
    match TemplateSource::from_option("../../tests/templates/function-template.zip", &local_zip).unwrap() {
        TemplateSource::LocalZip(p) => assert_eq!(p, "/work/tests/templates/function-template.zip"),
        other => panic!("unexpected {:?}", other),
    }

    let local_dir = found("/work/tests/templates/function-template", false, true);
    match TemplateSource::from_option("../../tests/templates/function-template", &local_dir).unwrap() {
        TemplateSource::LocalDir(p) => assert_eq!(p, "/work/tests/templates/function-template"),
        other => panic!("unexpected {:?}", other),
    }

    let err = TemplateSource::from_option("../../tests/templates/MISSING-template", &missing("No such file or directory"))
        .unwrap_err();
    assert!(err.contains("invalid template option ../../tests/templates/MISSING-template: No such file or directory"));

    let file = found("/work/tests/templates/function-template/Cargo.toml", false, false);
    let err = TemplateSource::from_option("../../tests/templates/function-template/Cargo.toml", &file).unwrap_err();
    assert!(err.contains("invalid template option ../../tests/templates/function-template/Cargo.toml: No such directory"));

    let err = TemplateSource::from_option("https://example.com/nothing", &none).unwrap_err();
    assert_eq!(err, "the given template option is not a valid GitHub URL or local directory: https://example.com/nothing");
}
