use fgc::aria2c::{aria2c_args, aria2c_input_name, aria2c_plan};
use fgc::batch::{
    auth_headers, collect_download_actions, credential_fill_args, endpoint_from_lfs_url,
    endpoint_from_remote, git_config_value, lfs_object_path, normalize_remote_url, object_path,
    parse_ls_files, parse_remote_host_path, BatchAction, BatchActions, BatchError,
    BatchResponseObject, DownloadAction,
};
use fgc::cli::LfsBackend;
use fgc::error::FgcError;
use fgc::lfs::{
    attributes_use_lfs, extract_percent, lfs_pull_args, lfs_pull_updates, lfs_route, LfsAction,
    LfsPull, LfsPullOptions, LfsPulled, LfsRoute,
};

#[test]
fn pull_options_and_routes() {
    let o = LfsPullOptions::default();
    assert_eq!((o.jobs, o.backend, o.aria2c_connections), (8, LfsBackend::Auto, 16));
    assert_eq!(lfs_route(LfsBackend::Git), LfsRoute::Git);
    assert_eq!(lfs_route(LfsBackend::Aria2c), LfsRoute::Aria2c);
    assert_eq!(lfs_route(LfsBackend::Auto), LfsRoute::Aria2cIfInstalled);
    assert!(attributes_use_lfs("*.bin filter=lfs diff=lfs merge=lfs -text\n"));
    assert!(!attributes_use_lfs("*.txt text\n"));
}

#[test]
fn percents_in_lfs_output() {
    assert_eq!(extract_percent("Downloading LFS objects:  50% (1/2), 10 MB | 1 MB/s"), Some(50));
    assert_eq!(extract_percent("progress 7%%"), Some(7));
    assert_eq!(extract_percent("x%y 20%"), Some(20));
    assert_eq!(extract_percent("abc% 20%"), None);
    assert_eq!(extract_percent("no percent here"), None);
    let ups = lfs_pull_updates(b"Git LFS: (0 of 2 files)\r\nDownloading LFS objects:  50% (1/2)\nDownloading LFS objects: 100% (2/2), done.\n");
    assert_eq!(
        ups,
        vec![
            (50, "Downloading LFS objects:  50% (1/2)".to_string()),
            (100, "Downloading LFS objects: 100% (2/2), done.".to_string())
        ]
    );
    assert_eq!(lfs_pull_args(4), vec!["lfs", "pull", "--include=*", "--jobs=4"]);
}

#[test]
fn ls_files_lines() {
    let objs = parse_ls_files(b"aabbccdd - assets/big file.bin\nshort line\n1234abcd * 42 x\n");
    assert_eq!(objs.len(), 2);
    assert_eq!(objs[0].oid, "aabbccdd");
    assert_eq!(objs[0].size, 0);
    assert_eq!(objs[0].path, "file.bin");
    assert_eq!(objs[1].oid, "1234abcd");
    assert_eq!(objs[1].path, "x");
    let objs = parse_ls_files(b"oid 17 - a  b   c\n");
    assert_eq!(objs[0].size, 17);
    assert_eq!(objs[0].path, "a b c");
}

#[test]
fn object_locations() {
    assert_eq!(lfs_object_path("repo", "abcdef"), "repo/.git/lfs/objects/ab/cd/abcdef");
    assert_eq!(object_path("repo", "abc"), None);
    assert_eq!(object_path("repo", "0123"), Some("repo/.git/lfs/objects/01/23/0123".to_string()));
}

fn obj(oid: &str, href: Option<&str>, error: Option<&str>) -> BatchResponseObject {
    BatchResponseObject {
        oid: oid.to_string(),
        actions: Some(BatchActions {
            download: href.map(|h| BatchAction {
                href: h.to_string(),
                header: Some(vec![("Authorization".to_string(), "token".to_string())]),
            }),
        }),
        error: error.map(|m| BatchError { message: m.to_string() }),
    }
}

#[test]
fn batch_answers() {
    let acts = collect_download_actions(&vec![obj("a", Some("https://x/a"), None), obj("b", None, None)]).unwrap();
    assert_eq!(acts.len(), 1);
    assert_eq!(acts[0].oid, "a");
    assert_eq!(acts[0].url, "https://x/a");
    assert_eq!(acts[0].headers, vec![("Authorization".to_string(), "token".to_string())]);
    let err = collect_download_actions(&vec![obj("a", Some("u"), None), obj("b", Some("u"), Some("missing"))])
        .unwrap_err();
    assert_eq!(err.to_string(), "LFS batch error for b: missing");
    let none = BatchResponseObject { oid: "c".to_string(), actions: None, error: None };
    assert!(collect_download_actions(&vec![none]).unwrap().is_empty());
}

#[test]
fn endpoints_and_remotes() {
    assert_eq!(git_config_value(b"  https://lfs.example.com/repo/ \n"), "https://lfs.example.com/repo/");
    assert_eq!(
        endpoint_from_lfs_url(&Ok("https://lfs.example.com/repo//".to_string())),
        Some("https://lfs.example.com/repo/objects/batch".to_string())
    );
    assert_eq!(endpoint_from_lfs_url(&Ok(String::new())), None);
    assert_eq!(endpoint_from_lfs_url(&Err(FgcError::from_str("x"))), None);
    assert_eq!(normalize_remote_url("git@github.com:owner/repo.git"), "https://github.com/owner/repo");
    assert_eq!(normalize_remote_url("https://github.com/owner/repo/"), "https://github.com/owner/repo");
    assert_eq!(
        endpoint_from_remote("https://github.com/owner/repo.git"),
        "https://github.com/owner/repo/info/lfs/objects/batch"
    );
    assert_eq!(
        parse_remote_host_path("git@gitlab.com:group/proj.git").unwrap(),
        ("github.com".to_string(), "group/proj".to_string())
    );
    assert_eq!(
        parse_remote_host_path("https://example.com/group/proj.git").unwrap(),
        ("example.com".to_string(), "group/proj".to_string())
    );
    assert_eq!(
        parse_remote_host_path("not a url").unwrap_err().to_string(),
        "Invalid remote URL: relative URL without a base"
    );
}

#[test]
fn credentials() {
    assert_eq!(
        credential_fill_args("github.com", "o/r"),
        vec!["credential", "fill", "protocol=https", "host=github.com", "path=o/r"]
    );
    assert_eq!(
        auth_headers(b"protocol=https\nusername=u\npassword=p\n"),
        vec![("Authorization".to_string(), "Basic dTpw".to_string())]
    );
    assert_eq!(
        auth_headers(b"username=first\nusername=alice\npassword=s3cret\n"),
        vec![("Authorization".to_string(), "Basic YWxpY2U6czNjcmV0".to_string())]
    );
    assert!(auth_headers(b"username=u\n").is_empty());
}

#[test]
fn basic_auth_is_padded_base64() {
    let basic = |out: &[u8]| auth_headers(out)[0].1.clone();
    assert_eq!(basic(b"username=ab\npassword=c\n"), "Basic YWI6Yw==");
    assert_eq!(basic(b"username=ab\npassword=cd\n"), "Basic YWI6Y2Q=");
    assert_eq!(basic(b"username=ab\npassword=cde\n"), "Basic YWI6Y2Rl");
    assert_eq!(basic(b"username=\xc3\xa9\npassword=+/\n"), "Basic w6k6Ky8=");
}

#[test]
fn aria2c_input() {
    let actions = vec![DownloadAction {
        oid: "abcdef".to_string(),
        url: "https://x/abcdef".to_string(),
        headers: vec![("Authorization".to_string(), "Basic t".to_string())],
    }];
    let plan = aria2c_plan("repo", &actions).unwrap();
    assert_eq!(plan.dirs, vec!["repo/.git/lfs/objects/ab/cd".to_string()]);
    assert_eq!(
        plan.input,
        "https://x/abcdef\n  dir=repo/.git/lfs/objects/ab/cd\n  out=abcdef\n  header=Authorization: Basic t\n\n"
    );
    assert_eq!(aria2c_input_name(42), "fgc-lfs-42.txt");
    assert_eq!(
        aria2c_args("/tmp/in.txt", 8, 16),
        vec![
            "--input-file=/tmp/in.txt",
            "--max-concurrent-downloads=8",
            "--split=16",
            "--max-connection-per-server=16",
            "--min-split-size=1M",
            "--allow-overwrite=true",
            "--auto-file-renaming=false",
            "--console-log-level=warn"
        ]
    );
}

#[test]
fn lfs_pull_skips_without_lfs() {
    let (mut p, a) = LfsPull::start(LfsBackend::Auto);
    assert!(matches!(a, LfsAction::CheckLfsInstalled));
    assert!(matches!(p.on_check(false), LfsAction::Finish(Ok(LfsPulled::LfsNotInstalled))));
    let (mut p, _) = LfsPull::start(LfsBackend::Git);
    assert!(matches!(p.on_check(true), LfsAction::CheckRepoUsesLfs));
    assert!(matches!(p.on_check(false), LfsAction::Finish(Ok(LfsPulled::NotUsed))));
}

#[test]
fn lfs_pull_routes_and_falls_back() {
    let (mut p, _) = LfsPull::start(LfsBackend::Auto);
    p.on_check(true);
    assert!(matches!(p.on_check(true), LfsAction::ReportStart));
    assert!(matches!(p.on_done(Ok(())), LfsAction::CheckAria2cInstalled));
    assert!(matches!(p.on_check(true), LfsAction::PullWithAria2c));
    match p.on_done(Err(FgcError::from_str("aria2c download failed: x"))) {
        LfsAction::PullWithGit { aria2c_error: Some(e) } => {
            assert_eq!(e.to_string(), "aria2c download failed: x")
        }
        _ => panic!("expected git lfs pull after aria2c failed"),
    }
    match p.on_done(Err(FgcError::from_str("git lfs pull failed: y"))) {
        LfsAction::Finish(Err(e)) => assert_eq!(e.to_string(), "git lfs pull failed: y"),
        _ => panic!("expected the git failure"),
    }

    let (mut p, _) = LfsPull::start(LfsBackend::Git);
    p.on_check(true);
    p.on_check(true);
    assert!(matches!(p.on_done(Ok(())), LfsAction::PullWithGit { aria2c_error: None }));
    assert!(matches!(p.on_done(Ok(())), LfsAction::Finish(Ok(LfsPulled::WithGit))));

    let (mut p, _) = LfsPull::start(LfsBackend::Aria2c);
    p.on_check(true);
    p.on_check(true);
    assert!(matches!(p.on_done(Ok(())), LfsAction::PullWithAria2c));
    assert!(matches!(p.on_done(Ok(())), LfsAction::Finish(Ok(LfsPulled::WithAria2c))));

    let (mut p, _) = LfsPull::start(LfsBackend::Auto);
    p.on_check(true);
    p.on_check(true);
    p.on_done(Ok(()));
    assert!(matches!(p.on_check(false), LfsAction::PullWithGit { aria2c_error: None }));
}
