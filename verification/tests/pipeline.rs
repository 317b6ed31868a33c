use nurl::descriptor::BackendDescriptor;
use nurl::fetcher::{Fetcher, FetcherDispatch, Prepared};
use nurl::fields::merged_fields;
use nurl::github::FetchFromGitHub;
use nurl::overwrites::Overwrites;
use nurl::render::render_nix;
use nurl::simple::SimpleFetcher;
use nurl::strategy::{FetchError, HashRequest, ResolutionError, RevisionPlan};
use nurl::strategy::plan_revision;
use nurl::submodules::resolve_submodules_flag;
use nurl::url::{extract_identifiers, ExtractionError, SourceUrl};

fn segs(parts: &[&str]) -> SourceUrl {
    let v: Vec<String> = parts.iter().map(|s| s.to_string()).collect();
    SourceUrl::from_segments(v)
}

fn strings(parts: &[&str]) -> Vec<String> {
    parts.iter().map(|s| s.to_string()).collect()
}

fn pairs(parts: &[(&str, &str)]) -> Vec<(String, String)> {
    parts.iter().map(|(k, v)| (k.to_string(), v.to_string())).collect()
}

#[test]
fn extraction_too_few_segments_fails() {
    let url = segs(&["onlyone"]);
    let r = extract_identifiers(&url, 2);
    assert_eq!(r, Err(ExtractionError::InsufficientSegments));
    let empty = segs(&[]);
    assert_eq!(extract_identifiers(&empty, 1), Err(ExtractionError::InsufficientSegments));
}

#[test]
fn extraction_takes_first_arity_segments() {
    let url = segs(&["octocat", "hello-world", "tree", "main"]);
    let r = extract_identifiers(&url, 2).unwrap();
    assert_eq!(r, strings(&["octocat", "hello-world"]));
}

#[test]
fn extraction_strips_git_suffix_from_last() {
    let url = segs(&["octocat", "hello-world.git"]);
    let r = extract_identifiers(&url, 2).unwrap();
    assert_eq!(r, strings(&["octocat", "hello-world"]));
    let url2 = segs(&["a.git", "b"]);
    assert_eq!(extract_identifiers(&url2, 2).unwrap(), strings(&["a.git", "b"]));
}

#[test]
fn extraction_is_idempotent() {
    let url = segs(&["octocat", "hello-world.git", "extra"]);
    let first = extract_identifiers(&url, 2).unwrap();
    let second = extract_identifiers(&url, 2).unwrap();
    assert_eq!(first, second);
}

#[test]
fn caller_revision_is_final_and_never_fetched() {
    let name = "fetchFromGitHub".to_string();
    let r = plan_revision(Some("abc123".to_string()), true, &name);
    assert!(matches!(r, Ok(RevisionPlan::Resolved(rv)) if rv == "abc123"));
    let r2 = plan_revision(Some("abc123".to_string()), false, &name);
    assert!(matches!(r2, Ok(RevisionPlan::Resolved(_))));
}

#[test]
fn missing_revision_without_capability_is_unsupported() {
    let name = "fetchzip".to_string();
    let r = plan_revision(None, false, &name);
    assert!(matches!(r, Err(ResolutionError::Unsupported(n)) if n == "fetchzip"));
    let r2 = plan_revision(None, true, &name);
    assert!(matches!(r2, Ok(RevisionPlan::FetchLatest)));
}

#[test]
fn submodules_flag_is_xor_with_default() {
    assert!(!resolve_submodules_flag(Some(true), true));
    assert!(resolve_submodules_flag(Some(true), false));
    assert!(resolve_submodules_flag(Some(false), true));
    assert!(!resolve_submodules_flag(Some(false), false));
    assert!(!resolve_submodules_flag(None, true));
    assert!(!resolve_submodules_flag(None, false));
}

#[test]
fn github_prepare_uses_caller_revision() {
    let f = FetchFromGitHub(None);
    let url = segs(&["octocat", "hello-world.git"]);
    let r = f.prepare(&url, Some("abc123".to_string())).unwrap();
    match r {
        Prepared::Resolved(values, rev) => {
            assert_eq!(values, strings(&["octocat", "hello-world"]));
            assert_eq!(rev, "abc123");
        }
        Prepared::NeedLatest(_, _) => panic!("caller revision must be final"),
    }
}

#[test]
fn github_prepare_plans_latest_revision_request() {
    let f = FetchFromGitHub(None);
    let url = segs(&["octocat", "hello-world"]);
    match f.prepare(&url, None).unwrap() {
        Prepared::NeedLatest(values, req) => {
            assert_eq!(values, strings(&["octocat", "hello-world"]));
            assert_eq!(
                req.api_url,
                "https://api.github.com/repos/octocat/hello-world/commits?per_page=1"
            );
        }
        Prepared::Resolved(_, _) => panic!("no caller revision was given"),
    }
}

#[test]
fn github_rev_request_honours_host_override() {
    let f = FetchFromGitHub(Some("github.example.com".to_string()));
    let values = strings(&["owner", "repo"]);
    let req = f.fetch_rev(&values).unwrap();
    assert_eq!(
        req.api_url,
        "https://api.github.example.com/repos/owner/repo/commits?per_page=1"
    );
}

#[test]
fn prepare_fails_on_short_url() {
    let f = FetchFromGitHub(None);
    let url = segs(&["octocat"]);
    let r = f.prepare(&url, Some("abc123".to_string()));
    assert!(matches!(
        r,
        Err(FetchError::Extraction(ExtractionError::InsufficientSegments))
    ));
}

#[test]
fn flake_reference_without_extra_args() {
    let f = FetchFromGitHub(None);
    let url = segs(&["octocat", "hello-world"]);
    let rev = "abc123".to_string();
    let nixpkgs = "<nixpkgs>".to_string();
    let r = f
        .fetch_hash(&url, &rev, None, &pairs(&[]), &pairs(&[]), &nixpkgs)
        .unwrap();
    assert!(matches!(r, HashRequest::Flake(fr) if fr == "github:octocat/hello-world/abc123"));
}

#[test]
fn flake_reference_with_host_override() {
    let f = FetchFromGitHub(Some("github.example.com".to_string()));
    let url = segs(&["octocat", "hello-world"]);
    let rev = "abc123".to_string();
    let nixpkgs = "<nixpkgs>".to_string();
    let r = f
        .fetch_hash(&url, &rev, None, &pairs(&[]), &pairs(&[]), &nixpkgs)
        .unwrap();
    assert!(matches!(
        r,
        HashRequest::Flake(fr) if fr == "github:octocat/hello-world/abc123?host=github.example.com"
    ));
}

#[test]
fn extra_args_force_generic_strategy() {
    let f = FetchFromGitHub(None);
    let url = segs(&["octocat", "hello-world"]);
    let rev = "abc123".to_string();
    let nixpkgs = "<nixpkgs>".to_string();
    let args = pairs(&[("patches", "[ ./p.diff ]")]);
    let args_str = pairs(&[("postFetch", "mv a b")]);
    let r = f.fetch_hash(&url, &rev, None, &args, &args_str, &nixpkgs).unwrap();
    match r {
        HashRequest::Fod(expr) => {
            assert_eq!(
                expr,
                "(import(<nixpkgs>){}).fetchFromGitHub{owner=\"octocat\";repo=\"hello-world\";\
                 rev=\"abc123\";hash=\"sha256-AAAAAAAAAAAAAAAAAAAAAAAAAAAAAAAAAAAAAAAAAAA=\";\
                 patches=[ ./p.diff ];postFetch=\"mv a b\";}"
            );
        }
        _ => panic!("extra arguments must fall back to the generic strategy"),
    }
}

#[test]
fn end_to_end_text_output() {
    let f = FetcherDispatch::FetchFromGitHub(FetchFromGitHub(None));
    let url = segs(&["octocat", "hello-world.git"]);
    let out = f
        .fetch_nix(
            &url,
            "abc123".to_string(),
            "sha256-dummyhash".to_string(),
            None,
            pairs(&[]),
            pairs(&[]),
            Overwrites::new(),
            String::new(),
        )
        .unwrap();
    assert_eq!(
        out,
        "fetchFromGitHub {\n  owner = \"octocat\";\n  repo = \"hello-world\";\n  rev = \"abc123\";\n  hash = \"sha256-dummyhash\";\n}"
    );
}

#[test]
fn end_to_end_text_output_with_rev_overwrite() {
    let f = FetcherDispatch::FetchFromGitHub(FetchFromGitHub(None));
    let url = segs(&["octocat", "hello-world.git"]);
    let mut ov = Overwrites::new();
    ov.push("rev".to_string(), "builtins.fetchGitRev".to_string());
    let out = f
        .fetch_nix(
            &url,
            "abc123".to_string(),
            "sha256-dummyhash".to_string(),
            None,
            pairs(&[]),
            pairs(&[]),
            ov,
            String::new(),
        )
        .unwrap();
    assert_eq!(
        out,
        "fetchFromGitHub {\n  owner = \"octocat\";\n  repo = \"hello-world\";\n  rev = builtins.fetchGitRev;\n  hash = \"sha256-dummyhash\";\n}"
    );
}

#[test]
fn unmatched_overwrite_is_appended_raw() {
    let f = FetchFromGitHub(None);
    let url = segs(&["octocat", "hello-world"]);
    let mut ov = Overwrites::new();
    ov.push("rev".to_string(), "builtins.fetchGitRev".to_string());
    ov.push("extra".to_string(), "1 + 2".to_string());
    let out = f
        .fetch_nix(
            &url,
            "abc123".to_string(),
            "h".to_string(),
            None,
            pairs(&[]),
            pairs(&[]),
            ov,
            String::new(),
        )
        .unwrap();
    assert_eq!(
        out,
        "fetchFromGitHub {\n  owner = \"octocat\";\n  repo = \"hello-world\";\n  rev = builtins.fetchGitRev;\n  hash = \"h\";\n  extra = 1 + 2;\n}"
    );
}

#[test]
fn end_to_end_json_with_raw_extra_argument() {
    let f = FetcherDispatch::FetchFromGitHub(FetchFromGitHub(None));
    let url = segs(&["octocat", "hello-world"]);
    let out = f
        .fetch_json(
            &url,
            "abc123".to_string(),
            "h".to_string(),
            None,
            pairs(&[("sparseCheckout", "[\"src\"]")]),
            pairs(&[]),
            Overwrites::new(),
            pairs(&[]),
        )
        .unwrap();
    assert_eq!(
        out,
        "{\"fetcher\":\"fetchFromGitHub\",\"args\":{\"owner\":\"octocat\",\"repo\":\"hello-world\",\"rev\":\"abc123\",\"hash\":\"h\",\"sparseCheckout\":{\"type\":\"expression\",\"value\":\"[\\\"src\\\"]\"}}}"
    );
    let doc: serde_json::Value = serde_json::from_str(&out).unwrap();
    assert_eq!(doc["fetcher"], serde_json::Value::String("fetchFromGitHub".to_string()));
    assert_eq!(
        doc["args"]["sparseCheckout"]["type"],
        serde_json::Value::String("expression".to_string())
    );
    assert_eq!(
        doc["args"]["sparseCheckout"]["value"],
        serde_json::Value::String("[\"src\"]".to_string())
    );
}

#[test]
fn json_quotes_and_escapes_computed_values() {
    let f = FetchFromGitHub(None);
    let url = segs(&["octocat", "hello-world"]);
    let out = f
        .fetch_json(
            &url,
            "abc123".to_string(),
            "h".to_string(),
            None,
            pairs(&[]),
            pairs(&[("note", "say \"hi\"\\now")]),
            Overwrites::new(),
            pairs(&[]),
        )
        .unwrap();
    assert_eq!(
        out,
        "{\"fetcher\":\"fetchFromGitHub\",\"args\":{\"owner\":\"octocat\",\"repo\":\"hello-world\",\"rev\":\"abc123\",\"hash\":\"h\",\"note\":\"say \\\"hi\\\"\\\\now\"}}"
    );
}

#[test]
fn json_string_overwrite_replaces_in_place_as_string() {
    let f = FetchFromGitHub(None);
    let url = segs(&["octocat", "hello-world"]);
    let out = f
        .fetch_json(
            &url,
            "abc123".to_string(),
            "h".to_string(),
            None,
            pairs(&[]),
            pairs(&[]),
            Overwrites::new(),
            pairs(&[("rev", "v1.0"), ("fresh", "new")]),
        )
        .unwrap();
    assert_eq!(
        out,
        "{\"fetcher\":\"fetchFromGitHub\",\"args\":{\"owner\":\"octocat\",\"repo\":\"hello-world\",\"rev\":\"v1.0\",\"hash\":\"h\",\"fresh\":\"new\"}}"
    );
}

#[test]
fn descriptor_only_preview() {
    let f = FetcherDispatch::FetchFromGitHub(FetchFromGitHub(None));
    let url = segs(&["octocat", "hello-world"]);
    let out = f.to_json(&url, Some("abc123".to_string())).unwrap();
    assert_eq!(
        out,
        "{\"fetcher\":\"fetchFromGitHub\",\"args\":{\"owner\":\"octocat\",\"repo\":\"hello-world\",\"rev\":\"abc123\"}}"
    );
    let without_rev = f.to_json(&url, None).unwrap();
    assert_eq!(
        without_rev,
        "{\"fetcher\":\"fetchFromGitHub\",\"args\":{\"owner\":\"octocat\",\"repo\":\"hello-world\"}}"
    );
}

#[test]
fn host_override_is_emitted_as_host_field() {
    let f = FetchFromGitHub(Some("github.example.com".to_string()));
    let url = segs(&["octocat", "hello-world"]);
    let out = f
        .fetch_nix(
            &url,
            "abc123".to_string(),
            "h".to_string(),
            None,
            pairs(&[]),
            pairs(&[]),
            Overwrites::new(),
            "  ".to_string(),
        )
        .unwrap();
    assert_eq!(
        out,
        "fetchFromGitHub {\n    githubBase = \"github.example.com\";\n    owner = \"octocat\";\n    repo = \"hello-world\";\n    rev = \"abc123\";\n    hash = \"h\";\n  }"
    );
}

#[test]
fn submodules_field_emitted_when_requested() {
    let d = BackendDescriptor {
        name: "fetchgit".to_string(),
        host_key: "domain".to_string(),
        rev_key: "rev".to_string(),
        hash_key: "hash".to_string(),
        keys: strings(&["url"]),
        submodules_key: Some("fetchSubmodules".to_string()),
        submodules_default: false,
        host: None,
        group: None,
    };
    let fields = merged_fields(
        &d,
        &strings(&["https://example.org/r.git"]),
        &"abc".to_string(),
        &"h".to_string(),
        true,
        &pairs(&[]),
        &pairs(&[]),
        Overwrites::new(),
    );
    let out = render_nix(&d.name, &String::new(), &fields);
    assert_eq!(
        out,
        "fetchgit {\n  url = \"https://example.org/r.git\";\n  rev = \"abc\";\n  hash = \"h\";\n  fetchSubmodules = true;\n}"
    );
}

#[test]
fn group_field_emitted_when_declared() {
    let d = BackendDescriptor {
        name: "fetchFromGitLab".to_string(),
        host_key: "domain".to_string(),
        rev_key: "rev".to_string(),
        hash_key: "hash".to_string(),
        keys: strings(&["owner", "repo"]),
        submodules_key: None,
        submodules_default: false,
        host: None,
        group: Some("community".to_string()),
    };
    let fields = merged_fields(
        &d,
        &strings(&["owner", "repo"]),
        &"abc".to_string(),
        &"h".to_string(),
        false,
        &pairs(&[]),
        &pairs(&[]),
        Overwrites::new(),
    );
    let out = render_nix(&d.name, &String::new(), &fields);
    assert_eq!(
        out,
        "fetchFromGitLab {\n  group = \"community\";\n  owner = \"owner\";\n  repo = \"repo\";\n  rev = \"abc\";\n  hash = \"h\";\n}"
    );
}

#[test]
fn overwrites_remove_consumes_entry() {
    let mut ov = Overwrites::new();
    ov.push("rev".to_string(), "expr1".to_string());
    ov.push("extra".to_string(), "expr2".to_string());
    assert_eq!(ov.remove(&"rev".to_string()), Some("expr1".to_string()));
    assert_eq!(ov.remove(&"rev".to_string()), None);
    assert_eq!(ov.len(), 1);
    assert_eq!(ov.remove(&"extra".to_string()), Some("expr2".to_string()));
    assert_eq!(ov.len(), 0);
}
