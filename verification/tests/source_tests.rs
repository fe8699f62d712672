use scaffolder::listing::{RepoMetaData, TemplateDetails, TemplateOption};
use scaffolder::source::{
    checkout_name, clone_url, extract_username_and_repo, may_render, metadata_url, new_project,
    Acquisition, ProjectPlan,
};

fn pair(a: &str, b: &str) -> Option<(String, String)> {
    Some((a.to_string(), b.to_string()))
}

#[test]
fn repository_address_is_split_into_owner_and_name() {
    assert_eq!(extract_username_and_repo("https://github.com/rust-lang/cargo"), pair("rust-lang", "cargo"));
    assert_eq!(extract_username_and_repo("https://github.com/a/b"), pair("a", "b"));
    assert_eq!(extract_username_and_repo("https://github.com/o w/n.git"), pair("o w", "n.git"));
}

#[test]
fn malformed_addresses_are_refused() {
    assert_eq!(extract_username_and_repo(""), None);
    assert_eq!(extract_username_and_repo("https://github.com/"), None);
    assert_eq!(extract_username_and_repo("https://github.com/owner"), None);
    assert_eq!(extract_username_and_repo("https://github.com/owner/"), None);
    assert_eq!(extract_username_and_repo("https://github.com//repo"), None);
    assert_eq!(extract_username_and_repo("https://github.com/owner/repo/"), None);
    assert_eq!(extract_username_and_repo("https://github.com/owner/repo/tree"), None);
    assert_eq!(extract_username_and_repo("http://github.com/owner/repo"), None);
    assert_eq!(extract_username_and_repo("https://gitlab.com/owner/repo"), None);
    assert_eq!(extract_username_and_repo(" https://github.com/owner/repo"), None);
    assert_eq!(extract_username_and_repo("owner/repo"), None);
}

#[test]
fn parsing_agrees_with_the_pattern() {
    let pattern = regex::Regex::new(r"^https://github.com/([^/]+)/([^/]+)$").unwrap();
    let samples = [
        "https://github.com/owner/repo",
        "https://github.com/owner/repo\n",
        "https://github.com/ow\nner/repo",
        "https://githubXcom/owner/repo",
        "https://github\ncom/owner/repo",
        "https://github.com/owner/repo/",
        "https://github.com/owner//repo",
        "https://github.com/owner",
        "https://github.com//",
        "https://github.com/é/ü",
        "https://github.com/a/b?c=d#e",
        "xhttps://github.com/a/b",
        "https://github.com",
        "https://github.co",
        "",
    ];
    for sample in samples {
        let expected = pattern.captures(sample).map(|c| {
            (c.get(1).unwrap().as_str().to_string(), c.get(2).unwrap().as_str().to_string())
        });
        assert_eq!(extract_username_and_repo(sample), expected, "{:?}", sample);
    }
}

#[test]
fn schema_address_is_built_from_owner_and_name() {
    assert_eq!(
        metadata_url("rust-lang", "cargo"),
        "https://raw.githubusercontent.com/rust-lang/cargo/main/metadata.json"
    );
    assert_eq!(metadata_url("", ""), "https://raw.githubusercontent.com///main/metadata.json");
}

#[test]
fn clone_address_puts_the_host_in_front() {
    assert_eq!(clone_url("owner", "repo"), "https://github.com/owner/repo");
    assert_eq!(clone_url("", ""), "https://github.com//");
}

#[test]
fn checkout_name_is_the_last_segment() {
    assert_eq!(checkout_name("https://github.com/owner/repo"), "repo");
    assert_eq!(checkout_name("owner/repo"), "repo");
    assert_eq!(checkout_name("repo"), "repo");
    assert_eq!(checkout_name("owner/"), "");
    assert_eq!(checkout_name(""), "");
    assert_eq!(checkout_name("/"), "");
}

#[test]
fn plan_for_a_repository() {
    assert_eq!(
        new_project("https://github.com/owner/repo"),
        Some(ProjectPlan {
            metadata_url: "https://raw.githubusercontent.com/owner/repo/main/metadata.json".to_string(),
            clone_url: "https://github.com/owner/repo".to_string(),
            checkout_name: "repo".to_string(),
        })
    );
    assert_eq!(new_project("owner/repo"), None);
}

#[test]
fn rendering_goes_ahead_unless_acquisition_failed() {
    assert!(may_render(Acquisition::Cloned));
    assert!(may_render(Acquisition::AlreadyPresent));
    assert!(!may_render(Acquisition::Failed));
}

#[test]
fn template_is_listed_by_its_short_name() {
    let listing = RepoMetaData {
        version: "1".to_string(),
        templates: vec![
            TemplateDetails {
                description: "A web service".to_string(),
                short_name: "web".to_string(),
                url: "https://github.com/acme/web".to_string(),
            },
            TemplateDetails {
                description: "A command line tool".to_string(),
                short_name: "cli".to_string(),
                url: "https://github.com/acme/cli".to_string(),
            },
        ],
    };
    assert_eq!(listing.templates[0].label(), "web");
    assert_eq!(listing.labels(), vec!["web".to_string(), "cli".to_string()]);
    assert_eq!(listing.source_of(1), Some("https://github.com/acme/cli".to_string()));
    assert_eq!(listing.source_of(2), None);
}

#[test]
fn template_option_is_written_out() {
    let option = TemplateOption {
        short_name: "web".to_string(),
        description: "A web service".to_string(),
        repo_link: "https://github.com/acme/web".to_string(),
        identifier: "acme-web".to_string(),
        id: 7,
    };
    assert_eq!(
        option.describe(),
        "TemplateOption {\n  Short Name: web,\n  Description: A web service,\n  Identifier: acme-web\n}"
    );
}

#[test]
fn choice_of_an_option_plans_its_repository() {
    let options = vec![
        TemplateOption {
            short_name: "web".to_string(),
            description: "A web service".to_string(),
            repo_link: "https://github.com/acme/web".to_string(),
            identifier: "acme-web".to_string(),
            id: 7,
        },
        TemplateOption {
            short_name: "odd".to_string(),
            description: "No repository".to_string(),
            repo_link: "acme/odd".to_string(),
            identifier: "acme-odd".to_string(),
            id: 8,
        },
    ];
    let plan = scaffolder::listing::plan_from_choice(&options, 0).unwrap();
    assert_eq!(plan.metadata_url, "https://raw.githubusercontent.com/acme/web/main/metadata.json");
    assert_eq!(plan.checkout_name, "web");
    assert_eq!(scaffolder::listing::plan_from_choice(&options, 1), None);
    assert_eq!(scaffolder::listing::plan_from_choice(&options, 2), None);
}
