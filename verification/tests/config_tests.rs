use rapp_core::config::agent_asset_url;
use rapp_core::config::already_exists;
use rapp_core::config::clone_result;
use rapp_core::config::config_json;
use rapp_core::config::create_success;
use rapp_core::config::default_config;
use rapp_core::config::install_success;
use rapp_core::config::prereq_report;
use rapp_core::config::project_entry;
use rapp_core::config::project_main_stub;
use rapp_core::config::project_manifest;
use rapp_core::config::skill_asset_url;
use rapp_core::config::ProjectInfo;
use rapp_core::config::RappConfig;

#[test]
fn default_config_is_fresh() {
    let c = default_config("/home/u/.rapp".to_string());
    assert_eq!(c.rapp_home, "/home/u/.rapp");
    assert!(!c.azure_configured);
    assert!(c.projects.is_empty());
}

#[test]
fn store_urls_are_built_from_path_and_filename() {
    assert_eq!(
        agent_asset_url("agents/email", "email_agent.py"),
        "https://raw.githubusercontent.com/kody-w/RAPP_Store/main/agents/email/email_agent.py"
    );
    assert_eq!(
        skill_asset_url("skills/notes"),
        "https://raw.githubusercontent.com/kody-w/RAPP_Store/main/skills/notes/SKILL.md"
    );
}

#[test]
fn install_outcomes_carry_message_and_path() {
    let r = install_success("email_agent", "/home/u/.rapp/agents/email_agent.py".to_string());
    assert!(r.success);
    assert_eq!(r.message, "Installed email_agent");
    assert_eq!(r.path.unwrap(), "/home/u/.rapp/agents/email_agent.py");

    let c = create_success("demo", "/home/u/.rapp/projects/demo".to_string());
    assert!(c.success);
    assert_eq!(c.message, "Created demo");
    assert_eq!(c.path.unwrap(), "/home/u/.rapp/projects/demo");

    let e = already_exists();
    assert!(!e.success);
    assert_eq!(e.message, "Already exists");
    assert!(e.path.is_none());
}

#[test]
fn clone_result_follows_exit_status() {
    let ok = clone_result(true, String::new(), "/p/demo".to_string());
    assert!(ok.success);
    assert_eq!(ok.message, "Cloned");
    assert_eq!(ok.path.unwrap(), "/p/demo");

    let bad = clone_result(false, "fatal: repository not found".to_string(), "/p/demo".to_string());
    assert!(!bad.success);
    assert_eq!(bad.message, "fatal: repository not found");
    assert_eq!(bad.path.unwrap(), "/p/demo");
}

#[test]
fn prereq_report_is_exact_json() {
    assert_eq!(
        prereq_report(true, false, true),
        "{\"python\":true,\"git\":false,\"azure_cli\":true}"
    );
    assert_eq!(
        prereq_report(false, false, false),
        "{\"python\":false,\"git\":false,\"azure_cli\":false}"
    );
}

#[test]
fn project_scaffold_texts_are_exact() {
    assert_eq!(
        project_manifest("demo"),
        "{\"name\":\"demo\",\"version\":\"1.0.0\",\
         \"dependencies\":{\"rapp_store\":{\"agents\":[],\"skills\":[]}}}"
    );
    // A name needing escapes still yields a well-formed manifest.
    let m = project_manifest("my \"app\"");
    let v: serde_json::Value = serde_json::from_str(&m).unwrap();
    assert_eq!(v["name"].as_str().unwrap(), "my \"app\"");
    assert_eq!(v["version"].as_str().unwrap(), "1.0.0");

    assert_eq!(project_main_stub(), "#!/usr/bin/env python3\nprint('Hello from RAPP!')");
}

#[test]
fn project_entry_has_no_created_time() {
    let p = project_entry("demo".to_string(), "/p/demo".to_string());
    assert_eq!(p.name, "demo");
    assert_eq!(p.path, "/p/demo");
    assert_eq!(p.created, "");
}

#[test]
fn config_json_round_trips_through_a_real_parser() {
    let c = RappConfig {
        rapp_home: "/home/u/.rapp".to_string(),
        azure_configured: true,
        projects: vec![
            ProjectInfo {
                name: "one".to_string(),
                path: "/p/one".to_string(),
                created: "2024-01-01".to_string(),
            },
            ProjectInfo {
                name: "two \"quoted\"".to_string(),
                path: "/p/two".to_string(),
                created: String::new(),
            },
        ],
    };
    let text = config_json(&c);
    let v: serde_json::Value = serde_json::from_str(&text).unwrap();
    assert_eq!(v["rapp_home"].as_str().unwrap(), "/home/u/.rapp");
    assert_eq!(v["azure_configured"].as_bool().unwrap(), true);
    let ps = v["projects"].as_array().unwrap();
    assert_eq!(ps.len(), 2);
    assert_eq!(ps[0]["name"].as_str().unwrap(), "one");
    assert_eq!(ps[0]["created"].as_str().unwrap(), "2024-01-01");
    assert_eq!(ps[1]["name"].as_str().unwrap(), "two \"quoted\"");
}

#[test]
fn config_json_with_no_projects_is_exact() {
    let c = default_config("/h/.rapp".to_string());
    assert_eq!(
        config_json(&c),
        "{\"rapp_home\":\"/h/.rapp\",\"azure_configured\":false,\"projects\":[]}"
    );
}
