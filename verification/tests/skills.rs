use warp_app::{
    activation_for_bundled_skill, build_bundled_skill_context, bundled_skill_snapshot_protos,
    icon_for_bundled_skill, mcp_integration_wire_id, ActivationEnvironment, BundledSkill,
    BundledSkillActivation, BundledSkillDefinition, BundledSkillHost, BundledSkills, FeatureFlag,
    Icon, McpIntegration, ParsedSkill, RemotePath, RemoteSkillSource, SkillDescriptor, SkillPathOrigin,
    SkillReference,
};

fn parsed(path: &str, content: &str) -> ParsedSkill {
    ParsedSkill { path: path.to_string(), content: content.to_string() }
}

fn env(cli: bool, figma: bool, files: &[&str]) -> ActivationEnvironment {
    ActivationEnvironment {
        warp_control_cli_enabled: cli,
        figma_mcp_running: figma,
        existing_files: files.iter().map(|f| f.to_string()).collect(),
    }
}

fn definition(path: &str, activation: BundledSkillActivation, icon: Icon) -> BundledSkillDefinition {
    BundledSkillDefinition { skill: parsed(path, "body"), activation, icon }
}

#[test]
fn pr_comments_skill_gets_the_github_icon() {
    assert_eq!(icon_for_bundled_skill("pr-comments"), Icon::Github);
    assert_eq!(icon_for_bundled_skill("create-pr"), Icon::WarpLogoLight);
    assert_eq!(icon_for_bundled_skill(""), Icon::WarpLogoLight);
}

#[test]
fn bundled_skill_activations_by_id() {
    match activation_for_bundled_skill("modify-settings", "/opt/warp/resources") {
        BundledSkillActivation::RequiresFile(path) => {
            assert_eq!(path, "/opt/warp/resources/settings_schema.json")
        }
        other => panic!("unexpected activation {:?}", other),
    }
    match activation_for_bundled_skill("modify-settings", "/opt/warp/resources/") {
        BundledSkillActivation::RequiresFile(path) => {
            assert_eq!(path, "/opt/warp/resources/settings_schema.json")
        }
        other => panic!("unexpected activation {:?}", other),
    }
    assert!(matches!(
        activation_for_bundled_skill("warpctrl", "/r"),
        BundledSkillActivation::RequiresFeature(FeatureFlag::WarpControlCli)
    ));
    assert!(matches!(activation_for_bundled_skill("create-pr", "/r"), BundledSkillActivation::Always));
}

#[test]
fn activation_conditions_follow_the_environment() {
    let file = BundledSkillActivation::RequiresFile("/r/settings_schema.json".to_string());
    assert!(file.is_enabled(&env(false, false, &["/r/other", "/r/settings_schema.json"])));
    assert!(!file.is_enabled(&env(true, true, &["/r/other"])));
    let feature = BundledSkillActivation::RequiresFeature(FeatureFlag::WarpControlCli);
    assert!(feature.is_enabled(&env(true, false, &[])));
    assert!(!feature.is_enabled(&env(false, true, &[])));
    let mcp = BundledSkillActivation::RequiresMcp(McpIntegration::Figma);
    assert!(mcp.is_enabled(&env(false, true, &[])));
    assert!(!mcp.is_enabled(&env(true, false, &[])));
    assert!(BundledSkillActivation::Always.is_enabled(&env(false, false, &[])));
    assert_eq!(mcp_integration_wire_id(McpIntegration::Figma), "figma");
}

#[test]
fn catalog_lookups_by_id_and_path() {
    let mut catalog = BundledSkill::new();
    catalog.insert(
        "warpctrl".to_string(),
        definition(
            "/r/bundled/skills/warpctrl/SKILL.md",
            BundledSkillActivation::RequiresFeature(FeatureFlag::WarpControlCli),
            Icon::WarpLogoLight,
        ),
    );
    catalog.insert(
        "create-pr".to_string(),
        definition("/r/bundled/skills/create-pr/SKILL.md", BundledSkillActivation::Always, Icon::WarpLogoLight),
    );
    let off = env(false, false, &[]);
    let on = env(true, false, &[]);

    assert_eq!(catalog.skill("warpctrl").unwrap().path, "/r/bundled/skills/warpctrl/SKILL.md");
    assert!(catalog.skill("missing").is_none());
    assert!(catalog.active_skill("warpctrl", &off).is_none());
    assert!(catalog.active_skill("warpctrl", &on).is_some());
    assert!(catalog.active_skill("create-pr", &off).is_some());

    assert_eq!(
        catalog.skill_by_path("/r/bundled/skills/create-pr/SKILL.md").unwrap().path,
        "/r/bundled/skills/create-pr/SKILL.md"
    );
    assert!(catalog.skill_by_path("/r/bundled/skills/other/SKILL.md").is_none());
    assert!(catalog.active_skill_by_path("/r/bundled/skills/warpctrl/SKILL.md", &off).is_none());
    assert!(catalog.active_skill_by_path("/r/bundled/skills/warpctrl/SKILL.md", &on).is_some());
    assert_eq!(
        catalog.reference_for_path("/r/bundled/skills/warpctrl/SKILL.md"),
        Some("warpctrl".to_string())
    );
    assert_eq!(catalog.reference_for_path("/elsewhere/SKILL.md"), None);
}

#[test]
fn inserting_an_existing_id_replaces_its_definition() {
    let mut catalog = BundledSkill::new();
    catalog.insert("a".to_string(), definition("/one", BundledSkillActivation::Always, Icon::WarpLogoLight));
    catalog.insert("a".to_string(), definition("/two", BundledSkillActivation::Always, Icon::WarpLogoLight));
    assert_eq!(catalog.definitions.len(), 1);
    assert_eq!(catalog.skill("a").unwrap().path, "/two");
    assert!(catalog.skill_by_path("/one").is_none());
}

#[test]
fn remote_catalog_icons_and_replacement() {
    let catalog = BundledSkill::from_definitions(vec![
        ("figma-implement".to_string(), parsed("/home/u/.warp/figma/SKILL.md", "f"), BundledSkillActivation::RequiresMcp(McpIntegration::Figma)),
        ("pr-comments".to_string(), parsed("/home/u/.warp/pr/SKILL.md", "old"), BundledSkillActivation::Always),
        ("create-pr".to_string(), parsed("/home/u/.warp/create/SKILL.md", "c"), BundledSkillActivation::Always),
        ("pr-comments".to_string(), parsed("/home/u/.warp/pr2/SKILL.md", "new"), BundledSkillActivation::Always),
    ]);
    assert_eq!(catalog.definitions.len(), 3);
    let icon_of = |id: &str| catalog.definitions.iter().find(|(k, _)| k == id).unwrap().1.icon;
    assert_eq!(icon_of("figma-implement"), Icon::Figma);
    assert_eq!(icon_of("pr-comments"), Icon::Github);
    assert_eq!(icon_of("create-pr"), Icon::WarpLogoLight);
    assert_eq!(catalog.skill("pr-comments").unwrap().content, "new");
}

#[test]
fn remote_catalogs_are_host_scoped_replaceable_and_removable() {
    let mut skills = BundledSkills::new();
    let mut local = BundledSkill::new();
    local.insert("create-pr".to_string(), definition("/local/create-pr/SKILL.md", BundledSkillActivation::Always, Icon::WarpLogoLight));
    skills.set_local(local);

    let mut first = BundledSkill::new();
    first.insert("create-pr".to_string(), definition("/remote/v1/SKILL.md", BundledSkillActivation::Always, Icon::WarpLogoLight));
    skills.insert_remote("host-a".to_string(), first);
    let mut second = BundledSkill::new();
    second.insert("create-pr".to_string(), definition("/remote/v2/SKILL.md", BundledSkillActivation::Always, Icon::WarpLogoLight));
    skills.insert_remote("host-a".to_string(), second);

    let at = |host: &str, path: &str| RemotePath { host_id: host.to_string(), path: path.to_string() };
    assert!(skills.remote_skill_by_path(&at("host-a", "/remote/v1/SKILL.md")).is_none());
    assert!(skills.remote_skill_by_path(&at("host-a", "/remote/v2/SKILL.md")).is_some());
    assert!(skills.remote_skill_by_path(&at("host-b", "/remote/v2/SKILL.md")).is_none());
    assert!(skills.remote("host-b").is_none());

    let e = env(false, false, &[]);
    let remote_origin = SkillPathOrigin::Remote { host_id: "host-a".to_string() };
    assert_eq!(skills.active_skill("create-pr", &remote_origin, &e).unwrap().path, "/remote/v2/SKILL.md");
    assert_eq!(skills.active_skill("create-pr", &SkillPathOrigin::Local, &e).unwrap().path, "/local/create-pr/SKILL.md");
    assert_eq!(
        skills.active_skill("create-pr", &SkillPathOrigin::RestoredDisplayOnly, &e).unwrap().path,
        "/local/create-pr/SKILL.md"
    );
    assert!(skills.active_skill("create-pr", &SkillPathOrigin::Unavailable, &e).is_none());
    assert_eq!(skills.local_skill("create-pr").unwrap().path, "/local/create-pr/SKILL.md");
    assert_eq!(skills.reference_for_path("/local/create-pr/SKILL.md"), Some("create-pr".to_string()));

    skills.remove_remote("host-a");
    assert!(skills.remote("host-a").is_none());
    assert!(skills.active_skill("create-pr", &remote_origin, &e).is_none());
    assert!(skills.local_skill("create-pr").is_some());
}

#[test]
fn remote_active_skill_by_path_respects_activation() {
    let mut skills = BundledSkills::new();
    let mut catalog = BundledSkill::new();
    catalog.insert(
        "figma".to_string(),
        definition("/remote/figma/SKILL.md", BundledSkillActivation::RequiresMcp(McpIntegration::Figma), Icon::Figma),
    );
    skills.insert_remote("h".to_string(), catalog);
    let path = RemotePath { host_id: "h".to_string(), path: "/remote/figma/SKILL.md".to_string() };
    assert!(skills.remote_active_skill_by_path(&path, &env(false, false, &[])).is_none());
    assert!(skills.remote_active_skill_by_path(&path, &env(false, true, &[])).is_some());
}

#[test]
fn snapshot_filters_daemon_conditions_and_sorts_by_path() {
    let mut catalog = BundledSkill::new();
    catalog.insert("zeta".to_string(), definition("/s/zeta/SKILL.md", BundledSkillActivation::Always, Icon::WarpLogoLight));
    catalog.insert(
        "figma".to_string(),
        definition("/s/figma/SKILL.md", BundledSkillActivation::RequiresMcp(McpIntegration::Figma), Icon::Figma),
    );
    catalog.insert(
        "modify-settings".to_string(),
        definition("/s/modify/SKILL.md", BundledSkillActivation::RequiresFile("/s/settings_schema.json".to_string()), Icon::WarpLogoLight),
    );
    catalog.insert(
        "warpctrl".to_string(),
        definition("/s/warpctrl/SKILL.md", BundledSkillActivation::RequiresFeature(FeatureFlag::WarpControlCli), Icon::WarpLogoLight),
    );

    let protos = bundled_skill_snapshot_protos(&catalog, &env(false, false, &[]));
    let paths: Vec<&str> = protos.iter().map(|p| p.path.as_str()).collect();
    assert_eq!(paths, vec!["/s/figma/SKILL.md", "/s/zeta/SKILL.md"]);
    match &protos[0].source {
        Some(RemoteSkillSource::Bundled(meta)) => {
            assert_eq!(meta.id, "figma");
            assert_eq!(meta.requires_mcp, Some("figma".to_string()));
        }
        None => panic!("missing source"),
    }
    match &protos[1].source {
        Some(RemoteSkillSource::Bundled(meta)) => {
            assert_eq!(meta.id, "zeta");
            assert_eq!(meta.requires_mcp, None);
        }
        None => panic!("missing source"),
    }
    assert_eq!(protos[1].content, "body");

    let protos = bundled_skill_snapshot_protos(&catalog, &env(true, false, &["/s/settings_schema.json"]));
    let paths: Vec<&str> = protos.iter().map(|p| p.path.as_str()).collect();
    assert_eq!(
        paths,
        vec!["/s/figma/SKILL.md", "/s/modify/SKILL.md", "/s/warpctrl/SKILL.md", "/s/zeta/SKILL.md"]
    );
}

#[test]
fn test_build_bundled_skill_context() {
    let host = BundledSkillHost {
        server_root_url: "https://app.warp.dev".to_string(),
        cli_binary_name: "warp".to_string(),
        warpctrl_binary_name: "warpctrl".to_string(),
        url_scheme: "warp".to_string(),
        settings_file_path: "/home/u/.warp/settings.toml".to_string(),
        keybindings_file_path: "/home/u/.warp/keybindings.yaml".to_string(),
    };
    let resources_dir = "/tmp/res";
    let skill_dir = "/tmp/res/bundled/skills/test-skill";
    let context = build_bundled_skill_context(resources_dir, skill_dir, &host);
    assert_eq!(context.len(), 9);
    let get = |k: &str| context.iter().find(|(key, _)| key == k).map(|(_, v)| v.clone());
    assert_eq!(get("warp_server_url"), Some("https://app.warp.dev".to_string()));
    assert_eq!(get("warp_cli_binary_name"), Some("warp".to_string()));
    assert_eq!(get("warpctrl_binary_name"), Some("warpctrl".to_string()));
    assert_eq!(get("warpctrl_wrapper_path"), Some("/tmp/res/bin/warpctrl".to_string()));
    assert_eq!(get("warp_url_scheme"), Some("warp".to_string()));
    assert_eq!(get("settings_file_path"), Some("/home/u/.warp/settings.toml".to_string()));
    assert_eq!(get("keybindings_file_path"), Some("/home/u/.warp/keybindings.yaml".to_string()));
    assert_eq!(get("settings_schema_path"), Some("/tmp/res/settings_schema.json".to_string()));
    assert_eq!(get("skill_dir"), Some(skill_dir.to_string()));
}

fn bundled_test_skill(id: &str) -> ParsedSkill {
    parsed(&format!("/bundled/skills/{id}/SKILL.md"), &format!("# {id}"))
}

fn remote_home_skill(name: &str, content: &str) -> ParsedSkill {
    parsed(&format!("/home/user/.agents/skills/{name}/SKILL.md"), content)
}

#[test]
fn warp_control_bundled_skill_activations_track_warp_control_feature() {
    let activations = ["warpctrl"].map(|skill_id| activation_for_bundled_skill(skill_id, "/resources"));
    for activation in &activations {
        assert!(!activation.is_enabled(&env(false, false, &[])));
    }
    for activation in &activations {
        assert!(activation.is_enabled(&env(true, false, &[])));
    }
}

#[test]
fn warp_control_direct_read_respects_warp_control_feature() {
    let mut catalog = BundledSkill::new();
    catalog.insert(
        "warpctrl".to_string(),
        BundledSkillDefinition {
            skill: bundled_test_skill("warpctrl"),
            activation: BundledSkillActivation::RequiresFeature(FeatureFlag::WarpControlCli),
            icon: icon_for_bundled_skill("warpctrl"),
        },
    );
    let mut skills = BundledSkills::new();
    skills.set_local(catalog);

    assert!(skills.local_skill("warpctrl").is_some());
    assert!(skills.active_skill("warpctrl", &SkillPathOrigin::Local, &env(false, false, &[])).is_none());
    assert!(skills.active_skill("warpctrl", &SkillPathOrigin::Local, &env(true, false, &[])).is_some());
}

#[test]
fn remote_home_skills_are_host_scoped_replaceable_and_path_invokable() {
    let mut skills = BundledSkills::new();
    let mut first = BundledSkill::new();
    first.insert(
        "deploy".to_string(),
        BundledSkillDefinition { skill: remote_home_skill("deploy", "first host content"), activation: BundledSkillActivation::Always, icon: Icon::WarpLogoLight },
    );
    let mut second = BundledSkill::new();
    second.insert(
        "deploy".to_string(),
        BundledSkillDefinition { skill: remote_home_skill("deploy", "second host content"), activation: BundledSkillActivation::Always, icon: Icon::WarpLogoLight },
    );
    skills.insert_remote("first-host".to_string(), first);
    skills.insert_remote("second-host".to_string(), second);

    let e = env(false, false, &[]);
    for (host, expected) in [("first-host", "first host content"), ("second-host", "second host content")] {
        let path = RemotePath { host_id: host.to_string(), path: "/home/user/.agents/skills/deploy/SKILL.md".to_string() };
        assert_eq!(skills.remote_active_skill_by_path(&path, &e).map(|s| s.content.clone()), Some(expected.to_string()));
    }
    assert!(skills.local_skill("deploy").is_none());

    skills.insert_remote("first-host".to_string(), BundledSkill::new());
    let first_path = RemotePath { host_id: "first-host".to_string(), path: "/home/user/.agents/skills/deploy/SKILL.md".to_string() };
    let second_path = RemotePath { host_id: "second-host".to_string(), path: "/home/user/.agents/skills/deploy/SKILL.md".to_string() };
    assert!(skills.remote_active_skill_by_path(&first_path, &e).is_none());
    assert!(skills.remote_active_skill_by_path(&second_path, &e).is_some());
}

#[test]
fn removing_remote_home_skills_preserves_project_skills_below_home() {
    let mut skills = BundledSkills::new();
    let mut project = BundledSkill::new();
    project.insert(
        "project".to_string(),
        BundledSkillDefinition {
            skill: parsed("/home/user/repo/.agents/skills/project/SKILL.md", "# project"),
            activation: BundledSkillActivation::Always,
            icon: Icon::WarpLogoLight,
        },
    );
    skills.set_local(project);
    let mut home = BundledSkill::new();
    home.insert(
        "home".to_string(),
        BundledSkillDefinition { skill: remote_home_skill("home", "home content"), activation: BundledSkillActivation::Always, icon: Icon::WarpLogoLight },
    );
    skills.insert_remote("remote-host".to_string(), home);
    skills.remove_remote("remote-host");

    let home_path = RemotePath { host_id: "remote-host".to_string(), path: "/home/user/.agents/skills/home/SKILL.md".to_string() };
    assert!(skills.remote_skill_by_path(&home_path).is_none());
    assert!(skills.reference_for_path("/home/user/repo/.agents/skills/project/SKILL.md").is_some());
    assert!(skills.local_skill("home").is_none());
    assert_eq!(skills.local_skill("project").unwrap().path, "/home/user/repo/.agents/skills/project/SKILL.md");
}

fn listed(descriptors: &[SkillDescriptor]) -> Vec<String> {
    descriptors
        .iter()
        .map(|d| match &d.reference {
            SkillReference::BundledSkillId(id) => format!("id:{id}"),
            SkillReference::Path(path) => format!("path:{path}"),
        })
        .collect()
}

#[test]
fn active_descriptors_list_active_skills_by_id_locally_and_by_path_remotely() {
    let mut skills = BundledSkills::new();
    let mut local = BundledSkill::new();
    local.insert("create-pr".to_string(), definition("/local/create-pr/SKILL.md", BundledSkillActivation::Always, Icon::WarpLogoLight));
    local.insert(
        "warpctrl".to_string(),
        definition("/local/warpctrl/SKILL.md", BundledSkillActivation::RequiresFeature(FeatureFlag::WarpControlCli), Icon::WarpLogoLight),
    );
    skills.set_local(local);
    let mut remote = BundledSkill::new();
    remote.insert("pr-comments".to_string(), definition("/remote/pr-comments/SKILL.md", BundledSkillActivation::Always, Icon::Github));
    remote.insert(
        "figma".to_string(),
        definition("/remote/figma/SKILL.md", BundledSkillActivation::RequiresMcp(McpIntegration::Figma), Icon::Figma),
    );
    skills.insert_remote("host-a".to_string(), remote);

    let off = env(false, false, &[]);
    let on = env(true, true, &[]);
    assert_eq!(listed(&skills.active_descriptors(&SkillPathOrigin::Local, &off)), vec!["id:create-pr"]);
    assert_eq!(
        listed(&skills.active_descriptors(&SkillPathOrigin::RestoredDisplayOnly, &on)),
        vec!["id:create-pr", "id:warpctrl"]
    );
    let remote_origin = SkillPathOrigin::Remote { host_id: "host-a".to_string() };
    assert_eq!(listed(&skills.active_descriptors(&remote_origin, &off)), vec!["path:/remote/pr-comments/SKILL.md"]);
    let remote_on = skills.active_descriptors(&remote_origin, &on);
    assert_eq!(
        listed(&remote_on),
        vec!["path:/remote/pr-comments/SKILL.md", "path:/remote/figma/SKILL.md"]
    );
    assert_eq!(remote_on[0].icon, Icon::Github);
    assert_eq!(remote_on[1].skill.path, "/remote/figma/SKILL.md");
    let unknown = SkillPathOrigin::Remote { host_id: "host-b".to_string() };
    assert!(skills.active_descriptors(&unknown, &on).is_empty());
    assert!(skills.active_descriptors(&SkillPathOrigin::Unavailable, &on).is_empty());
}

#[test]
fn snapshot_keeps_catalog_order_among_equal_paths() {
    let mut catalog = BundledSkill::new();
    catalog.insert("b".to_string(), definition("/s/same/SKILL.md", BundledSkillActivation::Always, Icon::WarpLogoLight));
    catalog.insert("a".to_string(), definition("/s/same/SKILL.md", BundledSkillActivation::Always, Icon::WarpLogoLight));
    catalog.insert("c".to_string(), definition("/s/aaa/SKILL.md", BundledSkillActivation::Always, Icon::WarpLogoLight));
    let protos = bundled_skill_snapshot_protos(&catalog, &env(false, false, &[]));
    let ids: Vec<String> = protos
        .iter()
        .map(|p| match &p.source {
            Some(RemoteSkillSource::Bundled(meta)) => meta.id.clone(),
            None => String::new(),
        })
        .collect();
    assert_eq!(ids, vec!["c", "b", "a"]);
}
