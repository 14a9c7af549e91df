use orbit::config::{Config, General, LangMode, Locality};
use orbit::context::{
    join_path, listing_holds, Context, ContextError, DirListing, Effect, Loaded, Override,
    CACHE_TAG, CACHE_TAG_FILE, MANIFEST_FILE,
};

const HOME: &str = "./tests/env";

fn listing(path: &str, entries: &[&str]) -> DirListing {
    DirListing {
        path: String::from(path),
        entries: Some(entries.iter().map(|e| String::from(*e)).collect()),
    }
}

fn unreadable(path: &str) -> DirListing {
    DirListing { path: String::from(path), entries: None }
}

fn named(path: &str) -> Override {
    Override::Named { path: String::from(path), exists: true, is_dir: true }
}

fn general(build_dir: Option<&str>, lang_mode: Option<LangMode>) -> Config {
    Config { general: Some(General { build_dir: build_dir.map(String::from), lang_mode }) }
}

/// The directories from `./tests/env/project1/rtl/syn/` up, as a reader of
/// the file system finds them: the two innermost do not exist.
fn chain_from_syn(home: &str) -> Vec<DirListing> {
    vec![
        unreadable(&(home.to_owned() + "/project1/rtl/syn/")),
        unreadable(&(home.to_owned() + "/project1/rtl")),
        listing(&(home.to_owned() + "/project1"), &["Orbit.toml", "README.md"]),
        listing(home, &["project1", "project2"]),
        listing("./tests", &["env"]),
        listing(".", &["Cargo.toml", "src", "tests"]),
        listing("", &[]),
    ]
}

#[test]
fn find_target_path() {
    // existing path with target at root
    let home = HOME.to_owned();
    let chain = vec![
        listing(&(home.clone() + "/project1"), &["Orbit.toml", "README.md"]),
        listing(&home, &["project1", "project2"]),
        listing("./tests", &["env"]),
        listing(".", &["Cargo.toml", "src", "tests"]),
        listing("", &[]),
    ];
    let p = Context::find_target_path(&chain, "Orbit.toml");
    assert_eq!(p, Some(home.clone() + "/project1"));

    // inner path with target a directory back
    let chain = vec![
        listing("./src", &["lib.rs", "core"]),
        listing(".", &["Cargo.toml", "src", "tests"]),
        listing("", &[]),
    ];
    let p = Context::find_target_path(&chain, "Cargo.toml");
    assert_eq!(p, Some(String::from(".")));

    // imaginary path with target a couple directories back
    let p = Context::find_target_path(&chain_from_syn(&home), "Orbit.toml");
    assert_eq!(p, Some(home.clone() + "/project1"));

    // no existing target
    let p = Context::find_target_path(&chain_from_syn(&home), "HIDDEN-TARGET.TXT");
    assert_eq!(p, None);
}

#[test]
fn locator_finds_the_nearest_manifest() {
    // a manifest only at `a`: the search from `a/b/c` gives `a`
    let chain = vec![
        listing("/a/b/c", &["main.vhd"]),
        listing("/a/b", &["c"]),
        listing("/a", &["b", "Orbit.toml"]),
        listing("/", &["a", "z"]),
    ];
    assert_eq!(Context::find_ip_path(&chain), Some(String::from("/a")));
    assert_eq!(Context::find_target_path(&chain, MANIFEST_FILE), Some(String::from("/a")));
    // a sibling tree without a manifest, up to the root, gives none
    let chain = vec![listing("/z/b/c", &[]), listing("/z/b", &["c"]), listing("/z", &["b"]),
        listing("/", &["a", "z"])];
    assert_eq!(Context::find_ip_path(&chain), None);
}

#[test]
fn locator_prefers_the_innermost_of_two_manifests() {
    let chain = vec![
        listing("/a/b", &["Orbit.toml"]),
        listing("/a", &["b", "Orbit.toml"]),
        listing("/", &["a"]),
    ];
    assert_eq!(Context::find_ip_path(&chain), Some(String::from("/a/b")));
}

#[test]
fn locator_matches_whole_names_only() {
    let chain = vec![
        listing("/a/b", &["Orbit.toml.bak", "orbit.toml", "Orbit.tom"]),
        unreadable("/a"),
        listing("/", &["Orbit.toml"]),
    ];
    assert_eq!(Context::find_ip_path(&chain), Some(String::from("/")));
    assert_eq!(Context::find_ip_path(&Vec::new()), None);
    assert!(listing_holds(&listing("/", &["x", "Orbit.toml"]), "Orbit.toml"));
    assert!(!listing_holds(&listing("/", &["x"]), "Orbit.toml"));
    assert!(!listing_holds(&unreadable("/"), "Orbit.toml"));
}

#[test]
fn join_puts_one_separator_between() {
    assert_eq!(join_path("/home/u", ".orbit"), "/home/u/.orbit");
    assert_eq!(join_path("/home/u/", ".orbit"), "/home/u/.orbit");
    assert_eq!(join_path("", "cache"), "cache");
    assert_eq!(join_path("/", "cache"), "/cache");
    assert_eq!(join_path(".", "src"), "./src");
}

#[test]
fn context_starts_under_the_temporary_directory() {
    let mut c = Context::new("/tmp");
    assert_eq!(c.get_home_path(), "/tmp");
    assert_eq!(c.get_cache_path(), "/tmp/cache");
    assert_eq!(c.get_downloads_path(), "/tmp/downloads");
    assert_eq!(c.get_ip_path(), None);
    assert_eq!(c.get_config(), &Config::new());
    assert_eq!(c.get_all_configs().len(), 0);
    assert_eq!(c.get_build_dir(), "build");
    assert_eq!(c.get_lang_mode(), LangMode::Vhdl);
    assert_eq!(c.take_effects(), Vec::new());
}

#[test]
fn home_override_is_used_as_it_stands() {
    let mut c = Context::new("/tmp").home("ORBIT_HOME", named("/opt/orbit"), Some("/home/u")).unwrap();
    assert_eq!(c.get_home_path(), "/opt/orbit");
    assert_eq!(
        c.take_effects(),
        vec![Effect::ExportPath(String::from("ORBIT_HOME"), String::from("/opt/orbit"))]
    );
}

#[test]
fn home_override_must_exist() {
    let over = Override::Named { path: String::from("/nowhere"), exists: false, is_dir: false };
    let e = Context::new("/tmp").home("MY_HOME", over, Some("/home/u")).unwrap_err();
    // the error names the path and the key; the default is no way out
    assert_eq!(e, ContextError(String::from("directory /nowhere does not exist for MY_HOME")));
    assert_eq!(e.to_string(), "directory /nowhere does not exist for MY_HOME");
    let over = Override::Named { path: String::from("/nowhere"), exists: false, is_dir: false };
    let e = Context::new("/tmp").home("ORBIT_HOME", over, None).unwrap_err();
    assert_eq!(e.to_string(), "directory /nowhere does not exist for ORBIT_HOME");
}

#[test]
fn home_override_must_be_a_directory() {
    let over = Override::Named { path: String::from("/etc/hosts"), exists: true, is_dir: false };
    let e = Context::new("/tmp").home("MY_HOME", over, Some("/home/u")).unwrap_err();
    assert_eq!(e.to_string(), "MY_HOME must be a filesystem directory");
}

#[test]
fn home_that_exists_is_not_created() {
    let existing = Override::Unset { default_exists: true };
    let mut c = Context::new("/tmp").home("ORBIT_HOME", existing, Some("/home/u")).unwrap();
    assert_eq!(c.get_home_path(), "/home/u/.orbit");
    assert_eq!(Context::default_home("/home/u"), "/home/u/.orbit");
    assert_eq!(
        c.take_effects(),
        vec![Effect::ExportPath(String::from("ORBIT_HOME"), String::from("/home/u/.orbit"))]
    );
    // the other paths stay as they were
    assert_eq!(c.get_cache_path(), "/tmp/cache");
    assert_eq!(c.get_downloads_path(), "/tmp/downloads");
    assert_eq!(c.get_ip_path(), None);
}

#[test]
fn home_defaults_to_the_hidden_folder() {
    let mut c = Context::new("/tmp").home("ORBIT_HOME", Override::Unset { default_exists: false }, Some("/home/u")).unwrap();
    assert_eq!(c.get_home_path(), "/home/u/.orbit");
    assert_eq!(
        c.take_effects(),
        vec![
            Effect::CreateDir(String::from("/home/u/.orbit")),
            Effect::ExportPath(String::from("ORBIT_HOME"), String::from("/home/u/.orbit")),
        ]
    );
}

#[test]
fn home_without_a_user_home_fails() {
    let e = Context::new("/tmp").home("ORBIT_HOME", Override::Unset { default_exists: false }, None).unwrap_err();
    assert_eq!(
        e.to_string(),
        "failed to detect user's home directory; please set the ORBIT_HOME environment variable"
    );
}

#[test]
fn directory_override_is_used_exactly_and_nothing_is_created() {
    let c = Context::new("/tmp").home("ORBIT_HOME", named("/opt/orbit"), None).unwrap();
    let mut c = c.downloads("ORBIT_DOWNLOADS", named("/data/dl/")).unwrap();
    assert_eq!(c.get_downloads_path(), "/data/dl/");
    let effects = c.take_effects();
    assert_eq!(
        effects,
        vec![
            Effect::ExportPath(String::from("ORBIT_HOME"), String::from("/opt/orbit")),
            Effect::ExportPath(String::from("ORBIT_DOWNLOADS"), String::from("/data/dl/")),
        ]
    );
    assert!(effects.iter().all(|e| !matches!(e, Effect::CreateDir(_))));
}

#[test]
fn directory_default_lies_under_home_and_is_created() {
    let c = Context::new("/tmp").home("ORBIT_HOME", named("/opt/orbit"), None).unwrap();
    let mut c = c.downloads("ORBIT_DOWNLOADS", Override::Unset { default_exists: false }).unwrap();
    assert_eq!(c.get_downloads_path(), "/opt/orbit/downloads");
    assert_eq!(c.get_home_path(), "/opt/orbit");
    assert_eq!(
        c.take_effects(),
        vec![
            Effect::ExportPath(String::from("ORBIT_HOME"), String::from("/opt/orbit")),
            Effect::CreateDir(String::from("/opt/orbit/downloads")),
            Effect::ExportPath(String::from("ORBIT_DOWNLOADS"), String::from("/opt/orbit/downloads")),
        ]
    );
}

#[test]
fn directory_resolution_is_idempotent() {
    let c = Context::new("/tmp").home("ORBIT_HOME", named("/opt/orbit"), None).unwrap();
    let mut first = c.downloads("ORBIT_DOWNLOADS", Override::Unset { default_exists: false }).unwrap();
    let path = first.get_downloads_path().clone();
    assert_eq!(first.default_folder("downloads"), path);
    first.take_effects();
    // the second call finds what the first one recorded and created
    let mut second = first.downloads("ORBIT_DOWNLOADS", named(&path)).unwrap();
    assert_eq!(second.get_downloads_path(), &path);
    assert_eq!(
        second.take_effects(),
        vec![Effect::ExportPath(String::from("ORBIT_DOWNLOADS"), path.clone())]
    );
    // and without the record the default is the same again, and is not created anew
    let mut third =
        second.downloads("ORBIT_DOWNLOADS", Override::Unset { default_exists: true }).unwrap();
    assert_eq!(third.get_downloads_path(), &path);
    assert_eq!(
        third.take_effects(),
        vec![Effect::ExportPath(String::from("ORBIT_DOWNLOADS"), path.clone())]
    );
}

#[test]
fn directory_override_must_exist_and_be_a_directory() {
    let c = Context::new("/tmp");
    let gone = Override::Named { path: String::from("/gone"), exists: false, is_dir: false };
    assert_eq!(
        c.downloads("ORBIT_DOWNLOADS", gone).unwrap_err().to_string(),
        "directory /gone does not exist for ORBIT_DOWNLOADS"
    );
    let c = Context::new("/tmp");
    let file = Override::Named { path: String::from("/etc/hosts"), exists: true, is_dir: false };
    assert_eq!(
        c.cache("ORBIT_CACHE", file, None).unwrap_err().to_string(),
        "ORBIT_CACHE must be a filesystem directory"
    );
}

#[test]
fn candidate_is_where_resolution_will_look() {
    let c = Context::new("/tmp").home("ORBIT_HOME", named("/opt/orbit"), None).unwrap();
    assert_eq!(c.candidate("cache", &Override::Unset { default_exists: false }), "/opt/orbit/cache");
    assert_eq!(c.candidate("cache", &named("/var/cache/orbit")), "/var/cache/orbit");
}

#[test]
fn cache_tag_is_written_when_missing() {
    let c = Context::new("/tmp").home("ORBIT_HOME", named("/opt/orbit"), None).unwrap();
    let mut c = c.cache("ORBIT_CACHE", Override::Unset { default_exists: false }, None).unwrap();
    assert_eq!(c.get_cache_path(), "/opt/orbit/cache");
    assert_eq!(
        c.take_effects(),
        vec![
            Effect::ExportPath(String::from("ORBIT_HOME"), String::from("/opt/orbit")),
            Effect::CreateDir(String::from("/opt/orbit/cache")),
            Effect::ExportPath(String::from("ORBIT_CACHE"), String::from("/opt/orbit/cache")),
            Effect::WriteFile(
                String::from("/opt/orbit/cache/CACHEDIR.TAG"),
                String::from(CACHE_TAG)
            ),
        ]
    );
}

#[test]
fn cache_tag_is_left_alone_when_valid() {
    let mut c = Context::new("/tmp").cache("ORBIT_CACHE", named("/c"), Some(CACHE_TAG)).unwrap();
    assert_eq!(c.get_cache_path(), "/c");
    assert_eq!(c.take_effects(), vec![Effect::ExportPath(String::from("ORBIT_CACHE"), String::from("/c"))]);
}

#[test]
fn cache_tag_is_rewritten_after_any_change() {
    let canonical = "Signature: 8a477f597d28d172789f06886806bc55\n# This file is a cache directory tag created by orbit.\n# For information about cache directory tags see https://bford.info/cachedir/\n";
    assert_eq!(CACHE_TAG, canonical);
    assert_eq!(CACHE_TAG_FILE, "CACHEDIR.TAG");
    assert_eq!(Context::is_cache_tag_valid("/c", Some(canonical)), Ok(()));
    let tag = String::from("/c/CACHEDIR.TAG");
    assert_eq!(Context::is_cache_tag_valid("/c", None), Err(tag.clone()));
    assert_eq!(Context::is_cache_tag_valid("/c", Some("")), Err(tag.clone()));
    // one byte changed, one dropped, one added
    let changed = canonical.replacen("8a47", "8a48", 1);
    assert_eq!(Context::is_cache_tag_valid("/c", Some(&changed)), Err(tag.clone()));
    let shorter = &canonical[..canonical.len() - 1];
    assert_eq!(Context::is_cache_tag_valid("/c", Some(shorter)), Err(tag.clone()));
    let longer = canonical.to_owned() + "\n";
    assert_eq!(Context::is_cache_tag_valid("/c", Some(&longer)), Err(tag.clone()));
    // the repair writes the canonical content, which is then valid
    let mut c = Context::new("/tmp").cache("ORBIT_CACHE", named("/c"), Some(&changed)).unwrap();
    let effects = c.take_effects();
    assert_eq!(effects.len(), 2);
    match &effects[1] {
        Effect::WriteFile(path, content) => {
            assert_eq!(path, "/c/CACHEDIR.TAG");
            assert_eq!(Context::is_cache_tag_valid("/c", Some(content)), Ok(()));
        }
        other => panic!("unexpected effect {:?}", other),
    }
}

#[test]
fn workspace_is_found_and_recorded() {
    let chain = vec![
        listing("/w/ip/rtl", &["top.vhd"]),
        listing("/w/ip", &["Orbit.toml", "rtl"]),
        listing("/w", &["ip"]),
        listing("/", &["w"]),
    ];
    let mut c = Context::new("/tmp").current_ip_dir("ORBIT_IP_PATH", &chain).unwrap();
    assert_eq!(c.get_ip_path(), Some(&String::from("/w/ip")));
    assert_eq!(c.goto_ip_path(), Ok(String::from("/w/ip")));
    assert_eq!(
        c.take_effects(),
        vec![Effect::Export(String::from("ORBIT_IP_PATH"), String::from("/w/ip"))]
    );
}

#[test]
fn workspace_may_be_missing() {
    let chain = vec![listing("/w", &["ip"]), listing("/", &["w"])];
    let mut c = Context::new("/tmp").current_ip_dir("ORBIT_IP_PATH", &chain).unwrap();
    assert_eq!(c.get_ip_path(), None);
    assert_eq!(c.take_effects(), Vec::new());
    assert_eq!(
        c.goto_ip_path(),
        Err(ContextError(String::from(
            "no orbit IP detected in current directory or any parent directory"
        )))
    );
}

fn in_workspace() -> Context {
    let chain = vec![listing("/w/ip", &["Orbit.toml"]), listing("/w", &["ip"])];
    Context::new("/tmp")
        .home("ORBIT_HOME", named("/opt/orbit"), None)
        .unwrap()
        .current_ip_dir("ORBIT_IP_PATH", &chain)
        .unwrap()
}

#[test]
fn settings_paths() {
    let c = in_workspace();
    assert_eq!(c.global_config_path("config.toml"), "/opt/orbit/config.toml");
    assert_eq!(c.local_config_path("config.toml"), Some(String::from("/w/ip/.orbit/config.toml")));
    assert_eq!(Context::new("/tmp").local_config_path("config.toml"), None);
}

#[test]
fn settings_field_set_only_globally_is_visible() {
    let c = in_workspace()
        .settings(
            "config.toml",
            Loaded::Parsed(general(Some("target"), Some(LangMode::Mixed))),
            Loaded::Parsed(Config::new()),
        )
        .unwrap();
    assert_eq!(c.get_build_dir(), "target");
    assert_eq!(c.get_lang_mode(), LangMode::Mixed);
    assert_eq!(c.get_all_configs().len(), 2);
}

#[test]
fn settings_field_set_in_both_takes_the_local_value() {
    let c = in_workspace()
        .settings(
            "config.toml",
            Loaded::Parsed(general(Some("target"), Some(LangMode::Mixed))),
            Loaded::Parsed(general(Some("out"), None)),
        )
        .unwrap();
    // the local build directory wins; the language mode, set only globally, stays
    assert_eq!(c.get_build_dir(), "out");
    assert_eq!(c.get_lang_mode(), LangMode::Mixed);
    assert_eq!(c.get_config(), &general(Some("out"), Some(LangMode::Mixed)));
    let all = c.get_all_configs();
    assert_eq!(all.len(), 2);
    let global = all.get(0).unwrap();
    assert_eq!(global.path, "/opt/orbit/config.toml");
    assert_eq!(global.locality, Locality::Global);
    assert_eq!(global.config, general(Some("target"), Some(LangMode::Mixed)));
    let local = all.get(1).unwrap();
    assert_eq!(local.path, "/w/ip/.orbit/config.toml");
    assert_eq!(local.locality, Locality::Local);
    assert_eq!(local.config, general(Some("out"), None));
    assert!(all.get(2).is_none());
}

#[test]
fn settings_field_set_in_neither_takes_the_default() {
    let c = in_workspace()
        .settings(
            "config.toml",
            Loaded::Parsed(general(None, None)),
            Loaded::Parsed(general(None, Some(LangMode::Verilog))),
        )
        .unwrap();
    assert_eq!(c.get_build_dir(), "build");
    assert_eq!(c.get_lang_mode(), LangMode::Verilog);
    let c = in_workspace().settings("config.toml", Loaded::Absent, Loaded::Absent).unwrap();
    assert_eq!(c.get_build_dir(), "build");
    assert_eq!(c.get_lang_mode(), LangMode::default());
    assert_eq!(c.get_lang_mode(), LangMode::Vhdl);
}

#[test]
fn settings_absent_global_file_is_created_empty() {
    let mut c = in_workspace();
    c.take_effects();
    let mut c = c.settings("config.toml", Loaded::Absent, Loaded::Absent).unwrap();
    assert_eq!(
        c.take_effects(),
        vec![Effect::WriteFile(String::from("/opt/orbit/config.toml"), String::new())]
    );
    assert_eq!(c.get_all_configs().len(), 1);
    assert_eq!(c.get_all_configs().get(0).unwrap().config, Config::new());
    assert_eq!(c.get_config(), &Config::new());
}

#[test]
fn settings_local_file_is_not_read_outside_a_workspace() {
    let mut c = Context::new("/tmp")
        .settings(
            "config.toml",
            Loaded::Parsed(general(Some("target"), None)),
            Loaded::Parsed(general(Some("out"), None)),
        )
        .unwrap();
    assert_eq!(c.get_build_dir(), "target");
    assert_eq!(c.get_all_configs().len(), 1);
    assert_eq!(c.take_effects(), Vec::new());
    // not even a malformed one
    let c = Context::new("/tmp")
        .settings("config.toml", Loaded::Absent, Loaded::Malformed(String::from("x")))
        .unwrap();
    assert_eq!(c.get_all_configs().len(), 1);
}

#[test]
fn settings_malformed_document_names_its_file() {
    let e = in_workspace()
        .settings(
            "config.toml",
            Loaded::Malformed(String::from("expected `=` at line 3")),
            Loaded::Absent,
        )
        .unwrap_err();
    assert_eq!(
        e.to_string(),
        "failed to load configuration file /opt/orbit/config.toml: expected `=` at line 3"
    );
    let e = in_workspace()
        .settings(
            "config.toml",
            Loaded::Parsed(Config::new()),
            Loaded::Malformed(String::from("bad table")),
        )
        .unwrap_err();
    assert_eq!(
        e.to_string(),
        "failed to load configuration file /w/ip/.orbit/config.toml: bad table"
    );
}

#[test]
fn build_dir_is_recorded() {
    let mut c = in_workspace()
        .settings("config.toml", Loaded::Parsed(general(Some("target"), None)), Loaded::Absent)
        .unwrap();
    c.take_effects();
    let mut c = c.build_dir("ORBIT_BUILD_DIR").unwrap();
    assert_eq!(
        c.take_effects(),
        vec![Effect::Export(String::from("ORBIT_BUILD_DIR"), String::from("target"))]
    );
    assert_eq!(c.take_effects(), Vec::new());
}

#[test]
fn config_can_be_changed_in_place() {
    let mut c = Context::new("/tmp");
    assert_eq!(c.get_build_dir(), "build");
    *c.get_config_mut() = general(Some("sim"), Some(LangMode::Verilog));
    assert_eq!(c.get_build_dir(), "sim");
    assert_eq!(c.get_lang_mode(), LangMode::Verilog);
    c.get_config_mut().general = None;
    assert_eq!(c.get_build_dir(), "build");
    assert_eq!(c.get_home_path(), "/tmp");
}

#[test]
fn batch_files_are_matched_on_windows_only() {
    assert!(Context::enable_windows_bat_file_match(true, false));
    assert!(!Context::enable_windows_bat_file_match(true, true));
    assert!(!Context::enable_windows_bat_file_match(false, false));
    assert!(!Context::enable_windows_bat_file_match(false, true));
}

#[test]
fn full_context_is_built_step_by_step() {
    let chain = vec![listing("/w/ip", &["Orbit.toml"]), listing("/w", &["ip"])];
    let mut c = Context::new("/tmp")
        .home("ORBIT_HOME", Override::Unset { default_exists: false }, Some("/home/u"))
        .unwrap()
        .cache("ORBIT_CACHE", Override::Unset { default_exists: false }, None)
        .unwrap()
        .downloads("ORBIT_DOWNLOADS", named("/data/dl"))
        .unwrap()
        .current_ip_dir("ORBIT_IP_PATH", &chain)
        .unwrap()
        .settings("config.toml", Loaded::Absent, Loaded::Parsed(general(Some("out"), None)))
        .unwrap()
        .build_dir("ORBIT_BUILD_DIR")
        .unwrap();
    assert_eq!(c.get_home_path(), "/home/u/.orbit");
    assert_eq!(c.get_cache_path(), "/home/u/.orbit/cache");
    assert_eq!(c.get_downloads_path(), "/data/dl");
    assert_eq!(c.get_ip_path(), Some(&String::from("/w/ip")));
    assert_eq!(c.get_build_dir(), "out");
    let export = |k: &str, v: &str| Effect::Export(String::from(k), String::from(v));
    assert_eq!(
        c.take_effects(),
        vec![
            Effect::CreateDir(String::from("/home/u/.orbit")),
            Effect::ExportPath(String::from("ORBIT_HOME"), String::from("/home/u/.orbit")),
            Effect::CreateDir(String::from("/home/u/.orbit/cache")),
            Effect::ExportPath(String::from("ORBIT_CACHE"), String::from("/home/u/.orbit/cache")),
            Effect::WriteFile(
                String::from("/home/u/.orbit/cache/CACHEDIR.TAG"),
                String::from(CACHE_TAG)
            ),
            Effect::ExportPath(String::from("ORBIT_DOWNLOADS"), String::from("/data/dl")),
            export("ORBIT_IP_PATH", "/w/ip"),
            Effect::WriteFile(String::from("/home/u/.orbit/config.toml"), String::new()),
            export("ORBIT_BUILD_DIR", "out"),
        ]
    );
}
