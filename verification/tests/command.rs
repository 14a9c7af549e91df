use orbit::orbit::{Orbit, OrbitSubcommand, Task};

#[test]
fn orbit_version_comes_first() {
    let o = Orbit::new(true, true, true, true, Some(OrbitSubcommand::Build));
    assert_eq!(o.run(), Task::PrintVersion);
}

#[test]
fn orbit_upgrade_comes_before_a_command() {
    let o = Orbit::new(false, true, false, false, Some(OrbitSubcommand::Build));
    assert_eq!(o.run(), Task::Upgrade);
}

#[test]
fn orbit_runs_its_command() {
    let o = Orbit::new(false, false, false, false, Some(OrbitSubcommand::Plan));
    assert_eq!(o.run(), Task::Run(OrbitSubcommand::Plan));
}

#[test]
fn orbit_without_a_request_prints_help() {
    let o = Orbit::new(false, false, false, false, None);
    assert_eq!(o.run(), Task::PrintHelp);
    let o = Orbit::new(true, false, false, true, None);
    assert_eq!(o.run(), Task::PrintHelp);
}

#[test]
fn subcommand_names() {
    assert_eq!(OrbitSubcommand::from_name("get"), Some(OrbitSubcommand::Get));
    assert_eq!(OrbitSubcommand::from_name("help"), Some(OrbitSubcommand::Help));
    assert_eq!(OrbitSubcommand::from_name("new"), Some(OrbitSubcommand::New));
    assert_eq!(OrbitSubcommand::from_name("search"), Some(OrbitSubcommand::Search));
    assert_eq!(OrbitSubcommand::from_name("p"), Some(OrbitSubcommand::Plan));
    assert_eq!(OrbitSubcommand::from_name("plan"), Some(OrbitSubcommand::Plan));
    assert_eq!(OrbitSubcommand::from_name("b"), Some(OrbitSubcommand::Build));
    assert_eq!(OrbitSubcommand::from_name("build"), Some(OrbitSubcommand::Build));
    assert_eq!(OrbitSubcommand::from_name("init"), Some(OrbitSubcommand::Init));
    assert_eq!(OrbitSubcommand::from_name("download"), Some(OrbitSubcommand::Download));
    assert_eq!(OrbitSubcommand::from_name("launch"), Some(OrbitSubcommand::Launch));
    assert_eq!(OrbitSubcommand::from_name("install"), Some(OrbitSubcommand::Install));
    assert_eq!(OrbitSubcommand::from_name("tree"), Some(OrbitSubcommand::Tree));
    assert_eq!(OrbitSubcommand::from_name("show"), Some(OrbitSubcommand::Show));
    assert_eq!(OrbitSubcommand::from_name("env"), Some(OrbitSubcommand::Env));
    assert_eq!(OrbitSubcommand::from_name("config"), Some(OrbitSubcommand::Config));
    assert_eq!(OrbitSubcommand::from_name("remove"), Some(OrbitSubcommand::Uninstall));
    assert_eq!(OrbitSubcommand::from_name("read"), Some(OrbitSubcommand::Read));
    assert_eq!(OrbitSubcommand::from_name("uninstall"), None);
    assert_eq!(OrbitSubcommand::from_name("Build"), None);
    assert_eq!(OrbitSubcommand::from_name(""), None);
}

#[test]
fn subcommand_checks() {
    assert!(OrbitSubcommand::Config.bypass_check());
    assert!(!OrbitSubcommand::Build.bypass_check());
    assert!(!OrbitSubcommand::Help.bypass_check());
    assert!(!OrbitSubcommand::Help.needs_context());
    assert!(OrbitSubcommand::Config.needs_context());
    assert!(OrbitSubcommand::Read.needs_context());
}
