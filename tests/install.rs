use fpcli::{bare_install, BuildSystem, Module};

fn with_build(b: Option<BuildSystem>, commands: Vec<&str>) -> Module {
    let mut m = Module::new("m".to_string());
    m.buildsystem = b;
    m.build_commands = commands.into_iter().map(|c| c.to_string()).collect();
    m
}

#[test]
fn simple_build_needs_commands() {
    assert_eq!(
        bare_install(&with_build(Some(BuildSystem::Simple), vec![])),
        Err("Buildsystem simple requires build-commands.".to_string())
    );
    assert_eq!(bare_install(&with_build(Some(BuildSystem::Simple), vec!["make"])), Ok(()));
}

#[test]
fn unsupported_build_systems_fail() {
    assert_eq!(
        bare_install(&with_build(Some(BuildSystem::QMake), vec![])),
        Err("qmake not implemented yet. Open an issue at https://github.com/louib/fpcli/issues".to_string())
    );
    assert_eq!(
        bare_install(&with_build(Some(BuildSystem::CMakeNinja), vec![])),
        Err("cmake-ninja not implemented yet. Open an issue at https://github.com/louib/fpcli/issues"
            .to_string())
    );
}

#[test]
fn other_build_systems_pass() {
    for b in [BuildSystem::Meson, BuildSystem::CMake, BuildSystem::Autotools] {
        assert_eq!(bare_install(&with_build(Some(b), vec![])), Ok(()));
    }
    assert_eq!(bare_install(&with_build(None, vec![])), Ok(()));
}
