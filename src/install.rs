//! The checks made before a module is built on the host.
use vstd::prelude::*;
use crate::manifest::{BuildSystem, Module, ModuleModel};

verus! {

/// Why a module cannot be built on the host, if it cannot: a simple build
/// needs build commands, and qmake and cmake-ninja builds are not supported.
pub open spec fn install_problem(m: ModuleModel) -> Option<Seq<char>> {
    match m.buildsystem {
        Some(BuildSystem::Simple) => if m.build_commands.len() == 0 {
            Some("Buildsystem simple requires build-commands."@)
        } else {
            None
        },
        Some(BuildSystem::QMake) => Some(
            "qmake not implemented yet. Open an issue at https://github.com/louib/fpcli/issues"@,
        ),
        Some(BuildSystem::CMakeNinja) => Some(
            "cmake-ninja not implemented yet. Open an issue at https://github.com/louib/fpcli/issues"@,
        ),
        _ => None,
    }
}

/// Checks that `module` can be built on the host; the error says why not.
pub fn bare_install(module: &Module) -> (r: Result<(), String>)
    ensures
        match r {
            Ok(()) => install_problem(module@) is None,
            Err(e) => install_problem(module@) == Some(e@),
        },
{
    match module.buildsystem {
        Some(BuildSystem::Simple) => {
            if module.build_commands.len() == 0 {
                return Err("Buildsystem simple requires build-commands.".to_owned());
            }
        },
        Some(BuildSystem::QMake) => {
            return Err(
                "qmake not implemented yet. Open an issue at https://github.com/louib/fpcli/issues".to_owned(),
            );
        },
        Some(BuildSystem::CMakeNinja) => {
            return Err(
                "cmake-ninja not implemented yet. Open an issue at https://github.com/louib/fpcli/issues".to_owned(),
            );
        },
        _ => {},
    }
    Ok(())
}

} // verus!
