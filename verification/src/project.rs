//! The directories and the configuration files of a project.
//!
//! Every project has `inputs/`, `proofs/` and `contracts/verifier/src/`. A
//! Groth16 project has `circuits/` besides, an UltraHonk project
//! `circuits/src/`, a RISC Zero project `programs/host/src/` and
//! `programs/guest/src/`.

use crate::error::{Failure, StellarZkError};
use crate::path::{join, joined};
use crate::text::{no_texts, push_text, texts};
use vstd::prelude::*;

verus! {

/// The directories that every project has, the project's own first.
pub open spec fn common_dirs(project: Seq<char>) -> Seq<Seq<char>> {
    seq![
        project,
        joined(project, "inputs"@),
        joined(project, "proofs"@),
        joined(project, "contracts/verifier/src"@),
    ]
}

/// The directories that a backend adds.
pub open spec fn backend_dirs(project: Seq<char>, backend: Seq<char>) -> Seq<Seq<char>> {
    if backend == "groth16"@ {
        seq![joined(project, "circuits"@)]
    } else if backend == "ultrahonk"@ {
        seq![joined(project, "circuits/src"@)]
    } else if backend == "risc0"@ {
        seq![joined(project, "programs/host/src"@), joined(project, "programs/guest/src"@)]
    } else {
        Seq::empty()
    }
}

/// The configuration of the project.
pub open spec fn project_config_of(project: Seq<char>) -> Seq<char> {
    joined(project, "stellar-zk.config.json"@)
}

/// The configuration of the backend.
pub open spec fn backend_config_of(project: Seq<char>) -> Seq<char> {
    joined(project, "backend.config.json"@)
}

/// The directories to create for a new project, in the order in which to
/// create them. A directory that exists already is no place for a new
/// project.
pub fn create_project_dirs(project_dir: &str, backend: &str, exists: bool) -> (r: Result<
    Vec<String>,
    StellarZkError,
>)
    ensures
        match r {
            Ok(dirs) => !exists && texts(dirs@) == common_dirs(project_dir@) + backend_dirs(
                project_dir@,
                backend@,
            ),
            Err(error) => exists && error@ == Failure::ProjectExists(project_dir@),
        },
{
    if exists {
        return Err(StellarZkError::ProjectExists(project_dir.to_owned()));
    }
    let mut dirs = no_texts();
    push_text(&mut dirs, project_dir);
    push_text(&mut dirs, join(project_dir, "inputs").as_str());
    push_text(&mut dirs, join(project_dir, "proofs").as_str());
    push_text(&mut dirs, join(project_dir, "contracts/verifier/src").as_str());
    assert(texts(dirs@) =~= common_dirs(project_dir@));
    if backend.eq("groth16") {
        push_text(&mut dirs, join(project_dir, "circuits").as_str());
    } else if backend.eq("ultrahonk") {
        push_text(&mut dirs, join(project_dir, "circuits/src").as_str());
    } else if backend.eq("risc0") {
        push_text(&mut dirs, join(project_dir, "programs/host/src").as_str());
        push_text(&mut dirs, join(project_dir, "programs/guest/src").as_str());
    }
    assert(texts(dirs@) =~= common_dirs(project_dir@) + backend_dirs(project_dir@, backend@));
    Ok(dirs)
}

/// Where the configuration of a project is written: that of the project
/// first, then that of the backend.
pub fn write_configs(project_dir: &str) -> (paths: (String, String))
    ensures
        paths.0@ == project_config_of(project_dir@),
        paths.1@ == backend_config_of(project_dir@),
{
    (join(project_dir, "stellar-zk.config.json"), join(project_dir, "backend.config.json"))
}

/// Where the configuration of a project is read from: that of the project
/// first, then that of the backend. A directory without the configuration
/// of a project is no project.
pub fn load_project(project_dir: &str, configured: bool) -> (r: Result<
    (String, String),
    StellarZkError,
>)
    ensures
        match r {
            Ok(paths) => configured && paths.0@ == project_config_of(project_dir@) && paths.1@
                == backend_config_of(project_dir@),
            Err(error) => !configured && error@ == Failure::NotAProject,
        },
{
    if !configured {
        return Err(StellarZkError::NotAProject);
    }
    Ok(write_configs(project_dir))
}

} // verus!
