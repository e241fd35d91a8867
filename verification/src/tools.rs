//! The outside tools that a backend needs: which of them are missing, and
//! which are older than recommended.

use crate::backend::{PrerequisiteError, VersionWarning};
use crate::version::{is_outdated, Version};
use vstd::prelude::*;

verus! {

/// A tool that a backend needs.
#[derive(Debug, Clone, Copy)]
pub struct Requirement {
    /// The program to look for.
    pub program: &'static str,
    /// The name to show for it.
    pub tool_name: &'static str,
    /// How to get it.
    pub install_instructions: &'static str,
}

/// The mathematical value of a [`Requirement`].
pub struct RequirementModel {
    pub program: Seq<char>,
    pub tool_name: Seq<char>,
    pub install_instructions: Seq<char>,
}

impl View for Requirement {
    type V = RequirementModel;

    open spec fn view(&self) -> RequirementModel {
        RequirementModel {
            program: self.program@,
            tool_name: self.tool_name@,
            install_instructions: self.install_instructions@,
        }
    }
}

/// The mathematical value of a [`PrerequisiteError`].
pub struct PrerequisiteModel {
    pub tool_name: Seq<char>,
    pub install_instructions: Seq<char>,
}

impl View for PrerequisiteError {
    type V = PrerequisiteModel;

    open spec fn view(&self) -> PrerequisiteModel {
        PrerequisiteModel {
            tool_name: self.tool_name@,
            install_instructions: self.install_instructions@,
        }
    }
}

/// The mathematical value of a [`VersionWarning`].
pub struct VersionWarningModel {
    pub tool_name: Seq<char>,
    pub found_version: Seq<char>,
    pub minimum_version: Seq<char>,
}

impl View for VersionWarning {
    type V = VersionWarningModel;

    open spec fn view(&self) -> VersionWarningModel {
        VersionWarningModel {
            tool_name: self.tool_name@,
            found_version: self.found_version@,
            minimum_version: self.minimum_version@,
        }
    }
}

/// The values of a list of requirements, one for one.
pub open spec fn needs_of(items: Seq<Requirement>) -> Seq<RequirementModel> {
    Seq::new(items.len(), |i: int| items[i]@)
}

/// The values of a list of missing tools, one for one.
pub open spec fn missing_of(items: Seq<PrerequisiteError>) -> Seq<PrerequisiteModel> {
    Seq::new(items.len(), |i: int| items[i]@)
}

/// The values of a list of warnings, one for one.
pub open spec fn warnings_of(items: Seq<VersionWarning>) -> Seq<VersionWarningModel> {
    Seq::new(items.len(), |i: int| items[i]@)
}

/// Whether the tool at `index` was found. A tool that nothing is known of
/// counts as missing.
pub open spec fn was_found(present: Seq<bool>, index: int) -> bool {
    0 <= index < present.len() && present[index]
}

/// Those of the first `upto` required tools that are missing, in order.
pub open spec fn missing_tools(needs: Seq<RequirementModel>, present: Seq<bool>, upto: nat) -> Seq<
    PrerequisiteModel,
>
    decreases upto,
{
    if upto == 0 {
        Seq::empty()
    } else if was_found(present, upto - 1) {
        missing_tools(needs, present, (upto - 1) as nat)
    } else {
        missing_tools(needs, present, (upto - 1) as nat).push(
            PrerequisiteModel {
                tool_name: needs[upto - 1].tool_name,
                install_instructions: needs[upto - 1].install_instructions,
            },
        )
    }
}

/// A warning for each of the first `upto` tools that was found in a version
/// older than the least recommended one, in order. A tool whose version
/// could not be told gets none.
pub open spec fn version_warnings(
    tools: Seq<(Seq<char>, Version)>,
    found: Seq<Option<Version>>,
    upto: nat,
) -> Seq<VersionWarningModel>
    decreases upto,
{
    if upto == 0 {
        Seq::empty()
    } else {
        let before = version_warnings(tools, found, (upto - 1) as nat);
        let index = upto - 1;
        if index < found.len() && found[index] is Some && found[index]->0.precedes(tools[index].1) {
            before.push(
                VersionWarningModel {
                    tool_name: tools[index].0,
                    found_version: found[index]->0.text(),
                    minimum_version: tools[index].1.text(),
                },
            )
        } else {
            before
        }
    }
}

/// The names and least recommended versions that a list holds.
pub open spec fn minimums_of(items: Seq<(&'static str, Version)>) -> Seq<(Seq<char>, Version)> {
    Seq::new(items.len(), |i: int| (items[i].0@, items[i].1))
}

/// Whether a result tells exactly the missing ones among the required
/// tools, given which of them were found.
pub open spec fn is_report(
    r: Result<(), Vec<PrerequisiteError>>,
    needs: Seq<RequirementModel>,
    present: Seq<bool>,
) -> bool {
    match r {
        Ok(_) => missing_tools(needs, present, needs.len()).len() == 0,
        Err(missing) => missing@.len() > 0 && missing_of(missing@) == missing_tools(
            needs,
            present,
            needs.len(),
        ),
    }
}

/// `which::which` of `which`, asked whether it finds the program: in the
/// directories of the search path, or at the path that the name is.
#[verifier::external_body]
pub(crate) fn on_path(program: &str) -> (found: bool) {
    which::which(program).is_ok()
}

/// Tells which of the required tools are missing, from whether each was
/// found. Nothing missing is `Ok`.
pub fn report_missing(requirements: &Vec<Requirement>, present: &Vec<bool>) -> (r: Result<
    (),
    Vec<PrerequisiteError>,
>)
    ensures
        is_report(r, needs_of(requirements@), present@),
{
    let ghost needs = needs_of(requirements@);
    let mut missing: Vec<PrerequisiteError> = Vec::new();
    let mut i: usize = 0;
    assert(missing_of(missing@) =~= Seq::empty());
    while i < requirements.len()
        invariant
            i <= requirements@.len(),
            needs == needs_of(requirements@),
            missing_of(missing@) == missing_tools(needs, present@, i as nat),
        decreases requirements@.len() - i,
    {
        let found = i < present.len() && present[i];
        if !found {
            let ghost before = missing_of(missing@);
            missing.push(
                PrerequisiteError {
                    tool_name: requirements[i].tool_name.to_owned(),
                    install_instructions: requirements[i].install_instructions.to_owned(),
                },
            );
            assert(missing_of(missing@) =~= before.push(
                PrerequisiteModel {
                    tool_name: needs[i as int].tool_name,
                    install_instructions: needs[i as int].install_instructions,
                },
            ));
        }
        i += 1;
    }
    if missing.len() == 0 {
        Ok(())
    } else {
        Err(missing)
    }
}

/// Looks for each of the required tools and tells which are missing.
pub fn check_tools(requirements: &Vec<Requirement>) -> (r: Result<(), Vec<PrerequisiteError>>)
    ensures
        exists|present: Seq<bool>|
            present.len() == requirements@.len() && #[trigger] is_report(
                r,
                needs_of(requirements@),
                present,
            ),
{
    let mut present: Vec<bool> = Vec::new();
    let mut i: usize = 0;
    while i < requirements.len()
        invariant
            i <= requirements@.len(),
            present@.len() == i,
        decreases requirements@.len() - i,
    {
        present.push(on_path(requirements[i].program));
        i += 1;
    }
    let r = report_missing(requirements, &present);
    assert(present@.len() == requirements@.len() && is_report(
        r,
        needs_of(requirements@),
        present@,
    ));
    r
}

/// Tells which tools are older than recommended, from the version that each
/// was found in.
pub fn report_outdated(tools: &Vec<(&'static str, Version)>, found: &Vec<Option<Version>>) -> (warnings:
    Vec<VersionWarning>)
    ensures
        warnings_of(warnings@) == version_warnings(minimums_of(tools@), found@, tools@.len()),
{
    let ghost minimums = minimums_of(tools@);
    let mut warnings: Vec<VersionWarning> = Vec::new();
    let mut i: usize = 0;
    assert(warnings_of(warnings@) =~= Seq::empty());
    while i < tools.len()
        invariant
            i <= tools@.len(),
            minimums == minimums_of(tools@),
            warnings_of(warnings@) == version_warnings(minimums, found@, i as nat),
        decreases tools@.len() - i,
    {
        if i < found.len() {
            match found[i] {
                Some(version) => {
                    let minimum = tools[i].1;
                    if is_outdated(version, minimum) {
                        let ghost before = warnings_of(warnings@);
                        warnings.push(
                            VersionWarning {
                                tool_name: tools[i].0.to_owned(),
                                found_version: version.to_string(),
                                minimum_version: minimum.to_string(),
                            },
                        );
                        assert(warnings_of(warnings@) =~= before.push(
                            VersionWarningModel {
                                tool_name: minimums[i as int].0,
                                found_version: version.text(),
                                minimum_version: minimum.text(),
                            },
                        ));
                    }
                },
                None => {},
            }
        }
        i += 1;
    }
    warnings
}

} // verus!
