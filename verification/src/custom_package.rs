use vstd::prelude::*;

use crate::expand::{may_expand_to, shell_expand, ExpandError};
use crate::plan::{texts, CommandModel, CommandSpec, Plan, Step, StepModel};
use crate::random::{build_name, is_build_name};
use crate::text::{concat_text, owned};
use crate::utils::run_command_model;
use crate::utils::run_command;

verus! {

/// A package that is neither in the Arch repositories nor in the AUR, with
/// the commands that install it.
#[derive(Debug, Clone, PartialEq, Eq)]
pub enum CustomPackage {
    /// Cloned from a git repository and built there.
    Git {
        /// Git URL.
        repo: String,
        /// Git ref (branch, tag, commit) checked out in the clone before the
        /// build; `None`: the default
        /// branch.
        git_ref: Option<String>,
        /// Command run in the repository's directory after cloning.
        build_command: String,
        /// Installation is skipped when this path (after shell expansion)
        /// exists.
        skip_if_exists: Option<String>,
    },
    /// Downloaded over HTTP, then installed by a command.
    HttpFile {
        /// HTTP URL to download the file from.
        url: String,
        /// Command run in the download directory.
        install_command: String,
        /// Installation is skipped when this path (after shell expansion)
        /// exists.
        skip_if_exists: Option<String>,
    },
}

/// The directory a package is built in, for a random `name`.
pub open spec fn build_dir_of(name: Seq<char>) -> Seq<char> {
    "/tmp/build_"@ + name
}

/// `bash -c script`, run in `dir`.
pub open spec fn script_in(script: Seq<char>, dir: Seq<char>) -> CommandModel {
    CommandModel {
        program: "bash"@,
        args: seq!["-c"@, script],
        env: None,
        cwd: Some(dir),
        stdin: None,
    }
}

/// Every command of `p` runs in `dir`, except, where `clone_of` is
/// `Some(repo)`, a `git clone` of `repo` into `dir`.
pub open spec fn commands_run_in(p: Seq<StepModel>, dir: Seq<char>, clone_of: Option<Seq<char>>) -> bool {
    forall|i: int|
        0 <= i < p.len() ==> (#[trigger] p[i] matches StepModel::Run { command, .. } ==> (
        command.cwd == Some(dir) || (clone_of matches Some(repo) && command.program == "git"@
            && command.args == seq!["clone"@, repo, dir])))
}

/// `p` runs `bash -c script` in `dir`, stopping with `message` if it fails.
pub open spec fn runs_script(p: Seq<StepModel>, script: Seq<char>, dir: Seq<char>, message: Seq<char>) -> bool {
    exists|i: int|
        0 <= i < p.len() && #[trigger] p[i] == (StepModel::Run {
            command: CommandModel {
                program: "bash"@,
                args: seq!["-c"@, script],
                env: None,
                cwd: Some(dir),
                stdin: None,
            },
            failure: Some(message),
        })
}

/// Law: a skipped package only says so and runs nothing. A package that is
/// not skipped is fetched into `build_dir` (cloned there, or downloaded
/// with `wget` of its URL run there after the directory is created), every
/// other command of it runs in `build_dir` (the git ref's checkout, the
/// build or install script, each script stopping the run if it fails), and
/// `build_dir` is removed last.
pub proof fn law_package_works_in_build_dir(package: CustomPackage, build_dir: Seq<char>)
    ensures
        package.install_plan(build_dir, true) == seq![
            StepModel::Say("Skipping custom package installation"@),
        ],
        ({
            let p = package.install_plan(build_dir, false);
            &&& p.len() >= 4
            &&& p.last() == StepModel::RemoveDir(build_dir)
            &&& match package {
                CustomPackage::Git { repo, build_command, git_ref, .. } => {
                    &&& commands_run_in(p, build_dir, Some(repo@))
                    &&& p[1] matches StepModel::Run { command, .. } && command.program == "git"@
                        && command.args == seq!["clone"@, repo@, build_dir]
                    &&& runs_script(p, build_command@, build_dir, "Failed to run build command"@)
                    &&& git_ref matches Some(r) ==> p[2] matches StepModel::Run { command, .. }
                        && command.args == seq!["checkout"@, r@] && command.cwd == Some(build_dir)
                },
                CustomPackage::HttpFile { url, install_command, .. } => {
                    &&& commands_run_in(p, build_dir, None)
                    &&& p[1] == StepModel::CreateDir(build_dir)
                    &&& p[2] matches StepModel::Run { command, .. } && command.program == "wget"@
                        && command.args == seq![url@]
                    &&& runs_script(p, install_command@, build_dir, "Failed to run install command"@)
                },
            }
        }),
{
    let p = package.install_plan(build_dir, false);
    match package {
        CustomPackage::Git { repo, git_ref, build_command, .. } => {
            let k: int = if git_ref is Some { 3 } else { 2 };
            assert(p[k] == StepModel::Run {
                command: script_in(build_command@, build_dir),
                failure: Some("Failed to run build command"@),
            });
            assert(runs_script(p, build_command@, build_dir, "Failed to run build command"@));
            assert forall|i: int| 0 <= i < p.len() implies (#[trigger] p[i] matches StepModel::Run {
                command,
                ..
            } ==> (command.cwd == Some(build_dir) || (Some(repo@) matches Some(r)
                && command.program == "git"@ && command.args == seq!["clone"@, r, build_dir]))) by {
                if i == 1 {
                    assert(p[1]->Run_command.args =~= seq!["clone"@, repo@, build_dir]);
                }
            }
            assert(commands_run_in(p, build_dir, Some(repo@)));
        },
        CustomPackage::HttpFile { .. } => {},
    }
}

impl CustomPackage {
    /// The path whose existence makes the installation skipped.
    pub open spec fn skip_path(self) -> Option<Seq<char>> {
        match self {
            CustomPackage::Git { skip_if_exists, .. } => skip_if_exists.deep_view(),
            CustomPackage::HttpFile { skip_if_exists, .. } => skip_if_exists.deep_view(),
        }
    }

    /// Installing the package in `build_dir`, or only saying that it is
    /// skipped.
    pub open spec fn install_plan(self, build_dir: Seq<char>, skip: bool) -> Seq<StepModel> {
        if skip {
            seq![StepModel::Say("Skipping custom package installation"@)]
        } else {
            match self {
                CustomPackage::Git { repo, git_ref, build_command, .. } => seq![
                    StepModel::Say("Installing custom package from git URL: "@ + repo@),
                    StepModel::Run {
                        command: run_command_model("git"@, seq!["clone"@, repo@, build_dir], false),
                        failure: None,
                    },
                ] + match git_ref {
                    Some(r) => seq![
                        StepModel::Run {
                            command: CommandModel {
                                program: "git"@,
                                args: seq!["checkout"@, r@],
                                env: None,
                                cwd: Some(build_dir),
                                stdin: None,
                            },
                            failure: None,
                        },
                    ],
                    None => Seq::empty(),
                } + seq![
                    StepModel::Run {
                        command: script_in(build_command@, build_dir),
                        failure: Some("Failed to run build command"@),
                    },
                    StepModel::RemoveDir(build_dir),
                ],
                CustomPackage::HttpFile { url, install_command, .. } => seq![
                    StepModel::Say("Installing custom package from HTTP URL: "@ + url@),
                    StepModel::CreateDir(build_dir),
                    StepModel::Run {
                        command: CommandModel {
                            program: "wget"@,
                            args: seq![url@],
                            env: None,
                            cwd: Some(build_dir),
                            stdin: None,
                        },
                        failure: Some("Failed to download a file"@),
                    },
                    StepModel::Run {
                        command: script_in(install_command@, build_dir),
                        failure: Some("Failed to run install command"@),
                    },
                    StepModel::RemoveDir(build_dir),
                ],
            }
        }
    }

    /// A fresh directory to build a package in: `/tmp/build_` and a random
    /// name.
    pub fn new_build_dir() -> (res: String)
        ensures
            exists|name: Seq<char>| is_build_name(name) && res@ == build_dir_of(name),
    {
        let name = build_name();
        concat_text("/tmp/build_", name.as_str())
    }

    /// The path to probe before installing: the package's `skip_if_exists`
    /// after shell expansion (`None` when it has none).
    pub fn skip_check_path(&self) -> (res: Result<Option<String>, ExpandError>)
        ensures
            self.skip_path() is None ==> res matches Ok(None),
            self.skip_path() matches Some(p) ==> {
                &&& !p.contains('$') ==> res is Ok
                &&& res matches Ok(t) ==> t matches Some(t) && may_expand_to(p, t@)
            },
    {
        let path = match self {
            CustomPackage::Git { skip_if_exists, .. } => skip_if_exists,
            CustomPackage::HttpFile { skip_if_exists, .. } => skip_if_exists,
        };
        let expansion = match path {
            None => None,
            Some(p) => Some(shell_expand(p.as_str())),
        };
        CustomPackage::skip_probe(expansion)
    }

    /// The path to probe, given the shell expansion of the package's skip
    /// path (`None`: the package has none): the expanded path, or the
    /// expansion's error handed on.
    pub fn skip_probe(expansion: Option<Result<String, ExpandError>>) -> (res: Result<Option<String>, ExpandError>)
        ensures
            res == match expansion {
                None => Ok(None),
                Some(Ok(t)) => Ok(Some(t)),
                Some(Err(e)) => Err(e),
            },
    {
        match expansion {
            None => Ok(None),
            Some(Ok(t)) => Ok(Some(t)),
            Some(Err(e)) => Err(e),
        }
    }

    /// The steps that install the package in `build_dir`; `skip` tells that
    /// its skip path exists.
    pub fn install(&self, build_dir: &str, skip: bool) -> (plan: Plan)
        ensures
            plan@ == self.install_plan(build_dir@, skip),
            !skip && self is HttpFile ==> commands_run_in(plan@, build_dir@, None),
            self matches CustomPackage::Git { repo, .. } ==> !skip ==> commands_run_in(
                plan@,
                build_dir@,
                Some(repo@),
            ),
            self matches CustomPackage::HttpFile { install_command, .. } ==> !skip ==> runs_script(
                plan@,
                install_command@,
                build_dir@,
                "Failed to run install command"@,
            ),
            self matches CustomPackage::Git { build_command, .. } ==> !skip ==> runs_script(
                plan@,
                build_command@,
                build_dir@,
                "Failed to run build command"@,
            ),
    {
        proof {
            law_package_works_in_build_dir(*self, build_dir@);
        }
        let mut plan = Plan::new();
        if skip {
            plan.push(Step::Say(owned("Skipping custom package installation")));
            assert(plan@ =~= self.install_plan(build_dir@, skip));
            return plan;
        }
        match self {
            CustomPackage::Git { repo, git_ref, build_command, .. } => {
                plan.push(
                    Step::Say(concat_text("Installing custom package from git URL: ", repo.as_str())),
                );
                let clone = texts(vec!["clone", repo.as_str(), build_dir]);
                assert(clone.deep_view() =~= seq!["clone"@, repo@, build_dir@]);
                plan.push(Step::Run { command: run_command("git", &clone, false), failure: None });
                match git_ref {
                    Some(r) => {
                        let checkout = CommandSpec {
                            program: owned("git"),
                            args: texts(vec!["checkout", r.as_str()]),
                            env: None,
                            cwd: Some(owned(build_dir)),
                            stdin: None,
                        };
                        assert(checkout@.args =~= seq!["checkout"@, r@]);
                        plan.push(Step::Run { command: checkout, failure: None });
                    },
                    None => {},
                }
                let script = CommandSpec {
                    program: owned("bash"),
                    args: texts(vec!["-c", build_command.as_str()]),
                    env: None,
                    cwd: Some(owned(build_dir)),
                    stdin: None,
                };
                assert(script@.args =~= seq!["-c"@, build_command@]);
                plan.push(
                    Step::Run { command: script, failure: Some(owned("Failed to run build command")) },
                );
                plan.push(Step::RemoveDir(owned(build_dir)));
            },
            CustomPackage::HttpFile { url, install_command, .. } => {
                plan.push(
                    Step::Say(concat_text("Installing custom package from HTTP URL: ", url.as_str())),
                );
                plan.push(Step::CreateDir(owned(build_dir)));
                let download = CommandSpec {
                    program: owned("wget"),
                    args: texts(vec![url.as_str()]),
                    env: None,
                    cwd: Some(owned(build_dir)),
                    stdin: None,
                };
                assert(download@.args =~= seq![url@]);
                plan.push(
                    Step::Run { command: download, failure: Some(owned("Failed to download a file")) },
                );
                let script = CommandSpec {
                    program: owned("bash"),
                    args: texts(vec!["-c", install_command.as_str()]),
                    env: None,
                    cwd: Some(owned(build_dir)),
                    stdin: None,
                };
                assert(script@.args =~= seq!["-c"@, install_command@]);
                plan.push(
                    Step::Run {
                        command: script,
                        failure: Some(owned("Failed to run install command")),
                    },
                );
                plan.push(Step::RemoveDir(owned(build_dir)));
            },
        }
        assert(plan@ =~= self.install_plan(build_dir@, skip));
        plan
    }
}

} // verus!
