use vstd::prelude::*;

use crate::config::Config;
use crate::plan::{texts, CommandModel, Plan, SetupError, Step, StepModel};
use crate::utils::{grub_target_of, runs_as};
use crate::random::is_build_name;
use crate::text::{concat_text, join, owned, same_text, spec_join};
use crate::utils::{
    ch_passwd, create_user, groups_plan, grub_plan, install_grub,
    install_network_manager, install_pacman_packages, install_paru_in, locales_plan, mk_groups,
    network_manager_plan, pacman_plan, paru_build_folder, paru_plan, passwd_plan, push_text,
    run_as_user, run_as_user_model, run_command, run_command_model, sudoers_plan, uncomment_locales,
    update_sudoers, user_plan, extend_texts,
};

verus! {

/// The installer may go on only when run by `root`.
pub fn check_root(username: &str) -> (res: Result<(), SetupError>)
    ensures
        res is Ok <==> username@ == "root"@,
        res matches Err(e) ==> e is NotRoot,
{
    if same_text(username, "root") {
        Ok(())
    } else {
        Err(SetupError::NotRoot)
    }
}

/// The groups the user is created in: the configured ones, then `wheel`.
pub open spec fn user_groups(config: Config) -> Seq<Seq<char>> {
    config.linux.groups.deep_view().push("wheel"@)
}

/// The host name: the user's name followed by `-pc`.
pub open spec fn hostname_of(config: Config) -> Seq<char> {
    config.linux.username@ + "-pc"@
}

/// Setting the timezone, the clock and the locales.
pub open spec fn clock_and_locale_plan(config: Config) -> Seq<StepModel> {
    seq![
        StepModel::Say("Setting timezone to "@ + config.linux.timezone@),
        StepModel::RemoveFile("/etc/localtime"@),
        StepModel::Symlink {
            target: "/usr/share/zoneinfo/"@ + config.linux.timezone@,
            link: "/etc/localtime"@,
        },
        StepModel::Run {
            command: run_command_model("hwclock"@, seq!["--systohc"@], false),
            failure: None,
        },
    ] + locales_plan(config.linux.locales.deep_view()) + seq![
        StepModel::Run { command: run_command_model("locale-gen"@, Seq::empty(), false), failure: None },
    ]
}

/// Writing the console keymap, the host name and the hosts file, then
/// building the initramfs.
pub open spec fn host_plan(config: Config) -> Seq<StepModel> {
    seq![
        StepModel::WriteFile {
            path: "/etc/vconsole.conf"@,
            contents: "KEYMAP="@ + config.linux.vconsole_keymap@,
        },
        StepModel::WriteFile { path: "/etc/hostname"@, contents: hostname_of(config) },
        StepModel::WriteFile {
            path: "/etc/hosts"@,
            contents: spec_join(seq!["127.0.0.1\tlocalhost"@, "::1\tlocalhost"@], "\n"@),
        },
        StepModel::Run {
            command: run_command_model("mkinitcpio"@, seq!["-P"@], false),
            failure: None,
        },
    ]
}

/// Everything done from the chroot, right after the disc layout.
pub open spec fn chroot_plan(
    config: Config,
    user_password: Seq<char>,
    root_password: Seq<char>,
    arch: Seq<char>,
) -> Seq<StepModel> {
    pacman_plan(seq!["sudo"@, "rustup"@, "git-lfs"@, "chezmoi"@, "zsh"@], false) + seq![
        StepModel::Run {
            command: run_command_model("git"@, seq!["lfs"@, "install"@], false),
            failure: None,
        },
        StepModel::Run {
            command: run_command_model("git"@, seq!["lfs"@, "pull"@], false),
            failure: None,
        },
    ] + clock_and_locale_plan(config) + host_plan(config) + passwd_plan("root"@, root_password)
        + groups_plan(user_groups(config)) + sudoers_plan() + user_plan(
        config.linux.username@,
        user_groups(config),
        "/bin/zsh"@,
    ) + passwd_plan(config.linux.username@, user_password) + grub_plan(
        config.linux.efi_mountpoint@,
        config.linux.bootloader_id@,
        arch,
    ) + network_manager_plan()
}

/// In `p`, in this order: root's password set to `root_password`; the
/// configured user created with the configured groups and `wheel`
/// (comma-separated, `wheel` last) and the shell `/bin/zsh`; the user's
/// password set to `user_password`; and, on an architecture GRUB supports,
/// GRUB installed with the configured EFI mount point after
/// `--efi-directory` and the configured boot loader id after
/// `--bootloader-id`, or else a failure.
pub open spec fn sets_up_user_and_boot(
    p: Seq<StepModel>,
    config: Config,
    user_password: Seq<char>,
    root_password: Seq<char>,
    arch: Seq<char>,
) -> bool {
    let user = config.linux.username@;
    let root_pw = StepModel::Run {
        command: CommandModel {
            program: "chpasswd"@,
            args: Seq::empty(),
            env: None,
            cwd: None,
            stdin: Some("root"@ + ":"@ + root_password),
        },
        failure: Some("Failed to change password"@),
    };
    let useradd = StepModel::Run {
        command: CommandModel {
            program: "useradd"@,
            args: seq![
                "--groups"@,
                spec_join(config.linux.groups.deep_view().push("wheel"@), ","@),
                "--create-home"@,
                "--shell"@,
                "/bin/zsh"@,
                "--user-group"@,
                user,
            ],
            env: None,
            cwd: None,
            stdin: None,
        },
        failure: Some("Failed to create user "@ + user),
    };
    let user_pw = StepModel::Run {
        command: CommandModel {
            program: "chpasswd"@,
            args: Seq::empty(),
            env: None,
            cwd: None,
            stdin: Some(user + ":"@ + user_password),
        },
        failure: Some("Failed to change password"@),
    };
    exists|a: int, b: int, c: int, d: int|
        #![trigger p[a], p[b], p[c], p[d]]
        0 <= a < b < c < d < p.len() && p[a] == root_pw && p[b] == useradd && p[c] == user_pw
            && match grub_target_of(arch) {
            Some(target) => p[d] == StepModel::Run {
                command: CommandModel {
                    program: "grub-install"@,
                    args: seq![
                        "--target"@,
                        target,
                        "--efi-directory"@,
                        config.linux.efi_mountpoint@,
                        "--bootloader-id"@,
                        config.linux.bootloader_id@,
                    ],
                    env: None,
                    cwd: None,
                    stdin: None,
                },
                failure: Some("Failed to install grub"@),
            },
            None => p[d] == StepModel::Fail("Unsupported CPU architecture for GRUB."@),
        }
}

/// `p` writes the host name of `config`: the user's name and `-pc`.
pub open spec fn writes_hostname(p: Seq<StepModel>, config: Config) -> bool {
    exists|h: int|
        0 <= h < p.len() && p[h] == (StepModel::WriteFile {
            path: "/etc/hostname"@,
            contents: config.linux.username@ + "-pc"@,
        })
}

/// Law: the installation from the chroot sets root's password, creates the
/// user in its groups and `wheel`, sets the user's password and installs
/// GRUB with the configured EFI mount point and boot loader id (or stops on
/// an architecture GRUB does not support), in this order, and writes the
/// host name.
pub proof fn law_chroot_plan_steps(
    config: Config,
    user_password: Seq<char>,
    root_password: Seq<char>,
    arch: Seq<char>,
)
    ensures
        sets_up_user_and_boot(
            chroot_plan(config, user_password, root_password, arch),
            config,
            user_password,
            root_password,
            arch,
        ),
        writes_hostname(chroot_plan(config, user_password, root_password, arch), config),
{
    let user = config.linux.username@;
    let a1 = pacman_plan(seq!["sudo"@, "rustup"@, "git-lfs"@, "chezmoi"@, "zsh"@], false) + seq![
        StepModel::Run {
            command: run_command_model("git"@, seq!["lfs"@, "install"@], false),
            failure: None,
        },
        StepModel::Run {
            command: run_command_model("git"@, seq!["lfs"@, "pull"@], false),
            failure: None,
        },
    ] + clock_and_locale_plan(config);
    let a2 = a1 + host_plan(config);
    let a3 = a2 + passwd_plan("root"@, root_password);
    let a4 = a3 + groups_plan(user_groups(config)) + sudoers_plan();
    let a5 = a4 + user_plan(user, user_groups(config), "/bin/zsh"@);
    let a6 = a5 + passwd_plan(user, user_password);
    let a7 = a6 + grub_plan(config.linux.efi_mountpoint@, config.linux.bootloader_id@, arch);
    let p = chroot_plan(config, user_password, root_password, arch);
    assert(p == a7 + network_manager_plan());
    let a = a2.len() as int;
    let b: int = a4.len() as int + 1;
    let c = a5.len() as int;
    let d: int = a6.len() as int + 2;
    assert(p[a] == a3[a]);
    assert(p[b] == a5[b]);
    assert(p[c] == a6[c]);
    assert(p[d] == a7[d]);
    let h: int = a1.len() as int + 1;
    assert(p[h] == a2[h]);
    assert(p[h] == StepModel::WriteFile { path: "/etc/hostname"@, contents: user + "-pc"@ });
}

/// The steps of the installation from the chroot: base packages, clock,
/// locales, host files, passwords, groups, sudo, the user, GRUB and
/// NetworkManager. `arch` is the CPU architecture the installer runs on.
pub fn chroot_install(config: &Config, user_password: &str, root_password: &str, arch: &str) -> (plan: Plan)
    ensures
        plan@ == chroot_plan(*config, user_password@, root_password@, arch@),
        sets_up_user_and_boot(plan@, *config, user_password@, root_password@, arch@),
        writes_hostname(plan@, *config),
{
    proof {
        law_chroot_plan_steps(*config, user_password@, root_password@, arch@);
    }
    let linux = &config.linux;
    let hostname = concat_text(linux.username.as_str(), "-pc");
    let base = texts(vec!["sudo", "rustup", "git-lfs", "chezmoi", "zsh"]);
    assert(base.deep_view() =~= seq!["sudo"@, "rustup"@, "git-lfs"@, "chezmoi"@, "zsh"@]);
    let mut plan = install_pacman_packages(&base, false);
    let lfs_install = texts(vec!["lfs", "install"]);
    assert(lfs_install.deep_view() =~= seq!["lfs"@, "install"@]);
    plan.push(Step::Run { command: run_command("git", &lfs_install, false), failure: None });
    let lfs_pull = texts(vec!["lfs", "pull"]);
    assert(lfs_pull.deep_view() =~= seq!["lfs"@, "pull"@]);
    plan.push(Step::Run { command: run_command("git", &lfs_pull, false), failure: None });
    let ghost head = plan@;

    let mut clock = Plan::new();
    clock.push(Step::Say(concat_text("Setting timezone to ", linux.timezone.as_str())));
    clock.push(Step::RemoveFile(owned("/etc/localtime")));
    clock.push(
        Step::Symlink {
            target: concat_text("/usr/share/zoneinfo/", linux.timezone.as_str()),
            link: owned("/etc/localtime"),
        },
    );
    let systohc = texts(vec!["--systohc"]);
    assert(systohc.deep_view() =~= seq!["--systohc"@]);
    clock.push(Step::Run { command: run_command("hwclock", &systohc, false), failure: None });
    clock.append(uncomment_locales(&linux.locales));
    let no_args: Vec<String> = Vec::new();
    assert(no_args.deep_view() =~= Seq::<Seq<char>>::empty());
    clock.push(Step::Run { command: run_command("locale-gen", &no_args, false), failure: None });
    assert(clock@ =~= clock_and_locale_plan(*config));
    plan.append(clock);

    let mut host = Plan::new();
    host.push(
        Step::WriteFile {
            path: owned("/etc/vconsole.conf"),
            contents: concat_text("KEYMAP=", linux.vconsole_keymap.as_str()),
        },
    );
    host.push(Step::WriteFile { path: owned("/etc/hostname"), contents: hostname });
    let hosts_lines = texts(vec!["127.0.0.1\tlocalhost", "::1\tlocalhost"]);
    assert(hosts_lines.deep_view() =~= seq!["127.0.0.1\tlocalhost"@, "::1\tlocalhost"@]);
    host.push(Step::WriteFile { path: owned("/etc/hosts"), contents: join(&hosts_lines, "\n") });
    let initramfs = texts(vec!["-P"]);
    assert(initramfs.deep_view() =~= seq!["-P"@]);
    host.push(Step::Run { command: run_command("mkinitcpio", &initramfs, false), failure: None });
    assert(host@ =~= host_plan(*config));
    plan.append(host);

    plan.append(ch_passwd("root", root_password));
    let mut groups: Vec<String> = Vec::new();
    extend_texts(&mut groups, &linux.groups);
    push_text(&mut groups, owned("wheel"));
    assert(groups.deep_view() =~= user_groups(*config));
    plan.append(mk_groups(&groups));
    plan.append(update_sudoers());
    plan.append(create_user(linux.username.as_str(), &groups, "/bin/zsh"));
    plan.append(ch_passwd(linux.username.as_str(), user_password));
    plan.append(install_grub(linux.efi_mountpoint.as_str(), linux.bootloader_id.as_str(), arch));
    plan.append(install_network_manager());
    assert(plan@ =~= chroot_plan(*config, user_password@, root_password@, arch@));
    plan
}

/// What the user's first login does: git-lfs and the stable Rust toolchain
/// for the user, paru built in `paru_folder`, and the dotfiles applied with
/// chezmoi where a repository is configured.
pub open spec fn user_install_plan(config: Config, paru_folder: Seq<char>) -> Seq<StepModel> {
    let user = config.linux.username@;
    seq![
        StepModel::Say("Installing paru for AUR packages."@),
        StepModel::Run {
            command: run_as_user_model(user, "git"@, seq!["lfs"@, "install"@]),
            failure: None,
        },
        StepModel::Run {
            command: run_as_user_model(user, "rustup"@, seq!["install"@, "stable"@]),
            failure: None,
        },
    ] + paru_plan(user, paru_folder) + match config.linux.dotfiles_repo {
        Some(repo) => seq![
            StepModel::Run {
                command: run_as_user_model(
                    user,
                    "chezmoi"@,
                    seq!["init"@, repo@, "--apply"@, "--git-lfs"@],
                ),
                failure: None,
            },
        ],
        None => Seq::empty(),
    }
}

/// `paru -Scc --noconfirm`, run by the installer itself.
pub open spec fn paru_cache_cleaning() -> CommandModel {
    CommandModel {
        program: "paru"@,
        args: seq!["-Scc"@, "--noconfirm"@],
        env: None,
        cwd: None,
        stdin: None,
    }
}

/// The step runs a command as `user`, or cleans paru's cache.
pub open spec fn user_step(step: StepModel, user: Seq<char>) -> bool {
    step matches StepModel::Run { command, .. } ==> (command == paru_cache_cleaning() || runs_as(
        command,
        user,
    ))
}

/// The step runs `args` (after `-u <user> --`) as `user`.
pub open spec fn runs_as_with(step: StepModel, user: Seq<char>, args: Seq<Seq<char>>) -> bool {
    step matches StepModel::Run { command, .. } && runs_as(command, user) && command.args.skip(3)
        == args
}

/// Law: every command of the user's setup runs as the configured user
/// (through `runuser`, with the user's `HOME` and `USER`), except the
/// cleaning of paru's cache; among them are git-lfs's setup, the stable
/// Rust toolchain and paru's build in `paru_folder`; the dotfiles are
/// applied with chezmoi exactly where a repository is configured.
pub proof fn law_user_setup_runs_as_user(config: Config, paru_folder: Seq<char>)
    ensures
        ({
            let p = user_install_plan(config, paru_folder);
            let user = config.linux.username@;
            &&& forall|i: int| 0 <= i < p.len() ==> user_step(#[trigger] p[i], user)
            &&& exists|i: int| 0 <= i < p.len() && runs_as_with(#[trigger] p[i], user, seq!["git"@, "lfs"@, "install"@])
            &&& exists|i: int|
                0 <= i < p.len() && runs_as_with(#[trigger] p[i], user, seq!["rustup"@, "install"@, "stable"@])
            &&& exists|i: int|
                0 <= i < p.len() && runs_as_with(#[trigger] p[i], user, seq!["makepkg"@, "-si"@, "--noconfirm"@])
                    && p[i]->Run_command.cwd == Some(paru_folder)
            &&& (exists|i: int| 0 <= i < p.len() && (#[trigger] p[i] matches StepModel::Run { command, .. }
                && command.args.len() > 3 && command.args[3] == "chezmoi"@)) <==> config.linux.dotfiles_repo is Some
        }),
{
    let p = user_install_plan(config, paru_folder);
    let user = config.linux.username@;
    let home = "/home/"@ + user;
    assert(seq![("PATH"@, "/usr/local/bin:/usr/bin:/bin"@), ("HOME"@, home), ("USER"@, user)][1] == ("HOME"@, home));
    assert(seq![("PATH"@, "/usr/local/bin:/usr/bin:/bin"@), ("HOME"@, home), ("USER"@, user)][2] == ("USER"@, user));
    assert(seq![("PATH"@, home + "/.cargo/bin:/usr/local/bin:/usr/bin:/bin"@), ("HOME"@, home), ("USER"@, user)][1] == ("HOME"@, home));
    assert(seq![("PATH"@, home + "/.cargo/bin:/usr/local/bin:/usr/bin:/bin"@), ("HOME"@, home), ("USER"@, user)][2] == ("USER"@, user));
    assert forall|i: int| 0 <= i < p.len() implies user_step(#[trigger] p[i], user) by {
    }
    assert(p[1]->Run_command.args.skip(3) =~= seq!["git"@, "lfs"@, "install"@]);
    assert(runs_as_with(p[1], user, seq!["git"@, "lfs"@, "install"@]));
    assert(p[2]->Run_command.args.skip(3) =~= seq!["rustup"@, "install"@, "stable"@]);
    assert(runs_as_with(p[2], user, seq!["rustup"@, "install"@, "stable"@]));
    assert(p[4]->Run_command.args.skip(3) =~= seq!["makepkg"@, "-si"@, "--noconfirm"@]);
    assert(runs_as_with(p[4], user, seq!["makepkg"@, "-si"@, "--noconfirm"@]));
    if config.linux.dotfiles_repo is Some {
        assert(p[6] matches StepModel::Run { command, .. } && command.args.len() > 3 && command.args[3] == "chezmoi"@);
    } else {
        assert forall|i: int| 0 <= i < p.len() implies !(#[trigger] p[i] matches StepModel::Run { command, .. }
            && command.args.len() > 3 && command.args[3] == "chezmoi"@) by {
            reveal_strlit("chezmoi");
            reveal_strlit("git");
            reveal_strlit("rustup");
            reveal_strlit("makepkg");
            assert("chezmoi"@.len() == 7);
            assert(p.len() == 6);
            if i == 1 || i == 3 {
                assert(p[i]->Run_command.args[3] == "git"@);
                assert("git"@.len() == 3);
            } else if i == 2 {
                assert(p[i]->Run_command.args[3] == "rustup"@);
                assert("rustup"@.len() == 6);
            } else if i == 4 {
                assert(p[i]->Run_command.args[3] == "makepkg"@);
                assert("makepkg"@[0] != "chezmoi"@[0]);
            } else if i == 5 {
                assert(p[i]->Run_command.args.len() == 2);
            }
        }
    }
}

/// The steps of the user's setup, with paru built in `paru_folder`.
pub fn user_install_in(config: &Config, paru_folder: &str) -> (plan: Plan)
    ensures
        plan@ == user_install_plan(*config, paru_folder@),
        forall|i: int| 0 <= i < plan@.len() ==> user_step(#[trigger] plan@[i], config.linux.username@),
        exists|i: int|
            0 <= i < plan@.len() && runs_as_with(
                #[trigger] plan@[i],
                config.linux.username@,
                seq!["rustup"@, "install"@, "stable"@],
            ),
{
    proof {
        law_user_setup_runs_as_user(*config, paru_folder@);
    }
    let user = config.linux.username.as_str();
    let mut plan = Plan::new();
    plan.push(Step::Say(owned("Installing paru for AUR packages.")));
    let lfs = texts(vec!["lfs", "install"]);
    assert(lfs.deep_view() =~= seq!["lfs"@, "install"@]);
    plan.push(Step::Run { command: run_as_user(user, "git", &lfs), failure: None });
    let stable = texts(vec!["install", "stable"]);
    assert(stable.deep_view() =~= seq!["install"@, "stable"@]);
    plan.push(Step::Run { command: run_as_user(user, "rustup", &stable), failure: None });
    plan.append(install_paru_in(user, paru_folder));
    match &config.linux.dotfiles_repo {
        Some(repo) => {
            let args = texts(vec!["init", repo.as_str(), "--apply", "--git-lfs"]);
            assert(args.deep_view() =~= seq!["init"@, repo@, "--apply"@, "--git-lfs"@]);
            plan.push(Step::Run { command: run_as_user(user, "chezmoi", &args), failure: None });
        },
        None => {},
    }
    assert(plan@ =~= user_install_plan(*config, paru_folder@));
    plan
}

/// The steps of the user's setup, with paru built in a fresh folder under
/// `/tmp`.
pub fn user_install(config: &Config) -> (plan: Plan)
    ensures
        exists|name: Seq<char>|
            is_build_name(name) && plan@ == user_install_plan(*config, "/tmp/"@ + name),
        forall|i: int| 0 <= i < plan@.len() ==> user_step(#[trigger] plan@[i], config.linux.username@),
{
    let folder = paru_build_folder();
    user_install_in(config, folder.as_str())
}

} // verus!
