use linux_setup::config::{Config, Linux};
use linux_setup::edits::Edit;
use linux_setup::plan::{CommandSpec, Plan, Progress, SetupError, Step};
use linux_setup::setup::{check_root, chroot_install, user_install, user_install_in};
use linux_setup::utils::{
    ch_passwd, confirm_password, create_user, enable_services, grub_target, install_aur_packages,
    install_grub, install_network_manager, install_pacman_packages, install_paru,
    install_paru_in, mk_groups, password_prompt, repeat_prompt, run_as_user, run_command,
    uncomment_locales, update_sudoers,
};
use linux_setup::wm::hypr::install_hyprland;

fn strings(items: &[&str]) -> Vec<String> {
    items.iter().map(|s| s.to_string()).collect()
}

fn plain(program: &str, args: &[&str]) -> CommandSpec {
    CommandSpec { program: program.to_string(), args: strings(args), env: None, cwd: None, stdin: None }
}

fn say(m: &str) -> Step {
    Step::Say(m.to_string())
}

fn run(command: CommandSpec, failure: Option<&str>) -> Step {
    Step::Run { command, failure: failure.map(|f| f.to_string()) }
}

fn config(dotfiles: Option<&str>) -> Config {
    Config {
        linux: Linux {
            username: "alice".to_string(),
            groups: strings(&["docker", "libvirt"]),
            efi_mountpoint: "/boot/EFI".to_string(),
            bootloader_id: "GRUB".to_string(),
            timezone: "Europe/Berlin".to_string(),
            locales: strings(&["en_US.UTF-8", "de_DE.UTF-8"]),
            dotfiles_repo: dotfiles.map(|d| d.to_string()),
            vconsole_keymap: "us".to_string(),
        },
    }
}

#[test]
fn run_command_without_sudo() {
    assert_eq!(run_command("pacman", &strings(&["-S", "x"]), false), plain("pacman", &["-S", "x"]));
}

#[test]
fn run_command_with_sudo() {
    assert_eq!(
        run_command("systemctl", &strings(&["enable", "a"]), true),
        plain("sudo", &["--", "systemctl", "enable", "a"])
    );
}

#[test]
fn run_as_user_clears_the_environment() {
    let c = run_as_user("bob", "git", &strings(&["lfs", "install"]));
    assert_eq!(c.program, "runuser");
    assert_eq!(c.args, strings(&["-u", "bob", "--", "git", "lfs", "install"]));
    assert_eq!(
        c.env,
        Some(vec![
            ("PATH".to_string(), "/usr/local/bin:/usr/bin:/bin".to_string()),
            ("HOME".to_string(), "/home/bob".to_string()),
            ("USER".to_string(), "bob".to_string()),
        ])
    );
    assert_eq!(c.cwd, Some("/home/bob".to_string()));
    assert_eq!(c.stdin, None);
}

#[test]
fn pacman_plan() {
    let plan = install_pacman_packages(&strings(&["zsh", "git"]), true);
    assert_eq!(
        plan.steps,
        vec![
            say("Installing pacman packages"),
            run(
                plain("sudo", &["--", "pacman", "-Syu", "--noconfirm", "--needed", "zsh", "git"]),
                Some("Failed to install pacman packages")
            ),
        ]
    );
}

#[test]
fn aur_plan() {
    let plan = install_aur_packages(&strings(&["qt6gtk2"]));
    assert_eq!(
        plan.steps[1],
        run(plain("paru", &["-Syu", "--noconfirm", "--needed", "qt6gtk2"]), Some("Failed to install AUR packages"))
    );
}

#[test]
fn locales_plan_names_the_first_locale() {
    let plan = uncomment_locales(&strings(&["en_US.UTF-8", "de_DE.UTF-8"]));
    assert_eq!(
        plan.steps,
        vec![
            Step::EditFile {
                path: "/etc/locale.gen".to_string(),
                edit: Edit::UncommentLocales(strings(&["en_US.UTF-8", "de_DE.UTF-8"])),
            },
            Step::WriteFile { path: "/etc/locale.conf".to_string(), contents: "LANG=en_US.UTF-8".to_string() },
        ]
    );
    assert_eq!(uncomment_locales(&Vec::new()).steps.len(), 1);
}

#[test]
fn chpasswd_gets_user_and_password_on_stdin() {
    let plan = ch_passwd("root", "s3cret");
    let mut c = plain("chpasswd", &[]);
    c.stdin = Some("root:s3cret".to_string());
    assert_eq!(plan.steps, vec![run(c, Some("Failed to change password"))]);
}

#[test]
fn groups_are_created_in_order() {
    let plan = mk_groups(&strings(&["docker", "wheel"]));
    assert_eq!(
        plan.steps,
        vec![
            say("Creating group docker"),
            run(plain("groupadd", &["docker"]), None),
            say("Creating group wheel"),
            run(plain("groupadd", &["wheel"]), None),
        ]
    );
}

#[test]
fn sudoers_plan() {
    assert_eq!(
        update_sudoers().steps,
        vec![
            say("Updating sudoers"),
            Step::EditFile { path: "/etc/sudoers".to_string(), edit: Edit::AllowWheel },
        ]
    );
}

#[test]
fn useradd_gets_comma_separated_groups() {
    let plan = create_user("alice", &strings(&["docker", "wheel"]), "/bin/zsh");
    assert_eq!(
        plan.steps,
        vec![
            say("Creating user alice"),
            run(
                plain(
                    "useradd",
                    &["--groups", "docker,wheel", "--create-home", "--shell", "/bin/zsh", "--user-group", "alice"]
                ),
                Some("Failed to create user alice")
            ),
        ]
    );
}

#[test]
fn grub_targets() {
    assert_eq!(grub_target("x86_64"), Some("x86_64-efi".to_string()));
    assert_eq!(grub_target("x86"), Some("i386-efi".to_string()));
    assert_eq!(grub_target("aarch64"), Some("arm64-efi".to_string()));
    assert_eq!(grub_target("loongarch64"), Some("loongarch64-efi".to_string()));
    assert_eq!(grub_target("mips"), None);
}

#[test]
fn grub_plan_for_x86_64() {
    let plan = install_grub("/boot/EFI", "GRUB", "x86_64");
    assert_eq!(plan.steps.len(), 4);
    assert_eq!(
        plan.steps[2],
        run(
            plain("grub-install", &["--target", "x86_64-efi", "--efi-directory", "/boot/EFI", "--bootloader-id", "GRUB"]),
            Some("Failed to install grub")
        )
    );
    assert_eq!(
        plan.steps[3],
        run(plain("grub-mkconfig", &["-o", "/boot/grub/grub.cfg"]), Some("Failed to generate grub config"))
    );
}

#[test]
fn grub_plan_fails_on_unknown_architecture() {
    let plan = install_grub("/boot/EFI", "GRUB", "sparc");
    assert_eq!(plan.steps.len(), 3);
    assert_eq!(plan.steps[2], Step::Fail("Unsupported CPU architecture for GRUB.".to_string()));
    assert_eq!(
        plan.steps[2].conclude(true),
        Err(SetupError::Failed("Unsupported CPU architecture for GRUB.".to_string()))
    );
}

#[test]
fn services_plan() {
    let plan = enable_services(&strings(&["a.service", "b.service"]), true);
    assert_eq!(
        plan.steps,
        vec![
            say("Enabling services:"),
            run(plain("sudo", &["--", "systemctl", "enable", "a.service"]), Some("Failed to enable a.service")),
            say(" * Enabled a.service"),
            run(plain("sudo", &["--", "systemctl", "enable", "b.service"]), Some("Failed to enable b.service")),
            say(" * Enabled b.service"),
        ]
    );
}

#[test]
fn network_manager_plan() {
    let plan = install_network_manager();
    assert_eq!(plan.steps.len(), 6);
    assert_eq!(plan.steps[0], say("Installing network manager"));
    assert_eq!(
        plan.steps[4],
        run(plain("systemctl", &["enable", "NetworkManager.service"]), Some("Failed to enable NetworkManager.service"))
    );
}

#[test]
fn paru_plan() {
    let plan = install_paru_in("alice", "/tmp/abcde");
    assert_eq!(plan.steps.len(), 3);
    assert_eq!(
        plan.steps[0],
        run(run_as_user("alice", "git", &strings(&["clone", "https://aur.archlinux.org/paru.git", "/tmp/abcde"])), None)
    );
    match &plan.steps[1] {
        Step::Run { command, failure } => {
            assert_eq!(failure, &None);
            assert_eq!(command.args, strings(&["-u", "alice", "--", "makepkg", "-si", "--noconfirm"]));
            assert_eq!(command.cwd, Some("/tmp/abcde".to_string()));
            assert_eq!(
                command.env.as_ref().unwrap()[0],
                ("PATH".to_string(), "/home/alice/.cargo/bin:/usr/local/bin:/usr/bin:/bin".to_string())
            );
        }
        other => panic!("unexpected step {:?}", other),
    }
    assert_eq!(plan.steps[2], run(plain("paru", &["-Scc", "--noconfirm"]), None));
}

#[test]
fn paru_is_built_in_a_random_tmp_folder() {
    let plan = install_paru("alice");
    match &plan.steps[1] {
        Step::Run { command, .. } => {
            let dir = command.cwd.clone().unwrap();
            assert!(dir.starts_with("/tmp/"));
            let name = &dir["/tmp/".len()..];
            assert_eq!(name.len(), 5);
            assert!(name.chars().all(|c| c.is_ascii_alphanumeric()));
        }
        other => panic!("unexpected step {:?}", other),
    }
}

#[test]
fn conclude_stops_on_failed_checked_commands() {
    let checked = run(plain("x", &[]), Some("boom"));
    assert_eq!(checked.conclude(true), Ok(()));
    assert_eq!(checked.conclude(false), Err(SetupError::Failed("boom".to_string())));
    let unchecked = run(plain("x", &[]), None);
    assert_eq!(unchecked.conclude(false), Ok(()));
    assert_eq!(say("hi").conclude(false), Ok(()));
}

#[test]
fn error_messages() {
    assert_eq!(SetupError::NotRoot.message(), "You must run this script as root");
    assert_eq!(SetupError::PasswordMismatch.message(), "Passwords do not match!");
    assert_eq!(SetupError::Failed("x".to_string()).message(), "x");
}

#[test]
fn root_check() {
    assert_eq!(check_root("root"), Ok(()));
    assert_eq!(check_root("alice"), Err(SetupError::NotRoot));
}

#[test]
fn passwords() {
    assert_eq!(password_prompt("user"), "Please enter user password: ");
    assert_eq!(repeat_prompt("root"), "Repeat root password: ");
    assert_eq!(confirm_password("pw".to_string(), "pw"), Ok("pw".to_string()));
    assert_eq!(confirm_password("pw".to_string(), "pW"), Err(SetupError::PasswordMismatch));
}

fn position(plan: &Plan, step: &Step) -> usize {
    plan.steps.iter().position(|s| s == step).unwrap()
}

#[test]
fn chroot_plan_writes_host_files() {
    let plan = chroot_install(&config(None), "upw", "rpw", "x86_64");
    let hostname = Step::WriteFile { path: "/etc/hostname".to_string(), contents: "alice-pc".to_string() };
    let hosts = Step::WriteFile {
        path: "/etc/hosts".to_string(),
        contents: "127.0.0.1\tlocalhost\n::1\tlocalhost".to_string(),
    };
    let keymap = Step::WriteFile { path: "/etc/vconsole.conf".to_string(), contents: "KEYMAP=us".to_string() };
    assert!(position(&plan, &keymap) < position(&plan, &hostname));
    assert!(position(&plan, &hostname) < position(&plan, &hosts));
    let link = Step::Symlink {
        target: "/usr/share/zoneinfo/Europe/Berlin".to_string(),
        link: "/etc/localtime".to_string(),
    };
    assert_eq!(position(&plan, &link), position(&plan, &Step::RemoveFile("/etc/localtime".to_string())) + 1);
}

#[test]
fn chroot_plan_sets_passwords_and_groups() {
    let plan = chroot_install(&config(None), "upw", "rpw", "x86_64");
    let root_pw = ch_passwd("root", "rpw").steps.remove(0);
    let user_pw = ch_passwd("alice", "upw").steps.remove(0);
    let useradd = create_user("alice", &strings(&["docker", "libvirt", "wheel"]), "/bin/zsh").steps.remove(1);
    let wheel = say("Creating group wheel");
    assert!(position(&plan, &root_pw) < position(&plan, &wheel));
    assert!(position(&plan, &wheel) < position(&plan, &useradd));
    assert!(position(&plan, &useradd) < position(&plan, &user_pw));
    assert_eq!(plan.steps[0], say("Installing pacman packages"));
    assert_eq!(
        plan.steps[1],
        run(plain("pacman", &["-Syu", "--noconfirm", "--needed", "sudo", "rustup", "git-lfs", "chezmoi", "zsh"]), Some("Failed to install pacman packages"))
    );
    assert_eq!(plan.steps.last(), Some(&say(" * Enabled NetworkManager.service")));
}

#[test]
fn chroot_plan_on_unknown_architecture_stops_at_grub() {
    let plan = chroot_install(&config(None), "upw", "rpw", "sparc");
    let fail = Step::Fail("Unsupported CPU architecture for GRUB.".to_string());
    assert!(position(&plan, &fail) > 0);
}

#[test]
fn user_plan_applies_dotfiles_when_configured() {
    let with = user_install_in(&config(Some("https://example.com/dots.git")), "/tmp/xyzzy");
    assert_eq!(with.steps[0], say("Installing paru for AUR packages."));
    assert_eq!(
        with.steps.last(),
        Some(&run(
            run_as_user("alice", "chezmoi", &strings(&["init", "https://example.com/dots.git", "--apply", "--git-lfs"])),
            None
        ))
    );
    let without = user_install_in(&config(None), "/tmp/xyzzy");
    assert_eq!(with.steps.len(), without.steps.len() + 1);
    assert_eq!(without.steps.last(), Some(&run(plain("paru", &["-Scc", "--noconfirm"]), None)));
}

#[test]
fn user_plan_with_random_folder() {
    let plan = user_install(&config(None));
    assert_eq!(plan.steps.len(), 6);
}

#[test]
fn hyprland_plan() {
    let plan = install_hyprland();
    assert_eq!(plan.steps[0], say("Installing pacman packages"));
    match &plan.steps[1] {
        Step::Run { command, .. } => {
            assert_eq!(command.program, "sudo");
            assert_eq!(command.args.len(), 2 + 3 + 28);
            assert_eq!(command.args[5], "hyprland");
        }
        other => panic!("unexpected step {:?}", other),
    }
    assert_eq!(plan.steps[3], run(plain("paru", &["-Syu", "--noconfirm", "--needed", "qt6gtk2"]), Some("Failed to install AUR packages")));
    assert_eq!(
        plan.steps[5],
        run(plain("sudo", &["--", "systemctl", "enable", "sddm.service"]), Some("Failed to enable sddm.service"))
    );
    assert_eq!(plan.steps.len(), 7);
}

#[test]
fn runs_go_step_by_step_and_stop_at_the_first_failure() {
    let plan = Plan {
        steps: vec![
            say("a"),
            run(plain("x", &[]), Some("x failed")),
            run(plain("y", &[]), None),
            run(plain("z", &[]), Some("z failed")),
        ],
    };
    assert_eq!(plan.start(), Progress::Next(0));
    assert_eq!(plan.after(0, true), Progress::Next(1));
    assert_eq!(plan.after(1, false), Progress::Stopped(SetupError::Failed("x failed".to_string())));
    assert_eq!(plan.after(2, false), Progress::Next(3));
    assert_eq!(plan.after(3, true), Progress::Finished);
    assert_eq!(plan.replay(&vec![true, true, false, true]), (4, None));
    assert_eq!(plan.replay(&vec![true, true, false, false]), (4, Some(SetupError::Failed("z failed".to_string()))));
    assert_eq!(plan.replay(&vec![true, false, true, true]), (2, Some(SetupError::Failed("x failed".to_string()))));
    let empty = Plan { steps: Vec::new() };
    assert_eq!(empty.start(), Progress::Finished);
    assert_eq!(empty.replay(&Vec::new()), (0, None));
}
