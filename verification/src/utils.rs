use vstd::prelude::*;

use crate::edits::{Edit, EditModel};
use crate::plan::{
    plain_command, texts, CommandModel, CommandSpec, Plan, SetupError, Step, StepModel,
};
use crate::random::{build_name, is_build_name};
use crate::text::{concat_text, join, owned, same_text, spec_join};

verus! {

// ---------------------------------------------------------------------------
// Helpers on lists of strings.
// ---------------------------------------------------------------------------

/// Adds `s` at the end of `v`.
pub fn push_text(v: &mut Vec<String>, s: String)
    ensures
        final(v).deep_view() == old(v).deep_view().push(s@),
{
    v.push(s);
    assert(v.deep_view() =~= old(v).deep_view().push(s@));
}

/// Adds copies of the strings of `src` at the end of `dst`.
pub fn extend_texts(dst: &mut Vec<String>, src: &Vec<String>)
    ensures
        final(dst).deep_view() == old(dst).deep_view() + src.deep_view(),
{
    let mut i: usize = 0;
    while i < src.len()
        invariant
            i <= src.len(),
            dst.deep_view() == old(dst).deep_view() + src.deep_view().take(i as int),
        decreases src.len() - i,
    {
        push_text(dst, owned(src[i].as_str()));
        assert(src.deep_view().take(i + 1) =~= src.deep_view().take(i as int).push(src[i as int]@));
        assert(old(dst).deep_view() + src.deep_view().take(i + 1) =~= (old(dst).deep_view()
            + src.deep_view().take(i as int)).push(src[i as int]@));
        i += 1;
    }
    assert(src.deep_view().take(src.len() as int) == src.deep_view());
}

// ---------------------------------------------------------------------------
// Commands.
// ---------------------------------------------------------------------------

/// `command args`, prefixed by `sudo --` when `sudo` holds.
pub open spec fn run_command_model(command: Seq<char>, args: Seq<Seq<char>>, sudo: bool) -> CommandModel {
    if sudo {
        plain_command("sudo"@, seq!["--"@, command] + args)
    } else {
        plain_command(command, args)
    }
}

/// The command that runs `command` with `args`, as root through `sudo --`
/// when `sudo` holds.
pub fn run_command(command: &str, args: &Vec<String>, sudo: bool) -> (res: CommandSpec)
    ensures
        res@ == run_command_model(command@, args.deep_view(), sudo),
{
    let mut all: Vec<String> = Vec::new();
    let program = if sudo {
        push_text(&mut all, owned("--"));
        push_text(&mut all, owned(command));
        owned("sudo")
    } else {
        owned(command)
    };
    extend_texts(&mut all, args);
    let res = CommandSpec { program, args: all, env: None, cwd: None, stdin: None };
    assert(res@.args =~= run_command_model(command@, args.deep_view(), sudo).args);
    res
}

/// The home directory of `user`.
pub open spec fn home_of(user: Seq<char>) -> Seq<char> {
    "/home/"@ + user
}

/// `command args` run through `runuser` as `user`, in the user's home, with
/// a cleared environment that holds only `PATH`, `HOME` and `USER`.
pub open spec fn run_as_user_model(user: Seq<char>, command: Seq<char>, args: Seq<Seq<char>>) -> CommandModel {
    CommandModel {
        program: "runuser"@,
        args: seq!["-u"@, user, "--"@, command] + args,
        env: Some(
            seq![
                ("PATH"@, "/usr/local/bin:/usr/bin:/bin"@),
                ("HOME"@, home_of(user)),
                ("USER"@, user),
            ],
        ),
        cwd: Some(home_of(user)),
        stdin: None,
    }
}

/// The command that runs `command` with `args` as `user`.
pub fn run_as_user(user: &str, command: &str, args: &Vec<String>) -> (res: CommandSpec)
    ensures
        res@ == run_as_user_model(user@, command@, args.deep_view()),
{
    let home_dir = concat_text("/home/", user);
    let mut env: Vec<(String, String)> = Vec::new();
    env.push((owned("PATH"), owned("/usr/local/bin:/usr/bin:/bin")));
    env.push((owned("HOME"), owned(home_dir.as_str())));
    env.push((owned("USER"), owned(user)));
    let mut all = texts(vec!["-u", user, "--", command]);
    extend_texts(&mut all, args);
    let res = CommandSpec { program: owned("runuser"), args: all, env: Some(env), cwd: Some(home_dir), stdin: None };
    assert(res@.args =~= run_as_user_model(user@, command@, args.deep_view()).args);
    assert(res@.env->0 =~= run_as_user_model(user@, command@, args.deep_view()).env->0);
    res
}


// ---------------------------------------------------------------------------
// Passwords.
// ---------------------------------------------------------------------------

/// The prompt for the first entry of a password of the given kind.
pub fn password_prompt(pass_ty: &str) -> (res: String)
    ensures
        res@ == "Please enter "@ + pass_ty@ + " password: "@,
{
    let head = concat_text("Please enter ", pass_ty);
    concat_text(head.as_str(), " password: ")
}

/// The prompt for the second entry of a password of the given kind.
pub fn repeat_prompt(pass_ty: &str) -> (res: String)
    ensures
        res@ == "Repeat "@ + pass_ty@ + " password: "@,
{
    let head = concat_text("Repeat ", pass_ty);
    concat_text(head.as_str(), " password: ")
}

/// The password typed, provided both entries match.
pub fn confirm_password(first: String, second: &str) -> (res: Result<String, SetupError>)
    ensures
        res is Ok <==> first@ == second@,
        res matches Ok(p) ==> p@ == first@,
        res matches Err(e) ==> e is PasswordMismatch,
{
    if same_text(first.as_str(), second) {
        Ok(first)
    } else {
        Err(SetupError::PasswordMismatch)
    }
}

// ---------------------------------------------------------------------------
// Plans of the installation steps.
// ---------------------------------------------------------------------------

/// Installing `packages` with pacman (as root through sudo when `sudo` holds).
pub open spec fn pacman_plan(packages: Seq<Seq<char>>, sudo: bool) -> Seq<StepModel> {
    seq![
        StepModel::Say("Installing pacman packages"@),
        StepModel::Run {
            command: run_command_model(
                "pacman"@,
                seq!["-Syu"@, "--noconfirm"@, "--needed"@] + packages,
                sudo,
            ),
            failure: Some("Failed to install pacman packages"@),
        },
    ]
}

/// The steps that install `packages` from the Arch repositories with pacman.
pub fn install_pacman_packages(packages: &Vec<String>, sudo: bool) -> (plan: Plan)
    ensures
        plan@ == pacman_plan(packages.deep_view(), sudo),
{
    let mut args = texts(vec!["-Syu", "--noconfirm", "--needed"]);
    extend_texts(&mut args, packages);
    assert(args.deep_view() =~= seq!["-Syu"@, "--noconfirm"@, "--needed"@] + packages.deep_view());
    let mut plan = Plan::new();
    plan.push(Step::Say(owned("Installing pacman packages")));
    plan.push(
        Step::Run {
            command: run_command("pacman", &args, sudo),
            failure: Some(owned("Failed to install pacman packages")),
        },
    );
    assert(plan@ =~= pacman_plan(packages.deep_view(), sudo));
    plan
}

/// Installing `packages` from the AUR with paru, as the calling user.
pub open spec fn aur_plan(packages: Seq<Seq<char>>) -> Seq<StepModel> {
    seq![
        StepModel::Say("Installing AUR packages"@),
        StepModel::Run {
            command: run_command_model(
                "paru"@,
                seq!["-Syu"@, "--noconfirm"@, "--needed"@] + packages,
                false,
            ),
            failure: Some("Failed to install AUR packages"@),
        },
    ]
}

/// The steps that install `packages` from the AUR with paru. The command
/// line is this library's choice: paru with the options the pacman step
/// uses, as the calling user, stopping with its own message on failure.
pub fn install_aur_packages(packages: &Vec<String>) -> (plan: Plan)
    ensures
        plan@ == aur_plan(packages.deep_view()),
{
    let mut args = texts(vec!["-Syu", "--noconfirm", "--needed"]);
    extend_texts(&mut args, packages);
    assert(args.deep_view() =~= seq!["-Syu"@, "--noconfirm"@, "--needed"@] + packages.deep_view());
    let mut plan = Plan::new();
    plan.push(Step::Say(owned("Installing AUR packages")));
    plan.push(
        Step::Run {
            command: run_command("paru", &args, false),
            failure: Some(owned("Failed to install AUR packages")),
        },
    );
    assert(plan@ =~= aur_plan(packages.deep_view()));
    plan
}

/// Uncommenting `locales` in `/etc/locale.gen`, then naming the first of
/// them (if any) in `/etc/locale.conf`.
pub open spec fn locales_plan(locales: Seq<Seq<char>>) -> Seq<StepModel> {
    let edit = StepModel::EditFile {
        path: "/etc/locale.gen"@,
        edit: EditModel::UncommentLocales(locales),
    };
    if locales.len() > 0 {
        seq![
            edit,
            StepModel::WriteFile { path: "/etc/locale.conf"@, contents: "LANG="@ + locales[0] },
        ]
    } else {
        seq![edit]
    }
}

/// The steps that enable `locales`.
pub fn uncomment_locales(locales: &Vec<String>) -> (plan: Plan)
    ensures
        plan@ == locales_plan(locales.deep_view()),
{
    let mut names: Vec<String> = Vec::new();
    extend_texts(&mut names, locales);
    let mut plan = Plan::new();
    plan.push(
        Step::EditFile { path: owned("/etc/locale.gen"), edit: Edit::UncommentLocales(names) },
    );
    if locales.len() > 0 {
        plan.push(
            Step::WriteFile {
                path: owned("/etc/locale.conf"),
                contents: concat_text("LANG=", locales[0].as_str()),
            },
        );
    }
    assert(plan@ =~= locales_plan(locales.deep_view()));
    plan
}

/// Setting the password of `user` with chpasswd.
pub open spec fn passwd_plan(user: Seq<char>, password: Seq<char>) -> Seq<StepModel> {
    seq![
        StepModel::Run {
            command: CommandModel {
                program: "chpasswd"@,
                args: Seq::empty(),
                env: None,
                cwd: None,
                stdin: Some(user + ":"@ + password),
            },
            failure: Some("Failed to change password"@),
        },
    ]
}

/// The steps that set the password of `user`.
pub fn ch_passwd(user: &str, password: &str) -> (plan: Plan)
    ensures
        plan@ == passwd_plan(user@, password@),
{
    let head = concat_text(user, ":");
    let input = concat_text(head.as_str(), password);
    let command = CommandSpec {
        program: owned("chpasswd"),
        args: Vec::new(),
        env: None,
        cwd: None,
        stdin: Some(input),
    };
    assert(command@.args =~= Seq::<Seq<char>>::empty());
    let mut plan = Plan::new();
    plan.push(Step::Run { command, failure: Some(owned("Failed to change password")) });
    assert(plan@ =~= passwd_plan(user@, password@));
    plan
}

/// Creating one group.
pub open spec fn group_plan(group: Seq<char>) -> Seq<StepModel> {
    seq![
        StepModel::Say("Creating group "@ + group),
        StepModel::Run {
            command: run_command_model("groupadd"@, seq![group], false),
            failure: None,
        },
    ]
}

/// Creating each of `groups`, in order.
pub open spec fn groups_plan(groups: Seq<Seq<char>>) -> Seq<StepModel>
    decreases groups.len(),
{
    if groups.len() == 0 {
        Seq::empty()
    } else {
        groups_plan(groups.drop_last()) + group_plan(groups.last())
    }
}

/// The steps that create `groups`.
pub fn mk_groups(groups: &Vec<String>) -> (plan: Plan)
    ensures
        plan@ == groups_plan(groups.deep_view()),
{
    let mut plan = Plan::new();
    let mut i: usize = 0;
    while i < groups.len()
        invariant
            i <= groups.len(),
            plan@ == groups_plan(groups.deep_view().take(i as int)),
        decreases groups.len() - i,
    {
        let ghost g = groups[i as int]@;
        assert(groups.deep_view().take(i + 1).drop_last() =~= groups.deep_view().take(i as int));
        assert(groups.deep_view().take(i + 1).last() == g);
        let mut args: Vec<String> = Vec::new();
        push_text(&mut args, owned(groups[i].as_str()));
        assert(args.deep_view() =~= seq![g]);
        plan.push(Step::Say(concat_text("Creating group ", groups[i].as_str())));
        plan.push(Step::Run { command: run_command("groupadd", &args, false), failure: None });
        assert(plan@ =~= groups_plan(groups.deep_view().take(i + 1)));
        i += 1;
    }
    assert(groups.deep_view().take(groups.len() as int) == groups.deep_view());
    plan
}

/// Making sure the wheel group may use sudo.
pub open spec fn sudoers_plan() -> Seq<StepModel> {
    seq![
        StepModel::Say("Updating sudoers"@),
        StepModel::EditFile { path: "/etc/sudoers"@, edit: EditModel::AllowWheel },
    ]
}

/// The steps that let the wheel group use sudo without a password.
pub fn update_sudoers() -> (plan: Plan)
    ensures
        plan@ == sudoers_plan(),
{
    let mut plan = Plan::new();
    plan.push(Step::Say(owned("Updating sudoers")));
    plan.push(Step::EditFile { path: owned("/etc/sudoers"), edit: Edit::AllowWheel });
    assert(plan@ =~= sudoers_plan());
    plan
}

/// Creating `username` with a home, its own group, the login `shell`, and
/// membership of `groups`.
pub open spec fn user_plan(username: Seq<char>, groups: Seq<Seq<char>>, shell: Seq<char>) -> Seq<StepModel> {
    seq![
        StepModel::Say("Creating user "@ + username),
        StepModel::Run {
            command: run_command_model(
                "useradd"@,
                seq![
                    "--groups"@,
                    spec_join(groups, ","@),
                    "--create-home"@,
                    "--shell"@,
                    shell,
                    "--user-group"@,
                    username,
                ],
                false,
            ),
            failure: Some("Failed to create user "@ + username),
        },
    ]
}

/// The steps that create the user account.
pub fn create_user(username: &str, groups: &Vec<String>, shell: &str) -> (plan: Plan)
    ensures
        plan@ == user_plan(username@, groups.deep_view(), shell@),
{
    let group_list = join(groups, ",");
    let mut args = texts(vec!["--groups"]);
    push_text(&mut args, group_list);
    extend_texts(&mut args, &texts(vec!["--create-home", "--shell", shell, "--user-group", username]));
    let mut plan = Plan::new();
    plan.push(Step::Say(concat_text("Creating user ", username)));
    plan.push(
        Step::Run {
            command: run_command("useradd", &args, false),
            failure: Some(concat_text("Failed to create user ", username)),
        },
    );
    assert(args.deep_view() =~= seq![
        "--groups"@,
        spec_join(groups.deep_view(), ","@),
        "--create-home"@,
        "--shell"@,
        shell@,
        "--user-group"@,
        username@,
    ]);
    assert(plan@ =~= user_plan(username@, groups.deep_view(), shell@));
    plan
}


/// The GRUB target for a CPU architecture (as `std::env::consts::ARCH`
/// names it), where GRUB has one.
pub open spec fn grub_target_of(arch: Seq<char>) -> Option<Seq<char>> {
    if arch == "x86"@ {
        Some("i386-efi"@)
    } else if arch == "x86_64"@ {
        Some("x86_64-efi"@)
    } else if arch == "arm"@ {
        Some("arm-efi"@)
    } else if arch == "aarch64"@ {
        Some("arm64-efi"@)
    } else if arch == "riscv32"@ {
        Some("riscv32-efi"@)
    } else if arch == "riscv64"@ {
        Some("riscv64-efi"@)
    } else if arch == "loongarch64"@ {
        Some("loongarch64-efi"@)
    } else {
        None
    }
}

/// The GRUB target for `arch`, where GRUB has one.
pub fn grub_target(arch: &str) -> (res: Option<String>)
    ensures
        res.deep_view() == grub_target_of(arch@),
{
    if same_text(arch, "x86") {
        Some(owned("i386-efi"))
    } else if same_text(arch, "x86_64") {
        Some(owned("x86_64-efi"))
    } else if same_text(arch, "arm") {
        Some(owned("arm-efi"))
    } else if same_text(arch, "aarch64") {
        Some(owned("arm64-efi"))
    } else if same_text(arch, "riscv32") {
        Some(owned("riscv32-efi"))
    } else if same_text(arch, "riscv64") {
        Some(owned("riscv64-efi"))
    } else if same_text(arch, "loongarch64") {
        Some(owned("loongarch64-efi"))
    } else {
        None
    }
}

/// Installing GRUB into the EFI partition mounted at `efi_mountpoint`, on a
/// machine of architecture `arch`, and writing its configuration.
pub open spec fn grub_plan(efi_mountpoint: Seq<char>, bootloader_id: Seq<char>, arch: Seq<char>) -> Seq<StepModel> {
    pacman_plan(seq!["grub"@, "efibootmgr"@, "os-prober"@], false) + match grub_target_of(arch) {
        None => seq![StepModel::Fail("Unsupported CPU architecture for GRUB."@)],
        Some(target) => seq![
            StepModel::Run {
                command: run_command_model(
                    "grub-install"@,
                    seq![
                        "--target"@,
                        target,
                        "--efi-directory"@,
                        efi_mountpoint,
                        "--bootloader-id"@,
                        bootloader_id,
                    ],
                    false,
                ),
                failure: Some("Failed to install grub"@),
            },
            StepModel::Run {
                command: run_command_model(
                    "grub-mkconfig"@,
                    seq!["-o"@, "/boot/grub/grub.cfg"@],
                    false,
                ),
                failure: Some("Failed to generate grub config"@),
            },
        ],
    }
}

/// The steps that install the GRUB boot loader.
pub fn install_grub(efi_mountpoint: &str, bootloader_id: &str, arch: &str) -> (plan: Plan)
    ensures
        plan@ == grub_plan(efi_mountpoint@, bootloader_id@, arch@),
        installs_grub(plan@, efi_mountpoint@, bootloader_id@, arch@),
{
    proof {
        law_grub_installed(efi_mountpoint@, bootloader_id@, arch@);
    }
    let packages = texts(vec!["grub", "efibootmgr", "os-prober"]);
    assert(packages.deep_view() =~= seq!["grub"@, "efibootmgr"@, "os-prober"@]);
    let mut plan = install_pacman_packages(&packages, false);
    match grub_target(arch) {
        None => {
            plan.push(Step::Fail(owned("Unsupported CPU architecture for GRUB.")));
        },
        Some(target) => {
            let args = texts(
                vec![
                    "--target",
                    target.as_str(),
                    "--efi-directory",
                    efi_mountpoint,
                    "--bootloader-id",
                    bootloader_id,
                ],
            );
            assert(args.deep_view() =~= seq![
                "--target"@,
                target@,
                "--efi-directory"@,
                efi_mountpoint@,
                "--bootloader-id"@,
                bootloader_id@,
            ]);
            plan.push(
                Step::Run {
                    command: run_command("grub-install", &args, false),
                    failure: Some(owned("Failed to install grub")),
                },
            );
            let config_args = texts(vec!["-o", "/boot/grub/grub.cfg"]);
            assert(config_args.deep_view() =~= seq!["-o"@, "/boot/grub/grub.cfg"@]);
            plan.push(
                Step::Run {
                    command: run_command("grub-mkconfig", &config_args, false),
                    failure: Some(owned("Failed to generate grub config")),
                },
            );
        },
    }
    assert(plan@ =~= grub_plan(efi_mountpoint@, bootloader_id@, arch@));
    plan
}

/// Enabling one systemd service.
pub open spec fn service_plan(service: Seq<char>, sudo: bool) -> Seq<StepModel> {
    seq![
        StepModel::Run {
            command: run_command_model("systemctl"@, seq!["enable"@, service], sudo),
            failure: Some("Failed to enable "@ + service),
        },
        StepModel::Say(" * Enabled "@ + service),
    ]
}

/// Enabling each of `services`, in order.
pub open spec fn services_steps(services: Seq<Seq<char>>, sudo: bool) -> Seq<StepModel>
    decreases services.len(),
{
    if services.len() == 0 {
        Seq::empty()
    } else {
        services_steps(services.drop_last(), sudo) + service_plan(services.last(), sudo)
    }
}

/// Announcing and then enabling `services`.
pub open spec fn services_plan(services: Seq<Seq<char>>, sudo: bool) -> Seq<StepModel> {
    seq![StepModel::Say("Enabling services:"@)] + services_steps(services, sudo)
}

/// The steps that enable `services` (through sudo when `sudo` holds).
pub fn enable_services(services: &Vec<String>, sudo: bool) -> (plan: Plan)
    ensures
        plan@ == services_plan(services.deep_view(), sudo),
{
    let mut plan = Plan::new();
    plan.push(Step::Say(owned("Enabling services:")));
    let mut i: usize = 0;
    while i < services.len()
        invariant
            i <= services.len(),
            plan@ == seq![StepModel::Say("Enabling services:"@)] + services_steps(
                services.deep_view().take(i as int),
                sudo,
            ),
        decreases services.len() - i,
    {
        let ghost name = services[i as int]@;
        assert(services.deep_view().take(i + 1).drop_last() =~= services.deep_view().take(i as int));
        assert(services.deep_view().take(i + 1).last() == name);
        let args = texts(vec!["enable", services[i].as_str()]);
        assert(args.deep_view() =~= seq!["enable"@, name]);
        plan.push(
            Step::Run {
                command: run_command("systemctl", &args, sudo),
                failure: Some(concat_text("Failed to enable ", services[i].as_str())),
            },
        );
        plan.push(Step::Say(concat_text(" * Enabled ", services[i].as_str())));
        assert(plan@ =~= seq![StepModel::Say("Enabling services:"@)] + services_steps(
            services.deep_view().take(i + 1),
            sudo,
        ));
        i += 1;
    }
    assert(services.deep_view().take(services.len() as int) == services.deep_view());
    plan
}

/// Installing and enabling NetworkManager.
pub open spec fn network_manager_plan() -> Seq<StepModel> {
    seq![StepModel::Say("Installing network manager"@)] + pacman_plan(seq!["networkmanager"@], false)
        + services_plan(seq!["NetworkManager.service"@], false)
}

/// The steps that install and enable NetworkManager.
pub fn install_network_manager() -> (plan: Plan)
    ensures
        plan@ == network_manager_plan(),
{
    let mut plan = Plan::new();
    plan.push(Step::Say(owned("Installing network manager")));
    let packages = texts(vec!["networkmanager"]);
    assert(packages.deep_view() =~= seq!["networkmanager"@]);
    plan.append(install_pacman_packages(&packages, false));
    let services = texts(vec!["NetworkManager.service"]);
    assert(services.deep_view() =~= seq!["NetworkManager.service"@]);
    plan.append(enable_services(&services, false));
    assert(plan@ =~= network_manager_plan());
    plan
}

/// Building and installing paru as `username` in `build_folder`, then
/// clearing paru's cache.
pub open spec fn paru_plan(username: Seq<char>, build_folder: Seq<char>) -> Seq<StepModel> {
    seq![
        StepModel::Run {
            command: run_as_user_model(
                username,
                "git"@,
                seq!["clone"@, "https://aur.archlinux.org/paru.git"@, build_folder],
            ),
            failure: None,
        },
        StepModel::Run {
            command: CommandModel {
                program: "runuser"@,
                args: seq![
                    "-u"@,
                    username,
                    "--"@,
                    "makepkg"@,
                    "-si"@,
                    "--noconfirm"@,
                ],
                env: Some(
                    seq![
                        ("PATH"@, home_of(username) + "/.cargo/bin:/usr/local/bin:/usr/bin:/bin"@),
                        ("HOME"@, home_of(username)),
                        ("USER"@, username),
                    ],
                ),
                cwd: Some(build_folder),
                stdin: None,
            },
            failure: None,
        },
        StepModel::Run {
            command: run_command_model("paru"@, seq!["-Scc"@, "--noconfirm"@], false),
            failure: None,
        },
    ]
}

/// The steps that install paru for `username`, building it in
/// `build_folder`.
pub fn install_paru_in(username: &str, build_folder: &str) -> (plan: Plan)
    ensures
        plan@ == paru_plan(username@, build_folder@),
        builds_paru(plan@, username@, build_folder@),
{
    proof {
        law_paru_built_by_user(username@, build_folder@);
    }
    let clone_args = texts(vec!["clone", "https://aur.archlinux.org/paru.git", build_folder]);
    assert(clone_args.deep_view() =~= seq![
        "clone"@,
        "https://aur.archlinux.org/paru.git"@,
        build_folder@,
    ]);
    let home_dir = concat_text("/home/", username);
    let mut env: Vec<(String, String)> = Vec::new();
    env.push(
        (owned("PATH"), concat_text(home_dir.as_str(), "/.cargo/bin:/usr/local/bin:/usr/bin:/bin")),
    );
    env.push((owned("HOME"), owned(home_dir.as_str())));
    env.push((owned("USER"), owned(username)));
    let build = CommandSpec {
        program: owned("runuser"),
        args: texts(vec!["-u", username, "--", "makepkg", "-si", "--noconfirm"]),
        env: Some(env),
        cwd: Some(owned(build_folder)),
        stdin: None,
    };
    let clean_args = texts(vec!["-Scc", "--noconfirm"]);
    assert(clean_args.deep_view() =~= seq!["-Scc"@, "--noconfirm"@]);
    let mut plan = Plan::new();
    plan.push(Step::Run { command: run_as_user(username, "git", &clone_args), failure: None });
    plan.push(Step::Run { command: build, failure: None });
    plan.push(Step::Run { command: run_command("paru", &clean_args, false), failure: None });
    let ghost model = paru_plan(username@, build_folder@);
    assert(plan@[1]->Run_command.args =~= model[1]->Run_command.args);
    assert(plan@[1]->Run_command.env->0 =~= model[1]->Run_command.env->0);
    assert(plan@ =~= model);
    plan
}

/// The build folder of paru: `/tmp/` and a fresh random name.
pub fn paru_build_folder() -> (res: String)
    ensures
        exists|name: Seq<char>| is_build_name(name) && res@ == "/tmp/"@ + name,
{
    let name = build_name();
    concat_text("/tmp/", name.as_str())
}

/// The steps that install paru for `username`, built in a fresh folder under
/// `/tmp`.
pub fn install_paru(username: &str) -> (plan: Plan)
    ensures
        exists|name: Seq<char>| is_build_name(name) && plan@ == paru_plan(username@, "/tmp/"@ + name),
{
    let folder = paru_build_folder();
    install_paru_in(username, folder.as_str())
}


// ---------------------------------------------------------------------------
// Laws of the commands and plans.
// ---------------------------------------------------------------------------

/// `command` runs as `user`: through `runuser`, with `-u <user> --` before
/// the command, and an environment that sets `HOME` to the user's home and
/// `USER` to the user.
pub open spec fn runs_as(command: CommandModel, user: Seq<char>) -> bool {
    &&& command.program == "runuser"@
    &&& command.args.len() >= 4
    &&& command.args[0] == "-u"@
    &&& command.args[1] == user
    &&& command.args[2] == "--"@
    &&& command.env matches Some(env) && env.contains(("HOME"@, "/home/"@ + user)) && env.contains(
        ("USER"@, user),
    )
}

/// `c` runs `command` with `args` as given, in the installer's own
/// directory and environment, with nothing written to it.
pub open spec fn runs_plainly(c: CommandModel, command: Seq<char>, args: Seq<Seq<char>>) -> bool {
    c.program == command && c.args == args && c.env is None && c.cwd is None && c.stdin is None
}

/// Law: a command is run as it is given, in the installer's own directory
/// and environment, with nothing written to it; with `sudo` the program is
/// `sudo`, and its arguments are `--` followed by the command and its
/// arguments.
pub proof fn law_sudo_wraps_the_command(command: Seq<char>, args: Seq<Seq<char>>)
    ensures
        runs_plainly(run_command_model(command, args, false), command, args),
        runs_plainly(run_command_model(command, args, true), "sudo"@, seq!["--"@, command] + args),
{
}

/// `c` runs as `user` (see [`runs_as`]) in the user's home, with `command`
/// and `args` after `-u <user> --`, a `PATH` of the system's binary
/// directories, and nothing written to it.
pub open spec fn runs_for_user(c: CommandModel, user: Seq<char>, command: Seq<char>, args: Seq<Seq<char>>) -> bool {
    &&& runs_as(c, user)
    &&& c.args.skip(3) == seq![command] + args
    &&& c.cwd == Some("/home/"@ + user)
    &&& c.env->0.contains(("PATH"@, "/usr/local/bin:/usr/bin:/bin"@))
    &&& c.stdin is None
}

/// Law: a command run for a user runs as that user, in the user's home,
/// with the command and its arguments after `-u <user> --`.
pub proof fn law_run_as_user(user: Seq<char>, command: Seq<char>, args: Seq<Seq<char>>)
    ensures
        runs_for_user(run_as_user_model(user, command, args), user, command, args),
{
    let c = run_as_user_model(user, command, args);
    assert(c.env->0[0] == ("PATH"@, "/usr/local/bin:/usr/bin:/bin"@));
    assert(c.env->0[1] == ("HOME"@, "/home/"@ + user));
    assert(c.env->0[2] == ("USER"@, user));
    assert(c.args.skip(3) =~= seq![command] + args);
}

/// `p` says it installs packages, then runs pacman (through sudo exactly
/// where `sudo` holds) with `-Syu --noconfirm --needed` and `packages`
/// last, in order, stopping the run if pacman fails.
pub open spec fn installs_packages(p: Seq<StepModel>, packages: Seq<Seq<char>>, sudo: bool) -> bool {
    let flags = seq!["-Syu"@, "--noconfirm"@, "--needed"@];
    &&& p.len() == 2
    &&& p[0] == StepModel::Say("Installing pacman packages"@)
    &&& p[1] is Run
    &&& p[1]->Run_failure == Some("Failed to install pacman packages"@)
    &&& sudo ==> runs_plainly(p[1]->Run_command, "sudo"@, seq!["--"@, "pacman"@] + flags + packages)
    &&& !sudo ==> runs_plainly(p[1]->Run_command, "pacman"@, flags + packages)
}

/// Law: installing packages says so, then runs pacman with the packages
/// last, stopping the run if pacman fails.
pub proof fn law_pacman_installs_the_packages(packages: Seq<Seq<char>>, sudo: bool)
    ensures
        installs_packages(pacman_plan(packages, sudo), packages, sudo),
{
    let flags = seq!["-Syu"@, "--noconfirm"@, "--needed"@];
    assert(seq!["--"@, "pacman"@] + (flags + packages) =~= seq!["--"@, "pacman"@] + flags + packages);
}

/// The architectures GRUB is installed for.
pub open spec fn grub_supports(arch: Seq<char>) -> bool {
    ||| arch == "x86"@
    ||| arch == "x86_64"@
    ||| arch == "arm"@
    ||| arch == "aarch64"@
    ||| arch == "riscv32"@
    ||| arch == "riscv64"@
    ||| arch == "loongarch64"@
}

/// GRUB's name for an architecture: its own, except `i386` for `x86` and
/// `arm64` for `aarch64`.
pub open spec fn grub_arch_name(arch: Seq<char>) -> Seq<char> {
    if arch == "x86"@ {
        "i386"@
    } else if arch == "aarch64"@ {
        "arm64"@
    } else {
        arch
    }
}

/// Law: GRUB has a target exactly for the architectures it supports, and
/// the target is GRUB's name for the architecture followed by `-efi`.
pub proof fn law_grub_target(arch: Seq<char>)
    ensures
        grub_target_of(arch) is Some <==> grub_supports(arch),
        grub_target_of(arch) matches Some(t) ==> t == grub_arch_name(arch) + "-efi"@,
{
    reveal_strlit("x86");
    reveal_strlit("x86_64");
    reveal_strlit("arm");
    reveal_strlit("aarch64");
    reveal_strlit("riscv32");
    reveal_strlit("riscv64");
    reveal_strlit("loongarch64");
    reveal_strlit("i386");
    reveal_strlit("arm64");
    reveal_strlit("-efi");
    reveal_strlit("i386-efi");
    reveal_strlit("x86_64-efi");
    reveal_strlit("arm-efi");
    reveal_strlit("arm64-efi");
    reveal_strlit("riscv32-efi");
    reveal_strlit("riscv64-efi");
    reveal_strlit("loongarch64-efi");
    assert("i386-efi"@ =~= "i386"@ + "-efi"@);
    assert("x86_64-efi"@ =~= "x86_64"@ + "-efi"@);
    assert("arm-efi"@ =~= "arm"@ + "-efi"@);
    assert("arm64-efi"@ =~= "arm64"@ + "-efi"@);
    assert("riscv32-efi"@ =~= "riscv32"@ + "-efi"@);
    assert("riscv64-efi"@ =~= "riscv64"@ + "-efi"@);
    assert("loongarch64-efi"@ =~= "loongarch64"@ + "-efi"@);
}

/// `p` installs GRUB's packages with pacman, then, on an architecture
/// GRUB supports, runs `grub-install` for GRUB's EFI target of `arch` with
/// `efi_mountpoint` after `--efi-directory` and `bootloader_id` after
/// `--bootloader-id`, then writes GRUB's configuration with
/// `grub-mkconfig`, each stopping the run if it fails; on another
/// architecture it stops the run instead.
pub open spec fn installs_grub(p: Seq<StepModel>, efi_mountpoint: Seq<char>, bootloader_id: Seq<char>, arch: Seq<char>) -> bool {
    &&& installs_packages(p.take(2), seq!["grub"@, "efibootmgr"@, "os-prober"@], false)
    &&& grub_supports(arch) ==> {
        &&& p.len() == 4
        &&& p[2] is Run
        &&& p[2]->Run_failure == Some("Failed to install grub"@)
        &&& runs_plainly(
            p[2]->Run_command,
            "grub-install"@,
            seq![
                "--target"@,
                grub_arch_name(arch) + "-efi"@,
                "--efi-directory"@,
                efi_mountpoint,
                "--bootloader-id"@,
                bootloader_id,
            ],
        )
        &&& p[3] is Run
        &&& p[3]->Run_failure == Some("Failed to generate grub config"@)
        &&& runs_plainly(p[3]->Run_command, "grub-mkconfig"@, seq!["-o"@, "/boot/grub/grub.cfg"@])
    }
    &&& !grub_supports(arch) ==> p.len() == 3 && p[2] == StepModel::Fail(
        "Unsupported CPU architecture for GRUB."@,
    )
}

/// Law: installing GRUB installs its packages, then runs `grub-install`
/// with the EFI target of the architecture, the EFI mount point and the
/// boot loader id each after its own option, then `grub-mkconfig`; on an
/// architecture GRUB does not support the run stops after the packages.
pub proof fn law_grub_installed(efi_mountpoint: Seq<char>, bootloader_id: Seq<char>, arch: Seq<char>)
    ensures
        installs_grub(grub_plan(efi_mountpoint, bootloader_id, arch), efi_mountpoint, bootloader_id, arch),
{
    law_grub_target(arch);
    let packages = seq!["grub"@, "efibootmgr"@, "os-prober"@];
    law_pacman_installs_the_packages(packages, false);
    let p = grub_plan(efi_mountpoint, bootloader_id, arch);
    assert(p.take(2) =~= pacman_plan(packages, false));
}

/// `p` clones paru's AUR repository into `build_folder` as `username`,
/// builds and installs it there as `username` with `makepkg`, the user's
/// cargo binaries first on `PATH`, then clears paru's cache; no failure of
/// these stops the run.
pub open spec fn builds_paru(p: Seq<StepModel>, username: Seq<char>, build_folder: Seq<char>) -> bool {
    &&& p.len() == 3
    &&& forall|i: int| 0 <= i < 3 ==> (#[trigger] p[i] is Run) && p[i]->Run_failure is None
    &&& runs_for_user(
        p[0]->Run_command,
        username,
        "git"@,
        seq!["clone"@, "https://aur.archlinux.org/paru.git"@, build_folder],
    )
    &&& runs_as(p[1]->Run_command, username)
    &&& p[1]->Run_command.args.skip(3) == seq!["makepkg"@, "-si"@, "--noconfirm"@]
    &&& p[1]->Run_command.cwd == Some(build_folder)
    &&& p[1]->Run_command.env->0.contains(
        ("PATH"@, "/home/"@ + username + "/.cargo/bin:/usr/local/bin:/usr/bin:/bin"@),
    )
    &&& runs_plainly(p[2]->Run_command, "paru"@, seq!["-Scc"@, "--noconfirm"@])
}

/// Law: paru is cloned into its build folder and built there by the user,
/// with the user's cargo binaries on `PATH`; then its cache is cleared.
pub proof fn law_paru_built_by_user(username: Seq<char>, build_folder: Seq<char>)
    ensures
        builds_paru(paru_plan(username, build_folder), username, build_folder),
{
    let p = paru_plan(username, build_folder);
    law_run_as_user(username, "git"@, seq!["clone"@, "https://aur.archlinux.org/paru.git"@, build_folder]);
    let env = p[1]->Run_command.env->0;
    assert(env[0] == ("PATH"@, "/home/"@ + username + "/.cargo/bin:/usr/local/bin:/usr/bin:/bin"@));
    assert(env[1] == ("HOME"@, "/home/"@ + username));
    assert(env[2] == ("USER"@, username));
    assert(p[1]->Run_command.args.skip(3) =~= seq!["makepkg"@, "-si"@, "--noconfirm"@]);
}

/// At index `i` of `p`, `group` is announced, then made with
/// `groupadd <group>`, whose failure does not stop the run.
pub open spec fn creates_group_at(p: Seq<StepModel>, i: int, group: Seq<char>) -> bool {
    &&& 0 <= i && i + 1 < p.len()
    &&& p[i] == StepModel::Say("Creating group "@ + group)
    &&& p[i + 1] is Run
    &&& p[i + 1]->Run_failure is None
    &&& runs_plainly(p[i + 1]->Run_command, "groupadd"@, seq![group])
}

/// Law: the groups are created in their order, one announcement and one
/// `groupadd` each, and nothing else.
pub proof fn law_groups_created_in_order(groups: Seq<Seq<char>>)
    ensures
        groups_plan(groups).len() == 2 * groups.len(),
        forall|k: int| 0 <= k < groups.len() ==> creates_group_at(groups_plan(groups), 2 * k, #[trigger] groups[k]),
    decreases groups.len(),
{
    if groups.len() > 0 {
        let front = groups.drop_last();
        law_groups_created_in_order(front);
        assert forall|k: int| 0 <= k < groups.len() implies creates_group_at(groups_plan(groups), 2 * k, #[trigger] groups[k]) by {
            if k < front.len() {
                assert(front[k] == groups[k]);
                assert(creates_group_at(groups_plan(front), 2 * k, front[k]));
            }
        }
    }
}

/// At index `i` of `p`, `systemctl enable <service>` runs (through sudo
/// exactly where `sudo` holds), stopping the run with a message naming the
/// service if it fails; then the service is reported enabled.
pub open spec fn enables_service_at(p: Seq<StepModel>, i: int, service: Seq<char>, sudo: bool) -> bool {
    &&& 0 <= i && i + 1 < p.len()
    &&& p[i] is Run
    &&& p[i]->Run_failure == Some("Failed to enable "@ + service)
    &&& sudo ==> runs_plainly(p[i]->Run_command, "sudo"@, seq!["--"@, "systemctl"@, "enable"@, service])
    &&& !sudo ==> runs_plainly(p[i]->Run_command, "systemctl"@, seq!["enable"@, service])
    &&& p[i + 1] == StepModel::Say(" * Enabled "@ + service)
}

/// The steps that enable services come in pairs, one pair per service.
proof fn lemma_services_steps_shape(services: Seq<Seq<char>>, sudo: bool)
    ensures
        services_steps(services, sudo).len() == 2 * services.len(),
        forall|k: int| 0 <= k < services.len() ==> enables_service_at(services_steps(services, sudo), 2 * k, #[trigger] services[k], sudo),
    decreases services.len(),
{
    if services.len() > 0 {
        let front = services.drop_last();
        lemma_services_steps_shape(front, sudo);
        assert forall|k: int| 0 <= k < services.len() implies enables_service_at(services_steps(services, sudo), 2 * k, #[trigger] services[k], sudo) by {
            if k < front.len() {
                assert(front[k] == services[k]);
                assert(enables_service_at(services_steps(front, sudo), 2 * k, front[k], sudo));
            } else {
                assert(seq!["--"@, "systemctl"@] + seq!["enable"@, services[k]] =~= seq!["--"@, "systemctl"@, "enable"@, services[k]]);
            }
        }
    }
}

/// Law: enabling services announces it, then enables each service in
/// order, reporting each one enabled; a failure stops the run.
pub proof fn law_services_enabled_in_order(services: Seq<Seq<char>>, sudo: bool)
    ensures
        services_plan(services, sudo).len() == 1 + 2 * services.len(),
        services_plan(services, sudo)[0] == StepModel::Say("Enabling services:"@),
        forall|k: int| 0 <= k < services.len() ==> enables_service_at(services_plan(services, sudo), 1 + 2 * k, #[trigger] services[k], sudo),
{
    lemma_services_steps_shape(services, sudo);
    let p = services_plan(services, sudo);
    let q = services_steps(services, sudo);
    assert forall|k: int| 0 <= k < services.len() implies enables_service_at(p, 1 + 2 * k, #[trigger] services[k], sudo) by {
        assert(enables_service_at(q, 2 * k, services[k], sudo));
        assert(p[1 + 2 * k] == q[2 * k]);
        assert(p[2 + 2 * k] == q[2 * k + 1]);
    }
}

/// `p` uncomments exactly `locales` in `/etc/locale.gen`, then, where there
/// is at least one, makes the first the system language in
/// `/etc/locale.conf`, and does nothing else.
pub open spec fn enables_locales(p: Seq<StepModel>, locales: Seq<Seq<char>>) -> bool {
    &&& p.len() == if locales.len() == 0 { 1int } else { 2int }
    &&& p[0] == StepModel::EditFile {
        path: "/etc/locale.gen"@,
        edit: EditModel::UncommentLocales(locales),
    }
    &&& locales.len() > 0 ==> p[1] == StepModel::WriteFile {
        path: "/etc/locale.conf"@,
        contents: "LANG="@ + locales[0],
    }
}

/// Law: enabling locales uncomments them and names the first one as the
/// system language.
pub proof fn law_locales(locales: Seq<Seq<char>>)
    ensures
        enables_locales(locales_plan(locales), locales),
{
}

} // verus!
