use linux_setup::consts::{
    aur_packages, custom_packages, dotfiles_mapping, extra_groups, pacman_packages,
    services_to_enable, PARU_VERSION,
};
use linux_setup::custom_package::CustomPackage;
use linux_setup::dotfiles::Dotfiles;
use linux_setup::expand::ExpandError;
use linux_setup::plan::{CommandSpec, Step};

fn strings(items: &[&str]) -> Vec<String> {
    items.iter().map(|s| s.to_string()).collect()
}

fn pair(a: &str, b: &str) -> (String, String) {
    (a.to_string(), b.to_string())
}

fn git_package(skip: Option<&str>, git_ref: Option<&str>) -> CustomPackage {
    CustomPackage::Git {
        repo: "https://example.com/r.git".to_string(),
        git_ref: git_ref.map(|r| r.to_string()),
        build_command: "make install".to_string(),
        skip_if_exists: skip.map(|s| s.to_string()),
    }
}

#[test]
fn constants() {
    assert_eq!(PARU_VERSION, "v2.0.4");
    assert_eq!(extra_groups(), strings(&["docker", "wheel", "libvirt"]));
    assert_eq!(services_to_enable(), strings(&["docker.service"]));
    assert_eq!(aur_packages().len(), 9);
    assert_eq!(pacman_packages().len(), 59);
    assert_eq!(pacman_packages()[0], "neovim");
    assert_eq!(pacman_packages()[58], "marksman");
    let mapping = dotfiles_mapping();
    assert_eq!(mapping.len(), 8);
    assert_eq!(mapping[4], pair("hypr", "~/.config/hypr"));
}

#[test]
fn custom_package_constants() {
    let pkgs = custom_packages();
    assert_eq!(pkgs.len(), 2);
    assert_eq!(
        pkgs[0],
        CustomPackage::Git {
            repo: "https://github.com/robbyrussell/oh-my-zsh.git".to_string(),
            git_ref: None,
            build_command: "sh ./tools/install.sh --unattended".to_string(),
            skip_if_exists: Some("~/.oh-my-zsh".to_string()),
        }
    );
}

#[test]
fn skipped_package_only_says_so() {
    let plan = git_package(None, None).install("/tmp/build_abcde", true);
    assert_eq!(plan.steps, vec![Step::Say("Skipping custom package installation".to_string())]);
}

#[test]
fn git_package_plan() {
    let plan = git_package(None, Some("v1")).install("/tmp/build_abcde", false);
    assert_eq!(plan.steps.len(), 5);
    assert_eq!(plan.steps[0], Step::Say("Installing custom package from git URL: https://example.com/r.git".to_string()));
    assert_eq!(
        plan.steps[1],
        Step::Run {
            command: CommandSpec {
                program: "git".to_string(),
                args: strings(&["clone", "https://example.com/r.git", "/tmp/build_abcde"]),
                env: None,
                cwd: None,
                stdin: None,
            },
            failure: None,
        }
    );
    assert_eq!(
        plan.steps[3],
        Step::Run {
            command: CommandSpec {
                program: "bash".to_string(),
                args: strings(&["-c", "make install"]),
                env: None,
                cwd: Some("/tmp/build_abcde".to_string()),
                stdin: None,
            },
            failure: Some("Failed to run build command".to_string()),
        }
    );
    assert_eq!(
        plan.steps[2],
        Step::Run {
            command: CommandSpec {
                program: "git".to_string(),
                args: strings(&["checkout", "v1"]),
                env: None,
                cwd: Some("/tmp/build_abcde".to_string()),
                stdin: None,
            },
            failure: None,
        }
    );
    assert_eq!(plan.steps[4], Step::RemoveDir("/tmp/build_abcde".to_string()));
    assert_eq!(git_package(None, None).install("/tmp/b", false).steps.len(), 4);
}

#[test]
fn http_package_plan() {
    let pkg = CustomPackage::HttpFile {
        url: "https://example.com/f.zip".to_string(),
        install_command: "unzip f.zip".to_string(),
        skip_if_exists: None,
    };
    let plan = pkg.install("/tmp/build_x", false);
    assert_eq!(plan.steps.len(), 5);
    assert_eq!(plan.steps[1], Step::CreateDir("/tmp/build_x".to_string()));
    assert_eq!(
        plan.steps[2],
        Step::Run {
            command: CommandSpec {
                program: "wget".to_string(),
                args: strings(&["https://example.com/f.zip"]),
                env: None,
                cwd: Some("/tmp/build_x".to_string()),
                stdin: None,
            },
            failure: Some("Failed to download a file".to_string()),
        }
    );
    assert!(matches!(&plan.steps[3], Step::Run { failure: Some(f), .. } if f == "Failed to run install command"));
}

#[test]
fn build_dirs_are_random() {
    let dir = CustomPackage::new_build_dir();
    assert!(dir.starts_with("/tmp/build_"));
    let name = &dir["/tmp/build_".len()..];
    assert_eq!(name.len(), 5);
    assert!(name.chars().all(|c| c.is_ascii_alphanumeric()));
}

#[test]
fn skip_paths() {
    assert_eq!(git_package(None, None).skip_check_path(), Ok(None));
    assert_eq!(
        git_package(Some("/usr/local/bin/aws"), None).skip_check_path(),
        Ok(Some("/usr/local/bin/aws".to_string()))
    );
}

#[test]
fn skip_path_with_tilde_is_expanded() {
    let expanded = git_package(Some("~/.oh-my-zsh"), None).skip_check_path().unwrap().unwrap();
    assert!(!expanded.starts_with('~'));
    assert!(expanded.ends_with("/.oh-my-zsh"));
}

#[test]
fn skip_path_with_unknown_variable_fails() {
    let res = git_package(Some("$LINUX_SETUP_SURELY_UNSET_VARIABLE/x"), None).skip_check_path();
    let err = res.unwrap_err();
    assert!(err.message.contains("LINUX_SETUP_SURELY_UNSET_VARIABLE"));
}

#[test]
fn dotfile_matches() {
    let mapping = vec![pair("hypr", "/home/u/.config/hypr"), pair(".zshrc", "/home/u/.zshrc")];
    let files = strings(&[".zshrc", "hypr/hyprland.conf", "kitty/kitty.conf", "hypr/hyprpaper.conf"]);
    assert_eq!(
        Dotfiles::matches(&mapping, &files),
        vec![
            pair("hypr/hyprland.conf", "/home/u/.config/"),
            pair("hypr/hyprpaper.conf", "/home/u/.config/"),
            pair(".zshrc", "/home/u/"),
        ]
    );
}

#[test]
fn dotfile_target_without_file_suffix_is_kept() {
    let mapping = vec![pair("wallpapers", "/home/u/Pictures/wallpapers"), pair("kitty", "/opt/kitty-conf")];
    let files = strings(&["wallpapers/a.png", "kitty/kitty.conf"]);
    assert_eq!(
        Dotfiles::matches(&mapping, &files),
        vec![pair("wallpapers/a.png", "/home/u/Pictures/"), pair("kitty/kitty.conf", "/opt/kitty-conf")]
    );
}

#[test]
fn dotfile_jobs_expand_targets() {
    let mapping = vec![pair("nvim", "~/.config/nvim"), pair(".gitconfig", "/etc/skel/.gitconfig")];
    let files = strings(&["nvim/init.lua", ".gitconfig"]);
    let (jobs, err) = Dotfiles::copy_jobs(&mapping, &files);
    assert_eq!(err, None);
    assert_eq!(jobs.len(), 2);
    assert_eq!(jobs[0].0, "nvim/init.lua");
    assert!(!jobs[0].1.starts_with('~'));
    assert!(jobs[0].1.ends_with("/.config/"));
    assert_eq!(jobs[1], pair(".gitconfig", "/etc/skel/"));
}

#[test]
fn dotfile_jobs_stop_at_unexpandable_target() {
    let mapping = vec![pair("a", "/x/a"), pair("b", "$LINUX_SETUP_SURELY_UNSET_VARIABLE/b"), pair("c", "/x/c")];
    let files = strings(&["a", "b", "c"]);
    let (jobs, err) = Dotfiles::copy_jobs(&mapping, &files);
    assert_eq!(jobs, vec![pair("a", "/x/")]);
    assert!(err.is_some());
}

#[test]
fn skip_probe_hands_on_the_expansion() {
    assert_eq!(CustomPackage::skip_probe(None), Ok(None));
    assert_eq!(CustomPackage::skip_probe(Some(Ok("/x".to_string()))), Ok(Some("/x".to_string())));
    let e = ExpandError { message: "boom".to_string() };
    assert_eq!(CustomPackage::skip_probe(Some(Err(e.clone()))), Err(e));
}

#[test]
fn jobs_from_stops_at_first_failed_expansion() {
    let found = vec![pair("a", "~/a"), pair("b", "$X/b"), pair("c", "/c")];
    let e = ExpandError { message: "no X".to_string() };
    let (jobs, err) = Dotfiles::jobs_from(&found, &vec![Ok("/home/u/a".to_string()), Err(e.clone())]);
    assert_eq!(jobs, vec![pair("a", "/home/u/a")]);
    assert_eq!(err, Some(e));
    let (jobs, err) = Dotfiles::jobs_from(&found, &vec![Ok("/1".to_string()), Ok("/2".to_string()), Ok("/c".to_string())]);
    assert_eq!(jobs, vec![pair("a", "/1"), pair("b", "/2"), pair("c", "/c")]);
    assert_eq!(err, None);
}

#[test]
fn distinct_sources_check() {
    assert!(Dotfiles::has_distinct_sources(&dotfiles_mapping()));
    assert!(!Dotfiles::has_distinct_sources(&vec![pair("a", "/x"), pair("b", "/y"), pair("a", "/z")]));
    assert!(Dotfiles::has_distinct_sources(&Vec::new()));
}
