use vstd::prelude::*;

use crate::custom_package::CustomPackage;
use crate::dotfiles::distinct_sources;
use crate::plan::texts;
use crate::text::owned;

verus! {

/// Paru version to install initially, before paru installs itself from the AUR.
pub const PARU_VERSION: &'static str = "v2.0.4";

/// Groups to add the user to when creating.
pub open spec fn extra_groups_names() -> Seq<Seq<char>> {
    seq![
        "docker"@,
        "wheel"@,
        "libvirt"@,
    ]
}

/// Groups to add the user to when creating.
pub fn extra_groups() -> (res: Vec<String>)
    ensures
        res.deep_view() == extra_groups_names(),
{
    let res = texts(
        vec![
            "docker",
            "wheel",
            "libvirt",
        ],
    );
    assert(res.deep_view() =~= extra_groups_names());
    res
}

/// Systemd services to enable.
pub open spec fn services_to_enable_names() -> Seq<Seq<char>> {
    seq![
        "docker.service"@,
    ]
}

/// Systemd services to enable.
pub fn services_to_enable() -> (res: Vec<String>)
    ensures
        res.deep_view() == services_to_enable_names(),
{
    let res = texts(
        vec![
            "docker.service",
        ],
    );
    assert(res.deep_view() =~= services_to_enable_names());
    res
}

/// Packages to install from the AUR with an AUR helper such as paru.
pub open spec fn aur_packages_names() -> Seq<Seq<char>> {
    seq![
        "gruvbox-gtk-theme-git"@,
        "gruvbox-plus-icon-theme-git"@,
        "autojump-rs"@,
        "zen-browser-bin"@,
        "ttf-symbola"@,
        "ttf-ubraille"@,
        "nerd-fonts"@,
        "terraform-ls-bin"@,
        "helm-ls-bin"@,
    ]
}

/// Packages to install from the AUR with an AUR helper such as paru.
pub fn aur_packages() -> (res: Vec<String>)
    ensures
        res.deep_view() == aur_packages_names(),
{
    let res = texts(
        vec![
            "gruvbox-gtk-theme-git",
            "gruvbox-plus-icon-theme-git",
            "autojump-rs",
            "zen-browser-bin",
            "ttf-symbola",
            "ttf-ubraille",
            "nerd-fonts",
            "terraform-ls-bin",
            "helm-ls-bin",
        ],
    );
    assert(res.deep_view() =~= aur_packages_names());
    res
}

/// Packages to install from the Arch repositories with pacman.
pub open spec fn pacman_packages_names() -> Seq<Seq<char>> {
    seq![
        "neovim"@,
        "bat"@,
        "kitty"@,
        "starship"@,
        "docker"@,
        "lsd"@,
        "mise"@,
        "usage"@,
        "kubectl"@,
        "sd"@,
        "fd"@,
        "ripgrep"@,
        "tig"@,
        "thunderbird"@,
        "virt-manager"@,
        "transmission-gtk"@,
        "zsh"@,
        "zsh-autosuggestions"@,
        "zsh-syntax-highlighting"@,
        "ttf-fira-code"@,
        "ttf-font-awesome"@,
        "ttf-iosevka-nerd"@,
        "ttf-ubuntu-font-family"@,
        "otf-font-awesome"@,
        "opendesktop-fonts"@,
        "bluez"@,
        "bluez-libs"@,
        "bluez-utils"@,
        "pavucontrol"@,
        "playerctl"@,
        "blueman"@,
        "acpi"@,
        "base-devel"@,
        "libldac"@,
        "noto-fonts-emoji"@,
        "gnome-keyring"@,
        "linux-headers"@,
        "tk"@,
        "os-prober"@,
        "wget"@,
        "zip"@,
        "unzip"@,
        "feh"@,
        "curl"@,
        "mpv"@,
        "java-runtime-common"@,
        "man-db"@,
        "kvantum"@,
        "rust-analyzer"@,
        "lua-language-server"@,
        "pyright"@,
        "typescript-language-server"@,
        "vue-language-server"@,
        "vue-typescript-plugin"@,
        "ruff"@,
        "yaml-language-server"@,
        "texlab"@,
        "gopls"@,
        "marksman"@,
    ]
}

/// Packages to install from the Arch repositories with pacman.
pub fn pacman_packages() -> (res: Vec<String>)
    ensures
        res.deep_view() == pacman_packages_names(),
{
    let res = texts(
        vec![
            "neovim",
            "bat",
            "kitty",
            "starship",
            "docker",
            "lsd",
            "mise",
            "usage",
            "kubectl",
            "sd",
            "fd",
            "ripgrep",
            "tig",
            "thunderbird",
            "virt-manager",
            "transmission-gtk",
            "zsh",
            "zsh-autosuggestions",
            "zsh-syntax-highlighting",
            "ttf-fira-code",
            "ttf-font-awesome",
            "ttf-iosevka-nerd",
            "ttf-ubuntu-font-family",
            "otf-font-awesome",
            "opendesktop-fonts",
            "bluez",
            "bluez-libs",
            "bluez-utils",
            "pavucontrol",
            "playerctl",
            "blueman",
            "acpi",
            "base-devel",
            "libldac",
            "noto-fonts-emoji",
            "gnome-keyring",
            "linux-headers",
            "tk",
            "os-prober",
            "wget",
            "zip",
            "unzip",
            "feh",
            "curl",
            "mpv",
            "java-runtime-common",
            "man-db",
            "kvantum",
            "rust-analyzer",
            "lua-language-server",
            "pyright",
            "typescript-language-server",
            "vue-language-server",
            "vue-typescript-plugin",
            "ruff",
            "yaml-language-server",
            "texlab",
            "gopls",
            "marksman",
        ],
    );
    assert(res.deep_view() =~= pacman_packages_names());
    res
}

/// Dotfiles to copy: each entry maps a file or directory of the shipped dotfiles to where it goes.
pub open spec fn dotfiles_mapping_entries() -> Seq<(Seq<char>, Seq<char>)> {
    seq![
        (".zshrc"@, "~/.zshrc"@),
        (".zshenv"@, "~/.zshenv"@),
        ("kitty"@, "~/.config/kitty"@),
        (".zfunc"@, "~/.zfunc"@),
        ("hypr"@, "~/.config/hypr"@),
        ("nvim"@, "~/.config/nvim"@),
        ("wallpapers"@, "~/Pictures/wallpapers"@),
        (".gitconfig"@, "~/.gitconfig"@),
    ]
}

/// Dotfiles to copy: each entry maps a file or directory of the shipped dotfiles to where it goes.
pub fn dotfiles_mapping() -> (res: Vec<(String, String)>)
    ensures
        res.deep_view() == dotfiles_mapping_entries(),
        distinct_sources(res.deep_view()),
{
    let mut res: Vec<(String, String)> = Vec::new();
    res.push((owned(".zshrc"), owned("~/.zshrc")));
    res.push((owned(".zshenv"), owned("~/.zshenv")));
    res.push((owned("kitty"), owned("~/.config/kitty")));
    res.push((owned(".zfunc"), owned("~/.zfunc")));
    res.push((owned("hypr"), owned("~/.config/hypr")));
    res.push((owned("nvim"), owned("~/.config/nvim")));
    res.push((owned("wallpapers"), owned("~/Pictures/wallpapers")));
    res.push((owned(".gitconfig"), owned("~/.gitconfig")));
    assert(res.deep_view() =~= dotfiles_mapping_entries());
    proof {
        reveal_strlit(".zshrc");
        reveal_strlit(".zshenv");
        reveal_strlit("kitty");
        reveal_strlit(".zfunc");
        reveal_strlit("hypr");
        reveal_strlit("nvim");
        reveal_strlit("wallpapers");
        reveal_strlit(".gitconfig");
        let m = dotfiles_mapping_entries();
        assert forall|i: int, j: int| 0 <= i < j < m.len() implies (#[trigger] m[i]).0 != (
        #[trigger] m[j]).0 by {
            if m[i].0 == m[j].0 {
                assert(m[i].0.len() == m[j].0.len());
                assert(m[i].0[0] == m[j].0[0]);
                assert(m[i].0[1] == m[j].0[1]);
                assert(m[i].0[2] == m[j].0[2]);
            }
        }
    }
    res
}

/// Custom packages that are neither in the Arch repositories nor in the AUR:
/// oh-my-zsh, skipped where `~/.oh-my-zsh` exists, and the AWS command line
/// tools, skipped where `/usr/local/bin/aws` exists.
pub fn custom_packages() -> (res: Vec<CustomPackage>)
    ensures
        res@.len() == 2,
        res@[0] matches CustomPackage::Git { repo, git_ref, build_command, skip_if_exists } && repo@
            == "https://github.com/robbyrussell/oh-my-zsh.git"@ && git_ref is None
            && build_command@ == "sh ./tools/install.sh --unattended"@
            && skip_if_exists.deep_view() == Some("~/.oh-my-zsh"@),
        res@[1] matches CustomPackage::HttpFile { url, install_command, skip_if_exists } && url@
            == "https://awscli.amazonaws.com/awscli-exe-linux-x86_64.zip"@ && install_command@
            == "unzip awscli-exe-linux-x86_64.zip && sudo ./aws/install"@
            && skip_if_exists.deep_view() == Some("/usr/local/bin/aws"@),
{
    let mut res: Vec<CustomPackage> = Vec::new();
    res.push(
        CustomPackage::Git {
            repo: owned("https://github.com/robbyrussell/oh-my-zsh.git"),
            git_ref: None,
            build_command: owned("sh ./tools/install.sh --unattended"),
            skip_if_exists: Some(owned("~/.oh-my-zsh")),
        },
    );
    res.push(
        CustomPackage::HttpFile {
            url: owned("https://awscli.amazonaws.com/awscli-exe-linux-x86_64.zip"),
            install_command: owned("unzip awscli-exe-linux-x86_64.zip && sudo ./aws/install"),
            skip_if_exists: Some(owned("/usr/local/bin/aws")),
        },
    );
    res
}

} // verus!
