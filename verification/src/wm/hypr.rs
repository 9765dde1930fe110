use vstd::prelude::*;

use crate::plan::{texts, Plan, StepModel};
use crate::utils::{
    aur_plan, enable_services, install_aur_packages, install_pacman_packages, pacman_plan,
    services_plan,
};

verus! {

/// The packages of the Hyprland desktop, from the Arch repositories.
pub open spec fn hyprland_package_names() -> Seq<Seq<char>> {
    seq![
        "hyprland"@,
        "hyprpaper"@,
        "brightnessctl"@,
        "waybar"@,
        "swaync"@,
        "wofi"@,
        "sddm"@,
        "otf-font-awesome"@,
        "qt6"@,
        "qt6ct"@,
        "xdg-desktop-portal-hyprland"@,
        "pipewire"@,
        "pipewire-v4l2"@,
        "pipewire-pulse"@,
        "wireplumber"@,
        "grim"@,
        "slurp"@,
        "wl-clipboard"@,
        "gtk-engine-murrine"@,
        "network-manager-applet"@,
        "noto-fonts"@,
        "noto-fonts-cjk"@,
        "noto-fonts-emoji"@,
        "noto-fonts-extra"@,
        "hyprlock"@,
        "udiskie"@,
        "cpio"@,
        "uwsm"@,
    ]
}

/// The packages of the Hyprland desktop that come from the AUR.
pub open spec fn paru_package_names() -> Seq<Seq<char>> {
    seq!["qt6gtk2"@]
}

/// The packages of the Hyprland desktop, from the Arch repositories.
pub fn hyprland_packages() -> (res: Vec<String>)
    ensures
        res.deep_view() == hyprland_package_names(),
{
    let res = texts(
        vec![
            "hyprland",
            "hyprpaper",
            "brightnessctl",
            "waybar",
            "swaync",
            "wofi",
            "sddm",
            "otf-font-awesome",
            "qt6",
            "qt6ct",
            "xdg-desktop-portal-hyprland",
            "pipewire",
            "pipewire-v4l2",
            "pipewire-pulse",
            "wireplumber",
            "grim",
            "slurp",
            "wl-clipboard",
            "gtk-engine-murrine",
            "network-manager-applet",
            "noto-fonts",
            "noto-fonts-cjk",
            "noto-fonts-emoji",
            "noto-fonts-extra",
            "hyprlock",
            "udiskie",
            "cpio",
            "uwsm",
        ],
    );
    assert(res.deep_view() =~= hyprland_package_names());
    res
}

/// The packages of the Hyprland desktop that come from the AUR.
pub fn paru_packages() -> (res: Vec<String>)
    ensures
        res.deep_view() == paru_package_names(),
{
    let res = texts(vec!["qt6gtk2"]);
    assert(res.deep_view() =~= paru_package_names());
    res
}

/// Installing the Hyprland desktop: its packages through sudo, its AUR
/// packages, and the SDDM display manager enabled through sudo.
pub open spec fn hyprland_plan() -> Seq<StepModel> {
    pacman_plan(hyprland_package_names(), true) + aur_plan(paru_package_names()) + services_plan(
        seq!["sddm.service"@],
        true,
    )
}

/// The steps that install the Hyprland desktop.
pub fn install_hyprland() -> (plan: Plan)
    ensures
        plan@ == hyprland_plan(),
{
    let mut plan = install_pacman_packages(&hyprland_packages(), true);
    plan.append(install_aur_packages(&paru_packages()));
    let services = texts(vec!["sddm.service"]);
    assert(services.deep_view() =~= seq!["sddm.service"@]);
    plan.append(enable_services(&services, true));
    plan
}

} // verus!
