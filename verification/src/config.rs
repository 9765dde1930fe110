use vstd::prelude::*;

verus! {

/// The settings of the system to install.
#[derive(Debug, Clone, PartialEq, Eq)]
pub struct Linux {
    /// Username to create.
    pub username: String,
    /// Groups to add the user to.
    pub groups: Vec<String>,
    /// Where to install the bootloader; should be mounted to `/boot/EFI`.
    pub efi_mountpoint: String,
    /// Name of the bootloader.
    pub bootloader_id: String,
    /// Timezone to set.
    pub timezone: String,
    /// Locales to enable; the first one becomes the system language.
    pub locales: Vec<String>,
    /// Dotfiles repository to apply with chezmoi.
    pub dotfiles_repo: Option<String>,
    /// Keymap name in `vconsole.conf`.
    pub vconsole_keymap: String,
}

/// The installer's configuration.
#[derive(Debug, Clone, PartialEq, Eq)]
pub struct Config {
    pub linux: Linux,
}

} // verus!
