# linux_setup

Automated configuration of a fresh Arch Linux installation (UEFI), with the
decisions of the installer verified by Verus.

- `src/` is the verified library. It computes *plans*: the sequences of
  commands, file writes and file edits that set the system up
  (`setup::chroot_install`, `setup::user_install`, the steps in `utils`,
  `wm::hypr::install_hyprland`, `custom_package::CustomPackage::install`),
  the text edits of `/etc/locale.gen` and `/etc/sudoers` (`edits`), where the
  shipped dotfiles go (`dotfiles`), and how a run goes from step to step and where it stops
  (`plan::Plan::start`, `plan::Plan::after`, `plan::run_outcome`).
- `app/` is the program: it reads `Config.toml`, prompts for passwords,
  performs the plans (starting processes, writing files) and embeds the
  dotfiles.
- `tests/` runs the library on concrete inputs.
