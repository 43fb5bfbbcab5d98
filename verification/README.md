# Nextcore-Tool

Command-line configuration validation, EFI bundle creation and recovery
diagnostics, with the rules behind them verified by Verus.

The library in `src/` works on plain values:

- `efi` validates the structure of an x86_64 UEFI application. `efi::model`
  says what a well-formed image is, `efi::laws` what acceptance means.
- `bundle` decides, action by action, how a bundle is built from a
  configuration and an image: both are validated before anything is created,
  and no existing file is replaced. `bundle::disk` says what each action can do
  to a disk, `bundle::file_laws` what a whole build leaves on it.
- `apls` holds the rules on the options of a VM observation, turns them into a
  request to the runner, and reports the outcome.
- `report` and `text` hold what the commands print.

The program in `app/` reads the command line, touches the disk, parses
configurations with `nextcore_core` and runs observations with
`nextcore_apls`. ARM64e macOS targets an x86 computer; the command-line tool is
build/install orchestration, not the target JIT runtime. A structurally valid
image is no evidence that firmware will boot it.
