//! What differs from one host platform to the next: the way to scan the
//! code, the place of the range value and of the label in the constructor's
//! arguments, and the names by which the host is known.

use vstd::prelude::*;
use vstd::string::*;
use crate::discovery::ScanMode;
use crate::variable_width::{Bitness, PrologueRule};

verus! {

/// The operating system of the host.
#[derive(Clone, Copy, Debug, PartialEq, Eq, Structural)]
pub enum Os {
    Android,
    Linux,
    Windows,
}

/// The instruction set of the host.
#[derive(Clone, Copy, Debug, PartialEq, Eq, Structural)]
pub enum Arch {
    Aarch64,
    X86,
    X86_64,
}

/// The file name of the game's library on a phone.
pub const GAME_LIBRARY: &'static str = "libminecraftpe.so";

/// The package of the launcher that logs under its own tag.
pub const LEVI_LAUNCHER_PACKAGE: &'static str = "org.levimc.launcher";

/// The directory, below the shared storage of a phone, that games keep
/// their files in.
pub const GAMES_SUBDIR: &'static str = "/games";

/// The distance from the range value to the label behind it.
pub const LABEL_AFTER_RANGE: usize = 4;

pub open spec fn scan_mode_spec(os: Os, arch: Arch) -> ScanMode {
    match arch {
        Arch::Aarch64 => ScanMode::FixedWidth,
        Arch::X86 => ScanMode::VariableWidth {
            bitness: Bitness::Bits32,
            rule: PrologueRule::PushAfterReturn,
        },
        Arch::X86_64 => ScanMode::VariableWidth {
            bitness: Bitness::Bits64,
            rule: if os is Windows {
                PrologueRule::MoveAfterReturn
            } else {
                PrologueRule::PushAfterReturn
            },
        },
    }
}

/// The way to scan the game's code on a host: by words on `Aarch64`, by
/// decoding elsewhere, where a function opens with a move on 64-bit
/// Windows and with a push on every other host.
pub fn scan_mode(os: Os, arch: Arch) -> (mode: ScanMode)
    ensures
        mode == scan_mode_spec(os, arch),
{
    match arch {
        Arch::Aarch64 => ScanMode::FixedWidth,
        Arch::X86 => ScanMode::VariableWidth {
            bitness: Bitness::Bits32,
            rule: PrologueRule::PushAfterReturn,
        },
        Arch::X86_64 => {
            let rule: PrologueRule = match os {
                Os::Windows => PrologueRule::MoveAfterReturn,
                _ => PrologueRule::PushAfterReturn,
            };
            ScanMode::VariableWidth { bitness: Bitness::Bits64, rule }
        },
    }
}

/// The offset of the range value in the constructor's second argument.
pub fn range_offset(os: Os) -> (offset: usize)
    ensures
        offset == if os is Windows {
            0x54usize
        } else {
            0x64usize
        },
{
    match os {
        Os::Windows => 0x54,
        _ => 0x64,
    }
}

/// The offset of the name in the label that the constructor is handed: the
/// name begins one byte into the label on Android and Linux, and at its
/// start on Windows.
pub fn label_offset(os: Os) -> (offset: usize)
    ensures
        offset == if os is Windows {
            0usize
        } else {
            1usize
        },
{
    match os {
        Os::Windows => 0,
        _ => 1,
    }
}

/// Whether the package that hosts the game is the launcher that logs under
/// its own tag.
pub fn is_levi_launcher(package: &String) -> (yes: bool)
    ensures
        yes == (package@ == LEVI_LAUNCHER_PACKAGE@),
{
    let launcher: String = String::from_str(LEVI_LAUNCHER_PACKAGE);
    *package == launcher
}

/// The directory of games below the shared storage `storage`.
pub fn games_directory(storage: &str) -> (dir: String)
    ensures
        dir@ == storage@ + GAMES_SUBDIR@,
{
    let mut dir: String = String::from_str(storage);
    dir.append(GAMES_SUBDIR);
    dir
}

} // verus!
