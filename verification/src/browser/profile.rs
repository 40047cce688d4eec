//! Where the profile, which holds the login, is kept.

use crate::browser::chrome::Platform;
use vstd::prelude::*;

verus! {

/// Where the profile lies below the platform's data directory.
pub const PROFILE_SUBDIR: &'static str = "k-ruoka-mcp/profile";

/// The permission bits of the profile directory: its owner's alone.
pub const PRIVATE_MODE: u32 = 0o700;

/// Whether a directory with this mode is open to anyone but its owner.
pub fn is_exposed(mode: u32) -> (r: bool)
    ensures
        r == (mode & 0o077 != 0),
{
    mode & 0o077 != 0
}

/// A directory of [`PRIVATE_MODE`] is open to nobody else, and to its owner in full.
pub proof fn private_mode_is_private()
    ensures
        PRIVATE_MODE & 0o077 == 0,
        PRIVATE_MODE & 0o700 == 0o700,
{
    assert(0o700u32 & 0o077 == 0) by (bit_vector);
    assert(0o700u32 & 0o700 == 0o700) by (bit_vector);
}

/// What the platform's data directory is told from.
#[derive(Debug)]
pub enum DataDir {
    /// This variable holds it.
    Variable(&'static str),
    /// It lies at this place below what this variable holds.
    Below { variable: &'static str, place: &'static str },
}

/// The variable that holds the platform's data directory, where it is set.
pub open spec fn data_variable(platform: Platform) -> Seq<char> {
    match platform {
        Platform::Windows => "LOCALAPPDATA"@,
        _ => "XDG_DATA_HOME"@,
    }
}

/// The variable that holds the user's own directory.
pub open spec fn home_variable(platform: Platform) -> Seq<char> {
    match platform {
        Platform::Windows => "USERPROFILE"@,
        _ => "HOME"@,
    }
}

/// Where the data directory lies below the user's own.
pub open spec fn data_place(platform: Platform) -> Seq<char> {
    match platform {
        Platform::Linux => ".local/share"@,
        Platform::MacOs => "Library/Application Support"@,
        Platform::Windows => "AppData/Local"@,
    }
}

/// What is said where neither variable is set.
pub open spec fn no_data_dir(platform: Platform) -> Seq<char> {
    match platform {
        Platform::Linux => "neither XDG_DATA_HOME nor HOME is set"@,
        Platform::MacOs => "HOME is not set"@,
        Platform::Windows => "neither LOCALAPPDATA nor USERPROFILE is set"@,
    }
}

/// The variable that holds the platform's data directory, where it is set.
pub fn data_dir_variable(platform: Platform) -> (r: &'static str)
    ensures
        r@ == data_variable(platform),
{
    match platform {
        Platform::Windows => "LOCALAPPDATA",
        _ => "XDG_DATA_HOME",
    }
}

/// The variable that holds the user's own directory.
pub fn home_dir_variable(platform: Platform) -> (r: &'static str)
    ensures
        r@ == home_variable(platform),
{
    match platform {
        Platform::Windows => "USERPROFILE",
        _ => "HOME",
    }
}

/// What to tell the platform's data directory from, given which of the two variables are
/// set.
pub fn platform_data_dir(platform: Platform, data_set: bool, home_set: bool) -> (r: Result<
    DataDir,
    &'static str,
>)
    ensures
        data_set ==> (r matches Ok(DataDir::Variable(v)) && v@ == data_variable(platform)),
        !data_set && home_set ==> (r matches Ok(DataDir::Below { variable, place }) && variable@
            == home_variable(platform) && place@ == data_place(platform)),
        !data_set && !home_set ==> (r matches Err(m) && m@ == no_data_dir(platform)),
{
    if data_set {
        return Ok(DataDir::Variable(data_dir_variable(platform)));
    }
    if home_set {
        let place = match platform {
            Platform::Linux => ".local/share",
            Platform::MacOs => "Library/Application Support",
            Platform::Windows => "AppData/Local",
        };
        return Ok(DataDir::Below { variable: home_dir_variable(platform), place });
    }
    Err(
        match platform {
            Platform::Linux => "neither XDG_DATA_HOME nor HOME is set",
            Platform::MacOs => "HOME is not set",
            Platform::Windows => "neither LOCALAPPDATA nor USERPROFILE is set",
        },
    )
}

/// Which variables tell the data directory on each platform, and where it lies below the
/// user's own otherwise. What is said where neither is set names the variables.
pub proof fn data_directories_are_the_platforms(platform: Platform)
    ensures
        platform is Linux ==> data_variable(platform) == "XDG_DATA_HOME"@ && home_variable(platform)
            == "HOME"@ && data_place(platform) == ".local/share"@ && no_data_dir(platform)
            == "neither XDG_DATA_HOME nor HOME is set"@,
        platform is MacOs ==> data_variable(platform) == "XDG_DATA_HOME"@ && home_variable(platform)
            == "HOME"@ && data_place(platform) == "Library/Application Support"@ && no_data_dir(
            platform,
        ) == "HOME is not set"@,
        platform is Windows ==> data_variable(platform) == "LOCALAPPDATA"@ && home_variable(
            platform,
        ) == "USERPROFILE"@ && data_place(platform) == "AppData/Local"@ && no_data_dir(platform)
            == "neither LOCALAPPDATA nor USERPROFILE is set"@,
{
}

} // verus!
