use vstd::prelude::*;

verus! {

/// The default name of the file that holds the tasks of a project.
pub const NUR_FILE: &'static str = "nurfile";

/// The default task file name with the nushell extension.
pub const NUR_FILE_DOT_NU: &'static str = "nurfile.nu";

/// The default name of the task file that holds local additions.
pub const NUR_LOCAL_FILE: &'static str = "nurfile.local";

/// The local task file name with the nushell extension.
pub const NUR_LOCAL_FILE_DOT_NU: &'static str = "nurfile.local.nu";

/// The directory, inside the project, that holds nur's own configuration.
pub const NUR_CONFIG_DIR: &'static str = ".nur";

/// The directory, inside the configuration directory, that holds scripts.
pub const NUR_CONFIG_LIB_PATH: &'static str = "scripts";

/// The environment file inside the configuration directory.
pub const NUR_CONFIG_ENV_FILENAME: &'static str = "env.nu";

/// The configuration file inside the configuration directory.
pub const NUR_CONFIG_CONFIG_FILENAME: &'static str = "config.nu";

/// The dotenv file loaded from the project directory when no other is named.
pub const NUR_DOTENV_FILE: &'static str = ".env";

} // verus!
