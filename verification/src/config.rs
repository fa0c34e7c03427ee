//! Projection of the host application's configuration into the job's input.
use vstd::prelude::*;

verus! {

/// One object of the user's project, as the host configuration records it.
pub struct ObjectConfig {
    /// Where the object's target artifact lives, if the user has set one.
    pub target_path: Option<String>,
}

/// The slice of the host application's configuration that this job reads.
pub struct AppConfig {
    /// The object the user currently has selected, if any.
    pub selected_obj: Option<ObjectConfig>,
    /// The root of the decompilation project on disk, if configured.
    pub project_dir: Option<String>,
}

/// The build-related part of the configuration that a job keeps for itself.
#[derive(Debug, Clone)]
pub struct BuildConfig {
    /// The root of the decompilation project, the child's working directory.
    pub project_dir: Option<String>,
}

/// Raised when no job input can be derived from the application configuration.
#[derive(Debug, Clone, Copy, PartialEq, Eq, Structural)]
pub struct ConfigError;

impl BuildConfig {
    /// The build configuration a job derives from the application configuration.
    pub fn from_config(config: &AppConfig) -> (r: BuildConfig)
        ensures
            r.project_dir == config.project_dir,
    {
        let project_dir = match &config.project_dir {
            Some(dir) => Some(dir.clone()),
            None => None,
        };
        BuildConfig { project_dir }
    }
}

/// The input of one m2c run: the build configuration and the function to
/// decompile. Owned by the job for its whole life.
#[derive(Debug, Clone)]
pub struct RunM2CConfig {
    /// The build-related configuration the job was started with.
    pub build_config: BuildConfig,
    /// The function to decompile, passed verbatim to the child process.
    pub function_name: String,
}

impl RunM2CConfig {
    /// Derives the job input from the application configuration. Reads only
    /// the given configuration value; in particular it never touches the
    /// filesystem.
    pub fn from_config(config: &AppConfig, function_name: String) -> (r: Result<RunM2CConfig, ConfigError>)
        requires
            function_name@.len() > 0,
        ensures
            r matches Ok(c) && c.build_config.project_dir == config.project_dir
                && c.function_name == function_name,
    {
        Ok(RunM2CConfig { build_config: BuildConfig::from_config(config), function_name })
    }

    /// True exactly when the job can be offered to the user: an object is
    /// selected and that object has a target path.
    pub fn is_available(config: &AppConfig) -> (r: bool)
        ensures
            r <==> (config.selected_obj matches Some(obj) && obj.target_path is Some),
    {
        match &config.selected_obj {
            Some(selected_obj) => selected_obj.target_path.is_some(),
            None => false,
        }
    }
}

} // verus!
