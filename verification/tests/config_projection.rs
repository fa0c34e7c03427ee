use m2c_job::config::AppConfig;
use m2c_job::config::BuildConfig;
use m2c_job::config::ObjectConfig;
use m2c_job::config::RunM2CConfig;

#[test]
fn not_available_without_a_selected_object() {
    let config = AppConfig { selected_obj: None, project_dir: Some("/tmp/proj".to_string()) };
    assert!(!RunM2CConfig::is_available(&config));
}

#[test]
fn not_available_without_a_target_path() {
    let config = AppConfig {
        selected_obj: Some(ObjectConfig { target_path: None }),
        project_dir: Some("/tmp/proj".to_string()),
    };
    assert!(!RunM2CConfig::is_available(&config));
}

#[test]
fn available_with_selected_object_and_target_path() {
    let config = AppConfig {
        selected_obj: Some(ObjectConfig { target_path: Some("build/obj.o".to_string()) }),
        project_dir: None,
    };
    assert!(RunM2CConfig::is_available(&config));
}

#[test]
fn from_config_carries_the_input_over() {
    let config = AppConfig {
        selected_obj: Some(ObjectConfig { target_path: Some("build/obj.o".to_string()) }),
        project_dir: Some("/tmp/proj".to_string()),
    };
    let input = RunM2CConfig::from_config(&config, "func_80001234".to_string())
        .expect("the input is always derivable");
    assert_eq!(input.build_config.project_dir.as_deref(), Some("/tmp/proj"));
    assert_eq!(input.function_name, "func_80001234");
}

#[test]
fn from_config_keeps_a_missing_project_dir() {
    let config = AppConfig { selected_obj: None, project_dir: None };
    let input = RunM2CConfig::from_config(&config, "func_80001234".to_string())
        .expect("the input is always derivable");
    assert!(input.build_config.project_dir.is_none());
}

#[test]
fn build_config_projects_the_project_dir() {
    let config = AppConfig { selected_obj: None, project_dir: Some("/tmp/proj".to_string()) };
    let build = BuildConfig::from_config(&config);
    assert_eq!(build.project_dir.as_deref(), Some("/tmp/proj"));
}
