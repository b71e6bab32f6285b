use settings_lib::launch::{is_presence_process, presence_command, process_to_stop, StopError};
use settings_lib::req::{after_app_dir_read, after_root_dir_read, app_image_dir, asset_image_path, asset_image_url, assets_api_url, DirStatus, DirStep};

#[test]
fn presence_process_names() {
    assert!(is_presence_process("discord_presence_activity"));
    assert!(is_presence_process("discord_presence_activity.exe"));
    assert!(!is_presence_process("discord_presence_activity.ex"));
    assert!(!is_presence_process("gui"));
}

#[test]
fn first_runner_is_stopped() {
    let names = vec!["a".to_string(), "discord_presence_activity.exe".to_string(), "discord_presence_activity".to_string()];
    assert_eq!(process_to_stop(&names), Ok(1));
    let none = vec!["a".to_string()];
    assert_eq!(process_to_stop(&none), Err(StopError::NoProcessFound));
    assert_eq!(StopError::NoProcessFound.message(), "No Process Found.");
}

#[test]
fn runner_command() {
    assert_eq!(presence_command(true), "./target/debug/discord_presence_activity.exe");
    assert_eq!(presence_command(false), "discord_presence_activity.exe");
}

#[test]
fn asset_addresses() {
    assert_eq!(assets_api_url("42"), "https://discord.com/api/v9/oauth2/applications/42/assets");
    assert_eq!(asset_image_url("42", "7"), "https://cdn.discordapp.com/app-assets/42/7.png");
    assert_eq!(app_image_dir("42"), "data/_img/42");
    assert_eq!(asset_image_path("42", "7"), "data/_img/42/7.png");
}

#[test]
fn missing_directories_are_created() {
    assert_eq!(after_app_dir_read(DirStatus::Present), DirStep::Ready);
    assert_eq!(after_app_dir_read(DirStatus::NotFound), DirStep::CheckRoot);
    assert_eq!(after_app_dir_read(DirStatus::Failed), DirStep::Fail);
    assert_eq!(after_root_dir_read(DirStatus::Present), DirStep::CreateAppDir);
    assert_eq!(after_root_dir_read(DirStatus::NotFound), DirStep::CreateRootAndAppDir);
    assert_eq!(after_root_dir_read(DirStatus::Failed), DirStep::Fail);
}
