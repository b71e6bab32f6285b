//! Discord application assets: their description and where they are fetched and kept.
use vstd::prelude::*;

verus! {

/// Image format in which asset images are fetched and stored.
pub const FILE_EXT: &'static str = "png";

/// Directory under which fetched images are kept, one subdirectory per application.
pub const IMAGE_ROOT_DIR: &'static str = "data/_img";

/// An image asset of a Discord application: its id, its type number and its name.
pub struct DiscordAsset {
    pub id: String,
    pub asset_type: u8,
    pub name: String,
}

/// The address that lists the assets of the application `appid`.
pub fn assets_api_url(appid: &str) -> (r: String)
    ensures
        r@ == "https://discord.com/api/v9/oauth2/applications/"@ + appid@ + "/assets"@,
{
    let mut r = "https://discord.com/api/v9/oauth2/applications/".to_owned();
    r.append(appid);
    r.append("/assets");
    r
}

/// The address of the image of asset `asset_id` of application `appid`.
pub fn asset_image_url(appid: &str, asset_id: &str) -> (r: String)
    ensures
        r@ == "https://cdn.discordapp.com/app-assets/"@ + appid@ + "/"@ + asset_id@ + "."@
            + FILE_EXT@,
{
    let mut r = "https://cdn.discordapp.com/app-assets/".to_owned();
    r.append(appid);
    r.append("/");
    r.append(asset_id);
    r.append(".");
    r.append(FILE_EXT);
    r
}

/// The directory that holds the images of application `appid`.
pub fn app_image_dir(appid: &str) -> (r: String)
    ensures
        r@ == IMAGE_ROOT_DIR@ + "/"@ + appid@,
{
    let mut r = IMAGE_ROOT_DIR.to_owned();
    r.append("/");
    r.append(appid);
    r
}

/// The file that holds the image of asset `asset_id` of application `appid`.
pub fn asset_image_path(appid: &str, asset_id: &str) -> (r: String)
    ensures
        r@ == IMAGE_ROOT_DIR@ + "/"@ + appid@ + "/"@ + asset_id@ + "."@ + FILE_EXT@,
{
    let mut r = app_image_dir(appid);
    r.append("/");
    r.append(asset_id);
    r.append(".");
    r.append(FILE_EXT);
    r
}

/// What reading a directory found.
#[derive(PartialEq, Eq, Structural, Clone, Copy, Debug)]
pub enum DirStatus {
    /// The directory exists.
    Present,
    /// The read failed because the path does not exist.
    NotFound,
    /// The read failed for another reason.
    Failed,
}

/// The next step in making sure that an application's image directory exists.
#[derive(PartialEq, Eq, Structural, Clone, Copy, Debug)]
pub enum DirStep {
    /// The directory is there; write the image.
    Ready,
    /// The application's directory is missing; read the image root next.
    CheckRoot,
    /// Create the application's directory, then write the image.
    CreateAppDir,
    /// Create the image root, then the application's directory, then write the image.
    CreateRootAndAppDir,
    /// A read failed for another reason than a missing path: give up.
    Fail,
}

/// The step after reading the application's image directory.
pub fn after_app_dir_read(status: DirStatus) -> (r: DirStep)
    ensures
        r == (match status {
            DirStatus::Present => DirStep::Ready,
            DirStatus::NotFound => DirStep::CheckRoot,
            DirStatus::Failed => DirStep::Fail,
        }),
{
    match status {
        DirStatus::Present => DirStep::Ready,
        DirStatus::NotFound => DirStep::CheckRoot,
        DirStatus::Failed => DirStep::Fail,
    }
}

/// The step after reading the image root, once the application's directory was found
/// missing.
pub fn after_root_dir_read(status: DirStatus) -> (r: DirStep)
    ensures
        r == (match status {
            DirStatus::Present => DirStep::CreateAppDir,
            DirStatus::NotFound => DirStep::CreateRootAndAppDir,
            DirStatus::Failed => DirStep::Fail,
        }),
{
    match status {
        DirStatus::Present => DirStep::CreateAppDir,
        DirStatus::NotFound => DirStep::CreateRootAndAppDir,
        DirStatus::Failed => DirStep::Fail,
    }
}

} // verus!
