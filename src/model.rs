use vstd::prelude::*;

verus! {

/// The provider's answer to a device-code request.
#[derive(Debug, Clone)]
pub struct DeviceCodeResponse {
    pub device_code: String,
    pub user_code: String,
    /// Seconds to wait between two polls.
    pub interval: u64,
    /// Seconds until the device code itself expires.
    pub expires_in: u64,
    pub verification_url: String,
}

/// The provider's answer once the user has approved the device.
#[derive(Debug, Clone)]
pub struct TokenResponse {
    pub access_token: String,
    /// Seconds until the access token expires.
    pub expires_in: u64,
    pub token_type: String,
    pub refresh_token: String,
}

/// The body of a provider-side failure.
#[derive(Debug, Clone)]
pub struct ErrorResponse {
    pub error: String,
    pub error_code: i64,
}

/// The provider's answer to adding a magnet link.
#[derive(Debug, Clone)]
pub struct AddMagnetResponse {
    pub id: String,
    pub uri: String,
}

/// One file of a torrent.
#[derive(Debug, Clone)]
pub struct TorrentFile {
    pub id: u64,
    pub path: String,
    pub bytes: u64,
    /// 1 when the file is part of the selection to download, else 0.
    pub selected: u64,
}

/// The provider's answer to unrestricting a hosted link.
#[derive(Debug, Clone)]
pub struct UnrestrictLinkResponse {
    pub id: String,
    pub filename: String,
    pub mime_type: String,
    pub filesize: u64,
    pub link: String,
    pub host: String,
    pub chunks: u32,
    pub crc: u32,
    pub download: String,
    pub streamable: u32,
}

/// What is kept on disk between sessions.
#[derive(Debug, Clone)]
pub struct RealDebridSettings {
    pub client_id: String,
    pub refresh_token: Option<String>,
}

/// A failure of the settings store.
#[derive(Debug, Clone)]
pub struct SettingsConfigurationError {
    message: String,
}

impl SettingsConfigurationError {
    pub fn new(message: String) -> (r: Self)
        ensures
            r.message() == message,
    {
        SettingsConfigurationError { message }
    }

    pub closed spec fn message(&self) -> String {
        self.message
    }

    /// The text of the failure.
    pub fn to_message(&self) -> (r: String)
        ensures
            r == self.message(),
    {
        self.message.clone()
    }
}

} // verus!
