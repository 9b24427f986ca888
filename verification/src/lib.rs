pub mod compat;
pub mod downloader;
pub mod shields;
pub mod storage;
pub mod text;
pub mod ui;
pub mod web_url;
