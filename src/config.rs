use vstd::prelude::*;

verus! {

/// Address and key of one media manager.
#[derive(Debug)]
pub struct ArrConfig {
    pub url: String,
    pub api_key: String,
}

impl Clone for ArrConfig {
    fn clone(&self) -> (r: Self)
        ensures
            r == *self,
    {
        ArrConfig { url: self.url.clone(), api_key: self.api_key.clone() }
    }
}

/// Credentials of the remote transfer service.
#[derive(Debug)]
pub struct PutioConfig {
    pub api_key: String,
}

/// The settings of the whole bridge.
#[derive(Debug)]
pub struct Config {
    pub bind_address: String,
    pub download_directory: String,
    pub download_workers: usize,
    pub loglevel: String,
    pub orchestration_workers: usize,
    pub password: String,
    pub polling_interval: u64,
    pub port: u16,
    pub skip_directories: Vec<String>,
    pub uid: u32,
    pub username: String,
    pub putio: PutioConfig,
    pub lidarr: Option<ArrConfig>,
    pub sonarr: Option<ArrConfig>,
    pub radarr: Option<ArrConfig>,
    pub whisparr: Option<ArrConfig>,
}

/// What every part of the bridge shares.
#[derive(Debug)]
pub struct AppData {
    pub config: Config,
}

} // verus!
