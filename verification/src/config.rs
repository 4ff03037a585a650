use vstd::prelude::*;

use crate::types::DownloadFormat;
use crate::types::ProxyMode;
use crate::utils;

verus! {

pub const API_DOMAIN_1: &'static str = "www.cdnzack.cc";

pub const API_DOMAIN_2: &'static str = "www.cdnhth.cc";

pub const API_DOMAIN_3: &'static str = "www.cdnhth.net";

pub const API_DOMAIN_4: &'static str = "www.cdnbea.net";

pub const API_DOMAIN_5: &'static str = "www.cdn-mspjmapiproxy.xyz";

/// Which of the known API hosts, or a custom one, the client talks to.
#[derive(Debug, Clone, Copy, PartialEq, Eq, Structural)]
pub enum ApiDomainMode {
    Domain1,
    Domain2,
    Domain3,
    Domain4,
    Domain5,
    Custom,
}

impl Default for ApiDomainMode {
    fn default() -> (r: Self)
        ensures
            r is Domain2,
    {
        ApiDomainMode::Domain2
    }
}

/// Everything the download pipeline reads from the configuration: paths,
/// output format, concurrency limits, delays, and network settings.
#[derive(Debug, Clone)]
pub struct Config {
    pub username: String,
    pub password: String,
    pub download_dir: String,
    pub export_dir: String,
    pub download_format: DownloadFormat,
    pub dir_fmt: String,
    pub proxy_mode: ProxyMode,
    pub proxy_host: String,
    pub proxy_port: u16,
    pub enable_file_logger: bool,
    pub chapter_concurrency: usize,
    pub chapter_download_interval_sec: u64,
    pub img_concurrency: usize,
    pub img_download_interval_sec: u64,
    pub download_all_favorites_interval_sec: u64,
    pub update_downloaded_comics_interval_sec: u64,
    pub api_domain_mode: ApiDomainMode,
    pub custom_api_domain: String,
}

impl Config {
    /// The API host the configuration names: one of the known domains, or
    /// the custom one the user entered.
    pub fn get_api_domain(&self) -> (r: String)
        ensures
            self.api_domain_mode is Domain1 ==> r@ == API_DOMAIN_1@,
            self.api_domain_mode is Domain2 ==> r@ == API_DOMAIN_2@,
            self.api_domain_mode is Domain3 ==> r@ == API_DOMAIN_3@,
            self.api_domain_mode is Domain4 ==> r@ == API_DOMAIN_4@,
            self.api_domain_mode is Domain5 ==> r@ == API_DOMAIN_5@,
            self.api_domain_mode is Custom ==> r == self.custom_api_domain,
    {
        match self.api_domain_mode {
            ApiDomainMode::Domain1 => API_DOMAIN_1.to_owned(),
            ApiDomainMode::Domain2 => API_DOMAIN_2.to_owned(),
            ApiDomainMode::Domain3 => API_DOMAIN_3.to_owned(),
            ApiDomainMode::Domain4 => API_DOMAIN_4.to_owned(),
            ApiDomainMode::Domain5 => API_DOMAIN_5.to_owned(),
            ApiDomainMode::Custom => self.custom_api_domain.clone(),
        }
    }

    /// The configuration a fresh installation starts from, rooted at the
    /// given data directory.
    pub fn default(app_data_dir: &str) -> (r: Config)
        ensures
            r.username@ == Seq::<char>::empty(),
            r.password@ == Seq::<char>::empty(),
            r.download_dir@ == app_data_dir@ + "/"@ + "漫画下载"@,
            r.export_dir@ == app_data_dir@ + "/"@ + "漫画导出"@,
            r.download_format is Jpeg,
            r.dir_fmt@ == "{comic_title}/{chapter_title}"@,
            r.proxy_mode is System,
            r.proxy_host@ == "127.0.0.1"@,
            r.proxy_port == 7890,
            r.enable_file_logger,
            r.chapter_concurrency == 3,
            r.chapter_download_interval_sec == 0,
            r.img_concurrency == 20,
            r.img_download_interval_sec == 0,
            r.download_all_favorites_interval_sec == 0,
            r.update_downloaded_comics_interval_sec == 0,
            r.api_domain_mode is Domain2,
            r.custom_api_domain@ == API_DOMAIN_2@,
    {
        Config {
            username: String::new(),
            password: String::new(),
            download_dir: join_path(app_data_dir, "漫画下载"),
            export_dir: join_path(app_data_dir, "漫画导出"),
            download_format: DownloadFormat::Jpeg,
            dir_fmt: "{comic_title}/{chapter_title}".to_owned(),
            proxy_mode: ProxyMode::System,
            proxy_host: "127.0.0.1".to_owned(),
            proxy_port: 7890,
            enable_file_logger: true,
            chapter_concurrency: 3,
            chapter_download_interval_sec: 0,
            img_concurrency: 20,
            img_download_interval_sec: 0,
            download_all_favorites_interval_sec: 0,
            update_downloaded_comics_interval_sec: 0,
            api_domain_mode: ApiDomainMode::Domain2,
            custom_api_domain: API_DOMAIN_2.to_owned(),
        }
    }
}

/// Joins a directory and a name with a forward slash.
pub fn join_path(dir: &str, name: &str) -> (r: String)
    ensures
        r@ == dir@ + "/"@ + name@,
{
    let mut v = utils::chars_of(dir);
    v.push('/');
    let mut name_chars = utils::chars_of(name);
    v.append(&mut name_chars);
    proof {
        reveal_strlit("/");
        assert(v@ =~= dir@ + "/"@ + name@);
    }
    utils::string_from_chars(&v)
}

} // verus!
