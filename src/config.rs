use vstd::prelude::*;

verus! {

/// One entry of the navigation bar.
#[derive(Debug)]
pub struct ConfigLink {
    /// name of the link
    pub name: String,
    /// the hyperlink reference
    pub href: String,
    /// the title of the anchor
    pub title: String,
}

/// The links shown in the navigation bar, in order.
#[derive(Debug)]
pub struct NavbarConfig {
    pub links: Vec<ConfigLink>,
}

/// Settings loaded once at startup.
#[derive(Debug)]
pub struct CmsRustConfig {
    /// address of the database (just the IP)
    pub database_address: String,
    /// port of the database service
    pub database_port: u16,
    /// username for database access
    pub database_user: String,
    /// password of the database service
    pub database_password: String,
    /// name of the database
    pub database_name: String,
    /// port of the public site
    pub webserver_port: u16,
    /// port of the admin API
    pub admin_port: u16,
    /// directory for storing and retrieving images
    pub image_dir: String,
    /// whether the cache is enabled
    pub cache_enabled: bool,
    /// sitekey for recaptcha
    pub recaptcha_sitekey: String,
    /// secret for recaptcha
    pub recaptcha_secret: String,
    /// navigation bar
    pub navbar: NavbarConfig,
}

} // verus!
