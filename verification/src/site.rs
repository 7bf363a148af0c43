//! What a site's configuration holds besides its checks.

use crate::calendar::Timestamp;
use crate::check::Check;
use vstd::prelude::*;

verus! {

/// Everything that the configuration file gives.
#[derive(Clone, Debug, PartialEq, Eq)]
pub struct StatusPageContext {
    pub settings: SiteSettings,
    pub checks: Vec<Check>,
    pub incidents: Vec<Incident>,
}

/// The settings of the site and of its page.
#[derive(Clone, Debug, PartialEq, Eq)]
pub struct SiteSettings {
    pub site: SiteParams,
    pub page: PageParams,
}

/// The site as a whole.
#[derive(Clone, Debug, PartialEq, Eq)]
pub struct SiteParams {
    pub name: String,
    pub description: String,
    pub url: String,
    pub logo: String,
}

/// The head of the page.
#[derive(Clone, Debug, PartialEq, Eq)]
pub struct PageParams {
    pub title: String,
    pub header: String,
    pub header_link: String,
    pub subheader: String,
}

/// An incident that the operator has written up.
#[derive(Clone, Debug, PartialEq, Eq)]
pub struct Incident {
    pub title: String,
    pub description: String,
    pub status: String,
    pub display_date: String,
    pub started_at: Timestamp,
    pub resolved_at: Timestamp,
}

} // verus!
