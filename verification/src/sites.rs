//! The betting sites the service knows how to drive.
use vstd::prelude::*;
use crate::text::{all_ascii, ascii_lower, lowercase_of, owned, same_text, to_lowercase};

verus! {

/// Where a site lives and how its login form is found.
#[derive(Debug, Clone)]
pub struct SiteProfile {
    pub name: String,
    pub url: String,
    pub login_url: String,
    pub aviator_url: String,
    pub phone_selector: String,
    pub password_selector: String,
    pub login_button_selector: String,
    pub logged_in_indicator: Option<String>,
}

/// The sites offered to clients.
#[derive(Debug, Clone)]
pub struct SitesResponse {
    pub sites: Vec<SiteProfile>,
}

/// The profile of Betika, the one site the service supports.
pub open spec fn is_betika_profile(p: SiteProfile) -> bool {
    &&& p.name@ == "Betika"@
    &&& p.url@ == "https://www.betika.com/en-ke/"@
    &&& p.login_url@ == "https://www.betika.com/en-ke/login"@
    &&& p.aviator_url@ == "https://www.betika.com/en-ke/aviator"@
    &&& p.phone_selector@ == "input[name='phone-number']"@
    &&& p.password_selector@ == "input[type='password']"@
    &&& p.login_button_selector@ == "button[type='submit']"@
    &&& p.logged_in_indicator matches Some(ind) && ind@ == "span.nav__item__label"@
}

/// Betika's profile.
pub fn betika_profile() -> (p: SiteProfile)
    ensures
        is_betika_profile(p),
{
    SiteProfile {
        name: owned("Betika"),
        url: owned("https://www.betika.com/en-ke/"),
        login_url: owned("https://www.betika.com/en-ke/login"),
        aviator_url: owned("https://www.betika.com/en-ke/aviator"),
        phone_selector: owned("input[name='phone-number']"),
        password_selector: owned("input[type='password']"),
        login_button_selector: owned("button[type='submit']"),
        logged_in_indicator: Some(owned("span.nav__item__label")),
    }
}

/// The profile registered under an already lowercased site key.
pub fn site_profile_for_key(key: &str) -> (r: Option<SiteProfile>)
    ensures
        key@ == "betika"@ ==> (r matches Some(p) && is_betika_profile(p)),
        key@ != "betika"@ ==> r is None,
{
    if same_text(key, "betika") {
        Some(betika_profile())
    } else {
        None
    }
}

/// The profile of the site a user named, matched without regard to case.
pub fn get_site_profile(name: &str) -> (r: Option<SiteProfile>)
    ensures
        lowercase_of(name@) == "betika"@ ==> (r matches Some(p) && is_betika_profile(p)),
        lowercase_of(name@) != "betika"@ ==> r is None,
        all_ascii(name@) ==> (r is Some <==> ascii_lower(name@) == "betika"@),
{
    let key = to_lowercase(name);
    site_profile_for_key(key.as_str())
}

/// The list of supported sites.
pub fn available_sites() -> (r: SitesResponse)
    ensures
        r.sites@.len() == 1,
        is_betika_profile(r.sites@[0]),
{
    let mut sites: Vec<SiteProfile> = Vec::new();
    sites.push(betika_profile());
    SitesResponse { sites }
}

} // verus!
