//! Information about z/OSMF itself.

use vstd::prelude::*;

use crate::request::{opt_str_view, opt_view, request_to, url_of, Method, Request, RequestView};
use crate::text::chars_of;

verus! {

/// A plug-in of z/OSMF.
#[derive(Clone, Debug, PartialEq, Eq, Hash)]
pub struct Plugin {
    pub version: String,
    pub status: Option<String>,
    pub default_name: String,
}

impl Plugin {
    /// The plug-in's version.
    pub fn version(&self) -> (r: &str)
        ensures
            r@ == self.version@,
    {
        self.version.as_str()
    }

    /// The plug-in's state, if z/OSMF gives it.
    pub fn status(&self) -> (r: Option<&str>)
        ensures
            opt_str_view(r) == opt_view(self.status),
    {
        match &self.status {
            Some(s) => Some(s.as_str()),
            None => None,
        }
    }

    /// The plug-in's default name.
    pub fn default_name(&self) -> (r: &str)
        ensures
            r@ == self.default_name@,
    {
        self.default_name.as_str()
    }
}
/// Information about a z/OSMF server.
#[derive(Clone, Debug, PartialEq, Eq, Hash)]
pub struct Info {
    pub zosmf_saf_realm: String,
    pub zosmf_port: String,
    pub plugins: Vec<Plugin>,
    pub api_version: String,
    pub zos_version: String,
    pub zosmf_version: String,
    pub zosmf_hostname: String,
}

impl Info {
    /// The SAF realm of z/OSMF.
    pub fn zosmf_saf_realm(&self) -> (r: &str)
        ensures
            r@ == self.zosmf_saf_realm@,
    {
        self.zosmf_saf_realm.as_str()
    }

    /// The port of z/OSMF.
    pub fn zosmf_port(&self) -> (r: &str)
        ensures
            r@ == self.zosmf_port@,
    {
        self.zosmf_port.as_str()
    }

    /// The plug-ins of z/OSMF.
    pub fn plugins(&self) -> (r: &Vec<Plugin>)
        ensures
            r == &self.plugins,
    {
        &self.plugins
    }

    /// The version of the interface.
    pub fn api_version(&self) -> (r: &str)
        ensures
            r@ == self.api_version@,
    {
        self.api_version.as_str()
    }

    /// The version of z/OS.
    pub fn zos_version(&self) -> (r: &str)
        ensures
            r@ == self.zos_version@,
    {
        self.zos_version.as_str()
    }

    /// The version of z/OSMF.
    pub fn zosmf_version(&self) -> (r: &str)
        ensures
            r@ == self.zosmf_version@,
    {
        self.zosmf_version.as_str()
    }

    /// The host name of z/OSMF.
    pub fn zosmf_hostname(&self) -> (r: &str)
        ensures
            r@ == self.zosmf_hostname@,
    {
        self.zosmf_hostname.as_str()
    }
}
/// A request for information about z/OSMF.
#[derive(Clone, Debug)]
pub struct InfoBuilder {
    pub base_url: String,
}

impl InfoBuilder {
    /// A builder for the server at `base_url`.
    pub fn new(base_url: String) -> (r: InfoBuilder)
        ensures
            r.base_url == base_url,
    {
        InfoBuilder { base_url }
    }

    /// The request that this builder describes.
    pub open spec fn spec_request(&self) -> RequestView {
        request_to(Method::Get, url_of(self.base_url@, "/zosmf/info"@))
    }

    /// The request: `GET` on `/zosmf/info`.
    pub fn get_request(&self) -> (r: Request)
        ensures
            r@ == self.spec_request(),
    {
        Request::new(Method::Get, self.base_url.as_str(), &chars_of("/zosmf/info"))
    }
}

} // verus!
