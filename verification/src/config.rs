//! The raw configuration and its resolution into concrete runtime values:
//! bind addresses, public origin URLs, the storage directory, and the
//! validated identity object.

use vstd::prelude::*;
use crate::text::local_url_string;
use crate::text::local_url_chars;
use crate::text::decode_hex;
use crate::identity::{
    dev_instance_name,
    dev_instance_name_chars,
    dev_secret,
    dev_secret_chars,
    is_valid_secret,
    secret_error,
    ConfigError,
    InstanceSecret,
    KeyBroker,
};
use vstd::string::StringExecFns;

verus! {

/// Declares `url::Url` so the configuration can carry an outbound proxy
/// URL opaquely; nothing here reads into the value.
#[verifier::external_type_specification]
#[verifier::external_body]
pub struct ExUrl(url::Url);

/// Relies on `url::Url`'s `Clone`; nothing is assumed of the copy.
pub assume_specification[ <url::Url as Clone>::clone ](u: &url::Url) -> url::Url;

/// The externally supplied, already-defaulted configuration snapshot.
#[derive(Clone)]
pub struct LocalConfig {
    /// File path for SQLite.
    pub db_spec: String,
    /// Host interface to bind to, as its four octets.
    pub interface: [u8; 4],
    /// Host port the daemon should bind to.
    pub port: u16,
    /// Host port to bind for HTTP actions.
    pub site_proxy_port: u16,
    /// Explicit origin of the server, if supplied.
    pub convex_origin: Option<String>,
    /// Explicit origin of the HTTP actions site, if supplied.
    pub convex_site: Option<String>,
    /// Outbound HTTP proxy, if supplied; carried through unread.
    pub convex_http_proxy: Option<url::Url>,
    /// Instance name; present exactly when `instance_secret` is.
    pub instance_name: Option<String>,
    /// Instance secret string; present exactly when `instance_name` is.
    pub instance_secret: Option<String>,
    /// Identifier to attach to any error-reporting events.
    pub sentry_identifier: Option<String>,
    /// Directory local storage should use.
    pub local_storage: String,
}

impl LocalConfig {
    /// The primary bind address: the configured interface and port, unchanged.
    pub fn http_bind_address(&self) -> (r: ([u8; 4], u16))
        ensures
            r.0 == self.interface,
            r.1 == self.port,
    {
        (self.interface, self.port)
    }

    /// The HTTP-actions bind address: currently always present, the
    /// configured interface with the site proxy port.
    pub fn site_bind_address(&self) -> (r: Option<([u8; 4], u16)>)
        ensures
            r is Some,
            r matches Some(a) ==> a.0 == self.interface && a.1 == self.site_proxy_port,
    {
        Some((self.interface, self.site_proxy_port))
    }

    /// The resolved server origin: the explicit origin verbatim when one was
    /// supplied, else the local fallback built from `port`.
    pub open spec fn origin_url_chars(&self) -> Seq<char> {
        match self.convex_origin {
            Some(o) => o@,
            None => local_url_chars(self.port),
        }
    }

    /// The resolved site origin: the explicit site verbatim when one was
    /// supplied, else the local fallback built from `site_proxy_port`.
    pub open spec fn site_url_chars(&self) -> Seq<char> {
        match self.convex_site {
            Some(o) => o@,
            None => local_url_chars(self.site_proxy_port),
        }
    }

    /// The effective instance name: the explicit one, else the fixed
    /// development-mode name.
    pub open spec fn effective_name_chars(&self) -> Seq<char> {
        match self.instance_name {
            Some(n) => n@,
            None => dev_instance_name_chars(),
        }
    }

    /// The effective secret string: the explicit one, else the fixed
    /// development-mode secret.
    pub open spec fn effective_secret_chars(&self) -> Seq<char> {
        match self.instance_secret {
            Some(s) => s@,
            None => dev_secret_chars(),
        }
    }

    /// The name/secret co-presence invariant: an explicit instance name and
    /// an explicit instance secret are supplied together or not at all.
    /// Input acquisition enforces this before the configuration reaches the
    /// derivations below.
    pub open spec fn identity_paired(&self) -> bool {
        self.instance_name is Some <==> self.instance_secret is Some
    }

    /// The public origin URL of the server. Never fails: absence of an
    /// explicit origin falls back to `http://127.0.0.1:{port}`.
    pub fn convex_origin_url(&self) -> (r: String)
        ensures
            r@ == self.origin_url_chars(),
    {
        match &self.convex_origin {
            Some(o) => o.clone(),
            None => local_url_string(self.port),
        }
    }

    /// The public origin URL of the HTTP-actions site. Never fails: absence
    /// of an explicit site falls back to `http://127.0.0.1:{site_proxy_port}`.
    pub fn convex_site_url(&self) -> (r: String)
        ensures
            r@ == self.site_url_chars(),
    {
        match &self.convex_site {
            Some(o) => o.clone(),
            None => local_url_string(self.site_proxy_port),
        }
    }

    /// The effective instance name: the explicit one, else the fixed
    /// development-mode name.
    pub fn name(&self) -> (r: String)
        ensures
            r@ == self.effective_name_chars(),
    {
        match &self.instance_name {
            Some(n) => n.clone(),
            None => String::from_str(dev_instance_name()),
        }
    }

    /// Validate the effective secret string: succeeds exactly when it is 64
    /// hexadecimal digits, and then yields its 32 decoded bytes.
    pub fn secret(&self) -> (r: Result<InstanceSecret, ConfigError>)
        ensures
            r is Ok <==> is_valid_secret(self.effective_secret_chars()),
            r matches Ok(sec) ==> sec@ == decode_hex(self.effective_secret_chars()),
            r matches Err(e) ==> e == secret_error(self.effective_secret_chars()),
    {
        match &self.instance_secret {
            Some(s) => InstanceSecret::try_from(s.as_str()),
            None => InstanceSecret::try_from(dev_secret()),
        }
    }

    /// Build the identity object: the effective name bound to the validated
    /// effective secret. This is the single fallible derivation; it fails
    /// exactly when the effective secret string is invalid, and then with
    /// `InvalidSecret`. It assumes the co-presence invariant
    /// (`identity_paired`); see that predicate.
    pub fn key_broker(&self) -> (r: Result<KeyBroker, ConfigError>)
        requires
            self.identity_paired(),
        ensures
            r is Ok <==> is_valid_secret(self.effective_secret_chars()),
            r matches Ok(kb) ==> kb.name@ == self.effective_name_chars() && kb.secret@
                == decode_hex(self.effective_secret_chars()),
            r matches Err(e) ==> e == secret_error(self.effective_secret_chars()),
    {
        let name = self.name();
        match self.secret() {
            Ok(s) => Ok(KeyBroker::new(name, s)),
            Err(e) => Err(e),
        }
    }

    /// The directory local storage should use: the configured value as a
    /// path, with no normalization.
    pub fn storage_dir(&self) -> (r: String)
        ensures
            r@ == self.local_storage@,
    {
        self.local_storage.clone()
    }
}

impl Default for LocalConfig {
    /// The defaulted configuration: every optional field absent and the
    /// fixed development defaults everywhere else.
    fn default() -> (r: LocalConfig)
        ensures
            r.db_spec@ == "convex_local_backend.sqlite3"@,
            r.interface == [0u8, 0u8, 0u8, 0u8],
            r.port == 3210,
            r.site_proxy_port == 3211,
            r.convex_origin is None,
            r.convex_site is None,
            r.convex_http_proxy is None,
            r.instance_name is None,
            r.instance_secret is None,
            r.sentry_identifier is None,
            r.local_storage@ == "convex_local_storage"@,
    {
        LocalConfig {
            db_spec: String::from_str("convex_local_backend.sqlite3"),
            interface: [0u8, 0u8, 0u8, 0u8],
            port: 3210,
            site_proxy_port: 3211,
            convex_origin: None,
            convex_site: None,
            convex_http_proxy: None,
            instance_name: None,
            instance_secret: None,
            sentry_identifier: None,
            local_storage: String::from_str("convex_local_storage"),
        }
    }
}

/// Law: origin resolution is total and deterministic. An explicit origin is
/// returned verbatim; an absent one always has the well-formed local
/// fallback built from the primary port, so resolution never fails and two
/// resolutions of the same configuration yield the same value.
pub proof fn lemma_origin_url_resolution(c: LocalConfig)
    ensures
        c.convex_origin matches Some(o) ==> c.origin_url_chars() == o@,
        c.convex_origin is None ==> c.origin_url_chars() == local_url_chars(c.port),
{
}

/// Law: site resolution mirrors origin resolution, using the explicit site
/// and the site proxy port.
pub proof fn lemma_site_url_resolution(c: LocalConfig)
    ensures
        c.convex_site matches Some(o) ==> c.site_url_chars() == o@,
        c.convex_site is None ==> c.site_url_chars() == local_url_chars(c.site_proxy_port),
{
}

/// Law: with no explicit instance name and secret, identity construction
/// succeeds — the effective secret is the development secret, which is
/// valid, and the effective name is the development name. With
/// `key_broker`'s contract this means it returns the development identity.
pub proof fn lemma_default_identity_succeeds(c: LocalConfig)
    requires
        c.instance_name is None,
        c.instance_secret is None,
    ensures
        is_valid_secret(c.effective_secret_chars()),
        c.effective_name_chars() == dev_instance_name_chars(),
        c.effective_secret_chars() == dev_secret_chars(),
{
    crate::identity::lemma_dev_secret_valid();
}

/// Law: an explicit secret string that is not a valid secret makes the
/// effective secret invalid, whatever the instance name — with
/// `key_broker`'s contract this means identity construction fails with
/// `InvalidSecret` and yields no key broker.
pub proof fn lemma_invalid_secret_rejected(c: LocalConfig)
    requires
        c.instance_secret matches Some(s) && !is_valid_secret(s@),
    ensures
        !is_valid_secret(c.effective_secret_chars()),
        secret_error(c.effective_secret_chars()) matches ConfigError::InvalidSecret(_),
{
}

} // verus!
