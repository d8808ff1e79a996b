//! Configuration records and their validation.
//!
//! The configuration file itself is read and parsed by the surrounding
//! application; what arrives here is the plain fields it found, each
//! possibly missing. Validation is all-or-nothing: any missing or
//! invalid field is a fatal error, and no monitor starts.

use vstd::prelude::*;

use crate::checker::is_in_stock;
use crate::checker::page_view;
use crate::checker::spec_in_stock;
use crate::decimal::push_decimal;
use crate::decimal::spec_decimal;

verus! {

/// Why a configuration was rejected at startup. Every variant is
/// fatal: the process reports it and exits without starting a monitor.
#[derive(Clone, Copy, Debug, PartialEq, Eq, Structural)]
pub enum ConfigError {
    /// No webhook target URL was given.
    MissingWebhook,
    /// A site entry has no URL.
    MissingUrl,
    /// A site entry has no display name.
    MissingName,
    /// A site entry has no poll interval.
    MissingInterval,
    /// A site entry has no out-of-stock indicator.
    MissingIndicator,
    /// A site entry's poll interval is zero; intervals are in
    /// milliseconds and must be positive.
    InvalidInterval,
    /// A site entry's out-of-stock indicator is the empty string, which
    /// would occur in every page.
    EmptyIndicator,
}

/// A validated per-site record: target URL, display name, poll
/// interval in milliseconds, and the indicator substring whose absence
/// from the page means the product is in stock. Immutable once built.
#[derive(Debug)]
pub struct WebsiteConfig {
    pub url: String,
    pub name: String,
    pub interval: u64,
    pub no_stock_indicator: String,
}

impl WebsiteConfig {
    /// What validation established: a positive poll interval and a
    /// non-empty indicator.
    pub open spec fn wf(&self) -> bool {
        &&& self.interval > 0
        &&& self.no_stock_indicator@.len() > 0
    }

    /// The stock state this site shows given a fetch outcome.
    pub fn is_in_stock(&self, page_text: Option<&str>) -> (r: bool)
        ensures
            r == spec_in_stock(page_view(page_text), self.no_stock_indicator@),
    {
        is_in_stock(page_text, self.no_stock_indicator.as_str())
    }

    /// An exact copy, field for field.
    pub fn clone(&self) -> (r: WebsiteConfig)
        ensures
            r == *self,
    {
        WebsiteConfig {
            url: self.url.clone(),
            name: self.name.clone(),
            interval: self.interval,
            no_stock_indicator: self.no_stock_indicator.clone(),
        }
    }

    /// The text `describe` lays the record out as.
    pub open spec fn spec_describe(&self) -> Seq<char> {
        "URL: "@ + self.url@ + ",\nName: "@ + self.name@ + ",\nUpdate interval (ms): "@
            + spec_decimal(self.interval as nat) + ",\nOut of stock text: "@
            + self.no_stock_indicator@
    }

    /// Lay the record out as text, one field per line.
    pub fn describe(&self) -> (r: String)
        ensures
            r@ == self.spec_describe(),
    {
        let mut out = String::from_str("URL: ");
        out.append(self.url.as_str());
        out.append(",\nName: ");
        out.append(self.name.as_str());
        out.append(",\nUpdate interval (ms): ");
        push_decimal(self.interval, &mut out);
        out.append(",\nOut of stock text: ");
        out.append(self.no_stock_indicator.as_str());
        out
    }
}

/// A site entry as the configuration file parser found it: every field
/// possibly missing.
#[derive(Debug)]
pub struct RawSiteConfig {
    pub url: Option<String>,
    pub name: Option<String>,
    pub interval: Option<u64>,
    pub no_stock_indicator: Option<String>,
}

impl RawSiteConfig {
    /// Every field present, the interval positive, the indicator
    /// non-empty.
    pub open spec fn valid(&self) -> bool {
        &&& self.url is Some
        &&& self.name is Some
        &&& self.interval is Some
        &&& self.no_stock_indicator is Some
        &&& self.interval.unwrap() > 0
        &&& self.no_stock_indicator.unwrap()@.len() > 0
    }

    /// The validated record a valid entry turns into.
    pub open spec fn site(&self) -> WebsiteConfig
        recommends
            self.valid(),
    {
        WebsiteConfig {
            url: self.url.unwrap(),
            name: self.name.unwrap(),
            interval: self.interval.unwrap(),
            no_stock_indicator: self.no_stock_indicator.unwrap(),
        }
    }

    /// The error an invalid entry is rejected with: the first fault in
    /// field order.
    pub open spec fn spec_error(&self) -> ConfigError
        recommends
            !self.valid(),
    {
        if self.url is None {
            ConfigError::MissingUrl
        } else if self.name is None {
            ConfigError::MissingName
        } else if self.interval is None {
            ConfigError::MissingInterval
        } else if self.no_stock_indicator is None {
            ConfigError::MissingIndicator
        } else if self.interval.unwrap() == 0 {
            ConfigError::InvalidInterval
        } else {
            ConfigError::EmptyIndicator
        }
    }

    /// Validate one site entry: succeeds exactly on valid entries, and
    /// rejects an invalid one with the first fault in field order.
    pub fn validate(&self) -> (r: Result<WebsiteConfig, ConfigError>)
        ensures
            r is Ok <==> self.valid(),
            r is Ok ==> r.unwrap() == self.site() && r.unwrap().wf(),
            r is Err ==> r.unwrap_err() == self.spec_error(),
    {
        let url = match &self.url {
            Some(u) => u.clone(),
            None => {
                return Err(ConfigError::MissingUrl);
            },
        };
        let name = match &self.name {
            Some(n) => n.clone(),
            None => {
                return Err(ConfigError::MissingName);
            },
        };
        let interval = match &self.interval {
            Some(i) => *i,
            None => {
                return Err(ConfigError::MissingInterval);
            },
        };
        let no_stock_indicator = match &self.no_stock_indicator {
            Some(s) => s.clone(),
            None => {
                return Err(ConfigError::MissingIndicator);
            },
        };
        if interval == 0 {
            return Err(ConfigError::InvalidInterval);
        }
        if no_stock_indicator.as_str().is_empty() {
            return Err(ConfigError::EmptyIndicator);
        }
        Ok(WebsiteConfig { url, name, interval, no_stock_indicator })
    }
}

/// The whole validated configuration: the shared webhook target and
/// the sites to monitor, in file order.
#[derive(Debug)]
pub struct Config {
    pub webhook: String,
    pub websites: Vec<WebsiteConfig>,
}

impl Config {
    /// Build the configuration from what the parser found. Succeeds
    /// exactly when the webhook is present and every site entry is
    /// valid; otherwise fails with the missing webhook, or the first
    /// invalid entry's error, and no partial configuration escapes.
    pub fn build(webhook: Option<String>, sites: &Vec<RawSiteConfig>) -> (r: Result<
        Config,
        ConfigError,
    >)
        ensures
            r is Ok <==> (webhook is Some && forall|i: int|
                0 <= i < sites@.len() ==> sites@[i].valid()),
            r is Ok ==> {
                &&& r.unwrap().webhook == webhook.unwrap()
                &&& r.unwrap().websites@.len() == sites@.len()
                &&& forall|i: int|
                    0 <= i < sites@.len() ==> r.unwrap().websites@[i] == sites@[i].site()
            },
            webhook is None ==> r == Err::<Config, ConfigError>(ConfigError::MissingWebhook),
            (webhook is Some && r is Err) ==> exists|k: int|
                {
                    &&& 0 <= k < sites@.len()
                    &&& !sites@[k].valid()
                    &&& (forall|j: int| 0 <= j < k ==> sites@[j].valid())
                    &&& r.unwrap_err() == sites@[k].spec_error()
                },
    {
        let hook = match webhook {
            Some(w) => w,
            None => {
                return Err(ConfigError::MissingWebhook);
            },
        };
        let mut websites: Vec<WebsiteConfig> = Vec::new();
        let mut idx: usize = 0;
        while idx < sites.len()
            invariant
                webhook is Some,
                idx <= sites@.len(),
                websites@.len() == idx,
                forall|i: int| 0 <= i < idx ==> sites@[i].valid(),
                forall|i: int| 0 <= i < idx ==> websites@[i] == sites@[i].site(),
            decreases sites@.len() - idx,
        {
            match sites[idx].validate() {
                Ok(site) => {
                    websites.push(site);
                },
                Err(e) => {
                    return Err(e);
                },
            }
            idx += 1;
        }
        Ok(Config { webhook: hook, websites })
    }
}

} // verus!
