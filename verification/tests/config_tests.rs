use stock_monitor::config::Config;
use stock_monitor::config::ConfigError;
use stock_monitor::config::RawSiteConfig;
use stock_monitor::config::WebsiteConfig;

fn raw_site() -> RawSiteConfig {
    RawSiteConfig {
        url: Some(String::from("https://example.com/product")),
        name: Some(String::from("Example Shop")),
        interval: Some(1000),
        no_stock_indicator: Some(String::from("Out of stock")),
    }
}

#[test]
fn validate_accepts_complete_entry() {
    let site = raw_site().validate().unwrap();
    assert_eq!(site.url, "https://example.com/product");
    assert_eq!(site.name, "Example Shop");
    assert_eq!(site.interval, 1000);
    assert_eq!(site.no_stock_indicator, "Out of stock");
}

#[test]
fn validate_rejects_missing_url() {
    let mut raw = raw_site();
    raw.url = None;
    assert_eq!(raw.validate().unwrap_err(), ConfigError::MissingUrl);
}

#[test]
fn validate_rejects_missing_name() {
    let mut raw = raw_site();
    raw.name = None;
    assert_eq!(raw.validate().unwrap_err(), ConfigError::MissingName);
}

#[test]
fn validate_rejects_missing_interval() {
    let mut raw = raw_site();
    raw.interval = None;
    assert_eq!(raw.validate().unwrap_err(), ConfigError::MissingInterval);
}

#[test]
fn validate_rejects_missing_indicator() {
    let mut raw = raw_site();
    raw.no_stock_indicator = None;
    assert_eq!(raw.validate().unwrap_err(), ConfigError::MissingIndicator);
}

#[test]
fn validate_rejects_zero_interval() {
    let mut raw = raw_site();
    raw.interval = Some(0);
    assert_eq!(raw.validate().unwrap_err(), ConfigError::InvalidInterval);
}

#[test]
fn validate_rejects_empty_indicator() {
    let mut raw = raw_site();
    raw.no_stock_indicator = Some(String::new());
    assert_eq!(raw.validate().unwrap_err(), ConfigError::EmptyIndicator);
}

#[test]
fn build_accepts_complete_config() {
    let sites = vec![raw_site(), raw_site()];
    let config = Config::build(Some(String::from("https://hooks.example/x")), &sites).unwrap();
    assert_eq!(config.webhook, "https://hooks.example/x");
    assert_eq!(config.websites.len(), 2);
    assert_eq!(config.websites[0].name, "Example Shop");
}

#[test]
fn build_rejects_missing_webhook() {
    let sites = vec![raw_site()];
    assert_eq!(
        Config::build(None, &sites).unwrap_err(),
        ConfigError::MissingWebhook,
    );
}

#[test]
fn build_with_missing_interval_is_fatal() {
    // A malformed site entry rejects the whole configuration: nothing
    // partial comes back, so no monitor would start.
    let mut bad = raw_site();
    bad.interval = None;
    let sites = vec![raw_site(), bad];
    assert_eq!(
        Config::build(Some(String::from("https://hooks.example/x")), &sites).unwrap_err(),
        ConfigError::MissingInterval,
    );
}

#[test]
fn build_reports_first_invalid_entry() {
    let mut bad_interval = raw_site();
    bad_interval.interval = Some(0);
    let mut bad_name = raw_site();
    bad_name.name = None;
    let sites = vec![raw_site(), bad_interval, bad_name];
    assert_eq!(
        Config::build(Some(String::from("https://hooks.example/x")), &sites).unwrap_err(),
        ConfigError::InvalidInterval,
    );
}

#[test]
fn clone_copies_every_field() {
    let site = raw_site().validate().unwrap();
    let copy = site.clone();
    assert_eq!(copy.url, site.url);
    assert_eq!(copy.name, site.name);
    assert_eq!(copy.interval, site.interval);
    assert_eq!(copy.no_stock_indicator, site.no_stock_indicator);
}

#[test]
fn describe_lays_out_every_field() {
    let site = WebsiteConfig {
        url: String::from("https://example.com/p"),
        name: String::from("Shop"),
        interval: 1500,
        no_stock_indicator: String::from("Out of stock"),
    };
    assert_eq!(
        site.describe(),
        "URL: https://example.com/p,\nName: Shop,\nUpdate interval (ms): 1500,\nOut of stock text: Out of stock",
    );
}

#[test]
fn site_method_checks_its_own_indicator() {
    let site = raw_site().validate().unwrap();
    assert!(!site.is_in_stock(Some("<html>Out of stock</html>")));
    assert!(site.is_in_stock(Some("<html>Add to cart</html>")));
    assert!(!site.is_in_stock(None));
}
