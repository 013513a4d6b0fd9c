//! The configuration surface: the recognized settings, the environment
//! variable name of each, and the default used when a setting is absent.
//!
//! Reading the environment is left to the surrounding process; this
//! module fixes what the names and defaults are.

use vstd::prelude::*;
use vstd::string::StringExecFns;

verus! {

/// The recognized configuration settings.
#[allow(non_camel_case_types)]
#[derive(Clone, Copy, PartialEq, Eq, Structural, Debug, Hash)]
pub enum CONFIG_KEY {
    DB_USERNAME,
    DB_PASSWORD,
    DB_URL,
    S3_ACCESS_KEY,
    S3_SECRET_KEY,
    S3_SECURITY_TOKEN,
    S3_SESSION_TOKEN,
    S3_BUCKET_NAME,
    S3_REGION,
    S3_ENDPOINT,
    PERIOD,
}

/// The environment variable name of each setting.
pub open spec fn key_name_spec(key: CONFIG_KEY) -> Seq<char> {
    match key {
        CONFIG_KEY::DB_USERNAME => "DB_USERNAME"@,
        CONFIG_KEY::DB_PASSWORD => "DB_PASSWORD"@,
        CONFIG_KEY::DB_URL => "DB_URL"@,
        CONFIG_KEY::S3_ACCESS_KEY => "S3_ACCESS_KEY"@,
        CONFIG_KEY::S3_SECRET_KEY => "S3_SECRET_KEY"@,
        CONFIG_KEY::S3_SECURITY_TOKEN => "S3_SECURITY_TOKEN"@,
        CONFIG_KEY::S3_SESSION_TOKEN => "S3_SESSION_TOKEN"@,
        CONFIG_KEY::S3_BUCKET_NAME => "S3_BUCKET_NAME"@,
        CONFIG_KEY::S3_REGION => "S3_REGION"@,
        CONFIG_KEY::S3_ENDPOINT => "S3_ENDPOINT"@,
        CONFIG_KEY::PERIOD => "PERIOD"@,
    }
}

/// The default value of each setting, used when its environment
/// variable is absent: local root credentials for the data store, an
/// unconfigured (empty) object storage, and a daily period.
pub open spec fn default_value_spec(key: CONFIG_KEY) -> Seq<char> {
    match key {
        CONFIG_KEY::DB_USERNAME => "root"@,
        CONFIG_KEY::DB_PASSWORD => "root"@,
        CONFIG_KEY::DB_URL => "http://localhost:8000"@,
        CONFIG_KEY::S3_ACCESS_KEY => ""@,
        CONFIG_KEY::S3_SECRET_KEY => ""@,
        CONFIG_KEY::S3_SECURITY_TOKEN => ""@,
        CONFIG_KEY::S3_SESSION_TOKEN => ""@,
        CONFIG_KEY::S3_BUCKET_NAME => ""@,
        CONFIG_KEY::S3_REGION => ""@,
        CONFIG_KEY::S3_ENDPOINT => ""@,
        CONFIG_KEY::PERIOD => "daily"@,
    }
}

/// The environment variable name under which a setting is looked up.
pub fn key_name(key: CONFIG_KEY) -> (name: String)
    ensures
        name@ == key_name_spec(key),
{
    match key {
        CONFIG_KEY::DB_USERNAME => String::from_str("DB_USERNAME"),
        CONFIG_KEY::DB_PASSWORD => String::from_str("DB_PASSWORD"),
        CONFIG_KEY::DB_URL => String::from_str("DB_URL"),
        CONFIG_KEY::S3_ACCESS_KEY => String::from_str("S3_ACCESS_KEY"),
        CONFIG_KEY::S3_SECRET_KEY => String::from_str("S3_SECRET_KEY"),
        CONFIG_KEY::S3_SECURITY_TOKEN => String::from_str("S3_SECURITY_TOKEN"),
        CONFIG_KEY::S3_SESSION_TOKEN => String::from_str("S3_SESSION_TOKEN"),
        CONFIG_KEY::S3_BUCKET_NAME => String::from_str("S3_BUCKET_NAME"),
        CONFIG_KEY::S3_REGION => String::from_str("S3_REGION"),
        CONFIG_KEY::S3_ENDPOINT => String::from_str("S3_ENDPOINT"),
        CONFIG_KEY::PERIOD => String::from_str("PERIOD"),
    }
}

/// The value a setting falls back to when its environment variable is
/// absent.
pub fn default_value(key: CONFIG_KEY) -> (value: String)
    ensures
        value@ == default_value_spec(key),
{
    proof {
        reveal_strlit("");
        assert(""@ =~= Seq::<char>::empty());
    }
    match key {
        CONFIG_KEY::DB_USERNAME => String::from_str("root"),
        CONFIG_KEY::DB_PASSWORD => String::from_str("root"),
        CONFIG_KEY::DB_URL => String::from_str("http://localhost:8000"),
        CONFIG_KEY::S3_ACCESS_KEY => String::new(),
        CONFIG_KEY::S3_SECRET_KEY => String::new(),
        CONFIG_KEY::S3_SECURITY_TOKEN => String::new(),
        CONFIG_KEY::S3_SESSION_TOKEN => String::new(),
        CONFIG_KEY::S3_BUCKET_NAME => String::new(),
        CONFIG_KEY::S3_REGION => String::new(),
        CONFIG_KEY::S3_ENDPOINT => String::new(),
        CONFIG_KEY::PERIOD => String::from_str("daily"),
    }
}

/// Every recognized setting, in the order the configuration check
/// reports them.
pub fn all_keys() -> (keys: Vec<CONFIG_KEY>)
    ensures
        keys@ =~= seq![
            CONFIG_KEY::DB_USERNAME,
            CONFIG_KEY::DB_PASSWORD,
            CONFIG_KEY::DB_URL,
            CONFIG_KEY::S3_ACCESS_KEY,
            CONFIG_KEY::S3_SECRET_KEY,
            CONFIG_KEY::S3_SECURITY_TOKEN,
            CONFIG_KEY::S3_SESSION_TOKEN,
            CONFIG_KEY::S3_BUCKET_NAME,
            CONFIG_KEY::S3_REGION,
            CONFIG_KEY::S3_ENDPOINT,
            CONFIG_KEY::PERIOD,
        ],
{
    let mut keys: Vec<CONFIG_KEY> = Vec::new();
    keys.push(CONFIG_KEY::DB_USERNAME);
    keys.push(CONFIG_KEY::DB_PASSWORD);
    keys.push(CONFIG_KEY::DB_URL);
    keys.push(CONFIG_KEY::S3_ACCESS_KEY);
    keys.push(CONFIG_KEY::S3_SECRET_KEY);
    keys.push(CONFIG_KEY::S3_SECURITY_TOKEN);
    keys.push(CONFIG_KEY::S3_SESSION_TOKEN);
    keys.push(CONFIG_KEY::S3_BUCKET_NAME);
    keys.push(CONFIG_KEY::S3_REGION);
    keys.push(CONFIG_KEY::S3_ENDPOINT);
    keys.push(CONFIG_KEY::PERIOD);
    keys
}

} // verus!
