use vstd::prelude::*;

verus! {

/// Network scanning settings.
#[derive(Debug, Clone)]
pub struct NetworkConfig {
    pub default_interface: String,
    pub scan_threads: u32,
    pub timeout_seconds: u64,
    pub monitor_mode: bool,
}

/// Vulnerability assessment settings.
#[derive(Debug, Clone)]
pub struct SecurityConfig {
    pub vulnerability_db_path: String,
    pub risk_threshold: String,
    pub enable_metasploit: bool,
    pub enable_nessus: bool,
}

/// Report generation settings.
#[derive(Debug, Clone)]
pub struct ReportingConfig {
    pub company_name: String,
    pub report_template: String,
    pub output_directory: String,
    pub enable_pdf: bool,
    pub enable_html: bool,
}

/// Endpoints of the assessment services the tool can talk to.
#[derive(Debug, Clone)]
pub struct ApiConfig {
    pub metasploit_host: String,
    pub metasploit_port: u16,
    pub nessus_host: String,
    pub nessus_port: u16,
}

/// The application's whole configuration.
#[derive(Debug, Clone)]
pub struct AppConfig {
    pub network: NetworkConfig,
    pub security: SecurityConfig,
    pub reporting: ReportingConfig,
    pub api: ApiConfig,
}

/// A configuration was rejected by validation.
#[derive(Clone, Copy, PartialEq, Eq, Structural, Debug)]
pub enum ConfigError {
    /// The scan thread count must be greater than zero.
    ZeroScanThreads,
}

impl ConfigError {
    /// A human-readable description of the error.
    pub fn message(&self) -> (r: String)
        ensures
            r@ == "Scan threads must be greater than 0"@,
    {
        "Scan threads must be greater than 0".to_owned()
    }
}

/// The built-in default configuration, field by field.
pub open spec fn is_default_config(c: AppConfig) -> bool {
    &&& c.network.default_interface@ == "eth0"@
    &&& c.network.scan_threads == 100u32
    &&& c.network.timeout_seconds == 5u64
    &&& c.network.monitor_mode == false
    &&& c.security.vulnerability_db_path@ == "/var/lib/entynet/vulndb"@
    &&& c.security.risk_threshold@ == "medium"@
    &&& c.security.enable_metasploit == true
    &&& c.security.enable_nessus == false
    &&& c.reporting.company_name@ == "Security Team"@
    &&& c.reporting.report_template@ == "enterprise"@
    &&& c.reporting.output_directory@ == "/var/reports/entynet"@
    &&& c.reporting.enable_pdf == true
    &&& c.reporting.enable_html == true
    &&& c.api.metasploit_host@ == "127.0.0.1"@
    &&& c.api.metasploit_port == 55553u16
    &&& c.api.nessus_host@ == "127.0.0.1"@
    &&& c.api.nessus_port == 8834u16
}

impl Default for AppConfig {
    /// The built-in defaults.
    fn default() -> (r: Self)
        ensures
            is_default_config(r),
    {
        AppConfig {
            network: NetworkConfig {
                default_interface: "eth0".to_owned(),
                scan_threads: 100,
                timeout_seconds: 5,
                monitor_mode: false,
            },
            security: SecurityConfig {
                vulnerability_db_path: "/var/lib/entynet/vulndb".to_owned(),
                risk_threshold: "medium".to_owned(),
                enable_metasploit: true,
                enable_nessus: false,
            },
            reporting: ReportingConfig {
                company_name: "Security Team".to_owned(),
                report_template: "enterprise".to_owned(),
                output_directory: "/var/reports/entynet".to_owned(),
                enable_pdf: true,
                enable_html: true,
            },
            api: ApiConfig {
                metasploit_host: "127.0.0.1".to_owned(),
                metasploit_port: 55553,
                nessus_host: "127.0.0.1".to_owned(),
                nessus_port: 8834,
            },
        }
    }
}

impl AppConfig {
    /// Loads the configuration. No configuration store is consulted yet:
    /// the call always succeeds with the built-in defaults.
    pub fn load() -> (r: Result<AppConfig, ConfigError>)
        ensures
            r matches Ok(c) && is_default_config(c),
    {
        Ok(AppConfig::default())
    }

    /// Checks the configuration: it is valid exactly when the scan thread
    /// count is greater than zero.
    pub fn validate(&self) -> (r: Result<(), ConfigError>)
        ensures
            self.network.scan_threads > 0 ==> r == Ok::<(), ConfigError>(()),
            self.network.scan_threads == 0 ==> r == Err::<(), ConfigError>(
                ConfigError::ZeroScanThreads,
            ),
    {
        if self.network.scan_threads == 0 {
            return Err(ConfigError::ZeroScanThreads);
        }
        Ok(())
    }
}

} // verus!
