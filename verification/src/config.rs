//! Application configuration, as read from the config file and the
//! environment by the surrounding program.

use vstd::prelude::*;

verus! {

/// Name, version and listen address of the application.
#[derive(Debug, Clone)]
pub struct AppInfo {
    pub name: String,
    pub version: String,
    pub addr: String,
    pub base_url: String,
}

/// Database connection-pool settings.
#[derive(Debug, Clone)]
pub struct DatabaseConfig {
    pub url: String,
    pub connect_timeout: u64,
    pub acquire_timeout: u64,
    pub idle_timeout: u64,
    pub max_lifetime: u64,
    pub min_connections: u32,
    pub max_connections: u32,
}

/// Store connection-pool settings.
#[derive(Debug, Clone)]
pub struct RedisConfig {
    pub url: String,
    pub pool_size: u32,
}

/// Cron expressions of the scheduled jobs.
#[derive(Debug, Clone)]
pub struct JobsConfig {
    pub cron_job1: String,
    pub cron_job2: String,
}

/// Log sink settings.
#[derive(Debug, Clone)]
pub struct Log {
    pub directory: String,
    pub file_name: String,
    pub file_level: String,
    pub console_level: String,
}

/// The whole application configuration.
#[derive(Debug, Clone)]
pub struct AppConfig {
    pub app: AppInfo,
    pub database: DatabaseConfig,
    pub redis: RedisConfig,
    pub jobs: JobsConfig,
    pub log: Log,
}

} // verus!
