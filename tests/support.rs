use pwmp_server::cli::{Cli, Command, DatabaseCommand};
use pwmp_server::config::{Config, DatabaseConfig, SqliteConfig, DEFAULT_PORT};
use pwmp_server::db::{
    air_pressure_param, check_timezone, erase_plan, set_time_zone_statement, EraseQuery,
};
use pwmp_server::error::Error;
use pwmp_server::idgen::RngBuf;
use pwmp_server::message::{NodeSettings, Version};
use pwmp_server::signal::SignalHandle;
use pwmp_server::svcmgr::{openrc, systemd};
use pwmp_server::tz::{get_system_timezone, timezone_from_command_output, timezone_from_link_target};

#[test]
fn default_configuration() {
    let config = Config::default();
    assert_eq!(config.server.host, [0, 0, 0, 0]);
    assert_eq!(config.server.port, DEFAULT_PORT);
    assert_eq!(config.server_bind_addr(), ([0, 0, 0, 0], 55300));
    assert_eq!(config.limits.devices, 10);
    assert_eq!(config.limits.stall_time, 10);
    assert_eq!(config.rate_limits.time_frame, 1);
    assert_eq!(config.rate_limits.max_requests, 4);
    assert_eq!(config.rate_limits.max_connections, 4);
    assert_eq!(config.short_db_identifier(), "192.168.0.12");
    assert_eq!(config.configured_timezone(), None);
}

#[test]
fn database_identifier_and_time_zone() {
    let mut config = Config::default();
    config.database = DatabaseConfig::Sqlite(SqliteConfig {
        path: "/tmp/pixelweather.sqlite3".to_string(),
        timezone: Some("Europe/Budapest".to_string()),
    });
    assert_eq!(config.short_db_identifier(), "/tmp/pixelweather.sqlite3");
    assert_eq!(config.configured_timezone(), Some("Europe/Budapest".to_string()));
    assert_eq!(config.db_timezone(), Some("Europe/Budapest".to_string()));
}

#[test]
fn configuration_path_below_home() {
    assert_eq!(Config::default_path("/home/pw"), "/home/pw/.pwmp-server/config.yml");
    assert_eq!(Config::default_path("/root/"), "/root/.pwmp-server/config.yml");
    let cli = Cli { config: None, debug: false, command: None };
    assert_eq!(cli.config_path("/x/config.yml".to_string()), "/x/config.yml");
    let cli = Cli {
        config: Some("/etc/pw.yml".to_string()),
        debug: true,
        command: Some(Command::Database { command: DatabaseCommand::Init }),
    };
    assert_eq!(cli.config_path("/x/config.yml".to_string()), "/etc/pw.yml");
}

#[test]
fn erase_plans() {
    assert_eq!(
        erase_plan(true, true),
        vec![EraseQuery::ContentKeepDevicesAndSettings, EraseQuery::MigrationsTable]
    );
    assert_eq!(erase_plan(true, false), vec![EraseQuery::Content, EraseQuery::MigrationsTable]);
    assert_eq!(erase_plan(false, true), vec![EraseQuery::ContentKeepDevicesAndSettings]);
    assert_eq!(erase_plan(false, false), vec![EraseQuery::Database]);
}

#[test]
fn time_zone_checks() {
    let supported = vec!["UTC".to_string(), "Europe/Budapest".to_string()];
    assert_eq!(check_timezone("Europe/Budapest", &supported), Ok(()));
    assert_eq!(
        check_timezone("Mars/Olympus", &supported),
        Err(Error::InvalidTimeZone("Mars/Olympus".to_string()))
    );
    assert_eq!(set_time_zone_statement("UTC"), "SET TIME ZONE \"UTC\"");
}

#[test]
fn database_parameters() {
    assert_eq!(air_pressure_param(None), Ok(None));
    assert_eq!(air_pressure_param(Some(1013)), Ok(Some(1013)));
    assert_eq!(air_pressure_param(Some(40000)), Err(Error::IntConversion));
    assert_eq!(
        NodeSettings::from_row(true, false, 300, true, false),
        Ok(NodeSettings {
            battery_ignore: true,
            ota: false,
            sleep_time: 300,
            sbop: true,
            mute_notifications: false,
        })
    );
    assert_eq!(NodeSettings::from_row(true, false, -1, true, false), Err(Error::IntConversion));
    assert_eq!(NodeSettings::from_row(true, false, 70000, true, false), Err(Error::IntConversion));
}

#[test]
fn versions() {
    let v = Version::new(1, 2, 3).unwrap();
    assert_eq!(v.to_signed_triple(), (1, 2, 3));
    assert_eq!(Version::from_signed_triple(1, 2, 3), Ok(v));
    assert_eq!(Version::from_signed_triple(1, -2, 3), Err(Error::IntConversion));
    assert_eq!(Version::from_signed_triple(128, 0, 0), Err(Error::IntConversion));
    assert_eq!(Version::new(128, 0, 0), None);
    let older = Version::new(1, 1, 9).unwrap();
    assert!(older.older_than(&v));
    assert!(!v.older_than(&older));
    assert!(!v.older_than(&v));
}

#[test]
fn time_zone_from_system_sources() {
    assert_eq!(timezone_from_command_output("Europe/Budapest\n"), "Europe/Budapest");
    assert_eq!(timezone_from_command_output(""), "");
    assert_eq!(
        timezone_from_link_target("/usr/share/zoneinfo/Europe/Budapest"),
        Some("Europe/Budapest".to_string())
    );
    assert_eq!(timezone_from_link_target("Europe/Budapest"), Some("Europe/Budapest".to_string()));
    assert_eq!(timezone_from_link_target("/UTC"), None);
    assert_eq!(timezone_from_link_target("/usr/share/zoneinfo/"), None);
    assert_eq!(
        get_system_timezone(Some("Etc/UTC\n"), Some("/usr/share/zoneinfo/Europe/Paris")),
        Some("Etc/UTC".to_string())
    );
    assert_eq!(
        get_system_timezone(None, Some("/usr/share/zoneinfo/Europe/Paris")),
        Some("Europe/Paris".to_string())
    );
    assert_eq!(get_system_timezone(None, None), None);
}

#[test]
fn service_files() {
    assert_eq!(openrc::Manager::service_file_path(), "/etc/init.d/pwmp-server");
    assert_eq!(systemd::Manager::service_file_path(), "/etc/systemd/system/pwmp-server.service");
}

#[test]
fn random_ids_are_handed_out() {
    let mut ids = RngBuf::new(ring::rand::SystemRandom::new(), 4);
    let first = ids.take_next().unwrap();
    let mut others = Vec::new();
    for _ in 0..8 {
        others.push(ids.take_next().unwrap());
    }
    assert!(others.iter().any(|id| *id != first));
}

#[test]
fn signal_flag_starts_clear() {
    let handle = SignalHandle::new(10).unwrap();
    assert!(!handle.is_set());
    handle.unset();
    assert!(!handle.clone().is_set());
}
