use iterate::config::AppConfig;

#[test]
fn default_config_keeps_soft_deleted_records_thirty_days() {
    let config = AppConfig::default();
    assert_eq!(config.soft_delete_retention_days, 30);
}
