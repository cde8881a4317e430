use displex::config::{generate_database_url, obfuscated_formatter, AppConfig, DatabaseType, RequestsUpgradeConfig};

#[test]
fn default_tiers_are_the_five_named_tiers() {
    let c = RequestsUpgradeConfig::default();
    let names: Vec<&str> = c.tiers.iter().map(|t| t.name.as_str()).collect();
    assert_eq!(names, vec!["Bronze", "Silver", "Gold", "Platinum", "Diamond"]);
    let hours: Vec<i64> = c.tiers.iter().map(|t| t.watch_hours).collect();
    assert_eq!(hours, vec![10, 25, 50, 100, 240]);
}

#[test]
fn sqlite_database_url_is_the_configured_url() {
    let c = AppConfig::default();
    assert_eq!(generate_database_url(&c), "sqlite://displex.db?mode=rwc");
}

#[test]
fn postgres_database_url_is_assembled() {
    let mut c = AppConfig::default();
    c.database.type_ = DatabaseType::PostgreSQL;
    c.database.username = "user".into();
    c.database.password = "pw".into();
    c.database.host = "db.local".into();
    c.database.port = 5432;
    c.database.database = "displex".into();
    assert_eq!(generate_database_url(&c), "postgres://user:pw@db.local:5432/displex");
}

#[test]
fn secrets_are_masked() {
    assert_eq!(obfuscated_formatter("abc"), "\"***\"");
    assert_eq!(obfuscated_formatter(""), "\"\"");
}
