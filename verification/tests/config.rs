use deactivator::Config;

#[test]
fn default_config_has_placeholder_wiki_and_empty_credentials() {
    let c = Config::default();
    assert_eq!(c.wiki_url, "https://example.com");
    assert_eq!(c.username, "");
    assert_eq!(c.password, "");
    assert_eq!(c.db.database, "");
    assert_eq!(c.db.host, "");
    assert_eq!(c.db.username, "");
    assert_eq!(c.db.password, "");
}
