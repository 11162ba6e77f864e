use lanturn::config::{sites_from_config, sites_from_root, ConfigError, ConfigNode};
use lanturn::site::MAX_STATUSES;

#[test]
fn parses_sites_in_document_order() {
    let text = "sites:\n  alpha:\n    name: Alpha\n    url: http://alpha.example\n  beta:\n    name: Beta\n    url: http://beta.example\n";
    let sites = sites_from_config(text).unwrap();
    assert_eq!(sites.len(), 2);
    assert_eq!(sites[0].name, "Alpha");
    assert_eq!(sites[0].url, "http://alpha.example");
    assert_eq!(sites[1].name, "Beta");
    assert_eq!(sites[1].url, "http://beta.example");
    for site in &sites {
        let statuses = site.get_status_codes();
        assert_eq!(statuses.len(), MAX_STATUSES);
        assert!(statuses.iter().all(|s| s.is_none()));
    }
}

#[test]
fn empty_text_is_parse_error() {
    assert_eq!(sites_from_config("").unwrap_err(), ConfigError::Parse);
}

#[test]
fn invalid_yaml_is_parse_error() {
    assert_eq!(sites_from_config("sites: [unclosed").unwrap_err(), ConfigError::Parse);
}

#[test]
fn missing_sites_entry_is_not_a_map() {
    assert_eq!(sites_from_config("other: 1\n").unwrap_err(), ConfigError::NotAMap);
}

#[test]
fn scalar_sites_entry_is_not_a_map() {
    assert_eq!(sites_from_config("sites: 3\n").unwrap_err(), ConfigError::NotAMap);
}

#[test]
fn sequence_sites_entry_is_not_a_map() {
    assert_eq!(sites_from_config("sites:\n  - a\n  - b\n").unwrap_err(), ConfigError::NotAMap);
}

#[test]
fn non_string_label_is_bad_label() {
    let text = "sites:\n  1:\n    name: One\n    url: http://one.example\n";
    assert_eq!(sites_from_config(text).unwrap_err(), ConfigError::BadLabel);
}

#[test]
fn missing_name_field() {
    let text = "sites:\n  alpha:\n    url: http://alpha.example\n";
    assert_eq!(sites_from_config(text).unwrap_err(), ConfigError::MissingName("alpha".to_string()));
}

#[test]
fn missing_url_field() {
    let text = "sites:\n  alpha:\n    name: Alpha\n";
    assert_eq!(sites_from_config(text).unwrap_err(), ConfigError::MissingUrl("alpha".to_string()));
}

#[test]
fn scalar_site_entry_reports_its_label() {
    // A site whose entry is not a mapping has no name field to read.
    let text = "sites:\n  alpha: 3\n";
    assert_eq!(sites_from_config(text).unwrap_err(), ConfigError::MissingName("alpha".to_string()));
}

#[test]
fn first_offending_entry_decides() {
    let text = "sites:\n  alpha:\n    name: Alpha\n  beta:\n    url: http://beta.example\n";
    assert_eq!(sites_from_config(text).unwrap_err(), ConfigError::MissingUrl("alpha".to_string()));
}

#[test]
fn empty_sites_mapping_is_empty_list() {
    let sites = sites_from_config("sites: {}\n").unwrap();
    assert!(sites.is_empty());
}

#[test]
fn root_value_extraction() {
    // sites_from_root reads an already-parsed document: a root mapping
    // whose `sites` entry maps each label to name and url strings.
    let alpha = ConfigNode::Mapping(vec![
        (ConfigNode::Str("name".to_string()), ConfigNode::Str("Alpha".to_string())),
        (ConfigNode::Str("url".to_string()), ConfigNode::Str("http://alpha.example".to_string())),
    ]);
    let sites_map =
        ConfigNode::Mapping(vec![(ConfigNode::Str("alpha".to_string()), alpha)]);
    let root =
        ConfigNode::Mapping(vec![(ConfigNode::Str("sites".to_string()), sites_map)]);
    let sites = sites_from_root(&root).unwrap();
    assert_eq!(sites.len(), 1);
    assert_eq!(sites[0].name, "Alpha");
    assert_eq!(sites[0].url, "http://alpha.example");
}

#[test]
fn root_value_rejects_non_string_label() {
    let sites_map = ConfigNode::Mapping(vec![(ConfigNode::Other, ConfigNode::Other)]);
    let root =
        ConfigNode::Mapping(vec![(ConfigNode::Str("sites".to_string()), sites_map)]);
    assert_eq!(sites_from_root(&root).unwrap_err(), ConfigError::BadLabel);
}
