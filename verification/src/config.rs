use crate::site::{initial_history, Site};
use vstd::prelude::*;

verus! {

/// A YAML value reduced to what the configuration reader distinguishes: a
/// string scalar, a mapping (entries in document order), or anything else.
#[derive(Debug)]
pub enum ConfigNode {
    Str(String),
    Mapping(Vec<(ConfigNode, ConfigNode)>),
    Other,
}

/// Why a configuration document yields no site list.
#[derive(Debug, PartialEq, Eq)]
pub enum ConfigError {
    /// The text is not valid YAML or holds no document.
    Parse,
    /// The `sites` entry of the first document is not a mapping.
    NotAMap,
    /// A site label is not a string.
    BadLabel,
    /// The site with this label has no string `name` field.
    MissingName(String),
    /// The site with this label has no string `url` field.
    MissingUrl(String),
}

/// The value a YAML mapping with pairs `entries` associates with the
/// string `key`: the value of the first pair whose key is that string, or
/// `Other` when no pair matches (a missing key indexes to a bad value).
pub open spec fn spec_lookup(entries: Seq<(ConfigNode, ConfigNode)>, key: Seq<char>) -> ConfigNode
    decreases entries.len(),
{
    if entries.len() == 0 {
        ConfigNode::Other
    } else if entries.first().0 matches ConfigNode::Str(k) && k@ == key {
        entries.first().1
    } else {
        spec_lookup(entries.drop_first(), key)
    }
}

/// Indexing `node` with the string `key`, as YAML values are indexed:
/// a lookup when `node` is a mapping, a bad value otherwise.
pub open spec fn spec_index_str(node: ConfigNode, key: Seq<char>) -> ConfigNode {
    match node {
        ConfigNode::Mapping(entries) => spec_lookup(entries@, key),
        _ => ConfigNode::Other,
    }
}

/// The string under `key` in the mapping `node`, when there is one.
pub open spec fn spec_get_str(node: ConfigNode, key: Seq<char>) -> Option<Seq<char>> {
    match spec_index_str(node, key) {
        ConfigNode::Str(s) => Some(s@),
        _ => None,
    }
}

/// The identity (name, url) one site entry yields, or the error for it:
/// the label must be a string, and the entry's value must be a mapping
/// holding string `name` and `url` fields.
pub open spec fn spec_site_entry(label: ConfigNode, props: ConfigNode) -> Result<
    (Seq<char>, Seq<char>),
    ConfigError,
> {
    match label {
        ConfigNode::Str(l) => match spec_get_str(props, "name"@) {
            Some(name) => match spec_get_str(props, "url"@) {
                Some(url) => Ok((name, url)),
                None => Err(ConfigError::MissingUrl(l)),
            },
            None => Err(ConfigError::MissingName(l)),
        },
        _ => Err(ConfigError::BadLabel),
    }
}

/// The site identities of a whole `sites` mapping, in document order; the
/// first offending entry decides the error.
pub open spec fn spec_sites(entries: Seq<(ConfigNode, ConfigNode)>) -> Result<
    Seq<(Seq<char>, Seq<char>)>,
    ConfigError,
>
    decreases entries.len(),
{
    if entries.len() == 0 {
        Ok(Seq::empty())
    } else {
        match spec_site_entry(entries.first().0, entries.first().1) {
            Ok(id) => match spec_sites(entries.drop_first()) {
                Ok(rest) => Ok(seq![id] + rest),
                Err(e) => Err(e),
            },
            Err(e) => Err(e),
        }
    }
}

/// The site identities of a configuration document with root `root`: what
/// its `sites` mapping holds, which must be a mapping.
pub open spec fn spec_config_sites(root: ConfigNode) -> Result<
    Seq<(Seq<char>, Seq<char>)>,
    ConfigError,
> {
    match spec_index_str(root, "sites"@) {
        ConfigNode::Mapping(entries) => spec_sites(entries@),
        _ => Err(ConfigError::NotAMap),
    }
}

/// The value the mapping pairs `entries` associate with the string `key`.
fn lookup<'a>(entries: &'a Vec<(ConfigNode, ConfigNode)>, key: &String) -> (r: &'a ConfigNode)
    ensures
        *r == spec_lookup(entries@, key@),
{
    let mut i: usize = 0;
    proof {
        assert(entries@.skip(0) =~= entries@);
    }
    while i < entries.len()
        invariant
            i <= entries@.len(),
            spec_lookup(entries@, key@) == spec_lookup(entries@.skip(i as int), key@),
        decreases entries@.len() - i,
    {
        proof {
            assert(entries@.skip(i as int).first() == entries@[i as int]);
            assert(entries@.skip(i as int).drop_first() =~= entries@.skip(i as int + 1));
        }
        match &entries[i].0 {
            ConfigNode::Str(k) => {
                if *k == *key {
                    return &entries[i].1;
                }
            },
            _ => {},
        }
        i += 1;
    }
    proof {
        assert(entries@.skip(entries@.len() as int) =~= Seq::<(ConfigNode, ConfigNode)>::empty());
    }
    &ConfigNode::Other
}

/// Indexing `node` with the string `key`, as YAML values are indexed.
fn index_str<'a>(node: &'a ConfigNode, key: &String) -> (r: &'a ConfigNode)
    ensures
        *r == spec_index_str(*node, key@),
{
    match node {
        ConfigNode::Mapping(entries) => lookup(entries, key),
        _ => &ConfigNode::Other,
    }
}

/// The string under `key` in the mapping `node`, when there is one.
fn get_str<'a>(node: &'a ConfigNode, key: &String) -> (r: Option<&'a String>)
    ensures
        match r {
            Some(s) => spec_get_str(*node, key@) == Some(s@),
            None => spec_get_str(*node, key@) is None,
        },
{
    match index_str(node, key) {
        ConfigNode::Str(s) => Some(s),
        _ => None,
    }
}

/// The site one entry of the `sites` mapping describes, with an
/// all-pending history, or the error for it.
fn site_entry(label: &ConfigNode, props: &ConfigNode) -> (r: Result<Site, ConfigError>)
    ensures
        match r {
            Ok(site) => {
                &&& spec_site_entry(*label, *props) matches Ok(id) && site@.name == id.0
                    && site@.url == id.1
                &&& site@.history == initial_history()
            },
            Err(e) => spec_site_entry(*label, *props) == Err::<
                (Seq<char>, Seq<char>),
                ConfigError,
            >(e),
        },
{
    match label {
        ConfigNode::Str(l) => {
            let name = match get_str(props, &"name".to_owned()) {
                Some(s) => s,
                None => {
                    return Err(ConfigError::MissingName(l.clone()));
                },
            };
            let url = match get_str(props, &"url".to_owned()) {
                Some(s) => s,
                None => {
                    return Err(ConfigError::MissingUrl(l.clone()));
                },
            };
            Ok(Site::new(name.as_str(), url.as_str()))
        },
        _ => Err(ConfigError::BadLabel),
    }
}

/// The identities of the first `i` entries, assuming each yields one.
pub open spec fn spec_prefix_ids(entries: Seq<(ConfigNode, ConfigNode)>, i: int) -> Seq<
    (Seq<char>, Seq<char>),
> {
    Seq::new(i as nat, |j: int| spec_site_entry(entries[j].0, entries[j].1)->Ok_0)
}

/// The sites a `sites` mapping with pairs `entries` describes, in document
/// order, or the error of its first offending entry.
fn sites_from_entries(entries: &Vec<(ConfigNode, ConfigNode)>) -> (r: Result<Vec<Site>, ConfigError>)
    ensures
        match r {
            Ok(sites) => {
                &&& spec_sites(entries@) matches Ok(ids) && sites@.len() == ids.len()
                    && (forall|i: int|
                    0 <= i < sites@.len() ==> (#[trigger] sites@[i])@.name == ids[i].0
                        && sites@[i]@.url == ids[i].1 && sites@[i]@.history == initial_history())
            },
            Err(e) => spec_sites(entries@) == Err::<Seq<(Seq<char>, Seq<char>)>, ConfigError>(e),
        },
{
    let mut sites: Vec<Site> = Vec::new();
    let mut i: usize = 0;
    proof {
        assert(entries@.skip(0) =~= entries@);
        if spec_sites(entries@) is Ok {
            assert(spec_prefix_ids(entries@, 0) + spec_sites(entries@)->Ok_0 =~= spec_sites(
                entries@,
            )->Ok_0);
        }
    }
    while i < entries.len()
        invariant
            i <= entries@.len(),
            spec_sites(entries@.skip(i as int)) matches Ok(rest) ==> (spec_sites(entries@) matches
                Ok(ids) && ids == spec_prefix_ids(entries@, i as int) + rest),
            spec_sites(entries@.skip(i as int)) matches Err(e) ==> spec_sites(entries@) == Err::<
                Seq<(Seq<char>, Seq<char>)>,
                ConfigError,
            >(e),
            sites@.len() == i,
            forall|j: int|
                0 <= j < i ==> #[trigger] spec_site_entry(entries@[j].0, entries@[j].1) is Ok,
            forall|j: int|
                0 <= j < i ==> ((#[trigger] sites@[j])@.name, sites@[j]@.url) == spec_site_entry(
                    entries@[j].0,
                    entries@[j].1,
                )->Ok_0,
            forall|j: int| 0 <= j < i ==> (#[trigger] sites@[j])@.history == initial_history(),
        decreases entries@.len() - i,
    {
        proof {
            assert(entries@.skip(i as int).first() == entries@[i as int]);
            assert(entries@.skip(i as int).drop_first() =~= entries@.skip(i as int + 1));
        }
        let ghost prev = sites@;
        match site_entry(&entries[i].0, &entries[i].1) {
            Ok(site) => sites.push(site),
            Err(e) => {
                return Err(e);
            },
        }
        proof {
            let id = spec_site_entry(entries@[i as int].0, entries@[i as int].1)->Ok_0;
            assert forall|j: int| 0 <= j < i + 1 implies #[trigger] spec_site_entry(
                entries@[j].0,
                entries@[j].1,
            ) is Ok && ((sites@[j])@.name, sites@[j]@.url) == spec_site_entry(
                entries@[j].0,
                entries@[j].1,
            )->Ok_0 && (sites@[j])@.history == initial_history() by {
                if j < i {
                    assert(sites@[j] == prev[j]);
                } else {
                    assert(sites@[j] == sites@[i as int]);
                }
            }
            if spec_sites(entries@.skip(i as int + 1)) is Ok {
                let rest = spec_sites(entries@.skip(i as int + 1))->Ok_0;
                assert(spec_sites(entries@.skip(i as int)) == Ok::<
                    Seq<(Seq<char>, Seq<char>)>,
                    ConfigError,
                >(seq![id] + rest));
                assert(spec_prefix_ids(entries@, i as int) + (seq![id] + rest) =~= spec_prefix_ids(
                    entries@,
                    i as int + 1,
                ) + rest);
            }
        }
        i += 1;
    }
    proof {
        assert(entries@.skip(entries@.len() as int) =~= Seq::<(ConfigNode, ConfigNode)>::empty());
        assert(spec_sites(entries@) matches Ok(ids) && ids == spec_prefix_ids(
            entries@,
            entries@.len() as int,
        ) + Seq::<(Seq<char>, Seq<char>)>::empty());
    }
    Ok(sites)
}

/// The sites a configuration document with root value `root` describes:
/// the entries of its `sites` mapping, in document order.
pub fn sites_from_root(root: &ConfigNode) -> (r: Result<Vec<Site>, ConfigError>)
    ensures
        match r {
            Ok(sites) => {
                &&& spec_config_sites(*root) matches Ok(ids) && sites@.len() == ids.len()
                    && (forall|i: int|
                    0 <= i < sites@.len() ==> (#[trigger] sites@[i])@.name == ids[i].0
                        && sites@[i]@.url == ids[i].1 && sites@[i]@.history == initial_history())
            },
            Err(e) => spec_config_sites(*root) == Err::<Seq<(Seq<char>, Seq<char>)>, ConfigError>(
                e,
            ),
        },
{
    match index_str(root, &"sites".to_owned()) {
        ConfigNode::Mapping(entries) => sites_from_entries(entries),
        _ => Err(ConfigError::NotAMap),
    }
}

/// The documents that YAML text parses to, reduced to [`ConfigNode`]:
/// yaml_rust2's parser is deterministic and its mappings keep document
/// order, so this is a function of the text alone. `None` stands for text
/// that is not valid YAML.
pub uninterp spec fn parsed_docs_of(text: Seq<char>) -> Option<Seq<ConfigNode>>;

/// The sites a configuration text yields: a parse failure when the text
/// is not valid YAML or holds no document, else what the first document's
/// root describes.
pub open spec fn spec_text_sites(text: Seq<char>) -> Result<
    Seq<(Seq<char>, Seq<char>)>,
    ConfigError,
> {
    match parsed_docs_of(text) {
        Some(docs) => if docs.len() == 0 {
            Err(ConfigError::Parse)
        } else {
            spec_config_sites(docs[0])
        },
        None => Err(ConfigError::Parse),
    }
}

/// `yaml_rust2::Yaml`, the parsed YAML node type; values of it exist only
/// inside the parse wrapper below.
#[verifier::external_type_specification]
#[verifier::external_body]
pub struct ExYaml(yaml_rust2::Yaml);

/// Relies on the variants of yaml_rust2::Yaml: `String` holds a scalar
/// string, `Hash` a mapping whose entries iterate in document order
/// (hashlink's LinkedHashMap keeps insertion order); the reader
/// distinguishes no other variant. Called only by [`parse_documents`].
#[verifier::external_body]
fn yaml_to_node(y: &yaml_rust2::Yaml) -> ConfigNode {
    match y {
        yaml_rust2::Yaml::String(s) => ConfigNode::Str(s.clone()),
        yaml_rust2::Yaml::Hash(h) => ConfigNode::Mapping(
            h.iter().map(|(k, v)| (yaml_to_node(k), yaml_to_node(v))).collect(),
        ),
        _ => ConfigNode::Other,
    }
}

/// Relies on yaml_rust2::YamlLoader::load_from_str: it parses YAML text
/// into its documents, deterministically, failing exactly on invalid
/// YAML; the result, reduced to [`ConfigNode`], is therefore the function
/// of the text named [`parsed_docs_of`].
#[verifier::external_body]
fn parse_documents(text: &str) -> (r: Option<Vec<ConfigNode>>)
    ensures
        r matches Some(docs) ==> parsed_docs_of(text@) == Some(docs@),
        r is None ==> parsed_docs_of(text@) is None,
{
    yaml_rust2::YamlLoader::load_from_str(text)
        .ok()
        .map(|docs| docs.iter().map(yaml_to_node).collect())
}

/// The sites a YAML configuration text describes: the `sites` mapping of
/// its first document. Success, the site list, and every error come
/// exactly as [`spec_text_sites`] says of the named parse result.
pub fn sites_from_config(text: &str) -> (r: Result<Vec<Site>, ConfigError>)
    ensures
        match r {
            Ok(sites) => {
                &&& spec_text_sites(text@) matches Ok(ids) && sites@.len() == ids.len()
                    && (forall|i: int|
                    0 <= i < sites@.len() ==> (#[trigger] sites@[i])@.name == ids[i].0
                        && sites@[i]@.url == ids[i].1 && sites@[i]@.history == initial_history())
            },
            Err(e) => spec_text_sites(text@) == Err::<Seq<(Seq<char>, Seq<char>)>, ConfigError>(e),
        },
{
    match parse_documents(text) {
        None => Err(ConfigError::Parse),
        Some(docs) => {
            if docs.len() == 0 {
                Err(ConfigError::Parse)
            } else {
                sites_from_root(&docs[0])
            }
        },
    }
}

} // verus!
