use vstd::prelude::*;
use crate::subscription::{base64_text, base64_text_error_is, decode_base64_text, TextDecodeError};
use crate::text::same_text;

verus! {

#[verifier::external_type_specification]
#[verifier::external_body]
pub struct ExYamlValue(serde_yaml::Value);

#[verifier::external_type_specification]
#[verifier::external_body]
pub struct ExYamlError(serde_yaml::Error);

/// A top-level YAML mapping as a list of (key, value) entries.
pub type YamlEntries = Seq<(Seq<char>, serde_yaml::Value)>;

/// The entries, in ascending key order, that
/// `serde_yaml::from_str::<BTreeMap<String, serde_yaml::Value>>` finds in a
/// text, or `None` where it refuses the text.
pub uninterp spec fn yaml_mapping_entries(text: Seq<char>) -> Option<YamlEntries>;

/// The text that `serde_yaml::to_string` writes for the entries gathered
/// into a `BTreeMap<String, serde_yaml::Value>`, or `None` where it fails.
pub uninterp spec fn yaml_mapping_text(entries: YamlEntries) -> Option<Seq<char>>;

/// Whether text `a` sorts before text `b`, comparing characters by code
/// point (the order of `String` keys in a `BTreeMap`).
pub open spec fn text_less(a: Seq<char>, b: Seq<char>) -> bool
    decreases a.len(),
{
    if a.len() == 0 {
        b.len() > 0
    } else if b.len() == 0 {
        false
    } else if a[0] != b[0] {
        (a[0] as int) < (b[0] as int)
    } else {
        text_less(a.skip(1), b.skip(1))
    }
}

/// Whether the keys strictly ascend.
pub open spec fn keys_ascending(entries: YamlEntries) -> bool {
    forall|i: int, j: int|
        0 <= i < j < entries.len() ==> text_less(#[trigger] entries[i].0, #[trigger] entries[j].0)
}

/// Whether no key occurs twice.
pub open spec fn keys_distinct(entries: YamlEntries) -> bool {
    forall|i: int, j: int|
        0 <= i < entries.len() && 0 <= j < entries.len() && i != j ==> #[trigger] entries[i].0
            != #[trigger] entries[j].0
}

/// The plain view of owned entries.
pub open spec fn entries_view(entries: Seq<(String, serde_yaml::Value)>) -> YamlEntries {
    entries.map_values(|e: (String, serde_yaml::Value)| (e.0@, e.1))
}

/// Calls `serde_yaml::from_str::<BTreeMap<String, serde_yaml::Value>>` and
/// lists the map's entries in its iteration order.
/// Claimed: the entries are a function of `text` alone, named
/// `yaml_mapping_entries`; as in any `BTreeMap`, the keys are distinct and
/// ascend.
#[verifier::external_body]
fn parse_yaml_mapping(text: &str) -> (r: Result<Vec<(String, serde_yaml::Value)>, serde_yaml::Error>)
    ensures
        match r {
            Ok(entries) => {
                &&& yaml_mapping_entries(text@) == Some(entries_view(entries@))
                &&& keys_ascending(entries_view(entries@))
                &&& keys_distinct(entries_view(entries@))
            },
            Err(_) => yaml_mapping_entries(text@) is None,
        },
{
    let map: std::collections::BTreeMap<String, serde_yaml::Value> = serde_yaml::from_str(text)?;
    Ok(map.into_iter().collect())
}

/// Calls `serde_yaml::to_string` on the entries gathered into a
/// `BTreeMap<String, serde_yaml::Value>`; as the keys already ascend, the
/// map holds exactly these entries in this order.
/// Claimed: the text is a function of the entries alone, named
/// `yaml_mapping_text`. Nothing is claimed of reading the text back: serde_yaml
/// writes long keys in a form that its own reader refuses.
#[verifier::external_body]
fn yaml_to_string(entries: Vec<(String, serde_yaml::Value)>) -> (r: Result<String, serde_yaml::Error>)
    requires
        keys_ascending(entries_view(entries@)),
    ensures
        match r {
            Ok(s) => yaml_mapping_text(entries_view(entries@)) == Some(s@),
            Err(_) => yaml_mapping_text(entries_view(entries@)) is None,
        },
{
    let map: std::collections::BTreeMap<String, serde_yaml::Value> = entries.into_iter().collect();
    serde_yaml::to_string(&map)
}

/// The three sections that a clash configuration keeps, in the order a
/// sorted map lists them.
pub open spec fn clash_sections() -> Seq<Seq<char>> {
    seq!["proxies"@, "proxy-groups"@, "rules"@]
}

/// The value of `key` among the entries, the last entry with that key winning
/// (with distinct keys, the one entry that has it).
pub open spec fn entry_lookup(entries: YamlEntries, key: Seq<char>) -> Option<serde_yaml::Value>
    decreases entries.len(),
{
    if entries.len() == 0 {
        None
    } else if entries.last().0 == key {
        Some(entries.last().1)
    } else {
        entry_lookup(entries.drop_last(), key)
    }
}

/// The first of the kept sections that the entries lack, if any.
pub open spec fn first_missing_section(entries: YamlEntries) -> Option<Seq<char>> {
    if entry_lookup(entries, clash_sections()[0]) is None {
        Some(clash_sections()[0])
    } else if entry_lookup(entries, clash_sections()[1]) is None {
        Some(clash_sections()[1])
    } else if entry_lookup(entries, clash_sections()[2]) is None {
        Some(clash_sections()[2])
    } else {
        None
    }
}

/// The kept sections with their values, in order.
pub open spec fn kept_sections(entries: YamlEntries) -> YamlEntries {
    seq![
        (clash_sections()[0], entry_lookup(entries, clash_sections()[0]).unwrap()),
        (clash_sections()[1], entry_lookup(entries, clash_sections()[1]).unwrap()),
        (clash_sections()[2], entry_lookup(entries, clash_sections()[2]).unwrap()),
    ]
}

fn take_value_of(
    slot: Option<serde_yaml::Value>,
    key: &str,
    entry_key: &String,
    entry_value: serde_yaml::Value,
) -> (r: Option<serde_yaml::Value>)
    ensures
        r == (if slot is None && entry_key@ == key@ { Some(entry_value) } else { slot }),
{
    if slot.is_none() && same_text(entry_key.as_str(), key) {
        Some(entry_value)
    } else {
        slot
    }
}

proof fn lemma_sections_ascend()
    ensures
        keys_ascending(kept_sections(seq![])),
        text_less(clash_sections()[0], clash_sections()[1]),
        text_less(clash_sections()[1], clash_sections()[2]),
        text_less(clash_sections()[0], clash_sections()[2]),
        clash_sections()[0] != clash_sections()[1],
        clash_sections()[0] != clash_sections()[2],
        clash_sections()[1] != clash_sections()[2],
{
    reveal_strlit("proxies");
    reveal_strlit("proxy-groups");
    reveal_strlit("rules");
    reveal_with_fuel(text_less, 6);
    let a = "proxies"@;
    let b = "proxy-groups"@;
    let c = "rules"@;
    assert(a.skip(1) =~= seq!['r', 'o', 'x', 'i', 'e', 's']);
    assert(b.skip(1) =~= seq!['r', 'o', 'x', 'y', '-', 'g', 'r', 'o', 'u', 'p', 's']);
    assert(a.skip(1).skip(1) =~= seq!['o', 'x', 'i', 'e', 's']);
    assert(b.skip(1).skip(1) =~= seq!['o', 'x', 'y', '-', 'g', 'r', 'o', 'u', 'p', 's']);
    assert(a.skip(1).skip(1).skip(1) =~= seq!['x', 'i', 'e', 's']);
    assert(b.skip(1).skip(1).skip(1) =~= seq!['x', 'y', '-', 'g', 'r', 'o', 'u', 'p', 's']);
    assert(a.skip(1).skip(1).skip(1).skip(1) =~= seq!['i', 'e', 's']);
    assert(b.skip(1).skip(1).skip(1).skip(1) =~= seq!['y', '-', 'g', 'r', 'o', 'u', 'p', 's']);
    assert(text_less(a, b));
    assert(text_less(b, c));
    assert(text_less(a, c));
}

/// Keeps the `proxies`, `proxy-groups` and `rules` entries, in that order,
/// or names the first of them that is missing.
pub fn select_clash_sections(entries: Vec<(String, serde_yaml::Value)>) -> (r: Result<Vec<(String, serde_yaml::Value)>, String>)
    ensures
        match first_missing_section(entries_view(entries@)) {
            Some(section) => r matches Err(missing) && missing@ == section,
            None => r matches Ok(kept) && entries_view(kept@) == kept_sections(entries_view(entries@)),
        },
{
    let ghost all = entries@;
    let ghost v = entries_view(all);
    let mut rest = entries;
    let mut proxies: Option<serde_yaml::Value> = None;
    let mut groups: Option<serde_yaml::Value> = None;
    let mut rules: Option<serde_yaml::Value> = None;
    assert(v.take(all.len() as int) =~= v);
    while rest.len() > 0
        invariant
            rest@ == all.take(rest@.len() as int),
            rest@.len() <= all.len(),
            v == entries_view(all),
            entry_lookup(v, "proxies"@) == if proxies is Some { proxies } else {
                entry_lookup(v.take(rest@.len() as int), "proxies"@)
            },
            entry_lookup(v, "proxy-groups"@) == if groups is Some { groups } else {
                entry_lookup(v.take(rest@.len() as int), "proxy-groups"@)
            },
            entry_lookup(v, "rules"@) == if rules is Some { rules } else {
                entry_lookup(v.take(rest@.len() as int), "rules"@)
            },
        decreases rest@.len(),
    {
        proof {
            reveal_strlit("proxies");
            reveal_strlit("proxy-groups");
            reveal_strlit("rules");
        }
        assert("proxies"@ != "proxy-groups"@ && "proxies"@ != "rules"@ && "rules"@ != "proxy-groups"@) by {
            assert("proxies"@.len() != "proxy-groups"@.len());
            assert("proxies"@.len() != "rules"@.len());
            assert("rules"@.len() != "proxy-groups"@.len());
        }
        let ghost n = rest@.len() - 1;
        let (key, value) = rest.pop().unwrap();
        assert(all[n as int] == (key, value));
        assert(v.take(n + 1).drop_last() =~= v.take(n as int));
        assert(v.take(n + 1).last() == (key@, value));
        if same_text(key.as_str(), "proxies") {
            proxies = take_value_of(proxies, "proxies", &key, value);
        } else if same_text(key.as_str(), "proxy-groups") {
            groups = take_value_of(groups, "proxy-groups", &key, value);
        } else {
            rules = take_value_of(rules, "rules", &key, value);
        }
        assert(rest@ =~= all.take(n as int));
    }
    assert(entry_lookup(v.take(0), "proxies"@) is None);
    assert(entry_lookup(v.take(0), "proxy-groups"@) is None);
    assert(entry_lookup(v.take(0), "rules"@) is None);
    match (proxies, groups, rules) {
        (Some(p), Some(g), Some(q)) => {
            let mut kept: Vec<(String, serde_yaml::Value)> = Vec::new();
            kept.push(("proxies".to_owned(), p));
            kept.push(("proxy-groups".to_owned(), g));
            kept.push(("rules".to_owned(), q));
            assert(entries_view(kept@) =~= kept_sections(v));
            Ok(kept)
        },
        (None, _, _) => Err("proxies".to_owned()),
        (_, None, _) => Err("proxy-groups".to_owned()),
        (_, _, None) => Err("rules".to_owned()),
    }
}

/// Why a clash subscription could not be turned into a configuration.
pub enum ClashError {
    /// The body is not base64 of UTF-8 text.
    Text(TextDecodeError),
    /// The text is not a YAML mapping, or the kept sections could not be written.
    Yaml(serde_yaml::Error),
    /// The mapping lacks this section.
    MissingSection(String),
}

/// Decodes a clash subscription (base64 of a YAML document) and writes back
/// the `proxies`, `proxy-groups` and `rules` sections alone, in that order,
/// with their values.
///
/// A mapping that lacks one of the three sections is answered with
/// `MissingSection`, naming the first one missing, so that callers can
/// decide; the command-line program stops there with a panic.
pub fn clash_config_from_subscription(body: &str) -> (r: Result<String, ClashError>)
    ensures
        match base64_text(body@) {
            None => r matches Err(ClashError::Text(e)) && base64_text_error_is(body@, e),
            Some(text) => match yaml_mapping_entries(text) {
                None => r matches Err(ClashError::Yaml(_)),
                Some(entries) => match first_missing_section(entries) {
                    Some(section) => r matches Err(ClashError::MissingSection(s)) && s@ == section,
                    None => match yaml_mapping_text(kept_sections(entries)) {
                        Some(out) => r matches Ok(t) && t@ == out,
                        None => r matches Err(ClashError::Yaml(_)),
                    },
                },
            },
        },
{
    let text = match decode_base64_text(body) {
        Ok(t) => t,
        Err(e) => return Err(ClashError::Text(e)),
    };
    let entries = match parse_yaml_mapping(text.as_str()) {
        Ok(entries) => entries,
        Err(e) => return Err(ClashError::Yaml(e)),
    };
    let ghost v = entries_view(entries@);
    let kept = match select_clash_sections(entries) {
        Ok(kept) => kept,
        Err(missing) => return Err(ClashError::MissingSection(missing)),
    };
    proof {
        lemma_sections_ascend();
        assert(keys_ascending(entries_view(kept@)));
    }
    match yaml_to_string(kept) {
        Ok(s) => Ok(s),
        Err(e) => Err(ClashError::Yaml(e)),
    }
}

} // verus!
