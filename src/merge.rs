//! Splicing a theme's `colors` section into the configuration document.
//!
//! Both documents are YAML mappings read and written by serde_yaml. A mapping
//! is modelled by its entries; a YAML value stands for its content.
use vstd::prelude::*;

verus! {

#[verifier::external_type_specification]
#[verifier::external_body]
pub struct ExValue(serde_yaml::Value);

#[verifier::external_type_specification]
#[verifier::external_body]
pub struct ExMapping(serde_yaml::Mapping);

#[verifier::external_type_specification]
#[verifier::external_body]
pub struct ExError(serde_yaml::Error);

/// The entries of a YAML mapping, keys to values.
pub uninterp spec fn mapping_entries(m: serde_yaml::Mapping) -> Map<serde_yaml::Value, serde_yaml::Value>;

/// The YAML string scalar with the given text.
pub uninterp spec fn yaml_string(s: Seq<char>) -> serde_yaml::Value;

/// The entries of the mapping that serde_yaml reads from a text; none where it
/// cannot read the text as one mapping (not YAML, not a mapping at the top,
/// a key given twice).
pub uninterp spec fn parsed_entries(s: Seq<char>) -> Option<Map<serde_yaml::Value, serde_yaml::Value>>;

/// Relies on serde_yaml::from_str, reading a document as a mapping: whether it
/// succeeds, and the entries it gives, depend on the text alone.
#[verifier::external_body]
fn parse_mapping(text: &str) -> (r: Result<serde_yaml::Mapping, serde_yaml::Error>)
    ensures
        match r {
            Ok(m) => parsed_entries(text@) == Some(mapping_entries(m)),
            Err(_) => parsed_entries(text@).is_none(),
        },
{
    serde_yaml::from_str::<serde_yaml::Mapping>(text)
}

/// Relies on serde_yaml::Mapping::remove with a string key: it takes out the
/// value stored under that key, if any.
#[verifier::external_body]
fn take_entry(m: &mut serde_yaml::Mapping, key: &str) -> (r: Option<serde_yaml::Value>)
    ensures
        r.is_some() == mapping_entries(*old(m)).contains_key(yaml_string(key@)),
        r.is_some() ==> r.unwrap() == mapping_entries(*old(m))[yaml_string(key@)],
        mapping_entries(*final(m)) == mapping_entries(*old(m)).remove(yaml_string(key@)),
{
    m.remove(key)
}

/// Relies on serde_yaml::Mapping::insert with a string key: the key then maps
/// to the value, in place of what it held before, and no other entry changes.
#[verifier::external_body]
fn put_entry(m: &mut serde_yaml::Mapping, key: &str, v: serde_yaml::Value)
    ensures
        mapping_entries(*final(m)) == mapping_entries(*old(m)).insert(yaml_string(key@), v),
{
    m.insert(serde_yaml::Value::String(key.to_string()), v);
}

/// The YAML text that serde_yaml writes for a mapping; none where it cannot
/// write it.
pub uninterp spec fn yaml_text(m: serde_yaml::Mapping) -> Option<Seq<char>>;

/// Relies on serde_yaml::to_string to write a mapping out as YAML text: the
/// outcome depends on the mapping alone.
#[verifier::external_body]
fn write_mapping(m: &serde_yaml::Mapping) -> (r: Result<String, serde_yaml::Error>)
    ensures
        match r {
            Ok(s) => yaml_text(*m) == Some(s@),
            Err(_) => yaml_text(*m).is_none(),
        },
{
    serde_yaml::to_string(m)
}

/// Why a theme could not be applied.
#[derive(Clone, Copy, Debug, PartialEq, Eq, Structural)]
pub enum MergeError {
    /// The configuration text holds no YAML mapping.
    Config,
    /// The theme text holds no YAML mapping.
    Theme,
    /// The theme has no `colors` section.
    NoColors,
    /// The merged document could not be written out.
    Write,
}

pub open spec fn colors_key() -> serde_yaml::Value {
    yaml_string("colors"@)
}

/// The configuration with its whole `colors` section replaced by the theme's.
pub open spec fn merged(
    config: Map<serde_yaml::Value, serde_yaml::Value>,
    theme: Map<serde_yaml::Value, serde_yaml::Value>,
) -> Map<serde_yaml::Value, serde_yaml::Value> {
    config.insert(colors_key(), theme[colors_key()])
}

/// Replaces the configuration's `colors` section with the theme's; where the
/// theme has none, the configuration is left as it was.
pub fn replace_colors(config: &mut serde_yaml::Mapping, theme: serde_yaml::Mapping) -> (r: Result<(), MergeError>)
    ensures
        r is Ok <==> mapping_entries(theme).contains_key(colors_key()),
        r is Ok ==> mapping_entries(*final(config)) == merged(mapping_entries(*old(config)), mapping_entries(theme)),
        r is Err ==> r == Err::<(), MergeError>(MergeError::NoColors) && *final(config) == *old(config),
{
    let mut theme = theme;
    match take_entry(&mut theme, "colors") {
        Some(colors) => {
            put_entry(config, "colors", colors);
            Ok(())
        },
        None => Err(MergeError::NoColors),
    }
}

/// Reads both documents and gives the configuration with the theme's
/// `colors` section in place of its own.
pub fn merge_documents(config_text: &str, theme_text: &str) -> (r: Result<serde_yaml::Mapping, MergeError>)
    ensures
        parsed_entries(config_text@).is_none() ==> r == Err::<serde_yaml::Mapping, MergeError>(MergeError::Config),
        parsed_entries(config_text@).is_some() && parsed_entries(theme_text@).is_none()
            ==> r == Err::<serde_yaml::Mapping, MergeError>(MergeError::Theme),
        parsed_entries(config_text@).is_some() && parsed_entries(theme_text@).is_some()
            && !parsed_entries(theme_text@).unwrap().contains_key(colors_key())
            ==> r == Err::<serde_yaml::Mapping, MergeError>(MergeError::NoColors),
        parsed_entries(config_text@).is_some() && parsed_entries(theme_text@).is_some()
            && parsed_entries(theme_text@).unwrap().contains_key(colors_key()) ==> match r {
                Ok(m) => mapping_entries(m) == merged(
                    parsed_entries(config_text@).unwrap(),
                    parsed_entries(theme_text@).unwrap(),
                ),
                Err(_) => false,
            },
{
    let mut config = match parse_mapping(config_text) {
        Ok(m) => m,
        Err(_) => return Err(MergeError::Config),
    };
    let theme = match parse_mapping(theme_text) {
        Ok(m) => m,
        Err(_) => return Err(MergeError::Theme),
    };
    match replace_colors(&mut config, theme) {
        Ok(()) => Ok(config),
        Err(e) => Err(e),
    }
}

/// The new configuration text: the configuration with the theme's `colors`
/// section spliced in, written out again. Where both documents read and the
/// theme has colours, the result is exactly what serde_yaml writes for the
/// merged mapping, or `Write` where it cannot write it.
pub fn apply_theme(config_text: &str, theme_text: &str) -> (r: Result<String, MergeError>)
    ensures
        parsed_entries(config_text@).is_none() ==> r == Err::<String, MergeError>(MergeError::Config),
        parsed_entries(config_text@).is_some() && parsed_entries(theme_text@).is_none()
            ==> r == Err::<String, MergeError>(MergeError::Theme),
        parsed_entries(config_text@).is_some() && parsed_entries(theme_text@).is_some()
            && !parsed_entries(theme_text@).unwrap().contains_key(colors_key())
            ==> r == Err::<String, MergeError>(MergeError::NoColors),
        parsed_entries(config_text@).is_some() && parsed_entries(theme_text@).is_some()
            && parsed_entries(theme_text@).unwrap().contains_key(colors_key())
            ==> exists|m: serde_yaml::Mapping|
            #![trigger yaml_text(m)]
            mapping_entries(m) == merged(parsed_entries(config_text@).unwrap(), parsed_entries(theme_text@).unwrap())
                && match r {
                Ok(s) => yaml_text(m) == Some(s@),
                Err(e) => e == MergeError::Write && yaml_text(m).is_none(),
            },
{
    let merged_doc = merge_documents(config_text, theme_text)?;
    let written = write_mapping(&merged_doc);
    let r = match written {
        Ok(s) => Ok(s),
        Err(_) => Err(MergeError::Write),
    };
    assert(mapping_entries(merged_doc) == merged(
        parsed_entries(config_text@).unwrap(),
        parsed_entries(theme_text@).unwrap(),
    ) && match r {
        Ok(s) => yaml_text(merged_doc) == Some(s@),
        Err(e) => e == MergeError::Write && yaml_text(merged_doc).is_none(),
    });
    r
}

/// After a merge the configuration's `colors` section is the theme's, and
/// every other entry of the configuration is as it was.
pub proof fn lemma_merge_round_trip(
    config: Map<serde_yaml::Value, serde_yaml::Value>,
    theme: Map<serde_yaml::Value, serde_yaml::Value>,
)
    requires
        theme.contains_key(colors_key()),
    ensures
        merged(config, theme).contains_key(colors_key()),
        merged(config, theme)[colors_key()] == theme[colors_key()],
        merged(config, theme).dom() == config.dom().insert(colors_key()),
        forall|k: serde_yaml::Value| k != colors_key() && config.contains_key(k) ==> #[trigger] merged(config, theme)[k] == config[k],
{
}

/// Applying the same theme a second time changes nothing more.
pub proof fn lemma_merge_idempotent(
    config: Map<serde_yaml::Value, serde_yaml::Value>,
    theme: Map<serde_yaml::Value, serde_yaml::Value>,
)
    ensures
        merged(merged(config, theme), theme) == merged(config, theme),
{
    assert(merged(merged(config, theme), theme) =~= merged(config, theme));
}

/// Applying a theme to the text written by applying it once gives the same
/// configuration again, wherever that text reads back as the mapping it was
/// written from.
pub proof fn lemma_apply_twice(config_text: Seq<char>, theme_text: Seq<char>, written: Seq<char>)
    requires
        parsed_entries(config_text).is_some(),
        parsed_entries(theme_text).is_some(),
        parsed_entries(theme_text).unwrap().contains_key(colors_key()),
        parsed_entries(written) == Some(
            merged(parsed_entries(config_text).unwrap(), parsed_entries(theme_text).unwrap()),
        ),
    ensures
        parsed_entries(written).is_some(),
        merged(parsed_entries(written).unwrap(), parsed_entries(theme_text).unwrap())
            == parsed_entries(written).unwrap(),
{
    lemma_merge_idempotent(parsed_entries(config_text).unwrap(), parsed_entries(theme_text).unwrap());
}

} // verus!
