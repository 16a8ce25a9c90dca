//! Report metadata and the reporter that writes result files.

use vstd::prelude::*;
use std::collections::HashMap;
use crate::output_manager::OutputManager;
use crate::paths::join_spec;
use crate::output_serializer::{OutputFormat, OutputSerializer};

verus! {

/// Report metadata.
#[derive(Debug, Clone, Default)]
pub struct ReportMetadata {
    /// Test description
    pub description: Option<String>,
    /// Test category
    pub category: Option<String>,
    /// Test tags
    pub tags: Vec<String>,
    /// Additional key-value pairs
    pub extra: HashMap<String, String>,
}

/// Sets `key` to `value` in a string map.
///
/// Trusted: `HashMap::insert`. The contract claims that afterwards the map
/// holds `key` with `value` and is otherwise unchanged (keys compared as
/// strings).
#[verifier::external_body]
fn insert_entry(map: &mut HashMap<String, String>, key: String, value: String)
    ensures
        final(map).deep_view() == old(map).deep_view().insert(key@, value@),
{
    map.insert(key, value);
}

/// Optional string by its characters.
pub open spec fn opt_view(s: Option<String>) -> Option<Seq<char>> {
    match s {
        Some(v) => Some(v@),
        None => None,
    }
}

impl ReportMetadata {
    /// Empty metadata.
    pub fn new() -> (res: Self)
        ensures
            res.description is None,
            res.category is None,
            res.tags@.len() == 0,
            res.extra.deep_view() == Map::<Seq<char>, Seq<char>>::empty(),
    {
        let extra: HashMap<String, String> = HashMap::new();
        proof {
            vstd::std_specs::hash::lemma_hashmap_deepview_dom(extra);
            assert(extra@.dom() =~= Set::<String>::empty());
            assert(extra.deep_view().dom() =~= Set::<Seq<char>>::empty());
            assert(extra.deep_view() =~= Map::<Seq<char>, Seq<char>>::empty());
        }
        ReportMetadata { description: None, category: None, tags: Vec::new(), extra }
    }

    /// Sets the description.
    pub fn description(self, desc: &str) -> (res: Self)
        ensures
            opt_view(res.description) == Some(desc@),
            res.category == self.category,
            res.tags@ == self.tags@,
            res.extra == self.extra,
    {
        ReportMetadata { description: Some(String::from_str(desc)), ..self }
    }

    /// Sets the category.
    pub fn category(self, cat: &str) -> (res: Self)
        ensures
            opt_view(res.category) == Some(cat@),
            res.description == self.description,
            res.tags@ == self.tags@,
            res.extra == self.extra,
    {
        ReportMetadata { category: Some(String::from_str(cat)), ..self }
    }

    /// Adds a tag after the existing ones.
    pub fn tag(self, tag: &str) -> (res: Self)
        ensures
            res.tags@.len() == self.tags@.len() + 1,
            res.tags@.take(self.tags@.len() as int) == self.tags@,
            res.tags@.last()@ == tag@,
            res.description == self.description,
            res.category == self.category,
            res.extra == self.extra,
    {
        let mut md = self;
        md.tags.push(String::from_str(tag));
        proof {
            assert(md.tags@.take(self.tags@.len() as int) =~= self.tags@);
        }
        md
    }

    /// Sets an extra key-value pair (a later value for the same key wins).
    pub fn extra(self, key: &str, value: &str) -> (res: Self)
        ensures
            res.extra.deep_view() == self.extra.deep_view().insert(key@, value@),
            res.description == self.description,
            res.category == self.category,
            res.tags@ == self.tags@,
    {
        let mut md = self;
        insert_entry(&mut md.extra, String::from_str(key), String::from_str(value));
        md
    }
}

/// Reporter: the output manager that places files, the serializer that
/// formats results, and the metadata attached to reports.
pub struct OutputReporter {
    /// Output manager
    pub manager: OutputManager,
    serializer: OutputSerializer,
    metadata: ReportMetadata,
}

impl OutputReporter {
    pub closed spec fn manager_spec(&self) -> OutputManager {
        self.manager
    }

    pub closed spec fn serializer_spec(&self) -> OutputSerializer {
        self.serializer
    }

    pub closed spec fn metadata_spec(&self) -> ReportMetadata {
        self.metadata
    }

    /// A reporter with empty metadata.
    pub fn new(manager: OutputManager, serializer: OutputSerializer) -> (res: Self)
        ensures
            res.manager_spec() == manager,
            res.serializer_spec() == serializer,
            res.metadata_spec().description is None,
            res.metadata_spec().category is None,
            res.metadata_spec().tags@.len() == 0,
            res.metadata_spec().extra.deep_view() == Map::<Seq<char>, Seq<char>>::empty(),
    {
        OutputReporter { manager, serializer, metadata: ReportMetadata::new() }
    }

    /// Replaces the report metadata.
    pub fn with_metadata(self, metadata: ReportMetadata) -> (res: Self)
        ensures
            res.metadata_spec() == metadata,
            res.manager_spec() == self.manager_spec(),
            res.serializer_spec() == self.serializer_spec(),
    {
        OutputReporter { metadata, ..self }
    }

    /// The report metadata.
    pub fn metadata(&self) -> (res: &ReportMetadata)
        ensures
            *res == self.metadata_spec(),
    {
        &self.metadata
    }

    /// Format of the reports.
    pub fn format(&self) -> (res: OutputFormat)
        ensures
            res == self.serializer_spec().format_spec(),
    {
        self.serializer.format()
    }
}

impl OutputReporter {
    /// A JSON reporter with empty metadata on the default output manager of
    /// the crate rooted at `manifest_dir`.
    pub fn default_under(manifest_dir: &str) -> (res: Self)
        ensures
            res.manager_spec().config_spec().base_dir@ == join_spec(manifest_dir@, "outputs"@),
            !res.manager_spec().config_spec().use_timestamp,
            res.manager_spec().config_spec().overwrite,
            res.manager_spec().language_spec() is None,
            res.manager_spec().scenario_spec() is None,
            res.manager_spec().category_spec() is None,
            res.serializer_spec().format_spec() == OutputFormat::Json,
            res.metadata_spec().description is None,
            res.metadata_spec().category is None,
            res.metadata_spec().tags@.len() == 0,
            res.metadata_spec().extra.deep_view() == Map::<Seq<char>, Seq<char>>::empty(),
    {
        Self::new(OutputManager::new(manifest_dir), OutputSerializer::json())
    }
}

} // verus!
