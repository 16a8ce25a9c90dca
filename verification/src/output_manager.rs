//! Output directory layout for test results:
//! `base_dir/category[/language]/scenario[/timestamp]`.

use vstd::prelude::*;
use crate::paths::{join_spec, path_join};

verus! {

/// Output category: the first directory level under the base directory.
#[derive(Debug, Clone, Copy, PartialEq, Eq, Hash, Structural)]
pub enum OutputCategory {
    /// Index workflow results
    Index,
    /// Query workflow results
    Query,
    /// Scenario test results
    Scenarios,
    /// Hot update workflow results
    HotUpdate,
}

impl OutputCategory {
    pub open spec fn dir_name_spec(self) -> Seq<char> {
        match self {
            OutputCategory::Index => "index"@,
            OutputCategory::Query => "query"@,
            OutputCategory::Scenarios => "scenarios"@,
            OutputCategory::HotUpdate => "hot_update"@,
        }
    }

    /// Directory name for this category.
    pub fn dir_name(&self) -> (res: &'static str)
        ensures
            res@ == self.dir_name_spec(),
    {
        match self {
            OutputCategory::Index => "index",
            OutputCategory::Query => "query",
            OutputCategory::Scenarios => "scenarios",
            OutputCategory::HotUpdate => "hot_update",
        }
    }
}

/// Output configuration.
#[derive(Debug, Clone)]
pub struct OutputConfig {
    /// Base output directory (default: `outputs` under the crate root)
    pub base_dir: String,
    /// Whether to create timestamped subdirectories
    pub use_timestamp: bool,
    /// Whether to overwrite existing files
    pub overwrite: bool,
}

impl OutputConfig {
    /// The default configuration of the crate rooted at `manifest_dir`:
    /// base directory `outputs` under it, no timestamp directories,
    /// overwriting allowed.
    pub fn default_under(manifest_dir: &str) -> (res: Self)
        ensures
            res.base_dir@ == join_spec(manifest_dir@, "outputs"@),
            !res.use_timestamp,
            res.overwrite,
    {
        OutputConfig { base_dir: path_join(manifest_dir, "outputs"), use_timestamp: false, overwrite: true }
    }
}

/// Local time as `YYYYmmdd_HHMMSS`.
///
/// Trusted: `chrono::Local::now` formatted with `%Y%m%d_%H%M%S`. Nothing is
/// claimed of the result: it depends on the clock and the time zone.
#[verifier::external_body]
fn local_timestamp() -> String {
    chrono::Local::now().format("%Y%m%d_%H%M%S").to_string()
}

/// Output manager: the configuration plus the optional category, language
/// and scenario that select a directory.
pub struct OutputManager {
    config: OutputConfig,
    language: Option<String>,
    scenario: Option<String>,
    category: Option<OutputCategory>,
}

/// `dir` extended by an optional component.
pub open spec fn join_opt(dir: Seq<char>, part: Option<Seq<char>>) -> Seq<char> {
    match part {
        Some(p) => join_spec(dir, p),
        None => dir,
    }
}

/// `base_dir/category[/language]/scenario` before any timestamp.
pub open spec fn context_dir(
    base_dir: Seq<char>,
    category: Option<OutputCategory>,
    language: Option<Seq<char>>,
    scenario: Option<Seq<char>>,
) -> Seq<char> {
    let with_category = match category {
        Some(c) => join_spec(base_dir, c.dir_name_spec()),
        None => base_dir,
    };
    join_opt(join_opt(with_category, language), scenario)
}

fn join_opt_exec(dir: String, part: &Option<String>) -> (res: String)
    ensures
        res@ == join_opt(dir@, match part {
            Some(p) => Some(p@),
            None => None,
        }),
{
    match part {
        Some(p) => path_join(dir.as_str(), p.as_str()),
        None => dir,
    }
}

impl OutputManager {
    pub closed spec fn config_spec(&self) -> OutputConfig {
        self.config
    }

    pub closed spec fn language_spec(&self) -> Option<Seq<char>> {
        match self.language {
            Some(l) => Some(l@),
            None => None,
        }
    }

    pub closed spec fn scenario_spec(&self) -> Option<Seq<char>> {
        match self.scenario {
            Some(s) => Some(s@),
            None => None,
        }
    }

    pub closed spec fn category_spec(&self) -> Option<OutputCategory> {
        self.category
    }

    /// Output directory for a given timestamp directory name.
    pub open spec fn dir_at_spec(&self, timestamp: Seq<char>) -> Seq<char> {
        if self.config_spec().use_timestamp {
            join_spec(self.context_dir_spec(), timestamp)
        } else {
            self.context_dir_spec()
        }
    }

    /// Directory of the current context, without a timestamp.
    pub open spec fn context_dir_spec(&self) -> Seq<char> {
        context_dir(self.config_spec().base_dir@, self.category_spec(), self.language_spec(), self.scenario_spec())
    }

    /// A manager with the default configuration of the crate rooted at
    /// `manifest_dir` and no context.
    pub fn new(manifest_dir: &str) -> (res: Self)
        ensures
            res.config_spec().base_dir@ == join_spec(manifest_dir@, "outputs"@),
            !res.config_spec().use_timestamp,
            res.config_spec().overwrite,
            res.language_spec() is None,
            res.scenario_spec() is None,
            res.category_spec() is None,
    {
        OutputManager { config: OutputConfig::default_under(manifest_dir), language: None, scenario: None, category: None }
    }

    /// Sets the language scope.
    pub fn language(self, name: &str) -> (res: Self)
        ensures
            res.language_spec() == Some(name@),
            res.config_spec() == self.config_spec(),
            res.scenario_spec() == self.scenario_spec(),
            res.category_spec() == self.category_spec(),
    {
        OutputManager { language: Some(String::from_str(name)), ..self }
    }

    /// Sets the test scenario.
    pub fn scenario(self, name: &str) -> (res: Self)
        ensures
            res.scenario_spec() == Some(name@),
            res.config_spec() == self.config_spec(),
            res.language_spec() == self.language_spec(),
            res.category_spec() == self.category_spec(),
    {
        OutputManager { scenario: Some(String::from_str(name)), ..self }
    }

    /// Sets the output category.
    pub fn category(self, category: OutputCategory) -> (res: Self)
        ensures
            res.category_spec() == Some(category),
            res.config_spec() == self.config_spec(),
            res.language_spec() == self.language_spec(),
            res.scenario_spec() == self.scenario_spec(),
    {
        OutputManager { category: Some(category), ..self }
    }

    /// Whether existing files may be overwritten.
    pub fn overwrite(&self) -> (res: bool)
        ensures
            res == self.config_spec().overwrite,
    {
        self.config.overwrite
    }

    /// Output directory of the current context with the given timestamp
    /// directory appended when timestamps are enabled.
    pub fn output_dir_at(&self, timestamp: &str) -> (res: String)
        ensures
            res@ == self.dir_at_spec(timestamp@),
    {
        let mut dir = String::from_str(self.config.base_dir.as_str());
        match &self.category {
            Some(c) => {
                dir = path_join(dir.as_str(), c.dir_name());
            },
            None => {},
        }
        dir = join_opt_exec(dir, &self.language);
        dir = join_opt_exec(dir, &self.scenario);
        if self.config.use_timestamp {
            dir = path_join(dir.as_str(), timestamp);
        }
        dir
    }

    /// Output directory of the current context:
    /// `base_dir/category[/language]/scenario[/timestamp]`.
    pub fn output_dir(&self) -> (res: String)
        ensures
            !self.config_spec().use_timestamp ==> res@ == self.context_dir_spec(),
            self.config_spec().use_timestamp ==> exists|t: Seq<char>| res@ == join_spec(self.context_dir_spec(), t),
    {
        if self.config.use_timestamp {
            let ts = local_timestamp();
            self.output_dir_at(ts.as_str())
        } else {
            self.output_dir_at("")
        }
    }

    /// Path of a file in the output directory.
    pub fn output_path(&self, filename: &str) -> (res: String)
        ensures
            !self.config_spec().use_timestamp ==> res@ == join_spec(self.context_dir_spec(), filename@),
            self.config_spec().use_timestamp ==> exists|t: Seq<char>|
                res@ == join_spec(join_spec(self.context_dir_spec(), t), filename@),
    {
        let dir = self.output_dir();
        path_join(dir.as_str(), filename)
    }

    /// A builder for a specific test output of the crate rooted at
    /// `manifest_dir`.
    pub fn builder(manifest_dir: &str) -> (res: OutputBuilder)
        ensures
            res.config_spec().base_dir@ == join_spec(manifest_dir@, "outputs"@),
            !res.config_spec().use_timestamp,
            res.config_spec().overwrite,
            res.language_spec() is None,
            res.scenario_spec() is None,
            res.category_spec() is None,
    {
        OutputBuilder::new(manifest_dir)
    }
}

/// Builder of an output context.
pub struct OutputBuilder {
    config: OutputConfig,
    language: Option<String>,
    category: Option<OutputCategory>,
    scenario: Option<String>,
}

/// The output directory depends only on the base directory, the timestamp
/// switch and the chosen category, language and scenario: two managers that
/// agree on these give the same directory for every timestamp, whatever
/// order the setters were called in and whether they were built through a
/// builder or from `new`. The directory is `base/category[/language]
/// [/scenario][/timestamp]`.
pub proof fn lemma_output_dir_determined(a: OutputManager, b: OutputManager, timestamp: Seq<char>)
    requires
        a.config_spec().base_dir@ == b.config_spec().base_dir@,
        a.config_spec().use_timestamp == b.config_spec().use_timestamp,
        a.category_spec() == b.category_spec(),
        a.language_spec() == b.language_spec(),
        a.scenario_spec() == b.scenario_spec(),
    ensures
        a.dir_at_spec(timestamp) == b.dir_at_spec(timestamp),
        a.context_dir_spec() == join_opt(join_opt(match a.category_spec() {
            Some(c) => join_spec(a.config_spec().base_dir@, c.dir_name_spec()),
            None => a.config_spec().base_dir@,
        }, a.language_spec()), a.scenario_spec()),
{
}

impl OutputBuilder {
    pub closed spec fn config_spec(&self) -> OutputConfig {
        self.config
    }

    pub closed spec fn language_spec(&self) -> Option<Seq<char>> {
        match self.language {
            Some(l) => Some(l@),
            None => None,
        }
    }

    pub closed spec fn scenario_spec(&self) -> Option<Seq<char>> {
        match self.scenario {
            Some(s) => Some(s@),
            None => None,
        }
    }

    pub closed spec fn category_spec(&self) -> Option<OutputCategory> {
        self.category
    }

    /// A builder with the default configuration of the crate rooted at
    /// `manifest_dir` and no context.
    pub fn new(manifest_dir: &str) -> (res: Self)
        ensures
            res.config_spec().base_dir@ == join_spec(manifest_dir@, "outputs"@),
            !res.config_spec().use_timestamp,
            res.config_spec().overwrite,
            res.language_spec() is None,
            res.scenario_spec() is None,
            res.category_spec() is None,
    {
        OutputBuilder { config: OutputConfig::default_under(manifest_dir), language: None, category: None, scenario: None }
    }

    /// Sets the language scope.
    pub fn language(self, name: &str) -> (res: Self)
        ensures
            res.language_spec() == Some(name@),
            res.config_spec() == self.config_spec(),
            res.scenario_spec() == self.scenario_spec(),
            res.category_spec() == self.category_spec(),
    {
        OutputBuilder { language: Some(String::from_str(name)), ..self }
    }

    /// Sets the output category.
    pub fn category(self, category: OutputCategory) -> (res: Self)
        ensures
            res.category_spec() == Some(category),
            res.config_spec() == self.config_spec(),
            res.language_spec() == self.language_spec(),
            res.scenario_spec() == self.scenario_spec(),
    {
        OutputBuilder { category: Some(category), ..self }
    }

    /// Sets the scenario name.
    pub fn scenario(self, name: &str) -> (res: Self)
        ensures
            res.scenario_spec() == Some(name@),
            res.config_spec() == self.config_spec(),
            res.language_spec() == self.language_spec(),
            res.category_spec() == self.category_spec(),
    {
        OutputBuilder { scenario: Some(String::from_str(name)), ..self }
    }

    /// Builds the output manager with the collected context.
    pub fn build(self) -> (res: OutputManager)
        ensures
            res.config_spec() == self.config_spec(),
            res.language_spec() == self.language_spec(),
            res.scenario_spec() == self.scenario_spec(),
            res.category_spec() == self.category_spec(),
    {
        OutputManager { config: self.config, language: self.language, category: self.category, scenario: self.scenario }
    }
}

} // verus!
