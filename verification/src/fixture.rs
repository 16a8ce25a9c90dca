//! Fixture specifications: which fixture tree (category and subdirectory)
//! a benchmark or workflow test loads.

use vstd::prelude::*;

verus! {

/// Fixture category.
#[derive(Debug, Clone, Copy, PartialEq, Eq, Structural)]
pub enum FixtureCategory {
    /// Rust project fixtures
    Rust,
    /// Python project fixtures
    Python,
    /// Java project fixtures
    Java,
    /// TypeScript project fixtures
    TypeScript,
    /// C# project fixtures
    CSharp,
    /// C project fixtures
    C,
    /// C++ project fixtures
    Cpp,
    /// Scala project fixtures
    Scala,
    /// Dart project fixtures
    Dart,
    /// Go project fixtures
    Go,
    /// Kotlin project fixtures
    Kotlin,
    /// PHP project fixtures
    Php,
    /// Ruby project fixtures
    Ruby,
    /// JavaScript project fixtures
    JavaScript,
    /// Bash project fixtures
    Bash,
    /// Lua project fixtures
    Lua,
    /// Multi-language project fixtures
    MultiLanguage,
    /// Document fixtures (markdown, plain text, logs, config files)
    Documents,
}

/// Directory name of a category under the fixtures root.
pub open spec fn category_dir(category: FixtureCategory) -> Seq<char> {
    match category {
        FixtureCategory::Rust => "rust"@,
        FixtureCategory::Python => "python"@,
        FixtureCategory::Java => "java"@,
        FixtureCategory::TypeScript => "typescript"@,
        FixtureCategory::CSharp => "csharp"@,
        FixtureCategory::C => "c"@,
        FixtureCategory::Cpp => "cpp"@,
        FixtureCategory::Scala => "scala"@,
        FixtureCategory::Dart => "dart"@,
        FixtureCategory::Go => "go"@,
        FixtureCategory::Kotlin => "kotlin"@,
        FixtureCategory::Php => "php"@,
        FixtureCategory::Ruby => "ruby"@,
        FixtureCategory::JavaScript => "javascript"@,
        FixtureCategory::Bash => "bash"@,
        FixtureCategory::Lua => "lua"@,
        FixtureCategory::MultiLanguage => "multi_language"@,
        FixtureCategory::Documents => "documents"@,
    }
}

impl FixtureCategory {
    /// Directory name for this category.
    pub fn dir_name(&self) -> (res: &'static str)
        ensures
            res@ == category_dir(*self),
    {
        match self {
            FixtureCategory::Rust => "rust",
            FixtureCategory::Python => "python",
            FixtureCategory::Java => "java",
            FixtureCategory::TypeScript => "typescript",
            FixtureCategory::CSharp => "csharp",
            FixtureCategory::C => "c",
            FixtureCategory::Cpp => "cpp",
            FixtureCategory::Scala => "scala",
            FixtureCategory::Dart => "dart",
            FixtureCategory::Go => "go",
            FixtureCategory::Kotlin => "kotlin",
            FixtureCategory::Php => "php",
            FixtureCategory::Ruby => "ruby",
            FixtureCategory::JavaScript => "javascript",
            FixtureCategory::Bash => "bash",
            FixtureCategory::Lua => "lua",
            FixtureCategory::MultiLanguage => "multi_language",
            FixtureCategory::Documents => "documents",
        }
    }
}

/// Fixture specification.
#[derive(Debug, Clone)]
pub struct FixtureSpec {
    /// Category of the fixture.
    pub category: FixtureCategory,
    /// Subdirectory name (e.g. "basic"); empty for the category root.
    pub subdirectory: String,
}

impl FixtureSpec {
    /// Create a new fixture specification
    pub fn new(category: FixtureCategory, subdirectory: &str) -> (res: Self)
        ensures
            res.category == category,
            res.subdirectory@ == subdirectory@,
    {
        FixtureSpec { category, subdirectory: String::from_str(subdirectory) }
    }

    /// Rust basic project fixture
    pub fn rust_basic() -> (res: Self)
        ensures
            res.category == FixtureCategory::Rust,
            res.subdirectory@ == "basic"@,
    {
        Self::new(FixtureCategory::Rust, "basic")
    }

    /// Rust review fixture group
    pub fn rust_review(name: &str) -> (res: Self)
        ensures
            res.category == FixtureCategory::Rust,
            res.subdirectory@ == "review/"@ + name@,
    {
        let mut subdirectory = String::from_str("review/");
        subdirectory.append(name);
        FixtureSpec { category: FixtureCategory::Rust, subdirectory }
    }

    /// Rust once_cell review fixture
    pub fn rust_once_cell() -> (res: Self)
        ensures
            res.category == FixtureCategory::Rust,
            res.subdirectory@ == "review/"@ + "once_cell"@,
    {
        Self::rust_review("once_cell")
    }

    /// Rust distractor fixture (unrelated code for negative samples)
    pub fn rust_distractor() -> (res: Self)
        ensures
            res.category == FixtureCategory::Rust,
            res.subdirectory@ == "distractor"@,
    {
        Self::new(FixtureCategory::Rust, "distractor")
    }

    /// Rust index_sidecar review fixture
    pub fn rust_index_sidecar() -> (res: Self)
        ensures
            res.category == FixtureCategory::Rust,
            res.subdirectory@ == "review/"@ + "index_sidecar"@,
    {
        Self::rust_review("index_sidecar")
    }

    /// Rust relation_demo review fixture
    pub fn rust_relation_demo() -> (res: Self)
        ensures
            res.category == FixtureCategory::Rust,
            res.subdirectory@ == "review/"@ + "relation_demo"@,
    {
        Self::rust_review("relation_demo")
    }

    /// Rust relation_diamond review fixture
    pub fn rust_relation_diamond() -> (res: Self)
        ensures
            res.category == FixtureCategory::Rust,
            res.subdirectory@ == "review/"@ + "relation_diamond"@,
    {
        Self::rust_review("relation_diamond")
    }

    /// Rust ripgrep review fixture
    pub fn rust_ripgrep() -> (res: Self)
        ensures
            res.category == FixtureCategory::Rust,
            res.subdirectory@ == "review/"@ + "ripgrep"@,
    {
        Self::rust_review("ripgrep")
    }

    /// Rust type inference generics fixture
    pub fn rust_type_inference_generics() -> (res: Self)
        ensures
            res.category == FixtureCategory::Rust,
            res.subdirectory@ == "type_inference/generics"@,
    {
        Self::new(FixtureCategory::Rust, "type_inference/generics")
    }

    /// Rust type inference control flow fixture
    pub fn rust_type_inference_control_flow() -> (res: Self)
        ensures
            res.category == FixtureCategory::Rust,
            res.subdirectory@ == "type_inference/control_flow"@,
    {
        Self::new(FixtureCategory::Rust, "type_inference/control_flow")
    }

    /// Rust type inference wildcard import fixture
    pub fn rust_type_inference_wildcard() -> (res: Self)
        ensures
            res.category == FixtureCategory::Rust,
            res.subdirectory@ == "type_inference/wildcard"@,
    {
        Self::new(FixtureCategory::Rust, "type_inference/wildcard")
    }

    /// Rust type inference closure fixture
    pub fn rust_type_inference_closure() -> (res: Self)
        ensures
            res.category == FixtureCategory::Rust,
            res.subdirectory@ == "type_inference/closure"@,
    {
        Self::new(FixtureCategory::Rust, "type_inference/closure")
    }

    /// Rust type inference destructuring fixture
    pub fn rust_type_inference_destructuring() -> (res: Self)
        ensures
            res.category == FixtureCategory::Rust,
            res.subdirectory@ == "type_inference/destructuring"@,
    {
        Self::new(FixtureCategory::Rust, "type_inference/destructuring")
    }

    /// Rust type inference lifetime fixture
    pub fn rust_type_inference_lifetime() -> (res: Self)
        ensures
            res.category == FixtureCategory::Rust,
            res.subdirectory@ == "type_inference/lifetime"@,
    {
        Self::new(FixtureCategory::Rust, "type_inference/lifetime")
    }

    /// Rust type inference impl-Self fixture
    pub fn rust_type_inference_impl_self() -> (res: Self)
        ensures
            res.category == FixtureCategory::Rust,
            res.subdirectory@ == "type_inference/impl_self"@,
    {
        Self::new(FixtureCategory::Rust, "type_inference/impl_self")
    }

    /// Rust type inference reference fixture
    pub fn rust_type_inference_reference() -> (res: Self)
        ensures
            res.category == FixtureCategory::Rust,
            res.subdirectory@ == "type_inference/reference"@,
    {
        Self::new(FixtureCategory::Rust, "type_inference/reference")
    }

    /// Python basic project fixture
    pub fn python_basic() -> (res: Self)
        ensures
            res.category == FixtureCategory::Python,
            res.subdirectory@ == "basic"@,
    {
        Self::new(FixtureCategory::Python, "basic")
    }

    /// Python type inference type hints fixture
    pub fn python_type_inference_type_hints() -> (res: Self)
        ensures
            res.category == FixtureCategory::Python,
            res.subdirectory@ == "type_inference/type_hints"@,
    {
        Self::new(FixtureCategory::Python, "type_inference/type_hints")
    }

    /// Python type inference control flow fixture
    pub fn python_type_inference_control_flow() -> (res: Self)
        ensures
            res.category == FixtureCategory::Python,
            res.subdirectory@ == "type_inference/control_flow"@,
    {
        Self::new(FixtureCategory::Python, "type_inference/control_flow")
    }

    /// Python type inference cross-file fixture
    pub fn python_type_inference_cross_file() -> (res: Self)
        ensures
            res.category == FixtureCategory::Python,
            res.subdirectory@ == "type_inference/cross_file"@,
    {
        Self::new(FixtureCategory::Python, "type_inference/cross_file")
    }

    /// Python type inference visibility fixture
    pub fn python_type_inference_visibility() -> (res: Self)
        ensures
            res.category == FixtureCategory::Python,
            res.subdirectory@ == "type_inference/visibility"@,
    {
        Self::new(FixtureCategory::Python, "type_inference/visibility")
    }

    /// Python type inference lambda fixture
    pub fn python_type_inference_lambda() -> (res: Self)
        ensures
            res.category == FixtureCategory::Python,
            res.subdirectory@ == "type_inference/lambda"@,
    {
        Self::new(FixtureCategory::Python, "type_inference/lambda")
    }

    /// Python type inference discriminated union fixture
    pub fn python_type_inference_discriminated_union() -> (res: Self)
        ensures
            res.category == FixtureCategory::Python,
            res.subdirectory@ == "type_inference/discriminated_union"@,
    {
        Self::new(FixtureCategory::Python, "type_inference/discriminated_union")
    }

    /// Python type inference destructuring fixture
    pub fn python_type_inference_destructuring() -> (res: Self)
        ensures
            res.category == FixtureCategory::Python,
            res.subdirectory@ == "type_inference/destructuring"@,
    {
        Self::new(FixtureCategory::Python, "type_inference/destructuring")
    }

    /// Python type inference negated checks fixture
    pub fn python_type_inference_negated_checks() -> (res: Self)
        ensures
            res.category == FixtureCategory::Python,
            res.subdirectory@ == "type_inference/negated_checks"@,
    {
        Self::new(FixtureCategory::Python, "type_inference/negated_checks")
    }

    /// Java basic project fixture
    pub fn java_basic() -> (res: Self)
        ensures
            res.category == FixtureCategory::Java,
            res.subdirectory@ == "basic"@,
    {
        Self::new(FixtureCategory::Java, "basic")
    }

    /// Java type inference generics fixture
    pub fn java_type_inference_generics() -> (res: Self)
        ensures
            res.category == FixtureCategory::Java,
            res.subdirectory@ == "type_inference/generics"@,
    {
        Self::new(FixtureCategory::Java, "type_inference/generics")
    }

    /// Java type inference control flow fixture
    pub fn java_type_inference_control_flow() -> (res: Self)
        ensures
            res.category == FixtureCategory::Java,
            res.subdirectory@ == "type_inference/control_flow"@,
    {
        Self::new(FixtureCategory::Java, "type_inference/control_flow")
    }

    /// Java type inference visibility fixture
    pub fn java_type_inference_visibility() -> (res: Self)
        ensures
            res.category == FixtureCategory::Java,
            res.subdirectory@ == "type_inference/visibility"@,
    {
        Self::new(FixtureCategory::Java, "type_inference/visibility")
    }

    /// Java type inference overloads fixture
    pub fn java_type_inference_overloads() -> (res: Self)
        ensures
            res.category == FixtureCategory::Java,
            res.subdirectory@ == "type_inference/overloads"@,
    {
        Self::new(FixtureCategory::Java, "type_inference/overloads")
    }

    /// Java type inference cross-file fixture
    pub fn java_type_inference_cross_file() -> (res: Self)
        ensures
            res.category == FixtureCategory::Java,
            res.subdirectory@ == "type_inference/cross_file"@,
    {
        Self::new(FixtureCategory::Java, "type_inference/cross_file")
    }

    /// Java type inference lambda fixture
    pub fn java_type_inference_lambda() -> (res: Self)
        ensures
            res.category == FixtureCategory::Java,
            res.subdirectory@ == "type_inference/lambda"@,
    {
        Self::new(FixtureCategory::Java, "type_inference/lambda")
    }

    /// Java type inference discriminated union fixture
    pub fn java_type_inference_discriminated_union() -> (res: Self)
        ensures
            res.category == FixtureCategory::Java,
            res.subdirectory@ == "type_inference/discriminated_union"@,
    {
        Self::new(FixtureCategory::Java, "type_inference/discriminated_union")
    }

    /// Java type inference pattern matching fixture
    pub fn java_type_inference_pattern_matching() -> (res: Self)
        ensures
            res.category == FixtureCategory::Java,
            res.subdirectory@ == "type_inference/pattern_matching"@,
    {
        Self::new(FixtureCategory::Java, "type_inference/pattern_matching")
    }

    /// Java type inference var inference fixture
    pub fn java_type_inference_var_inference() -> (res: Self)
        ensures
            res.category == FixtureCategory::Java,
            res.subdirectory@ == "type_inference/var_inference"@,
    {
        Self::new(FixtureCategory::Java, "type_inference/var_inference")
    }

    /// Java type inference negated checks fixture
    pub fn java_type_inference_negated_checks() -> (res: Self)
        ensures
            res.category == FixtureCategory::Java,
            res.subdirectory@ == "type_inference/negated_checks"@,
    {
        Self::new(FixtureCategory::Java, "type_inference/negated_checks")
    }

    /// Java type inference control positions fixture
    pub fn java_type_inference_control_positions() -> (res: Self)
        ensures
            res.category == FixtureCategory::Java,
            res.subdirectory@ == "type_inference/control_positions"@,
    {
        Self::new(FixtureCategory::Java, "type_inference/control_positions")
    }

    /// Java Spring Boot minimal demo fixture
    pub fn java_spring_boot() -> (res: Self)
        ensures
            res.category == FixtureCategory::Java,
            res.subdirectory@ == "review/"@ + "springboot-minimal-demo"@,
    {
        Self::java_review("springboot-minimal-demo")
    }

    /// Java jackson-core review fixture
    pub fn java_jackson_core() -> (res: Self)
        ensures
            res.category == FixtureCategory::Java,
            res.subdirectory@ == "review/"@ + "jackson-core"@,
    {
        Self::java_review("jackson-core")
    }

    /// Java review fixture group
    pub fn java_review(name: &str) -> (res: Self)
        ensures
            res.category == FixtureCategory::Java,
            res.subdirectory@ == "review/"@ + name@,
    {
        let mut subdirectory = String::from_str("review/");
        subdirectory.append(name);
        FixtureSpec { category: FixtureCategory::Java, subdirectory }
    }

    /// Java index_sidecar review fixture
    pub fn java_index_sidecar() -> (res: Self)
        ensures
            res.category == FixtureCategory::Java,
            res.subdirectory@ == "review/"@ + "index_sidecar"@,
    {
        Self::java_review("index_sidecar")
    }

    /// Python review fixture group
    pub fn python_review(name: &str) -> (res: Self)
        ensures
            res.category == FixtureCategory::Python,
            res.subdirectory@ == "review/"@ + name@,
    {
        let mut subdirectory = String::from_str("review/");
        subdirectory.append(name);
        FixtureSpec { category: FixtureCategory::Python, subdirectory }
    }

    /// Python index_sidecar review fixture
    pub fn python_index_sidecar() -> (res: Self)
        ensures
            res.category == FixtureCategory::Python,
            res.subdirectory@ == "review/"@ + "index_sidecar"@,
    {
        Self::python_review("index_sidecar")
    }

    /// Python Flask review fixture
    pub fn python_flask() -> (res: Self)
        ensures
            res.category == FixtureCategory::Python,
            res.subdirectory@ == "review/"@ + "flask"@,
    {
        Self::python_review("flask")
    }

    /// Python re-export chain review fixture
    pub fn python_review_re_export() -> (res: Self)
        ensures
            res.category == FixtureCategory::Python,
            res.subdirectory@ == "review/"@ + "re_export"@,
    {
        Self::python_review("re_export")
    }

    /// Python wildcard import review fixture
    pub fn python_review_wildcard() -> (res: Self)
        ensures
            res.category == FixtureCategory::Python,
            res.subdirectory@ == "review/"@ + "wildcard"@,
    {
        Self::python_review("wildcard")
    }

    /// TypeScript basic project fixture (class, functions, module imports)
    pub fn typescript_basic() -> (res: Self)
        ensures
            res.category == FixtureCategory::TypeScript,
            res.subdirectory@ == "basic"@,
    {
        Self::new(FixtureCategory::TypeScript, "basic")
    }

    /// TypeScript review fixture group
    pub fn typescript_review(name: &str) -> (res: Self)
        ensures
            res.category == FixtureCategory::TypeScript,
            res.subdirectory@ == "review/"@ + name@,
    {
        let mut subdirectory = String::from_str("review/");
        subdirectory.append(name);
        FixtureSpec { category: FixtureCategory::TypeScript, subdirectory }
    }

    /// TypeScript index_sidecar review fixture
    pub fn typescript_index_sidecar() -> (res: Self)
        ensures
            res.category == FixtureCategory::TypeScript,
            res.subdirectory@ == "review/"@ + "index_sidecar"@,
    {
        Self::typescript_review("index_sidecar")
    }

    /// TypeScript type inference generics fixture
    pub fn typescript_type_inference_generics() -> (res: Self)
        ensures
            res.category == FixtureCategory::TypeScript,
            res.subdirectory@ == "type_inference/generics"@,
    {
        Self::new(FixtureCategory::TypeScript, "type_inference/generics")
    }

    /// TypeScript type inference unions fixture
    pub fn typescript_type_inference_unions() -> (res: Self)
        ensures
            res.category == FixtureCategory::TypeScript,
            res.subdirectory@ == "type_inference/unions"@,
    {
        Self::new(FixtureCategory::TypeScript, "type_inference/unions")
    }

    /// TypeScript type inference cross-file fixture
    pub fn typescript_type_inference_cross_file() -> (res: Self)
        ensures
            res.category == FixtureCategory::TypeScript,
            res.subdirectory@ == "type_inference/cross_file"@,
    {
        Self::new(FixtureCategory::TypeScript, "type_inference/cross_file")
    }

    /// TypeScript re-export chain review fixture
    pub fn typescript_review_re_export() -> (res: Self)
        ensures
            res.category == FixtureCategory::TypeScript,
            res.subdirectory@ == "review/"@ + "re_export"@,
    {
        Self::typescript_review("re_export")
    }

    /// TypeScript wildcard import review fixture
    pub fn typescript_review_wildcard() -> (res: Self)
        ensures
            res.category == FixtureCategory::TypeScript,
            res.subdirectory@ == "review/"@ + "wildcard"@,
    {
        Self::typescript_review("wildcard")
    }

    /// TypeScript type inference overloads fixture
    pub fn typescript_type_inference_overloads() -> (res: Self)
        ensures
            res.category == FixtureCategory::TypeScript,
            res.subdirectory@ == "type_inference/overloads"@,
    {
        Self::new(FixtureCategory::TypeScript, "type_inference/overloads")
    }

    /// TypeScript type inference visibility fixture
    pub fn typescript_type_inference_visibility() -> (res: Self)
        ensures
            res.category == FixtureCategory::TypeScript,
            res.subdirectory@ == "type_inference/visibility"@,
    {
        Self::new(FixtureCategory::TypeScript, "type_inference/visibility")
    }

    /// TypeScript type inference lambda fixture
    pub fn typescript_type_inference_lambda() -> (res: Self)
        ensures
            res.category == FixtureCategory::TypeScript,
            res.subdirectory@ == "type_inference/lambda"@,
    {
        Self::new(FixtureCategory::TypeScript, "type_inference/lambda")
    }

    /// TypeScript type inference destructuring fixture
    pub fn typescript_type_inference_destructuring() -> (res: Self)
        ensures
            res.category == FixtureCategory::TypeScript,
            res.subdirectory@ == "type_inference/destructuring"@,
    {
        Self::new(FixtureCategory::TypeScript, "type_inference/destructuring")
    }

    /// TypeScript type inference negated checks fixture
    pub fn typescript_type_inference_negated_checks() -> (res: Self)
        ensures
            res.category == FixtureCategory::TypeScript,
            res.subdirectory@ == "type_inference/negated_checks"@,
    {
        Self::new(FixtureCategory::TypeScript, "type_inference/negated_checks")
    }

    /// TypeScript type inference control positions fixture
    pub fn typescript_type_inference_control_positions() -> (res: Self)
        ensures
            res.category == FixtureCategory::TypeScript,
            res.subdirectory@ == "type_inference/control_positions"@,
    {
        Self::new(FixtureCategory::TypeScript, "type_inference/control_positions")
    }

    /// Multi-language project fixture
    pub fn multi_language() -> (res: Self)
        ensures
            res.category == FixtureCategory::MultiLanguage,
            res.subdirectory@ == ""@,
    {
        Self::new(FixtureCategory::MultiLanguage, "")
    }

    /// C# basic project fixture
    pub fn csharp_basic() -> (res: Self)
        ensures
            res.category == FixtureCategory::CSharp,
            res.subdirectory@ == "basic"@,
    {
        Self::new(FixtureCategory::CSharp, "basic")
    }

    /// C# type inference generics fixture
    pub fn csharp_type_inference_generics() -> (res: Self)
        ensures
            res.category == FixtureCategory::CSharp,
            res.subdirectory@ == "type_inference/generics"@,
    {
        Self::new(FixtureCategory::CSharp, "type_inference/generics")
    }

    /// C# type inference control flow fixture
    pub fn csharp_type_inference_control_flow() -> (res: Self)
        ensures
            res.category == FixtureCategory::CSharp,
            res.subdirectory@ == "type_inference/control_flow"@,
    {
        Self::new(FixtureCategory::CSharp, "type_inference/control_flow")
    }

    /// C# type inference overloads fixture
    pub fn csharp_type_inference_overloads() -> (res: Self)
        ensures
            res.category == FixtureCategory::CSharp,
            res.subdirectory@ == "type_inference/overloads"@,
    {
        Self::new(FixtureCategory::CSharp, "type_inference/overloads")
    }

    /// C# type inference cross-file fixture
    pub fn csharp_type_inference_cross_file() -> (res: Self)
        ensures
            res.category == FixtureCategory::CSharp,
            res.subdirectory@ == "type_inference/cross_file"@,
    {
        Self::new(FixtureCategory::CSharp, "type_inference/cross_file")
    }

    /// C# type inference visibility fixture
    pub fn csharp_type_inference_visibility() -> (res: Self)
        ensures
            res.category == FixtureCategory::CSharp,
            res.subdirectory@ == "type_inference/visibility"@,
    {
        Self::new(FixtureCategory::CSharp, "type_inference/visibility")
    }

    /// C# type inference lambda fixture
    pub fn csharp_type_inference_lambda() -> (res: Self)
        ensures
            res.category == FixtureCategory::CSharp,
            res.subdirectory@ == "type_inference/lambda"@,
    {
        Self::new(FixtureCategory::CSharp, "type_inference/lambda")
    }

    /// C# type inference discriminated union fixture
    pub fn csharp_type_inference_discriminated_union() -> (res: Self)
        ensures
            res.category == FixtureCategory::CSharp,
            res.subdirectory@ == "type_inference/discriminated_union"@,
    {
        Self::new(FixtureCategory::CSharp, "type_inference/discriminated_union")
    }

    /// C# type inference is-not fixture
    pub fn csharp_type_inference_is_not() -> (res: Self)
        ensures
            res.category == FixtureCategory::CSharp,
            res.subdirectory@ == "type_inference/is_not"@,
    {
        Self::new(FixtureCategory::CSharp, "type_inference/is_not")
    }

    /// C# type inference control positions fixture
    pub fn csharp_type_inference_control_positions() -> (res: Self)
        ensures
            res.category == FixtureCategory::CSharp,
            res.subdirectory@ == "type_inference/control_positions"@,
    {
        Self::new(FixtureCategory::CSharp, "type_inference/control_positions")
    }

    /// C# review fixture group
    pub fn csharp_review(name: &str) -> (res: Self)
        ensures
            res.category == FixtureCategory::CSharp,
            res.subdirectory@ == "review/"@ + name@,
    {
        let mut subdirectory = String::from_str("review/");
        subdirectory.append(name);
        FixtureSpec { category: FixtureCategory::CSharp, subdirectory }
    }

    /// C# MediatR review fixture
    pub fn csharp_mediatr() -> (res: Self)
        ensures
            res.category == FixtureCategory::CSharp,
            res.subdirectory@ == "review/"@ + "MediatR"@,
    {
        Self::csharp_review("MediatR")
    }

    /// Go basic project fixture
    pub fn go_basic() -> (res: Self)
        ensures
            res.category == FixtureCategory::Go,
            res.subdirectory@ == "basic"@,
    {
        Self::new(FixtureCategory::Go, "basic")
    }

    /// Go type inference interfaces fixture
    pub fn go_type_inference_interfaces() -> (res: Self)
        ensures
            res.category == FixtureCategory::Go,
            res.subdirectory@ == "type_inference/interfaces"@,
    {
        Self::new(FixtureCategory::Go, "type_inference/interfaces")
    }

    /// Go type inference control flow fixture
    pub fn go_type_inference_control_flow() -> (res: Self)
        ensures
            res.category == FixtureCategory::Go,
            res.subdirectory@ == "type_inference/control_flow"@,
    {
        Self::new(FixtureCategory::Go, "type_inference/control_flow")
    }

    /// Go type inference cross-file fixture
    pub fn go_type_inference_cross_file() -> (res: Self)
        ensures
            res.category == FixtureCategory::Go,
            res.subdirectory@ == "type_inference/cross_file"@,
    {
        Self::new(FixtureCategory::Go, "type_inference/cross_file")
    }

    /// Go type inference visibility fixture
    pub fn go_type_inference_visibility() -> (res: Self)
        ensures
            res.category == FixtureCategory::Go,
            res.subdirectory@ == "type_inference/visibility"@,
    {
        Self::new(FixtureCategory::Go, "type_inference/visibility")
    }

    /// Go type inference type assertion fixture
    pub fn go_type_inference_type_assertion() -> (res: Self)
        ensures
            res.category == FixtureCategory::Go,
            res.subdirectory@ == "type_inference/type_assertion"@,
    {
        Self::new(FixtureCategory::Go, "type_inference/type_assertion")
    }

    /// Go review fixture group
    pub fn go_review(name: &str) -> (res: Self)
        ensures
            res.category == FixtureCategory::Go,
            res.subdirectory@ == "review/"@ + name@,
    {
        let mut subdirectory = String::from_str("review/");
        subdirectory.append(name);
        FixtureSpec { category: FixtureCategory::Go, subdirectory }
    }

    /// Go gin review fixture
    pub fn go_gin() -> (res: Self)
        ensures
            res.category == FixtureCategory::Go,
            res.subdirectory@ == "review/"@ + "gin"@,
    {
        Self::go_review("gin")
    }

    /// Kotlin basic project fixture
    pub fn kotlin_basic() -> (res: Self)
        ensures
            res.category == FixtureCategory::Kotlin,
            res.subdirectory@ == "basic"@,
    {
        Self::new(FixtureCategory::Kotlin, "basic")
    }

    /// Kotlin review fixture group
    pub fn kotlin_review(name: &str) -> (res: Self)
        ensures
            res.category == FixtureCategory::Kotlin,
            res.subdirectory@ == "review/"@ + name@,
    {
        let mut subdirectory = String::from_str("review/");
        subdirectory.append(name);
        FixtureSpec { category: FixtureCategory::Kotlin, subdirectory }
    }

    /// Kotlin coroutines review fixture
    pub fn kotlin_review_coroutines() -> (res: Self)
        ensures
            res.category == FixtureCategory::Kotlin,
            res.subdirectory@ == "review/"@ + "coroutines"@,
    {
        Self::kotlin_review("coroutines")
    }

    /// PHP basic project fixture
    pub fn php_basic() -> (res: Self)
        ensures
            res.category == FixtureCategory::Php,
            res.subdirectory@ == "basic"@,
    {
        Self::new(FixtureCategory::Php, "basic")
    }

    /// PHP review fixture group
    pub fn php_review(name: &str) -> (res: Self)
        ensures
            res.category == FixtureCategory::Php,
            res.subdirectory@ == "review/"@ + name@,
    {
        let mut subdirectory = String::from_str("review/");
        subdirectory.append(name);
        FixtureSpec { category: FixtureCategory::Php, subdirectory }
    }

    /// PHP namespace/trait review fixture
    pub fn php_review_namespace_trait() -> (res: Self)
        ensures
            res.category == FixtureCategory::Php,
            res.subdirectory@ == "review/"@ + "namespace_trait"@,
    {
        Self::php_review("namespace_trait")
    }

    /// Ruby basic project fixture
    pub fn ruby_basic() -> (res: Self)
        ensures
            res.category == FixtureCategory::Ruby,
            res.subdirectory@ == "basic"@,
    {
        Self::new(FixtureCategory::Ruby, "basic")
    }

    /// Ruby review fixture group
    pub fn ruby_review(name: &str) -> (res: Self)
        ensures
            res.category == FixtureCategory::Ruby,
            res.subdirectory@ == "review/"@ + name@,
    {
        let mut subdirectory = String::from_str("review/");
        subdirectory.append(name);
        FixtureSpec { category: FixtureCategory::Ruby, subdirectory }
    }

    /// Ruby mixin review fixture
    pub fn ruby_review_mixin() -> (res: Self)
        ensures
            res.category == FixtureCategory::Ruby,
            res.subdirectory@ == "review/"@ + "mixin"@,
    {
        Self::ruby_review("mixin")
    }

    /// JavaScript basic project fixture (class, functions, CommonJS imports)
    pub fn javascript_basic() -> (res: Self)
        ensures
            res.category == FixtureCategory::JavaScript,
            res.subdirectory@ == "basic"@,
    {
        Self::new(FixtureCategory::JavaScript, "basic")
    }

    /// JavaScript review fixture group
    pub fn javascript_review(name: &str) -> (res: Self)
        ensures
            res.category == FixtureCategory::JavaScript,
            res.subdirectory@ == "review/"@ + name@,
    {
        let mut subdirectory = String::from_str("review/");
        subdirectory.append(name);
        FixtureSpec { category: FixtureCategory::JavaScript, subdirectory }
    }

    /// JavaScript Express review fixture
    pub fn javascript_express() -> (res: Self)
        ensures
            res.category == FixtureCategory::JavaScript,
            res.subdirectory@ == "review/"@ + "express"@,
    {
        Self::javascript_review("express")
    }

    /// Document fixture group (markdown / plain text / logs / config files)
    pub fn documents() -> (res: Self)
        ensures
            res.category == FixtureCategory::Documents,
            res.subdirectory@ == ""@,
    {
        Self::new(FixtureCategory::Documents, "")
    }

    /// C basic project fixture (header/source separation)
    pub fn c_basic() -> (res: Self)
        ensures
            res.category == FixtureCategory::C,
            res.subdirectory@ == "basic"@,
    {
        Self::new(FixtureCategory::C, "basic")
    }

    /// C review fixture group
    pub fn c_review(name: &str) -> (res: Self)
        ensures
            res.category == FixtureCategory::C,
            res.subdirectory@ == "review/"@ + name@,
    {
        let mut subdirectory = String::from_str("review/");
        subdirectory.append(name);
        FixtureSpec { category: FixtureCategory::C, subdirectory }
    }

    /// C macros review fixture
    pub fn c_review_macros() -> (res: Self)
        ensures
            res.category == FixtureCategory::C,
            res.subdirectory@ == "review/"@ + "macros"@,
    {
        Self::c_review("macros")
    }

    /// C type inference declarations fixture
    pub fn c_type_inference_declarations() -> (res: Self)
        ensures
            res.category == FixtureCategory::C,
            res.subdirectory@ == "type_inference/declarations"@,
    {
        Self::new(FixtureCategory::C, "type_inference/declarations")
    }

    /// Bash basic project fixture (source/function)
    pub fn bash_basic() -> (res: Self)
        ensures
            res.category == FixtureCategory::Bash,
            res.subdirectory@ == "basic"@,
    {
        Self::new(FixtureCategory::Bash, "basic")
    }

    /// Bash review fixture group
    pub fn bash_review(name: &str) -> (res: Self)
        ensures
            res.category == FixtureCategory::Bash,
            res.subdirectory@ == "review/"@ + name@,
    {
        let mut subdirectory = String::from_str("review/");
        subdirectory.append(name);
        FixtureSpec { category: FixtureCategory::Bash, subdirectory }
    }

    /// Bash pipeline review fixture
    pub fn bash_review_pipeline() -> (res: Self)
        ensures
            res.category == FixtureCategory::Bash,
            res.subdirectory@ == "review/"@ + "pipeline"@,
    {
        Self::bash_review("pipeline")
    }

    /// Bash type inference variables fixture
    pub fn bash_type_inference_variables() -> (res: Self)
        ensures
            res.category == FixtureCategory::Bash,
            res.subdirectory@ == "type_inference/variables"@,
    {
        Self::new(FixtureCategory::Bash, "type_inference/variables")
    }

    /// Lua basic project fixture (require/function)
    pub fn lua_basic() -> (res: Self)
        ensures
            res.category == FixtureCategory::Lua,
            res.subdirectory@ == "basic"@,
    {
        Self::new(FixtureCategory::Lua, "basic")
    }

    /// Lua review fixture group
    pub fn lua_review(name: &str) -> (res: Self)
        ensures
            res.category == FixtureCategory::Lua,
            res.subdirectory@ == "review/"@ + name@,
    {
        let mut subdirectory = String::from_str("review/");
        subdirectory.append(name);
        FixtureSpec { category: FixtureCategory::Lua, subdirectory }
    }

    /// Lua closure review fixture
    pub fn lua_review_closure() -> (res: Self)
        ensures
            res.category == FixtureCategory::Lua,
            res.subdirectory@ == "review/"@ + "closure"@,
    {
        Self::lua_review("closure")
    }

    /// Lua type inference variables fixture
    pub fn lua_type_inference_variables() -> (res: Self)
        ensures
            res.category == FixtureCategory::Lua,
            res.subdirectory@ == "type_inference/variables"@,
    {
        Self::new(FixtureCategory::Lua, "type_inference/variables")
    }

    /// C++ basic project fixture (header/source separation, class, calls)
    pub fn cpp_basic() -> (res: Self)
        ensures
            res.category == FixtureCategory::Cpp,
            res.subdirectory@ == "basic"@,
    {
        Self::new(FixtureCategory::Cpp, "basic")
    }

    /// C++ review fixture group
    pub fn cpp_review(name: &str) -> (res: Self)
        ensures
            res.category == FixtureCategory::Cpp,
            res.subdirectory@ == "review/"@ + name@,
    {
        let mut subdirectory = String::from_str("review/");
        subdirectory.append(name);
        FixtureSpec { category: FixtureCategory::Cpp, subdirectory }
    }

    /// C++ templates review fixture
    pub fn cpp_review_templates() -> (res: Self)
        ensures
            res.category == FixtureCategory::Cpp,
            res.subdirectory@ == "review/"@ + "templates"@,
    {
        Self::cpp_review("templates")
    }

    /// C++ type inference declarations fixture
    pub fn cpp_type_inference_declarations() -> (res: Self)
        ensures
            res.category == FixtureCategory::Cpp,
            res.subdirectory@ == "type_inference/declarations"@,
    {
        Self::new(FixtureCategory::Cpp, "type_inference/declarations")
    }

    /// C++ type inference overloads fixture
    pub fn cpp_type_inference_overloads() -> (res: Self)
        ensures
            res.category == FixtureCategory::Cpp,
            res.subdirectory@ == "type_inference/overloads"@,
    {
        Self::new(FixtureCategory::Cpp, "type_inference/overloads")
    }

    /// Kotlin type inference generics fixture
    pub fn kotlin_type_inference_generics() -> (res: Self)
        ensures
            res.category == FixtureCategory::Kotlin,
            res.subdirectory@ == "type_inference/generics"@,
    {
        Self::new(FixtureCategory::Kotlin, "type_inference/generics")
    }

    /// Kotlin type inference control flow fixture
    pub fn kotlin_type_inference_control_flow() -> (res: Self)
        ensures
            res.category == FixtureCategory::Kotlin,
            res.subdirectory@ == "type_inference/control_flow"@,
    {
        Self::new(FixtureCategory::Kotlin, "type_inference/control_flow")
    }

    /// Kotlin type inference cross-file fixture
    pub fn kotlin_type_inference_cross_file() -> (res: Self)
        ensures
            res.category == FixtureCategory::Kotlin,
            res.subdirectory@ == "type_inference/cross_file"@,
    {
        Self::new(FixtureCategory::Kotlin, "type_inference/cross_file")
    }

    /// Kotlin type inference overloads fixture
    pub fn kotlin_type_inference_overloads() -> (res: Self)
        ensures
            res.category == FixtureCategory::Kotlin,
            res.subdirectory@ == "type_inference/overloads"@,
    {
        Self::new(FixtureCategory::Kotlin, "type_inference/overloads")
    }

    /// Kotlin type inference visibility fixture
    pub fn kotlin_type_inference_visibility() -> (res: Self)
        ensures
            res.category == FixtureCategory::Kotlin,
            res.subdirectory@ == "type_inference/visibility"@,
    {
        Self::new(FixtureCategory::Kotlin, "type_inference/visibility")
    }

    /// Kotlin type inference lambda fixture
    pub fn kotlin_type_inference_lambda() -> (res: Self)
        ensures
            res.category == FixtureCategory::Kotlin,
            res.subdirectory@ == "type_inference/lambda"@,
    {
        Self::new(FixtureCategory::Kotlin, "type_inference/lambda")
    }

    /// Kotlin type inference discriminated union fixture
    pub fn kotlin_type_inference_discriminated_union() -> (res: Self)
        ensures
            res.category == FixtureCategory::Kotlin,
            res.subdirectory@ == "type_inference/discriminated_union"@,
    {
        Self::new(FixtureCategory::Kotlin, "type_inference/discriminated_union")
    }

    /// Kotlin type inference null safety fixture
    pub fn kotlin_type_inference_null_safety() -> (res: Self)
        ensures
            res.category == FixtureCategory::Kotlin,
            res.subdirectory@ == "type_inference/null_safety"@,
    {
        Self::new(FixtureCategory::Kotlin, "type_inference/null_safety")
    }

    /// Kotlin type inference scope functions fixture
    pub fn kotlin_type_inference_scope_functions() -> (res: Self)
        ensures
            res.category == FixtureCategory::Kotlin,
            res.subdirectory@ == "type_inference/scope_functions"@,
    {
        Self::new(FixtureCategory::Kotlin, "type_inference/scope_functions")
    }

    /// Kotlin type inference negated is fixture
    pub fn kotlin_type_inference_negated_is() -> (res: Self)
        ensures
            res.category == FixtureCategory::Kotlin,
            res.subdirectory@ == "type_inference/negated_is"@,
    {
        Self::new(FixtureCategory::Kotlin, "type_inference/negated_is")
    }

    /// Scala type inference declarations fixture
    pub fn scala_type_inference_declarations() -> (res: Self)
        ensures
            res.category == FixtureCategory::Scala,
            res.subdirectory@ == "type_inference/declarations"@,
    {
        Self::new(FixtureCategory::Scala, "type_inference/declarations")
    }

    /// Scala type inference control flow fixture
    pub fn scala_type_inference_control_flow() -> (res: Self)
        ensures
            res.category == FixtureCategory::Scala,
            res.subdirectory@ == "type_inference/control_flow"@,
    {
        Self::new(FixtureCategory::Scala, "type_inference/control_flow")
    }

    /// Scala type inference cross-file fixture
    pub fn scala_type_inference_cross_file() -> (res: Self)
        ensures
            res.category == FixtureCategory::Scala,
            res.subdirectory@ == "type_inference/cross_file"@,
    {
        Self::new(FixtureCategory::Scala, "type_inference/cross_file")
    }

    /// Scala type inference overloads fixture
    pub fn scala_type_inference_overloads() -> (res: Self)
        ensures
            res.category == FixtureCategory::Scala,
            res.subdirectory@ == "type_inference/overloads"@,
    {
        Self::new(FixtureCategory::Scala, "type_inference/overloads")
    }

    /// Scala type inference visibility fixture
    pub fn scala_type_inference_visibility() -> (res: Self)
        ensures
            res.category == FixtureCategory::Scala,
            res.subdirectory@ == "type_inference/visibility"@,
    {
        Self::new(FixtureCategory::Scala, "type_inference/visibility")
    }

    /// Scala type inference for-comprehension fixture
    pub fn scala_type_inference_for_comprehension() -> (res: Self)
        ensures
            res.category == FixtureCategory::Scala,
            res.subdirectory@ == "type_inference/for_comprehension"@,
    {
        Self::new(FixtureCategory::Scala, "type_inference/for_comprehension")
    }

    /// Scala basic project fixture (class, object, trait)
    pub fn scala_basic() -> (res: Self)
        ensures
            res.category == FixtureCategory::Scala,
            res.subdirectory@ == "basic"@,
    {
        Self::new(FixtureCategory::Scala, "basic")
    }

    /// Scala review fixture group
    pub fn scala_review(name: &str) -> (res: Self)
        ensures
            res.category == FixtureCategory::Scala,
            res.subdirectory@ == "review/"@ + name@,
    {
        let mut subdirectory = String::from_str("review/");
        subdirectory.append(name);
        FixtureSpec { category: FixtureCategory::Scala, subdirectory }
    }

    /// Scala case class review fixture
    pub fn scala_review_case_class() -> (res: Self)
        ensures
            res.category == FixtureCategory::Scala,
            res.subdirectory@ == "review/"@ + "case_class"@,
    {
        Self::scala_review("case_class")
    }

    /// Ruby type inference constructors fixture
    pub fn ruby_type_inference_constructors() -> (res: Self)
        ensures
            res.category == FixtureCategory::Ruby,
            res.subdirectory@ == "type_inference/constructors"@,
    {
        Self::new(FixtureCategory::Ruby, "type_inference/constructors")
    }

    /// Ruby type inference cross-file fixture
    pub fn ruby_type_inference_cross_file() -> (res: Self)
        ensures
            res.category == FixtureCategory::Ruby,
            res.subdirectory@ == "type_inference/cross_file"@,
    {
        Self::new(FixtureCategory::Ruby, "type_inference/cross_file")
    }

    /// PHP type inference phpdoc fixture
    pub fn php_type_inference_phpdoc() -> (res: Self)
        ensures
            res.category == FixtureCategory::Php,
            res.subdirectory@ == "type_inference/phpdoc"@,
    {
        Self::new(FixtureCategory::Php, "type_inference/phpdoc")
    }

    /// PHP type inference cross-file fixture
    pub fn php_type_inference_cross_file() -> (res: Self)
        ensures
            res.category == FixtureCategory::Php,
            res.subdirectory@ == "type_inference/cross_file"@,
    {
        Self::new(FixtureCategory::Php, "type_inference/cross_file")
    }

    /// PHP type inference overloads fixture
    pub fn php_type_inference_overloads() -> (res: Self)
        ensures
            res.category == FixtureCategory::Php,
            res.subdirectory@ == "type_inference/overloads"@,
    {
        Self::new(FixtureCategory::Php, "type_inference/overloads")
    }

    /// Dart type inference declarations fixture
    pub fn dart_type_inference_declarations() -> (res: Self)
        ensures
            res.category == FixtureCategory::Dart,
            res.subdirectory@ == "type_inference/declarations"@,
    {
        Self::new(FixtureCategory::Dart, "type_inference/declarations")
    }

    /// Dart type inference control flow fixture
    pub fn dart_type_inference_control_flow() -> (res: Self)
        ensures
            res.category == FixtureCategory::Dart,
            res.subdirectory@ == "type_inference/control_flow"@,
    {
        Self::new(FixtureCategory::Dart, "type_inference/control_flow")
    }

    /// Dart type inference cross-file fixture
    pub fn dart_type_inference_cross_file() -> (res: Self)
        ensures
            res.category == FixtureCategory::Dart,
            res.subdirectory@ == "type_inference/cross_file"@,
    {
        Self::new(FixtureCategory::Dart, "type_inference/cross_file")
    }

    /// Dart type inference overloads fixture
    pub fn dart_type_inference_overloads() -> (res: Self)
        ensures
            res.category == FixtureCategory::Dart,
            res.subdirectory@ == "type_inference/overloads"@,
    {
        Self::new(FixtureCategory::Dart, "type_inference/overloads")
    }

    /// Dart type inference discriminated union fixture
    pub fn dart_type_inference_discriminated_union() -> (res: Self)
        ensures
            res.category == FixtureCategory::Dart,
            res.subdirectory@ == "type_inference/discriminated_union"@,
    {
        Self::new(FixtureCategory::Dart, "type_inference/discriminated_union")
    }

    /// Dart type inference is-negated fixture
    pub fn dart_type_inference_is_negated() -> (res: Self)
        ensures
            res.category == FixtureCategory::Dart,
            res.subdirectory@ == "type_inference/is_negated"@,
    {
        Self::new(FixtureCategory::Dart, "type_inference/is_negated")
    }

    /// Dart type inference control positions fixture
    pub fn dart_type_inference_control_positions() -> (res: Self)
        ensures
            res.category == FixtureCategory::Dart,
            res.subdirectory@ == "type_inference/control_positions"@,
    {
        Self::new(FixtureCategory::Dart, "type_inference/control_positions")
    }

    /// Dart basic project fixture (class, functions, imports)
    pub fn dart_basic() -> (res: Self)
        ensures
            res.category == FixtureCategory::Dart,
            res.subdirectory@ == "basic"@,
    {
        Self::new(FixtureCategory::Dart, "basic")
    }

    /// Dart review fixture group
    pub fn dart_review(name: &str) -> (res: Self)
        ensures
            res.category == FixtureCategory::Dart,
            res.subdirectory@ == "review/"@ + name@,
    {
        let mut subdirectory = String::from_str("review/");
        subdirectory.append(name);
        FixtureSpec { category: FixtureCategory::Dart, subdirectory }
    }

    /// Dart mixin/async review fixture
    pub fn dart_review_mixin_async() -> (res: Self)
        ensures
            res.category == FixtureCategory::Dart,
            res.subdirectory@ == "review/"@ + "mixin_async"@,
    {
        Self::dart_review("mixin_async")
    }

    /// JavaScript type inference narrowing fixture
    pub fn javascript_type_inference_narrowing() -> (res: Self)
        ensures
            res.category == FixtureCategory::JavaScript,
            res.subdirectory@ == "type_inference/narrowing"@,
    {
        Self::new(FixtureCategory::JavaScript, "type_inference/narrowing")
    }

    /// JavaScript type inference cross-file fixture
    pub fn javascript_type_inference_cross_file() -> (res: Self)
        ensures
            res.category == FixtureCategory::JavaScript,
            res.subdirectory@ == "type_inference/cross_file"@,
    {
        Self::new(FixtureCategory::JavaScript, "type_inference/cross_file")
    }

    /// JavaScript type inference wildcard import fixture
    pub fn javascript_type_inference_wildcard() -> (res: Self)
        ensures
            res.category == FixtureCategory::JavaScript,
            res.subdirectory@ == "type_inference/wildcard"@,
    {
        Self::new(FixtureCategory::JavaScript, "type_inference/wildcard")
    }

}

} // verus!
