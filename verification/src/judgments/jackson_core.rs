//! Range-based relevance judgments for the jackson-core review fixture.
//!
//! The fixture `fixtures/java/review/jackson-core` is the upstream Jackson
//! streaming parser library (larger than ripgrep), so the judgment set covers
//! its full public API surface and internal engine packages. 45 benchmark
//! queries, mirroring the ripgrep calibration:
//! - G1: Qualified symbol queries (10) - symbol tokens in natural-language
//!   structure (e.g. `nextToken in JsonParser`), Strong only
//! - G2: Semantic queries (20) - Strong + Related, single-entity ranges
//! - FZ: Fuzzy queries (15) - lexical perturbations of G1 sources
//!
//! All line ranges verified against
//! `fixtures/java/review/jackson-core/src/main/java/tools/jackson/core/`.
//! Each range is confined to a single method/class definition to avoid
//! chunking boundary issues. Callers/callees and format-specific overrides
//! are judged Related, not Strong.

use vstd::prelude::*;
use crate::bench_data::{JudgmentView, QueryType, RelevanceJudgment, RelevanceLevel, SourceRange, judgment_views, judgment_wf};
use crate::bench_data::{judgment_view, range_view};
use crate::bench_data::QueryType::{Qualified, Semantic};
use crate::bench_data::RelevanceLevel as RL;

verus! {

fn strong(
    id: &str,
    query_text: &str,
    query_type: QueryType,
    file: &str,
    start_line: usize,
    end_line: usize,
) -> (res: RelevanceJudgment)
    requires
        1 <= start_line <= end_line,
        query_type != QueryType::Fuzzy,
    ensures
        judgment_wf(res),
        res.id@ == id@,
        res.query_type == query_type,
        res.relevant_ranges@.len() == 1,
        judgment_view(res) == (id@, query_text@, query_type, None::<Seq<char>>, seq![(file@, start_line, end_line, RelevanceLevel::Strong)]),
{
    let mut relevant_ranges = Vec::new();
    relevant_ranges.push((
        SourceRange { file: String::from_str(file), start_line, end_line },
        RelevanceLevel::Strong,
    ));
    proof {
        assert(relevant_ranges@.map_values(|r: (SourceRange, RelevanceLevel)| range_view(r)) =~= seq![(file@, start_line, end_line, RelevanceLevel::Strong)]);
    }
    RelevanceJudgment {
        id: String::from_str(id),
        query_text: String::from_str(query_text),
        query_type,
        fuzzy_subtype: None,
        relevant_ranges,
    }
}

fn fuzzy_strong(
    id: &str,
    query_text: &str,
    subtype: &str,
    file: &str,
    start_line: usize,
    end_line: usize,
) -> (res: RelevanceJudgment)
    requires
        1 <= start_line <= end_line,
    ensures
        judgment_wf(res),
        res.id@ == id@,
        res.query_type == QueryType::Fuzzy,
        res.relevant_ranges@.len() == 1,
        judgment_view(res) == (id@, query_text@, QueryType::Fuzzy, Some(subtype@), seq![(file@, start_line, end_line, RelevanceLevel::Strong)]),
{
    let mut relevant_ranges = Vec::new();
    relevant_ranges.push((
        SourceRange { file: String::from_str(file), start_line, end_line },
        RelevanceLevel::Strong,
    ));
    proof {
        assert(relevant_ranges@.map_values(|r: (SourceRange, RelevanceLevel)| range_view(r)) =~= seq![(file@, start_line, end_line, RelevanceLevel::Strong)]);
    }
    RelevanceJudgment {
        id: String::from_str(id),
        query_text: String::from_str(query_text),
        query_type: QueryType::Fuzzy,
        fuzzy_subtype: Some(String::from_str(subtype)),
        relevant_ranges,
    }
}

fn range(
    file: &str,
    start_line: usize,
    end_line: usize,
    level: RelevanceLevel,
) -> (res: (SourceRange, RelevanceLevel))
    ensures
        res.0.file@ == file@,
        res.0.start_line == start_line,
        res.0.end_line == end_line,
        res.1 == level,
        range_view(res) == (file@, start_line, end_line, level),
{
    (SourceRange { file: String::from_str(file), start_line, end_line }, level)
}

/// The table as values: id, query text, query type, fuzzy subtype and
/// the (file, start line, end line, level) of every relevant range.
pub open spec fn jackson_core_table() -> Seq<JudgmentView> {
    seq![
        ("G1Q1"@, "nextToken method in JsonParser"@, QueryType::Qualified, None, seq![("src/main/java/tools/jackson/core/JsonParser.java"@, 433usize, 433usize, RelevanceLevel::Strong)]),
        ("G1Q2"@, "writeString method in JsonGenerator"@, QueryType::Qualified, None, seq![("src/main/java/tools/jackson/core/JsonGenerator.java"@, 705usize, 705usize, RelevanceLevel::Strong)]),
        ("G1Q3"@, "compile method in JsonPointer"@, QueryType::Qualified, None, seq![("src/main/java/tools/jackson/core/JsonPointer.java"@, 211usize, 227usize, RelevanceLevel::Strong)]),
        ("G1Q4"@, "createParser method in TokenStreamFactory"@, QueryType::Qualified, None, seq![("src/main/java/tools/jackson/core/TokenStreamFactory.java"@, 601usize, 601usize, RelevanceLevel::Strong)]),
        ("G1Q5"@, "createNonBlockingByteArrayParser method in JsonFactory"@, QueryType::Qualified, None, seq![("src/main/java/tools/jackson/core/json/JsonFactory.java"@, 351usize, 351usize, RelevanceLevel::Strong)]),
        ("G1Q6"@, "getString method in ReaderBasedJsonParser"@, QueryType::Qualified, None, seq![("src/main/java/tools/jackson/core/json/ReaderBasedJsonParser.java"@, 302usize, 313usize, RelevanceLevel::Strong)]),
        ("G1Q7"@, "writeName method in WriterBasedJsonGenerator"@, QueryType::Qualified, None, seq![("src/main/java/tools/jackson/core/json/WriterBasedJsonGenerator.java"@, 148usize, 159usize, RelevanceLevel::Strong)]),
        ("G1Q8"@, "findName method in ByteQuadsCanonicalizer"@, QueryType::Qualified, None, seq![("src/main/java/tools/jackson/core/sym/ByteQuadsCanonicalizer.java"@, 664usize, 682usize, RelevanceLevel::Strong)]),
        ("G1Q9"@, "contentsAsString method in TextBuffer"@, QueryType::Qualified, None, seq![("src/main/java/tools/jackson/core/util/TextBuffer.java"@, 505usize, 525usize, RelevanceLevel::Strong)]),
        ("G1Q10"@, "parseInt method with char array in NumberInput"@, QueryType::Qualified, None, seq![("src/main/java/tools/jackson/core/io/NumberInput.java"@, 39usize, 79usize, RelevanceLevel::Strong)]),
        ("G2Q1"@, "advance the parse stream to the next JSON token"@, QueryType::Semantic, None, seq![("src/main/java/tools/jackson/core/JsonParser.java"@, 433usize, 433usize, RelevanceLevel::Strong), ("src/main/java/tools/jackson/core/JsonParser.java"@, 456usize, 456usize, RelevanceLevel::Related)]),
        ("G2Q2"@, "begin writing a JSON object value and close it afterwards"@, QueryType::Semantic, None, seq![("src/main/java/tools/jackson/core/JsonGenerator.java"@, 452usize, 452usize, RelevanceLevel::Strong), ("src/main/java/tools/jackson/core/JsonGenerator.java"@, 518usize, 518usize, RelevanceLevel::Related)]),
        ("G2Q3"@, "decode a base64 text value read from the stream into binary data"@, QueryType::Semantic, None, seq![("src/main/java/tools/jackson/core/JsonParser.java"@, 1411usize, 1412usize, RelevanceLevel::Strong), ("src/main/java/tools/jackson/core/JsonParser.java"@, 1399usize, 1399usize, RelevanceLevel::Related)]),
        ("G2Q4"@, "append a property name segment to an existing JSON pointer"@, QueryType::Semantic, None, seq![("src/main/java/tools/jackson/core/JsonPointer.java"@, 466usize, 487usize, RelevanceLevel::Strong), ("src/main/java/tools/jackson/core/JsonPointer.java"@, 491usize, 508usize, RelevanceLevel::Related)]),
        ("G2Q5"@, "detect a duplicate property name while reading a JSON object"@, QueryType::Semantic, None, seq![("src/main/java/tools/jackson/core/json/DupDetector.java"@, 81usize, 96usize, RelevanceLevel::Strong), ("src/main/java/tools/jackson/core/json/JsonReadContext.java"@, 103usize, 106usize, RelevanceLevel::Related)]),
        ("G2Q6"@, "push a child object context to track nesting while reading"@, QueryType::Semantic, None, seq![("src/main/java/tools/jackson/core/json/JsonReadContext.java"@, 148usize, 165usize, RelevanceLevel::Strong), ("src/main/java/tools/jackson/core/json/JsonReadContext.java"@, 137usize, 146usize, RelevanceLevel::Related)]),
        ("G2Q7"@, "traverse multiple parsers in sequence and switch to the next when one is exhausted"@, QueryType::Semantic, None, seq![("src/main/java/tools/jackson/core/util/JsonParserSequence.java"@, 128usize, 148usize, RelevanceLevel::Strong), ("src/main/java/tools/jackson/core/util/JsonParserSequence.java"@, 80usize, 100usize, RelevanceLevel::Related)]),
        ("G2Q8"@, "forward parser method calls to an underlying delegate parser"@, QueryType::Semantic, None, seq![("src/main/java/tools/jackson/core/util/JsonParserDelegate.java"@, 150usize, 151usize, RelevanceLevel::Strong), ("src/main/java/tools/jackson/core/util/JsonParserDelegate.java"@, 116usize, 118usize, RelevanceLevel::Related)]),
        ("G2Q9"@, "acquire a recyclable buffer from the pool and release it back"@, QueryType::Semantic, None, seq![("src/main/java/tools/jackson/core/util/BufferRecycler.java"@, 158usize, 168usize, RelevanceLevel::Strong), ("src/main/java/tools/jackson/core/util/RecyclerPool.java"@, 157usize, 164usize, RelevanceLevel::Related)]),
        ("G2Q10"@, "append copied character segments into the parser text buffer"@, QueryType::Semantic, None, seq![("src/main/java/tools/jackson/core/util/TextBuffer.java"@, 262usize, 285usize, RelevanceLevel::Strong), ("src/main/java/tools/jackson/core/util/TextBuffer.java"@, 287usize, 307usize, RelevanceLevel::Related)]),
        ("G2Q11"@, "escape special characters when quoting a JSON string"@, QueryType::Semantic, None, seq![("src/main/java/tools/jackson/core/io/JsonStringEncoder.java"@, 151usize, 192usize, RelevanceLevel::Strong), ("src/main/java/tools/jackson/core/io/JsonStringEncoder.java"@, 195usize, 298usize, RelevanceLevel::Related)]),
        ("G2Q12"@, "encode a text value into JSON-escaped UTF-8 bytes"@, QueryType::Semantic, None, seq![("src/main/java/tools/jackson/core/io/JsonStringEncoder.java"@, 195usize, 298usize, RelevanceLevel::Strong), ("src/main/java/tools/jackson/core/io/JsonStringEncoder.java"@, 301usize, 330usize, RelevanceLevel::Related)]),
        ("G2Q13"@, "write an integer value directly into a byte output buffer"@, QueryType::Semantic, None, seq![("src/main/java/tools/jackson/core/io/NumberOutput.java"@, 139usize, 195usize, RelevanceLevel::Strong), ("src/main/java/tools/jackson/core/io/NumberOutput.java"@, 73usize, 137usize, RelevanceLevel::Related)]),
        ("G2Q14"@, "parse a lenient integer string value with a default fallback"@, QueryType::Semantic, None, seq![("src/main/java/tools/jackson/core/io/NumberInput.java"@, 245usize, 282usize, RelevanceLevel::Strong), ("src/main/java/tools/jackson/core/io/NumberInput.java"@, 284usize, 327usize, RelevanceLevel::Related)]),
        ("G2Q15"@, "canonicalize a property name from a character buffer"@, QueryType::Semantic, None, seq![("src/main/java/tools/jackson/core/sym/CharsToNameCanonicalizer.java"@, 468usize, 478usize, RelevanceLevel::Strong), ("src/main/java/tools/jackson/core/sym/ByteQuadsCanonicalizer.java"@, 574usize, 604usize, RelevanceLevel::Related)]),
        ("G2Q16"@, "create a child symbol table for a new parser and merge it back"@, QueryType::Semantic, None, seq![("src/main/java/tools/jackson/core/sym/ByteQuadsCanonicalizer.java"@, 357usize, 372usize, RelevanceLevel::Strong), ("src/main/java/tools/jackson/core/sym/ByteQuadsCanonicalizer.java"@, 403usize, 431usize, RelevanceLevel::Related)]),
        ("G2Q17"@, "intern a new property name into the quad-based canonicalizer"@, QueryType::Semantic, None, seq![("src/main/java/tools/jackson/core/sym/ByteQuadsCanonicalizer.java"@, 878usize, 896usize, RelevanceLevel::Strong), ("src/main/java/tools/jackson/core/sym/ByteQuadsCanonicalizer.java"@, 948usize, 986usize, RelevanceLevel::Related)]),
        ("G2Q18"@, "configure the maximum nesting depth allowed when reading"@, QueryType::Semantic, None, seq![("src/main/java/tools/jackson/core/StreamReadConstraints.java"@, 142usize, 160usize, RelevanceLevel::Strong), ("src/main/java/tools/jackson/core/StreamReadConstraints.java"@, 115usize, 120usize, RelevanceLevel::Related)]),
        ("G2Q19"@, "print a JSON object with indentation and separators"@, QueryType::Semantic, None, seq![("src/main/java/tools/jackson/core/util/DefaultPrettyPrinter.java"@, 259usize, 273usize, RelevanceLevel::Strong), ("src/main/java/tools/jackson/core/util/DefaultPrettyPrinter.java"@, 199usize, 223usize, RelevanceLevel::Related)]),
        ("G2Q20"@, "read the property name token of a JSON object during parsing"@, QueryType::Semantic, None, seq![("src/main/java/tools/jackson/core/base/ParserMinimalBase.java"@, 470usize, 474usize, RelevanceLevel::Strong), ("src/main/java/tools/jackson/core/base/ParserMinimalBase.java"@, 476usize, 480usize, RelevanceLevel::Related)]),
        ("FZ-G1Q1-naming_affix"@, "poll_token method in JsonParser"@, QueryType::Fuzzy, Some("naming_affix"@), seq![("src/main/java/tools/jackson/core/JsonParser.java"@, 433usize, 433usize, RelevanceLevel::Strong)]),
        ("FZ-G1Q2-synonym"@, "emitText method in JsonGenerator"@, QueryType::Fuzzy, Some("synonym"@), seq![("src/main/java/tools/jackson/core/JsonGenerator.java"@, 705usize, 705usize, RelevanceLevel::Strong)]),
        ("FZ-G1Q3-paraphrase"@, "parse a pointer path expression into a matcher"@, QueryType::Fuzzy, Some("paraphrase"@), seq![("src/main/java/tools/jackson/core/JsonPointer.java"@, 211usize, 227usize, RelevanceLevel::Strong)]),
        ("FZ-G1Q4-abbrev_expand"@, "get_str method on reader based parser"@, QueryType::Fuzzy, Some("abbrev_expand"@), seq![("src/main/java/tools/jackson/core/json/ReaderBasedJsonParser.java"@, 302usize, 313usize, RelevanceLevel::Strong)]),
        ("FZ-G1Q5-naming_case"@, "writeName() in WriterBasedJsonGenerator"@, QueryType::Fuzzy, Some("naming_case"@), seq![("src/main/java/tools/jackson/core/json/WriterBasedJsonGenerator.java"@, 148usize, 159usize, RelevanceLevel::Strong)]),
        ("FZ-G1Q6-synonym"@, "lookupName method in ByteQuadsCanonicalizer"@, QueryType::Fuzzy, Some("synonym"@), seq![("src/main/java/tools/jackson/core/sym/ByteQuadsCanonicalizer.java"@, 664usize, 682usize, RelevanceLevel::Strong)]),
        ("FZ-G1Q7-paraphrase"@, "combine buffered character segments into one text value"@, QueryType::Fuzzy, Some("paraphrase"@), seq![("src/main/java/tools/jackson/core/util/TextBuffer.java"@, 505usize, 525usize, RelevanceLevel::Strong)]),
        ("FZ-G1Q8-naming_affix"@, "parse_int method in NumberInput"@, QueryType::Fuzzy, Some("naming_affix"@), seq![("src/main/java/tools/jackson/core/io/NumberInput.java"@, 39usize, 79usize, RelevanceLevel::Strong)]),
        ("FZ-G1Q9-abbrev_expand"@, "next_tok method on parser sequence"@, QueryType::Fuzzy, Some("abbrev_expand"@), seq![("src/main/java/tools/jackson/core/util/JsonParserSequence.java"@, 128usize, 148usize, RelevanceLevel::Strong)]),
        ("FZ-G1Q10-naming_case"@, "START_OBJECT() in JsonToken"@, QueryType::Fuzzy, Some("naming_case"@), seq![("src/main/java/tools/jackson/core/JsonToken.java"@, 37usize, 42usize, RelevanceLevel::Strong)]),
        ("FZ-G2Q5-synonym"@, "checkDuplicate method in DupDetector"@, QueryType::Fuzzy, Some("synonym"@), seq![("src/main/java/tools/jackson/core/json/DupDetector.java"@, 81usize, 96usize, RelevanceLevel::Strong)]),
        ("FZ-G2Q9-paraphrase"@, "take a byte buffer out of the recycle pool and give it back"@, QueryType::Fuzzy, Some("paraphrase"@), seq![("src/main/java/tools/jackson/core/util/BufferRecycler.java"@, 158usize, 168usize, RelevanceLevel::Strong)]),
        ("FZ-G2Q11-naming_affix"@, "quote_str method in JsonStringEncoder"@, QueryType::Fuzzy, Some("naming_affix"@), seq![("src/main/java/tools/jackson/core/io/JsonStringEncoder.java"@, 151usize, 192usize, RelevanceLevel::Strong)]),
        ("FZ-G2Q13-abbrev_expand"@, "out_int method on NumberOutput"@, QueryType::Fuzzy, Some("abbrev_expand"@), seq![("src/main/java/tools/jackson/core/io/NumberOutput.java"@, 139usize, 195usize, RelevanceLevel::Strong)]),
        ("FZ-G2Q17-naming_case"@, "addName() in ByteQuadsCanonicalizer"@, QueryType::Fuzzy, Some("naming_case"@), seq![("src/main/java/tools/jackson/core/sym/ByteQuadsCanonicalizer.java"@, 878usize, 896usize, RelevanceLevel::Strong)]),
    ]
}

pub fn jackson_core_relevance_judgments() -> (res: Vec<RelevanceJudgment>)
    ensures
        judgment_views(res@) == jackson_core_table(),
        res@.len() == 45,
        forall|i: int| 0 <= i < res@.len() ==> #[trigger] judgment_wf(res@[i]),
{

    // Core stream API
    let p = "src/main/java/tools/jackson/core/JsonParser.java";
    let g = "src/main/java/tools/jackson/core/JsonGenerator.java";
    let tok = "src/main/java/tools/jackson/core/JsonToken.java";
    let ptr = "src/main/java/tools/jackson/core/JsonPointer.java";
    let tsf = "src/main/java/tools/jackson/core/TokenStreamFactory.java";
    let pmb = "src/main/java/tools/jackson/core/base/ParserMinimalBase.java";
    // json package (default JSON backend)
    let rf = "src/main/java/tools/jackson/core/json/ReaderBasedJsonParser.java";
    let wg = "src/main/java/tools/jackson/core/json/WriterBasedJsonGenerator.java";
    let fact = "src/main/java/tools/jackson/core/json/JsonFactory.java";
    let rctx = "src/main/java/tools/jackson/core/json/JsonReadContext.java";
    let dup = "src/main/java/tools/jackson/core/json/DupDetector.java";
    // sym package (name canonicalization)
    let bqc = "src/main/java/tools/jackson/core/sym/ByteQuadsCanonicalizer.java";
    let ctn = "src/main/java/tools/jackson/core/sym/CharsToNameCanonicalizer.java";
    // io package (number/text conversion)
    let ni = "src/main/java/tools/jackson/core/io/NumberInput.java";
    let no = "src/main/java/tools/jackson/core/io/NumberOutput.java";
    let jse = "src/main/java/tools/jackson/core/io/JsonStringEncoder.java";
    // util package (buffers, pooling, pretty printing)
    let tb = "src/main/java/tools/jackson/core/util/TextBuffer.java";
    let br = "src/main/java/tools/jackson/core/util/BufferRecycler.java";
    let rp = "src/main/java/tools/jackson/core/util/RecyclerPool.java";
    let dpp = "src/main/java/tools/jackson/core/util/DefaultPrettyPrinter.java";
    let seq = "src/main/java/tools/jackson/core/util/JsonParserSequence.java";
    let del = "src/main/java/tools/jackson/core/util/JsonParserDelegate.java";
    // constraints
    let src_ = "src/main/java/tools/jackson/core/StreamReadConstraints.java";

    let res = vec![
        // ==================== G1: Qualified Symbol Queries (10 total) ====================
        // G1Q1: JsonParser::nextToken - core stream-reading method
        strong(
            "G1Q1",
            "nextToken method in JsonParser",
            Qualified,
            p,
            433,
            433,
        ),
        // G1Q2: JsonGenerator::writeString - core stream-writing method
        strong(
            "G1Q2",
            "writeString method in JsonGenerator",
            Qualified,
            g,
            705,
            705,
        ),
        // G1Q3: JsonPointer::compile - parses a JSON Pointer expression
        strong(
            "G1Q3",
            "compile method in JsonPointer",
            Qualified,
            ptr,
            211,
            227,
        ),
        // G1Q4: TokenStreamFactory::createParser - factory entry for parsers
        strong(
            "G1Q4",
            "createParser method in TokenStreamFactory",
            Qualified,
            tsf,
            601,
            601,
        ),
        // G1Q5: JsonFactory::createNonBlockingByteArrayParser - async parser entry
        strong(
            "G1Q5",
            "createNonBlockingByteArrayParser method in JsonFactory",
            Qualified,
            fact,
            351,
            351,
        ),
        // G1Q6: ReaderBasedJsonParser::getString - current text value access
        strong(
            "G1Q6",
            "getString method in ReaderBasedJsonParser",
            Qualified,
            rf,
            302,
            313,
        ),
        // G1Q7: WriterBasedJsonGenerator::writeName - object property name writer
        strong(
            "G1Q7",
            "writeName method in WriterBasedJsonGenerator",
            Qualified,
            wg,
            148,
            159,
        ),
        // G1Q8: ByteQuadsCanonicalizer::findName - quad-based symbol lookup
        strong(
            "G1Q8",
            "findName method in ByteQuadsCanonicalizer",
            Qualified,
            bqc,
            664,
            682,
        ),
        // G1Q9: TextBuffer::contentsAsString - aggregated buffered text accessor
        strong(
            "G1Q9",
            "contentsAsString method in TextBuffer",
            Qualified,
            tb,
            505,
            525,
        ),
        // G1Q10: NumberInput::parseInt(char[]) - fast integer decode from chars
        strong(
            "G1Q10",
            "parseInt method with char array in NumberInput",
            Qualified,
            ni,
            39,
            79,
        ),
        // ==================== G2: Semantic Queries (20 total) ====================
        // G2Q1: advance the stream; nextValue is the caller-facing variant
        RelevanceJudgment {
            id: String::from_str("G2Q1"),
            query_text: String::from_str("advance the parse stream to the next JSON token"),
            query_type: Semantic,
            fuzzy_subtype: None,
            relevant_ranges: vec![
                range(p, 433, 433, RL::Strong),
                range(p, 456, 456, RL::Related),
            ],
        },
        // G2Q2: object/array value boundaries
        RelevanceJudgment {
            id: String::from_str("G2Q2"),
            query_text: String::from_str("begin writing a JSON object value and close it afterwards"),
            query_type: Semantic,
            fuzzy_subtype: None,
            relevant_ranges: vec![
                range(g, 452, 452, RL::Strong),
                range(g, 518, 518, RL::Related),
            ],
        },
        // G2Q3: base64 binary read
        RelevanceJudgment {
            id: String::from_str("G2Q3"),
            query_text: String::from_str("decode a base64 text value read from the stream into binary data"),
            query_type: Semantic,
            fuzzy_subtype: None,
            relevant_ranges: vec![
                range(p, 1411, 1412, RL::Strong),
                range(p, 1399, 1399, RL::Related),
            ],
        },
        // G2Q4: pointer appendProperty is primary, appendIndex a sibling variant
        RelevanceJudgment {
            id: String::from_str("G2Q4"),
            query_text: String::from_str("append a property name segment to an existing JSON pointer"),
            query_type: Semantic,
            fuzzy_subtype: None,
            relevant_ranges: vec![
                range(ptr, 466, 487, RL::Strong),
                range(ptr, 491, 508, RL::Related),
            ],
        },
        // G2Q5: duplicate detection during parsing
        RelevanceJudgment {
            id: String::from_str("G2Q5"),
            query_text: String::from_str("detect a duplicate property name while reading a JSON object"),
            query_type: Semantic,
            fuzzy_subtype: None,
            relevant_ranges: vec![
                range(dup, 81, 96, RL::Strong),
                range(rctx, 103, 106, RL::Related),
            ],
        },
        // G2Q6: child context creation tracks nesting depth
        RelevanceJudgment {
            id: String::from_str("G2Q6"),
            query_text: String::from_str("push a child object context to track nesting while reading"),
            query_type: Semantic,
            fuzzy_subtype: None,
            relevant_ranges: vec![
                range(rctx, 148, 165, RL::Strong),
                range(rctx, 137, 146, RL::Related),
            ],
        },
        // G2Q7: parser sequence flattening and switching
        RelevanceJudgment {
            id: String::from_str("G2Q7"),
            query_text:
                String::from_str("traverse multiple parsers in sequence and switch to the next when one is exhausted"),
            query_type: Semantic,
            fuzzy_subtype: None,
            relevant_ranges: vec![
                range(seq, 128, 148, RL::Strong),
                range(seq, 80, 100, RL::Related),
            ],
        },
        // G2Q8: delegate pattern forwarding
        RelevanceJudgment {
            id: String::from_str("G2Q8"),
            query_text: String::from_str("forward parser method calls to an underlying delegate parser"),
            query_type: Semantic,
            fuzzy_subtype: None,
            relevant_ranges: vec![
                range(del, 150, 151, RL::Strong),
                range(del, 116, 118, RL::Related),
            ],
        },
        // G2Q9: buffer recycling from a pool
        RelevanceJudgment {
            id: String::from_str("G2Q9"),
            query_text: String::from_str("acquire a recyclable buffer from the pool and release it back"),
            query_type: Semantic,
            fuzzy_subtype: None,
            relevant_ranges: vec![
                range(br, 158, 168, RL::Strong),
                range(rp, 157, 164, RL::Related),
            ],
        },
        // G2Q10: text buffer concatenation
        RelevanceJudgment {
            id: String::from_str("G2Q10"),
            query_text: String::from_str("append copied character segments into the parser text buffer"),
            query_type: Semantic,
            fuzzy_subtype: None,
            relevant_ranges: vec![
                range(tb, 262, 285, RL::Strong),
                range(tb, 287, 307, RL::Related),
            ],
        },
        // G2Q11: JSON string escaping on write
        RelevanceJudgment {
            id: String::from_str("G2Q11"),
            query_text: String::from_str("escape special characters when quoting a JSON string"),
            query_type: Semantic,
            fuzzy_subtype: None,
            relevant_ranges: vec![
                range(jse, 151, 192, RL::Strong),
                range(jse, 195, 298, RL::Related),
            ],
        },
        // G2Q12: UTF-8 encoded escaped output
        RelevanceJudgment {
            id: String::from_str("G2Q12"),
            query_text: String::from_str("encode a text value into JSON-escaped UTF-8 bytes"),
            query_type: Semantic,
            fuzzy_subtype: None,
            relevant_ranges: vec![
                range(jse, 195, 298, RL::Strong),
                range(jse, 301, 330, RL::Related),
            ],
        },
        // G2Q13: fast int to output buffer
        RelevanceJudgment {
            id: String::from_str("G2Q13"),
            query_text: String::from_str("write an integer value directly into a byte output buffer"),
            query_type: Semantic,
            fuzzy_subtype: None,
            relevant_ranges: vec![
                range(no, 139, 195, RL::Strong),
                range(no, 73, 137, RL::Related),
            ],
        },
        // G2Q14: number parsing with fallback
        RelevanceJudgment {
            id: String::from_str("G2Q14"),
            query_text: String::from_str("parse a lenient integer string value with a default fallback"),
            query_type: Semantic,
            fuzzy_subtype: None,
            relevant_ranges: vec![
                range(ni, 245, 282, RL::Strong),
                range(ni, 284, 327, RL::Related),
            ],
        },
        // G2Q15: symbol canonicalization for char input
        RelevanceJudgment {
            id: String::from_str("G2Q15"),
            query_text: String::from_str("canonicalize a property name from a character buffer"),
            query_type: Semantic,
            fuzzy_subtype: None,
            relevant_ranges: vec![
                range(ctn, 468, 478, RL::Strong),
                range(bqc, 574, 604, RL::Related),
            ],
        },
        // G2Q16: symbol table child table lifecycle
        RelevanceJudgment {
            id: String::from_str("G2Q16"),
            query_text: String::from_str("create a child symbol table for a new parser and merge it back"),
            query_type: Semantic,
            fuzzy_subtype: None,
            relevant_ranges: vec![
                range(bqc, 357, 372, RL::Strong),
                range(bqc, 403, 431, RL::Related),
            ],
        },
        // G2Q17: adding names to the symbol table
        RelevanceJudgment {
            id: String::from_str("G2Q17"),
            query_text: String::from_str("intern a new property name into the quad-based canonicalizer"),
            query_type: Semantic,
            fuzzy_subtype: None,
            relevant_ranges: vec![
                range(bqc, 878, 896, RL::Strong),
                range(bqc, 948, 986, RL::Related),
            ],
        },
        // G2Q18: read constraints configuration
        RelevanceJudgment {
            id: String::from_str("G2Q18"),
            query_text: String::from_str("configure the maximum nesting depth allowed when reading"),
            query_type: Semantic,
            fuzzy_subtype: None,
            relevant_ranges: vec![
                range(src_, 142, 160, RL::Strong),
                range(src_, 115, 120, RL::Related),
            ],
        },
        // G2Q19: pretty printer object indentation
        RelevanceJudgment {
            id: String::from_str("G2Q19"),
            query_text: String::from_str("print a JSON object with indentation and separators"),
            query_type: Semantic,
            fuzzy_subtype: None,
            relevant_ranges: vec![
                range(dpp, 259, 273, RL::Strong),
                range(dpp, 199, 223, RL::Related),
            ],
        },
        // G2Q20: root value checks in ParserMinimalBase
        RelevanceJudgment {
            id: String::from_str("G2Q20"),
            query_text: String::from_str("read the property name token of a JSON object during parsing"),
            query_type: Semantic,
            fuzzy_subtype: None,
            relevant_ranges: vec![
                range(pmb, 470, 474, RL::Strong),
                range(pmb, 476, 480, RL::Related),
            ],
        },
        // ==================== FZ: Fuzzy Queries (15 total) ====================
        // FZ-G1Q1: JsonParser::nextToken
        fuzzy_strong(
            "FZ-G1Q1-naming_affix",
            "poll_token method in JsonParser",
            "naming_affix",
            p,
            433,
            433,
        ),
        // FZ-G1Q2: JsonGenerator::writeString
        fuzzy_strong(
            "FZ-G1Q2-synonym",
            "emitText method in JsonGenerator",
            "synonym",
            g,
            705,
            705,
        ),
        // FZ-G1Q3: JsonPointer::compile
        fuzzy_strong(
            "FZ-G1Q3-paraphrase",
            "parse a pointer path expression into a matcher",
            "paraphrase",
            ptr,
            211,
            227,
        ),
        // FZ-G1Q4: ReaderBasedJsonParser::getString
        fuzzy_strong(
            "FZ-G1Q4-abbrev_expand",
            "get_str method on reader based parser",
            "abbrev_expand",
            rf,
            302,
            313,
        ),
        // FZ-G1Q5: WriterBasedJsonGenerator::writeName
        fuzzy_strong(
            "FZ-G1Q5-naming_case",
            "writeName() in WriterBasedJsonGenerator",
            "naming_case",
            wg,
            148,
            159,
        ),
        // FZ-G1Q6: ByteQuadsCanonicalizer::findName
        fuzzy_strong(
            "FZ-G1Q6-synonym",
            "lookupName method in ByteQuadsCanonicalizer",
            "synonym",
            bqc,
            664,
            682,
        ),
        // FZ-G1Q7: TextBuffer::contentsAsString
        fuzzy_strong(
            "FZ-G1Q7-paraphrase",
            "combine buffered character segments into one text value",
            "paraphrase",
            tb,
            505,
            525,
        ),
        // FZ-G1Q8: NumberInput::parseInt(char[])
        fuzzy_strong(
            "FZ-G1Q8-naming_affix",
            "parse_int method in NumberInput",
            "naming_affix",
            ni,
            39,
            79,
        ),
        // FZ-G1Q9: JsonParserSequence::nextToken
        fuzzy_strong(
            "FZ-G1Q9-abbrev_expand",
            "next_tok method on parser sequence",
            "abbrev_expand",
            seq,
            128,
            148,
        ),
        // FZ-G1Q10: JsonToken enum start-object marker
        fuzzy_strong(
            "FZ-G1Q10-naming_case",
            "START_OBJECT() in JsonToken",
            "naming_case",
            tok,
            37,
            42,
        ),
        // Remaining fuzzy variants against additional G1 anchors
        fuzzy_strong(
            "FZ-G2Q5-synonym",
            "checkDuplicate method in DupDetector",
            "synonym",
            dup,
            81,
            96,
        ),
        fuzzy_strong(
            "FZ-G2Q9-paraphrase",
            "take a byte buffer out of the recycle pool and give it back",
            "paraphrase",
            br,
            158,
            168,
        ),
        fuzzy_strong(
            "FZ-G2Q11-naming_affix",
            "quote_str method in JsonStringEncoder",
            "naming_affix",
            jse,
            151,
            192,
        ),
        fuzzy_strong(
            "FZ-G2Q13-abbrev_expand",
            "out_int method on NumberOutput",
            "abbrev_expand",
            no,
            139,
            195,
        ),
        fuzzy_strong(
            "FZ-G2Q17-naming_case",
            "addName() in ByteQuadsCanonicalizer",
            "naming_case",
            bqc,
            878,
            896,
        ),
    ];
    proof {
        assert(judgment_views(res@) =~~= jackson_core_table());
    }
    res
}

} // verus!
