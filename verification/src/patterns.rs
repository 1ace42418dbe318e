//! Device-name patterns and the choice of the sampler's audio device.

use vstd::prelude::*;
use fancy_regex::Regex;

verus! {

#[verifier::external_type_specification]
#[verifier::external_body]
pub struct ExRegex(Regex);

/// Whether `fancy_regex::Regex::new` accepts the pattern.
pub uninterp spec fn regex_compiles(pattern: Seq<char>) -> bool;

/// What `fancy_regex::Regex::is_match` reports for the regex compiled from
/// `pattern` on `text`: `Some(found)` when the search completes, `None` when
/// it fails (such as when its backtracking limit is exceeded).
pub uninterp spec fn regex_search(pattern: Seq<char>, text: Seq<char>) -> Option<bool>;

/// Calls `fancy_regex::Regex::new` with its default options. The contract
/// claims that the call succeeds exactly on the patterns that
/// `regex_compiles` holds of, a function of the pattern alone.
#[verifier::external_body]
fn regex_new(pattern: &str) -> (r: Option<Regex>)
    ensures
        r is Some <==> regex_compiles(pattern@),
{
    Regex::new(pattern).ok()
}

/// Calls `fancy_regex::Regex::is_match` on the regex that the pattern holds.
/// The contract claims that the result is `regex_search` of the pattern's
/// source and the text: a pattern is only ever built by `CompiledPattern::compile`,
/// which stores the regex that `Regex::new` returned for that very source.
#[verifier::external_body]
fn regex_is_match(pattern: &CompiledPattern, text: &str) -> (r: Option<bool>)
    ensures
        r == regex_search(pattern@, text@),
{
    pattern.regex.is_match(text).ok()
}

/// A device-name pattern together with its compiled regex.
pub struct CompiledPattern {
    source: String,
    regex: Regex,
}

impl View for CompiledPattern {
    type V = Seq<char>;

    closed spec fn view(&self) -> Seq<char> {
        self.source@
    }
}

pub open spec fn compiles() -> spec_fn(Seq<char>) -> bool {
    |s: Seq<char>| regex_compiles(s)
}

/// The text of each string.
pub open spec fn string_views(v: Seq<String>) -> Seq<Seq<char>> {
    v.map_values(|s: String| s@)
}

/// The source text of each pattern.
pub open spec fn pattern_sources(v: Seq<CompiledPattern>) -> Seq<Seq<char>> {
    v.map_values(|p: CompiledPattern| p@)
}

/// Whether some pattern is found in the device name.
pub open spec fn matches_any(patterns: Seq<Seq<char>>, device: Seq<char>) -> bool {
    exists|j: int| 0 <= j < patterns.len() && regex_search(patterns[j], device) == Some(true)
}

impl CompiledPattern {
    /// Compiles a pattern; `None` when the regex does not compile.
    pub fn compile(source: String) -> (r: Option<CompiledPattern>)
        ensures
            r is Some <==> regex_compiles(source@),
            r matches Some(p) ==> p@ == source@,
    {
        match regex_new(source.as_str()) {
            Some(regex) => Some(CompiledPattern { source, regex }),
            None => None,
        }
    }

    /// The pattern's source text.
    pub fn as_str(&self) -> (s: &str)
        ensures
            s@ == self@,
    {
        self.source.as_str()
    }

    /// Whether the pattern is found in the text; `None` when the search fails.
    pub fn is_match(&self, text: &str) -> (r: Option<bool>)
        ensures
            r == regex_search(self@, text@),
    {
        regex_is_match(self, text)
    }
}

/// Compiles each pattern in order and leaves out those that do not compile.
pub fn compile_patterns(patterns: &Vec<String>) -> (r: Vec<CompiledPattern>)
    ensures
        pattern_sources(r@) == string_views(patterns@).filter(compiles()),
{
    let mut out: Vec<CompiledPattern> = Vec::new();
    let ghost all = string_views(patterns@);
    for i in 0..patterns.len()
        invariant
            all == string_views(patterns@),
            pattern_sources(out@) == all.take(i as int).filter(compiles()),
    {
        let compiled = CompiledPattern::compile(patterns[i].clone());
        proof {
            assert(all.take(i + 1).drop_last() =~= all.take(i as int));
            assert(all.take(i + 1).last() == patterns@[i as int]@);
            reveal_with_fuel(Seq::filter, 1);
        }
        match compiled {
            Some(p) => {
                out.push(p);
                assert(pattern_sources(out@) =~= all.take(i as int).filter(compiles()).push(
                    patterns@[i as int]@,
                ));
            },
            None => {},
        }
    }
    assert(all.take(patterns.len() as int) =~= all);
    out
}

/// Whether some pattern is found in the text; a failed search counts as not found.
pub fn matches_any_pattern(patterns: &Vec<CompiledPattern>, text: &str) -> (r: bool)
    ensures
        r == matches_any(pattern_sources(patterns@), text@),
{
    let ghost srcs = pattern_sources(patterns@);
    for j in 0..patterns.len()
        invariant
            srcs == pattern_sources(patterns@),
            forall|k: int| 0 <= k < j ==> regex_search(#[trigger] srcs[k], text@) != Some(true),
    {
        match patterns[j].is_match(text) {
            Some(true) => {
                assert(srcs[j as int] == patterns@[j as int]@);
                return true;
            },
            _ => {},
        }
    }
    false
}

/// Returns the first device, in the order given, in whose name some pattern is found.
pub fn select_device(devices: &Vec<String>, patterns: &Vec<CompiledPattern>) -> (r: Option<String>)
    ensures
        match r {
            None => forall|i: int|
                0 <= i < devices@.len() ==> !matches_any(
                    pattern_sources(patterns@),
                    #[trigger] devices@[i]@,
                ),
            Some(d) => exists|i: int|
                0 <= i < devices@.len() && d@ == devices@[i]@ && matches_any(
                    pattern_sources(patterns@),
                    devices@[i]@,
                ) && forall|k: int|
                    0 <= k < i ==> !matches_any(pattern_sources(patterns@), #[trigger] devices@[k]@),
        },
{
    for i in 0..devices.len()
        invariant
            forall|k: int|
                0 <= k < i ==> !matches_any(pattern_sources(patterns@), #[trigger] devices@[k]@),
    {
        if matches_any_pattern(patterns, devices[i].as_str()) {
            return Some(devices[i].clone());
        }
    }
    None
}

} // verus!
