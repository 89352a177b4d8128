//! Prompt configuration shared by list-style prompts: display page
//! size, vim-style keymap, filter persistence, and the caller-supplied
//! filter and transformer functions with their defaults.

use vstd::prelude::*;

verus! {

/// A filter over a query string, a candidate label and its index:
/// a caller-supplied function value with a single method.
pub trait Filter {
    /// Whether the candidate `value` at `index` matches the query.
    fn filter(&self, filter: &str, value: &str, index: usize) -> bool;
}

/// A transformer from an answer to its display string.
pub trait Transformer {
    /// The display string for `answer`.
    fn transform(&self, answer: &str) -> String;
}

/// Display page size used when none is configured.
pub const DEFAULT_PAGE_SIZE: usize = 7;

/// Whether the vim-style keymap is on when none is configured.
pub const DEFAULT_VIM_MODE: bool = false;

/// Whether a list filter persists across redraws when none is
/// configured.
pub const DEFAULT_KEEP_FILTER: bool = true;

/// Caller-supplied knobs of a prompt; every field is optional and falls
/// back to its default.
#[derive(Copy, Clone)]
pub struct PromptConfig<'a, F, T> {
    pub page_size: Option<usize>,
    pub filter: Option<&'a F>,
    pub transformer: Option<&'a T>,
    pub keep_filter: Option<bool>,
    pub vim_mode: Option<bool>,
}

impl<'a, F, T> Default for PromptConfig<'a, F, T> {
    /// A configuration with every knob left to its default.
    fn default() -> (r: Self)
        ensures
            r.page_size is None,
            r.filter is None,
            r.transformer is None,
            r.keep_filter is None,
            r.vim_mode is None,
    {
        PromptConfig {
            page_size: None,
            filter: None,
            transformer: None,
            keep_filter: None,
            vim_mode: None,
        }
    }
}

/// Whether `needle` occurs in `hay` as a contiguous run of characters.
pub open spec fn spec_contains_sub(hay: Seq<char>, needle: Seq<char>) -> bool {
    exists|i: int|
        0 <= i && i + needle.len() <= hay.len() && #[trigger] hay.subrange(i, i + needle.len())
            == needle
}

/// The lowercase form a string maps to; it depends on the characters
/// alone.
pub uninterp spec fn lower_of(s: Seq<char>) -> Seq<char>;

/// Relies on str::to_lowercase: the lowercase equivalent of the string,
/// a function of its characters alone.
#[verifier::external_body]
fn to_lowercase(s: &str) -> (r: String)
    ensures
        r@ == lower_of(s@),
{
    s.to_lowercase()
}

/// Relies on str::contains with a string pattern: true exactly when the
/// needle occurs as a substring of the haystack.
#[verifier::external_body]
fn str_contains(hay: &str, needle: &str) -> (r: bool)
    ensures
        r == spec_contains_sub(hay@, needle@),
{
    hay.contains(needle)
}

/// The default filter: case-insensitive substring match of the query
/// inside the candidate label; the index plays no part.
pub fn default_filter(filter: &str, value: &str, _index: usize) -> (r: bool)
    ensures
        r == spec_contains_sub(lower_of(value@), lower_of(filter@)),
{
    let needle = to_lowercase(filter);
    let hay = to_lowercase(value);
    str_contains(hay.as_str(), needle.as_str())
}

/// The default transformer: the answer is already its display string.
pub fn default_transformer(answer: &str) -> (r: String)
    ensures
        r@ == answer@,
{
    answer.to_owned()
}

/// The filter used when the caller configures none: case-insensitive
/// substring match, as [`default_filter`] states it.
#[derive(Clone, Copy, Debug, PartialEq, Eq, Structural)]
pub struct DefaultFilter;

impl Filter for DefaultFilter {
    fn filter(&self, filter: &str, value: &str, index: usize) -> bool {
        default_filter(filter, value, index)
    }
}

/// The transformer used when the caller configures none: the answer
/// stands for itself, as [`default_transformer`] states it.
#[derive(Clone, Copy, Debug, PartialEq, Eq, Structural)]
pub struct DefaultTransformer;

impl Transformer for DefaultTransformer {
    fn transform(&self, answer: &str) -> String {
        default_transformer(answer)
    }
}

} // verus!
