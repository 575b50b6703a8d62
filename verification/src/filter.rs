//! File filters and their matching semantics.
//!
//! A filter is either an extension filter or a file-name filter; both match by
//! case-sensitive substring containment. A scan's filter list is split by tag
//! into two groups. Within a group a file passes if it matches any filter;
//! across groups every non-empty group must be satisfied; an empty group
//! imposes no constraint.

use vstd::prelude::*;
use vstd::string::StrSliceExecFns;

verus! {

/// True when `needle` occurs as a contiguous run of characters in `hay`.
pub open spec fn is_substring(hay: Seq<char>, needle: Seq<char>) -> bool {
    exists|i: int|
        0 <= i && i + needle.len() <= hay.len() && #[trigger] hay.subrange(i, i + needle.len())
            == needle
}

/// Substring containment test, character by character.
pub fn str_contains(hay: &str, needle: &str) -> (r: bool)
    ensures
        r == is_substring(hay@, needle@),
{
    let n = hay.unicode_len();
    let m = needle.unicode_len();
    if m > n {
        return false;
    }
    let mut i: usize = 0;
    while i <= n - m
        invariant
            m <= n,
            n == hay@.len(),
            m == needle@.len(),
            i <= n - m + 1,
            forall|k: int| 0 <= k < i ==> #[trigger] hay@.subrange(k, k + m as int) != needle@,
        decreases n - m + 1 - i,
    {
        let mut j: usize = 0;
        let mut window_eq = true;
        while j < m
            invariant
                j <= m,
                i + m <= n,
                n == hay@.len(),
                m == needle@.len(),
                window_eq <==> (forall|t: int| 0 <= t < j ==> hay@[i + t] == needle@[t]),
            decreases m - j,
        {
            if hay.get_char(i + j) != needle.get_char(j) {
                window_eq = false;
            }
            j += 1;
        }
        if window_eq {
            assert(hay@.subrange(i as int, i + m as int) =~= needle@);
            return true;
        }
        assert(hay@.subrange(i as int, i + m as int) != needle@) by {
            let t = choose|t: int| 0 <= t < m && hay@[i + t] != needle@[t];
            assert(hay@.subrange(i as int, i + m as int)[t] == hay@[i + t]);
        }
        i += 1;
    }
    false
}

/// Filters to apply to a scan.
#[derive(Debug, Clone, PartialEq, Eq)]
pub enum Filter {
    /// File name extension filter.
    Extension(String),
    /// File name filter.
    FileName(String),
}

impl Filter {
    /// The text this filter matches with, whichever the tag.
    pub open spec fn text(self) -> Seq<char> {
        match self {
            Filter::Extension(s) => s@,
            Filter::FileName(s) => s@,
        }
    }

    /// Whether `test` contains this filter's text.
    pub open spec fn spec_contains(self, test: Seq<char>) -> bool {
        is_substring(test, self.text())
    }

    /// True when `test` contains this filter's text.
    pub fn contains(&self, test: &str) -> (r: bool)
        ensures
            r == self.spec_contains(test@),
    {
        match self {
            Filter::Extension(s) => str_contains(test, s.as_str()),
            Filter::FileName(s) => str_contains(test, s.as_str()),
        }
    }
}

/// The characters of an optional text (a file name or extension that may be
/// missing or not decodable).
pub open spec fn opt_chars(o: Option<&str>) -> Option<Seq<char>> {
    match o {
        Some(s) => Some(s@),
        None => None,
    }
}

/// Whether the list holds at least one file-name filter.
pub open spec fn has_filename_filter(filters: Seq<Filter>) -> bool {
    exists|i: int| 0 <= i < filters.len() && filters[i] is FileName
}

/// Whether the list holds at least one extension filter.
pub open spec fn has_extension_filter(filters: Seq<Filter>) -> bool {
    exists|i: int| 0 <= i < filters.len() && filters[i] is Extension
}

/// The file-name group: if any file-name filter is present, the name must be
/// known and contain the text of at least one of them.
pub open spec fn filename_group_passes(filters: Seq<Filter>, name: Option<Seq<char>>) -> bool {
    has_filename_filter(filters) ==> (name is Some && exists|i: int|
        0 <= i < filters.len() && filters[i] is FileName && is_substring(
            name->Some_0,
            filters[i].text(),
        ))
}

/// The extension group: if any extension filter is present, the extension must
/// be known and contain the text of at least one of them.
pub open spec fn extension_group_passes(filters: Seq<Filter>, ext: Option<Seq<char>>) -> bool {
    has_extension_filter(filters) ==> (ext is Some && exists|i: int|
        0 <= i < filters.len() && filters[i] is Extension && is_substring(
            ext->Some_0,
            filters[i].text(),
        ))
}

/// Whether a file with the given name and extension takes part in aggregation:
/// every non-empty filter group must be satisfied.
pub open spec fn spec_file_passes(
    filters: Seq<Filter>,
    name: Option<Seq<char>>,
    ext: Option<Seq<char>>,
) -> bool {
    filename_group_passes(filters, name) && extension_group_passes(filters, ext)
}

fn has_filename(filters: &Vec<Filter>) -> (r: bool)
    ensures
        r == has_filename_filter(filters@),
{
    let mut i: usize = 0;
    while i < filters.len()
        invariant
            i <= filters@.len(),
            forall|k: int| 0 <= k < i ==> !(filters@[k] is FileName),
        decreases filters@.len() - i,
    {
        if matches!(&filters[i], Filter::FileName(_)) {
            return true;
        }
        i += 1;
    }
    false
}

fn has_extension(filters: &Vec<Filter>) -> (r: bool)
    ensures
        r == has_extension_filter(filters@),
{
    let mut i: usize = 0;
    while i < filters.len()
        invariant
            i <= filters@.len(),
            forall|k: int| 0 <= k < i ==> !(filters@[k] is Extension),
        decreases filters@.len() - i,
    {
        if matches!(&filters[i], Filter::Extension(_)) {
            return true;
        }
        i += 1;
    }
    false
}

/// Check the file-name filter group against a file's base name.
pub fn check_filename_filter(name: Option<&str>, filters: &Vec<Filter>) -> (r: bool)
    ensures
        r == filename_group_passes(filters@, opt_chars(name)),
{
    if !has_filename(filters) {
        return true;
    }
    if name.is_none() {
        return false;
    }
    let n = name.unwrap();
    let mut i: usize = 0;
    while i < filters.len()
        invariant
            opt_chars(name) == Some(n@),
            i <= filters@.len(),
            forall|k: int|
                0 <= k < i ==> !(filters@[k] is FileName && is_substring(
                    n@,
                    filters@[k].text(),
                )),
        decreases filters@.len() - i,
    {
        let f = &filters[i];
        if matches!(f, Filter::FileName(_)) && f.contains(n) {
            assert(filters@[i as int] is FileName && is_substring(
                opt_chars(name)->Some_0,
                filters@[i as int].text(),
            ));
            return true;
        }
        i += 1;
    }
    false
}

/// Check the extension filter group against a file's extension.
pub fn check_file_extension_filter(ext: Option<&str>, filters: &Vec<Filter>) -> (r: bool)
    ensures
        r == extension_group_passes(filters@, opt_chars(ext)),
{
    if !has_extension(filters) {
        return true;
    }
    if ext.is_none() {
        return false;
    }
    let e = ext.unwrap();
    let mut i: usize = 0;
    while i < filters.len()
        invariant
            opt_chars(ext) == Some(e@),
            i <= filters@.len(),
            forall|k: int|
                0 <= k < i ==> !(filters@[k] is Extension && is_substring(
                    e@,
                    filters@[k].text(),
                )),
        decreases filters@.len() - i,
    {
        let f = &filters[i];
        if matches!(f, Filter::Extension(_)) && f.contains(e) {
            assert(filters@[i as int] is Extension && is_substring(
                e@,
                filters@[i as int].text(),
            ));
            return true;
        }
        i += 1;
    }
    false
}

/// Whether a file takes part in aggregation under the given filters.
pub fn file_passes_filters(name: Option<&str>, ext: Option<&str>, filters: &Vec<Filter>) -> (r:
    bool)
    ensures
        r == spec_file_passes(filters@, opt_chars(name), opt_chars(ext)),
{
    check_filename_filter(name, filters) && check_file_extension_filter(ext, filters)
}

/// With no filters, every file passes, whatever its name or extension.
pub proof fn lemma_no_filters_pass(name: Option<Seq<char>>, ext: Option<Seq<char>>)
    ensures
        spec_file_passes(Seq::<Filter>::empty(), name, ext),
{
}

} // verus!
