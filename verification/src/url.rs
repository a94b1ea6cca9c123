//! Taking the address of a table apart.
//!
//! A table is addressed as `…/base/<container>?table=<table>` or
//! `…/wiki/<container>?table=<table>`. The segment after the first `base` or
//! `wiki` that has a segment after it names the container; it is followed by
//! `?` and parameters separated by `&`, among which `table` names the table.
//! An address must name both, and neither by an empty name.

use vstd::prelude::*;
use vstd::string::StrSliceExecFns;
use vstd::string::StringExecFns;
use crate::error::{ErrorView, FeishuSyncError};
use crate::text::{chars_of, find_char, lemma_first_position, piece, split, split_once, split_text, text_views};

verus! {

/// A segment that announces the container.
pub open spec fn is_marker(segment: Seq<char>) -> bool {
    segment == "base"@ || segment == "wiki"@
}

/// The position, among the first `n` segments, of the first marker that has
/// a segment after it.
pub open spec fn marker_position(segments: Seq<Seq<char>>, n: int) -> Option<int>
    decreases n,
{
    if n <= 0 {
        None
    } else {
        match marker_position(segments, n - 1) {
            Some(i) => Some(i),
            None => if n < segments.len() && is_marker(segments[n - 1]) {
                Some(n - 1)
            } else {
                None
            },
        }
    }
}

/// The segment that names the container, with what follows it up to the next
/// `/`.
pub open spec fn container_segment(url: Seq<char>) -> Option<Seq<char>> {
    let segments = split(url, '/');
    match marker_position(segments, segments.len() as int) {
        Some(i) => Some(segments[i + 1]),
        None => None,
    }
}

/// The table that one parameter names, where it is `table=…`.
pub open spec fn table_of(parameter: Seq<char>) -> Option<Seq<char>> {
    match split_once(parameter, '=') {
        Some((name, value)) => if name == "table"@ {
            Some(value)
        } else {
            None
        },
        None => None,
    }
}

/// The table that a list of parameters names: the last `table=…` counts.
pub open spec fn table_among(parameters: Seq<Seq<char>>) -> Option<Seq<char>>
    decreases parameters.len(),
{
    if parameters.len() == 0 {
        None
    } else {
        match table_of(parameters.last()) {
            Some(table) => Some(table),
            None => table_among(parameters.drop_last()),
        }
    }
}

/// The table that the container segment names after its `?`.
pub open spec fn table_in_segment(segment: Seq<char>) -> Option<Seq<char>> {
    match split_once(segment, '?') {
        Some((_, query)) => table_among(split(query, '&')),
        None => None,
    }
}

/// The container that the container segment names: what stands before its
/// `?`, or all of it.
pub open spec fn container_in_segment(segment: Seq<char>) -> Seq<char> {
    match split_once(segment, '?') {
        Some((container, _)) => container,
        None => segment,
    }
}

/// What is said where the address names no container.
pub open spec fn no_container_message() -> Seq<char> {
    "无法从URL中提取app_token，请确保URL包含/base/或/wiki/路径"@
}

/// What is said where the address names no table.
pub open spec fn no_table_message() -> Seq<char> {
    "无法从URL中提取table_id，请确保URL包含?table=参数"@
}

/// The container and the table that an address names, or the failure that
/// says which of the two is missing. Both must be there and neither may be
/// empty; where both are missing, the container is the one complained of.
pub open spec fn parsed_url(url: Seq<char>) -> Result<(Seq<char>, Seq<char>), ErrorView> {
    match container_segment(url) {
        None => Err(ErrorView::UrlParseError(no_container_message())),
        Some(segment) => if container_in_segment(segment).len() == 0 {
            Err(ErrorView::UrlParseError(no_container_message()))
        } else {
            match table_in_segment(segment) {
                None => Err(ErrorView::UrlParseError(no_table_message())),
                Some(table) => if table.len() == 0 {
                    Err(ErrorView::UrlParseError(no_table_message()))
                } else {
                    Ok((container_in_segment(segment), table))
                },
            }
        },
    }
}

/// The content of the outcome of taking an address apart.
pub open spec fn parts_view(outcome: Result<(String, String), FeishuSyncError>) -> Result<
    (Seq<char>, Seq<char>),
    ErrorView,
> {
    match outcome {
        Ok((container, table)) => Ok((container@, table@)),
        Err(e) => Err(e@),
    }
}

fn find_container_segment(segments: &Vec<String>) -> (found: Option<usize>)
    ensures
        match found {
            Some(i) => marker_position(text_views(segments@), segments@.len() as int) == Some(i as int) && i + 1
                < segments@.len(),
            None => marker_position(text_views(segments@), segments@.len() as int) is None,
        },
{
    let base = String::from_str("base");
    let wiki = String::from_str("wiki");
    let ghost views = text_views(segments@);
    let mut i: usize = 0;
    while i < segments.len()
        invariant
            i <= segments@.len(),
            views == text_views(segments@),
            base@ == "base"@,
            wiki@ == "wiki"@,
            marker_position(views, i as int) is None,
        decreases segments@.len() - i,
    {
        if (segments[i] == base || segments[i] == wiki) && i + 1 < segments.len() {
            proof {
                assert(views[i as int] == segments@[i as int]@);
                lemma_marker_found(views, i + 1, segments@.len() as int);
            }
            return Some(i);
        }
        proof {
            assert(views[i as int] == segments@[i as int]@);
        }
        i += 1;
    }
    None
}

proof fn lemma_marker_found(segments: Seq<Seq<char>>, n: int, m: int)
    requires
        0 <= n <= m,
        marker_position(segments, n) is Some,
    ensures
        marker_position(segments, m) == marker_position(segments, n),
    decreases m - n,
{
    if n < m {
        lemma_marker_found(segments, n, m - 1);
    }
}

fn find_table(query: &str) -> (found: Option<String>)
    ensures
        match found {
            Some(table) => table_among(split(query@, '&')) == Some(table@),
            None => table_among(split(query@, '&')) is None,
        },
{
    let parameters = split_text(query, '&');
    let wanted = String::from_str("table");
    let ghost views = text_views(parameters@);
    let mut found: Option<String> = None;
    let mut i: usize = 0;
    proof {
        assert(views.take(0).len() == 0);
    }
    while i < parameters.len()
        invariant
            i <= parameters@.len(),
            views == text_views(parameters@),
            wanted@ == "table"@,
            match found {
                Some(table) => table_among(views.take(i as int)) == Some(table@),
                None => table_among(views.take(i as int)) is None,
            },
        decreases parameters@.len() - i,
    {
        let parameter = parameters[i].as_str();
        let chars = chars_of(parameter);
        let end = chars.len();
        proof {
            assert(views.take(i + 1).drop_last() =~= views.take(i as int));
            assert(views.take(i + 1).last() == parameter@);
            lemma_first_position(parameter@, '=');
        }
        match find_char(&chars, '=') {
            Some(at) => {
                let name = piece(parameter, 0, at);
                if name == wanted {
                    found = Some(piece(parameter, at + 1, end));
                }
            },
            None => {},
        }
        i += 1;
    }
    proof {
        assert(views.take(parameters@.len() as int) =~= views);
    }
    found
}

fn no_container() -> (failure: FeishuSyncError)
    ensures
        failure@ == ErrorView::UrlParseError(no_container_message()),
{
    FeishuSyncError::UrlParseError(String::from_str("无法从URL中提取app_token，请确保URL包含/base/或/wiki/路径"))
}

fn no_table() -> (failure: FeishuSyncError)
    ensures
        failure@ == ErrorView::UrlParseError(no_table_message()),
{
    FeishuSyncError::UrlParseError(String::from_str("无法从URL中提取table_id，请确保URL包含?table=参数"))
}

/// Takes the address of a table apart into the container and the table.
///
/// Fails, naming the container, where no `base` or `wiki` segment is
/// followed by another segment or where nothing stands in that segment
/// before its `?`; fails, naming the table, where that segment has no
/// `table` parameter or the parameter has no value. What comes out on
/// success is never empty.
pub fn parse_feishu_base_url(url: &str) -> (outcome: Result<(String, String), FeishuSyncError>)
    ensures
        parts_view(outcome) == parsed_url(url@),
        outcome is Ok ==> outcome->Ok_0.0@.len() > 0 && outcome->Ok_0.1@.len() > 0,
{
    let segments = split_text(url, '/');
    let count = segments.len();
    let position = match find_container_segment(&segments) {
        Some(i) => i,
        None => { return Err(no_container()); },
    };
    assert(position + 1 < count);
    let segment = segments[position + 1].as_str();
    proof {
        assert(text_views(segments@)[position + 1] == segment@);
        lemma_first_position(segment@, '?');
    }
    let chars = chars_of(segment);
    let end = chars.len();
    let (container, table) = match find_char(&chars, '?') {
        Some(at) => (piece(segment, 0, at), find_table(piece(segment, at + 1, end).as_str())),
        None => (String::from_str(segment), None),
    };
    if container.as_str().unicode_len() == 0 {
        return Err(no_container());
    }
    match table {
        Some(table) => if table.as_str().unicode_len() == 0 {
            Err(no_table())
        } else {
            Ok((container, table))
        },
        None => Err(no_table()),
    }
}

} // verus!
