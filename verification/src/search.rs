//! Searches: the address and the hits of a web search, and the choice and
//! order of the hits of a file search.

use crate::json::{item_views, Json, JsonValue};
use crate::models::{FileSearchResult, SearchResult, SearchResultView};
use crate::text::{
    before_first_text, byte_len, chars_of, contains, contains_text, digit_char, lowercase,
    lowercase_text, owned, push_text, text_before,
};
use vstd::prelude::*;
use vstd::seq_lib::{to_multiset_build, to_multiset_insert};
use vstd::string::StringSliceAdditionalSpecFns;

verus! {

/// Whether a byte stands for itself in a percent-encoded text: a letter or
/// digit of ASCII, or one of `-`, `_`, `.`, `~`.
pub open spec fn is_unreserved(b: u8) -> bool {
    (0x30 <= b <= 0x39) || (0x41 <= b <= 0x5a) || (0x61 <= b <= 0x7a) || b == 0x2d || b == 0x2e
        || b == 0x5f || b == 0x7e
}

/// The character for one hexadecimal digit, in upper case.
pub open spec fn hex_char(d: int) -> char {
    if d < 10 {
        digit_char(d)
    } else if d == 10 {
        'A'
    } else if d == 11 {
        'B'
    } else if d == 12 {
        'C'
    } else if d == 13 {
        'D'
    } else if d == 14 {
        'E'
    } else {
        'F'
    }
}

/// The percent-encoded text of `bytes`: every unreserved byte as it is, every
/// other byte as `%` and its two hexadecimal digits.
pub open spec fn percent_encoded(bytes: Seq<u8>) -> Seq<char>
    decreases bytes.len(),
{
    if bytes.len() == 0 {
        Seq::empty()
    } else if is_unreserved(bytes.last()) {
        percent_encoded(bytes.drop_last()).push(bytes.last() as char)
    } else {
        percent_encoded(bytes.drop_last()) + seq![
            '%',
            hex_char(bytes.last() as int / 16),
            hex_char(bytes.last() as int % 16),
        ]
    }
}

/// `urlencoding::encode` on `data`: it percent-encodes every byte of the
/// text's UTF-8 form but the letters and digits of ASCII and `-`, `_`, `.`,
/// `~`.
#[verifier::external_body]
fn percent_encode(data: &str) -> (r: String)
    ensures
        r@ == percent_encoded(data.spec_bytes()),
{
    urlencoding::encode(data).into_owned()
}

/// The address that answers a web search for `query`.
pub fn search_url(query: &str) -> (r: String)
    ensures
        r@ == "https://api.duckduckgo.com/?q="@ + percent_encoded(query.spec_bytes())
            + "&format=json&no_html=1"@,
{
    let mut r = owned("https://api.duckduckgo.com/?q=");
    let encoded = percent_encode(query);
    push_text(&mut r, encoded.as_str());
    push_text(&mut r, "&format=json&no_html=1");
    r
}

/// The views of a vector of hits.
pub open spec fn result_views(results: Seq<SearchResult>) -> Seq<SearchResultView> {
    Seq::new(results.len(), |i: int| results[i]@)
}

/// The hit that the abstract of an answer makes, if the answer has one: its
/// title is the answer's heading, or the query.
pub open spec fn abstract_results(data: JsonValue, query: Seq<char>) -> Seq<SearchResultView> {
    match data.text_at("Abstract"@) {
        Some(text) => if text.len() > 0 {
            seq![
                SearchResultView {
                    title: data.text_or("Heading"@, query),
                    url: data.text_or("AbstractURL"@, Seq::empty()),
                    snippet: text,
                },
            ]
        } else {
            Seq::empty()
        },
        None => Seq::empty(),
    }
}

/// The hit that a related topic makes, if it has a text and an address: its
/// title is what stands before the first ` - ` of the text.
pub open spec fn topic_result(topic: JsonValue) -> Option<SearchResultView> {
    match topic.text_at("Text"@) {
        Some(text) => match topic.text_at("FirstURL"@) {
            Some(url) => Some(
                SearchResultView { title: before_first_text(text, " - "@), url, snippet: text },
            ),
            None => None,
        },
        None => None,
    }
}

/// The hits that the topics `topics` make, in order.
pub open spec fn topic_results(topics: Seq<JsonValue>) -> Seq<SearchResultView>
    decreases topics.len(),
{
    if topics.len() == 0 {
        Seq::empty()
    } else {
        match topic_result(topics.last()) {
            Some(hit) => topic_results(topics.drop_last()).push(hit),
            None => topic_results(topics.drop_last()),
        }
    }
}

/// The first five of `topics`.
pub open spec fn first_topics(topics: Seq<JsonValue>) -> Seq<JsonValue> {
    if topics.len() > 5 {
        topics.take(5)
    } else {
        topics
    }
}

/// The related topics of an answer.
pub open spec fn related_topics(data: JsonValue) -> Seq<JsonValue> {
    match data.member("RelatedTopics"@) {
        Some(t) => match t.as_items() {
            Some(items) => items,
            None => Seq::empty(),
        },
        None => Seq::empty(),
    }
}

/// The hits of the answer `data` to a search for `query`: that of the
/// abstract, then those of the first five related topics.
pub open spec fn search_results(data: JsonValue, query: Seq<char>) -> Seq<SearchResultView> {
    abstract_results(data, query) + topic_results(first_topics(related_topics(data)))
}

/// The hit that the related topic `topic` makes.
fn topic_result_of(topic: &Json) -> (r: Option<SearchResult>)
    ensures
        match r {
            Some(hit) => topic_result(topic@) == Some(hit@),
            None => topic_result(topic@) is None,
        },
{
    match topic.str_at("Text") {
        Some(text) => match topic.str_at("FirstURL") {
            Some(url) => Some(
                SearchResult {
                    title: text_before(text, " - "),
                    url: owned(url),
                    snippet: owned(text),
                },
            ),
            None => None,
        },
        None => None,
    }
}

/// The hits of the answer `data` to a search for `query`.
pub fn parse_search_results(data: &Json, query: &str) -> (r: Vec<SearchResult>)
    ensures
        result_views(r@) == search_results(data@, query@),
{
    let mut results: Vec<SearchResult> = Vec::new();
    assert(result_views(results@) =~= Seq::<SearchResultView>::empty());
    if let Some(text) = data.str_at("Abstract") {
        if !text.is_empty() {
            let hit = SearchResult {
                title: owned(data.str_or("Heading", query)),
                url: owned(data.str_or_empty("AbstractURL")),
                snippet: owned(text),
            };
            results.push(hit);
        }
    }
    assert(result_views(results@) =~= abstract_results(data@, query@));
    let ghost first = result_views(results@);
    let topics = match data.get("RelatedTopics") {
        Some(t) => t.as_array(),
        None => None,
    };
    match topics {
        Some(items) => {
            let n: usize = if items.len() > 5 {
                5
            } else {
                items.len()
            };
            let ghost wanted = first_topics(related_topics(data@));
            assert(wanted =~= item_views(items@).take(n as int));
            let mut i: usize = 0;
            assert(topic_results(wanted.take(0)) =~= Seq::<SearchResultView>::empty());
            assert(first + Seq::<SearchResultView>::empty() =~= first);
            while i < n
                invariant
                    i <= n <= items.len(),
                    wanted == item_views(items@).take(n as int),
                    result_views(results@) == first + topic_results(wanted.take(i as int)),
                decreases n - i,
            {
                let ghost before = result_views(results@);
                proof {
                    let upto = wanted.take(i + 1);
                    assert(upto.drop_last() =~= wanted.take(i as int));
                    assert(upto.last() == items@[i as int]@);
                }
                match topic_result_of(&items[i]) {
                    Some(hit) => {
                        results.push(hit);
                        assert(result_views(results@) =~= before.push(hit@));
                        assert(before.push(hit@) =~= first + topic_results(wanted.take(i + 1)));
                    },
                    None => {},
                }
                i += 1;
            }
            assert(wanted.take(n as int) =~= wanted);
        },
        None => {
            assert(first + Seq::<SearchResultView>::empty() =~= first);
        },
    }
    results
}

/// Whether a directory of the name `name` is left out of a file search: a
/// directory of build output or of tools, or one whose name starts with a
/// dot.
pub open spec fn ignored_dir(name: Seq<char>) -> bool {
    name == "node_modules"@ || name == ".git"@ || name == "dist"@ || name == "dist-electron"@
        || name == ".next"@ || name == ".vite"@ || name == "coverage"@ || name == "__pycache__"@
        || name == ".cache"@ || (name.len() > 0 && name[0] == '.')
}

/// Whether a directory of the name `name` is left out of a file search.
pub fn is_ignored_dir(name: &str) -> (r: bool)
    ensures
        r == ignored_dir(name@),
{
    if name.eq("node_modules") || name.eq(".git") || name.eq("dist") || name.eq("dist-electron")
        || name.eq(".next") || name.eq(".vite") || name.eq("coverage") || name.eq("__pycache__")
        || name.eq(".cache") {
        return true;
    }
    let v = chars_of(name);
    v.len() > 0 && v[0] == '.'
}

/// How deep below the workspace a file search looks.
pub const SEARCH_DEPTH: usize = 4;

/// How many hits a file search gives at most.
pub const SEARCH_LIMIT: usize = 20;

/// Whether a file is a hit for the query `q`, given in lower case: its path
/// below the workspace or its name holds the query, whatever the case.
pub open spec fn is_hit(file: FileSearchResult, q: Seq<char>) -> bool {
    contains_text(lowercase_text(file.relative_path@), q) || contains_text(
        lowercase_text(file.name@),
        q,
    )
}

/// The rank of a hit, smaller first: directories before files, then names
/// that are the query before others, then shorter paths before longer ones.
pub open spec fn rank(file: FileSearchResult, q: Seq<char>) -> (int, int, int) {
    (
        if file.is_directory {
            0
        } else {
            1
        },
        if lowercase_text(file.name@) == q {
            0
        } else {
            1
        },
        byte_len(file.relative_path@),
    )
}

/// Whether the rank `a` comes after the rank `b`.
pub open spec fn rank_after(a: (int, int, int), b: (int, int, int)) -> bool {
    a.0 > b.0 || (a.0 == b.0 && (a.1 > b.1 || (a.1 == b.1 && a.2 > b.2)))
}

/// The place of the first of `ranks` that comes after `r`, or their number.
pub open spec fn first_after(ranks: Seq<(int, int, int)>, r: (int, int, int)) -> int
    decreases ranks.len(),
{
    if ranks.len() == 0 || rank_after(ranks[0], r) {
        0
    } else {
        1 + first_after(ranks.drop_first(), r)
    }
}

/// The ranks of `files`.
pub open spec fn ranks_of(files: Seq<FileSearchResult>, q: Seq<char>) -> Seq<(int, int, int)> {
    Seq::new(files.len(), |i: int| rank(files[i], q))
}

/// The hits among `files`, ordered by rank; hits of equal rank keep the order
/// in which they were found.
pub open spec fn ranked_hits(files: Seq<FileSearchResult>, q: Seq<char>) -> Seq<FileSearchResult>
    decreases files.len(),
{
    if files.len() == 0 {
        Seq::empty()
    } else {
        let before = ranked_hits(files.drop_last(), q);
        if is_hit(files.last(), q) {
            before.insert(first_after(ranks_of(before, q), rank(files.last(), q)), files.last())
        } else {
            before
        }
    }
}

/// The hits of a file search for `query` among `files`: the first twenty by
/// rank.
pub open spec fn file_hits(files: Seq<FileSearchResult>, query: Seq<char>) -> Seq<FileSearchResult> {
    let hits = ranked_hits(files, lowercase_text(query));
    if hits.len() > 20 {
        hits.take(20)
    } else {
        hits
    }
}

/// The hits among `files`, in the order in which they were found.
pub open spec fn hits_of(files: Seq<FileSearchResult>, q: Seq<char>) -> Seq<FileSearchResult>
    decreases files.len(),
{
    if files.len() == 0 {
        Seq::empty()
    } else if is_hit(files.last(), q) {
        hits_of(files.drop_last(), q).push(files.last())
    } else {
        hits_of(files.drop_last(), q)
    }
}

/// Whether `ranks` never fall: none comes after a later one.
pub open spec fn ranks_rise(ranks: Seq<(int, int, int)>) -> bool {
    forall|i: int, j: int| 0 <= i < j < ranks.len() ==> !rank_after(ranks[i], ranks[j])
}

/// The place of the first rank that comes after `r` is the place before
/// which none does and at which one does, or the end.
pub proof fn lemma_first_after(ranks: Seq<(int, int, int)>, r: (int, int, int), p: int)
    requires
        0 <= p <= ranks.len(),
        forall|k: int| 0 <= k < p ==> !rank_after(ranks[k], r),
        p == ranks.len() || rank_after(ranks[p], r),
    ensures
        first_after(ranks, r) == p,
    decreases ranks.len(),
{
    if ranks.len() > 0 && !rank_after(ranks[0], r) {
        let t = ranks.drop_first();
        assert forall|k: int| 0 <= k < p - 1 implies !rank_after(t[k], r) by {
            assert(t[k] == ranks[k + 1]);
        }
        if p < ranks.len() {
            assert(t[p - 1] == ranks[p]);
        }
        lemma_first_after(t, r, p - 1);
    }
}

/// Before the first rank that comes after `r` none does; at it, one does.
pub proof fn lemma_first_after_holds(ranks: Seq<(int, int, int)>, r: (int, int, int))
    ensures
        0 <= first_after(ranks, r) <= ranks.len(),
        forall|k: int| 0 <= k < first_after(ranks, r) ==> !rank_after(ranks[k], r),
        first_after(ranks, r) < ranks.len() ==> rank_after(ranks[first_after(ranks, r)], r),
    decreases ranks.len(),
{
    if ranks.len() > 0 && !rank_after(ranks[0], r) {
        let t = ranks.drop_first();
        lemma_first_after_holds(t, r);
        assert forall|k: int| 0 <= k < first_after(ranks, r) implies !rank_after(ranks[k], r) by {
            if k > 0 {
                assert(ranks[k] == t[k - 1]);
            }
        }
        if first_after(ranks, r) < ranks.len() {
            assert(ranks[first_after(ranks, r)] == t[first_after(t, r)]);
        }
    }
}

/// The ranked hits are the hits, each as often as it was found, and their
/// ranks never fall.
pub proof fn lemma_ranked_hits(files: Seq<FileSearchResult>, q: Seq<char>)
    ensures
        ranked_hits(files, q).to_multiset() == hits_of(files, q).to_multiset(),
        ranked_hits(files, q).len() == hits_of(files, q).len(),
        ranks_rise(ranks_of(ranked_hits(files, q), q)),
    decreases files.len(),
{
    if files.len() > 0 {
        let before = ranked_hits(files.drop_last(), q);
        lemma_ranked_hits(files.drop_last(), q);
        if is_hit(files.last(), q) {
            let x = files.last();
            let r = rank(x, q);
            let ranks = ranks_of(before, q);
            let p = first_after(ranks, r);
            lemma_first_after_holds(ranks, r);
            let after = before.insert(p, x);
            to_multiset_insert(before, p, x);
            to_multiset_build(hits_of(files.drop_last(), q), x);
            let new_ranks = ranks_of(after, q);
            assert forall|i: int, j: int| 0 <= i < j < new_ranks.len() implies !rank_after(
                new_ranks[i],
                new_ranks[j],
            ) by {
                let i0 = if i < p {
                    i
                } else {
                    i - 1
                };
                let j0 = if j < p {
                    j
                } else {
                    j - 1
                };
                if i != p {
                    assert(new_ranks[i] == ranks[i0]);
                }
                if j != p {
                    assert(new_ranks[j] == ranks[j0]);
                }
                if i == p {
                    assert(new_ranks[i] == r);
                    assert(!rank_after(ranks[p], ranks[j0]));
                    assert(rank_after(ranks[p], r));
                } else if j == p {
                    assert(new_ranks[j] == r);
                } else {
                    assert(!rank_after(ranks[i0], ranks[j0]));
                }
            }
        }
    }
}

/// A copy of `file`.
fn copy_of(file: &FileSearchResult) -> (r: FileSearchResult)
    ensures
        r == *file,
{
    FileSearchResult {
        name: file.name.clone(),
        path: file.path.clone(),
        relative_path: file.relative_path.clone(),
        is_directory: file.is_directory,
    }
}

/// The rank of `file` for the query `q`, given in lower case.
fn rank_of(file: &FileSearchResult, q: &str) -> (r: (u8, u8, usize))
    ensures
        (r.0 as int, r.1 as int, r.2 as int) == rank(*file, q@),
{
    let name = lowercase(file.name.as_str());
    (
        if file.is_directory {
            0
        } else {
            1
        },
        if name.as_str().eq(q) {
            0
        } else {
            1
        },
        file.relative_path.as_str().len(),
    )
}

/// Whether `file` is a hit for the query `q`, given in lower case.
fn is_hit_for(file: &FileSearchResult, q: &str) -> (r: bool)
    ensures
        r == is_hit(*file, q@),
{
    let path = lowercase(file.relative_path.as_str());
    if contains(path.as_str(), q) {
        return true;
    }
    let name = lowercase(file.name.as_str());
    contains(name.as_str(), q)
}

/// The ranks `ranks`, as integers.
pub open spec fn rank_views(ranks: Seq<(u8, u8, usize)>) -> Seq<(int, int, int)> {
    Seq::new(ranks.len(), |i: int| (ranks[i].0 as int, ranks[i].1 as int, ranks[i].2 as int))
}

/// The hits of a file search for `query` among the files `files` that were
/// found: those whose name or path holds the query, directories first, then
/// names that are the query, then by the length of the path, twenty at
/// most.
pub fn search_files(files: &Vec<FileSearchResult>, query: &str) -> (r: Vec<FileSearchResult>)
    ensures
        r@ == file_hits(files@, query@),
{
    let q = lowercase(query);
    let mut hits: Vec<FileSearchResult> = Vec::new();
    let mut ranks: Vec<(u8, u8, usize)> = Vec::new();
    let mut i: usize = 0;
    assert(files@.take(0) =~= Seq::<FileSearchResult>::empty());
    assert(rank_views(ranks@) =~= ranks_of(hits@, q@));
    while i < files.len()
        invariant
            i <= files.len(),
            hits@ == ranked_hits(files@.take(i as int), q@),
            rank_views(ranks@) == ranks_of(hits@, q@),
            ranks.len() == hits.len(),
        decreases files.len() - i,
    {
        proof {
            let upto = files@.take(i + 1);
            assert(upto.drop_last() =~= files@.take(i as int));
            assert(upto.last() == files@[i as int]);
        }
        if is_hit_for(&files[i], q.as_str()) {
            let r = rank_of(&files[i], q.as_str());
            let ghost rv = (r.0 as int, r.1 as int, r.2 as int);
            let mut p: usize = 0;
            while p < ranks.len() && !(ranks[p].0 > r.0 || (ranks[p].0 == r.0 && (ranks[p].1 > r.1
                || (ranks[p].1 == r.1 && ranks[p].2 > r.2))))
                invariant
                    p <= ranks.len(),
                    rv == (r.0 as int, r.1 as int, r.2 as int),
                    forall|k: int| 0 <= k < p ==> !rank_after(rank_views(ranks@)[k], rv),
                decreases ranks.len() - p,
            {
                p += 1;
            }
            proof {
                lemma_first_after(rank_views(ranks@), rv, p as int);
            }
            let ghost old_hits = hits@;
            let ghost old_ranks = rank_views(ranks@);
            hits.insert(p, copy_of(&files[i]));
            ranks.insert(p, r);
            assert(rank_views(ranks@) =~= old_ranks.insert(p as int, rv));
            assert(ranks_of(hits@, q@) =~= old_ranks.insert(p as int, rv));
        }
        i += 1;
    }
    assert(files@.take(files.len() as int) =~= files@);
    if hits.len() > 20 {
        hits.truncate(20);
        assert(hits@ =~= ranked_hits(files@, q@).take(20));
    }
    hits
}

} // verus!
