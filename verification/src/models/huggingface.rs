//! HuggingFace API addresses and the selection of GGUF files.

use crate::models::SearchResult;
use crate::error::LocalForgeError;
use crate::text::{chars_end_with, chars_of, copy_opt, ends_with, opt_view, strings_view};
use vstd::prelude::*;
use vstd::string::*;

verus! {

pub open spec fn hf_api_base() -> Seq<char> {
    "https://huggingface.co/api"@
}

/// The search request for GGUF models matching `query`, most downloaded
/// first, at most twenty.
pub fn search_url(query: &str) -> (r: String)
    ensures
        r@ == hf_api_base() + "/models?search="@ + query@
            + "&filter=gguf&sort=downloads&direction=-1&limit=20"@,
{
    let mut u = String::from_str("https://huggingface.co/api");
    u.append("/models?search=");
    u.append(query);
    u.append("&filter=gguf&sort=downloads&direction=-1&limit=20");
    u
}

/// The request describing a repository and its files.
pub fn repo_info_url(repo: &str) -> (r: String)
    ensures
        r@ == hf_api_base() + "/models/"@ + repo@,
{
    let mut u = String::from_str("https://huggingface.co/api");
    u.append("/models/");
    u.append(repo);
    u
}

/// Construct a direct download URL for a GGUF file in a repo.
pub fn download_url(repo: &str, filename: &str) -> (r: String)
    ensures
        r@ == "https://huggingface.co/"@ + repo@ + "/resolve/main/"@ + filename@,
{
    let mut u = String::from_str("https://huggingface.co/");
    u.append(repo);
    u.append("/resolve/main/");
    u.append(filename);
    u
}

/// The names among `names` that end in `.gguf`, in order.
pub open spec fn gguf_only(names: Seq<Seq<char>>) -> Seq<Seq<char>>
    decreases names.len(),
{
    if names.len() == 0 {
        names
    } else {
        let r = gguf_only(names.drop_last());
        if ends_with(names.last(), ".gguf"@) {
            r.push(names.last())
        } else {
            r
        }
    }
}

/// The GGUF files among a repository's file names.
pub fn gguf_files(names: &[String]) -> (r: Vec<String>)
    ensures
        strings_view(r@) == gguf_only(strings_view(names@)),
{
    let ghost nv = strings_view(names@);
    let suffix = chars_of(".gguf");
    proof {
        reveal_strlit(".gguf");
    }
    let mut out: Vec<String> = Vec::new();
    let mut i: usize = 0;
    assert(nv.take(0) =~= Seq::<Seq<char>>::empty());
    while i < names.len()
        invariant
            nv == strings_view(names@),
            suffix@ == ".gguf"@,
            i <= names.len(),
            strings_view(out@) == gguf_only(nv.take(i as int)),
        decreases names.len() - i,
    {
        assert(nv.take(i + 1).drop_last() =~= nv.take(i as int));
        assert(nv.take(i + 1).last() == names@[i as int]@);
        let cs = chars_of(names[i].as_str());
        if chars_end_with(cs.as_slice(), suffix.as_slice()) {
            let ghost before = strings_view(out@);
            out.push(names[i].clone());
            assert(strings_view(out@) =~= before.push(names@[i as int]@));
        }
        i = i + 1;
    }
    assert(nv.take(names.len() as int) =~= nv);
    out
}

/// A search hit from one item of the API's answer: it needs an `id` text
/// and a `downloads` field; a `downloads` value that is not a count reads
/// as zero. `downloads` is `None` when the field is missing, `Some(None)`
/// when it is not an unsigned integer.
pub fn search_result_from(id: Option<String>, downloads: Option<Option<u64>>) -> (r: Option<
    SearchResult,
>)
    ensures
        (id is None || downloads is None) ==> r is None,
        id matches Some(i) ==> (downloads matches Some(d) ==> (r matches Some(res) && res.id == i
            && res.downloads == match d {
            Some(n) => n,
            None => 0,
        })),
{
    match (id, downloads) {
        (Some(i), Some(d)) => Some(
            SearchResult {
                id: i,
                downloads: match d {
                    Some(n) => n,
                    None => 0,
                },
            },
        ),
        _ => None,
    }
}

// ---------------------------------------------------------------------------
// Reading the API's answers
// ---------------------------------------------------------------------------

/// The fields of a search answer as the JSON parser reads them: for each
/// item of the top-level array, its `id` when that is text, and its
/// `downloads` (`None` when missing, `Some(None)` when not an unsigned
/// integer); nothing when the body is not a JSON array.
pub uninterp spec fn search_fields_of(body: Seq<char>) -> Option<Seq<(Option<Seq<char>>, Option<Option<u64>>)>>;

/// The abstract content of parsed search fields.
pub open spec fn fields_view(v: Seq<(Option<String>, Option<Option<u64>>)>) -> Seq<
    (Option<Seq<char>>, Option<Option<u64>>),
> {
    v.map_values(|f: (Option<String>, Option<Option<u64>>)| (opt_view(f.0), f.1))
}

/// The id and download count of each item of a search answer
/// (`serde_json::from_str` into a list of `serde_json::Value`).
#[verifier::external_body]
fn parse_search_fields(body: &str) -> (r: Option<Vec<(Option<String>, Option<Option<u64>>)>>)
    ensures
        match r {
            Some(v) => search_fields_of(body@) == Some(fields_view(v@)),
            None => search_fields_of(body@) is None,
        },
{
    let parsed: Vec<serde_json::Value> = serde_json::from_str(body).ok()?;
    Some(
        parsed.iter().map(
            |m| (m.get("id").and_then(|v| v.as_str()).map(|v| v.to_string()), m.get("downloads").map(|d| d.as_u64())),
        ).collect(),
    )
}

/// The search hit an item's fields make, by the rule of `search_result_from`.
pub open spec fn hit_of(f: (Option<Seq<char>>, Option<Option<u64>>)) -> Option<(Seq<char>, u64)> {
    match f {
        (Some(i), Some(d)) => Some(
            (
                i,
                match d {
                    Some(n) => n,
                    None => 0,
                },
            ),
        ),
        _ => None,
    }
}

/// The hits of a search answer's items, in order, skipping items without
/// an id or a download count.
pub open spec fn hits_of(fs: Seq<(Option<Seq<char>>, Option<Option<u64>>)>) -> Seq<(Seq<char>, u64)>
    decreases fs.len(),
{
    if fs.len() == 0 {
        seq![]
    } else {
        match hit_of(fs.last()) {
            Some(h) => hits_of(fs.drop_last()).push(h),
            None => hits_of(fs.drop_last()),
        }
    }
}

/// The abstract content of search results: ids and download counts.
pub open spec fn results_view(v: Seq<SearchResult>) -> Seq<(Seq<char>, u64)> {
    v.map_values(|r: SearchResult| (r.id@, r.downloads))
}

/// The search results in a HuggingFace search answer; none when the body is
/// not a JSON array.
pub fn search_results_from_body(body: &str) -> (r: Vec<SearchResult>)
    ensures
        results_view(r@) == match search_fields_of(body@) {
            Some(fs) => hits_of(fs),
            None => seq![],
        },
{
    let mut out: Vec<SearchResult> = Vec::new();
    match parse_search_fields(body) {
        None => {
            assert(results_view(out@) =~= seq![]);
            out
        },
        Some(fields) => {
            let ghost fv = fields_view(fields@);
            let mut i: usize = 0;
            assert(fv.take(0) =~= Seq::<(Option<Seq<char>>, Option<Option<u64>>)>::empty());
            while i < fields.len()
                invariant
                    fv == fields_view(fields@),
                    i <= fields@.len(),
                    results_view(out@) == hits_of(fv.take(i as int)),
                decreases fields.len() - i,
            {
                assert(fv.take(i + 1).drop_last() =~= fv.take(i as int));
                assert(fv.take(i + 1).last() == fv[i as int]);
                let id = copy_opt(&fields[i].0);
                let dl = fields[i].1;
                let ghost before = results_view(out@);
                match search_result_from(id, dl) {
                    Some(res) => {
                        out.push(res);
                        assert(results_view(out@) =~= before.push(hit_of(fv[i as int])->0));
                    },
                    None => {},
                }
                i = i + 1;
            }
            assert(fv.take(fields.len() as int) =~= fv);
            out
        },
    }
}

/// The `rfilename` of each entry of a repository answer's `siblings` list
/// as the JSON parser reads them (`None` for an entry without a text name;
/// an empty list when `siblings` is missing), or the parser's message when
/// the body is not JSON.
pub uninterp spec fn sibling_names_of(body: Seq<char>) -> core::result::Result<Seq<Option<Seq<char>>>, Seq<char>>;

/// The abstract content of a list of optional names.
pub open spec fn names_view(v: Seq<Option<String>>) -> Seq<Option<Seq<char>>> {
    v.map_values(|n: Option<String>| opt_view(n))
}

/// The file names listed in a repository answer
/// (`serde_json::from_str` into a `serde_json::Value`, then the
/// `rfilename` of each `siblings` entry), or the parser's error message.
#[verifier::external_body]
fn parse_sibling_names(body: &str) -> (r: core::result::Result<Vec<Option<String>>, String>)
    ensures
        match r {
            Ok(v) => sibling_names_of(body@) == Ok::<Seq<Option<Seq<char>>>, Seq<char>>(names_view(v@)),
            Err(m) => sibling_names_of(body@) == Err::<Seq<Option<Seq<char>>>, Seq<char>>(m@),
        },
{
    let parsed: serde_json::Value = serde_json::from_str(body).map_err(|e| e.to_string())?;
    let siblings = parsed.get("siblings").and_then(|s| s.as_array()).cloned().unwrap_or_default();
    Ok(siblings.iter().map(|s| s.get("rfilename").and_then(|n| n.as_str()).map(|n| n.to_string())).collect())
}

/// The names that are present, in order.
pub open spec fn present_names(s: Seq<Option<Seq<char>>>) -> Seq<Seq<char>>
    decreases s.len(),
{
    if s.len() == 0 {
        seq![]
    } else {
        match s.last() {
            Some(n) => present_names(s.drop_last()).push(n),
            None => present_names(s.drop_last()),
        }
    }
}

/// The GGUF files a HuggingFace repository answer lists, in order; a body
/// that is not JSON is a serialization error carrying the parser's message.
pub fn gguf_files_from_body(body: &str) -> (r: core::result::Result<Vec<String>, LocalForgeError>)
    ensures
        match sibling_names_of(body@) {
            Ok(ns) => r matches Ok(v) && strings_view(v@) == gguf_only(present_names(ns)),
            Err(m) => r matches Err(LocalForgeError::Serialization(e)) && e@ == m,
        },
{
    match parse_sibling_names(body) {
        Err(m) => Err(LocalForgeError::Serialization(m)),
        Ok(entries) => {
            let ghost ev = names_view(entries@);
            let mut names: Vec<String> = Vec::new();
            let mut i: usize = 0;
            assert(ev.take(0) =~= Seq::<Option<Seq<char>>>::empty());
            while i < entries.len()
                invariant
                    ev == names_view(entries@),
                    i <= entries@.len(),
                    strings_view(names@) == present_names(ev.take(i as int)),
                decreases entries.len() - i,
            {
                assert(ev.take(i + 1).drop_last() =~= ev.take(i as int));
                assert(ev.take(i + 1).last() == ev[i as int]);
                let ghost before = strings_view(names@);
                match &entries[i] {
                    Some(n) => {
                        names.push(n.clone());
                        assert(strings_view(names@) =~= before.push(n@));
                    },
                    None => {},
                }
                i = i + 1;
            }
            assert(ev.take(entries.len() as int) =~= ev);
            Ok(gguf_files(names.as_slice()))
        },
    }
}

} // verus!
