//! Asset archiver: builds each asset's download URL and the exact bytes the
//! archive file holds — a one-line provenance comment, then the fetched
//! bytes verbatim — and turns per-asset fetch outcomes into per-asset
//! results, one independent result per asset.

use vstd::prelude::*;
use vstd::utf8::encode_utf8;

verus! {

/// The fixed host that serves asset files.
pub open spec fn spec_asset_host() -> Seq<char> {
    "https://newassets.hcaptcha.com"@
}

/// The absolute URL of one asset: the asset host, the resource path, a
/// slash, the file name.
pub open spec fn spec_asset_url(resource_path: Seq<char>, file: Seq<char>) -> Seq<char> {
    spec_asset_host() + resource_path + "/"@ + file
}

/// The provenance comment that opens every archived file.
pub open spec fn spec_provenance_comment(url: Seq<char>) -> Seq<char> {
    "/* Source URL: "@ + url + " */\n"@
}

/// The bytes of one archived file: the UTF-8 of the provenance comment,
/// then the downloaded bytes verbatim.
pub open spec fn spec_archived_content(url: Seq<char>, data: Seq<u8>) -> Seq<u8> {
    encode_utf8(spec_provenance_comment(url)) + data
}

/// Builds the absolute URL of one asset file.
pub fn asset_url(resource_path: &str, file: &str) -> (r: String)
    ensures
        r@ == spec_asset_url(resource_path@, file@),
{
    let mut s = String::from_str("https://newassets.hcaptcha.com");
    s.append(resource_path);
    s.append("/");
    s.append(file);
    proof {
        assert(s@ =~= spec_asset_url(resource_path@, file@));
    }
    s
}

/// Builds the bytes to write for one fetched asset: the provenance comment
/// naming `url`, then `data` unchanged. The result fully replaces whatever
/// file stood at the asset's path before.
pub fn archived_content(url: &str, data: &Vec<u8>) -> (r: Vec<u8>)
    ensures
        r@ == spec_archived_content(url@, data@),
{
    let mut comment = String::from_str("/* Source URL: ");
    comment.append(url);
    comment.append(" */\n");
    proof {
        assert(comment@ =~= spec_provenance_comment(url@));
    }
    let mut out = comment.as_str().as_bytes_vec();
    let mut i: usize = 0;
    while i < data.len()
        invariant
            i <= data@.len(),
            out@ == encode_utf8(spec_provenance_comment(url@)) + data@.subrange(0, i as int),
        decreases data@.len() - i,
    {
        out.push(data[i]);
        proof {
            assert(out@ =~= encode_utf8(spec_provenance_comment(url@)) + data@.subrange(
                0,
                i + 1,
            ));
        }
        i += 1;
    }
    proof {
        assert(data@.subrange(0, data@.len() as int) =~= data@);
    }
    out
}

/// One asset to archive: its file name and its absolute download URL.
pub struct AssetJob {
    pub file: String,
    pub url: String,
}

/// Lays out one download job per configured asset name, in order.
pub fn plan_downloads(resource_path: &str, names: &Vec<String>) -> (jobs: Vec<AssetJob>)
    ensures
        jobs@.len() == names@.len(),
        forall|i: int|
            0 <= i < names@.len() ==> (#[trigger] jobs@[i]).file@ == names@[i]@ && jobs@[i].url@
                == spec_asset_url(resource_path@, names@[i]@),
{
    let mut jobs: Vec<AssetJob> = Vec::new();
    let mut i: usize = 0;
    while i < names.len()
        invariant
            i <= names@.len(),
            jobs@.len() == i,
            forall|j: int|
                0 <= j < i ==> (#[trigger] jobs@[j]).file@ == names@[j]@ && jobs@[j].url@
                    == spec_asset_url(resource_path@, names@[j]@),
        decreases names@.len() - i,
    {
        let url = asset_url(resource_path, names[i].as_str());
        let file = names[i].clone();
        jobs.push(AssetJob { file, url });
        i += 1;
    }
    jobs
}

/// One asset could not be fetched; the others are untouched by it.
#[derive(Clone, Copy, Debug, PartialEq, Eq, Structural)]
pub enum DownloadError {
    FetchFailed,
}

/// The compute half of archiving: one independent result per asset, in job
/// order. A fetched asset becomes the exact bytes of its archive file; a
/// missing fetch becomes its own failure and touches no other asset.
pub fn archive_results(jobs: &Vec<AssetJob>, fetched: &Vec<Option<Vec<u8>>>) -> (r: Vec<
    Result<Vec<u8>, DownloadError>,
>)
    requires
        fetched@.len() == jobs@.len(),
    ensures
        r@.len() == jobs@.len(),
        forall|i: int|
            0 <= i < jobs@.len() ==> match fetched@[i] {
                Some(b) => (#[trigger] r@[i]) matches Ok(c) && c@ == spec_archived_content(
                    jobs@[i].url@,
                    b@,
                ),
                None => r@[i] == Err::<Vec<u8>, DownloadError>(DownloadError::FetchFailed),
            },
{
    let mut out: Vec<Result<Vec<u8>, DownloadError>> = Vec::new();
    let mut i: usize = 0;
    while i < jobs.len()
        invariant
            i <= jobs@.len(),
            fetched@.len() == jobs@.len(),
            out@.len() == i,
            forall|j: int|
                0 <= j < i ==> match fetched@[j] {
                    Some(b) => (#[trigger] out@[j]) matches Ok(c) && c@ == spec_archived_content(
                        jobs@[j].url@,
                        b@,
                    ),
                    None => out@[j] == Err::<Vec<u8>, DownloadError>(DownloadError::FetchFailed),
                },
        decreases jobs@.len() - i,
    {
        match fetched[i].as_ref() {
            Some(b) => {
                let content = archived_content(jobs[i].url.as_str(), b);
                out.push(Ok(content));
            },
            None => {
                out.push(Err(DownloadError::FetchFailed));
            },
        }
        i += 1;
    }
    out
}

/// How many assets were not fetched.
pub open spec fn spec_none_count<T>(s: Seq<Option<T>>) -> int
    decreases s.len(),
{
    if s.len() == 0 {
        0
    } else {
        spec_none_count(s.drop_last()) + if s.last() is None {
            1int
        } else {
            0int
        }
    }
}

/// How many results are failures.
pub open spec fn spec_err_count<T, E>(s: Seq<Result<T, E>>) -> int
    decreases s.len(),
{
    if s.len() == 0 {
        0
    } else {
        spec_err_count(s.drop_last()) + if s.last() is Err {
            1int
        } else {
            0int
        }
    }
}

/// Failure counts are bounded by the number of results.
pub proof fn lemma_err_count_range<T, E>(s: Seq<Result<T, E>>)
    ensures
        0 <= spec_err_count(s) <= s.len(),
    decreases s.len(),
{
    if s.len() > 0 {
        lemma_err_count_range(s.drop_last());
    }
}

/// Results that fail exactly where the fetch came back empty hold exactly
/// as many failures as there were empty fetches.
pub proof fn lemma_err_count_matches<T, E, U>(fetched: Seq<Option<U>>, results: Seq<Result<T, E>>)
    requires
        fetched.len() == results.len(),
        forall|i: int| 0 <= i < results.len() ==> ((#[trigger] results[i]) is Err <==> fetched[i] is None),
    ensures
        spec_err_count(results) == spec_none_count(fetched),
    decreases results.len(),
{
    if results.len() > 0 {
        assert(results[results.len() - 1] is Err <==> fetched[fetched.len() - 1] is None);
        assert forall|i: int|
            0 <= i < results.drop_last().len() implies ((#[trigger] results.drop_last()[i]) is Err
            <==> fetched.drop_last()[i] is None) by {
            assert(results.drop_last()[i] == results[i]);
            assert(fetched.drop_last()[i] == fetched[i]);
        }
        lemma_err_count_matches(fetched.drop_last(), results.drop_last());
    }
}

/// One failing asset among `n` is isolated: the results hold exactly one
/// failure and `n - 1` successes.
pub proof fn lemma_single_failure_isolated<T, E, U>(
    fetched: Seq<Option<U>>,
    results: Seq<Result<T, E>>,
)
    requires
        fetched.len() == results.len(),
        forall|i: int| 0 <= i < results.len() ==> ((#[trigger] results[i]) is Err <==> fetched[i] is None),
        spec_none_count(fetched) == 1,
    ensures
        spec_err_count(results) == 1,
        results.len() >= 1,
        spec_err_count(results) + (results.len() - 1) == results.len(),
{
    lemma_err_count_matches(fetched, results);
    lemma_err_count_range(results);
    if results.len() == 0 {
        assert(spec_none_count(fetched) == 0);
    }
}

} // verus!
