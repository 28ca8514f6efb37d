//! Version extractor: locates the version identifier that the bootstrap
//! script embeds as `/captcha/v1/<hex>/static` and returns the hexadecimal
//! run of the first such occurrence.

use vstd::prelude::*;
use crate::scan::matches_at;

verus! {

/// Characters that may appear in a version identifier.
pub open spec fn spec_hex_digit(c: char) -> bool {
    ('0' <= c && c <= '9') || ('a' <= c && c <= 'f')
}

/// The fixed text that precedes the version identifier.
pub open spec fn version_marker() -> Seq<char> {
    "/captcha/v1/"@
}

/// The fixed text that follows the version identifier.
pub open spec fn static_marker() -> Seq<char> {
    "/static"@
}

/// A version occurrence starts at `i`: the marker, then `k >= 1` hexadecimal
/// characters, then the static marker. Because the character after the run is
/// `/`, which is not hexadecimal, `k` is determined by `i` (see
/// `lemma_version_match_unique`).
pub open spec fn version_match_at(s: Seq<char>, i: int, k: int) -> bool {
    &&& 0 <= i
    &&& 1 <= k
    &&& i + version_marker().len() + k + static_marker().len() <= s.len()
    &&& s.subrange(i, i + version_marker().len()) == version_marker()
    &&& (forall|j: int|
        i + version_marker().len() <= j < i + version_marker().len() + k ==> spec_hex_digit(s[j]))
    &&& s.subrange(
        i + version_marker().len() + k,
        i + version_marker().len() + k + static_marker().len(),
    ) == static_marker()
}

/// Some version occurrence starts at `i`.
pub open spec fn version_candidate_at(s: Seq<char>, i: int) -> bool {
    exists|k: int| version_match_at(s, i, k)
}

/// The body holds at least one version occurrence.
pub open spec fn has_version(s: Seq<char>) -> bool {
    exists|i: int| version_candidate_at(s, i)
}

/// The hexadecimal run of an occurrence is as long as it can be: two
/// occurrences at one position are the same occurrence.
pub proof fn lemma_version_match_unique(s: Seq<char>, i: int, k1: int, k2: int)
    requires
        version_match_at(s, i, k1),
        version_match_at(s, i, k2),
    ensures
        k1 == k2,
{
    reveal_strlit("/static");
    let start = i + version_marker().len();
    if k1 < k2 {
        assert(s.subrange(start + k1, start + k1 + static_marker().len())[0] == s[start + k1]);
        assert(s[start + k1] == '/');
        assert(spec_hex_digit(s[start + k1]));
    } else if k2 < k1 {
        assert(s.subrange(start + k2, start + k2 + static_marker().len())[0] == s[start + k2]);
        assert(s[start + k2] == '/');
        assert(spec_hex_digit(s[start + k2]));
    }
}

/// The remote script no longer carries the expected pattern.
#[derive(Clone, Copy, Debug, PartialEq, Eq, Structural)]
pub enum ExtractError {
    NotFound,
}

/// Whether `c` may appear in a version identifier.
pub fn hex_digit(c: char) -> (r: bool)
    ensures
        r == spec_hex_digit(c),
{
    ('0' <= c && c <= '9') || ('a' <= c && c <= 'f')
}

/// Returns the hexadecimal run of the first version occurrence in `body`,
/// or reports that the pattern is absent. Absence is an expected outcome,
/// not a fault.
pub fn extract_version(body: &str) -> (r: Result<String, ExtractError>)
    ensures
        r matches Ok(v) ==> exists|i: int, k: int|
            {
                &&& #[trigger] version_match_at(body@, i, k)
                &&& (forall|j: int| 0 <= j < i ==> !version_candidate_at(body@, j))
                &&& v@ == body@.subrange(
                    i + version_marker().len(),
                    i + version_marker().len() + k,
                )
            },
        r is Err <==> !has_version(body@),
{
    proof {
        reveal_strlit("/captcha/v1/");
        reveal_strlit("/static");
    }
    let n = body.unicode_len();
    let plen = "/captcha/v1/".unicode_len();
    let slen = "/static".unicode_len();
    assert(plen == 12 && slen == 7);
    if n < plen + 1 + slen {
        proof {
            assert forall|i: int| !version_candidate_at(body@, i) by {
                if version_candidate_at(body@, i) {
                    let k = choose|k: int| version_match_at(body@, i, k);
                    assert(i + plen + k + slen <= n);
                }
            }
        }
        return Err(ExtractError::NotFound);
    }
    let last_start = n - plen - 1 - slen;
    let mut i: usize = 0;
    while i <= last_start
        invariant
            n == body@.len(),
            plen == version_marker().len(),
            slen == static_marker().len(),
            plen == 12,
            slen == 7,
            plen + 1 + slen <= n,
            last_start == n - plen - 1 - slen,
            i <= last_start + 1,
            forall|j: int| 0 <= j < i ==> !version_candidate_at(body@, j),
        decreases last_start + 1 - i,
    {
        if matches_at(body, i, "/captcha/v1/") {
            let run_start = i + plen;
            let mut e = run_start;
            while e < n
                invariant
                    n == body@.len(),
                    run_start <= e <= n,
                    forall|j: int| run_start <= j < e ==> spec_hex_digit(body@[j]),
                ensures
                    run_start <= e <= n,
                    forall|j: int| run_start <= j < e ==> spec_hex_digit(body@[j]),
                    e == n || !spec_hex_digit(body@[e as int]),
                decreases n - e,
            {
                if !hex_digit(body.get_char(e)) {
                    break;
                }
                e += 1;
            }
            let k = e - run_start;
            if k >= 1 && slen <= n - e && matches_at(body, e, "/static") {
                proof {
                    assert(version_match_at(body@, i as int, k as int));
                    assert(version_candidate_at(body@, i as int));
                    assert(has_version(body@));
                }
                let v = body.substring_char(run_start, e);
                return Ok(v.to_owned());
            }
            proof {
                assert forall|k2: int| !version_match_at(body@, i as int, k2) by {
                    reveal_strlit("/static");
                    if version_match_at(body@, i as int, k2) {
                        let start = i + plen;
                        if start + k2 < e {
                            assert(body@.subrange(
                                start + k2,
                                start + k2 + static_marker().len(),
                            ) == static_marker());
                            assert(body@.subrange(
                                start + k2,
                                start + k2 + static_marker().len(),
                            )[0] == body@[start + k2]);
                            assert(static_marker()[0] == '/');
                            assert(body@[start + k2] == '/');
                            assert(spec_hex_digit(body@[start + k2]));
                        } else if start + k2 > e {
                            assert(start + k2 + slen <= n);
                            assert(e < n);
                            assert(spec_hex_digit(body@[e as int]));
                        } else {
                            assert(body@.subrange(e as int, e + slen) == static_marker());
                        }
                    }
                }
            }
        } else {
            proof {
                assert forall|k2: int| !version_match_at(body@, i as int, k2) by {
                    if version_match_at(body@, i as int, k2) {
                        assert(body@.subrange(i as int, i + plen) == version_marker());
                    }
                }
            }
        }
        i += 1;
    }
    proof {
        assert forall|j: int| !version_candidate_at(body@, j) by {
            if version_candidate_at(body@, j) {
                let k = choose|k: int| version_match_at(body@, j, k);
                assert(j + plen + k + slen <= n);
                assert(j < i);
            }
        }
    }
    Err(ExtractError::NotFound)
}

} // verus!
