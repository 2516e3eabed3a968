use vstd::prelude::*;

use crate::Error;

verus! {

/// A double quote followed by the literal `http://` stands at position `i`.
pub open spec fn quoted_http(s: Seq<u8>, i: int) -> bool {
    &&& 0 <= i
    &&& i + 8 <= s.len()
    &&& s[i] == ('"' as u8)
    &&& s[i + 1] == ('h' as u8)
    &&& s[i + 2] == ('t' as u8)
    &&& s[i + 3] == ('t' as u8)
    &&& s[i + 4] == ('p' as u8)
    &&& s[i + 5] == (':' as u8)
    &&& s[i + 6] == ('/' as u8)
    &&& s[i + 7] == ('/' as u8)
}

/// The closing marker `&url="` stands at position `j`.
pub open spec fn marker(s: Seq<u8>, j: int) -> bool {
    &&& 0 <= j
    &&& j + 6 <= s.len()
    &&& s[j] == ('&' as u8)
    &&& s[j + 1] == ('u' as u8)
    &&& s[j + 2] == ('r' as u8)
    &&& s[j + 3] == ('l' as u8)
    &&& s[j + 4] == ('=' as u8)
    &&& s[j + 5] == ('"' as u8)
}

/// The scraping pattern matches with the opening quote at `i` and the closing
/// marker at `j`; the captured part `s[i+1 .. j]` must not cross a line break
/// after its `http://` head.
pub open spec fn match_at(s: Seq<u8>, i: int, j: int) -> bool {
    &&& quoted_http(s, i)
    &&& i + 8 <= j
    &&& marker(s, j)
    &&& forall|k: int| i + 8 <= k < j ==> s[k] != ('\n' as u8)
}

/// Some match starts at `i`.
pub open spec fn match_from(s: Seq<u8>, i: int) -> bool {
    exists|j: int| match_at(s, i, j)
}

/// The page contains the pattern somewhere.
pub open spec fn has_redirect(s: Seq<u8>) -> bool {
    exists|i: int| match_from(s, i)
}

/// The match the scraper selects: the leftmost start and, for that start, the
/// farthest closing marker.
pub open spec fn chosen_match(s: Seq<u8>, i: int, j: int) -> bool {
    &&& match_at(s, i, j)
    &&& forall|i2: int| 0 <= i2 < i ==> !match_from(s, i2)
    &&& forall|j2: int| j2 > j ==> !match_at(s, i, j2)
}

/// `s` with every leading double quote removed.
pub open spec fn trim_lead(s: Seq<u8>) -> Seq<u8>
    decreases s.len(),
{
    if s.len() > 0 && s[0] == ('"' as u8) {
        trim_lead(s.drop_first())
    } else {
        s
    }
}

/// `s` with every trailing double quote removed.
pub open spec fn trim_trail(s: Seq<u8>) -> Seq<u8>
    decreases s.len(),
{
    if s.len() > 0 && s[s.len() - 1] == ('"' as u8) {
        trim_trail(s.drop_last())
    } else {
        s
    }
}

/// `s` with double quotes removed from both ends.
pub open spec fn trim_quotes(s: Seq<u8>) -> Seq<u8> {
    trim_trail(trim_lead(s))
}

/// The URL the scraper extracts from a page that contains the pattern: the
/// selected capture, trimmed of quotes.
pub open spec fn spec_redirect_url(s: Seq<u8>) -> Seq<u8> {
    let (i, j) = choose|i: int, j: int| chosen_match(s, i, j);
    trim_quotes(s.subrange(i + 1, j))
}

/// At most one match can be the selected one.
pub proof fn lemma_chosen_match_unique(s: Seq<u8>, i1: int, j1: int, i2: int, j2: int)
    requires
        chosen_match(s, i1, j1),
        chosen_match(s, i2, j2),
    ensures
        i1 == i2,
        j1 == j2,
{
    assert(match_from(s, i1));
    assert(match_from(s, i2));
}

/// Does a quote followed by `http://` stand at `i`?
fn quoted_http_at(s: &[u8], i: usize) -> (r: bool)
    requires
        i + 8 <= s@.len(),
    ensures
        r == quoted_http(s@, i as int),
{
    s[i] == ('"' as u8) && s[i + 1] == ('h' as u8) && s[i + 2] == ('t' as u8) && s[i + 3] == (
    't' as u8) && s[i + 4] == ('p' as u8) && s[i + 5] == (':' as u8) && s[i + 6] == ('/' as u8)
        && s[i + 7] == ('/' as u8)
}

/// Does the marker `&url="` stand at `j`?
fn marker_at(s: &[u8], j: usize) -> (r: bool)
    requires
        j + 6 <= s@.len(),
    ensures
        r == marker(s@, j as int),
{
    s[j] == ('&' as u8) && s[j + 1] == ('u' as u8) && s[j + 2] == ('r' as u8) && s[j + 3] == (
    'l' as u8) && s[j + 4] == ('=' as u8) && s[j + 5] == ('"' as u8)
}

/// Scrapes a gateway page for the embedded redirect URL.
///
/// The page is searched for a quoted URL of the shape `"http://...&url="`:
/// the leftmost opening `"http://` wins, its capture runs to the last `&url="`
/// that follows on the same line, and surrounding double quotes are trimmed
/// from the capture. A page without the pattern is rejected with the raw
/// content attached.
pub fn extract_redirect_url(page: &[u8]) -> (r: Result<Vec<u8>, Error>)
    ensures
        r is Ok <==> has_redirect(page@),
        r matches Ok(url) ==> url@ == spec_redirect_url(page@),
        r matches Err(e) ==> e matches Error::InvalidIndexContent(raw) && raw@ == page@,
{
    let n = page.len();
    let mut i: usize = 0;
    while n - i >= 14
        invariant
            i <= n,
            n == page@.len(),
            forall|i2: int| 0 <= i2 < i ==> !match_from(page@, i2),
        decreases n - i,
    {
        if quoted_http_at(page, i) {
            let mut k: usize = i + 8;
            let mut best: Option<usize> = None;
            while n - k >= 6 && page[k] != ('\n' as u8)
                invariant
                    n == page@.len(),
                    i + 8 <= k <= n,
                    quoted_http(page@, i as int),
                    forall|m: int| i + 8 <= m < k ==> page@[m] != ('\n' as u8),
                    best matches Some(j0) ==> i + 8 <= j0 < k && match_at(
                        page@,
                        i as int,
                        j0 as int,
                    ) && (forall|j2: int| j0 < j2 < k ==> !match_at(page@, i as int, j2)),
                    best is None ==> forall|j2: int| j2 < k ==> !match_at(page@, i as int, j2),
                decreases n - k,
            {
                if marker_at(page, k) {
                    best = Some(k);
                    assert(match_at(page@, i as int, k as int));
                } else {
                    assert(!match_at(page@, i as int, k as int));
                }
                k = k + 1;
            }
            // No closing marker can stand at or beyond the stopping point.
            assert forall|j2: int| j2 >= k implies !match_at(page@, i as int, j2) by {
                if j2 + 6 <= n && n - k >= 6 {
                    assert(page@[k as int] == ('\n' as u8));
                    if j2 == k {
                        assert(page@[j2] == ('\n' as u8));
                    }
                }
            };
            match best {
                Some(j) => {
                    assert(chosen_match(page@, i as int, j as int));
                    assert(match_from(page@, i as int));
                    assert(has_redirect(page@));
                    // Trim double quotes off the capture page[i+1 .. j].
                    let ghost cap = page@.subrange(i + 1, j as int);
                    let mut lo: usize = i + 1;
                    while lo < j && page[lo] == ('"' as u8)
                        invariant
                            i + 1 <= lo <= j <= n,
                            n == page@.len(),
                            trim_lead(cap) == trim_lead(page@.subrange(lo as int, j as int)),
                        decreases j - lo,
                    {
                        proof {
                            let cur = page@.subrange(lo as int, j as int);
                            assert(cur[0] == page@[lo as int]);
                            assert(cur.drop_first() =~= page@.subrange(lo + 1, j as int));
                        }
                        lo = lo + 1;
                    }
                    proof {
                        assert(trim_lead(cap) == page@.subrange(lo as int, j as int));
                    }
                    let mut hi: usize = j;
                    while hi > lo && page[hi - 1] == ('"' as u8)
                        invariant
                            lo <= hi <= j <= n,
                            n == page@.len(),
                            trim_trail(trim_lead(cap)) == trim_trail(
                                page@.subrange(lo as int, hi as int),
                            ),
                        decreases hi,
                    {
                        proof {
                            let cur = page@.subrange(lo as int, hi as int);
                            assert(cur[cur.len() - 1] == page@[hi - 1]);
                            assert(cur.drop_last() =~= page@.subrange(lo as int, hi - 1));
                        }
                        hi = hi - 1;
                    }
                    proof {
                        assert(trim_quotes(cap) == page@.subrange(lo as int, hi as int));
                        let (ci, cj) = choose|a: int, b: int| chosen_match(page@, a, b);
                        lemma_chosen_match_unique(page@, i as int, j as int, ci, cj);
                    }
                    let out = vstd::slice::slice_to_vec(
                        vstd::slice::slice_subrange(page, lo, hi),
                    );
                    return Ok(out);
                },
                None => {
                    assert(!match_from(page@, i as int));
                },
            }
        } else {
            assert(!match_from(page@, i as int));
        }
        i = i + 1;
    }
    // Beyond the loop no start position leaves room for the whole pattern.
    assert forall|i2: int| 0 <= i2 implies !match_from(page@, i2) by {
        if i2 >= i {
            assert forall|j2: int| !match_at(page@, i2, j2) by {};
        }
    };
    assert(!has_redirect(page@));
    Err(Error::InvalidIndexContent(vstd::slice::slice_to_vec(page)))
}

} // verus!
