//! Change detector: the trailing segment of a resource path names the
//! version for archival, and a ledger of (host, segment) pairs — mirrored on
//! disk by the archive directories — says whether that version was already
//! processed.

use vstd::prelude::*;

verus! {

/// Where the trailing segment of `s` begins, scanning back from `upto`: the
/// position after the last `/` before `upto`, or 0 when there is none.
pub open spec fn spec_seg_start(s: Seq<char>, upto: int) -> int
    recommends
        0 <= upto <= s.len(),
    decreases upto,
{
    if upto <= 0 {
        0
    } else if s[upto - 1] == '/' {
        upto
    } else {
        spec_seg_start(s, upto - 1)
    }
}

/// The characters after the last `/` of `s`; all of `s` when it has none.
pub open spec fn spec_trailing_segment(s: Seq<char>) -> Seq<char> {
    s.subrange(spec_seg_start(s, s.len() as int), s.len() as int)
}

/// Returns the trailing path segment of `path`: the characters after its
/// last `/`, or all of `path` when it holds none.
pub fn trailing_segment(path: &str) -> (r: String)
    ensures
        r@ == spec_trailing_segment(path@),
{
    let n = path.unicode_len();
    let mut cut = n;
    while cut > 0
        invariant
            cut <= n,
            n == path@.len(),
            spec_seg_start(path@, n as int) == spec_seg_start(path@, cut as int),
        ensures
            cut <= n,
            n == path@.len(),
            spec_seg_start(path@, n as int) == spec_seg_start(path@, cut as int),
            cut == 0 || path@[cut - 1] == '/',
        decreases cut,
    {
        if path.get_char(cut - 1) == '/' {
            break;
        }
        cut -= 1;
    }
    proof {
        assert(spec_seg_start(path@, cut as int) == cut);
    }
    let seg = path.substring_char(cut, n);
    seg.to_owned()
}

/// The archive directory that records a (host, segment) pair.
pub open spec fn spec_archive_dir(host: Seq<char>, segment: Seq<char>) -> Seq<char> {
    "output/"@ + host + "/"@ + segment
}

/// Returns the canonical archive directory path for a host and a version
/// segment.
pub fn archive_dir_path(host: &str, segment: &str) -> (r: String)
    ensures
        r@ == spec_archive_dir(host@, segment@),
{
    let mut s = String::from_str("output/");
    s.append(host);
    s.append("/");
    s.append(segment);
    proof {
        assert(s@ =~= spec_archive_dir(host@, segment@));
    }
    s
}

/// A version is new for a target exactly while its pair is not in the
/// ledger.
pub open spec fn spec_is_new(
    ledger: Set<(Seq<char>, Seq<char>)>,
    host: Seq<char>,
    segment: Seq<char>,
) -> bool {
    !ledger.contains((host, segment))
}

/// The set of (host, version segment) pairs already archived. The filesystem
/// is the durable copy: one archive directory per recorded pair.
pub struct ArchiveLedger {
    seen: Vec<(String, String)>,
}

impl View for ArchiveLedger {
    type V = Set<(Seq<char>, Seq<char>)>;

    closed spec fn view(&self) -> Set<(Seq<char>, Seq<char>)> {
        Set::new(
            |p: (Seq<char>, Seq<char>)|
                exists|i: int|
                    0 <= i < self.seen@.len() && (#[trigger] self.seen@[i]).0@ == p.0
                        && self.seen@[i].1@ == p.1,
        )
    }
}

impl ArchiveLedger {
    /// An empty ledger: nothing archived yet.
    pub fn new() -> (r: ArchiveLedger)
        ensures
            r@ == Set::<(Seq<char>, Seq<char>)>::empty(),
    {
        let r = ArchiveLedger { seen: Vec::new() };
        proof {
            assert(r@ =~= Set::<(Seq<char>, Seq<char>)>::empty());
        }
        r
    }

    /// Whether the (host, segment) pair was not yet recorded. Reading leaves
    /// the ledger as it is: repeated calls agree until `mark_archived`.
    pub fn is_new(&self, host: &str, segment: &str) -> (r: bool)
        ensures
            r == spec_is_new(self@, host@, segment@),
    {
        let h = host.to_owned();
        let s = segment.to_owned();
        let mut i: usize = 0;
        while i < self.seen.len()
            invariant
                i <= self.seen@.len(),
                h@ == host@,
                s@ == segment@,
                forall|j: int|
                    0 <= j < i ==> !((#[trigger] self.seen@[j]).0@ == host@ && self.seen@[j].1@
                        == segment@),
            decreases self.seen@.len() - i,
        {
            if self.seen[i].0 == h && self.seen[i].1 == s {
                proof {
                    assert(self@.contains((host@, segment@)));
                }
                return false;
            }
            i += 1;
        }
        proof {
            if self@.contains((host@, segment@)) {
                let j = choose|j: int|
                    0 <= j < self.seen@.len() && (#[trigger] self.seen@[j]).0@ == host@
                        && self.seen@[j].1@ == segment@;
                assert(false);
            }
        }
        true
    }

    /// Records the (host, segment) pair: from now on it is not new.
    pub fn mark_archived(&mut self, host: &str, segment: &str)
        ensures
            final(self)@ == old(self)@.insert((host@, segment@)),
    {
        let ghost before = self@;
        let ghost old_len = self.seen@.len() as int;
        self.seen.push((host.to_owned(), segment.to_owned()));
        proof {
            let target = before.insert((host@, segment@));
            assert forall|p: (Seq<char>, Seq<char>)| self@.contains(p) implies target.contains(
                p,
            ) by {
                let i = choose|i: int|
                    0 <= i < self.seen@.len() && (#[trigger] self.seen@[i]).0@ == p.0
                        && self.seen@[i].1@ == p.1;
                if i < old_len {
                    assert(before.contains(p));
                }
            }
            assert forall|p: (Seq<char>, Seq<char>)| target.contains(p) implies self@.contains(
                p,
            ) by {
                if before.contains(p) {
                    let i = choose|i: int|
                        0 <= i < old(self).seen@.len() && (#[trigger] old(self).seen@[i]).0@ == p.0
                            && old(self).seen@[i].1@ == p.1;
                    assert((self.seen@[i]).0@ == p.0 && self.seen@[i].1@ == p.1);
                } else {
                    assert((self.seen@[old_len]).0@ == p.0 && self.seen@[old_len].1@ == p.1);
                }
            }
            assert(self@ =~= target);
        }
    }
}

/// A version seen as new and then recorded is no longer new: detection fires
/// once per pair.
pub proof fn lemma_first_detection(
    ledger: Set<(Seq<char>, Seq<char>)>,
    host: Seq<char>,
    segment: Seq<char>,
)
    requires
        spec_is_new(ledger, host, segment),
    ensures
        !spec_is_new(ledger.insert((host, segment)), host, segment),
{
}

/// Once a pair is recorded it never becomes new again, whatever is recorded
/// after it.
pub proof fn lemma_stays_archived(
    ledger: Set<(Seq<char>, Seq<char>)>,
    host: Seq<char>,
    segment: Seq<char>,
    host2: Seq<char>,
    segment2: Seq<char>,
)
    requires
        !spec_is_new(ledger, host, segment),
    ensures
        !spec_is_new(ledger.insert((host2, segment2)), host, segment),
{
}

/// Recording one pair leaves every other pair's newness as it was.
pub proof fn lemma_other_pairs_unchanged(
    ledger: Set<(Seq<char>, Seq<char>)>,
    host: Seq<char>,
    segment: Seq<char>,
    host2: Seq<char>,
    segment2: Seq<char>,
)
    requires
        (host, segment) != (host2, segment2),
    ensures
        spec_is_new(ledger.insert((host2, segment2)), host, segment) == spec_is_new(
            ledger,
            host,
            segment,
        ),
{
}

} // verus!
