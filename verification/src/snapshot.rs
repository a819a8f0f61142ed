//! Snapshot locator handling: rewriting the user/password query parameters
//! of a snapshot URL to the designated fallback credentials, and the probe
//! that resolves a working locator from the candidates a device advertises
//! — trying each as given and once more with fallback credentials. The
//! downloads themselves happen outside; their outcomes drive the probe.

use crate::text::str_eq;
use crate::urls::{url_query_pairs, url_query_pairs_of, url_with_query, url_with_query_of};
use vstd::prelude::*;

verus! {

/// The fallback user created on devices whose advertised snapshot URL
/// rejects the configured credentials.
pub fn default_username() -> (r: &'static str)
    ensures
        r@ == "oet1"@,
{
    "oet1"
}

/// The fallback user's password.
pub fn default_password() -> (r: &'static str)
    ensures
        r@ == "oet12345"@,
{
    "oet12345"
}

/// One query pair with a credential value replaced: the values of `user`
/// and `password` change, every other pair is kept.
pub open spec fn replace_pair(
    p: (Seq<char>, Seq<char>),
    user: Seq<char>,
    password: Seq<char>,
) -> (Seq<char>, Seq<char>) {
    if p.0 == "user"@ {
        (p.0, user)
    } else if p.0 == "password"@ {
        (p.0, password)
    } else {
        p
    }
}

/// The query pairs with the values of `user` and `password` replaced and
/// everything else kept, in order.
pub open spec fn replaced_pairs(
    pairs: Seq<(Seq<char>, Seq<char>)>,
    user: Seq<char>,
    password: Seq<char>,
) -> Seq<(Seq<char>, Seq<char>)>
    decreases pairs.len(),
{
    if pairs.len() == 0 {
        pairs
    } else {
        replaced_pairs(pairs.drop_last(), user, password).push(
            replace_pair(pairs.last(), user, password),
        )
    }
}

/// The URL with its credential query parameters replaced; nothing when the
/// URL does not parse.
pub open spec fn replaced_uri(uri: Seq<char>, user: Seq<char>, password: Seq<char>) -> Option<
    Seq<char>,
> {
    match url_query_pairs_of(uri) {
        None => None,
        Some(pairs) => url_with_query_of(uri, replaced_pairs(pairs, user, password)),
    }
}

/// Rewrites the `user` and `password` query parameters of a snapshot URL,
/// as devices of the common `webcapture.jpg?user=...&password=...` shape
/// expect; an unparsable URL yields nothing.
pub fn replace_snapshot_uri_credentials(snapshot_uri: &str, new_user: &str, new_password: &str)
    -> (r: Option<String>)
    ensures
        r.deep_view() == replaced_uri(snapshot_uri@, new_user@, new_password@),
{
    let pairs = match url_query_pairs(snapshot_uri) {
        Some(p) => p,
        None => {
            return None;
        },
    };
    let mut out: Vec<(String, String)> = Vec::new();
    let mut i: usize = 0;
    while i < pairs.len()
        invariant
            i <= pairs@.len(),
            out.deep_view() =~= replaced_pairs(
                pairs.deep_view().take(i as int),
                new_user@,
                new_password@,
            ),
        decreases pairs.len() - i,
    {
        proof {
            assert(pairs.deep_view()[i as int] == pairs@[i as int].deep_view());
            assert(pairs.deep_view().take(i as int + 1).drop_last() =~= pairs.deep_view().take(
                i as int,
            ));
            assert(pairs.deep_view().take(i as int + 1).last() == pairs.deep_view()[i as int]);
        }
        let key = &pairs[i].0;
        if str_eq(key.as_str(), "user") {
            out.push((key.clone(), new_user.to_owned()));
        } else if str_eq(key.as_str(), "password") {
            out.push((key.clone(), new_password.to_owned()));
        } else {
            out.push((key.clone(), pairs[i].1.clone()));
        }
        proof {
            assert(out.deep_view() =~= replaced_pairs(
                pairs.deep_view().take(i as int + 1),
                new_user@,
                new_password@,
            ));
        }
        i += 1;
    }
    proof {
        assert(pairs.deep_view().take(pairs@.len() as int) =~= pairs.deep_view());
    }
    url_with_query(snapshot_uri, &out)
}

/// The URLs with every repetition of an earlier URL dropped, first
/// occurrences kept in order.
pub open spec fn dedup_spec(uris: Seq<Seq<char>>) -> Seq<Seq<char>>
    decreases uris.len(),
{
    if uris.len() == 0 {
        uris
    } else {
        let prefix = dedup_spec(uris.drop_last());
        if uris.drop_last().contains(uris.last()) {
            prefix
        } else {
            prefix.push(uris.last())
        }
    }
}

/// Drops duplicate snapshot locator candidates, keeping the first
/// occurrence of each; devices often advertise one locator per media
/// profile and many profiles share it.
pub fn dedup_snapshot_uris(uris: Vec<String>) -> (r: Vec<String>)
    ensures
        r.deep_view() == dedup_spec(uris.deep_view()),
{
    let mut out: Vec<String> = Vec::new();
    let mut i: usize = 0;
    while i < uris.len()
        invariant
            i <= uris@.len(),
            out.deep_view() =~= dedup_spec(uris.deep_view().take(i as int)),
        decreases uris.len() - i,
    {
        proof {
            assert(uris.deep_view().take(i as int + 1).drop_last() =~= uris.deep_view().take(
                i as int,
            ));
            assert(uris.deep_view().take(i as int + 1).last() == uris.deep_view()[i as int]);
            assert(uris.deep_view()[i as int] == uris@[i as int]@);
        }
        let mut seen = false;
        let mut j: usize = 0;
        while j < i
            invariant
                j <= i,
                i < uris@.len(),
                seen == exists|k: int| 0 <= k < j && uris.deep_view()[k] == uris.deep_view()[
                    i as int
                ],
            decreases i - j,
        {
            proof {
                assert(uris.deep_view()[j as int] == uris@[j as int]@);
            }
            if str_eq(uris[j].as_str(), uris[i].as_str()) {
                seen = true;
            }
            j += 1;
        }
        proof {
            assert(seen == uris.deep_view().take(i as int).contains(uris.deep_view()[i as int]))
                by {
                if seen {
                    let k = choose|k: int|
                        0 <= k < i && uris.deep_view()[k] == uris.deep_view()[i as int];
                    assert(uris.deep_view().take(i as int)[k] == uris.deep_view()[i as int]);
                    assert(uris.deep_view().take(i as int).contains(uris.deep_view()[i as int]));
                } else if uris.deep_view().take(i as int).contains(uris.deep_view()[i as int]) {
                    let k = choose|k: int|
                        0 <= k < i && uris.deep_view().take(i as int)[k] == uris.deep_view()[
                            i as int
                        ];
                    assert(uris.deep_view()[k] == uris.deep_view()[i as int]);
                }
            }
        }
        if !seen {
            let u = uris[i].clone();
            out.push(u);
            proof {
                assert(out.deep_view() =~= dedup_spec(uris.deep_view().take(i as int + 1)));
            }
        }
        i += 1;
    }
    proof {
        assert(uris.deep_view().take(uris@.len() as int) =~= uris.deep_view());
    }
    out
}

/// The probe that resolves a working snapshot locator: the candidate URLs
/// in order, the position reached, and — while set — the credential-fixed
/// variant of the current candidate being retried.
pub struct SnapshotProbe {
    pub uris: Vec<String>,
    pub idx: usize,
    pub fixed: Option<String>,
}

/// Mathematical value of the probe.
#[verifier::ext_equal]
pub struct SnapshotProbeView {
    pub uris: Seq<Seq<char>>,
    pub idx: usize,
    pub fixed: Option<Seq<char>>,
}

impl View for SnapshotProbe {
    type V = SnapshotProbeView;

    open spec fn view(&self) -> SnapshotProbeView {
        SnapshotProbeView {
            uris: self.uris.deep_view(),
            idx: self.idx,
            fixed: self.fixed.deep_view(),
        }
    }
}

/// The URL the probe asks to be downloaded next; nothing once every
/// candidate has been tried both ways.
pub open spec fn probe_target(p: SnapshotProbeView) -> Option<Seq<char>> {
    if p.idx < p.uris.len() {
        match p.fixed {
            Some(f) => Some(f),
            None => Some(p.uris[p.idx as int]),
        }
    } else {
        None
    }
}

/// The probe state after a failed download: a candidate tried as given is
/// retried once with fallback credentials when its URL can carry them;
/// otherwise the probe moves to the next candidate.
pub open spec fn probe_after_failure(p: SnapshotProbeView) -> SnapshotProbeView {
    if p.fixed is Some {
        SnapshotProbeView { idx: (p.idx + 1) as usize, fixed: None, ..p }
    } else {
        match replaced_uri(p.uris[p.idx as int], "oet1"@, "oet12345"@) {
            Some(f) => SnapshotProbeView { fixed: Some(f), ..p },
            None => SnapshotProbeView { idx: (p.idx + 1) as usize, fixed: None, ..p },
        }
    }
}

impl SnapshotProbe {
    /// A probe over these candidates, none tried yet.
    pub fn new(uris: Vec<String>) -> (r: Self)
        ensures
            r@.uris == uris.deep_view(),
            r@.idx == 0,
            r@.fixed is None,
    {
        SnapshotProbe { uris, idx: 0, fixed: None }
    }

    /// The URL to try downloading next, or nothing when the probe is
    /// exhausted and no locator works.
    pub fn current_target(&self) -> (r: Option<String>)
        ensures
            r.deep_view() == probe_target(self@),
    {
        if self.idx < self.uris.len() {
            match &self.fixed {
                Some(f) => Some(f.clone()),
                None => Some(self.uris[self.idx].clone()),
            }
        } else {
            None
        }
    }

    /// Feeds one download outcome back. On success the current target is
    /// the resolved locator and is returned; on failure the probe advances
    /// — retrying the candidate once with fallback credentials, then moving
    /// on — and nothing is returned yet.
    pub fn advance(&mut self, success: bool) -> (r: Option<String>)
        requires
            probe_target(old(self)@) is Some,
        ensures
            success ==> r.deep_view() == probe_target(old(self)@) && final(self)@ == old(self)@,
            !success ==> r is None && final(self)@ == probe_after_failure(old(self)@),
    {
        if success {
            return self.current_target();
        }
        match &self.fixed {
            Some(_) => {
                let n = self.uris.len();
                proof {
                    assert(self.idx < n);
                }
                self.fixed = None;
                self.idx = self.idx + 1;
            },
            None => {
                match replace_snapshot_uri_credentials(
                    self.uris[self.idx].as_str(),
                    default_username(),
                    default_password(),
                ) {
                    Some(f) => {
                        self.fixed = Some(f);
                    },
                    None => {
                        let n = self.uris.len();
                        proof {
                            assert(self.idx < n);
                        }
                        self.idx = self.idx + 1;
                    },
                }
            },
        }
        proof {
            assert(self@ =~~= probe_after_failure(old(self)@));
        }
        None
    }
}

} // verus!
