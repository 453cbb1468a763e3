//! A selected pair of candidates: one local, one remote.
use vstd::prelude::*;
use crate::ice_transport::ice_candidate::RTCIceCandidate;

verus! {

/// A local and a remote candidate between which connectivity was checked,
/// with a statistics id made of both candidates' ids.
#[derive(Default, Debug, Clone, PartialEq, Eq)]
pub struct RTCIceCandidatePair {
    stats_id: String,
    local: RTCIceCandidate,
    remote: RTCIceCandidate,
}

/// The statistics id of a pair: the local id, a dash, the remote id.
pub open spec fn spec_pair_stats_id(local_id: Seq<char>, remote_id: Seq<char>) -> Seq<char> {
    local_id + seq!['-'] + remote_id
}

impl RTCIceCandidatePair {
    /// The pair's statistics id.
    pub closed spec fn spec_stats_id(&self) -> Seq<char> {
        self.stats_id@
    }

    /// The pair's local candidate.
    pub closed spec fn spec_local(&self) -> RTCIceCandidate {
        self.local
    }

    /// The pair's remote candidate.
    pub closed spec fn spec_remote(&self) -> RTCIceCandidate {
        self.remote
    }

    /// The statistics id for a pair of candidates with these ids.
    pub fn stats_id(local_id: &str, remote_id: &str) -> (r: String)
        ensures
            r@ == spec_pair_stats_id(local_id@, remote_id@),
    {
        let mut id = String::from_str(local_id);
        id.append("-");
        id.append(remote_id);
        proof {
            reveal_strlit("-");
        }
        id
    }

    /// The pair of `local` and `remote`, with its statistics id.
    pub fn new(local: RTCIceCandidate, remote: RTCIceCandidate) -> (r: Self)
        ensures
            r.spec_local() == local,
            r.spec_remote() == remote,
            r.spec_stats_id() == spec_pair_stats_id(local.stats_id@, remote.stats_id@),
    {
        let stats_id = Self::stats_id(local.stats_id.as_str(), remote.stats_id.as_str());
        RTCIceCandidatePair { stats_id, local, remote }
    }

    /// The statistics id of this pair.
    pub fn pair_stats_id(&self) -> (r: &str)
        ensures
            r@ == self.spec_stats_id(),
    {
        self.stats_id.as_str()
    }

    /// The local candidate.
    pub fn local_candidate(&self) -> (r: &RTCIceCandidate)
        ensures
            *r == self.spec_local(),
    {
        &self.local
    }

    /// The remote candidate.
    pub fn remote_candidate(&self) -> (r: &RTCIceCandidate)
        ensures
            *r == self.spec_remote(),
    {
        &self.remote
    }
}

} // verus!
