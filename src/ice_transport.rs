//! Network-path candidates and candidate pairs.
pub mod ice_candidate;
pub mod ice_candidate_pair;
