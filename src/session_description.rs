//! Session descriptions and remote candidates as the signaling relay carries
//! them: a description type with its wire name, and the description itself.
use vstd::prelude::*;

verus! {

/// Whether `a` and `b` hold the same characters.
pub fn same_text(a: &str, b: &str) -> (r: bool)
    ensures
        r == (a@ == b@),
{
    let x: String = a.to_owned();
    let y: String = b.to_owned();
    x == y
}

/// The role of a session description in a negotiation.
#[derive(Clone, Copy, Debug, PartialEq, Eq, Structural, Default)]
pub enum RTCSdpType {
    #[default]
    Unspecified,
    Offer,
    Pranswer,
    Answer,
    Rollback,
}

impl RTCSdpType {
    /// The wire name of the type.
    pub open spec fn spec_name(&self) -> Seq<char> {
        match self {
            RTCSdpType::Unspecified => "unspecified"@,
            RTCSdpType::Offer => "offer"@,
            RTCSdpType::Pranswer => "pranswer"@,
            RTCSdpType::Answer => "answer"@,
            RTCSdpType::Rollback => "rollback"@,
        }
    }

    /// The type a wire name stands for; any unknown name is `Unspecified`.
    pub open spec fn spec_from_name(name: Seq<char>) -> RTCSdpType {
        if name == "offer"@ {
            RTCSdpType::Offer
        } else if name == "pranswer"@ {
            RTCSdpType::Pranswer
        } else if name == "answer"@ {
            RTCSdpType::Answer
        } else if name == "rollback"@ {
            RTCSdpType::Rollback
        } else {
            RTCSdpType::Unspecified
        }
    }

    /// The wire name of the type.
    pub fn name(&self) -> (r: &'static str)
        ensures
            r@ == self.spec_name(),
    {
        match self {
            RTCSdpType::Unspecified => "unspecified",
            RTCSdpType::Offer => "offer",
            RTCSdpType::Pranswer => "pranswer",
            RTCSdpType::Answer => "answer",
            RTCSdpType::Rollback => "rollback",
        }
    }

    /// The type a wire name stands for; any unknown name is `Unspecified`.
    pub fn from_name(name: &str) -> (r: RTCSdpType)
        ensures
            r == Self::spec_from_name(name@),
    {
        if same_text(name, "offer") {
            RTCSdpType::Offer
        } else if same_text(name, "pranswer") {
            RTCSdpType::Pranswer
        } else if same_text(name, "answer") {
            RTCSdpType::Answer
        } else if same_text(name, "rollback") {
            RTCSdpType::Rollback
        } else {
            RTCSdpType::Unspecified
        }
    }
}

/// Writing a type's wire name and reading it back gives the same type.
pub proof fn lemma_sdp_type_name_round_trip(t: RTCSdpType)
    ensures
        RTCSdpType::spec_from_name(t.spec_name()) == t,
{
    reveal_strlit("unspecified");
    reveal_strlit("offer");
    reveal_strlit("pranswer");
    reveal_strlit("answer");
    reveal_strlit("rollback");
    assert("unspecified"@ != "offer"@) by {
        assert("unspecified"@.len() != "offer"@.len());
    }
    assert("unspecified"@ != "pranswer"@) by {
        assert("unspecified"@[0] != "pranswer"@[0]);
    }
    assert("unspecified"@ != "answer"@) by {
        assert("unspecified"@.len() != "answer"@.len());
    }
    assert("unspecified"@ != "rollback"@) by {
        assert("unspecified"@.len() != "rollback"@.len());
    }
    assert("pranswer"@ != "offer"@) by {
        assert("pranswer"@.len() != "offer"@.len());
    }
    assert("answer"@ != "offer"@) by {
        assert("answer"@.len() != "offer"@.len());
    }
    assert("answer"@ != "pranswer"@) by {
        assert("answer"@.len() != "pranswer"@.len());
    }
    assert("rollback"@ != "offer"@) by {
        assert("rollback"@.len() != "offer"@.len());
    }
    assert("rollback"@ != "pranswer"@) by {
        assert("rollback"@[0] != "pranswer"@[0]);
    }
    assert("rollback"@ != "answer"@) by {
        assert("rollback"@.len() != "answer"@.len());
    }
}

/// A session description: its role and its SDP text.
#[derive(Debug, PartialEq, Eq)]
pub struct RTCSessionDescription {
    pub sdp_type: RTCSdpType,
    pub sdp: String,
}

impl RTCSessionDescription {
    /// A description of the given role and text.
    pub fn new(sdp_type: RTCSdpType, sdp: String) -> (r: Self)
        ensures
            r.sdp_type == sdp_type,
            r.sdp == sdp,
    {
        RTCSessionDescription { sdp_type, sdp }
    }

    /// A copy of this description.
    pub fn duplicate(&self) -> (r: Self)
        ensures
            r == *self,
    {
        RTCSessionDescription { sdp_type: self.sdp_type, sdp: self.sdp.clone() }
    }

    /// Whether this description is an offer.
    pub fn is_offer(&self) -> (r: bool)
        ensures
            r == (self.sdp_type == RTCSdpType::Offer),
    {
        self.sdp_type == RTCSdpType::Offer
    }
}

/// A remote network-path candidate as it arrives over signaling.
#[derive(Debug, PartialEq, Eq, Default)]
pub struct RTCIceCandidateInit {
    pub candidate: String,
    pub sdp_mid: Option<String>,
    pub sdp_mline_index: Option<u16>,
    pub username_fragment: Option<String>,
}

} // verus!
