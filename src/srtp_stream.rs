//! A decrypting stream's identity and kind: which SSRC it demultiplexes,
//! whether it carries RTP or RTCP, and how much it may buffer.
use vstd::prelude::*;

verus! {

/// Buffer limit of an RTP stream, in bytes.
pub const SRTP_BUFFER_SIZE: usize = 1000 * 1000;

/// Buffer limit of an RTCP stream, in bytes.
pub const SRTCP_BUFFER_SIZE: usize = 100 * 1000;

/// A read asked of a stream of the other kind.
#[derive(Clone, Copy, Debug, PartialEq, Eq, Structural)]
pub enum StreamError {
    /// An RTP read on an RTCP stream.
    InvalidRtpStream,
    /// An RTCP read on an RTP stream.
    InvalidRtcpStream,
}

/// The stream for one SSRC, of one kind.
#[derive(Clone, Copy, Debug, PartialEq, Eq, Structural)]
pub struct Stream {
    ssrc: u32,
    is_rtp: bool,
}

impl Stream {
    pub closed spec fn spec_ssrc(&self) -> u32 {
        self.ssrc
    }

    pub closed spec fn spec_is_rtp(&self) -> bool {
        self.is_rtp
    }

    /// A stream for `ssrc`, carrying RTP when `is_rtp` and RTCP otherwise.
    pub fn new(ssrc: u32, is_rtp: bool) -> (r: Self)
        ensures
            r.spec_ssrc() == ssrc,
            r.spec_is_rtp() == is_rtp,
    {
        Stream { ssrc, is_rtp }
    }

    /// The SSRC this stream demultiplexes.
    pub fn get_ssrc(&self) -> (r: u32)
        ensures
            r == self.spec_ssrc(),
    {
        self.ssrc
    }

    /// Whether this stream carries RTP.
    pub fn is_rtp_stream(&self) -> (r: bool)
        ensures
            r == self.spec_is_rtp(),
    {
        self.is_rtp
    }

    /// How many bytes the stream may hold before further writes fail.
    pub fn buffer_limit(&self) -> (r: usize)
        ensures
            r == if self.spec_is_rtp() {
                SRTP_BUFFER_SIZE
            } else {
                SRTCP_BUFFER_SIZE
            },
    {
        if self.is_rtp {
            SRTP_BUFFER_SIZE
        } else {
            SRTCP_BUFFER_SIZE
        }
    }

    /// Whether an RTP packet may be read from this stream.
    pub fn check_read_rtp(&self) -> (r: Result<(), StreamError>)
        ensures
            r is Ok <==> self.spec_is_rtp(),
            r is Err ==> r == Err::<(), StreamError>(StreamError::InvalidRtpStream),
    {
        if self.is_rtp {
            Ok(())
        } else {
            Err(StreamError::InvalidRtpStream)
        }
    }

    /// Whether RTCP packets may be read from this stream.
    pub fn check_read_rtcp(&self) -> (r: Result<(), StreamError>)
        ensures
            r is Ok <==> !self.spec_is_rtp(),
            r is Err ==> r == Err::<(), StreamError>(StreamError::InvalidRtcpStream),
    {
        if self.is_rtp {
            Err(StreamError::InvalidRtcpStream)
        } else {
            Ok(())
        }
    }
}

} // verus!
