use webrtc_session::mux::{dispatch_outcome, BufferWrite, DispatchOutcome, EndpointTable, MAX_BUFFER_SIZE};
use webrtc_session::srtp_stream::{Stream, StreamError, SRTCP_BUFFER_SIZE, SRTP_BUFFER_SIZE};

#[test]
fn rtp_stream_reads_rtp_only() {
    let s = Stream::new(0x1234, true);
    assert_eq!(s.get_ssrc(), 0x1234);
    assert!(s.is_rtp_stream());
    assert_eq!(s.buffer_limit(), 1000000);
    assert_eq!(s.buffer_limit(), SRTP_BUFFER_SIZE);
    assert_eq!(s.check_read_rtp(), Ok(()));
    assert_eq!(s.check_read_rtcp(), Err(StreamError::InvalidRtcpStream));
}

#[test]
fn rtcp_stream_reads_rtcp_only() {
    let s = Stream::new(7, false);
    assert_eq!(s.get_ssrc(), 7);
    assert!(!s.is_rtp_stream());
    assert_eq!(s.buffer_limit(), 100000);
    assert_eq!(s.buffer_limit(), SRTCP_BUFFER_SIZE);
    assert_eq!(s.check_read_rtp(), Err(StreamError::InvalidRtpStream));
    assert_eq!(s.check_read_rtcp(), Ok(()));
}

#[test]
fn endpoints_get_increasing_ids() {
    let mut t: EndpointTable<&str> = EndpointTable::new();
    assert_eq!(t.new_endpoint("dtls"), Some(0));
    assert_eq!(t.new_endpoint("srtp"), Some(1));
    assert_eq!(t.new_endpoint("srtcp"), Some(2));
    assert_eq!(t.len(), 3);
    assert_eq!(t.remove_endpoint(1), Some("srtp"));
    assert_eq!(t.remove_endpoint(1), None);
    assert_eq!(t.len(), 2);
    assert_eq!(t.new_endpoint("stun"), Some(3));
    assert_eq!(MAX_BUFFER_SIZE, 1000000);
}

#[test]
fn first_matching_endpoint_wins() {
    let mut t: EndpointTable<u8> = EndpointTable::new();
    t.new_endpoint(10);
    t.new_endpoint(11);
    t.new_endpoint(12);
    t.remove_endpoint(0);
    assert_eq!(t.first_match(&vec![false, true]), Some(2));
    assert_eq!(t.first_match(&vec![true, true]), Some(1));
    assert_eq!(t.first_match(&vec![false, false]), None);
}

#[test]
fn close_empties_the_table() {
    let mut t: EndpointTable<u8> = EndpointTable::new();
    t.new_endpoint(1);
    t.new_endpoint(2);
    t.close();
    assert_eq!(t.len(), 0);
    assert_eq!(t.first_match(&vec![]), None);
    assert_eq!(t.new_endpoint(3), Some(2));
}

#[test]
fn only_a_failed_buffer_stops_the_loop() {
    assert_eq!(dispatch_outcome(None), DispatchOutcome::Continue);
    assert_eq!(dispatch_outcome(Some(BufferWrite::Written(40))), DispatchOutcome::Continue);
    assert_eq!(dispatch_outcome(Some(BufferWrite::Full)), DispatchOutcome::Continue);
    assert_eq!(dispatch_outcome(Some(BufferWrite::Failed)), DispatchOutcome::Stop);
}
