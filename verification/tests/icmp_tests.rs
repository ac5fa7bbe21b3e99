use blanknet::icmp::{echo_request_packet, ping_progress, PingProgress, PingReply};

#[test]
fn echo_request_has_its_checksum() {
    let p = echo_request_packet();
    assert_eq!(
        p,
        vec![8, 0, 0xF7, 0xFD, 0, 1, 0, 1, 0, 0, 0, 0, 0, 0, 0, 0]
    );
}

#[test]
fn echo_request_checksum_verifies() {
    let p = echo_request_packet();
    let mut sum: u32 = 0;
    for w in p.chunks(2) {
        sum += ((w[0] as u32) << 8) | w[1] as u32;
    }
    while sum >> 16 != 0 {
        sum = (sum >> 16) + (sum & 0xFFFF);
    }
    assert_eq!(sum, 0xFFFF);
}

#[test]
fn reply_from_target_is_reachable() {
    let t = [192, 168, 1, 201];
    assert_eq!(ping_progress(t, &PingReply::From(t), 1), PingProgress::Reachable);
    assert_eq!(ping_progress(t, &PingReply::From(t), 5), PingProgress::Reachable);
}

#[test]
fn other_replies_send_again_until_five_attempts() {
    let t = [192, 168, 1, 201];
    assert_eq!(ping_progress(t, &PingReply::Timeout, 1), PingProgress::SendAgain);
    assert_eq!(ping_progress(t, &PingReply::From([192, 168, 1, 202]), 4), PingProgress::SendAgain);
    assert_eq!(ping_progress(t, &PingReply::FromOther, 2), PingProgress::SendAgain);
    assert_eq!(ping_progress(t, &PingReply::Timeout, 5), PingProgress::Unreachable);
    assert_eq!(ping_progress(t, &PingReply::From([10, 0, 0, 1]), 5), PingProgress::Unreachable);
}
