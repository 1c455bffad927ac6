use wtp_downloader::wire::data_reply_bytes;
use wtp_downloader::wire::data_send_bytes;
use wtp_downloader::wire::end_reply_bytes;
use wtp_downloader::wire::end_send_bytes;
use wtp_downloader::wire::greet_reply_bytes;
use wtp_downloader::wire::greet_send_bytes;
use wtp_downloader::wire::le32_decode;
use wtp_downloader::wire::le32_encode;
use wtp_downloader::wire::preamble_bytes;
use wtp_downloader::wire::request_reply_bytes;
use wtp_downloader::wire::request_send_bytes;
use wtp_downloader::wire::rev4_bytes;
use wtp_downloader::wire::session_reply_bytes;
use wtp_downloader::wire::session_send_bytes;
use wtp_downloader::wire::type_query_reply_bytes;
use wtp_downloader::wire::type_query_send_bytes;
use wtp_downloader::wire::type_select_reply_bytes;
use wtp_downloader::wire::type_select_send_bytes;
use wtp_downloader::wire::version_reply_bytes;
use wtp_downloader::wire::version_send_bytes;
use wtp_downloader::wire::version_trailer_bytes;

#[test]
fn le32_exact_bytes() {
    assert_eq!(le32_encode(0), vec![0, 0, 0, 0]);
    assert_eq!(le32_encode(1), vec![1, 0, 0, 0]);
    assert_eq!(le32_encode(258), vec![2, 1, 0, 0]);
    assert_eq!(le32_encode(0x12345678), vec![0x78, 0x56, 0x34, 0x12]);
    assert_eq!(le32_encode(0xffff_ffff), vec![0xff, 0xff, 0xff, 0xff]);
}

#[test]
fn le32_round_trips() {
    for n in [0u32, 1, 255, 256, 65535, 65536, 0x12345678, 0xffff_ffff] {
        assert_eq!(le32_decode(&le32_encode(n)), n);
    }
}

#[test]
fn rev4_reverses() {
    assert_eq!(rev4_bytes(&vec![1, 2, 3, 4]), vec![4, 3, 2, 1]);
    assert_eq!(rev4_bytes(&vec![9, 9, 0, 9]), vec![9, 0, 9, 9]);
}

#[test]
fn fixed_frames_exact_bytes() {
    assert_eq!(greet_send_bytes(), b"wtp\r".to_vec());
    assert_eq!(greet_reply_bytes(), b"wtp\r\n".to_vec());
    assert_eq!(preamble_bytes(), vec![0x00, 0xd3, 0x02, 0x2b]);
    assert_eq!(session_send_bytes(), vec![0x2b, 0, 0, 0, 0, 0, 0, 0]);
    assert_eq!(session_reply_bytes(), vec![0x2b, 0, 0, 1, 0, 0]);
    assert_eq!(version_send_bytes(), vec![0x20, 0, 0, 0x08, 0, 0, 0, 0]);
    assert_eq!(version_reply_bytes(), vec![0x20, 0, 0, 0, 0x08, 0x14]);
    assert_eq!(version_trailer_bytes(), vec![0, 0, 0, 0, 0, 0, 0, 0]);
    assert_eq!(type_query_send_bytes(), vec![0x26, 0, 0, 0, 0, 0, 0, 0]);
    assert_eq!(type_query_reply_bytes(), vec![0x26, 0, 0, 0, 0x08, 0x04]);
    assert_eq!(type_select_send_bytes(), vec![0x27, 0, 0, 0, 1, 0, 0, 0, 0]);
    assert_eq!(type_select_reply_bytes(), vec![0x27, 0, 0, 0, 0x08, 0]);
    assert_eq!(end_send_bytes(), vec![0, 0, 0, 0, 0, 0, 0, 0]);
    assert_eq!(end_reply_bytes(), vec![0, 0, 0, 0, 0x08, 0]);
}

#[test]
fn counter_frames_exact_bytes() {
    assert_eq!(request_send_bytes(5, 258), vec![0x2a, 5, 0, 0, 4, 0, 0, 0, 2, 1, 0, 0]);
    assert_eq!(request_reply_bytes(5), vec![0x2a, 5, 0, 0, 0x08, 0x04]);
    assert_eq!(data_send_bytes(6, 40), vec![0x22, 6, 0, 0, 40, 0, 0, 0]);
    assert_eq!(data_reply_bytes(6), vec![0x22, 6, 0, 0, 0x08, 0]);
}
