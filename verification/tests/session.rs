use wtp_downloader::engine::Action;
use wtp_downloader::engine::Engine;
use wtp_downloader::engine::Event;
use wtp_downloader::engine::SessionError;

/// Drives an engine against a scripted device.  `replies` holds, in order,
/// the device's answer to every reply-consuming action (an exchange, an
/// expectation, or a read); `images` holds each image's content.  Returns
/// the full transcript of bytes the engine sent and how many replies were
/// consumed.
fn drive(engine: &mut Engine, replies: &[Vec<u8>], images: &[Vec<u8>]) -> (Vec<u8>, usize) {
    let mut sent: Vec<u8> = Vec::new();
    let mut next_reply: usize = 0;
    let mut pos: Vec<usize> = Vec::new();
    for _ in images {
        pos.push(0);
    }
    loop {
        match engine.action() {
            Action::Exchange(tx, rx) => {
                sent.extend_from_slice(&tx);
                let reply = &replies[next_reply];
                next_reply += 1;
                if *reply == rx {
                    engine.advance(Event::Completed);
                } else {
                    engine.advance(Event::Mismatched);
                }
            }
            Action::Expect(rx) => {
                let reply = &replies[next_reply];
                next_reply += 1;
                if *reply == rx {
                    engine.advance(Event::Completed);
                } else {
                    engine.advance(Event::Mismatched);
                }
            }
            Action::Send(tx) => {
                sent.extend_from_slice(&tx);
                engine.advance(Event::Completed);
            }
            Action::Read(_) => {
                let reply = replies[next_reply].clone();
                next_reply += 1;
                engine.advance(Event::Received(reply));
            }
            Action::Fill(n) => {
                let idx = engine.image_index();
                let start = pos[idx];
                let end = start + n as usize;
                let chunk = images[idx][start..end].to_vec();
                pos[idx] = end;
                engine.advance(Event::Received(chunk));
            }
            Action::Done => return (sent, next_reply),
            Action::Abort(_) => return (sent, next_reply),
        }
    }
}

/// The device's replies for the session start, through the version
/// exchange, up to and including the first image's type selection.
fn start_replies() -> Vec<Vec<u8>> {
    vec![
        b"wtp\r\n".to_vec(),                    // greeting reply
        vec![0x00, 0xd3, 0x02, 0x2b],           // preamble echoed
        vec![0x2b, 0, 0, 1, 0, 0],              // session acknowledged
        vec![0x20, 0, 0, 0, 0x08, 0x14],        // version reply header
        vec![1, 2, 3, 4],                       // version, high byte first
        vec![0x78, 0x56, 0x34, 0x12],           // build date, little-endian
        vec![b'L', b'V', b'R', b'M'],           // processor id, high byte first
        vec![0, 0, 0, 0, 0, 0, 0, 0],           // version trailer
        vec![0x26, 0, 0, 0, 0x08, 0x04],        // image-type reply header
        vec![0xaa, 0xbb, 0xcc, 0xdd],           // image-type code
        vec![0x27, 0, 0, 0, 0x08, 0],           // type selection acknowledged
    ]
}

/// The device's replies for one block round: the request acknowledgment,
/// the grant, and the data acknowledgment.
fn round_replies(ctr: u8, grant: u32) -> Vec<Vec<u8>> {
    vec![
        vec![0x2a, ctr, 0, 0, 0x08, 0x04],
        grant.to_le_bytes().to_vec(),
        vec![0x22, ctr.wrapping_add(1), 0, 0, 0x08, 0],
    ]
}

/// The device's replies that close an image: the end-of-image
/// acknowledgment and the echoed resync preamble.
fn close_replies() -> Vec<Vec<u8>> {
    vec![vec![0, 0, 0, 0, 0x08, 0], vec![0x00, 0xd3, 0x02, 0x2b]]
}

/// The device's replies between two images: the session acknowledgment and
/// the next image's type negotiation; the version exchange is skipped.
fn between_replies() -> Vec<Vec<u8>> {
    vec![
        vec![0x2b, 0, 0, 1, 0, 0],
        vec![0x26, 0, 0, 0, 0x08, 0x04],
        vec![0xaa, 0xbb, 0xcc, 0xdd],
        vec![0x27, 0, 0, 0, 0x08, 0],
    ]
}

/// The bytes the host sends during the session start, up to and including
/// the first image's type selection.
fn start_transcript() -> Vec<u8> {
    let mut t: Vec<u8> = Vec::new();
    t.extend_from_slice(b"wtp\r");
    t.extend_from_slice(&[0x00, 0xd3, 0x02, 0x2b]);
    t.extend_from_slice(&[0x2b, 0, 0, 0, 0, 0, 0, 0]);
    t.extend_from_slice(&[0x20, 0, 0, 0x08, 0, 0, 0, 0]);
    t.extend_from_slice(&[0x26, 0, 0, 0, 0, 0, 0, 0]);
    t.extend_from_slice(&[0x27, 0, 0, 0, 1, 0, 0, 0, 0]);
    t
}

/// The bytes the host sends for one block round.
fn round_transcript(ctr: u8, remaining: u32, payload: &[u8]) -> Vec<u8> {
    let mut t: Vec<u8> = Vec::new();
    t.push(0x2a);
    t.push(ctr);
    t.extend_from_slice(&[0, 0, 4, 0, 0, 0]);
    t.extend_from_slice(&remaining.to_le_bytes());
    t.push(0x22);
    t.push(ctr.wrapping_add(1));
    t.extend_from_slice(&[0, 0]);
    t.extend_from_slice(&(payload.len() as u32).to_le_bytes());
    t.extend_from_slice(payload);
    t
}

/// The bytes the host sends to close an image.
fn close_transcript() -> Vec<u8> {
    let mut t: Vec<u8> = Vec::new();
    t.extend_from_slice(&[0, 0, 0, 0, 0, 0, 0, 0]);
    t.extend_from_slice(&[0x00, 0xd3, 0x02, 0x2b]);
    t
}

/// The bytes the host sends between two images.
fn between_transcript() -> Vec<u8> {
    let mut t: Vec<u8> = Vec::new();
    t.extend_from_slice(&[0x2b, 0, 0, 0, 0, 0, 0, 0]);
    t.extend_from_slice(&[0x26, 0, 0, 0, 0, 0, 0, 0]);
    t.extend_from_slice(&[0x27, 0, 0, 0, 1, 0, 0, 0, 0]);
    t
}

#[test]
fn boot_image_single_round() {
    // A ten-byte boot image granted in one round: one request/data
    // round-trip, and the counter ends at 3.
    let image: Vec<u8> = vec![10, 20, 30, 40, 50, 60, 70, 80, 90, 100];
    let mut replies = start_replies();
    replies.extend(round_replies(1, 10));
    replies.extend(close_replies());
    let mut engine = Engine::new(vec![10]).unwrap();
    let (sent, used) = drive(&mut engine, &replies, &[image.clone()]);
    assert!(engine.is_complete());
    assert_eq!(engine.error(), None);
    assert_eq!(engine.counter(), 3);
    assert_eq!(engine.cursor(), 10);
    assert_eq!(used, replies.len());
    let mut expected = start_transcript();
    expected.extend(round_transcript(1, 10, &image));
    expected.extend(close_transcript());
    assert_eq!(sent, expected);
}

#[test]
fn zero_length_boot_image_skips_loop() {
    // A zero-length boot image: no block frames at all, only the
    // handshake, negotiation and end-of-image frames.
    let mut replies = start_replies();
    replies.extend(close_replies());
    let mut engine = Engine::new(vec![0]).unwrap();
    let (sent, used) = drive(&mut engine, &replies, &[Vec::new()]);
    assert!(engine.is_complete());
    assert_eq!(engine.counter(), 1);
    assert_eq!(engine.cursor(), 0);
    assert_eq!(used, replies.len());
    let mut expected = start_transcript();
    expected.extend(close_transcript());
    assert_eq!(sent, expected);
}

#[test]
fn partial_grants_take_more_rounds() {
    // A hundred-byte application image granted as 40, 40, 20: three
    // rounds whose grants sum to the full length.
    let boot: Vec<u8> = vec![1, 2, 3, 4];
    let mut app: Vec<u8> = Vec::new();
    for i in 0..100u32 {
        app.push((i % 251) as u8);
    }
    let mut replies = start_replies();
    replies.extend(round_replies(1, 4));
    replies.extend(close_replies());
    replies.extend(between_replies());
    replies.extend(round_replies(3, 40));
    replies.extend(round_replies(5, 40));
    replies.extend(round_replies(7, 20));
    replies.extend(close_replies());
    let mut engine = Engine::new(vec![4, 100]).unwrap();
    let (sent, used) = drive(&mut engine, &replies, &[boot.clone(), app.clone()]);
    assert!(engine.is_complete());
    assert_eq!(engine.cursor(), 100);
    assert_eq!(engine.image_index(), 1);
    // counter: one boot round and three application rounds, never reset
    assert_eq!(engine.counter(), 9);
    assert_eq!(used, replies.len());
    let mut expected = start_transcript();
    expected.extend(round_transcript(1, 4, &boot));
    expected.extend(close_transcript());
    expected.extend(between_transcript());
    expected.extend(round_transcript(3, 100, &app[0..40]));
    expected.extend(round_transcript(5, 60, &app[40..80]));
    expected.extend(round_transcript(7, 20, &app[80..100]));
    expected.extend(close_transcript());
    assert_eq!(sent, expected);
}

#[test]
fn bad_greeting_aborts_before_preamble() {
    // The device answers the greeting with unrelated bytes: the session
    // fails with a mismatch before any preamble byte is sent.
    let replies = vec![b"nope\r".to_vec()];
    let mut engine = Engine::new(vec![10]).unwrap();
    let (sent, used) = drive(&mut engine, &replies, &[vec![0; 10]]);
    assert_eq!(engine.error(), Some(SessionError::Mismatch));
    assert!(!engine.is_complete());
    assert_eq!(used, 1);
    assert_eq!(sent, b"wtp\r".to_vec());
}

#[test]
fn mismatch_mid_session_stops_all_sending() {
    // A wrong block-request acknowledgment: nothing is sent after the
    // failing expectation.
    let mut replies = start_replies();
    replies.push(vec![0x2a, 99, 0, 0, 0x08, 0x04]); // wrong counter echoed
    let mut engine = Engine::new(vec![10]).unwrap();
    let (sent, _) = drive(&mut engine, &replies, &[vec![7; 10]]);
    assert_eq!(engine.error(), Some(SessionError::Mismatch));
    let mut expected = start_transcript();
    expected.extend_from_slice(&[0x2a, 1, 0, 0, 4, 0, 0, 0, 10, 0, 0, 0]);
    assert_eq!(sent, expected);
}

#[test]
fn zero_grant_is_a_protocol_error() {
    let mut replies = start_replies();
    replies.push(vec![0x2a, 1, 0, 0, 0x08, 0x04]);
    replies.push(0u32.to_le_bytes().to_vec());
    let mut engine = Engine::new(vec![10]).unwrap();
    let (_, _) = drive(&mut engine, &replies, &[vec![7; 10]]);
    assert_eq!(engine.error(), Some(SessionError::Grant));
}

#[test]
fn oversized_grant_is_a_protocol_error() {
    let mut replies = start_replies();
    replies.push(vec![0x2a, 1, 0, 0, 0x08, 0x04]);
    replies.push(11u32.to_le_bytes().to_vec());
    let mut engine = Engine::new(vec![10]).unwrap();
    let (_, _) = drive(&mut engine, &replies, &[vec![7; 10]]);
    assert_eq!(engine.error(), Some(SessionError::Grant));
}

#[test]
fn device_fields_are_reversed_and_decoded() {
    let image: Vec<u8> = vec![5, 6];
    let mut replies = start_replies();
    replies.extend(round_replies(1, 2));
    replies.extend(close_replies());
    let mut engine = Engine::new(vec![2]).unwrap();
    let (_, _) = drive(&mut engine, &replies, &[image]);
    assert!(engine.is_complete());
    assert_eq!(engine.version(), vec![4, 3, 2, 1]);
    assert_eq!(engine.build_date(), 0x12345678);
    assert_eq!(engine.processor_id(), b"MRVL".to_vec());
    assert_eq!(engine.image_type(), vec![0xdd, 0xcc, 0xbb, 0xaa]);
}

#[test]
fn transfers_every_application_image() {
    // The protocol sequence repeats for each supplied application image,
    // however many there are; the counter carries across all of them.
    let images: Vec<Vec<u8>> = vec![vec![1; 3], vec![2; 5], vec![3; 4], vec![4; 6]];
    let mut replies = start_replies();
    replies.extend(round_replies(1, 3));
    replies.extend(close_replies());
    let mut ctr: u8 = 3;
    for img in &images[1..] {
        replies.extend(between_replies());
        replies.extend(round_replies(ctr, img.len() as u32));
        replies.extend(close_replies());
        ctr = ctr.wrapping_add(2);
    }
    let mut engine = Engine::new(vec![3, 5, 4, 6]).unwrap();
    let (_, used) = drive(&mut engine, &replies, &images);
    assert!(engine.is_complete());
    assert_eq!(engine.image_index(), 3);
    assert_eq!(engine.cursor(), 6);
    assert_eq!(engine.counter(), 9);
    assert_eq!(used, replies.len());
}

#[test]
fn counter_wraps_at_256() {
    // 130 single-byte grants: the counter ends at (1 + 2 * 130) % 256.
    let image: Vec<u8> = vec![9; 130];
    let mut replies = start_replies();
    let mut ctr: u8 = 1;
    for _ in 0..130 {
        replies.extend(round_replies(ctr, 1));
        ctr = ctr.wrapping_add(2);
    }
    replies.extend(close_replies());
    let mut engine = Engine::new(vec![130]).unwrap();
    let (_, used) = drive(&mut engine, &replies, &[image]);
    assert!(engine.is_complete());
    assert_eq!(engine.counter(), 5);
    assert_eq!(engine.cursor(), 130);
    assert_eq!(used, replies.len());
}

#[test]
fn transport_failure_aborts() {
    let mut engine = Engine::new(vec![10]).unwrap();
    engine.advance(Event::TransportFailed);
    assert_eq!(engine.error(), Some(SessionError::Transport));
}

#[test]
fn timeout_aborts() {
    let mut engine = Engine::new(vec![10]).unwrap();
    engine.advance(Event::Completed);
    engine.advance(Event::TimedOut);
    assert_eq!(engine.error(), Some(SessionError::Timeout));
}

#[test]
fn file_failure_aborts() {
    let mut engine = Engine::new(vec![10]).unwrap();
    engine.advance(Event::FileFailed);
    assert_eq!(engine.error(), Some(SessionError::File));
}

#[test]
fn failure_is_final() {
    let mut engine = Engine::new(vec![10]).unwrap();
    engine.advance(Event::Mismatched);
    assert_eq!(engine.error(), Some(SessionError::Mismatch));
    engine.advance(Event::Completed);
    engine.advance(Event::Received(vec![1, 2, 3, 4]));
    assert_eq!(engine.error(), Some(SessionError::Mismatch));
    assert!(matches!(engine.action(), Action::Abort(SessionError::Mismatch)));
}

#[test]
fn empty_image_list_is_rejected() {
    assert_eq!(Engine::new(Vec::new()).err(), Some(SessionError::Config));
}

#[test]
fn oversized_image_is_rejected() {
    assert_eq!(Engine::new(vec![0x1_0000_0000]).err(), Some(SessionError::Config));
    assert!(Engine::new(vec![0xffff_ffff]).is_ok());
}

#[test]
fn zero_length_application_image() {
    // A zero-length application image after a non-empty boot image is
    // closed without any block frames.
    let boot: Vec<u8> = vec![8, 9];
    let mut replies = start_replies();
    replies.extend(round_replies(1, 2));
    replies.extend(close_replies());
    replies.extend(between_replies());
    replies.extend(close_replies());
    let mut engine = Engine::new(vec![2, 0]).unwrap();
    let (sent, used) = drive(&mut engine, &replies, &[boot.clone(), Vec::new()]);
    assert!(engine.is_complete());
    assert_eq!(engine.counter(), 3);
    assert_eq!(engine.cursor(), 0);
    assert_eq!(used, replies.len());
    let mut expected = start_transcript();
    expected.extend(round_transcript(1, 2, &boot));
    expected.extend(close_transcript());
    expected.extend(between_transcript());
    expected.extend(close_transcript());
    assert_eq!(sent, expected);
}
