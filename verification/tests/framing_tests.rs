use tapsrs::framer::{encode_length_prefix, frame_bytes, parse_frames_exec};
use tapsrs::message::MessageFramer;
use tapsrs::{Framer, FramerStack, LengthPrefixFramer, Message, MessageContext};

#[test]
fn length_prefix_is_big_endian() {
    assert_eq!(encode_length_prefix(0), vec![0, 0, 0, 0]);
    assert_eq!(encode_length_prefix(258), vec![0, 0, 1, 2]);
    assert_eq!(encode_length_prefix(0x0102_0304), vec![1, 2, 3, 4]);
}

#[test]
fn frame_bytes_prefixes_the_payload() {
    assert_eq!(frame_bytes(b"abc"), vec![0, 0, 0, 3, b'a', b'b', b'c']);
    assert_eq!(frame_bytes(b""), vec![0, 0, 0, 0]);
}

#[test]
fn parse_frames_round_trip() {
    let mut wire = frame_bytes(b"first");
    wire.extend(frame_bytes(b""));
    wire.extend(frame_bytes(b"third"));
    wire.extend_from_slice(&[0, 0, 0, 9, 1]);
    let (payloads, used) = parse_frames_exec(&wire);
    assert_eq!(payloads, vec![b"first".to_vec(), vec![], b"third".to_vec()]);
    assert_eq!(used, wire.len() - 5);
}

#[test]
fn parse_frames_leaves_a_short_header() {
    let (payloads, used) = parse_frames_exec(&[0, 0]);
    assert!(payloads.is_empty());
    assert_eq!(used, 0);
}

#[test]
fn framer_trait_length_prefix_round_trip() {
    let framer = LengthPrefixFramer::new();
    let bytes = framer.frame_message(&Message::from_string("ping"), &MessageContext::new()).unwrap();
    assert_eq!(bytes, vec![0, 0, 0, 4, b'p', b'i', b'n', b'g']);
    let mut receiver = LengthPrefixFramer::new();
    let first = receiver.parse_data(&bytes[..5]).unwrap();
    assert!(first.is_empty());
    let second = receiver.parse_data(&bytes[5..]).unwrap();
    assert_eq!(second.len(), 1);
    assert_eq!(second[0].0.data(), b"ping");
    assert_eq!(framer.name(), "length-prefix");
}

#[test]
fn length_prefix_parsing_ignores_chunk_boundaries() {
    let sender = LengthPrefixFramer::new();
    let mut wire = Vec::new();
    for text in ["a", "", "hello world"] {
        wire.extend(sender.frame_message(&Message::from_string(text), &MessageContext::new()).unwrap());
    }
    for size in 1..=wire.len() {
        let mut receiver = LengthPrefixFramer::new();
        let mut got: Vec<Vec<u8>> = Vec::new();
        for chunk in wire.chunks(size) {
            for (m, _) in receiver.parse_data(chunk).unwrap() {
                got.push(m.data().to_vec());
            }
        }
        assert_eq!(got, vec![b"a".to_vec(), b"".to_vec(), b"hello world".to_vec()]);
        assert!(receiver.parse_data(&[]).unwrap().is_empty());
    }
}

#[test]
fn framer_stack_frames_through_every_framer() {
    let mut stack: FramerStack<LengthPrefixFramer> = FramerStack::new();
    assert!(stack.is_empty());
    stack.add_framer(LengthPrefixFramer::new());
    stack.add_framer(LengthPrefixFramer::new());
    assert!(!stack.is_empty());
    let bytes = stack.frame_message(&Message::from_string("x"), &MessageContext::new()).unwrap();
    assert_eq!(bytes, vec![0, 0, 0, 5, 0, 0, 0, 1, b'x']);
    // A stack parses with each framer in turn and then once more with the last framer,
    // so a one-framer stack unwraps two layers of framing.
    let mut receiver: FramerStack<LengthPrefixFramer> = FramerStack::new();
    receiver.add_framer(LengthPrefixFramer::new());
    let out = receiver.parse_data(&bytes).unwrap();
    assert_eq!(out.len(), 1);
    assert_eq!(out[0].0.data(), b"x");
    let mut single: FramerStack<LengthPrefixFramer> = FramerStack::new();
    single.add_framer(LengthPrefixFramer::new());
    assert!(single.parse_data(&[0, 0, 0, 1, b'x']).unwrap().is_empty());
    assert!(stack.on_attach().is_ok());
    assert!(stack.on_detach().is_ok());
}

#[test]
fn empty_framer_stack_passes_data_through() {
    let stack: FramerStack<LengthPrefixFramer> = FramerStack::new();
    let bytes = stack.frame_message(&Message::from_string("raw"), &MessageContext::new()).unwrap();
    assert_eq!(bytes, b"raw".to_vec());
}

#[test]
fn message_framer_frames_and_deframes() {
    let mut framer = tapsrs::message::LengthPrefixFramer::new();
    let a = framer.frame(&Message::from_string("one"));
    let b = framer.frame(&Message::from_string("two"));
    let mut wire = a.clone();
    wire.extend(b);
    let got = framer.deframe(&wire[..wire.len() - 1]);
    assert_eq!(got.len(), 1);
    assert_eq!(got[0].data(), b"one");
    let rest = framer.deframe(&wire[wire.len() - 1..]);
    assert_eq!(rest.len(), 1);
    assert_eq!(rest[0].data(), b"two");
    framer.deframe(&a[..2]);
    framer.reset();
    let after_reset = framer.deframe(&a);
    assert_eq!(after_reset.len(), 1);
}
