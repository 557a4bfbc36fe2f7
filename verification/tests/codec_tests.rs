use bytes::BytesMut;
use nsq_client::codec::{decode_msg, write_cmd, write_magic, write_mmsg, write_msg};

fn cmd_bytes(cmd: &str) -> Vec<u8> {
    let mut buf = BytesMut::new();
    write_cmd(&mut buf, cmd);
    buf.to_vec()
}

#[test]
fn write_cmd_sub() {
    assert_eq!(cmd_bytes("SUB topic channel"), b"SUB topic channel\n".to_vec());
}

#[test]
fn write_cmd_v2() {
    assert_eq!(cmd_bytes("  V2"), b"  V2\n".to_vec());
}

#[test]
fn write_cmd_nop_cls_req_dry() {
    assert_eq!(cmd_bytes("NOP"), b"NOP\n".to_vec());
    assert_eq!(cmd_bytes("CLS"), b"CLS\n".to_vec());
    assert_eq!(cmd_bytes("REQ 03ff"), b"REQ 03ff\n".to_vec());
    assert_eq!(cmd_bytes("DRY 0"), b"DRY 0\n".to_vec());
}

#[test]
fn write_cmd_appends() {
    let mut buf = BytesMut::from(&b"AB"[..]);
    write_cmd(&mut buf, "C");
    assert_eq!(&buf[..], b"ABC\n");
}

#[test]
fn write_magic_has_no_line_feed() {
    let mut buf = BytesMut::new();
    write_magic(&mut buf, "  V2");
    assert_eq!(&buf[..], b"  V2");
}

#[test]
fn write_msg_identify() {
    let mut buf = BytesMut::new();
    write_cmd(&mut buf, "IDENTIFY");
    write_msg(&mut buf, b"{}".to_vec());
    assert_eq!(&buf[..], &[73, 68, 69, 78, 84, 73, 70, 89, 10, 0, 0, 0, 2, 123, 125][..]);
}

#[test]
fn write_msg_pub() {
    let mut buf = BytesMut::new();
    write_cmd(&mut buf, "PUB test");
    write_msg(&mut buf, b"hello world".to_vec());
    assert_eq!(
        &buf[..],
        &[80, 85, 66, 32, 116, 101, 115, 116, 10, 0, 0, 0, 11, 104, 101, 108, 108, 111, 32, 119,
            111, 114, 108, 100][..]
    );
}

#[test]
fn write_msg_pub_utf8() {
    let mut buf = BytesMut::new();
    write_cmd(&mut buf, "PUB test");
    write_msg(&mut buf, "©¥£".as_bytes().to_vec());
    assert_eq!(
        &buf[..],
        &[80, 85, 66, 32, 116, 101, 115, 116, 10, 0, 0, 0, 6, 194, 169, 194, 165, 194, 163][..]
    );
}

#[test]
fn write_msg_long_length() {
    let mut buf = BytesMut::new();
    write_msg(&mut buf, vec![7u8; 0x0102]);
    assert_eq!(&buf[..4], &[0, 0, 1, 2]);
    assert_eq!(buf.len(), 4 + 0x0102);
}

#[test]
fn write_mmsg_mpub() {
    let mut buf = BytesMut::new();
    write_cmd(&mut buf, "MPUB test");
    write_mmsg(&mut buf, vec![b"hello".to_vec(), b"world".to_vec()]);
    assert_eq!(
        &buf[..],
        &[77, 80, 85, 66, 32, 116, 101, 115, 116, 10, 0, 0, 0, 2, 0, 0, 0, 5, 104, 101, 108,
            108, 111, 0, 0, 0, 5, 119, 111, 114, 108, 100][..]
    );
}

#[test]
fn write_mmsg_empty() {
    let mut buf = BytesMut::new();
    write_mmsg(&mut buf, vec![]);
    assert_eq!(&buf[..], &[0, 0, 0, 0]);
}

fn payload(ts: i64, attempts: u16, id: &[u8], body: &[u8]) -> Vec<u8> {
    let mut p = ts.to_be_bytes().to_vec();
    p.extend_from_slice(&attempts.to_be_bytes());
    p.extend_from_slice(id);
    p.extend_from_slice(body);
    p
}

#[test]
fn decode_msg_splits_fields() {
    let mut buf = BytesMut::from(&payload(1_600_000_000, 3, b"00000000000000ff", b"Hello World")[..]);
    let (ts, attempts, id, body) = decode_msg(&mut buf);
    assert_eq!(ts, 1_600_000_000);
    assert_eq!(attempts, 3);
    assert_eq!(id, "00000000000000ff");
    assert_eq!(body, b"Hello World".to_vec());
    assert_eq!(&buf[..], b"Hello World");
}

#[test]
fn decode_msg_negative_timestamp_and_big_attempts() {
    let mut buf = BytesMut::from(&payload(-2, 0xfffe, b"0123456789abcdef", b"")[..]);
    let (ts, attempts, id, body) = decode_msg(&mut buf);
    assert_eq!(ts, -2);
    assert_eq!(attempts, 0xfffe);
    assert_eq!(id, "0123456789abcdef");
    assert!(body.is_empty());
}

#[test]
fn decode_msg_bad_id_is_empty() {
    let mut id = [b'a'; 16];
    id[3] = 0xff;
    let mut buf = BytesMut::from(&payload(5, 1, &id, "®µ¶".as_bytes())[..]);
    let (ts, attempts, id, body) = decode_msg(&mut buf);
    assert_eq!(ts, 5);
    assert_eq!(attempts, 1);
    assert_eq!(id, "");
    assert_eq!(body, "®µ¶".as_bytes().to_vec());
}
