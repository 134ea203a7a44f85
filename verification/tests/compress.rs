use std::io::Read;

use artie::compress::compress;

#[test]
fn compressed_text_decompresses_to_itself() {
    let text = "STDOUT\tTCOUNT:42\nSTDOUT\tTCOUNT:42\nSTDOUT\tTCOUNT:42\n";
    let bytes = compress(text).unwrap();
    assert_ne!(bytes, text.as_bytes());
    let mut decoder = flate2::read::ZlibDecoder::new(&bytes[..]);
    let mut out = String::new();
    decoder.read_to_string(&mut out).unwrap();
    assert_eq!(out, text);
}
