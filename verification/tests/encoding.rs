use base64::Engine;
use signatures_bench::codec::decode_url_safe_no_pad;
use signatures_bench::compact::{compact_presentation, CompactError};
use signatures_bench::frame::frame_presentation;
use signatures_bench::model::DeviceBinding;

fn url(data: &[u8]) -> String {
    base64::engine::general_purpose::URL_SAFE_NO_PAD.encode(data)
}

fn presentation_of(json: &str) -> String {
    url(json.as_bytes())
}

#[test]
fn coordinates_are_standard_base64_with_padding() {
    let db = DeviceBinding::from_coordinates(&[1, 2, 3], &[0xff]);
    assert_eq!(db.x_value, "AQID");
    assert_eq!(db.y_value, "/w==");
    let db = DeviceBinding::from_coordinates(&[0xfb, 0xff], &[]);
    assert_eq!(db.x_value, "+/8=");
    assert_eq!(db.y_value, "");
}

#[test]
fn coordinates_of_a_32_byte_key() {
    let x: Vec<u8> = (0u8..32).collect();
    let db = DeviceBinding::from_coordinates(&x, &x);
    assert_eq!(db.x_value, "AAECAwQFBgcICQoLDA0ODxAREhMUFRYXGBkaGxwdHh8=");
    assert_eq!(db.x_value.len(), 44);
}

#[test]
fn url_safe_decoding_accepts_canonical_text() {
    assert_eq!(decode_url_safe_no_pad(b"AQID"), Some(vec![1, 2, 3]));
    assert_eq!(decode_url_safe_no_pad(b"AQI"), Some(vec![1, 2]));
    assert_eq!(decode_url_safe_no_pad(b"_w"), Some(vec![0xff]));
    assert_eq!(decode_url_safe_no_pad(b"-_8"), Some(vec![0xfb, 0xff]));
    assert_eq!(decode_url_safe_no_pad(b""), Some(vec![]));
}

#[test]
fn url_safe_decoding_refuses_other_text() {
    // padding
    assert_eq!(decode_url_safe_no_pad(b"_w=="), None);
    // standard alphabet
    assert_eq!(decode_url_safe_no_pad(b"/w"), None);
    // set bits past the last byte
    assert_eq!(decode_url_safe_no_pad(b"AQJ"), None);
    // a length of the form 4k + 1
    assert_eq!(decode_url_safe_no_pad(b"AQIDB"), None);
    // a byte outside the alphabet
    assert_eq!(decode_url_safe_no_pad(b"AQ D"), None);
}

#[test]
fn decoding_gives_back_what_was_encoded() {
    for n in 0..40u8 {
        let data: Vec<u8> = (0..n).map(|i| i.wrapping_mul(37).wrapping_add(n)).collect();
        assert_eq!(decode_url_safe_no_pad(url(&data).as_bytes()), Some(data));
    }
}

#[test]
fn frame_prefixes_big_endian_lengths() {
    let f = frame_presentation(&[1, 2, 3], &[4]);
    assert_eq!(f, vec![0, 0, 0, 0, 0, 0, 0, 3, 1, 2, 3, 0, 0, 0, 0, 0, 0, 0, 1, 4]);
    let f = frame_presentation(&[], &[]);
    assert_eq!(f, vec![0u8; 16]);
}

#[test]
fn frame_of_long_proof() {
    let proof = vec![7u8; 300];
    let f = frame_presentation(&proof, &[9, 9]);
    assert_eq!(f.len(), 16 + 300 + 2);
    assert_eq!(&f[0..8], &[0, 0, 0, 0, 0, 0, 1, 44]);
    assert_eq!(&f[8..308], &proof[..]);
    assert_eq!(&f[308..316], &[0, 0, 0, 0, 0, 0, 0, 2]);
    assert_eq!(&f[316..], &[9, 9]);
}

#[test]
fn frame_can_be_read_back() {
    let proof: Vec<u8> = (0..70).collect();
    let binding: Vec<u8> = (0..5).map(|i| 200 + i).collect();
    let f = frame_presentation(&proof, &binding);
    let p = u64::from_be_bytes(f[0..8].try_into().unwrap()) as usize;
    assert_eq!(&f[8..8 + p], &proof[..]);
    let b = u64::from_be_bytes(f[8 + p..16 + p].try_into().unwrap()) as usize;
    assert_eq!(b, binding.len());
    assert_eq!(&f[16 + p..], &binding[..]);
}

#[test]
fn compact_presentation_frames_both_proofs() {
    let json = format!(
        "{{\"proof\":\"{}\",\"device_binding\":\"{}\",\"other\":1}}",
        url(&[1, 2, 3]),
        url(&[4, 5])
    );
    let compact = compact_presentation(&presentation_of(&json));
    assert_eq!(
        compact,
        Ok(vec![0, 0, 0, 0, 0, 0, 0, 3, 1, 2, 3, 0, 0, 0, 0, 0, 0, 0, 2, 4, 5])
    );
}

#[test]
fn compact_presentation_errors() {
    assert_eq!(
        compact_presentation("not base64!"),
        Err(CompactError::PresentationNotBase64)
    );
    assert_eq!(
        compact_presentation(&presentation_of("[1, 2]")),
        Err(CompactError::MissingProof)
    );
    assert_eq!(
        compact_presentation(&presentation_of("{\"proof\": 3, \"device_binding\": \"AQ\"}")),
        Err(CompactError::MissingProof)
    );
    assert_eq!(
        compact_presentation(&presentation_of("{\"proof\": \"AQ==\", \"device_binding\": \"AQ\"}")),
        Err(CompactError::ProofNotBase64)
    );
    assert_eq!(
        compact_presentation(&presentation_of("{\"proof\": \"AQ\"}")),
        Err(CompactError::MissingDeviceBinding)
    );
    assert_eq!(
        compact_presentation(&presentation_of("{\"proof\": \"AQ\", \"device_binding\": \"A\"}")),
        Err(CompactError::DeviceBindingNotBase64)
    );
}
