use asr_client::wav::pcm_to_wav;

fn le32(b: &[u8], at: usize) -> u32 {
    u32::from_le_bytes([b[at], b[at + 1], b[at + 2], b[at + 3]])
}

fn le16(b: &[u8], at: usize) -> u16 {
    u16::from_le_bytes([b[at], b[at + 1]])
}

#[test]
fn wav_of_four_bytes_is_exact() {
    let w = pcm_to_wav(&[1, 2, 3, 4], 16000);
    let expected: Vec<u8> = vec![
        b'R', b'I', b'F', b'F', 40, 0, 0, 0, b'W', b'A', b'V', b'E', b'f', b'm', b't', b' ', 16, 0,
        0, 0, 1, 0, 1, 0, 0x80, 0x3e, 0, 0, 0x00, 0x7d, 0, 0, 2, 0, 16, 0, b'd', b'a', b't', b'a',
        4, 0, 0, 0, 1, 2, 3, 4,
    ];
    assert_eq!(w, expected);
}

#[test]
fn wav_of_empty_pcm_is_a_bare_header() {
    let w = pcm_to_wav(&[], 8000);
    assert_eq!(w.len(), 44);
    assert_eq!(le32(&w, 4), 36);
    assert_eq!(le32(&w, 40), 0);
    assert_eq!(le32(&w, 24), 8000);
}

#[test]
fn wav_header_reads_back() {
    let pcm: Vec<u8> = (0..1000u32).map(|i| (i * 7 % 251) as u8).collect();
    let w = pcm_to_wav(&pcm, 44100);
    assert_eq!(w.len(), pcm.len() + 44);
    assert_eq!(le32(&w, 4) as usize, w.len() - 8);
    assert_eq!(le32(&w, 16), 16);
    assert_eq!(le16(&w, 20), 1);
    assert_eq!(le16(&w, 22), 1);
    assert_eq!(le32(&w, 24), 44100);
    assert_eq!(le32(&w, 28), 88200);
    assert_eq!(le16(&w, 32), 2);
    assert_eq!(le16(&w, 34), 16);
    assert_eq!(le32(&w, 40) as usize, pcm.len());
    assert_eq!(&w[44..], &pcm[..]);
}

#[test]
fn wav_at_large_sample_rate() {
    let w = pcm_to_wav(&[9], 0x7fff_ffff);
    assert_eq!(le32(&w, 24), 0x7fff_ffff);
    assert_eq!(le32(&w, 28), 0xffff_fffe);
}
