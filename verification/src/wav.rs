//! Framing of raw 16-bit mono PCM audio in a RIFF/WAVE container.

use vstd::prelude::*;

verus! {

/// Little-endian encoding of the low 16 bits of `x`.
pub open spec fn le16(x: nat) -> Seq<u8> {
    seq![(x % 256) as u8, ((x / 256) % 256) as u8]
}

/// Little-endian encoding of the low 32 bits of `x`.
pub open spec fn le32(x: nat) -> Seq<u8> {
    seq![
        (x % 256) as u8,
        ((x / 256) % 256) as u8,
        ((x / 65536) % 256) as u8,
        ((x / 16777216) % 256) as u8,
    ]
}

/// The 44-byte header of a canonical PCM WAV file holding `data_len` bytes of
/// mono 16-bit samples at `sample_rate` Hz.
pub open spec fn wav_header(data_len: nat, sample_rate: nat) -> Seq<u8> {
    seq![0x52u8, 0x49u8, 0x46u8, 0x46u8]  // "RIFF"
    + le32(36 + data_len)
    + seq![0x57u8, 0x41u8, 0x56u8, 0x45u8, 0x66u8, 0x6du8, 0x74u8, 0x20u8]  // "WAVEfmt "
    + le32(16)  // size of the fmt chunk
    + le16(1)  // audio format: PCM
    + le16(1)  // one channel
    + le32(sample_rate)
    + le32(sample_rate * 2)  // byte rate
    + le16(2)  // block align
    + le16(16)  // bits per sample
    + seq![0x64u8, 0x61u8, 0x74u8, 0x61u8]  // "data"
    + le32(data_len)
}

/// The complete WAV file for `pcm` at `sample_rate` Hz.
pub open spec fn wav_file(pcm: Seq<u8>, sample_rate: nat) -> Seq<u8> {
    wav_header(pcm.len(), sample_rate) + pcm
}

/// Whether `pcm_to_wav` can frame `data_len` bytes at `sample_rate` Hz: every
/// size field, the byte rate and the file length fit their machine types.
pub open spec fn wav_fits(data_len: nat, sample_rate: nat) -> bool {
    &&& data_len + 36 <= u32::MAX
    &&& data_len + 44 <= usize::MAX
    &&& sample_rate * 2 <= u32::MAX
}

/// The unsigned little-endian 16-bit value stored at `at` in `b`.
pub open spec fn read_le16(b: Seq<u8>, at: int) -> nat {
    b[at] as nat + 256 * (b[at + 1] as nat)
}

/// The unsigned little-endian 32-bit value stored at `at` in `b`.
pub open spec fn read_le32(b: Seq<u8>, at: int) -> nat {
    b[at] as nat + 256 * (b[at + 1] as nat) + 65536 * (b[at + 2] as nat) + 16777216 * (
    b[at + 3] as nat)
}

proof fn lemma_le16_read(x: nat)
    requires
        x <= 0xffff,
    ensures
        read_le16(le16(x), 0) == x,
{
    let b = le16(x);
    assert(b[0] as nat == x % 256);
    assert(b[1] as nat == (x / 256) % 256);
    assert(x == 256 * (x / 256) + x % 256) by (nonlinear_arith);
    assert((x / 256) % 256 == x / 256) by (nonlinear_arith)
        requires
            x <= 0xffff,
    ;
}

proof fn lemma_le32_read(x: nat)
    requires
        x <= u32::MAX,
    ensures
        read_le32(le32(x), 0) == x,
{
    let b = le32(x);
    let q1 = x / 256;
    let q2 = q1 / 256;
    let q3 = q2 / 256;
    assert(b[0] as nat == x % 256);
    assert(x / 65536 == q2) by (nonlinear_arith)
        requires
            q1 == x / 256,
            q2 == q1 / 256,
    ;
    assert(x / 16777216 == q3) by (nonlinear_arith)
        requires
            q1 == x / 256,
            q2 == q1 / 256,
            q3 == q2 / 256,
    ;
    assert(b[1] as nat == q1 % 256);
    assert(b[2] as nat == q2 % 256);
    assert(b[3] as nat == q3 % 256);
    assert(q3 < 256) by (nonlinear_arith)
        requires
            x <= u32::MAX,
            q1 == x / 256,
            q2 == q1 / 256,
            q3 == q2 / 256,
    ;
    assert(x == b[0] as nat + 256 * (b[1] as nat) + 65536 * (b[2] as nat) + 16777216 * (
    b[3] as nat)) by (nonlinear_arith)
        requires
            q1 == x / 256,
            q2 == q1 / 256,
            q3 == q2 / 256,
            q3 < 256,
            b[0] as nat == x % 256,
            b[1] as nat == q1 % 256,
            b[2] as nat == q2 % 256,
            b[3] as nat == q3 as nat,
    ;
}

proof fn lemma_read_le32_shift(pre: Seq<u8>, mid: Seq<u8>, post: Seq<u8>)
    requires
        mid.len() == 4,
    ensures
        read_le32(pre + mid + post, pre.len() as int) == read_le32(mid, 0),
{
    let w = pre + mid + post;
    assert(w[pre.len() as int] == mid[0]);
    assert(w[pre.len() as int + 1] == mid[1]);
    assert(w[pre.len() as int + 2] == mid[2]);
    assert(w[pre.len() as int + 3] == mid[3]);
}

proof fn lemma_read_le16_shift(pre: Seq<u8>, mid: Seq<u8>, post: Seq<u8>)
    requires
        mid.len() == 2,
    ensures
        read_le16(pre + mid + post, pre.len() as int) == read_le16(mid, 0),
{
    let w = pre + mid + post;
    assert(w[pre.len() as int] == mid[0]);
    assert(w[pre.len() as int + 1] == mid[1]);
}

/// A WAV file made by `pcm_to_wav` reads back as what went in: the RIFF size
/// is the file length minus 8, the fmt chunk says mono 16-bit PCM at the
/// given sample rate with a byte rate of twice the rate, the data size is the
/// PCM length, and the bytes after the 44-byte header are the PCM unchanged.
pub proof fn lemma_wav_reads_back(pcm: Seq<u8>, sample_rate: nat)
    requires
        wav_fits(pcm.len(), sample_rate),
    ensures
        wav_file(pcm, sample_rate).len() == pcm.len() + 44,
        read_le32(wav_file(pcm, sample_rate), 4) == wav_file(pcm, sample_rate).len() - 8,
        read_le32(wav_file(pcm, sample_rate), 16) == 16,
        read_le16(wav_file(pcm, sample_rate), 20) == 1,
        read_le16(wav_file(pcm, sample_rate), 22) == 1,
        read_le32(wav_file(pcm, sample_rate), 24) == sample_rate,
        read_le32(wav_file(pcm, sample_rate), 28) == 2 * sample_rate,
        read_le16(wav_file(pcm, sample_rate), 32) == 2,
        read_le16(wav_file(pcm, sample_rate), 34) == 16,
        read_le32(wav_file(pcm, sample_rate), 40) == pcm.len(),
        wav_file(pcm, sample_rate).subrange(44, pcm.len() as int + 44) == pcm,
{
    let n = pcm.len();
    let sr = sample_rate;
    let w = wav_file(pcm, sr);
    let a1 = seq![0x52u8, 0x49u8, 0x46u8, 0x46u8];
    let a2 = a1 + le32(36 + n) + seq![0x57u8, 0x41u8, 0x56u8, 0x45u8, 0x66u8, 0x6du8, 0x74u8, 0x20u8];
    let a3 = a2 + le32(16);
    let a4 = a3 + le16(1);
    let a5 = a4 + le16(1);
    let a6 = a5 + le32(sr);
    let a7 = a6 + le32(sr * 2);
    let a8 = a7 + le16(2);
    let a9 = a8 + le16(16) + seq![0x64u8, 0x61u8, 0x74u8, 0x61u8];
    let h = a9 + le32(n);
    assert(w == h + pcm);
    assert(read_le32(w, 4) == 36 + n) by {
        lemma_le32_read(36 + n);
        assert(w =~= a1 + le32(36 + n) + w.subrange(8, w.len() as int));
        lemma_read_le32_shift(a1, le32(36 + n), w.subrange(8, w.len() as int));
    }
    assert(read_le32(w, 16) == 16) by {
        lemma_le32_read(16);
        assert(w =~= a2 + le32(16) + w.subrange(20, w.len() as int));
        lemma_read_le32_shift(a2, le32(16), w.subrange(20, w.len() as int));
    }
    assert(read_le16(w, 20) == 1) by {
        lemma_le16_read(1);
        assert(w =~= a3 + le16(1) + w.subrange(22, w.len() as int));
        lemma_read_le16_shift(a3, le16(1), w.subrange(22, w.len() as int));
    }
    assert(read_le16(w, 22) == 1) by {
        lemma_le16_read(1);
        assert(w =~= a4 + le16(1) + w.subrange(24, w.len() as int));
        lemma_read_le16_shift(a4, le16(1), w.subrange(24, w.len() as int));
    }
    assert(read_le32(w, 24) == sr) by {
        lemma_le32_read(sr);
        assert(w =~= a5 + le32(sr) + w.subrange(28, w.len() as int));
        lemma_read_le32_shift(a5, le32(sr), w.subrange(28, w.len() as int));
    }
    assert(read_le32(w, 28) == sr * 2) by {
        lemma_le32_read(sr * 2);
        assert(w =~= a6 + le32(sr * 2) + w.subrange(32, w.len() as int));
        lemma_read_le32_shift(a6, le32(sr * 2), w.subrange(32, w.len() as int));
    }
    assert(read_le16(w, 32) == 2) by {
        lemma_le16_read(2);
        assert(w =~= a7 + le16(2) + w.subrange(34, w.len() as int));
        lemma_read_le16_shift(a7, le16(2), w.subrange(34, w.len() as int));
    }
    assert(read_le16(w, 34) == 16) by {
        lemma_le16_read(16);
        assert(w =~= a8 + le16(16) + w.subrange(36, w.len() as int));
        lemma_read_le16_shift(a8, le16(16), w.subrange(36, w.len() as int));
    }
    assert(read_le32(w, 40) == n) by {
        lemma_le32_read(n);
        assert(w =~= a9 + le32(n) + pcm);
        lemma_read_le32_shift(a9, le32(n), pcm);
    }
    assert(w.subrange(44, n as int + 44) =~= pcm);
}

fn push_le16(out: &mut Vec<u8>, x: u16)
    ensures
        final(out)@ == old(out)@ + le16(x as nat),
{
    out.push((x % 256) as u8);
    out.push(((x / 256) % 256) as u8);
    assert(final(out)@ =~= old(out)@ + le16(x as nat));
}

fn push_le32(out: &mut Vec<u8>, x: u32)
    ensures
        final(out)@ == old(out)@ + le32(x as nat),
{
    out.push((x % 256) as u8);
    out.push(((x / 256) % 256) as u8);
    out.push(((x / 65536) % 256) as u8);
    out.push(((x / 16777216) % 256) as u8);
    assert(final(out)@ =~= old(out)@ + le32(x as nat));
}

fn push_bytes4(out: &mut Vec<u8>, a: u8, b: u8, c: u8, d: u8)
    ensures
        final(out)@ == old(out)@ + seq![a, b, c, d],
{
    out.push(a);
    out.push(b);
    out.push(c);
    out.push(d);
    assert(final(out)@ =~= old(out)@ + seq![a, b, c, d]);
}

/// Wraps 16 kHz-style mono 16-bit PCM bytes in a WAV container: a 44-byte
/// header followed by the samples unchanged.
pub fn pcm_to_wav(pcm: &[u8], sr: u32) -> (w: Vec<u8>)
    requires
        wav_fits(pcm@.len(), sr as nat),
    ensures
        w@ == wav_file(pcm@, sr as nat),
{
    let ds: u32 = pcm.len() as u32;
    let mut w: Vec<u8> = Vec::with_capacity(44 + pcm.len());
    push_bytes4(&mut w, 0x52, 0x49, 0x46, 0x46);
    push_le32(&mut w, 36 + ds);
    push_bytes4(&mut w, 0x57, 0x41, 0x56, 0x45);
    push_bytes4(&mut w, 0x66, 0x6d, 0x74, 0x20);
    push_le32(&mut w, 16);
    push_le16(&mut w, 1);
    push_le16(&mut w, 1);
    push_le32(&mut w, sr);
    push_le32(&mut w, sr * 2);
    push_le16(&mut w, 2);
    push_le16(&mut w, 16);
    push_bytes4(&mut w, 0x64, 0x61, 0x74, 0x61);
    push_le32(&mut w, ds);
    let ghost header = w@;
    assert(header =~= wav_header(pcm@.len(), sr as nat));
    let mut i: usize = 0;
    while i < pcm.len()
        invariant
            i <= pcm@.len(),
            w@ == header + pcm@.subrange(0, i as int),
        decreases pcm@.len() - i,
    {
        w.push(pcm[i]);
        i = i + 1;
        assert(w@ =~= header + pcm@.subrange(0, i as int));
    }
    assert(pcm@.subrange(0, pcm@.len() as int) =~= pcm@);
    w
}

} // verus!
