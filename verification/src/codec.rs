//! The child-memory codec: reading and writing byte buffers in the tracee's
//! address space through the kernel's word-granularity peek and poke.
//!
//! A buffer written into the tracee is padded with zero bytes up to the next
//! machine-word boundary (always at least one, so a pathname is always
//! NUL-terminated) and poked one word at a time; a buffer read back is peeked
//! one word at a time and cut at the first zero byte or at the requested
//! length. The packing of bytes into words and back is verified exactly, and
//! `lemma_codec_round_trip` states that reading recovers what was written.

use vstd::arithmetic::div_mod::lemma_fundamental_div_mod;
use vstd::arithmetic::div_mod::lemma_fundamental_div_mod_converse;
use vstd::prelude::*;

use vstd::std_specs::vec::spec_vec_len;

use crate::bytes::first_pos;
use crate::bytes::lemma_first_pos;
use crate::bytes::lemma_first_pos_at;
use crate::err::Error;

verus! {

/// Bytes per machine word of the traced architecture.
pub const WORD_SIZE: usize = 8;

/// Byte `i` of a machine word, in host (little-endian) byte order.
pub open spec fn word_byte(w: u64, i: int) -> u8 {
    if i == 0 {
        (w & 0xff) as u8
    } else if i == 1 {
        ((w >> 8) & 0xff) as u8
    } else if i == 2 {
        ((w >> 16) & 0xff) as u8
    } else if i == 3 {
        ((w >> 24) & 0xff) as u8
    } else if i == 4 {
        ((w >> 32) & 0xff) as u8
    } else if i == 5 {
        ((w >> 40) & 0xff) as u8
    } else if i == 6 {
        ((w >> 48) & 0xff) as u8
    } else {
        ((w >> 56) & 0xff) as u8
    }
}

/// The eight bytes of a machine word, lowest first.
pub open spec fn word_bytes(w: u64) -> Seq<u8> {
    Seq::new(8, |i: int| word_byte(w, i))
}

/// The machine word formed by eight bytes, lowest first.
pub open spec fn word_of_bytes(b: Seq<u8>) -> u64
    recommends
        b.len() == 8,
{
    (b[0] as u64) | ((b[1] as u64) << 8) | ((b[2] as u64) << 16) | ((b[3] as u64) << 24) | ((
    b[4] as u64) << 32) | ((b[5] as u64) << 40) | ((b[6] as u64) << 48) | ((b[7] as u64) << 56)
}

/// How many zero bytes a buffer of length `n` is padded with: up to the next
/// word boundary, and a full word when already aligned, so that at least one
/// terminating zero is always written.
pub open spec fn pad_len(n: nat) -> nat {
    (8 - n % 8) as nat
}

/// A buffer as written into the tracee: the data followed by its padding.
pub open spec fn spec_padded(data: Seq<u8>) -> Seq<u8> {
    data + Seq::new(pad_len(data.len()), |i: int| 0u8)
}

/// A word-aligned byte sequence packed into machine words.
pub open spec fn spec_words(bytes: Seq<u8>) -> Seq<u64>
    recommends
        bytes.len() % 8 == 0,
{
    Seq::new(bytes.len() / 8, |j: int| word_of_bytes(bytes.subrange(8 * j, 8 * j + 8)))
}

/// The words that writing `data` pokes into the tracee, in address order.
pub open spec fn spec_write_words(data: Seq<u8>) -> Seq<u64> {
    spec_words(spec_padded(data))
}

/// The byte image of a sequence of machine words.
pub open spec fn decode_words(ws: Seq<u64>) -> Seq<u8> {
    Seq::new(ws.len() * 8, |i: int| word_byte(ws[i / 8], i % 8))
}

/// The position of the first zero byte, or the length when there is none.
pub open spec fn first_zero(bytes: Seq<u8>) -> int {
    first_pos(bytes, 0)
}

/// What a read of `bytes` yields: the prefix before the first zero byte,
/// further cut at the requested length when one is given.
pub open spec fn spec_take_until_nul(bytes: Seq<u8>, n: Option<usize>) -> Seq<u8> {
    let fz = first_zero(bytes);
    let cap = match n {
        Some(m) => {
            if fz < m as int {
                fz
            } else {
                m as int
            }
        },
        None => fz,
    };
    bytes.take(cap)
}

/// Packing eight bytes into a word keeps each byte in its place.
pub proof fn lemma_word_bytes_inverse(b: Seq<u8>)
    requires
        b.len() == 8,
    ensures
        word_bytes(word_of_bytes(b)) =~= b,
{
    let w = word_of_bytes(b);
    let b0 = b[0] as u64;
    let b1 = b[1] as u64;
    let b2 = b[2] as u64;
    let b3 = b[3] as u64;
    let b4 = b[4] as u64;
    let b5 = b[5] as u64;
    let b6 = b[6] as u64;
    let b7 = b[7] as u64;
    assert(w & 0xff == b0 && (w >> 8) & 0xff == b1 && (w >> 16) & 0xff == b2 && (w >> 24) & 0xff
        == b3 && (w >> 32) & 0xff == b4 && (w >> 40) & 0xff == b5 && (w >> 48) & 0xff == b6 && (w
        >> 56) & 0xff == b7) by (bit_vector)
        requires
            w == b0 | (b1 << 8) | (b2 << 16) | (b3 << 24) | (b4 << 32) | (b5 << 40) | (b6 << 48)
                | (b7 << 56),
            b0 < 256 && b1 < 256 && b2 < 256 && b3 < 256,
            b4 < 256 && b5 < 256 && b6 < 256 && b7 < 256,
    ;
    assert(word_bytes(w)[0] == b[0] && word_bytes(w)[1] == b[1] && word_bytes(w)[2] == b[2]
        && word_bytes(w)[3] == b[3] && word_bytes(w)[4] == b[4] && word_bytes(w)[5] == b[5]
        && word_bytes(w)[6] == b[6] && word_bytes(w)[7] == b[7]);
}

/// Packing a word-aligned byte sequence into words and spelling the words
/// back out gives the same bytes.
pub proof fn lemma_decode_encode(bytes: Seq<u8>)
    requires
        bytes.len() % 8 == 0,
    ensures
        decode_words(spec_words(bytes)) =~= bytes,
{
    let ws = spec_words(bytes);
    lemma_fundamental_div_mod(bytes.len() as int, 8);
    assert(decode_words(ws).len() == bytes.len());
    assert forall|i: int| 0 <= i < bytes.len() implies decode_words(ws)[i] == bytes[i] by {
        let j = i / 8;
        let k = i % 8;
        lemma_fundamental_div_mod(i, 8);
        let sub = bytes.subrange(8 * j, 8 * j + 8);
        lemma_word_bytes_inverse(sub);
        assert(word_bytes(ws[j])[k] == sub[k]);
    }
}

/// Writing a NUL-free buffer, with its terminating zero, and reading it back
/// under any length bound past its end yields the buffer exactly.
pub proof fn lemma_codec_round_trip(p: Seq<u8>, n: usize)
    requires
        forall|i: int| 0 <= i < p.len() ==> p[i] != 0,
        p.len() < n,
    ensures
        spec_take_until_nul(decode_words(spec_write_words(p.push(0u8))), Some(n)) == p,
        spec_take_until_nul(decode_words(spec_write_words(p.push(0u8))), None) == p,
{
    let q = p.push(0u8);
    let padded = spec_padded(q);
    lemma_fundamental_div_mod(q.len() as int, 8);
    lemma_fundamental_div_mod_converse(padded.len() as int, 8, q.len() as int / 8 + 1, 0);
    lemma_decode_encode(padded);
    assert forall|i: int| 0 <= i < p.len() implies padded[i] != 0 by {
        assert(padded[i] == p[i]);
    }
    assert(padded[p.len() as int] == 0);
    lemma_first_pos_at(padded, 0, p.len() as int);
    assert(decode_words(spec_write_words(q)) =~= padded);
    assert(padded.take(p.len() as int) =~= p);
}

/// Relies on the kernel's debug interface through nix's `ptrace::read`: the
/// machine word at `addr` in the stopped tracee `pid`, or the kernel's error
/// number. What the word holds depends on the tracee and cannot be stated.
#[verifier::external_body]
fn peek_word(pid: i32, addr: u64) -> (r: Result<u64, Error>)
    ensures
        r matches Err(e) ==> e matches Error::OS { .. },
{
    match nix::sys::ptrace::read(
        nix::unistd::Pid::from_raw(pid),
        addr as nix::sys::ptrace::AddressType,
    ) {
        Ok(w) => Ok(w as u64),
        Err(e) => Err(Error::OS { errno: e as i32 }),
    }
}

/// Relies on the kernel's debug interface through nix's `ptrace::write`:
/// stores the machine word `word` at `addr` in the stopped tracee `pid`, or
/// returns the kernel's error number.
#[verifier::external_body]
fn poke_word(pid: i32, addr: u64, word: u64) -> (r: Result<(), Error>)
    ensures
        r matches Err(e) ==> e matches Error::OS { .. },
{
    match nix::sys::ptrace::write(
        nix::unistd::Pid::from_raw(pid),
        addr as nix::sys::ptrace::AddressType,
        word as i64,
    ) {
        Ok(()) => Ok(()),
        Err(e) => Err(Error::OS { errno: e as i32 }),
    }
}

/// Spells a machine word out as its eight bytes, lowest first.
pub fn word_to_bytes(w: u64) -> (r: Vec<u8>)
    ensures
        r@ == word_bytes(w),
{
    proof {
        assert(w & 0xff < 256 && (w >> 8) & 0xff < 256 && (w >> 16) & 0xff < 256 && (w >> 24)
            & 0xff < 256 && (w >> 32) & 0xff < 256 && (w >> 40) & 0xff < 256 && (w >> 48) & 0xff
            < 256 && (w >> 56) & 0xff < 256) by (bit_vector);
    }
    let mut r: Vec<u8> = Vec::new();
    r.push((w & 0xff) as u8);
    r.push(((w >> 8) & 0xff) as u8);
    r.push(((w >> 16) & 0xff) as u8);
    r.push(((w >> 24) & 0xff) as u8);
    r.push(((w >> 32) & 0xff) as u8);
    r.push(((w >> 40) & 0xff) as u8);
    r.push(((w >> 48) & 0xff) as u8);
    r.push(((w >> 56) & 0xff) as u8);
    proof {
        assert(r@[0] == word_byte(w, 0) && r@[1] == word_byte(w, 1) && r@[2] == word_byte(w, 2)
            && r@[3] == word_byte(w, 3) && r@[4] == word_byte(w, 4) && r@[5] == word_byte(w, 5)
            && r@[6] == word_byte(w, 6) && r@[7] == word_byte(w, 7));
        assert(r@ =~= word_bytes(w));
    }
    r
}

/// Packs the eight bytes of `b` starting at `start` into a machine word.
pub fn bytes_to_word(b: &Vec<u8>, start: usize) -> (r: u64)
    requires
        start + 8 <= b@.len(),
    ensures
        r == word_of_bytes(b@.subrange(start as int, start as int + 8)),
{
    proof {
        broadcast use vstd::std_specs::vec::axiom_spec_len;

        assert(spec_vec_len(b) == b@.len());
    }
    let r = (b[start] as u64) | ((b[start + 1] as u64) << 8) | ((b[start + 2] as u64) << 16) | ((
    b[start + 3] as u64) << 24) | ((b[start + 4] as u64) << 32) | ((b[start + 5] as u64) << 40)
        | ((b[start + 6] as u64) << 48) | ((b[start + 7] as u64) << 56);
    proof {
        let sub = b@.subrange(start as int, start as int + 8);
        assert(sub[0] == b@[start as int] && sub[1] == b@[start as int + 1] && sub[2] == b@[
            start as int + 2] && sub[3] == b@[start as int + 3] && sub[4] == b@[start as int + 4]
            && sub[5] == b@[start as int + 5] && sub[6] == b@[start as int + 6] && sub[7] == b@[
            start as int + 7]);
    }
    r
}

/// The padded, word-aligned image of a buffer, packed into the machine words
/// that writing it pokes into the tracee, in address order.
pub fn encode_write(data: &Vec<u8>) -> (r: Vec<u64>)
    ensures
        r@ == spec_write_words(data@),
{
    let mut padded: Vec<u8> = Vec::new();
    let mut i: usize = 0;
    while i < data.len()
        invariant
            i <= data@.len(),
            padded@ =~= data@.take(i as int),
        decreases data@.len() - i,
    {
        padded.push(data[i]);
        i = i + 1;
    }
    let pad: usize = WORD_SIZE - (data.len() % WORD_SIZE);
    let mut k: usize = 0;
    while k < pad
        invariant
            k <= pad,
            pad == pad_len(data@.len()),
            padded@ =~= data@ + Seq::new(k as nat, |z: int| 0u8),
        decreases pad - k,
    {
        padded.push(0);
        k = k + 1;
        proof {
            assert(padded@ =~= data@ + Seq::new(k as nat, |z: int| 0u8));
        }
    }
    proof {
        assert(padded@ =~= spec_padded(data@));
        lemma_fundamental_div_mod(data@.len() as int, 8);
        lemma_fundamental_div_mod_converse(
            padded@.len() as int,
            8,
            data@.len() as int / 8 + 1,
            0,
        );
    }
    let n_words: usize = padded.len() / WORD_SIZE;
    proof {
        lemma_fundamental_div_mod(padded@.len() as int, 8);
    }
    let mut ws: Vec<u64> = Vec::new();
    let mut j: usize = 0;
    while j < n_words
        invariant
            j <= n_words,
            padded@ == spec_padded(data@),
            padded@.len() == 8 * n_words,
            padded@.len() <= usize::MAX,
            ws@.len() == j,
            forall|jj: int|
                0 <= jj < j ==> ws@[jj] == word_of_bytes(
                    padded@.subrange(8 * jj, 8 * jj + 8),
                ),
        decreases n_words - j,
    {
        let w = bytes_to_word(&padded, j * WORD_SIZE);
        ws.push(w);
        j = j + 1;
    }
    proof {
        assert(ws@ =~= spec_words(padded@));
    }
    ws
}

/// Spells a sequence of machine words out as their byte image, in order.
pub fn words_to_bytes(ws: &Vec<u64>) -> (r: Vec<u8>)
    ensures
        r@ == decode_words(ws@),
{
    let mut out: Vec<u8> = Vec::new();
    let mut j: usize = 0;
    while j < ws.len()
        invariant
            j <= ws@.len(),
            out@.len() == 8 * j,
            forall|i: int| 0 <= i < out@.len() ==> out@[i] == word_byte(ws@[i / 8], i % 8),
        decreases ws@.len() - j,
    {
        let mut wb = word_to_bytes(ws[j]);
        let ghost old_out = out@;
        out.append(&mut wb);
        proof {
            assert forall|i: int| 0 <= i < out@.len() implies out@[i] == word_byte(
                ws@[i / 8],
                i % 8,
            ) by {
                if i < old_out.len() {
                } else {
                    lemma_fundamental_div_mod_converse(i, 8, j as int, i - 8 * j);
                }
            }
        }
        j = j + 1;
    }
    proof {
        assert(out@ =~= decode_words(ws@));
    }
    out
}

/// The prefix of `bytes` before its first zero byte, further cut at `n`
/// bytes when a length is given.
pub fn take_until_nul(bytes: &Vec<u8>, n: Option<usize>) -> (r: Vec<u8>)
    ensures
        r@ == spec_take_until_nul(bytes@, n),
{
    let limit: usize = match n {
        Some(m) => m,
        None => usize::MAX,
    };
    let mut out: Vec<u8> = Vec::new();
    let mut i: usize = 0;
    while i < bytes.len() && i < limit && bytes[i] != 0
        invariant
            i <= bytes@.len(),
            i <= limit,
            (match n {
                Some(m) => limit == m,
                None => limit == usize::MAX,
            }),
            out@ =~= bytes@.take(i as int),
            forall|z: int| 0 <= z < i ==> bytes@[z] != 0,
        decreases bytes@.len() - i,
    {
        out.push(bytes[i]);
        i = i + 1;
    }
    proof {
        lemma_first_pos(bytes@, 0);
        if i < bytes.len() && i < limit {
            lemma_first_pos_at(bytes@, 0, i as int);
        }
        assert(out@ =~= spec_take_until_nul(bytes@, n));
    }
    out
}

/// Reads bytes from the stopped tracee `pid` starting at `addr`, one machine
/// word at a time: up to the first zero byte when no length is given, and at
/// most `n` bytes otherwise. The terminating zero is never included, so the
/// result holds no zero byte. What the bytes are depends on the tracee's
/// memory; any peek failure is surfaced verbatim. A read of zero bytes
/// never touches the tracee and always succeeds.
pub fn read_data(pid: i32, addr: u64, n: Option<usize>) -> (r: Result<Vec<u8>, Error>)
    ensures
        r matches Ok(v) ==> (forall|i: int| 0 <= i < v@.len() ==> v@[i] != 0) && (n matches Some(m)
            ==> v@.len() <= m),
        n == Some(0usize) ==> (r matches Ok(v) && v@.len() == 0),
        r matches Err(e) ==> e matches Error::OS { .. },
{
    let limit: usize = match n {
        Some(m) => m,
        None => usize::MAX,
    };
    let mut out: Vec<u8> = Vec::new();
    let mut loc: u64 = addr;
    while out.len() < limit
        invariant
            out@.len() <= limit,
            (match n {
                Some(m) => limit == m,
                None => limit == usize::MAX,
            }),
            forall|i: int| 0 <= i < out@.len() ==> out@[i] != 0,
        decreases limit - out.len(),
    {
        let w = match peek_word(pid, loc) {
            Ok(w) => w,
            Err(e) => return Err(e),
        };
        let bytes = word_to_bytes(w);
        let ghost start_len = out@.len();
        let mut k: usize = 0;
        while k < 8
            invariant
                k <= 8,
                bytes@.len() == 8,
                out@.len() == start_len + k,
                out@.len() <= limit,
                (match n {
                    Some(m) => limit == m,
                    None => limit == usize::MAX,
                }),
                forall|i: int| 0 <= i < out@.len() ==> out@[i] != 0,
            decreases 8 - k,
        {
            if out.len() == limit {
                return Ok(out);
            }
            let b = bytes[k];
            if b == 0 {
                return Ok(out);
            }
            out.push(b);
            k = k + 1;
        }
        loc = loc.wrapping_add(8);
    }
    Ok(out)
}

/// Writes `data` into the stopped tracee `pid` at `addr`: the buffer is
/// padded with zero bytes to the next word boundary (always at least one)
/// and poked one machine word at a time, in address order; the words poked
/// are exactly `spec_write_words(data@)`, as `encode_write` states. Any poke
/// failure is surfaced verbatim and later words are not written.
pub fn write_data(pid: i32, addr: u64, data: &Vec<u8>) -> (r: Result<(), Error>)
    ensures
        r matches Err(e) ==> e matches Error::OS { .. },
{
    let ws = encode_write(data);
    let mut j: usize = 0;
    let mut loc: u64 = addr;
    while j < ws.len()
        decreases ws@.len() - j,
    {
        match poke_word(pid, loc, ws[j]) {
            Ok(()) => {},
            Err(e) => return Err(e),
        }
        loc = loc.wrapping_add(8);
        j = j + 1;
    }
    Ok(())
}

} // verus!
