//! The payload catalog: each variant is written into a caller-owned buffer,
//! which is cleared first and keeps its capacity.
use vstd::prelude::*;

use crate::buffer::{
    ascii_bytes, bytes_of, buf_clear, buf_extend, buf_fill, buf_len, buf_push_ascii, buf_set,
};
use crate::chance::random_below;
use vstd::string::StringSliceAdditionalSpecFns;

verus! {

/// Number of variants in the catalog; the last one is the no-op.
pub const VARIANT_COUNT: u64 = 12;

/// Index of the gzip variant, the one whose bytes come from the compressor.
pub const GZIP_VARIANT: u64 = 3;

/// Length of the run of `A` in the overflow variant.
pub const OVERFLOW_LEN: usize = 65536;

/// Nesting depth of the JSON explosion variant.
pub const JSON_DEPTH: usize = 1000;

/// Decompressed size of the gzip variant.
pub const GZIP_SIZE: usize = 1048576;

/// Number of `X` after the cookie prefix in the oversized-header variant.
pub const HEADER_PAD: usize = 8192;

/// Size of the zero block that the gzip variant compresses.
pub const ZERO_BLOCK: usize = 1048576;

/// `n` copies of one byte.
pub open spec fn filled(val: u8, n: nat) -> Seq<u8> {
    Seq::new(n, |_i: int| val)
}

/// `n` copies of a byte string, one after the other.
pub open spec fn repeated(s: Seq<u8>, n: nat) -> Seq<u8>
    decreases n,
{
    if n == 0 {
        Seq::empty()
    } else {
        repeated(s, (n - 1) as nat) + s
    }
}

/// Bytes that percent-encoding leaves as they are.
pub open spec fn is_unreserved(b: u8) -> bool {
    (0x30 <= b <= 0x39) || (0x41 <= b <= 0x5a) || (0x61 <= b <= 0x7a) || b == 0x2d || b == 0x2e
        || b == 0x5f || b == 0x7e
}

/// Upper-case hexadecimal digit of a value below 16.
pub open spec fn hex_digit(d: u8) -> u8 {
    if d < 10 {
        (0x30 + d) as u8
    } else {
        (0x37 + d) as u8
    }
}

/// Percent-encoding of a byte string: unreserved bytes stay, every other byte
/// becomes `%` and two upper-case hexadecimal digits.
pub open spec fn percent_encoded(b: Seq<u8>) -> Seq<u8>
    decreases b.len(),
{
    if b.len() == 0 {
        Seq::empty()
    } else {
        let c = b[0];
        let head = if is_unreserved(c) {
            seq![c]
        } else {
            seq![0x25u8, hex_digit(c / 16), hex_digit(c % 16)]
        };
        head + percent_encoded(b.drop_first())
    }
}

/// What gzip at the best compression level makes of a byte string.
pub uninterp spec fn gzip_best_of(data: Seq<u8>) -> Seq<u8>;

/// Whether compressing a byte string with gzip at the best level fails.
pub uninterp spec fn gzip_best_fails(data: Seq<u8>) -> bool;

/// Relies on `urlencoding::encode_binary`: every byte but ASCII letters,
/// digits and `-._~` becomes `%XY` with upper-case hex digits.
#[verifier::external_body]
fn percent_encode(data: &[u8]) -> (r: Vec<u8>)
    ensures
        r@ == percent_encoded(data@),
{
    urlencoding::encode_binary(data).into_owned().into_bytes()
}

/// Relies on `flate2::write::GzEncoder` at `Compression::best()` writing into
/// a `Vec`. On success the output holds at least the 8-byte trailer that
/// `finish` writes, and, being a `Vec<u8>`, at most `isize::MAX` bytes.
#[verifier::external_body]
fn gzip_best(data: &[u8]) -> (r: Option<Vec<u8>>)
    ensures
        r is None <==> gzip_best_fails(data@),
        r matches Some(v) ==> v@ == gzip_best_of(data@) && 8 <= v@.len() <= isize::MAX,
{
    let mut encoder = flate2::write::GzEncoder::new(Vec::new(), flate2::Compression::best());
    if std::io::Write::write_all(&mut encoder, data).is_err() {
        return None;
    }
    encoder.finish().ok()
}

pub open spec fn injection_payload() -> Seq<u8> {
    ascii_bytes("' OR 1=1 -- <script>alert(1)</script> {{7*7}}"@)
}

pub open spec fn json_explosion_payload(depth: nat) -> Seq<u8> {
    repeated(ascii_bytes("{\"a\":"@), depth) + seq![0x31u8] + filled(0x7d, depth)
}

pub open spec fn oversized_headers_payload(size: nat) -> Seq<u8> {
    ascii_bytes("Cookie: session="@) + filled(0x58, size)
}

pub open spec fn double_encoded_payload(input: Seq<u8>) -> Seq<u8> {
    percent_encoded(percent_encoded(input))
}

/// The injection text that the double-encoding variant encodes.
pub open spec fn double_encoding_input() -> Seq<u8> {
    ascii_bytes("' OR 1=1 --"@)
}

pub open spec fn bad_char_payload(base: Seq<u8>, index: nat, high: u8) -> Seq<u8> {
    if index < base.len() {
        base.update(index as int, high)
    } else {
        base
    }
}

/// The WebDAV and cache verbs of the verb variant, by index.
pub open spec fn verb_name(pick: u64) -> Seq<char> {
    if pick == 0 {
        "PROPFIND"@
    } else if pick == 1 {
        "MOVE"@
    } else if pick == 2 {
        "LOCK"@
    } else if pick == 3 {
        "UNLOCK"@
    } else if pick == 4 {
        "SEARCH"@
    } else {
        "PURGE"@
    }
}

pub open spec fn verb_payload(pick: u64) -> Seq<u8> {
    ascii_bytes(verb_name(pick)) + ascii_bytes(" / HTTP/1.1\r\nHost: target.internal\r\n\r\n"@)
}

pub open spec fn smuggling_payload(host: Seq<u8>) -> Seq<u8> {
    ascii_bytes("POST / HTTP/1.1\r\nHost: "@) + host + ascii_bytes(
        "\r\nContent-Length: 4\r\nTransfer-Encoding: chunked\r\n\r\n0\r\n\r\nX"@,
    )
}

pub open spec fn null_byte_payload() -> Seq<u8> {
    ascii_bytes("admin\0.php"@)
}

pub open spec fn handshake_termination_payload() -> Seq<u8> {
    seq![0x16u8, 0x03u8, 0x01u8, 0x00u8]
}

pub open spec fn noop_payload() -> Seq<u8> {
    ascii_bytes("NOOP"@)
}

/// The gzip variant's bytes when compression succeeds.
pub open spec fn gzip_payload() -> Seq<u8> {
    gzip_best_of(filled(0, GZIP_SIZE as nat))
}

/// The bytes of each catalog variant. `pick` chooses the corrupted index of
/// the bad-character walk and the verb of the verb variant; `high` is the
/// byte written by the walk.
pub open spec fn variant_payload(variant: u64, pick: u64, high: u8) -> Seq<u8> {
    if variant == 0 {
        filled(0x41, OVERFLOW_LEN as nat)
    } else if variant == 1 {
        injection_payload()
    } else if variant == 2 {
        json_explosion_payload(JSON_DEPTH as nat)
    } else if variant == 3 {
        gzip_payload()
    } else if variant == 4 {
        oversized_headers_payload(HEADER_PAD as nat)
    } else if variant == 5 {
        double_encoded_payload(double_encoding_input())
    } else if variant == 6 {
        bad_char_payload(ascii_bytes("admin"@), pick as nat, high)
    } else if variant == 7 {
        verb_payload(pick)
    } else if variant == 8 {
        smuggling_payload(ascii_bytes("target.local"@))
    } else if variant == 9 {
        null_byte_payload()
    } else if variant == 10 {
        handshake_termination_payload()
    } else {
        noop_payload()
    }
}

/// Whether the compressor fails on the gzip variant's zero block.
pub open spec fn gzip_variant_fails() -> bool {
    gzip_best_fails(filled(0, GZIP_SIZE as nat))
}

/// What a buffer holds after the variant was written: its exact bytes, or,
/// for the gzip variant only, nothing exactly when the compressor fails.
pub open spec fn catalog_outcome(variant: u64, pick: u64, high: u8, out: Seq<u8>) -> bool {
    if variant == GZIP_VARIANT {
        if gzip_variant_fails() {
            out.len() == 0
        } else {
            out == variant_payload(variant, pick, high) && out.len() >= 8
        }
    } else {
        out == variant_payload(variant, pick, high)
    }
}

/// The arguments with which a variant may be drawn.
pub open spec fn valid_draw(variant: u64, pick: u64, high: u8) -> bool {
    variant < VARIANT_COUNT && pick < 6 && 128 <= high
}

pub proof fn lemma_repeated_len(s: Seq<u8>, n: nat)
    ensures
        repeated(s, n).len() == s.len() * n,
    decreases n,
{
    if n > 0 {
        let m = (n - 1) as nat;
        lemma_repeated_len(s, m);
        assert(repeated(s, n) == repeated(s, m) + s);
        assert(s.len() * n == s.len() * m + s.len()) by (nonlinear_arith)
            requires
                m + 1 == n,
        ;
        assert((repeated(s, m) + s).len() == repeated(s, m).len() + s.len());
    } else {
        assert(s.len() * n == 0) by (nonlinear_arith)
            requires
                n == 0,
        ;
    }
}

pub proof fn lemma_percent_encoded_len(b: Seq<u8>)
    ensures
        b.len() <= percent_encoded(b).len() <= 3 * b.len(),
    decreases b.len(),
{
    if b.len() > 0 {
        lemma_percent_encoded_len(b.drop_first());
    }
}

/// Every variant leaves a non-empty buffer, the no-op exactly its four
/// bytes; the gzip variant is empty exactly when the compressor fails on its
/// zero block, and otherwise holds at least the gzip trailer.
pub proof fn lemma_payload_nonempty(variant: u64, pick: u64, high: u8, out: Seq<u8>)
    requires
        valid_draw(variant, pick, high),
        catalog_outcome(variant, pick, high, out),
    ensures
        variant != GZIP_VARIANT ==> out.len() > 0,
        variant == GZIP_VARIANT ==> (out.len() == 0 <==> gzip_variant_fails()),
        variant == GZIP_VARIANT && !gzip_variant_fails() ==> out.len() >= 8,
        variant == VARIANT_COUNT - 1 ==> out.len() == 4,
{
    reveal_strlit("' OR 1=1 -- <script>alert(1)</script> {{7*7}}");
    reveal_strlit("{\"a\":");
    reveal_strlit("Cookie: session=");
    reveal_strlit("' OR 1=1 --");
    reveal_strlit("admin");
    reveal_strlit("PROPFIND");
    reveal_strlit("MOVE");
    reveal_strlit("LOCK");
    reveal_strlit("UNLOCK");
    reveal_strlit("SEARCH");
    reveal_strlit("PURGE");
    reveal_strlit(" / HTTP/1.1\r\nHost: target.internal\r\n\r\n");
    reveal_strlit("POST / HTTP/1.1\r\nHost: ");
    reveal_strlit("admin\0.php");
    reveal_strlit("NOOP");
    lemma_repeated_len(ascii_bytes("{\"a\":"@), JSON_DEPTH as nat);
    lemma_percent_encoded_len(double_encoding_input());
    lemma_percent_encoded_len(percent_encoded(double_encoding_input()));
}

/// Payload generator over a reusable zero block for the gzip variant.
pub struct PolyglotFuzzer {
    zeros: Vec<u8>,
}

impl PolyglotFuzzer {
    #[verifier::type_invariant]
    spec fn zero_block(self) -> bool {
        self.zeros@ == filled(0, ZERO_BLOCK as nat)
    }

    pub fn new() -> (r: PolyglotFuzzer) {
        let mut zeros: Vec<u8> = Vec::new();
        let mut i: usize = 0;
        while i < ZERO_BLOCK
            invariant
                i <= ZERO_BLOCK,
                zeros@ == filled(0, i as nat),
            decreases ZERO_BLOCK - i,
        {
            zeros.push(0);
            i = i + 1;
            assert(zeros@ =~= filled(0, i as nat));
        }
        PolyglotFuzzer { zeros }
    }

    /// Appends `size` copies of `A`.
    pub fn generate_overflow(&self, buffer: &mut bytes::BytesMut, size: usize)
        requires
            bytes_of(*old(buffer)).len() + size <= isize::MAX,
        ensures
            bytes_of(*final(buffer)) == bytes_of(*old(buffer)) + filled(0x41, size as nat),
    {
        buf_fill(buffer, 0x41, size);
    }

    /// Appends the SQL / script / template injection polyglot.
    pub fn generate_injection(&self, buffer: &mut bytes::BytesMut)
        requires
            bytes_of(*old(buffer)).len() + 64 <= isize::MAX,
        ensures
            bytes_of(*final(buffer)) == bytes_of(*old(buffer)) + injection_payload(),
    {
        proof {
            reveal_strlit("' OR 1=1 -- <script>alert(1)</script> {{7*7}}");
        }
        buf_push_ascii(buffer, "' OR 1=1 -- <script>alert(1)</script> {{7*7}}");
    }

    /// Appends `depth` openings of `{"a":`, then `1`, then `depth` braces.
    pub fn generate_json_explosion(&self, buffer: &mut bytes::BytesMut, depth: usize)
        requires
            bytes_of(*old(buffer)).len() + 6 * depth + 1 <= isize::MAX,
        ensures
            bytes_of(*final(buffer)) == bytes_of(*old(buffer)) + json_explosion_payload(
                depth as nat,
            ),
    {
        proof {
            reveal_strlit("{\"a\":");
            reveal_strlit("1");
        }
        let ghost start = bytes_of(*buffer);
        let ghost open = ascii_bytes("{\"a\":"@);
        let mut i: usize = 0;
        while i < depth
            invariant
                i <= depth,
                open == ascii_bytes("{\"a\":"@),
                open.len() == 5,
                bytes_of(*buffer) == start + repeated(open, i as nat),
                start.len() + 6 * depth + 1 <= isize::MAX,
            decreases depth - i,
        {
            proof {
                reveal_strlit("{\"a\":");
                lemma_repeated_len(open, i as nat);
                assert(6 * i + 6 <= 6 * depth) by (nonlinear_arith)
                    requires
                        i < depth,
                ;
            }
            buf_push_ascii(buffer, "{\"a\":");
            proof {
                assert(start + repeated(open, i as nat) + open =~= start + repeated(
                    open,
                    (i + 1) as nat,
                ));
            }
            i = i + 1;
        }
        proof {
            lemma_repeated_len(open, depth as nat);
        }
        buf_push_ascii(buffer, "1");
        buf_fill(buffer, 0x7d, depth);
        proof {
            assert(ascii_bytes("1"@) =~= seq![0x31u8]);
            assert(bytes_of(*buffer) =~= start + json_explosion_payload(depth as nat));
        }
    }

    /// Appends the gzip compression of `min(decompressed_size, ZERO_BLOCK)`
    /// zero bytes. When the compressor fails, or its output would not fit
    /// beside what the buffer holds, the buffer is left as it was.
    pub fn generate_gzip_bomb(&self, buffer: &mut bytes::BytesMut, decompressed_size: usize)
        ensures
            ({
                let n = if decompressed_size < ZERO_BLOCK {
                    decompressed_size
                } else {
                    ZERO_BLOCK
                };
                let data = filled(0, n as nat);
                let before = bytes_of(*old(buffer));
                let out = bytes_of(*final(buffer));
                &&& gzip_best_fails(data) ==> out == before
                &&& !gzip_best_fails(data) ==> 8 <= gzip_best_of(data).len() <= isize::MAX
                &&& !gzip_best_fails(data) && before.len() + gzip_best_of(data).len() <= isize::MAX
                    ==> out == before + gzip_best_of(data) && gzip_best_of(data).len() >= 8
                &&& !gzip_best_fails(data) && before.len() + gzip_best_of(data).len()
                    > isize::MAX ==> out == before
            }),
    {
        proof {
            use_type_invariant(self);
        }
        let size = if decompressed_size < self.zeros.len() {
            decompressed_size
        } else {
            self.zeros.len()
        };
        let block = vstd::slice::slice_subrange(self.zeros.as_slice(), 0, size);
        assert(block@ =~= filled(0, size as nat));
        match gzip_best(block) {
            Some(compressed) => {
                let held = buf_len(buffer);
                if held <= isize::MAX as usize && compressed.len() <= (isize::MAX as usize) - held {
                    buf_extend(buffer, compressed.as_slice());
                }
            },
            None => {},
        }
    }

    /// Appends `Cookie: session=` followed by `size` copies of `X`.
    pub fn generate_oversized_headers(&self, buffer: &mut bytes::BytesMut, size: usize)
        requires
            bytes_of(*old(buffer)).len() + size + 16 <= isize::MAX,
        ensures
            bytes_of(*final(buffer)) == bytes_of(*old(buffer)) + oversized_headers_payload(
                size as nat,
            ),
    {
        proof {
            reveal_strlit("Cookie: session=");
        }
        buf_push_ascii(buffer, "Cookie: session=");
        buf_fill(buffer, 0x58, size);
        assert(bytes_of(*final(buffer)) =~= bytes_of(*old(buffer)) + oversized_headers_payload(
            size as nat,
        ));
    }

    /// Appends the percent-encoding of the percent-encoding of `input`.
    pub fn generate_double_encoded(&self, buffer: &mut bytes::BytesMut, input: &[u8])
        requires
            bytes_of(*old(buffer)).len() + 9 * input@.len() <= isize::MAX,
        ensures
            bytes_of(*final(buffer)) == bytes_of(*old(buffer)) + double_encoded_payload(input@),
    {
        let first = percent_encode(input);
        let second = percent_encode(first.as_slice());
        proof {
            lemma_percent_encoded_len(input@);
            lemma_percent_encoded_len(first@);
        }
        buf_extend(buffer, second.as_slice());
    }

    /// Appends `base`, with the byte at `index` replaced by `high` when
    /// `index` falls inside it.
    pub fn generate_bad_char_walk(
        &self,
        buffer: &mut bytes::BytesMut,
        base: &[u8],
        index: usize,
        high: u8,
    )
        requires
            bytes_of(*old(buffer)).len() + base@.len() <= isize::MAX,
        ensures
            bytes_of(*final(buffer)) == bytes_of(*old(buffer)) + bad_char_payload(
                base@,
                index as nat,
                high,
            ),
    {
        let ghost start = bytes_of(*buffer);
        let offset = buf_len(buffer);
        buf_extend(buffer, base);
        if index < base.len() {
            buf_set(buffer, offset + index, high);
        }
        assert(bytes_of(*buffer) =~= start + bad_char_payload(base@, index as nat, high));
    }

    /// Appends a complete request line with the verb of index `pick`.
    pub fn generate_verb_manipulation(&self, buffer: &mut bytes::BytesMut, pick: u64)
        requires
            pick < 6,
            bytes_of(*old(buffer)).len() + 64 <= isize::MAX,
        ensures
            bytes_of(*final(buffer)) == bytes_of(*old(buffer)) + verb_payload(pick),
    {
        proof {
            reveal_strlit("PROPFIND");
            reveal_strlit("MOVE");
            reveal_strlit("LOCK");
            reveal_strlit("UNLOCK");
            reveal_strlit("SEARCH");
            reveal_strlit("PURGE");
            reveal_strlit(" / HTTP/1.1\r\nHost: target.internal\r\n\r\n");
        }
        let verb = if pick == 0 {
            "PROPFIND"
        } else if pick == 1 {
            "MOVE"
        } else if pick == 2 {
            "LOCK"
        } else if pick == 3 {
            "UNLOCK"
        } else if pick == 4 {
            "SEARCH"
        } else {
            "PURGE"
        };
        assert(verb@ == verb_name(pick));
        buf_push_ascii(buffer, verb);
        buf_push_ascii(buffer, " / HTTP/1.1\r\nHost: target.internal\r\n\r\n");
        assert(bytes_of(*final(buffer)) =~= bytes_of(*old(buffer)) + verb_payload(pick));
    }

    /// Appends a CL.TE request-smuggling request addressed to `host`.
    pub fn generate_smuggling_payload(&self, buffer: &mut bytes::BytesMut, host: &str)
        requires
            bytes_of(*old(buffer)).len() + host.spec_bytes().len() + 128 <= isize::MAX,
        ensures
            bytes_of(*final(buffer)) == bytes_of(*old(buffer)) + smuggling_payload(
                host.spec_bytes(),
            ),
    {
        proof {
            reveal_strlit("POST / HTTP/1.1\r\nHost: ");
            reveal_strlit("\r\nContent-Length: 4\r\nTransfer-Encoding: chunked\r\n\r\n0\r\n\r\nX");
        }
        buf_push_ascii(buffer, "POST / HTTP/1.1\r\nHost: ");
        buf_extend(buffer, host.as_bytes());
        buf_push_ascii(
            buffer,
            "\r\nContent-Length: 4\r\nTransfer-Encoding: chunked\r\n\r\n0\r\n\r\nX",
        );
        assert(bytes_of(*final(buffer)) =~= bytes_of(*old(buffer)) + smuggling_payload(
            host.spec_bytes(),
        ));
    }

    /// Appends `admin`, a NUL byte and `.php`.
    pub fn generate_null_byte_abuse(&self, buffer: &mut bytes::BytesMut)
        requires
            bytes_of(*old(buffer)).len() + 16 <= isize::MAX,
        ensures
            bytes_of(*final(buffer)) == bytes_of(*old(buffer)) + null_byte_payload(),
    {
        proof {
            reveal_strlit("admin\0.php");
        }
        buf_push_ascii(buffer, "admin\0.php");
    }

    /// Appends the four bytes `16 03 01 00` of a cut-off TLS record header.
    pub fn generate_handshake_termination(&self, buffer: &mut bytes::BytesMut)
        requires
            bytes_of(*old(buffer)).len() + 4 <= isize::MAX,
        ensures
            bytes_of(*final(buffer)) == bytes_of(*old(buffer)) + handshake_termination_payload(),
    {
        proof {
            reveal_strlit("\x16\x03\x01\x00");
        }
        buf_push_ascii(buffer, "\x16\x03\x01\x00");
        assert(ascii_bytes("\x16\x03\x01\x00"@) =~= handshake_termination_payload());
    }

    /// Clears the buffer and writes the catalog variant of index `variant`.
    pub fn write_variant(&self, buffer: &mut bytes::BytesMut, variant: u64, pick: u64, high: u8)
        requires
            valid_draw(variant, pick, high),
        ensures
            catalog_outcome(variant, pick, high, bytes_of(*final(buffer))),
    {
        buf_clear(buffer);
        if variant == 0 {
            self.generate_overflow(buffer, OVERFLOW_LEN);
        } else if variant == 1 {
            self.generate_injection(buffer);
        } else if variant == 2 {
            self.generate_json_explosion(buffer, JSON_DEPTH);
        } else if variant == 3 {
            self.generate_gzip_bomb(buffer, GZIP_SIZE);
        } else if variant == 4 {
            self.generate_oversized_headers(buffer, HEADER_PAD);
        } else if variant == 5 {
            proof {
                reveal_strlit("' OR 1=1 --");
            }
            let input = crate::buffer::ascii_of("' OR 1=1 --");
            self.generate_double_encoded(buffer, input);
        } else if variant == 6 {
            proof {
                reveal_strlit("admin");
            }
            let base = crate::buffer::ascii_of("admin");
            self.generate_bad_char_walk(buffer, base, pick as usize, high);
        } else if variant == 7 {
            self.generate_verb_manipulation(buffer, pick);
        } else if variant == 8 {
            proof {
                reveal_strlit("target.local");
            }
            broadcast use vstd::string::is_ascii_spec_bytes;
            assert(vstd::string::is_ascii("target.local"));
            self.generate_smuggling_payload(buffer, "target.local");
            assert(ascii_bytes("target.local"@) =~= "target.local".spec_bytes());
        } else if variant == 9 {
            self.generate_null_byte_abuse(buffer);
        } else if variant == 10 {
            self.generate_handshake_termination(buffer);
        } else {
            proof {
                reveal_strlit("NOOP");
            }
            buf_push_ascii(buffer, "NOOP");
        }
        assert(Seq::<u8>::empty() + variant_payload(variant, pick, high) =~= variant_payload(
            variant,
            pick,
            high,
        ));
    }

    /// Clears the buffer and writes one variant of the catalog, drawn
    /// uniformly; the template text is accepted and not used by any variant.
    pub fn generate_into(&self, buffer: &mut bytes::BytesMut, template: &str)
        ensures
            exists|variant: u64, pick: u64, high: u8|
                valid_draw(variant, pick, high) && #[trigger] catalog_outcome(
                    variant,
                    pick,
                    high,
                    bytes_of(*final(buffer)),
                ),
            !gzip_variant_fails() ==> bytes_of(*final(buffer)).len() > 0,
    {
        let variant = random_below(VARIANT_COUNT);
        let pick = if variant == 6 {
            random_below(5)
        } else if variant == 7 {
            random_below(6)
        } else {
            0
        };
        let high: u8 = if variant == 6 {
            (128 + random_below(128)) as u8
        } else {
            128
        };
        self.write_variant(buffer, variant, pick, high);
        proof {
            lemma_payload_nonempty(variant, pick, high, bytes_of(*buffer));
        }
    }
}

} // verus!
