//! Cryptographically secure password generation.
//!
//! Each character is drawn independently and uniformly from the chosen
//! alphabet. Random bytes come from the operating system only, and bytes at or
//! above the largest multiple of the alphabet's length are rejected, so that
//! reducing the others modulo the length favours no character.

use vstd::prelude::*;

use crate::crypto;
use crate::error::{Error, Result};
use crate::security::SecureBuffer;

verus! {

/// Minimum length of a generated password.
pub const MIN_LENGTH: usize = 8;

/// Maximum length of a generated password.
pub const MAX_LENGTH: usize = 128;

/// Default length of a generated password.
pub const DEFAULT_LENGTH: usize = 24;

/// `a` to `z`.
pub const LOWERCASE: [u8; 26] = [
    97, 98, 99, 100, 101, 102, 103, 104, 105, 106, 107, 108, 109, 110, 111, 112, 113, 114, 115,
    116, 117, 118, 119, 120, 121, 122,
];

/// `A` to `Z`.
pub const UPPERCASE: [u8; 26] = [
    65, 66, 67, 68, 69, 70, 71, 72, 73, 74, 75, 76, 77, 78, 79, 80, 81, 82, 83, 84, 85, 86, 87,
    88, 89, 90,
];

/// `0` to `9`.
pub const DIGITS: [u8; 10] = [
    48, 49, 50, 51, 52, 53, 54, 55, 56, 57,
];

/// `!@#$%^&*()-_=+[]{};:,.<>?/`
pub const SYMBOLS: [u8; 26] = [
    33, 64, 35, 36, 37, 94, 38, 42, 40, 41, 45, 95, 61, 43, 91, 93, 123, 125, 59, 58, 44, 46,
    60, 62, 63, 47,
];

/// The number of random bytes that are read at a time.
pub const CHUNK_LEN: usize = 256;

/// Which character classes to draw from, and how many characters.
#[derive(Clone, Copy, Debug)]
pub struct Options {
    pub length: usize,
    pub uppercase: bool,
    pub lowercase: bool,
    pub digits: bool,
    pub symbols: bool,
}

impl Default for Options {
    fn default() -> (o: Self)
        ensures
            o == (Options {
                length: DEFAULT_LENGTH,
                uppercase: true,
                lowercase: true,
                digits: true,
                symbols: true,
            }),
    {
        Options {
            length: DEFAULT_LENGTH,
            uppercase: true,
            lowercase: true,
            digits: true,
            symbols: true,
        }
    }
}

impl Options {
    /// The characters of every enabled class, in a fixed order.
    pub open spec fn letters(self) -> Seq<u8> {
        let none = Seq::<u8>::empty();
        (if self.lowercase { LOWERCASE@ } else { none })
            + (if self.uppercase { UPPERCASE@ } else { none })
            + (if self.digits { DIGITS@ } else { none })
            + (if self.symbols { SYMBOLS@ } else { none })
    }

    /// Whether a class is enabled.
    pub open spec fn any_class(self) -> bool {
        self.uppercase || self.lowercase || self.digits || self.symbols
    }

    /// The concatenation of every enabled class. [`Error::Crypto`] if no class
    /// is enabled: no default is put in its place.
    pub fn alphabet(&self) -> (r: Result<Vec<u8>>)
        ensures
            crate::error::viewed(r) == (if self.any_class() {
                Ok::<Seq<u8>, Error>(self.letters())
            } else {
                Err::<Seq<u8>, Error>(Error::Crypto)
            }),
    {
        let mut out: Vec<u8> = Vec::new();
        if self.lowercase {
            let class: [u8; 26] = LOWERCASE;
            out.extend_from_slice(&class);
        }
        if self.uppercase {
            let class: [u8; 26] = UPPERCASE;
            out.extend_from_slice(&class);
        }
        if self.digits {
            let class: [u8; 10] = DIGITS;
            out.extend_from_slice(&class);
        }
        if self.symbols {
            let class: [u8; 26] = SYMBOLS;
            out.extend_from_slice(&class);
        }
        assert(out@ =~= self.letters());
        if out.len() == 0 {
            return Err(Error::Crypto);
        }
        Ok(out)
    }

    /// Whether at least one character class is enabled.
    pub fn has_any_class(&self) -> (r: bool)
        ensures
            r == self.any_class(),
    {
        self.uppercase || self.lowercase || self.digits || self.symbols
    }
}

/// The number of byte values that are accepted for an alphabet of `n`
/// characters: the largest multiple of `n` that is at most 255.
pub open spec fn accepted_values(n: int) -> int
    recommends
        0 < n <= 255,
{
    255int / n * n
}

/// The characters that a run of random bytes gives: rejected bytes give none,
/// and each of the others one.
pub open spec fn drawn(letters: Seq<u8>, random: Seq<u8>) -> Seq<u8>
    decreases random.len(),
{
    if random.len() == 0 {
        Seq::empty()
    } else {
        let before = drawn(letters, random.drop_last());
        let byte = random.last() as int;
        if byte < accepted_values(letters.len() as int) {
            before.push(letters[byte % letters.len() as int])
        } else {
            before
        }
    }
}

/// Fill `out` from place `filled` on with the characters that the random bytes
/// give, as far as they are needed, and return the place after the last.
pub fn draw(alphabet: &[u8], random: &[u8], out: &mut SecureBuffer, filled: usize) -> (end: usize)
    requires
        0 < alphabet@.len() <= 255,
        filled <= old(out)@.len(),
    ensures
        final(out)@.len() == old(out)@.len(),
        ({
            let chars = drawn(alphabet@, random@);
            let room = old(out)@.len() - filled;
            &&& end == filled + (if chars.len() < room { chars.len() } else { room as nat })
            &&& final(out)@ == old(out)@.take(filled as int) + chars.take(end - filled)
                + old(out)@.skip(end as int)
        }),
{
    let n: usize = alphabet.len();
    assert(255usize / n * n <= 255) by (nonlinear_arith)
        requires
            0 < n,
    ;
    let limit: usize = 255 / n * n;
    let length: usize = out.len();
    let ghost before = out@;
    let mut end: usize = filled;
    let mut i: usize = 0;
    assert(random@.take(0) =~= Seq::empty());
    assert(out@ =~= before.take(filled as int) + drawn(alphabet@, random@.take(0)) + before.skip(
        end as int,
    ));
    while i < random.len() && end < length
        invariant
            0 < n == alphabet@.len() <= 255,
            limit == accepted_values(n as int),
            i <= random@.len(),
            filled <= end <= length,
            before.len() == length,
            out@.len() == length,
            end - filled == drawn(alphabet@, random@.take(i as int)).len(),
            out@ == before.take(filled as int) + drawn(alphabet@, random@.take(i as int))
                + before.skip(end as int),
        decreases random@.len() - i,
    {
        let byte: usize = random[i] as usize;
        proof {
            let longer = random@.take(i + 1);
            assert(longer.drop_last() =~= random@.take(i as int));
            assert(longer.last() == random@[i as int]);
        }
        if byte < limit {
            let c: u8 = alphabet[byte % n];
            let ghost now = out@;
            let bytes = out.as_mut_slice();
            bytes[end] = c;
            end += 1;
            assert(out@ =~= now.update(end - 1, c));
            assert(out@ =~= before.take(filled as int) + drawn(alphabet@, random@.take(i + 1))
                + before.skip(end as int));
        }
        i += 1;
    }
    proof {
        drawn_is_prefix(alphabet@, random@, i as int);
        if i == random@.len() {
            assert(random@.take(i as int) =~= random@);
        }
        let chars = drawn(alphabet@, random@);
        assert(chars.take(end - filled) =~= drawn(alphabet@, random@.take(i as int)));
    }
    end
}

/// The characters of ASCII bytes.
pub open spec fn ascii_text(bytes: Seq<u8>) -> Seq<char> {
    Seq::new(bytes.len(), |i: int| bytes[i] as char)
}

/// Whether a password has the length that was asked for and only characters of
/// the enabled classes.
pub open spec fn conforms(password: Seq<char>, opts: Options) -> bool {
    &&& password.len() == opts.length
    &&& forall|i: int|
        0 <= i < password.len() ==> exists|j: int|
            0 <= j < opts.letters().len() && #[trigger] password[i] == (
            #[trigger] opts.letters()[j]) as char
}

/// Whether a password can be generated with these options.
pub open spec fn acceptable(opts: Options) -> bool {
    opts.any_class() && MIN_LENGTH <= opts.length <= MAX_LENGTH
}

/// Runs of bytes, one behind the other.
pub open spec fn joined(chunks: Seq<Seq<u8>>) -> Seq<u8>
    decreases chunks.len(),
{
    if chunks.len() == 0 {
        Seq::empty()
    } else {
        joined(chunks.drop_last()) + chunks.last()
    }
}

/// Whether every chunk is random bytes that the operating system gave.
pub open spec fn all_given(chunks: Seq<Seq<u8>>) -> bool {
    forall|i: int| 0 <= i < chunks.len() ==> crypto::given::<CHUNK_LEN>(#[trigger] chunks[i])
}

/// The characters that chunks of random bytes give.
pub open spec fn drawn_from(opts: Options, chunks: Seq<Seq<u8>>) -> Seq<u8> {
    drawn(opts.letters(), joined(chunks))
}

/// Whether a password is what was drawn from chunks of random bytes: as many as
/// it took, and the first characters that they give.
pub open spec fn is_drawn(password: Seq<char>, opts: Options) -> bool {
    exists|chunks: Seq<Seq<u8>>|
        {
            &&& all_given(chunks)
            &&& chunks.len() > 0
            &&& drawn_from(opts, chunks.drop_last()).len() < opts.length
            &&& opts.length <= drawn_from(opts, chunks).len()
            &&& password == ascii_text(
                #[trigger] drawn_from(opts, chunks).take(opts.length as int),
            )
        }
}

/// Whether the operating system gave random bytes as often as they are asked
/// for, and still too few of them could be used.
pub open spec fn runs_dry(opts: Options) -> bool {
    exists|chunks: Seq<Seq<u8>>|
        {
            &&& all_given(chunks)
            &&& chunks.len() == u64::MAX
            &&& (#[trigger] drawn_from(opts, chunks)).len() < opts.length
        }
}

/// Whether generating a password with these options can come out as `outcome`.
pub open spec fn generates(opts: Options, outcome: Result<Seq<char>>) -> bool {
    match outcome {
        Ok(password) => {
            &&& acceptable(opts)
            &&& conforms(password, opts)
            &&& is_drawn(password, opts)
        },
        Err(e) => e == Error::Crypto && (!acceptable(opts) || crypto::refused::<CHUNK_LEN>()
            || runs_dry(opts)),
    }
}

/// Generate a password.
///
/// [`Error::Crypto`] if no character class is enabled, the length is out of
/// bounds, or the operating system gives no random bytes. The attempt ends the
/// same way if `u64::MAX` chunks of random bytes hold too few usable ones.
pub fn generate(opts: &Options) -> (r: Result<String>)
    ensures
        generates(*opts, crate::error::viewed(r)),
{
    if !opts.has_any_class() {
        return Err(Error::Crypto);
    }
    if opts.length < MIN_LENGTH || opts.length > MAX_LENGTH {
        return Err(Error::Crypto);
    }
    let alphabet = opts.alphabet()?;
    let mut out = SecureBuffer::zeroed(opts.length);
    let mut filled: usize = 0;
    let ghost mut chunks: Seq<Seq<u8>> = Seq::empty();
    // Far more chunks than can ever be read.
    let mut chunks_left: u64 = u64::MAX;
    assert(drawn_from(*opts, chunks) =~= Seq::empty());
    while filled < opts.length && chunks_left > 0
        invariant
            MIN_LENGTH <= opts.length == out@.len(),
            filled <= opts.length,
            alphabet@ == opts.letters(),
            0 < alphabet@.len() <= 255,
            all_given(chunks),
            chunks.len() + chunks_left == u64::MAX,
            filled < opts.length ==> filled == drawn_from(*opts, chunks).len(),
            filled <= drawn_from(*opts, chunks).len(),
            out@.take(filled as int) == drawn_from(*opts, chunks).take(filled as int),
            chunks.len() > 0 ==> drawn_from(*opts, chunks.drop_last()).len() < opts.length,
            chunks.len() == 0 ==> filled == 0,
        decreases chunks_left,
    {
        let chunk: [u8; CHUNK_LEN] = crypto::random_bytes::<CHUNK_LEN>()?;
        let ghost before = out@;
        let ghost earlier = chunks;
        let end: usize = draw(alphabet.as_slice(), &chunk, &mut out, filled);
        proof {
            chunks = chunks.push(chunk@);
            assert(chunks.drop_last() =~= earlier);
            assert(crypto::given::<CHUNK_LEN>(chunk@));
            drawn_in_turn(alphabet@, joined(earlier), chunk@);
            let chars = drawn_from(*opts, earlier);
            let more = drawn(alphabet@, chunk@);
            assert(drawn_from(*opts, chunks) == chars + more);
            assert(before.take(filled as int) =~= chars);
            assert(out@.take(end as int) =~= chars + more.take(end - filled));
            assert((chars + more).take(end as int) =~= chars + more.take(end - filled));
        }
        filled = end;
        chunks_left -= 1;
    }
    if filled < opts.length {
        assert(runs_dry(*opts)) by {
            assert(drawn_from(*opts, chunks).len() < opts.length);
        }
        return Err(Error::Crypto);
    }
    proof {
        letters_are_ascii(*opts);
        drawn_from_letters(alphabet@, joined(chunks));
        let chars = drawn_from(*opts, chunks);
        assert(out@.take(filled as int) =~= out@);
        assert forall|i: int| 0 <= i < out@.len() implies alphabet@.contains(#[trigger] out@[i]) by {
            assert(out@[i] == chars[i]);
        }
        let text = ascii_text(out@);
        assert(vstd::utf8::is_ascii_chars(text));
        vstd::utf8::is_ascii_chars_encode_utf8(text);
        assert(vstd::utf8::encode_utf8(text) =~= out@);
        vstd::utf8::encode_utf8_valid_utf8(text);
        vstd::utf8::encode_utf8_decode_utf8(text);
    }
    match core::str::from_utf8(out.as_slice()) {
        Ok(password) => {
            proof {
                vstd::utf8::encode_utf8_decode_utf8(password@);
                assert(password@ == ascii_text(out@));
                assert(password@ == ascii_text(drawn_from(*opts, chunks).take(opts.length as int)));
                assert forall|i: int| 0 <= i < password@.len() implies exists|j: int|
                    0 <= j < opts.letters().len() && #[trigger] password@[i] == (
                    #[trigger] opts.letters()[j]) as char by {
                    assert(alphabet@.contains(out@[i]));
                }
            }
            Ok(password.to_owned())
        },
        Err(_) => Err(Error::Crypto),
    }
}

/// Random bytes that come in two runs give the characters of the one, then
/// those of the other.
proof fn drawn_in_turn(letters: Seq<u8>, first: Seq<u8>, second: Seq<u8>)
    ensures
        drawn(letters, first + second) == drawn(letters, first) + drawn(letters, second),
    decreases second.len(),
{
    if second.len() == 0 {
        assert(first + second =~= first);
        assert(drawn(letters, first) + drawn(letters, second) =~= drawn(letters, first));
    } else {
        drawn_in_turn(letters, first, second.drop_last());
        assert((first + second).drop_last() =~= first + second.drop_last());
        assert(drawn(letters, first + second) =~= drawn(letters, first) + drawn(letters, second));
    }
}

/// Every drawn character is one of the alphabet.
proof fn drawn_from_letters(letters: Seq<u8>, random: Seq<u8>)
    requires
        letters.len() > 0,
    ensures
        forall|i: int|
            0 <= i < drawn(letters, random).len() ==> letters.contains(
                #[trigger] drawn(letters, random)[i],
            ),
    decreases random.len(),
{
    if random.len() > 0 {
        drawn_from_letters(letters, random.drop_last());
        let byte = random.last() as int;
        assert(letters.contains(letters[byte % letters.len() as int]));
        let before = drawn(letters, random.drop_last());
        assert forall|i: int| 0 <= i < drawn(letters, random).len() implies letters.contains(
            #[trigger] drawn(letters, random)[i],
        ) by {
            if i < before.len() {
                assert(drawn(letters, random)[i] == before[i]);
            }
        }
    }
}

/// Every character of every class is ASCII.
proof fn letters_are_ascii(opts: Options)
    ensures
        forall|i: int| 0 <= i < opts.letters().len() ==> #[trigger] opts.letters()[i] < 128,
{
}

/// Rejection sampling favours no character: of the byte values that are
/// accepted, equally many fall on each place of the alphabet.
pub proof fn every_character_is_equally_likely(n: int, k: int)
    requires
        0 < n <= 255,
        0 <= k < n,
    ensures
        Set::new(|byte: int| 0 <= byte < accepted_values(n) && byte % n == k).finite(),
        Set::new(|byte: int| 0 <= byte < accepted_values(n) && byte % n == k).len() == 255int / n,
{
    let q = 255int / n;
    let values = Set::new(|byte: int| 0 <= byte < accepted_values(n) && byte % n == k);
    let rounds = vstd::set_lib::set_int_range(0, q);
    let value = |round: int| round * n + k;
    vstd::set_lib::lemma_int_range(0, q);
    assert forall|a: int, b: int| #[trigger] value(a) == #[trigger] value(b) implies a == b by {
        assert(a == b) by (nonlinear_arith)
            requires
                a * n + k == b * n + k,
                n > 0,
        ;
    }
    let image = rounds.map(value);
    assert forall|byte: int| image.contains(byte) <==> values.contains(byte) by {
        if image.contains(byte) {
            let round = choose|round: int| rounds.contains(round) && value(round) == byte;
            assert(byte % n == k && 0 <= byte < q * n) by (nonlinear_arith)
                requires
                    byte == round * n + k,
                    0 <= round < q,
                    0 <= k < n,
            ;
        }
        if values.contains(byte) {
            let round = byte / n;
            assert(round * n + k == byte && 0 <= round < q) by (nonlinear_arith)
                requires
                    round == byte / n,
                    byte % n == k,
                    0 <= byte < q * n,
                    0 < n,
            ;
            assert(rounds.contains(round));
            assert(value(round) == byte);
        }
    }
    assert(image =~= values);
    vstd::set_lib::lemma_map_size(rounds, image, value);
}

/// More random bytes give more characters, but never other ones.
proof fn drawn_is_prefix(letters: Seq<u8>, random: Seq<u8>, i: int)
    requires
        0 <= i <= random.len(),
    ensures
        drawn(letters, random.take(i)).len() <= drawn(letters, random).len(),
        drawn(letters, random).take(drawn(letters, random.take(i)).len() as int) == drawn(
            letters,
            random.take(i),
        ),
    decreases random.len() - i,
{
    if i == random.len() {
        assert(random.take(i) =~= random);
        assert(drawn(letters, random).take(drawn(letters, random).len() as int) =~= drawn(
            letters,
            random,
        ));
    } else {
        drawn_is_prefix(letters, random, i + 1);
        let longer = random.take(i + 1);
        assert(longer.drop_last() =~= random.take(i));
        let short = drawn(letters, random.take(i));
        let long = drawn(letters, longer);
        assert(long.take(short.len() as int) =~= short);
        assert(drawn(letters, random).take(short.len() as int) =~= drawn(letters, random).take(
            long.len() as int,
        ).take(short.len() as int));
    }
}

} // verus!
