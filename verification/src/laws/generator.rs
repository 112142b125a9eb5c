//! What the password generator draws.

use vstd::prelude::*;

use crate::crypto;
use crate::error::{Error, Result};
use crate::password_generator;
use crate::password_generator::Options;

verus! {

/// The symbols.
pub open spec fn symbols() -> Seq<char> {
    "!@#$%^&*()-_=+[]{};:,.<>?/"@
}

/// Whether a character is of one of the enabled classes.
pub open spec fn is_enabled(c: char, opts: Options) -> bool {
    ||| opts.lowercase && 'a' <= c <= 'z'
    ||| opts.uppercase && 'A' <= c <= 'Z'
    ||| opts.digits && '0' <= c <= '9'
    ||| opts.symbols && symbols().contains(c)
}

/// Whether no letter occurs twice.
pub open spec fn pairwise_different(letters: Seq<u8>) -> bool {
    forall|i: int, j: int|
        0 <= i < letters.len() && 0 <= j < letters.len() && i != j ==> letters[i] != letters[j]
}

/// How many characters there are in the enabled classes.
pub open spec fn alphabet_size(opts: Options) -> int {
    (if opts.lowercase { 26int } else { 0 }) + (if opts.uppercase { 26int } else { 0 }) + (
    if opts.digits { 10int } else { 0 }) + (if opts.symbols { 26int } else { 0 })
}

/// The classes one by one.
proof fn classes_are()
    ensures
        password_generator::LOWERCASE@.len() == 26,
        password_generator::UPPERCASE@.len() == 26,
        password_generator::DIGITS@.len() == 10,
        password_generator::SYMBOLS@.len() == 26,
        symbols().len() == 26,
        forall|i: int| 0 <= i < 26 ==> #[trigger] password_generator::LOWERCASE@[i] == 97 + i,
        forall|i: int| 0 <= i < 26 ==> #[trigger] password_generator::UPPERCASE@[i] == 65 + i,
        forall|i: int| 0 <= i < 10 ==> #[trigger] password_generator::DIGITS@[i] == 48 + i,
        forall|i: int|
            0 <= i < 26 ==> (#[trigger] password_generator::SYMBOLS@[i]) as char == symbols()[i],
        forall|i: int|
            0 <= i < 26 ==> {
                let byte = #[trigger] password_generator::SYMBOLS@[i];
                33 <= byte <= 47 || 58 <= byte <= 64 || 91 <= byte <= 96 || 123 <= byte <= 126
            },
        pairwise_different(password_generator::SYMBOLS@),
{
    reveal_strlit("!@#$%^&*()-_=+[]{};:,.<>?/");
}

/// The alphabet is every character of every enabled class, once, and nothing
/// else. Lower-case letters come before upper-case ones, then digits, then
/// symbols.
pub proof fn the_alphabet_is_the_enabled_classes(opts: Options)
    ensures
        forall|byte: u8| #[trigger] opts.letters().contains(byte) <==> is_enabled(byte as char, opts),
        pairwise_different(opts.letters()),
        opts.letters().len() == alphabet_size(opts),
        opts.any_class() <==> opts.uppercase || opts.lowercase || opts.digits || opts.symbols,
        opts.lowercase ==> opts.letters()[0] == 'a' as u8,
        opts.symbols ==> opts.letters().last() == '/' as u8,
{
    classes_are();
    let l = if opts.lowercase { 26int } else { 0 };
    let u = if opts.uppercase { 26int } else { 0 };
    let d = if opts.digits { 10int } else { 0 };
    let letters = opts.letters();
    assert(letters.len() == alphabet_size(opts));
    assert forall|i: int| 0 <= i < letters.len() implies #[trigger] letters[i] == (if i < l {
        (97 + i) as u8
    } else if i < l + u {
        (65 + i - l) as u8
    } else if i < l + u + d {
        (48 + i - l - u) as u8
    } else {
        password_generator::SYMBOLS@[i - l - u - d]
    }) by {}
    assert(password_generator::SYMBOLS@[25] == 47) by {
        reveal_strlit("!@#$%^&*()-_=+[]{};:,.<>?/");
    }
    assert forall|byte: u8| #[trigger] letters.contains(byte) <==> is_enabled(byte as char, opts) by {
        if is_enabled(byte as char, opts) {
            if opts.lowercase && 'a' <= byte as char <= 'z' {
                assert(letters[byte - 97] == byte);
            } else if opts.uppercase && 'A' <= byte as char <= 'Z' {
                assert(letters[l + byte - 65] == byte);
            } else if opts.digits && '0' <= byte as char <= '9' {
                assert(letters[l + u + byte - 48] == byte);
            } else {
                let k = choose|k: int| 0 <= k < symbols().len() && symbols()[k] == byte as char;
                assert(password_generator::SYMBOLS@[k] as char == symbols()[k]);
                assert(letters[l + u + d + k] == password_generator::SYMBOLS@[k]);
            }
        }
        if letters.contains(byte) {
            let i = choose|i: int| 0 <= i < letters.len() && letters[i] == byte;
            if i >= l + u + d {
                let k = i - l - u - d;
                assert(password_generator::SYMBOLS@[k] as char == symbols()[k]);
                assert(symbols()[k] == byte as char);
            }
        }
    }
}

/// The byte values that are accepted for an alphabet of `n` characters are those
/// below the largest multiple of `n` that fits in a byte.
pub proof fn as_many_bytes_as_possible_are_accepted(n: int)
    requires
        0 < n <= 255,
    ensures
        password_generator::accepted_values(n) % n == 0,
        0 < password_generator::accepted_values(n) <= 255,
        password_generator::accepted_values(n) + n > 255,
{
    let q = 255int / n;
    assert(q * n % n == 0 && 0 < q * n <= 255 && q * n + n > 255) by (nonlinear_arith)
        requires
            q == 255int / n,
            0 < n <= 255,
    ;
}

/// Random bytes are drawn from one at a time: what two runs give together is
/// what the one gives, followed by what the other gives.
pub proof fn draws_are_independent(letters: Seq<u8>, first: Seq<u8>, second: Seq<u8>)
    ensures
        password_generator::drawn(letters, Seq::empty()) == Seq::<u8>::empty(),
        password_generator::drawn(letters, first + second) == password_generator::drawn(
            letters,
            first,
        ) + password_generator::drawn(letters, second),
    decreases second.len(),
{
    let drawn_first = password_generator::drawn(letters, first);
    if second.len() == 0 {
        assert(first + second =~= first);
        assert(drawn_first + password_generator::drawn(letters, second) =~= drawn_first);
    } else {
        draws_are_independent(letters, first, second.drop_last());
        assert((first + second).drop_last() =~= first + second.drop_last());
        assert(password_generator::drawn(letters, first + second) =~= drawn_first
            + password_generator::drawn(letters, second));
    }
}

/// One byte draws the letter at its remainder, if it is accepted, and nothing
/// otherwise.
pub proof fn one_byte_draws(letters: Seq<u8>, byte: u8)
    requires
        0 < letters.len() <= 255,
    ensures
        byte as int >= 255int / letters.len() as int * letters.len() ==> password_generator::drawn(
            letters,
            seq![byte],
        ) == Seq::<u8>::empty(),
        forall|round: int, k: int|
            0 <= k < letters.len() && 0 <= round && byte == #[trigger] (round * letters.len())
                + k && byte < 255int / letters.len() as int * letters.len()
                ==> password_generator::drawn(letters, seq![byte]) == seq![#[trigger] letters[k]],
{
    let n = letters.len() as int;
    assert(seq![byte].drop_last() =~= Seq::empty());
    assert(password_generator::drawn(letters, Seq::empty()) =~= Seq::empty());
    assert forall|round: int, k: int|
        0 <= k < n && 0 <= round && byte == #[trigger] (round * letters.len()) + k && byte < 255int
            / n * n implies password_generator::drawn(letters, seq![byte])
        == seq![#[trigger] letters[k]] by {
        assert((round * n + k) % n == k) by (nonlinear_arith)
            requires
                0 <= k < n,
                0 <= round,
        ;
        assert(password_generator::drawn(letters, seq![byte]) =~= seq![letters[k]]);
    }
}

/// Every letter is equally likely: of the 256 values of a random byte, exactly
/// `255 / n` draw the letter at any given place of an alphabet of `n` different
/// letters, and so none is out of reach.
pub proof fn every_letter_is_drawn_equally_often(letters: Seq<u8>, k: int)
    requires
        0 < letters.len() <= 255,
        pairwise_different(letters),
        0 <= k < letters.len(),
    ensures
        ({
            let values = Set::new(
                |b: int|
                    0 <= b < 256 && password_generator::drawn(letters, seq![b as u8])
                        == seq![letters[k]],
            );
            &&& values.finite()
            &&& values.len() == 255int / letters.len() as int
            &&& values.len() > 0
        }),
{
    let n = letters.len() as int;
    let values = Set::new(
        |b: int|
            0 <= b < 256 && password_generator::drawn(letters, seq![b as u8]) == seq![letters[k]],
    );
    let accepted = Set::new(
        |b: int| 0 <= b < password_generator::accepted_values(n) && b % n == k,
    );
    as_many_bytes_as_possible_are_accepted(n);
    assert forall|b: int| values.contains(b) <==> accepted.contains(b) by {
        if 0 <= b < 256 {
            let byte = b as u8;
            let one = seq![byte];
            assert(one.drop_last() =~= Seq::empty());
            assert(password_generator::drawn(letters, Seq::empty()) =~= Seq::empty());
            let got = password_generator::drawn(letters, one);
            if b < password_generator::accepted_values(n) {
                assert(got =~= seq![letters[b % n]]);
                if got == seq![letters[k]] {
                    assert(got[0] == letters[k]);
                }
            } else {
                assert(got.len() == 0);
                assert(seq![letters[k]].len() == 1);
            }
        }
    }
    assert(values =~= accepted);
    password_generator::every_character_is_equally_likely(n, k);
    assert(255int / n > 0) by (nonlinear_arith)
        requires
            0 < n <= 255,
    ;
}

/// Whether a password is the first characters that random bytes give.
pub open spec fn is_made_of(password: Seq<char>, opts: Options, random: Seq<u8>) -> bool {
    let chars = password_generator::drawn(opts.letters(), random);
    &&& password.len() <= chars.len()
    &&& forall|i: int| 0 <= i < password.len() ==> #[trigger] password[i] == chars[i] as char
}

/// A generated password has the length that was asked for, between eight and a
/// hundred and twenty-eight, and every character of it is of an enabled class.
/// It is what chunks of random bytes gave, in their order. No password is
/// generated without a class or with another length.
pub proof fn a_password_is_what_was_asked_for(opts: Options, outcome: Result<Seq<char>>)
    requires
        password_generator::generates(opts, outcome),
    ensures
        outcome matches Ok(password) ==> {
            &&& password.len() == opts.length
            &&& 8 <= opts.length <= 128
            &&& forall|i: int|
                0 <= i < password.len() ==> is_enabled(#[trigger] password[i], opts)
            &&& exists|chunks: Seq<Seq<u8>>|
                {
                    &&& forall|i: int|
                        0 <= i < chunks.len() ==> crypto::given::<256>(#[trigger] chunks[i])
                    &&& is_made_of(password, opts, #[trigger] password_generator::joined(chunks))
                    &&& chunks.len() > 0
                    &&& password_generator::drawn(
                        opts.letters(),
                        password_generator::joined(chunks.drop_last()),
                    ).len() < opts.length
                }
        },
        outcome matches Err(e) ==> e == Error::Crypto,
        outcome is Err && (opts.uppercase || opts.lowercase || opts.digits || opts.symbols) && 8
            <= opts.length <= 128 && !crypto::refused::<256>() ==> exists|chunks: Seq<Seq<u8>>|
            {
                &&& chunks.len() == u64::MAX
                &&& forall|i: int|
                    0 <= i < chunks.len() ==> crypto::given::<256>(#[trigger] chunks[i])
                &&& password_generator::drawn(
                    opts.letters(),
                    #[trigger] password_generator::joined(chunks),
                ).len() < opts.length
            },
        !(opts.uppercase || opts.lowercase || opts.digits || opts.symbols) || opts.length < 8
            || opts.length > 128 ==> outcome is Err,
{
    the_alphabet_is_the_enabled_classes(opts);
    if outcome is Err && password_generator::runs_dry(opts) {
        let chunks = choose|chunks: Seq<Seq<u8>>|
            {
                &&& password_generator::all_given(chunks)
                &&& chunks.len() == u64::MAX
                &&& (#[trigger] password_generator::drawn_from(opts, chunks)).len() < opts.length
            };
        assert(password_generator::drawn(
            opts.letters(),
            password_generator::joined(chunks),
        ).len() < opts.length);
    }
    if let Ok(password) = outcome {
        let chunks = choose|chunks: Seq<Seq<u8>>|
            {
                &&& password_generator::all_given(chunks)
                &&& chunks.len() > 0
                &&& password_generator::drawn_from(opts, chunks.drop_last()).len() < opts.length
                &&& opts.length <= password_generator::drawn_from(opts, chunks).len()
                &&& password == password_generator::ascii_text(
                    #[trigger] password_generator::drawn_from(opts, chunks).take(
                        opts.length as int,
                    ),
                )
            };
        assert forall|i: int| 0 <= i < password.len() implies is_enabled(
            #[trigger] password[i],
            opts,
        ) by {
            let j = choose|j: int|
                0 <= j < opts.letters().len() && password[i] == (#[trigger] opts.letters()[j]) as char;
            assert(opts.letters().contains(opts.letters()[j]));
        }
        assert forall|i: int| 0 <= i < chunks.len() implies crypto::given::<256>(
            #[trigger] chunks[i],
        ) by {}
        let joined = password_generator::joined(chunks);
        assert forall|i: int| 0 <= i < password.len() implies #[trigger] password[i]
            == password_generator::drawn(opts.letters(), joined)[i] as char by {}
        assert(is_made_of(password, opts, joined));
    }
}

/// Chunks are joined in their order, and nothing is left out.
pub proof fn chunks_are_joined_in_order(chunks: Seq<Seq<u8>>, more: Seq<u8>)
    ensures
        password_generator::joined(Seq::empty()) == Seq::<u8>::empty(),
        password_generator::joined(chunks.push(more)) == password_generator::joined(chunks) + more,
{
    assert(chunks.push(more).drop_last() =~= chunks);
}

/// The default is twenty-four characters of every class.
pub proof fn the_default_length()
    ensures
        password_generator::DEFAULT_LENGTH == 24,
        password_generator::MIN_LENGTH == 8,
        password_generator::MAX_LENGTH == 128,
{
}

/// What a call hands back has the length that was asked for and only characters of
/// the enabled classes; without a class, or with a length out of bounds, it fails.
pub proof fn a_call_generates_what_was_asked_for(opts: &Options, r: Result<String>)
    requires
        call_ensures(password_generator::generate, (opts,), r),
    ensures
        r matches Ok(password) ==> {
            &&& password@.len() == opts.length
            &&& forall|i: int|
                0 <= i < password@.len() ==> is_enabled(#[trigger] password@[i], *opts)
        },
        !(opts.uppercase || opts.lowercase || opts.digits || opts.symbols) || opts.length < 8
            || opts.length > 128 ==> r == Err::<String, Error>(Error::Crypto),
{
    a_password_is_what_was_asked_for(*opts, crate::error::viewed(r));
}

} // verus!
