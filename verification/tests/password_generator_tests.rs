use std::collections::HashSet;

use offline_vault::error::Error;
use offline_vault::password_generator::{
    draw, generate, Options, DIGITS, LOWERCASE, MAX_LENGTH, MIN_LENGTH, SYMBOLS, UPPERCASE,
};
use offline_vault::security::SecureBuffer;

#[test]
fn default_length_is_within_bounds() {
    let d = Options::default();
    assert!(d.length >= MIN_LENGTH);
    assert!(d.length <= MAX_LENGTH);
}

#[test]
fn no_classes_enabled_is_an_error() {
    let opts = Options {
        length: 16,
        uppercase: false,
        lowercase: false,
        digits: false,
        symbols: false,
    };
    assert!(!opts.has_any_class());
    assert!(generate(&opts).is_err());
    assert!(opts.alphabet().is_err());
}

#[test]
fn length_out_of_bounds_is_an_error() {
    let too_short = Options {
        length: MIN_LENGTH - 1,
        ..Options::default()
    };
    assert!(generate(&too_short).is_err());

    let too_long = Options {
        length: MAX_LENGTH + 1,
        ..Options::default()
    };
    assert!(generate(&too_long).is_err());
}

#[test]
fn generates_requested_length() {
    for len in [MIN_LENGTH, 16, 32, MAX_LENGTH] {
        let opts = Options {
            length: len,
            ..Options::default()
        };
        let s = generate(&opts).unwrap();
        assert_eq!(s.len(), len);
    }
}

#[test]
fn only_uses_selected_classes() {
    let opts = Options {
        length: 64,
        uppercase: false,
        lowercase: true,
        digits: false,
        symbols: false,
    };
    let s = generate(&opts).unwrap();
    assert!(s.bytes().all(|b| b.is_ascii_lowercase()));

    let opts = Options {
        length: 64,
        uppercase: false,
        lowercase: false,
        digits: true,
        symbols: false,
    };
    let s = generate(&opts).unwrap();
    assert!(s.bytes().all(|b| b.is_ascii_digit()));
}

#[test]
fn two_draws_differ() {
    // Probabilistic: the chance that two 24-character passwords over a
    // ~90-character alphabet collide is astronomically small.
    let opts = Options::default();
    let a = generate(&opts).unwrap();
    let b = generate(&opts).unwrap();
    assert_ne!(a, b);
}

#[test]
fn distribution_over_alphabet_is_roughly_uniform() {
    // Draw many characters from a single-digit alphabet and assert that
    // every digit appears. A biased modulo implementation would still
    // pass this, so the test is a smoke test, not a proof of uniformity.
    //
    // We generate several maximum-length passwords rather than one
    // over-long string, because `generate` deliberately refuses to
    // produce more than `MAX_LENGTH` characters.
    let opts = Options {
        length: MAX_LENGTH,
        uppercase: false,
        lowercase: false,
        digits: true,
        symbols: false,
    };

    let mut seen: HashSet<u8> = HashSet::new();
    // A few draws of MAX_LENGTH characters each gives us several hundred
    // samples without exceeding the per-call bound. Ten draws is more
    // than enough to see all ten digits with overwhelming probability.
    for _ in 0..10 {
        let s = generate(&opts).unwrap();
        assert_eq!(s.len(), MAX_LENGTH);
        for b in s.bytes() {
            seen.insert(b);
        }
    }
    for d in b"0123456789" {
        assert!(seen.contains(d), "missing digit {}", *d as char);
    }
}

#[test]
fn alphabet_is_the_enabled_classes_in_order() {
    assert_eq!(&UPPERCASE, b"ABCDEFGHIJKLMNOPQRSTUVWXYZ");
    assert_eq!(&LOWERCASE, b"abcdefghijklmnopqrstuvwxyz");
    assert_eq!(&DIGITS, b"0123456789");
    assert_eq!(&SYMBOLS, b"!@#$%^&*()-_=+[]{};:,.<>?/");
    assert_eq!(
        Options::default().alphabet().unwrap(),
        b"abcdefghijklmnopqrstuvwxyzABCDEFGHIJKLMNOPQRSTUVWXYZ0123456789!@#$%^&*()-_=+[]{};:,.<>?/"
            .to_vec()
    );
    let none = Options {
        length: 16,
        uppercase: false,
        lowercase: false,
        digits: false,
        symbols: false,
    };
    assert_eq!(none.alphabet(), Err(Error::Crypto));
}

#[test]
fn drawing_rejects_the_surplus_byte_values() {
    // Ten digits: 250 values are accepted, 250 to 255 are not.
    let mut out = SecureBuffer::zeroed(4);
    let end = draw(b"0123456789", &[249, 250, 255, 13], &mut out, 0);
    assert_eq!(end, 2);
    assert_eq!(out.as_slice(), &[b'9', b'3', 0, 0]);
    // Only as many as are needed are taken.
    let end = draw(b"0123456789", &[1, 2, 3, 4], &mut out, end);
    assert_eq!(end, 4);
    assert_eq!(out.as_slice(), b"9312");
}

#[test]
fn every_byte_value_falls_on_each_digit_equally_often() {
    let all: Vec<u8> = (0..=255).collect();
    let mut out = SecureBuffer::zeroed(256);
    let end = draw(b"0123456789", &all, &mut out, 0);
    assert_eq!(end, 250);
    for d in b"0123456789" {
        assert_eq!(out.as_slice()[..end].iter().filter(|&b| b == d).count(), 25);
    }
}
