use pwgen::errors::PasswordError;
use pwgen::generate::{fill_password, generate_password};
use pwgen::universe::{build_universe, extended_vec, symbol_vec};
use pwgen::validate::{validate_args, validate_length, Args};
use rand_core::SeedableRng;

#[test]
fn test_valid_args() {
    let args = Args {
        length: 36,
        exclude_symbols: false,
        extended_symbols: false,
        allow_space: false,
    };
    assert!(validate_args(&args).is_ok());
}

#[test]
fn test_invalid_extended_symbols() {
    let args = Args {
        length: 36,
        exclude_symbols: true,
        extended_symbols: true,
        allow_space: false,
    };
    assert!(matches!(
        validate_args(&args),
        Err(PasswordError::InvalidSymbolCombination)
    ));
}

#[test]
fn test_password_length() {
    let password = generate_password(123, true, false, false).unwrap();
    assert_eq!(password.len(), 123);
}

#[test]
fn test_no_symbols() {
    let password = generate_password(100, false, false, false).unwrap();
    assert!(password.chars().all(|c| c.is_alphanumeric()));
}

#[test]
fn test_with_spaces() {
    // Non-deterministic property: a single 100-character sample misses the
    // space character with probability (88/89)^100, roughly one run in
    // three, so assert over repeated trials.
    let mut found = false;
    for _ in 0..20 {
        let password = generate_password(100, true, false, true).unwrap();
        if password.chars().any(|c| c == ' ') {
            found = true;
            break;
        }
    }
    assert!(found);
}

#[test]
fn test_with_extended_symbols() {
    // Non-deterministic property: a single 100-character sample misses the
    // extended set with probability (88/93)^100, a few runs in a thousand,
    // so assert over repeated trials.
    let mut found = false;
    for _ in 0..20 {
        let password = generate_password(100, true, true, false).unwrap();
        // Check if at least one extended symbol is present
        if password.chars().any(|c| extended_vec().contains(&c)) {
            found = true;
            break;
        }
    }
    assert!(found);
}

#[test]
fn test_validate_length_input() {
    assert!(validate_length("1").is_ok());
    assert!(validate_length("512").is_ok());
    assert!(validate_length("0").is_err());
    assert!(validate_length("513").is_err());
    assert!(validate_length("abc").is_err());
}

#[test]
fn test_edge_cases() {
    // Test minimum length
    let min_password = generate_password(1, true, false, false).unwrap();
    assert_eq!(min_password.len(), 1);

    // Test maximum length
    let max_password = generate_password(512, true, false, false).unwrap();
    assert_eq!(max_password.len(), 512);
}

#[test]
fn test_password_uniqueness() {
    let pass1 = generate_password(36, true, false, false).unwrap();
    let pass2 = generate_password(36, true, false, false).unwrap();
    assert_ne!(pass1, pass2, "Passwords should be unique");
}

#[test]
fn test_all_character_sets() {
    let password = generate_password(1000, true, true, true).unwrap();

    // Test the presence of each character set
    assert!(
        password.chars().any(|c| c.is_ascii_lowercase()),
        "Missing lowercase letters"
    );
    assert!(
        password.chars().any(|c| c.is_ascii_uppercase()),
        "Missing uppercase letters"
    );
    assert!(
        password.chars().any(|c| c.is_ascii_digit()),
        "Missing numbers"
    );
    assert!(
        password.chars().any(|c| symbol_vec().contains(&c)),
        "Missing symbols"
    );
    assert!(
        password.chars().any(|c| extended_vec().contains(&c)),
        "Missing extended symbols"
    );
    assert!(password.chars().any(|c| c == ' '), "Missing space");
}

#[test]
fn test_character_distribution() {
    let password = generate_password(10000, true, true, true).unwrap();
    let char_counts: std::collections::HashMap<char, usize> = password.chars().fold(
        std::collections::HashMap::new(),
        |mut map, c| {
            *map.entry(c).or_insert(0) += 1;
            map
        },
    );

    // Check that each character type appears at least once
    assert!(char_counts.keys().any(|c| c.is_ascii_lowercase()));
    assert!(char_counts.keys().any(|c| c.is_ascii_uppercase()));
    assert!(char_counts.keys().any(|c| c.is_ascii_digit()));
}

#[test]
fn test_validate_length_exact_values() {
    assert_eq!(validate_length("42"), Ok(42));
    assert_eq!(validate_length("1"), Ok(1));
    assert_eq!(validate_length("512"), Ok(512));
    // A leading plus sign and leading zeros parse the same way u16 does.
    assert_eq!(validate_length("+007"), Ok(7));
    assert_eq!(validate_length("0007"), Ok(7));
}

#[test]
fn test_validate_length_messages() {
    assert_eq!(
        validate_length("abc"),
        Err("The length must be a positive number between 1 and 512. Got: abc".to_string())
    );
    assert_eq!(
        validate_length(""),
        Err("The length must be a positive number between 1 and 512. Got: ".to_string())
    );
    assert_eq!(
        validate_length("99999"),
        Err("The length must be a positive number between 1 and 512. Got: 99999".to_string())
    );
    assert_eq!(
        validate_length("513"),
        Err("Password length must be between 1 and 512 characters. Got: 513".to_string())
    );
    assert_eq!(
        validate_length("0"),
        Err("Password length must be between 1 and 512 characters. Got: 0".to_string())
    );
}

#[test]
fn test_error_messages() {
    assert_eq!(
        PasswordError::InvalidSymbolCombination.message(),
        "Cannot use extended symbols (-e) when symbols are excluded (-n)"
    );
    assert_eq!(
        PasswordError::EmptyCharacterSet.message(),
        "No character sets available for password generation"
    );
    assert_eq!(
        PasswordError::RngInitializationError.message(),
        "Failed to initialize secure random number generator"
    );
}

#[test]
fn test_universe_composition() {
    // Base set alone: digits, then lowercase, then uppercase — 62 characters.
    let base = build_universe(false, false, false).unwrap();
    assert_eq!(base.len(), 62);
    assert_eq!(base[0], '0');
    assert_eq!(base[9], '9');
    assert_eq!(base[10], 'a');
    assert_eq!(base[35], 'z');
    assert_eq!(base[36], 'A');
    assert_eq!(base[61], 'Z');

    // Symbols append after the base set, in their literal order.
    let with_symbols = build_universe(true, false, false).unwrap();
    assert_eq!(with_symbols.len(), 88);
    assert_eq!(with_symbols[62], '!');
    assert_eq!(with_symbols[87], '?');

    // Extended symbols append only on top of the symbol set.
    let with_extended = build_universe(true, true, false).unwrap();
    assert_eq!(with_extended.len(), 93);
    assert_eq!(with_extended[88], '`');
    assert_eq!(with_extended[92], '\\');

    // The extended flag alone adds nothing.
    let extended_without_symbols = build_universe(false, true, false).unwrap();
    assert_eq!(extended_without_symbols, base);

    // The space character always comes last.
    let everything = build_universe(true, true, true).unwrap();
    assert_eq!(everything.len(), 94);
    assert_eq!(everything[93], ' ');
}

#[test]
fn test_fill_password_seeded() {
    // Once a generator is at hand, generation always succeeds with the
    // requested length, drawing only from the selected universe.
    let mut rng = rand_chacha::ChaCha20Rng::from_seed([7u8; 32]);
    let p1 = fill_password(&mut rng, 64, false, false, false);
    assert_eq!(p1.chars().count(), 64);
    assert!(p1.chars().all(|c| c.is_ascii_alphanumeric()));

    // The output is deterministic for a given configuration and generator
    // stream.
    let mut rng_again = rand_chacha::ChaCha20Rng::from_seed([7u8; 32]);
    let p2 = fill_password(&mut rng_again, 64, false, false, false);
    assert_eq!(p1, p2);
}

#[test]
fn test_validation_boundaries() {
    // Validation rejects lengths 0 and 513; 1 and 512 pass.
    let low = Args {
        length: 1,
        exclude_symbols: false,
        extended_symbols: false,
        allow_space: false,
    };
    assert!(validate_args(&low).is_ok());
    let high = Args {
        length: 512,
        exclude_symbols: false,
        extended_symbols: false,
        allow_space: false,
    };
    assert!(validate_args(&high).is_ok());
    assert!(validate_length("0").is_err());
    assert!(validate_length("513").is_err());
}
