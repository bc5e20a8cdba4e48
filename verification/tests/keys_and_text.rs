use orosu::keygen::{
    entered_name, generate, is_same_path, validate_output_paths, write_or_print, written_notice,
    CliArguments, Delivery, KeyKind, WritePermissions,
};
use orosu::text::{append_decimal, append_signed_decimal, parse_u32, same_text, trim};
use std::path::Path;

fn arguments(private: Option<&str>, public: Option<&str>) -> CliArguments {
    CliArguments {
        name: None,
        kind: KeyKind::default(),
        private_key_output: private.map(|path| path.as_bytes().to_vec()),
        public_key_output: public.map(|path| path.as_bytes().to_vec()),
    }
}

#[test]
fn rejects_identical_private_and_public_output_paths() {
    let args = arguments(Some("same.key"), Some("same.key"));
    assert!(validate_output_paths(&args).is_err());
}

#[test]
fn allows_distinct_output_paths() {
    let args = arguments(Some("priv.key"), Some("pub.key"));
    assert!(validate_output_paths(&args).is_ok());
}

#[test]
fn allows_omitted_output_paths() {
    assert!(validate_output_paths(&arguments(None, None)).is_ok());
}

#[test]
fn allows_only_one_output_path_set() {
    assert!(validate_output_paths(&arguments(Some("only.key"), None)).is_ok());
    assert!(validate_output_paths(&arguments(None, Some("only.key"))).is_ok());
}

#[test]
fn paths_are_compared_as_the_standard_library_compares_them() {
    let paths = [
        "", ".", "./", "/", "//", "/.", "a", "a/", "a//", "./a", ".//a", "a/.", "a/./b", "a//b",
        "a/b", "a/b/", "/a/b", "//a//b/.", "..", "a/..", "../a", "a/../b", "b", ".a", "a.", "...",
        "./.", "././a", "/./a", "/a", "a/b/c", "a/bc",
    ];
    for one in paths {
        for other in paths {
            assert_eq!(
                is_same_path(&one.as_bytes().to_vec(), &other.as_bytes().to_vec()),
                Path::new(one) == Path::new(other),
                "{one:?} {other:?}"
            );
        }
    }
}

#[test]
fn keys_are_for_clients_unless_it_is_said_otherwise() {
    assert_eq!(KeyKind::default(), KeyKind::Client);
}

#[test]
fn generated_keys_are_of_the_kind_that_was_asked_for() {
    let (private, public) = generate(KeyKind::Server, String::new());
    assert_eq!((private.len(), public.len()), (44, 44));
    assert_ne!(private, public);
    let (private, public) = generate(KeyKind::Client, "ci".to_string());
    assert!(private.len() > 44);
    assert_eq!(public.len(), 44);
}

#[test]
fn private_keys_are_written_for_their_owner_and_public_ones_for_everybody() {
    let private = write_or_print("Private key", "shh".to_string(), true, WritePermissions::OwnerOnly);
    assert!(matches!(private, Delivery::Write { contents, owner_only: true } if contents == "shh"));
    let public = write_or_print("Public key", "hey".to_string(), true, WritePermissions::Default);
    assert!(matches!(public, Delivery::Write { contents, owner_only: false } if contents == "hey"));
}

#[test]
fn a_printed_private_key_comes_with_a_warning() {
    let private = write_or_print("Private key", "shh".to_string(), false, WritePermissions::OwnerOnly);
    assert!(matches!(private, Delivery::Print { line, warn: true } if line == "Private key: shh"));
    let public = write_or_print("Public key", "hey".to_string(), false, WritePermissions::Default);
    assert!(matches!(public, Delivery::Print { line, warn: false } if line == "Public key: hey"));
    assert_eq!(written_notice("Public key", "a/b"), "Public key written to a/b");
}

#[test]
fn a_typed_name_is_trimmed() {
    assert_eq!(entered_name("  my client \r\n"), "my client");
}

#[test]
fn trimming_is_that_of_the_standard_library() {
    for text in ["", " ", "a", " a b ", "\u{85}x\u{a0}", "\u{200b}x", "\u{3000}\u{1680}", "x\u{feff}"] {
        assert_eq!(trim(text), text.trim(), "{text:?}");
    }
    for code in 0..0x11_0000u32 {
        if let Some(c) = char::from_u32(code) {
            if code < 0x3100 || code % 97 == 0 {
                let mut text = String::from("x");
                text.push(c);
                assert_eq!(trim(&text), text.trim(), "{code:x}");
            }
        }
    }
}

#[test]
fn decimals_are_those_of_the_standard_library() {
    for n in [0u64, 1, 9, 10, 99, 100, 12345, u32::MAX as u64, u64::MAX] {
        let mut text = String::from("n=");
        append_decimal(&mut text, n);
        assert_eq!(text, format!("n={n}"));
    }
    for n in [0i64, -1, 1, -10, i32::MIN as i64, i64::MIN, i64::MAX] {
        let mut text = String::new();
        append_signed_decimal(&mut text, n);
        assert_eq!(text, n.to_string());
    }
    for n in [0u32, 7, 4_294_967_295] {
        assert_eq!(parse_u32(&n.to_string()), Some(n));
    }
    assert!(same_text("a\u{e9}", "a\u{e9}") && !same_text("a", "b"));
}
