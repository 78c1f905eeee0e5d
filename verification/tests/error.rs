use grust::error::{unset, Error, ErrorDomain, ErrorMatch, GError};
use grust::quark::Quark;
use grust::text::Converted;
use std::cell::Cell;

const FILE_DOMAIN: u32 = 11;
const OTHER_DOMAIN: u32 = 12;

#[derive(Clone, Copy, Debug, PartialEq, Eq)]
enum FileError {
    Failed,
    NotFound,
    Denied,
}

impl ErrorDomain for FileError {
    fn error_domain(_: Option<FileError>) -> Quark {
        Quark::new(FILE_DOMAIN)
    }

    fn code(&self) -> i32 {
        match self {
            FileError::Failed => 0,
            FileError::NotFound => 4,
            FileError::Denied => 9,
        }
    }

    fn from_code(code: i32) -> Option<FileError> {
        match code {
            0 => Some(FileError::Failed),
            4 => Some(FileError::NotFound),
            9 => Some(FileError::Denied),
            _ => None,
        }
    }
}

fn populated(domain: u32, code: i32, message: &[u8]) -> Error {
    let mut e = unset();
    *e.slot_ptr() = Some(GError { domain: Quark::new(domain), code, message: message.to_vec() });
    e
}

fn no_locale(_: &[u8]) -> Option<Converted> {
    None
}

/// A stand-in for a Latin-1 locale: every byte is one character.
fn latin1(bytes: &[u8]) -> Option<Converted> {
    Some(Converted { text: bytes.iter().map(|&b| b as char).collect(), bytes_read: bytes.len() })
}

/// A stand-in for an ASCII locale: conversion stops at the first byte above 0x7f.
fn ascii_prefix(bytes: &[u8]) -> Option<Converted> {
    let n = bytes.iter().position(|&b| b > 0x7f).unwrap_or(bytes.len());
    Some(Converted { text: bytes[..n].iter().map(|&b| b as char).collect(), bytes_read: n })
}

/// The native predicate, as plain equality of domain and code.
fn plain(domain: Quark, code: i32, expected_domain: Quark, expected_code: i32) -> bool {
    domain == expected_domain && code == expected_code
}

/// A predicate with a rule beyond equality: within the domain, code 0 stands for any failure.
fn generic_failure(domain: Quark, code: i32, expected_domain: Quark, expected_code: i32) -> bool {
    domain == expected_domain && (code == expected_code || expected_code == 0)
}

#[test]
fn unset_handle_is_not_set() {
    assert!(!unset().is_set());
    assert!(!Error::default().is_set());
}

#[test]
fn unset_handle_says_no_error() {
    assert_eq!(unset().message(no_locale), "no error");
    assert_eq!(unset().message(|_| panic!("nothing to convert")), "no error");
}

#[test]
fn unset_handle_clones_to_unset() {
    let e = unset();
    let c = e.clone();
    assert!(!c.is_set());
    assert_eq!(c.message(no_locale), "no error");
}

#[test]
fn slot_left_alone_keeps_the_handle_unset() {
    let mut e = unset();
    assert!(e.slot_ptr().is_none());
    assert!(!e.is_set());
}

#[test]
fn slot_written_once_sets_the_handle() {
    let e = populated(FILE_DOMAIN, 4, b"no such file");
    assert!(e.is_set());
    assert_eq!(e.key(), (Quark::new(FILE_DOMAIN), 4));
}

#[test]
fn slot_shows_the_record_of_a_set_handle() {
    let mut e = populated(FILE_DOMAIN, 4, b"no such file");
    let record = e.slot_ptr().as_ref().unwrap();
    assert_eq!(record.domain, Quark::new(FILE_DOMAIN));
    assert_eq!(record.code, 4);
    assert_eq!(record.message, b"no such file".to_vec());
}

#[test]
fn key_keeps_negative_and_extreme_codes() {
    assert_eq!(populated(1, -1, b"").key(), (Quark::new(1), -1));
    assert_eq!(populated(u32::MAX, i32::MIN, b"").key(), (Quark::new(u32::MAX), i32::MIN));
    assert_eq!(populated(1, i32::MAX, b"").key(), (Quark::new(1), 2147483647));
}

#[test]
fn message_in_utf8_is_returned_exactly() {
    let e = populated(FILE_DOMAIN, 4, "Datei \u{201e}gr\u{fc}n\u{201c} fehlt".as_bytes());
    assert_eq!(e.message(no_locale), "Datei \u{201e}gr\u{fc}n\u{201c} fehlt");
    assert_eq!(populated(FILE_DOMAIN, 4, b"").message(no_locale), "");
}

#[test]
fn message_in_utf8_never_reaches_the_converter() {
    let calls = Cell::new(0u32);
    let e = populated(FILE_DOMAIN, 4, b"no such file");
    let text = e.message(|bytes| {
        calls.set(calls.get() + 1);
        latin1(bytes)
    });
    assert_eq!(text, "no such file");
    assert_eq!(calls.get(), 0);
}

#[test]
fn message_in_the_locale_encoding_is_converted_whole() {
    let e = populated(FILE_DOMAIN, 4, b"Datei gr\xfcn fehlt");
    assert_eq!(e.message(latin1), "Datei gr\u{fc}n fehlt");
}

#[test]
fn message_converted_in_part_is_not_shown_truncated() {
    let e = populated(FILE_DOMAIN, 4, b"Datei gr\xfcn fehlt");
    assert_eq!(e.message(ascii_prefix), "Datei gr\u{fffd}n fehlt");
}

#[test]
fn message_in_no_known_encoding_is_rendered_lossily() {
    let e = populated(FILE_DOMAIN, 4, &[0x62, 0x61, 0x64, 0x20, 0xff, 0xfe, 0x21]);
    let text = e.message(no_locale);
    assert_eq!(text, "bad \u{fffd}\u{fffd}!");
    assert!(text.contains('\u{fffd}'));
}

#[test]
fn clone_reads_the_same_after_its_source_is_gone() {
    let e = populated(FILE_DOMAIN, 9, b"acc\xe8s refus\xe9");
    let c = e.clone();
    drop(e);
    assert!(c.is_set());
    assert_eq!(c.key(), (Quark::new(FILE_DOMAIN), 9));
    assert_eq!(c.message(latin1), "acc\u{e8}s refus\u{e9}");
    assert_eq!(c.to_domain::<FileError>(), ErrorMatch::Known(FileError::Denied));
}

#[test]
fn handle_reads_the_same_after_its_clone_is_gone() {
    let e = populated(FILE_DOMAIN, 9, b"denied");
    let c = e.clone();
    drop(c);
    assert_eq!(e.key(), (Quark::new(FILE_DOMAIN), 9));
    assert_eq!(e.message(no_locale), "denied");
}

#[test]
fn clone_owns_a_record_of_its_own() {
    let e = populated(FILE_DOMAIN, 9, b"denied");
    let mut c = e.clone();
    *c.slot_ptr() = None;
    assert!(!c.is_set());
    assert!(e.is_set());
    assert_eq!(e.message(no_locale), "denied");
}

#[test]
fn record_clone_keeps_every_field() {
    let r = GError { domain: Quark::new(3), code: -7, message: vec![1, 2, 0xff] };
    let c = r.clone();
    drop(r);
    assert_eq!(c.domain, Quark::new(3));
    assert_eq!(c.code, -7);
    assert_eq!(c.message, vec![1, 2, 0xff]);
}

#[test]
fn to_domain_of_another_domain_is_not_in_domain() {
    let e = populated(OTHER_DOMAIN, 4, b"elsewhere");
    assert_eq!(e.to_domain::<FileError>(), ErrorMatch::NotInDomain);
}

#[test]
fn to_domain_of_a_known_code_is_the_variant() {
    assert_eq!(populated(FILE_DOMAIN, 4, b"").to_domain::<FileError>(), ErrorMatch::Known(FileError::NotFound));
    assert_eq!(populated(FILE_DOMAIN, 0, b"").to_domain::<FileError>(), ErrorMatch::Known(FileError::Failed));
}

#[test]
fn to_domain_of_an_unlisted_code_is_unknown() {
    assert_eq!(populated(FILE_DOMAIN, 5, b"").to_domain::<FileError>(), ErrorMatch::Unknown(5));
    assert_eq!(populated(FILE_DOMAIN, -1, b"").to_domain::<FileError>(), ErrorMatch::Unknown(-1));
}

#[test]
fn matches_hands_both_keys_to_the_predicate() {
    let e = populated(FILE_DOMAIN, 4, b"");
    let seen = Cell::new(None);
    let matched = e.matches(FileError::Denied, |d, c, ed, ec| {
        seen.set(Some((d, c, ed, ec)));
        true
    });
    assert!(matched);
    assert_eq!(seen.get(), Some((Quark::new(FILE_DOMAIN), 4, Quark::new(FILE_DOMAIN), 9)));
}

#[test]
fn matches_agrees_with_plain_equality() {
    let e = populated(FILE_DOMAIN, 4, b"");
    assert!(e.matches(FileError::NotFound, plain));
    assert!(!e.matches(FileError::Denied, plain));
    assert!(!e.matches(FileError::Failed, plain));
    assert!(!populated(OTHER_DOMAIN, 4, b"").matches(FileError::NotFound, plain));
}

#[test]
fn matches_agrees_with_a_predicate_beyond_equality() {
    let e = populated(FILE_DOMAIN, 4, b"");
    assert!(e.matches(FileError::NotFound, generic_failure));
    assert!(e.matches(FileError::Failed, generic_failure));
    assert!(!e.matches(FileError::Denied, generic_failure));
    assert!(!populated(OTHER_DOMAIN, 4, b"").matches(FileError::Failed, generic_failure));
}

#[test]
fn matches_returns_a_refusal_as_it_is() {
    let e = populated(FILE_DOMAIN, 4, b"");
    assert!(!e.matches(FileError::NotFound, |_, _, _, _| false));
}
