use shells::{decode_lossy, Launch, Termination};

#[test]
fn empty_bytes_decode_to_empty_text() {
    assert_eq!(decode_lossy(b""), "");
}

#[test]
fn ascii_decodes_to_itself() {
    assert_eq!(decode_lossy(b"1 + 3\n"), "1 + 3\n");
}

#[test]
fn well_formed_multibyte_text_is_kept() {
    let text = "h\u{e9}llo \u{4e16}\u{754c} \u{1f600}";
    assert_eq!(decode_lossy(text.as_bytes()), text);
}

#[test]
fn malformed_byte_becomes_replacement_character() {
    assert_eq!(decode_lossy(&[0x66, 0x6f, 0x80, 0x6f]), "fo\u{fffd}o");
    assert_eq!(decode_lossy(&[0xff]), "\u{fffd}");
}

#[test]
fn truncated_sequence_becomes_replacement_character() {
    assert_eq!(decode_lossy(&[0x61, 0xe4, 0xb8]), "a\u{fffd}");
}

#[test]
fn malformed_output_never_fails_the_run() {
    let launch = Launch::Completed {
        status: Termination { code: Some(0), success: true },
        stdout: vec![0x6f, 0x6b, 0xc3, 0x28],
        stderr: vec![0xf0, 0x9f, 0x98],
    };
    let outcome = launch.outcome();
    assert_eq!(outcome.exit_code, 0);
    assert_eq!(outcome.stdout, "ok\u{fffd}(");
    assert_eq!(outcome.stderr, "\u{fffd}");
}
