use audyo::downloader::filename::{generate_filename, sanitize_filename};

#[test]
fn sanitize_replaces_reserved_characters() {
    assert_eq!(sanitize_filename("a/b\\c:d*e?f\"g<h>i|j"), "a_b_c_d_e_f_g_h_i_j");
}

#[test]
fn sanitize_replaces_control_characters() {
    assert_eq!(sanitize_filename("a\u{0}b\u{1f}c\u{7f}d\u{9f}e"), "a_b_c_d_e");
    assert_eq!(sanitize_filename("a\tb\nc"), "a_b_c");
}

#[test]
fn sanitize_trims_surrounding_whitespace_only() {
    assert_eq!(sanitize_filename("  My  Song \u{a0}\u{3000}"), "My  Song");
    assert_eq!(sanitize_filename("   "), "");
    assert_eq!(sanitize_filename(""), "");
}

#[test]
fn sanitize_turns_leading_control_whitespace_into_underscores() {
    assert_eq!(sanitize_filename("\n title \r\n"), "_ title __");
}

#[test]
fn sanitize_keeps_other_text() {
    assert_eq!(sanitize_filename("Grüße – 音楽 (live) [2024]"), "Grüße – 音楽 (live) [2024]");
}

#[test]
fn sanitize_agrees_with_std_on_every_code_point() {
    for code in 0u32..=0x11_0000 {
        if let Some(c) = char::from_u32(code) {
            let title = format!("{}x{}", c, c);
            let expected: String = title
                .chars()
                .map(|c| match c {
                    '/' | '\\' | ':' | '*' | '?' | '"' | '<' | '>' | '|' => '_',
                    c if c.is_control() => '_',
                    c => c,
                })
                .collect::<String>()
                .trim()
                .to_string();
            assert_eq!(sanitize_filename(&title), expected, "code point {:#x}", code);
        }
    }
}

#[test]
fn sanitize_is_idempotent_on_samples() {
    let samples = [
        "",
        " ",
        "Test: Video?",
        "  a/b  ",
        "\u{85}x\u{85}",
        " \t mixed \u{2003} spaces \n ",
        "<>|\"*?:\\/",
        "_ _",
    ];
    for sample in samples {
        let once = sanitize_filename(sample);
        assert_eq!(sanitize_filename(&once), once, "sample {:?}", sample);
    }
}

#[test]
fn generated_filename_holds_no_forbidden_character() {
    let titles = ["a/b:c*d?e\"f<g>h|i", "x\u{7}y", "\\\\server\\share", "plain"];
    for title in titles {
        let name = generate_filename(title, "m4a");
        assert!(
            !name.chars().any(|c| "/\\:*?\"<>|".contains(c) || c.is_control()),
            "name {:?}",
            name
        );
    }
}

#[test]
fn generate_filename_appends_extension() {
    assert_eq!(generate_filename("Test: Video?", "m4a"), "Test_ Video_.m4a");
    assert_eq!(generate_filename("", "m4a"), ".m4a");
    assert_eq!(generate_filename(" song ", "mp3"), "song.mp3");
}

#[test]
fn sanitize_is_idempotent_on_generated_titles() {
    let alphabet: Vec<char> =
        " \t\n/\\:*?\"<>|_ab\u{7f}\u{85}\u{a0}\u{2003}\u{3000}é".chars().collect();
    let mut state: u64 = 0x2545_f491_4f6c_dd1d;
    for _ in 0..3000 {
        let mut title = String::new();
        state ^= state << 13;
        state ^= state >> 7;
        state ^= state << 17;
        let len = (state % 9) as usize;
        for _ in 0..len {
            state ^= state << 13;
            state ^= state >> 7;
            state ^= state << 17;
            title.push(alphabet[(state % alphabet.len() as u64) as usize]);
        }
        let once = sanitize_filename(&title);
        assert_eq!(sanitize_filename(&once), once, "title {:?}", title);
        assert!(!once.chars().any(|c| "/\\:*?\"<>|".contains(c) || c.is_control()));
        assert_eq!(once, once.trim());
    }
}
