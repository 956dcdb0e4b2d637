use cat_conformance::checks::{check_comment_preservation, comment_sample_text};
use cat_conformance::preprocess::{has_asm_extension, is_space_char, strip_comments};

#[test]
fn comment_only_lines_stay_and_trailing_comments_go() {
    let out = strip_comments(
        ";only comment\nmov rax, rbx ; trailing\n  ; indented comment\nlabel: nop\n",
    );
    assert_eq!(out, ";only comment\nmov rax, rbx\n  ; indented comment\nlabel: nop\n");
}

#[test]
fn every_line_of_the_result_ends_with_a_line_feed() {
    assert_eq!(strip_comments(""), "");
    assert_eq!(strip_comments("nop"), "nop\n");
    assert_eq!(strip_comments("nop\n"), "nop\n");
    assert_eq!(strip_comments("\n\n"), "\n\n");
    assert_eq!(strip_comments("a\n\nb"), "a\n\nb\n");
}

#[test]
fn carriage_returns_at_line_ends_are_dropped() {
    assert_eq!(strip_comments("mov a, b ; x\r\n; c\r\n"), "mov a, b\n; c\n");
    assert_eq!(strip_comments("nop\r"), "nop\n");
    assert_eq!(strip_comments("; c\r\r\n"), "; c\n");
    assert_eq!(strip_comments("a\rb\n"), "a\rb\n");
}

#[test]
fn code_lines_lose_blanks_and_tabs_at_their_end_only() {
    assert_eq!(strip_comments("  mov a, b \t ; x ; y\n"), "  mov a, b\n");
    assert_eq!(strip_comments("\tnop  \n"), "\tnop\n");
    assert_eq!(strip_comments("db ';'\n"), "db '\n");
    assert_eq!(strip_comments("   \n"), "\n");
}

#[test]
fn comment_only_lines_keep_their_blanks() {
    assert_eq!(strip_comments("\t ; note  \n"), "\t ; note  \n");
    assert_eq!(strip_comments("\u{a0}; after a wide space\n"), "\u{a0}; after a wide space\n");
    assert_eq!(strip_comments("x\u{a0}; not a comment line\n"), "x\u{a0}\n");
}

#[test]
fn characters_beyond_ascii_pass_through() {
    assert_eq!(strip_comments("db 'é' ; accent\n"), "db 'é'\n");
}

#[test]
fn white_space_is_what_the_standard_says() {
    let spaces = [
        '\t', '\n', '\u{b}', '\u{c}', '\r', ' ', '\u{85}', '\u{a0}', '\u{1680}', '\u{2000}',
        '\u{200a}', '\u{2028}', '\u{2029}', '\u{202f}', '\u{205f}', '\u{3000}',
    ];
    for c in spaces {
        assert!(is_space_char(c));
        assert!(c.is_whitespace());
    }
    for c in ['a', ';', '\u{0}', '\u{8}', '\u{e}', '\u{1f}', '\u{200b}', '\u{feff}', '\u{180e}'] {
        assert!(!is_space_char(c));
        assert!(!c.is_whitespace());
    }
}

#[test]
fn white_space_agrees_with_the_standard_on_every_character() {
    for code in 0..=0x10ffffu32 {
        if let Some(c) = char::from_u32(code) {
            assert_eq!(is_space_char(c), c.is_whitespace());
        }
    }
}

#[test]
fn assembly_sources_are_told_by_their_extension() {
    assert!(has_asm_extension("wcat/wcat.asm"));
    assert!(has_asm_extension("a.asm"));
    assert!(has_asm_extension("a.b.asm"));
    assert!(has_asm_extension("..asm"));
    assert!(!has_asm_extension(".asm"));
    assert!(!has_asm_extension("dir/.asm"));
    assert!(!has_asm_extension("asm"));
    assert!(!has_asm_extension("wcat.asm.bak"));
    assert!(!has_asm_extension("wcat.ASM"));
    assert!(!has_asm_extension(""));
}

#[test]
fn the_filtered_sample_passes_the_check() {
    let processed = strip_comments(comment_sample_text());
    assert_eq!(check_comment_preservation(&processed), Ok(()));
}

#[test]
fn the_check_names_what_went_wrong() {
    assert_eq!(
        check_comment_preservation("mov rax, rbx\n  ; indented comment\n"),
        Err("comment-only line removed".to_string())
    );
    assert_eq!(
        check_comment_preservation(
            ";only comment\nmov rax, rbx ; trailing\n  ; indented comment\n"
        ),
        Err("trailing comment not stripped correctly".to_string())
    );
    assert_eq!(
        check_comment_preservation(";only comment\nmov rbx, rax\n  ; indented comment\n"),
        Err("trailing comment not stripped correctly".to_string())
    );
    assert_eq!(
        check_comment_preservation(";only comment\nmov rax, rbx\n\n"),
        Err("indented comment line lost".to_string())
    );
    assert_eq!(
        check_comment_preservation(";only comment\nmov rax, rbx\n"),
        Err("indented comment line lost".to_string())
    );
    assert_eq!(check_comment_preservation(""), Err("comment-only line removed".to_string()));
    assert_eq!(
        check_comment_preservation("\t;only comment\r\n  mov rax, rbx\r\n; indented comment"),
        Ok(())
    );
}

#[test]
fn stripping_a_stripped_text_changes_nothing() {
    let texts = [
        "",
        "\n",
        "mov rax, 1 ; set\n",
        "  ; only a comment  \r\n\tret ; done\r\nlast ; no line feed",
        "a;b;c\n;;\n \t \n\r\r\n",
        "db 'x' \t; trailing\n; kept \t\n",
    ];
    for text in texts {
        let once = strip_comments(text);
        assert_eq!(strip_comments(&once), once, "{text:?}");
    }
}
