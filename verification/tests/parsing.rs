use modem::at::{find_value, is_at_error, parse_byte, registration_status, validate_at_argument};
use modem::command::{classify, classify_dial, Reply};
use modem::error::ModemError;
use modem::text::{text_of_line, trim};

#[test]
fn registration_response_parsing_handles_common_forms() {
    assert_eq!(registration_status("0,1"), Some(1));
    assert_eq!(registration_status("5"), Some(5));
    assert_eq!(registration_status("2,3,\"1234\""), Some(3));
}

#[test]
fn at_arguments_reject_command_injection() {
    assert!(validate_at_argument("APN", "internet").is_ok());
    assert!(validate_at_argument("APN", "internet\rAT+CFUN=0").is_err());
    assert!(validate_at_argument("PIN", "12\"34").is_err());
}

#[test]
fn a_bad_argument_is_named() {
    for value in ["a\"", "\r", "x\ny", "\0"] {
        match validate_at_argument("PIN", value) {
            Err(ModemError::Configuration(message)) => assert_eq!(
                message,
                "PIN contains a character which cannot be used in an AT command"
            ),
            other => panic!("{:?}", other),
        }
    }
    assert!(validate_at_argument("APN", "").is_ok());
    assert!(validate_at_argument("APN", "m\u{f6}bil.\u{4e2d}").is_ok());
}

#[test]
fn registration_reports_with_other_shapes() {
    assert_eq!(registration_status(" 2 , 5 "), Some(5));
    assert_eq!(registration_status("2,"), None);
    assert_eq!(registration_status(",1"), Some(1));
    assert_eq!(registration_status(""), None);
    assert_eq!(registration_status("0,x"), None);
    assert_eq!(registration_status("0,256"), None);
}

#[test]
fn bytes_are_parsed_like_unsigned_numbers() {
    for text in ["0", "7", "255", "256", "999999", "+12", "+", "", "-1", "007", "0000000255", "1 ", "12a"] {
        assert_eq!(parse_byte(text), text.parse::<u8>().ok(), "{text:?}");
    }
}

#[test]
fn white_space_is_trimmed_as_unicode_has_it() {
    for c in '\0'..='\u{ffff}' {
        let text: String = [c, 'x', c].iter().collect();
        assert_eq!(trim(&text), text.trim(), "{c:?}");
    }
    assert_eq!(trim("  a b\t\r\n"), "a b");
    assert_eq!(trim(" \u{3000}\u{85}"), "");
}

#[test]
fn lines_are_decoded_and_trimmed() {
    assert_eq!(text_of_line(b" OK \r"), "OK");
    assert_eq!(text_of_line("\u{a0}m\u{f6}bil ".as_bytes()), "m\u{f6}bil");
    assert_eq!(text_of_line(b"a\xff\xfeb"), "a\u{fffd}\u{fffd}b");
}

#[test]
fn failures_are_told_by_their_wording() {
    for line in ["ERROR", "NO CARRIER", "+CME ERROR: 10", "+CMS ERROR", "+CME ERROR"] {
        assert!(is_at_error(line), "{line}");
    }
    for line in ["OK", "ERROR 1", "NO CARRIER ", "CME ERROR", "+CME", ""] {
        assert!(!is_at_error(line), "{line}");
    }
}

#[test]
fn the_first_line_with_the_prefix_has_the_value() {
    let lines: Vec<String> = ["^X: 1", "+CPIN:  SIM PIN ", "+CPIN: READY"]
        .iter()
        .map(|line| line.to_string())
        .collect();
    assert_eq!(find_value(&lines, "+CPIN:"), Some("SIM PIN"));
    assert_eq!(find_value(&lines, "+CEREG:"), None);
    assert_eq!(find_value(&[], "+CPIN:"), None);
    assert_eq!(find_value(&["+CPIN:".to_string()], "+CPIN:"), Some(""));
}

#[test]
fn reply_lines_are_told_apart() {
    assert_eq!(classify("", "AT"), Reply::Noise);
    assert_eq!(classify("AT", "AT"), Reply::Noise);
    assert_eq!(classify("OK", "AT"), Reply::Success);
    assert_eq!(classify("ERROR", "AT"), Reply::Failure);
    assert_eq!(classify("+CPIN: READY", "AT+CPIN?"), Reply::Answer);
    assert_eq!(classify("ok", "AT"), Reply::Answer);
    assert_eq!(classify_dial("CONNECT"), Reply::Success);
    assert_eq!(classify_dial("CONNECT 115200"), Reply::Success);
    assert_eq!(classify_dial("CONNECTED"), Reply::Noise);
    assert_eq!(classify_dial("NO CARRIER"), Reply::Failure);
    assert_eq!(classify_dial("OK"), Reply::Noise);
}
