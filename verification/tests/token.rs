use ticket_service::web::token::parse_token;
use ticket_service::Error;

fn parsed(token: &str) -> Result<(u64, String, String), Error> {
    parse_token(token.to_string())
}

fn fields(user_id: u64, exp: &str, sign: &str) -> Result<(u64, String, String), Error> {
    Ok((user_id, exp.to_string(), sign.to_string()))
}

/// The token grammar as a regular expression, with the id read by `str::parse`.
fn by_regex(pattern: &lazy_regex::Regex, token: &str) -> Result<(u64, String, String), Error> {
    let captures = pattern.captures(token).ok_or(Error::AuthTokenInvalid)?;
    let group = |i: usize| captures.get(i).map_or("", |m| m.as_str());
    let user_id: u64 = group(1).parse().map_err(|_| Error::AuthTokenInvalid)?;
    Ok((user_id, group(2).to_string(), group(3).to_string()))
}

fn token_pattern() -> lazy_regex::Regex {
    lazy_regex::Regex::new(r#"^user-(\d+)\.(.+)\.(.+)"#).unwrap()
}

/// Every string over `alphabet` of at most `max_len` characters, each behind `prefix`.
fn all_strings(prefix: &str, alphabet: &[char], max_len: usize) -> Vec<String> {
    let mut all = vec![prefix.to_string()];
    let mut last = vec![prefix.to_string()];
    for _ in 0..max_len {
        let mut next = Vec::new();
        for s in &last {
            for c in alphabet {
                let mut longer = s.clone();
                longer.push(*c);
                next.push(longer);
            }
        }
        all.extend(next.iter().cloned());
        last = next;
    }
    all
}

#[test]
fn parse_token_splits_a_plain_token() {
    assert_eq!(parsed("user-1.exp.sign"), fields(1, "exp", "sign"));
}

#[test]
fn parse_token_reads_the_user_id() {
    assert_eq!(parsed("user-1.anything.anything"), fields(1, "anything", "anything"));
    assert_eq!(parsed("user-7.a.b"), fields(7, "a", "b"));
    assert_eq!(parsed("user-0.a.b"), fields(0, "a", "b"));
    assert_eq!(parsed("user-1234567890.a.b"), fields(1234567890, "a", "b"));
}

#[test]
fn parse_token_accepts_leading_zeros() {
    assert_eq!(parsed("user-007.x.y"), fields(7, "x", "y"));
    assert_eq!(parsed("user-000.x.y"), fields(0, "x", "y"));
    assert_eq!(
        parsed("user-00000000000000000000000000000042.x.y"),
        fields(42, "x", "y")
    );
}

#[test]
fn parse_token_rejects_garbage() {
    assert_eq!(parsed("garbage"), Err(Error::AuthTokenInvalid));
}

#[test]
fn parse_token_rejects_what_is_cut_short() {
    for token in ["", "u", "user", "user-", "user-1", "user-1.", "user-1.a", "user-1.a.", "user-1.."] {
        assert_eq!(parsed(token), Err(Error::AuthTokenInvalid), "{token:?}");
    }
}

#[test]
fn parse_token_rejects_a_wrong_prefix() {
    for token in ["User-1.a.b", " user-1.a.b", "user_1.a.b", "users-1.a.b", "xuser-1.a.b", "\nuser-1.a.b"] {
        assert_eq!(parsed(token), Err(Error::AuthTokenInvalid), "{token:?}");
    }
}

#[test]
fn parse_token_rejects_an_id_that_is_no_number() {
    for token in ["user-.a.b", "user-x.a.b", "user-1x.a.b", "user-+1.a.b", "user--1.a.b", "user-1 .a.b", "user- 1.a.b"] {
        assert_eq!(parsed(token), Err(Error::AuthTokenInvalid), "{token:?}");
    }
}

#[test]
fn parse_token_rejects_digits_outside_ascii() {
    // An Arabic-Indic digit one is a digit, but no part of a number here.
    assert_eq!(parsed("user-\u{661}.a.b"), Err(Error::AuthTokenInvalid));
    assert_eq!(parsed("user-1\u{661}.a.b"), Err(Error::AuthTokenInvalid));
    assert_eq!(parsed("user-\u{661}1.a.b"), Err(Error::AuthTokenInvalid));
}

#[test]
fn parse_token_takes_ids_up_to_64_bits() {
    assert_eq!(parsed("user-18446744073709551615.a.b"), fields(u64::MAX, "a", "b"));
    assert_eq!(parsed("user-18446744073709551614.a.b"), fields(u64::MAX - 1, "a", "b"));
    assert_eq!(parsed("user-018446744073709551615.a.b"), fields(u64::MAX, "a", "b"));
}

#[test]
fn parse_token_rejects_ids_beyond_64_bits() {
    for token in [
        "user-18446744073709551616.a.b",
        "user-18446744073709551620.a.b",
        "user-28446744073709551615.a.b",
        "user-184467440737095516150.a.b",
        "user-99999999999999999999999999999999.a.b",
    ] {
        assert_eq!(parsed(token), Err(Error::AuthTokenInvalid), "{token:?}");
    }
}

#[test]
fn parse_token_splits_at_the_last_dot_that_leaves_a_signature() {
    assert_eq!(parsed("user-1.a.b.c"), fields(1, "a.b", "c"));
    assert_eq!(parsed("user-1.a.b.c.d"), fields(1, "a.b.c", "d"));
    assert_eq!(parsed("user-1.a.b."), fields(1, "a", "b."));
    assert_eq!(parsed("user-1.a..b"), fields(1, "a.", "b"));
    assert_eq!(parsed("user-1.a.."), fields(1, "a", "."));
    assert_eq!(parsed("user-1...."), fields(1, ".", "."));
    assert_eq!(parsed("user-1....."), fields(1, "..", "."));
    assert_eq!(parsed("user-1...b"), fields(1, ".", "b"));
}

#[test]
fn parse_token_rejects_an_empty_field() {
    for token in ["user-1..b", "user-1.a.", "user-1..", "user-1...", "user-1.", "user-1.ab", "user-1.a.\nb"] {
        assert_eq!(parsed(token), Err(Error::AuthTokenInvalid), "{token:?}");
    }
}

#[test]
fn parse_token_stops_at_a_line_feed() {
    assert_eq!(parsed("user-1.a.b\n"), fields(1, "a", "b"));
    assert_eq!(parsed("user-1.a.b\nrest.of.it"), fields(1, "a", "b"));
    assert_eq!(parsed("user-1.a.b.\n.c"), fields(1, "a", "b."));
    assert_eq!(parsed("user-1.a.b\r\n"), fields(1, "a", "b\r"));
    assert_eq!(parsed("user-1.a\n.b"), Err(Error::AuthTokenInvalid));
    assert_eq!(parsed("user-1\n.a.b"), Err(Error::AuthTokenInvalid));
    assert_eq!(parsed("user-1.\na.b"), Err(Error::AuthTokenInvalid));
}

#[test]
fn parse_token_keeps_fields_of_any_characters() {
    assert_eq!(parsed("user-1.\u{e9}t\u{e9}.\u{fc}ber"), fields(1, "\u{e9}t\u{e9}", "\u{fc}ber"));
    assert_eq!(parsed("user-3. . "), fields(3, " ", " "));
    assert_eq!(parsed("user-3.user-4.x.y"), fields(3, "user-4.x", "y"));
    assert_eq!(parsed("user-12.\u{1f600}.\u{4e2d}\u{6587}"), fields(12, "\u{1f600}", "\u{4e2d}\u{6587}"));
}

#[test]
fn parse_token_agrees_with_the_pattern_on_chosen_tokens() {
    let pattern = token_pattern();
    for token in [
        "user-1.exp.sign",
        "garbage",
        "",
        "user-",
        "user-1",
        "user-1.a.b.c",
        "user-1.a.b.",
        "user-1.a..b",
        "user-1..b",
        "user-007.x.y",
        "user-18446744073709551615.a.b",
        "user-18446744073709551616.a.b",
        "user-\u{661}.a.b",
        "user-1\u{661}.a.b",
        "user-1.a.b\nrest",
        "user-1.a\n.b",
        "user-1.a.b\r\n",
        "user-1.\u{e9}.\u{fc}",
        "xuser-1.a.b",
        "\nuser-1.a.b",
    ] {
        assert_eq!(parsed(token), by_regex(&pattern, token), "{token:?}");
    }
}

#[test]
fn parse_token_agrees_with_the_pattern_on_all_short_tails() {
    let pattern = token_pattern();
    for token in all_strings("user-", &['0', '7', '.', 'a', '\n'], 6) {
        assert_eq!(parsed(&token), by_regex(&pattern, &token), "{token:?}");
    }
}

#[test]
fn parse_token_agrees_with_the_pattern_on_all_short_fields() {
    let pattern = token_pattern();
    for token in all_strings("user-3.", &['.', 'b', '\n', '\r', '\u{e9}', '4'], 5) {
        assert_eq!(parsed(&token), by_regex(&pattern, &token), "{token:?}");
    }
}

#[test]
fn parse_token_agrees_with_the_pattern_on_all_short_strings() {
    let pattern = token_pattern();
    for token in all_strings("", &['u', 's', 'e', 'r', '-', '1', '.', 'x'], 5) {
        assert_eq!(parsed(&token), by_regex(&pattern, &token), "{token:?}");
    }
}

#[test]
fn parse_token_agrees_with_the_pattern_on_other_line_breaks() {
    let pattern = token_pattern();
    let breaks = ['\n', '\r', '\u{b}', '\u{c}', '\u{85}', '\u{2028}', '\u{2029}', '.', 'z'];
    for token in all_strings("user-8.", &breaks, 4) {
        assert_eq!(parsed(&token), by_regex(&pattern, &token), "{token:?}");
    }
}

#[test]
fn parse_token_agrees_with_the_pattern_on_digits_of_other_scripts() {
    let pattern = token_pattern();
    for digits in all_strings("", &['2', '\u{662}', '\u{966}', '\u{ff13}', '\u{b2}'], 3) {
        let token = format!("user-{digits}.e.s");
        assert_eq!(parsed(&token), by_regex(&pattern, &token), "{token:?}");
    }
}

#[test]
fn parse_token_agrees_with_the_pattern_around_the_largest_id() {
    let pattern = token_pattern();
    for digits in all_strings("1844674407370955161", &['0', '4', '5', '6', '9'], 2) {
        let token = format!("user-{digits}.e.s");
        assert_eq!(parsed(&token), by_regex(&pattern, &token), "{token:?}");
    }
}
