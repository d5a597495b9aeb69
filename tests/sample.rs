use commandant::sample::{parse_decimal, parse_samples, Decimal, SampleFormat};

fn compact(min_tokens: usize) -> SampleFormat {
    SampleFormat { min_tokens, owner: 0, cpu: 1, memory: 2, command: 3 }
}

fn dec(s: &str) -> Option<Decimal> {
    let chars: Vec<char> = s.chars().collect();
    parse_decimal(&chars, 0, chars.len())
}

#[test]
fn two_records_in_order() {
    let out = parse_samples("alice 1.2 3.4 /bin/x\nbob 0.1 0.2 /bin/y\n", compact(3));
    assert_eq!(out.len(), 2);
    assert_eq!(out[0].owner, "alice");
    assert_eq!(out[1].owner, "bob");
    assert_eq!(out[0].cpu_percent, Decimal { mantissa: 12, scale: 1 });
    assert_eq!(out[0].memory_percent, Decimal { mantissa: 34, scale: 1 });
    assert_eq!(out[0].command_line, "/bin/x");
    assert_eq!(out[1].command_line, "/bin/y");
}

#[test]
fn short_lines_are_skipped_and_order_kept() {
    let text = "header\nUSER CPU\ncarol 5 6 /usr/bin/a --flag\n\n  dave\t7.25   8 b c  \ntruncated 1\n";
    let out = parse_samples(text, compact(3));
    assert_eq!(out.len(), 2);
    assert_eq!(out[0].owner, "carol");
    assert_eq!(out[0].command_line, "/usr/bin/a --flag");
    assert_eq!(out[1].owner, "dave");
    assert_eq!(out[1].cpu_percent, Decimal { mantissa: 725, scale: 2 });
    assert_eq!(out[1].command_line, "b c");
}

#[test]
fn count_equals_long_lines_when_fields_parse() {
    let lines = ["USER %CPU", "a 1 2 x", "b", "c 3.5 4 y z", "d 0 0", "e f"];
    let text = lines.join("\n");
    let long = lines.iter().filter(|l| l.split_whitespace().count() >= 3).count();
    assert_eq!(parse_samples(&text, compact(3)).len(), long);
}

#[test]
fn unreadable_numbers_skip_the_line_only() {
    let text = "USER %CPU %MEM COMMAND\nerin x 1 cmd\nfrank 1 2 cmd\n";
    let out = parse_samples(text, compact(3));
    assert_eq!(out.len(), 1);
    assert_eq!(out[0].owner, "frank");
}

#[test]
fn line_with_minimum_words_has_empty_command() {
    let out = parse_samples("gina 1 2", compact(3));
    assert_eq!(out.len(), 1);
    assert_eq!(out[0].command_line, "");
}

#[test]
fn empty_text_gives_nothing() {
    assert!(parse_samples("", compact(3)).is_empty());
    assert!(parse_samples("\n\n", compact(0)).is_empty());
}

#[test]
fn ps_aux_layout() {
    let text = "USER PID %CPU %MEM VSZ RSS TTY STAT START TIME COMMAND\n\
root 1 0.5 1.0 1000 200 ? Ss 10:00 0:01 /sbin/init splash\n";
    let out = parse_samples(text, SampleFormat::ps_aux());
    assert_eq!(out.len(), 1);
    assert_eq!(out[0].owner, "root");
    assert_eq!(out[0].cpu_percent, Decimal { mantissa: 5, scale: 1 });
    assert_eq!(out[0].memory_percent, Decimal { mantissa: 10, scale: 1 });
    assert_eq!(out[0].command_line, "/sbin/init splash");
}

#[test]
fn decimals() {
    assert_eq!(dec("0"), Some(Decimal { mantissa: 0, scale: 0 }));
    assert_eq!(dec("12.50"), Some(Decimal { mantissa: 1250, scale: 2 }));
    assert_eq!(dec("18446744073709551615"), Some(Decimal { mantissa: u64::MAX, scale: 0 }));
    assert_eq!(dec("1844674407370955161.5"), Some(Decimal { mantissa: u64::MAX, scale: 1 }));
    assert_eq!(dec("18446744073709551616"), None);
    assert_eq!(dec(""), None);
    assert_eq!(dec(".5"), None);
    assert_eq!(dec("5."), None);
    assert_eq!(dec("1.2.3"), None);
    assert_eq!(dec("-1"), None);
    assert_eq!(dec("1e3"), None);
}

#[test]
fn unicode_spaces_separate_words() {
    let out = parse_samples("hana\u{a0}1\u{3000}2\u{2009}/bin/z", compact(3));
    assert_eq!(out.len(), 1);
    assert_eq!(out[0].owner, "hana");
    assert_eq!(out[0].command_line, "/bin/z");
}

#[test]
fn layouts_must_hold_their_fields() {
    assert_eq!(SampleFormat::new(3, 0, 1, 2, 3), Some(compact(3)));
    assert_eq!(SampleFormat::new(2, 0, 1, 2, 3), None);
    assert_eq!(SampleFormat::new(0, 0, 0, 0, 0), None);
}
