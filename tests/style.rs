use termctl::decimal::push_decimal;
use termctl::{escape_prefix, style, LogLevel, Render, Style, StyleAttributes, TerminalAttribute};

const ALL: [Style; 16] = [
    Style::Red,
    Style::RedBold,
    Style::Green,
    Style::GreenBold,
    Style::Blue,
    Style::BlueBold,
    Style::Yellow,
    Style::YellowBold,
    Style::Grey,
    Style::GreyBold,
    Style::Underline,
    Style::BgRed,
    Style::BgYellow,
    Style::BgGreen,
    Style::BgCyan,
    Style::BgGrey,
];

#[test]
fn prefixes_are_exact() {
    let expected = [
        "\x1b[0;31m",
        "\x1b[1;31m",
        "\x1b[0;32m",
        "\x1b[1;32m",
        "\x1b[34m",
        "\x1b[1;34m",
        "\x1b[0;33m",
        "\x1b[1;33m",
        "\x1b[90m",
        "\x1b[1;90m",
        "\x1b[4m",
        "\x1b[41m",
        "\x1b[43m",
        "\x1b[42m",
        "\x1b[46m",
        "\x1b[47m",
    ];
    for (s, e) in ALL.iter().zip(expected.iter()) {
        assert_eq!(escape_prefix(*s), *e);
    }
}

#[test]
fn prefixes_are_distinct() {
    for (i, a) in ALL.iter().enumerate() {
        for (j, b) in ALL.iter().enumerate() {
            if i != j {
                assert_ne!(escape_prefix(*a), escape_prefix(*b));
            }
        }
    }
}

#[test]
fn styled_layout_for_every_style() {
    for s in ALL.iter() {
        let r = style(*s, "payload").to_string();
        let p = escape_prefix(*s);
        assert!(r.starts_with(p.as_str()));
        assert_eq!(&r[p.len()..p.len() + 7], "payload");
        assert!(r.ends_with("\x1b[0m"));
        assert_eq!(r.len(), p.len() + 7 + 4);
    }
}

#[test]
fn red_str() {
    assert_eq!("hello".red().to_string(), "\x1b[0;31mhello\x1b[0m");
}

#[test]
fn named_methods_match_styles() {
    let v = "x";
    assert_eq!(v.red_bold().to_string(), style(Style::RedBold, v).to_string());
    assert_eq!(v.green().to_string(), "\x1b[0;32mx\x1b[0m");
    assert_eq!(v.green_bold().to_string(), "\x1b[1;32mx\x1b[0m");
    assert_eq!(v.blue().to_string(), "\x1b[34mx\x1b[0m");
    assert_eq!(v.blue_bold().to_string(), "\x1b[1;34mx\x1b[0m");
    assert_eq!(v.yellow().to_string(), "\x1b[0;33mx\x1b[0m");
    assert_eq!(v.yellow_bold().to_string(), "\x1b[1;33mx\x1b[0m");
    assert_eq!(v.grey().to_string(), "\x1b[90mx\x1b[0m");
    assert_eq!(v.grey_bold().to_string(), "\x1b[1;90mx\x1b[0m");
    assert_eq!(v.underline().to_string(), "\x1b[4mx\x1b[0m");
    assert_eq!(v.bg_red().to_string(), "\x1b[41mx\x1b[0m");
    assert_eq!(v.bg_yellow().to_string(), "\x1b[43mx\x1b[0m");
    assert_eq!(v.bg_green().to_string(), "\x1b[42mx\x1b[0m");
    assert_eq!(v.bg_cyan().to_string(), "\x1b[46mx\x1b[0m");
    assert_eq!(v.bg_grey().to_string(), "\x1b[47mx\x1b[0m");
}

#[test]
fn empty_payload() {
    assert_eq!(style(Style::Underline, "").to_string(), "\x1b[4m\x1b[0m");
}

#[test]
fn numeric_payloads() {
    assert_eq!(42u16.green().to_string(), "\x1b[0;32m42\x1b[0m");
    assert_eq!(0usize.blue().to_string(), "\x1b[34m0\x1b[0m");
    assert_eq!((-7i32).yellow().to_string(), "\x1b[0;33m-7\x1b[0m");
    assert_eq!(255u8.grey().to_string(), "\x1b[90m255\x1b[0m");
    assert_eq!(
        u64::MAX.underline().to_string(),
        "\x1b[4m18446744073709551615\x1b[0m"
    );
    assert_eq!(
        i64::MIN.bg_red().to_string(),
        "\x1b[41m-9223372036854775808\x1b[0m"
    );
    assert_eq!(4000000000u32.bg_cyan().to_string(), "\x1b[46m4000000000\x1b[0m");
}

#[test]
fn other_payloads() {
    assert_eq!(true.bg_green().to_string(), "\x1b[42mtrue\x1b[0m");
    assert_eq!(false.bg_grey().to_string(), "\x1b[47mfalse\x1b[0m");
    let owned = String::from("owned");
    assert_eq!(owned.bg_yellow().to_string(), "\x1b[43mowned\x1b[0m");
}

#[test]
fn nested_styles() {
    let inner = "warn".red_bold();
    assert_eq!(
        inner.underline().to_string(),
        "\x1b[4m\x1b[1;31mwarn\x1b[0m\x1b[0m"
    );
}

#[test]
fn rendering_twice_is_identical() {
    let a = style(Style::GreenBold, 17i64);
    let first = a.to_string();
    let second = a.to_string();
    assert_eq!(first, second);
    assert_eq!(style(Style::GreenBold, 17i64).to_string(), first);
}

#[test]
fn set_attr_keeps_prefix() {
    let a = <&str as StyleAttributes>::set_attr("<on>", "body");
    assert_eq!(a.attr, "<on>");
    assert_eq!(a.to_string(), "<on>body\x1b[0m");
}

#[test]
fn reset_sequence() {
    assert_eq!(TerminalAttribute::<&str>::reset_attr(), "\x1b[0m");
}

#[test]
fn render_appends() {
    let mut out = String::from("n=");
    12345u32.render_into(&mut out);
    assert_eq!(out, "n=12345");
    let mut zero = String::new();
    push_decimal(&mut zero, 0);
    assert_eq!(zero, "0");
}

#[test]
fn log_levels_compare() {
    assert_eq!(LogLevel::INFO, LogLevel::INFO);
    assert_ne!(LogLevel::WARN, LogLevel::ERROR);
}
