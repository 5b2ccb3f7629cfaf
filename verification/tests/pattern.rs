use fz_bot::pattern::{find_address, find_post};

fn address(line: &str) -> Option<String> {
    find_address(line)
}

#[test]
fn address_in_a_line() {
    assert_eq!(
        address("Hosting: selecting connection 10.0.0.1:34197 now"),
        Some("10.0.0.1:34197".to_string())
    );
    assert_eq!(
        address("selecting connection 1.2.3.4:5"),
        Some("1.2.3.4:5".to_string())
    );
    assert_eq!(
        address("selecting connection 1.2.3.4:567x"),
        Some("1.2.3.4:567".to_string())
    );
}

#[test]
fn first_address_counts() {
    assert_eq!(
        address("selecting connection 1.2.3:4 selecting connection 5.6.7.8:9 selecting connection 1.1.1.1:1"),
        Some("5.6.7.8:9".to_string())
    );
}

#[test]
fn lines_without_address() {
    assert_eq!(address(""), None);
    assert_eq!(address("selecting connection 1.2.3.4"), None);
    assert_eq!(address("selecting connection 1.2.3.4:"), None);
    assert_eq!(address("selecting connection  1.2.3.4:5"), None);
    assert_eq!(address("Selecting connection 1.2.3.4:5"), None);
    assert_eq!(address("selecting connection 1..3.4:5"), None);
    assert_eq!(address("selecting connection .2.3.4:5"), None);
    assert_eq!(address("1.2.3.4:5"), None);
}

#[test]
fn digits_of_other_scripts_count() {
    assert_eq!(
        address("selecting connection \u{0661}.2.3.4:\u{0665}6"),
        Some("\u{0661}.2.3.4:\u{0665}6".to_string())
    );
    assert_eq!(address("selecting connection \u{00b2}.2.3.4:5"), None);
}

#[test]
fn links_of_posts() {
    assert_eq!(find_post("factoriobin.com/post/abc"), Some("abc".to_string()));
    assert_eq!(find_post("http://factoriobin.com/post/abc"), Some("abc".to_string()));
    assert_eq!(find_post("https://factoriobin.com/post/a/b?c#d"), Some("a/b?c#d".to_string()));
    assert_eq!(find_post("https://factoriobin.com/post/я 1\r"), Some("я 1\r".to_string()));
}

#[test]
fn other_messages_hold_no_link() {
    assert_eq!(find_post(""), None);
    assert_eq!(find_post("factoriobin.com/post/"), None);
    assert_eq!(find_post("ftp://factoriobin.com/post/abc"), None);
    assert_eq!(find_post("see factoriobin.com/post/abc"), None);
    assert_eq!(find_post("factoriobinxcom/post/abc"), None);
    assert_eq!(find_post("factoriobin.com/post/abc\n"), None);
    assert_eq!(find_post("factoriobin.com/post/abc\ndef"), None);
    assert_eq!(find_post("http://https://factoriobin.com/post/abc"), None);
    assert_eq!(find_post("https:/factoriobin.com/post/abc"), None);
}
