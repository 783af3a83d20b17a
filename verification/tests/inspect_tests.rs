use bunny_bot::inspect::{get_hostname, inspect};
use bunny_bot::types::PreviewError;

#[test]
fn get_hostname_of_absolute_urls() {
    assert_eq!(get_hostname("https://github.com/rust-lang/rust"), Some(String::from("github.com")));
    assert_eq!(
        get_hostname("https://www.reddit.com/r/x/comments/1/title/"),
        Some(String::from("www.reddit.com"))
    );
    assert_eq!(get_hostname("http://example.com"), Some(String::from("example.com")));
    assert_eq!(get_hostname("https://127.0.0.1/index.html"), Some(String::from("127.0.0.1")));
    assert_eq!(get_hostname("ftp://rms@example.com"), Some(String::from("example.com")));
}

#[test]
fn get_hostname_is_the_host_and_not_the_input() {
    let link = "https://GitHub.com:443/a/b?x=1#y";
    assert_eq!(get_hostname(link), Some(String::from("github.com")));
    assert_ne!(get_hostname(link), Some(String::from(link)));
}

#[test]
fn get_hostname_of_what_is_no_url() {
    assert_eq!(get_hostname(""), None);
    assert_eq!(get_hostname("not a url"), None);
    assert_eq!(get_hostname("github.com/rust-lang/rust"), None);
    assert_eq!(get_hostname("//github.com/a/b"), None);
    assert_eq!(get_hostname("https://"), None);
}

#[test]
fn get_hostname_of_urls_without_a_host() {
    assert_eq!(get_hostname("data:text/plain,Stuff"), None);
    assert_eq!(get_hostname("unix:/run/foo.socket"), None);
    assert_eq!(get_hostname("mailto:someone@example.com"), None);
}

#[test]
fn inspect_keeps_the_input_and_the_host() {
    let url = inspect("https://github.com/rust-lang/rust").unwrap();
    assert_eq!(url.raw, "https://github.com/rust-lang/rust");
    assert_eq!(url.host, "github.com");
}

#[test]
fn inspect_rejects_what_is_no_url() {
    for raw in ["", "hello", "github.com", "data:text/plain,Stuff", "https://"] {
        assert_eq!(inspect(raw), Err(PreviewError::InvalidUrl));
    }
}

#[test]
fn inspect_accepts_hosts_of_no_provider() {
    let url = inspect("https://example.org/x").unwrap();
    assert_eq!(url.host, "example.org");
}
