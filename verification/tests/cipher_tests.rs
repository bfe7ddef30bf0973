use anime_downloader::cipher::{decrypt, get_string};
use anime_downloader::errors::AnimeDownloaderError;
use anime_downloader::resolver::recover_redirect_form;

/// Builds an obfuscated payload for the given text: each character's
/// code, shifted up by `v1`, is written in base `v2` with key characters
/// as digits, and segments are closed with the key's delimiter.
fn encode(text: &str, key: &str, v1: u32, v2: usize) -> String {
    let key_chars: Vec<char> = key.chars().collect();
    let delim = key_chars[v2];
    let mut out = String::new();
    for ch in text.chars() {
        let mut n = ch as u32 + v1;
        let mut seg = String::new();
        if n == 0 {
            seg.push(key_chars[0]);
        }
        while n > 0 {
            seg.insert(0, key_chars[(n % v2 as u32) as usize]);
            n /= v2 as u32;
        }
        out.push_str(&seg);
        out.push(delim);
    }
    out
}

#[test]
fn decode_fixture_reproduces_the_expected_text() {
    // 'H' is 72, so its segment is "hc" ("7" then "2"); 'i' is 105; '!' is 33.
    let key = "abcdefghijk";
    let payload = encode("Hi!", key, 0, 10);
    assert_eq!(payload, "hckbafkddk");
    assert_eq!(decrypt(&payload, key, 0, 10).unwrap(), "Hi!");
}

#[test]
fn decode_honours_the_shift() {
    let key = "abcdefghijk";
    let payload = encode("kwik", key, 5, 10);
    assert_eq!(decrypt(&payload, key, 5, 10).unwrap(), "kwik");
}

#[test]
fn decode_with_another_key_and_longer_text() {
    let key = "qwertyuiopas";
    let text = "<form action=\"https://x/y\">";
    let payload = encode(text, key, 7, 10);
    assert_eq!(decrypt(&payload, key, 7, 10).unwrap(), text);
}

#[test]
fn unterminated_segment_is_a_parsing_error() {
    let key = "abcdefghijk";
    let err = decrypt("hckba", key, 0, 10).unwrap_err();
    assert!(matches!(err, AnimeDownloaderError::ParsingError(_)));
}

#[test]
fn delimiter_index_outside_the_key_is_a_parsing_error() {
    let err = decrypt("abc", "ab", 0, 10).unwrap_err();
    assert!(matches!(err, AnimeDownloaderError::ParsingError(_)));
}

#[test]
fn segment_below_the_shift_is_a_parsing_error() {
    let key = "abcdefghijk";
    // One segment of value 3, shifted down by 1000: no code point.
    let err = decrypt("dk", key, 1000, 10).unwrap_err();
    assert!(matches!(err, AnimeDownloaderError::ParsingError(_)));
}

#[test]
fn rebase_helper_matches_known_values() {
    assert_eq!(get_string("123", 10, 16), "7b");
    assert_eq!(get_string("123", 10, 10), "123");
    assert_eq!(get_string("", 10, 10), "0");
    assert_eq!(get_string("abc", 10, 10), "0");
    assert_eq!(get_string("7", 10, 2), "111");
    assert_eq!(get_string("255", 10, 64), "3/");
}

#[test]
fn form_recovery_end_to_end() {
    let key = "abcdefghijk";
    let form = "<form action=\"https://kwik.si/d/abc\" method=\"POST\">\
        <input type=\"hidden\" name=\"_token\" value=\"tok123\">";
    let payload = encode(form, key, 4, 10);
    let html = format!(
        "<script>eval(decode(\"{}\",56,\"{}\",4,10,2))</script>",
        payload, key
    );
    let recovered = recover_redirect_form(&html).unwrap();
    assert_eq!(recovered.url, "https://kwik.si/d/abc");
    assert_eq!(recovered.token, "tok123");
}

#[test]
fn page_without_cipher_call_is_a_parsing_error() {
    let err = recover_redirect_form("<html>no call here</html>").unwrap_err();
    assert!(matches!(err, AnimeDownloaderError::ParsingError(_)));
    assert_eq!(err.message(), "Parsing error: Could not find encryption parameters");
}
