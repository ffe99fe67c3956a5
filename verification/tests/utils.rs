use aa_module::utils::{
    aa_get_modules, get_string, get_vec, modules_url, receive, FetchError, TransferStep,
};

#[test]
fn get_string_decodes_utf8() {
    let bytes = "{\"wasm_url\": []}".as_bytes().to_vec();
    assert_eq!(
        get_string(Ok(bytes)),
        Ok(String::from("{\"wasm_url\": []}"))
    );
}

#[test]
fn get_string_decodes_text_beyond_ascii() {
    let bytes = vec![0x63, 0x61, 0x66, 0xc3, 0xa9, 0x20, 0xe2, 0x82, 0xac, 0xf0, 0x9f, 0x8e, 0xb5];
    let text = get_string(Ok(bytes)).unwrap();
    assert_eq!(text, "caf\u{e9} \u{20ac}\u{1f3b5}");
    assert_eq!(text.chars().count(), 7);
}

#[test]
fn get_string_of_no_bytes_is_empty() {
    assert_eq!(get_string(Ok(Vec::new())), Ok(String::new()));
}

#[test]
fn get_string_rejects_bytes_that_are_not_utf8() {
    assert_eq!(get_string(Ok(vec![0xff, 0xfe])), Err(FetchError::FromUtf8));
    assert_eq!(get_string(Ok(vec![0x61, 0xc3])), Err(FetchError::FromUtf8));
    assert_eq!(
        get_string(Ok(vec![0xed, 0xa0, 0x80])),
        Err(FetchError::FromUtf8)
    );
    assert_eq!(get_string(Ok(vec![0xc0, 0x80])), Err(FetchError::FromUtf8));
}

#[test]
fn get_string_turns_every_fetch_error_into_get_url() {
    assert_eq!(get_string(Err(FetchError::Url)), Err(FetchError::GetUrl));
    assert_eq!(
        get_string(Err(FetchError::Transfer)),
        Err(FetchError::GetUrl)
    );
    assert_eq!(get_string(Err(FetchError::GetUrl)), Err(FetchError::GetUrl));
    assert_eq!(
        get_string(Err(FetchError::FromUtf8)),
        Err(FetchError::GetUrl)
    );
}

#[test]
fn get_vec_hands_the_data_back_after_a_full_transfer() {
    assert_eq!(get_vec(None, vec![1, 2, 3]), Ok(vec![1, 2, 3]));
    assert_eq!(get_vec(None, Vec::new()), Ok(Vec::new()));
}

#[test]
fn get_vec_names_the_step_that_gave_up() {
    assert_eq!(
        get_vec(Some(TransferStep::Url), Vec::new()),
        Err(FetchError::Url)
    );
    assert_eq!(
        get_vec(Some(TransferStep::WriteFunction), Vec::new()),
        Err(FetchError::Transfer)
    );
    assert_eq!(
        get_vec(Some(TransferStep::Perform), vec![9, 9]),
        Err(FetchError::Transfer)
    );
}

#[test]
fn receive_appends_and_takes_everything() {
    let mut data = vec![1u8, 2];
    assert_eq!(receive(&mut data, &[3, 4, 5]), 3);
    assert_eq!(data, vec![1, 2, 3, 4, 5]);
    assert_eq!(receive(&mut data, &[]), 0);
    assert_eq!(data, vec![1, 2, 3, 4, 5]);
}

#[test]
fn fetched_pieces_make_up_the_text() {
    let mut data = Vec::new();
    receive(&mut data, "{\"default\":".as_bytes());
    receive(&mut data, "\"synth\"}".as_bytes());
    assert_eq!(
        get_string(get_vec(None, data)),
        Ok(String::from("{\"default\":\"synth\"}"))
    );
}

#[test]
fn error_messages() {
    assert_eq!(FetchError::Url.message(), "URL failed");
    assert_eq!(FetchError::Transfer.message(), "Transfer failed");
    assert_eq!(FetchError::GetUrl.message(), "Get URL failed");
    assert_eq!(FetchError::FromUtf8.message(), "From UTF8");
}

#[test]
fn modules_url_joins_with_a_slash() {
    assert_eq!(
        modules_url("http://127.0.0.1:8000"),
        "http://127.0.0.1:8000/modules.json"
    );
    assert_eq!(modules_url(""), "/modules.json");
    assert_eq!(modules_url("base/"), "base//modules.json");
}

#[test]
fn module_listing_is_the_fetched_text() {
    let listing = "{\"default\":\"a\",\"modules\":[]}";
    assert_eq!(
        aa_get_modules(Ok(listing.as_bytes().to_vec())),
        Some(String::from(listing))
    );
}

#[test]
fn module_listing_is_nothing_where_the_fetch_failed() {
    assert_eq!(aa_get_modules(Err(FetchError::Transfer)), None);
    assert_eq!(aa_get_modules(Err(FetchError::Url)), None);
    assert_eq!(aa_get_modules(Ok(vec![0x80])), None);
}
