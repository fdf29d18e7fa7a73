use acoustic_modem::log::{finish, init, write_keyvalue, write_log};

#[test]
fn empty_log_holds_the_closing_entry() {
    assert_eq!(finish(init()), "\"last\":\"\"}");
}

#[test]
fn text_is_appended_as_it_stands() {
    let mut log = init();
    write_log(&mut log, "{");
    write_log(&mut log, "");
    write_log(&mut log, "\"transmit\": [1, 2],");
    assert_eq!(finish(log), "{\"transmit\": [1, 2],\"last\":\"\"}");
}

#[test]
fn entries_quote_the_key_and_end_in_a_comma() {
    let mut log = init();
    write_keyvalue(&mut log, "baud", "40.0");
    assert_eq!(finish(log), "\"baud\": 40.0,\"last\":\"\"}");
}

#[test]
fn a_run_reads_as_one_object() {
    let mut log = init();
    write_log(&mut log, "{");
    write_keyvalue(&mut log, "baud", &format!("{:?}", 40.0f32));
    write_keyvalue(&mut log, "frequency", &format!("{:?}", 250u32));
    write_keyvalue(&mut log, "li", &format!("{:?}", &[1i16, -2, 3][..]));
    assert_eq!(
        finish(log),
        "{\"baud\": 40.0,\"frequency\": 250,\"li\": [1, -2, 3],\"last\":\"\"}"
    );
}

#[test]
fn empty_key_and_value_still_make_an_entry() {
    let mut log = init();
    write_keyvalue(&mut log, "", "");
    assert_eq!(finish(log), "\"\": ,\"last\":\"\"}");
}
