use ftp_client::bytes::{find, split_fields, strip_line_end};
use ftp_client::command::{bare_line, command_line, raw_line, Verb};
use ftp_client::error::{Error, ErrorKind, AddressFault, NumericFault};
use ftp_client::listing::list_names;
use ftp_client::number::{parse_octet, parse_port_part};
use ftp_client::pasv::{parse_endpoint, PassiveEndpoint};
use ftp_client::text::decode;
use ftp_client::reply::{
    classify, full_text, is_data_conn_open, quoted_path, rejection, reply_class, reply_code,
    reply_tail, reply_text, ReplyClass, ReplyKind,
};

fn endpoint(h1: u8, h2: u8, h3: u8, h4: u8, port: u16) -> PassiveEndpoint {
    PassiveEndpoint { h1, h2, h3, h4, port }
}

#[test]
fn reply_code_is_the_first_three_digits() {
    assert_eq!(reply_code(b"220 ready"), Some(220));
    assert_eq!(reply_code(b"000"), Some(0));
    assert_eq!(reply_code(b"999-more"), Some(999));
    assert_eq!(reply_code(b"2301 odd"), Some(230));
}

#[test]
fn reply_code_needs_three_digits() {
    assert_eq!(reply_code(b""), None);
    assert_eq!(reply_code(b"22"), None);
    assert_eq!(reply_code(b"2x0 ready"), None);
    assert_eq!(reply_code(b" 220"), None);
    assert_eq!(reply_code(b"\xff\xfe\xfd"), None);
}

#[test]
fn reply_class_goes_by_the_first_digit() {
    assert_eq!(reply_class(b"150 go"), Some(ReplyClass::Preliminary));
    assert_eq!(reply_class(b"100"), Some(ReplyClass::Preliminary));
    assert_eq!(reply_class(b"226 done"), Some(ReplyClass::Success));
    assert_eq!(reply_class(b"299"), Some(ReplyClass::Success));
    assert_eq!(reply_class(b"350 more"), Some(ReplyClass::Intermediate));
    assert_eq!(reply_class(b"421 busy"), Some(ReplyClass::TransientFailure));
    assert_eq!(reply_class(b"550 no"), Some(ReplyClass::PermanentFailure));
    assert_eq!(reply_class(b"599"), Some(ReplyClass::PermanentFailure));
    assert_eq!(reply_class(b"099"), None);
    assert_eq!(reply_class(b"600"), None);
    assert_eq!(reply_class(b"hello"), None);
}

#[test]
fn classify_knows_every_code_of_the_client() {
    assert_eq!(classify(b"220 hi"), ReplyKind::ServiceReady);
    assert_eq!(classify(b"331 pw"), ReplyKind::NeedPassword);
    assert_eq!(classify(b"230 ok"), ReplyKind::LoggedIn);
    assert_eq!(classify(b"530 no"), ReplyKind::NotLoggedIn);
    assert_eq!(classify(b"227 (1,2,3,4,5,6)"), ReplyKind::EnteringPassive);
    assert_eq!(classify(b"150 go"), ReplyKind::OpeningData);
    assert_eq!(classify(b"226 done"), ReplyKind::ClosingData);
    assert_eq!(classify(b"257 \"/\""), ReplyKind::Pathname);
    assert_eq!(classify(b"250 ok"), ReplyKind::FileActionDone);
    assert_eq!(classify(b"350 more"), ReplyKind::NeedFurtherInfo);
    assert_eq!(classify(b"221 bye"), ReplyKind::ServiceClosing);
}

#[test]
fn classify_sorts_the_rest_as_other() {
    assert_eq!(classify(b"500 what"), ReplyKind::Other);
    assert_eq!(classify(b"hello"), ReplyKind::Other);
    assert_eq!(classify(b""), ReplyKind::Other);
}

#[test]
fn data_connection_opens_on_150_and_226() {
    assert!(is_data_conn_open("150 Opening data connection"));
    assert!(is_data_conn_open("226 Transfer complete"));
    assert!(!is_data_conn_open("550 No such file"));
    assert!(!is_data_conn_open("15"));
    assert!(!is_data_conn_open(""));
}

#[test]
fn reply_tail_drops_code_and_separator() {
    assert_eq!(reply_tail(b"550 No such file\r\n"), b"No such file\r\n");
    assert_eq!(reply_tail(b"550-first"), b"first");
    assert_eq!(reply_tail(b"550 "), b"");
    assert_eq!(reply_tail(b"550"), b"");
    assert_eq!(reply_tail(b""), b"");
}

#[test]
fn reply_text_is_the_tail_as_text() {
    assert_eq!(reply_text(b"550 No such file\r\n"), "No such file\r\n");
    assert_eq!(reply_text(b"550"), "");
}

#[test]
fn reply_text_replaces_what_is_not_utf8() {
    assert_eq!(reply_text(b"550 caf\xe9 closed"), "caf\u{fffd} closed");
    assert_eq!(full_text(b"\xff"), "\u{fffd}");
    assert_eq!(reply_text("550 目录不存在".as_bytes()), "目录不存在");
}

#[test]
fn quoted_path_is_what_stands_between_the_quotes() {
    assert_eq!(quoted_path(b"257 \"/home/bob\""), "/home/bob");
    assert_eq!(quoted_path(b"257 \"/home/bob\"\r\n"), "/home/bob");
    assert_eq!(quoted_path(b"257 \"/home/bob\" is current directory\r\n"), "/home/bob");
    assert_eq!(quoted_path(b"257 PWD: \"/\" ok\r\n"), "/");
    assert_eq!(quoted_path(b"257 \"\"\r\n"), "");
    assert_eq!(quoted_path("257 \"/目录\"\r\n".as_bytes()), "/目录");
}

#[test]
fn quoted_path_ends_at_the_second_quote() {
    assert_eq!(quoted_path(b"257 \"/a\" and \"/b\"\r\n"), "/a");
    assert_eq!(quoted_path(b"257 \"\"/\"\""), "");
}

#[test]
fn quoted_path_without_second_quote_runs_to_the_end_of_the_line() {
    assert_eq!(quoted_path(b"257 \"/home/bob\r\n"), "/home/bob");
    assert_eq!(quoted_path(b"257 \"/home/bob"), "/home/bob");
    assert_eq!(quoted_path(b"257 \""), "");
}

#[test]
fn quoted_path_without_quotes_is_the_text_without_line_end() {
    assert_eq!(quoted_path(b"257 /plain\r\n"), "/plain");
    assert_eq!(quoted_path(b"257 /plain\n"), "/plain");
    assert_eq!(quoted_path(b"257 /plain"), "/plain");
    assert_eq!(quoted_path(b"257 /plain is current\r\n"), "/plain is current");
    assert_eq!(quoted_path(b"257 \r\n"), "");
    assert_eq!(quoted_path(b"257"), "");
    assert_eq!(quoted_path(b""), "");
}

#[test]
fn find_gives_the_first_place_or_the_length() {
    assert_eq!(find(b"a\"b\"", 0, b'"'), 1);
    assert_eq!(find(b"a\"b\"", 1, b'"'), 1);
    assert_eq!(find(b"a\"b\"", 2, b'"'), 3);
    assert_eq!(find(b"a\"b\"", 4, b'"'), 4);
    assert_eq!(find(b"abc", 0, b'"'), 3);
    assert_eq!(find(b"", 0, b'"'), 0);
}

#[test]
fn strip_line_end_takes_one_line_end_away() {
    assert_eq!(strip_line_end(b"abc\r\n"), b"abc");
    assert_eq!(strip_line_end(b"abc\n"), b"abc");
    assert_eq!(strip_line_end(b"abc\r"), b"abc");
    assert_eq!(strip_line_end(b"abc"), b"abc");
    assert_eq!(strip_line_end(b"abc\r\n\r\n"), b"abc\r\n");
    assert_eq!(strip_line_end(b"abc\n\r"), b"abc\n");
    assert_eq!(strip_line_end(b"\r\n"), b"");
    assert_eq!(strip_line_end(b""), b"");
}

#[test]
fn decode_keeps_valid_text_and_replaces_the_rest() {
    assert_eq!(decode(b"plain"), "plain");
    assert_eq!(decode("目录 ü".as_bytes()), "目录 ü");
    assert_eq!(decode(b""), "");
    assert_eq!(decode(b"a\xffb"), "a\u{fffd}b");
    assert_eq!(decode(b"\xe7\x9b"), "\u{fffd}");
}

#[test]
fn split_fields_cuts_at_every_delimiter() {
    assert_eq!(split_fields(b"a,b,c", b','), vec![b"a".to_vec(), b"b".to_vec(), b"c".to_vec()]);
    assert_eq!(split_fields(b"", b','), vec![Vec::<u8>::new()]);
    assert_eq!(split_fields(b",", b','), vec![Vec::<u8>::new(), Vec::<u8>::new()]);
    assert_eq!(split_fields(b"a,,b,", b','), vec![
        b"a".to_vec(),
        Vec::new(),
        b"b".to_vec(),
        Vec::new()
    ]);
    assert_eq!(split_fields(b"abc", b','), vec![b"abc".to_vec()]);
}

#[test]
fn port_part_reads_decimal() {
    assert_eq!(parse_port_part(b"0"), Ok(0));
    assert_eq!(parse_port_part(b"4"), Ok(4));
    assert_eq!(parse_port_part(b"255"), Ok(255));
    assert_eq!(parse_port_part(b"65535"), Ok(65535));
    assert_eq!(parse_port_part(b"+17"), Ok(17));
    assert_eq!(parse_port_part(b"00000000000000000042"), Ok(42));
}

#[test]
fn port_part_names_the_fault() {
    assert_eq!(parse_port_part(b""), Err(NumericFault::Empty));
    assert_eq!(parse_port_part(b"+"), Err(NumericFault::InvalidDigit));
    assert_eq!(parse_port_part(b"-1"), Err(NumericFault::InvalidDigit));
    assert_eq!(parse_port_part(b"1 "), Err(NumericFault::InvalidDigit));
    assert_eq!(parse_port_part(b"++1"), Err(NumericFault::InvalidDigit));
    assert_eq!(parse_port_part(b"12a"), Err(NumericFault::InvalidDigit));
    assert_eq!(parse_port_part(b"65536"), Err(NumericFault::Overflow));
    assert_eq!(parse_port_part(b"99999999999999999999999"), Err(NumericFault::Overflow));
    assert_eq!(parse_port_part(b"99999999999x"), Err(NumericFault::InvalidDigit));
}

#[test]
fn octet_reads_0_to_255_without_leading_zero() {
    assert_eq!(parse_octet(b"0"), Some(0));
    assert_eq!(parse_octet(b"7"), Some(7));
    assert_eq!(parse_octet(b"10"), Some(10));
    assert_eq!(parse_octet(b"255"), Some(255));
    assert_eq!(parse_octet(b"256"), None);
    assert_eq!(parse_octet(b"999"), None);
    assert_eq!(parse_octet(b"00"), None);
    assert_eq!(parse_octet(b"01"), None);
    assert_eq!(parse_octet(b"1000"), None);
    assert_eq!(parse_octet(b""), None);
    assert_eq!(parse_octet(b"+1"), None);
    assert_eq!(parse_octet(b"1a"), None);
}

#[test]
fn passive_reply_names_host_and_port() {
    assert_eq!(
        parse_endpoint(b"227 Entering Passive Mode (127,0,0,1,4,1)\r\n"),
        Ok(endpoint(127, 0, 0, 1, 1025))
    );
    assert_eq!(
        parse_endpoint(b"227 Entering Passive Mode (192,168,1,2,19,137)"),
        Ok(endpoint(192, 168, 1, 2, 19 * 256 + 137))
    );
    assert_eq!(parse_endpoint(b"227 (0,0,0,0,0,0)"), Ok(endpoint(0, 0, 0, 0, 0)));
    assert_eq!(
        parse_endpoint(b"227 (255,255,255,255,255,255)"),
        Ok(endpoint(255, 255, 255, 255, 65535))
    );
}

#[test]
fn passive_reply_port_is_high_times_256_plus_low() {
    assert_eq!(parse_endpoint(b"227 (10,0,0,1,1,0)"), Ok(endpoint(10, 0, 0, 1, 256)));
    assert_eq!(parse_endpoint(b"227 (10,0,0,1,0,21)"), Ok(endpoint(10, 0, 0, 1, 21)));
    assert_eq!(parse_endpoint(b"227 (10,0,0,1,0,65535)"), Ok(endpoint(10, 0, 0, 1, 65535)));
    assert_eq!(parse_endpoint(b"227 (10,0,0,1,+4,+1)"), Ok(endpoint(10, 0, 0, 1, 1025)));
}

#[test]
fn passive_reply_group_ends_at_next_parenthesis_or_at_the_end() {
    assert_eq!(parse_endpoint(b"227 ok (1,2,3,4,5,6"), Ok(endpoint(1, 2, 3, 4, 5 * 256 + 6)));
    assert_eq!(parse_endpoint(b"(1,2,3,4,5,6) (9,9,9,9,9,9)"), Ok(endpoint(1, 2, 3, 4, 1286)));
    assert_eq!(parse_endpoint(b"227 )1,2,3,4,5,6("), Ok(endpoint(1, 2, 3, 4, 1286)));
}

#[test]
fn passive_reply_without_group_is_malformed() {
    assert_eq!(
        parse_endpoint(b"227 Entering Passive Mode 127,0,0,1,4,1"),
        Err(Error::AddressParse(AddressFault::NoGroup))
    );
    assert_eq!(parse_endpoint(b""), Err(Error::AddressParse(AddressFault::NoGroup)));
}

#[test]
fn passive_reply_needs_exactly_six_fields() {
    let malformed = Err(Error::AddressParse(AddressFault::FieldCount));
    assert_eq!(parse_endpoint(b"227 (127,0,0,1,4)"), malformed);
    assert_eq!(parse_endpoint(b"227 ()"), malformed);
    assert_eq!(parse_endpoint(b"227 ("), malformed);
    assert_eq!(parse_endpoint(b"227 (127,0,0,1,4,1,9)"), malformed);
}

#[test]
fn passive_reply_with_bad_port_is_a_numeric_error() {
    assert_eq!(
        parse_endpoint(b"227 (127,0,0,1,x,1)"),
        Err(Error::NumericParse(NumericFault::InvalidDigit))
    );
    assert_eq!(
        parse_endpoint(b"227 (127,0,0,1,4,)"),
        Err(Error::NumericParse(NumericFault::Empty))
    );
    assert_eq!(
        parse_endpoint(b"227 (127,0,0,1,70000,1)"),
        Err(Error::NumericParse(NumericFault::Overflow))
    );
    assert_eq!(
        parse_endpoint(b"227 (127,0,0,1,256,0)"),
        Err(Error::NumericParse(NumericFault::Overflow))
    );
    assert_eq!(
        parse_endpoint(b"227 (127,0,0,1,255,256)"),
        Err(Error::NumericParse(NumericFault::Overflow))
    );
    assert_eq!(
        parse_endpoint(b"227 (127,0,0,1, 4,1)"),
        Err(Error::NumericParse(NumericFault::InvalidDigit))
    );
}

#[test]
fn passive_reply_with_bad_host_is_an_address_error() {
    let host = Err(Error::AddressParse(AddressFault::Host));
    assert_eq!(parse_endpoint(b"227 (256,0,0,1,4,1)"), host);
    assert_eq!(parse_endpoint(b"227 (127,00,0,1,4,1)"), host);
    assert_eq!(parse_endpoint(b"227 (127,0,,1,4,1)"), host);
    assert_eq!(parse_endpoint(b"227 (127,0,0,a,4,1)"), host);
    assert_eq!(parse_endpoint(b"227 (+127,0,0,1,4,1)"), host);
}

#[test]
fn passive_reply_port_is_read_before_host() {
    assert_eq!(
        parse_endpoint(b"227 (999,0,0,1,x,1)"),
        Err(Error::NumericParse(NumericFault::InvalidDigit))
    );
    assert_eq!(
        parse_endpoint(b"227 (999,0,0,1,4,)"),
        Err(Error::NumericParse(NumericFault::Empty))
    );
}

#[test]
fn listing_is_one_name_per_line_in_server_order() {
    assert_eq!(list_names(b"b.txt\na.txt\nc\n"), vec!["b.txt", "a.txt", "c"]);
    assert_eq!(list_names(b"only"), vec!["only"]);
}

#[test]
fn listing_without_data_is_empty() {
    assert_eq!(list_names(b""), Vec::<String>::new());
    assert_eq!(list_names(b"\n"), Vec::<String>::new());
    assert_eq!(list_names(b"\n\n\n"), Vec::<String>::new());
}

#[test]
fn listing_drops_only_the_empty_entries_at_the_end() {
    assert_eq!(list_names(b"a\n\nb\n\n\n"), vec!["a", "", "b"]);
    assert_eq!(list_names(b"\na"), vec!["", "a"]);
}

#[test]
fn listing_splits_on_line_feed_alone() {
    assert_eq!(list_names(b"a.txt\r\nb.txt\r\n"), vec!["a.txt\r", "b.txt\r"]);
}

#[test]
fn listing_replaces_what_is_not_utf8() {
    assert_eq!(list_names(b"caf\xe9\nok\n"), vec!["caf\u{fffd}", "ok"]);
}

#[test]
fn command_line_is_word_space_argument_crlf() {
    assert_eq!(command_line(Verb::User, "bob"), b"USER bob\r\n");
    assert_eq!(command_line(Verb::Pass, "x"), b"PASS x\r\n");
    assert_eq!(command_line(Verb::Nlst, "/pub"), b"NLST /pub\r\n");
    assert_eq!(command_line(Verb::Retr, "a.txt"), b"RETR a.txt\r\n");
    assert_eq!(command_line(Verb::Stor, "a.txt"), b"STOR a.txt\r\n");
    assert_eq!(command_line(Verb::Cwd, "dir"), b"CWD dir\r\n");
    assert_eq!(command_line(Verb::Dele, "f"), b"DELE f\r\n");
    assert_eq!(command_line(Verb::Mkd, "d"), b"MKD d\r\n");
    assert_eq!(command_line(Verb::Rmd, "d"), b"RMD d\r\n");
    assert_eq!(command_line(Verb::Rnfr, "a"), b"RNFR a\r\n");
    assert_eq!(command_line(Verb::Rnto, "b"), b"RNTO b\r\n");
    assert_eq!(command_line(Verb::Nlst, ""), b"NLST \r\n");
    assert_eq!(command_line(Verb::Cwd, "目录"), "CWD 目录\r\n".as_bytes());
}

#[test]
fn bare_line_is_word_crlf() {
    assert_eq!(bare_line(Verb::Pasv), b"PASV\r\n");
    assert_eq!(bare_line(Verb::Pwd), b"PWD\r\n");
    assert_eq!(bare_line(Verb::Quit), b"QUIT\r\n");
}

#[test]
fn raw_line_appends_crlf() {
    assert_eq!(raw_line(b"NOOP"), b"NOOP\r\n");
    assert_eq!(raw_line(b""), b"\r\n");
    assert_eq!(raw_line(b"SITE \xff"), b"SITE \xff\r\n");
}

#[test]
fn error_kind_and_message() {
    let io = Error::Io("connection reset".to_string());
    assert_eq!(io.kind(), ErrorKind::Io);
    assert_eq!(io.message(), "connection reset");
    let server = Error::Server("No such file".to_string());
    assert_eq!(server.kind(), ErrorKind::Server);
    assert_eq!(server.message(), "No such file");
    let host = Error::AddressParse(AddressFault::Host);
    assert_eq!(host.kind(), ErrorKind::AddressParse);
    assert_eq!(host.message(), "invalid IP address syntax");
    let group = Error::AddressParse(AddressFault::NoGroup);
    assert_eq!(group.kind(), ErrorKind::AddressParse);
    assert_eq!(group.message(), "PASV 响应格式错误");
    assert_eq!(Error::AddressParse(AddressFault::FieldCount).message(), "PASV 响应地址部分格式错误");
    let empty = Error::NumericParse(NumericFault::Empty);
    assert_eq!(empty.kind(), ErrorKind::NumericParse);
    assert_eq!(empty.message(), "cannot parse integer from empty string");
    assert_eq!(
        Error::NumericParse(NumericFault::InvalidDigit).message(),
        "invalid digit found in string"
    );
    assert_eq!(
        Error::NumericParse(NumericFault::Overflow).message(),
        "number too large to fit in target type"
    );
}

#[test]
fn error_builders_take_the_text() {
    assert_eq!(Error::server("a"), Error::Server("a".to_string()));
    assert_eq!(Error::io("c"), Error::Io("c".to_string()));
}

#[test]
fn rejection_carries_the_servers_text() {
    assert_eq!(rejection(b"550 No such file\r\n"), Error::Server("No such file\r\n".to_string()));
    assert_eq!(rejection(b"421"), Error::Server(String::new()));
    assert_eq!(rejection(b"550 \xff"), Error::Server("\u{fffd}".to_string()));
}
