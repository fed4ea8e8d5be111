use audio_latency::selector::{
    chars_of, lower_char, parse_args, parse_direction, parse_number, parse_period, parse_role,
    parse_selector, reads_as, split_fields, Direction, EndpointSelector, ParseError,
    ParseErrorKind, Role,
};

fn chars(text: &str) -> Vec<char> {
    text.chars().collect()
}

fn args(list: &[&str]) -> Vec<String> {
    list.iter().map(|a| a.to_string()).collect()
}

fn selector(direction: Direction, role: Role, period: Option<u32>) -> EndpointSelector {
    EndpointSelector { direction, role, explicit_period_frames: period }
}

#[test]
fn no_arguments_give_the_two_defaults() {
    let selectors = parse_args(Vec::new()).unwrap();
    assert_eq!(
        selectors,
        vec![
            selector(Direction::Render, Role::Console, None),
            selector(Direction::Capture, Role::Communications, None),
        ]
    );
    assert_eq!(selectors[0].period_frames(), 0);
    assert_eq!(selectors[1].period_frames(), 0);
}

#[test]
fn mixed_case_names_and_a_period() {
    let selectors = parse_args(args(&["eRender,eConsole,480"])).unwrap();
    assert_eq!(selectors, vec![selector(Direction::Render, Role::Console, Some(480))]);
    assert_eq!(selectors[0].period_frames(), 480);
}

#[test]
fn unknown_direction_fails() {
    assert_eq!(
        parse_args(args(&["bogus,econsole"])),
        Err(ParseError { argument: 0, kind: ParseErrorKind::UnknownDirection })
    );
}

#[test]
fn unknown_role_fails() {
    assert_eq!(
        parse_args(args(&["erender,bogus,480"])),
        Err(ParseError { argument: 0, kind: ParseErrorKind::UnknownRole })
    );
}

#[test]
fn unreadable_period_is_no_period() {
    let selectors = parse_args(args(&["erender,econsole,notanumber"])).unwrap();
    assert_eq!(selectors, vec![selector(Direction::Render, Role::Console, None)]);
    assert_eq!(selectors[0].period_frames(), 0);
}

#[test]
fn the_first_bad_argument_is_named() {
    assert_eq!(
        parse_args(args(&["ecapture,ecommunications", "eall,nope", "what,econsole"])),
        Err(ParseError { argument: 1, kind: ParseErrorKind::UnknownRole })
    );
    assert_eq!(
        parse_args(args(&["ecapture", "", "eall,nope"])),
        Err(ParseError { argument: 1, kind: ParseErrorKind::UnknownDirection })
    );
}

#[test]
fn a_bad_direction_is_named_before_a_bad_role() {
    assert_eq!(parse_selector("x,y,z"), Err(ParseErrorKind::UnknownDirection));
}

#[test]
fn one_selector_per_argument_in_order() {
    let selectors =
        parse_args(args(&["ecapture,emultimedia,128", "EALL,ECOMMUNICATIONS", "erender"]))
            .unwrap();
    assert_eq!(
        selectors,
        vec![
            selector(Direction::Capture, Role::Multimedia, Some(128)),
            selector(Direction::All, Role::Communications, None),
            selector(Direction::Render, Role::Console, None),
        ]
    );
}

#[test]
fn directions_and_roles_by_number() {
    assert_eq!(parse_selector("0,0"), Ok(selector(Direction::Render, Role::Console, None)));
    assert_eq!(parse_selector("1,1,64"), Ok(selector(Direction::Capture, Role::Multimedia, Some(64))));
    assert_eq!(parse_selector("2,2,0"), Ok(selector(Direction::All, Role::Communications, None)));
    assert_eq!(parse_selector("3,0"), Err(ParseErrorKind::UnknownDirection));
    assert_eq!(parse_selector("0,3"), Err(ParseErrorKind::UnknownRole));
    assert_eq!(parse_selector("-1,0"), Err(ParseErrorKind::UnknownDirection));
}

#[test]
fn a_missing_role_is_the_console_role() {
    assert_eq!(parse_selector("ecapture"), Ok(selector(Direction::Capture, Role::Console, None)));
}

#[test]
fn an_empty_field_is_no_name() {
    assert_eq!(parse_selector(""), Err(ParseErrorKind::UnknownDirection));
    assert_eq!(parse_selector(",econsole"), Err(ParseErrorKind::UnknownDirection));
    assert_eq!(parse_selector("erender,,480"), Err(ParseErrorKind::UnknownRole));
    assert_eq!(parse_selector("erender,econsole,"), Ok(selector(Direction::Render, Role::Console, None)));
}

#[test]
fn fields_after_the_third_are_not_read() {
    assert_eq!(
        parse_selector("eall,emultimedia,256,junk,more"),
        Ok(selector(Direction::All, Role::Multimedia, Some(256)))
    );
}

#[test]
fn blanks_are_not_trimmed() {
    assert_eq!(parse_selector(" erender,econsole"), Err(ParseErrorKind::UnknownDirection));
    assert_eq!(parse_selector("erender, econsole"), Err(ParseErrorKind::UnknownRole));
    assert_eq!(parse_selector("erender,econsole, 480"), Ok(selector(Direction::Render, Role::Console, None)));
}

#[test]
fn period_zero_asks_for_no_period() {
    assert_eq!(parse_selector("erender,econsole,0"), Ok(selector(Direction::Render, Role::Console, None)));
    assert_eq!(parse_period(&chars("0")), None);
    assert_eq!(parse_period(&chars("000")), None);
    assert_eq!(parse_period(&chars("96")), Some(96));
}

#[test]
fn numbers_are_read_as_decimal() {
    assert_eq!(parse_number(&chars("0")), Some(0));
    assert_eq!(parse_number(&chars("480")), Some(480));
    assert_eq!(parse_number(&chars("007")), Some(7));
    assert_eq!(parse_number(&chars("+5")), Some(5));
    assert_eq!(parse_number(&chars("4294967295")), Some(4294967295));
    assert_eq!(parse_number(&chars("0000000000004294967295")), Some(4294967295));
}

#[test]
fn what_is_no_number() {
    assert_eq!(parse_number(&chars("")), None);
    assert_eq!(parse_number(&chars("+")), None);
    assert_eq!(parse_number(&chars("-5")), None);
    assert_eq!(parse_number(&chars("++5")), None);
    assert_eq!(parse_number(&chars("5+")), None);
    assert_eq!(parse_number(&chars("12a")), None);
    assert_eq!(parse_number(&chars(" 12")), None);
    assert_eq!(parse_number(&chars("1.5")), None);
    assert_eq!(parse_number(&chars("4294967296")), None);
    assert_eq!(parse_number(&chars("4294967300")), None);
    assert_eq!(parse_number(&chars("99999999999999999999999")), None);
    assert_eq!(parse_number(&chars("42949672950")), None);
    assert_eq!(parse_number(&chars("٣")), None);
}

#[test]
fn numbers_agree_with_the_standard_parser() {
    for text in ["", "+", "-", "0", "+0", "-0", "12", "+12", "0012", "4294967295", "4294967296", "1e3", "１２"] {
        assert_eq!(parse_number(&chars(text)), text.parse::<u32>().ok(), "{:?}", text);
    }
}

#[test]
fn names_are_read_whatever_their_case() {
    assert_eq!(parse_direction(&chars("erender")), Some(Direction::Render));
    assert_eq!(parse_direction(&chars("ERENDER")), Some(Direction::Render));
    assert_eq!(parse_direction(&chars("eCapture")), Some(Direction::Capture));
    assert_eq!(parse_direction(&chars("EaLl")), Some(Direction::All));
    assert_eq!(parse_direction(&chars("render")), None);
    assert_eq!(parse_direction(&chars("erenderx")), None);
    assert_eq!(parse_direction(&chars("econsole")), None);
    assert_eq!(parse_role(&chars("eConsole")), Some(Role::Console));
    assert_eq!(parse_role(&chars("EMULTIMEDIA")), Some(Role::Multimedia));
    assert_eq!(parse_role(&chars("eCommunications")), Some(Role::Communications));
    assert_eq!(parse_role(&chars("erender")), None);
    assert_eq!(parse_role(&chars("ecommunication")), None);
}

#[test]
fn names_agree_with_lower_casing() {
    for text in ["eRender", "ERENDER", "erendeR", "eRender ", "érender", "ERENDEſ", "eall", "EALL", "İ"] {
        assert_eq!(reads_as(&chars(text), "erender"), text.to_lowercase() == "erender", "{:?}", text);
        assert_eq!(reads_as(&chars(text), "eall"), text.to_lowercase() == "eall", "{:?}", text);
    }
}

#[test]
fn only_ascii_capitals_are_lowered() {
    assert_eq!(lower_char('A'), 'a');
    assert_eq!(lower_char('Z'), 'z');
    assert_eq!(lower_char('m'), 'm');
    assert_eq!(lower_char('@'), '@');
    assert_eq!(lower_char('['), '[');
    assert_eq!(lower_char('0'), '0');
    assert_eq!(lower_char('É'), 'É');
}

#[test]
fn tokens_split_at_every_comma() {
    let split = |text: &str| -> Vec<String> {
        split_fields(&chars(text)).iter().map(|f| f.iter().collect()).collect()
    };
    assert_eq!(split(""), vec![""]);
    assert_eq!(split("abc"), vec!["abc"]);
    assert_eq!(split("a,b,c"), vec!["a", "b", "c"]);
    assert_eq!(split(","), vec!["", ""]);
    assert_eq!(split("a,,b,"), vec!["a", "", "b", ""]);
    assert_eq!(split(",,"), vec!["", "", ""]);
    for text in ["", ",", "a,b", ",a,,b,", "erender,econsole,480"] {
        let expected: Vec<String> = text.split(',').map(|f| f.to_string()).collect();
        assert_eq!(split(text), expected);
    }
}

#[test]
fn strings_give_their_characters() {
    assert_eq!(chars_of(""), Vec::<char>::new());
    assert_eq!(chars_of("a,é,😀"), vec!['a', ',', 'é', ',', '😀']);
}

#[test]
fn codes_are_those_of_the_audio_subsystem() {
    assert_eq!(Direction::Render.to_code(), 0);
    assert_eq!(Direction::Capture.to_code(), 1);
    assert_eq!(Direction::All.to_code(), 2);
    assert_eq!(Role::Console.to_code(), 0);
    assert_eq!(Role::Multimedia.to_code(), 1);
    assert_eq!(Role::Communications.to_code(), 2);
}
