use benchmode::scheme::KnownPowerSchemes;
use benchmode::scheme::PowerScheme;
use benchmode::service::ServiceReply;
use benchmode::resolve::unalias;

fn reply(success: bool, output: &str) -> ServiceReply {
    ServiceReply { success, output: output.to_string() }
}

#[test]
fn unalias_extracts_identifier_from_report() {
    let r = reply(
        true,
        "Power Scheme GUID: 381b4222-f694-41f0-9685-ff5bb260df2e  (Balanced)\n",
    );
    assert_eq!(unalias(&r).unwrap(), "381b4222-f694-41f0-9685-ff5bb260df2e");
}

#[test]
fn unalias_takes_first_of_several_identifiers() {
    let r = reply(
        true,
        "one 11111111-2222-3333-4444-555555555555 two aaaaaaaa-bbbb-cccc-dddd-eeeeeeeeeeee",
    );
    assert_eq!(unalias(&r).unwrap(), "11111111-2222-3333-4444-555555555555");
}

#[test]
fn unalias_fails_on_failed_query() {
    let r = reply(false, "Power Scheme GUID: 381b4222-f694-41f0-9685-ff5bb260df2e");
    assert!(unalias(&r).is_none());
}

#[test]
fn unalias_fails_without_identifier_shaped_text() {
    let r = reply(true, "The power scheme does not exist.");
    assert!(unalias(&r).is_none());
    let too_short = reply(true, "1234567-f694-41f0-9685-ff5bb260df2e");
    assert!(unalias(&too_short).is_none());
}

#[test]
fn unalias_accepts_word_characters_beyond_hex() {
    // The pattern is word characters, not strict hexadecimal: a known
    // precision gap that is preserved.
    let r = reply(true, "zzzzzzzz-xxxx-yyyy-wwww-qqqqqqqq_qqq rest");
    assert_eq!(unalias(&r).unwrap(), "zzzzzzzz-xxxx-yyyy-wwww-qqqqqqqq_qqq");
}

#[test]
fn get_binds_handle_to_resolved_identifier() {
    let r = reply(true, "GUID: 381b4222-f694-41f0-9685-ff5bb260df2e (x)");
    let p = PowerScheme::get(&r).unwrap();
    assert_eq!(p.guid(), "381b4222-f694-41f0-9685-ff5bb260df2e");
    assert!(PowerScheme::get(&reply(false, "")).is_none());
}

#[test]
fn known_scheme_aliases() {
    assert_eq!(KnownPowerSchemes::Active.alias(), "scheme_current");
    assert_eq!(KnownPowerSchemes::Balanced.alias(), "scheme_balanced");
    assert_eq!(KnownPowerSchemes::Min.alias(), "scheme_min");
    assert_eq!(KnownPowerSchemes::Max.alias(), "scheme_max");
}
