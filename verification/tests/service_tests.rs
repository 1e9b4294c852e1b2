use benchmode::scheme::PowerScheme;
use benchmode::service::powercfg;
use benchmode::service::u32_decimal;
use benchmode::service::PowerSource;
use benchmode::service::ServiceCall;
use benchmode::service::ServiceReply;

fn scheme(guid: &str) -> PowerScheme {
    PowerScheme::get(&ServiceReply { success: true, output: guid.to_string() }).unwrap()
}

#[test]
fn decimal_rendering() {
    assert_eq!(u32_decimal(0), "0");
    assert_eq!(u32_decimal(9), "9");
    assert_eq!(u32_decimal(99), "99");
    assert_eq!(u32_decimal(12345), "12345");
    assert_eq!(u32_decimal(u32::MAX), "4294967295");
}

#[test]
fn query_arguments() {
    let call = ServiceCall::Query { target: "scheme_current".to_string() };
    assert_eq!(powercfg(&call), vec!["-query", "scheme_current"]);
}

#[test]
fn duplicate_arguments() {
    let src = scheme("11111111-2222-3333-4444-555555555555");
    let (call, copy) = src.duplicate("0ec54905-d1ac-43db-a6df-65cbe1a1dccf");
    assert_eq!(copy.guid(), "0ec54905-d1ac-43db-a6df-65cbe1a1dccf");
    assert_eq!(
        powercfg(&call),
        vec![
            "-duplicatescheme",
            "11111111-2222-3333-4444-555555555555",
            "0ec54905-d1ac-43db-a6df-65cbe1a1dccf",
        ],
    );
}

#[test]
fn change_name_arguments() {
    let s = scheme("11111111-2222-3333-4444-555555555555");
    let call = s.change_name("Benchmarks", "A scheme.");
    assert_eq!(
        powercfg(&call),
        vec!["-changename", "11111111-2222-3333-4444-555555555555", "Benchmarks", "A scheme."],
    );
}

#[test]
fn set_value_index_arguments() {
    let s = scheme("11111111-2222-3333-4444-555555555555");
    let ac = s.set_value_index(PowerSource::AC, "sub_processor", "PROCTHROTTLEMIN", 99);
    assert_eq!(
        powercfg(&ac),
        vec![
            "setacvalueindex",
            "11111111-2222-3333-4444-555555555555",
            "sub_processor",
            "PROCTHROTTLEMIN",
            "99",
        ],
    );
    let dc = s.set_value_index(PowerSource::DC, "sub_processor", "PERFBOOSTMODE", 0);
    assert_eq!(
        powercfg(&dc),
        vec![
            "setdcvalueindex",
            "11111111-2222-3333-4444-555555555555",
            "sub_processor",
            "PERFBOOSTMODE",
            "0",
        ],
    );
}

#[test]
fn activate_arguments() {
    let s = scheme("11111111-2222-3333-4444-555555555555");
    assert_eq!(
        powercfg(&s.activate()),
        vec!["-setactive", "11111111-2222-3333-4444-555555555555"],
    );
}
