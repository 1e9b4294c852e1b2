use vstd::prelude::*;
use vstd::string::StringExecFns;

verus! {

/// Selects which of the two independent parameter tables of a scheme a
/// value write applies to: mains power (AC) or battery power (DC).
#[derive(Clone, Copy, PartialEq, Eq, Structural, Debug)]
pub enum PowerSource {
    AC,
    DC,
}

/// One request to the OS power-configuration service. Every operation of
/// this system is a single such invocation; the service answers with a
/// process status, and with a textual report for `Query`.
#[derive(Debug)]
pub enum ServiceCall {
    Query { target: String },
    Duplicate { source: String, target: String },
    ChangeName { target: String, name: String, description: String },
    SetValue { target: String, source: PowerSource, subgroup: String, setting: String, value: u32 },
    SetActive { target: String },
}

/// Mathematical image of a `ServiceCall`: the same shape over `Seq<char>`.
pub enum CallV {
    Query { target: Seq<char> },
    Duplicate { source: Seq<char>, target: Seq<char> },
    ChangeName { target: Seq<char>, name: Seq<char>, description: Seq<char> },
    SetValue { target: Seq<char>, source: PowerSource, subgroup: Seq<char>, setting: Seq<char>, value: u32 },
    SetActive { target: Seq<char> },
}

impl View for ServiceCall {
    type V = CallV;

    open spec fn view(&self) -> CallV {
        match self {
            ServiceCall::Query { target } => CallV::Query { target: target@ },
            ServiceCall::Duplicate { source, target } => CallV::Duplicate {
                source: source@,
                target: target@,
            },
            ServiceCall::ChangeName { target, name, description } => CallV::ChangeName {
                target: target@,
                name: name@,
                description: description@,
            },
            ServiceCall::SetValue { target, source, subgroup, setting, value } => CallV::SetValue {
                target: target@,
                source: *source,
                subgroup: subgroup@,
                setting: setting@,
                value: *value,
            },
            ServiceCall::SetActive { target } => CallV::SetActive { target: target@ },
        }
    }
}

/// What the service hands back for one call: its process status, and the
/// text it printed (only `Query` replies carry meaningful text).
#[derive(Debug)]
pub struct ServiceReply {
    pub success: bool,
    pub output: String,
}

/// Mathematical image of a `ServiceReply`.
pub struct ReplyV {
    pub success: bool,
    pub output: Seq<char>,
}

impl View for ServiceReply {
    type V = ReplyV;

    open spec fn view(&self) -> ReplyV {
        ReplyV { success: self.success, output: self.output@ }
    }
}

/// What the orchestrator asks its driver to do next: invoke the service
/// once, or hold (sleep) for the given number of seconds.
#[derive(Debug)]
pub enum Action {
    Invoke(ServiceCall),
    Hold(u64),
}

/// Mathematical image of an `Action`.
pub enum ActV {
    Invoke(CallV),
    Hold(u64),
}

impl View for Action {
    type V = ActV;

    open spec fn view(&self) -> ActV {
        match self {
            Action::Invoke(c) => ActV::Invoke(c@),
            Action::Hold(secs) => ActV::Hold(*secs),
        }
    }
}

/// What the driver hands back after performing an `Action`: the service's
/// reply to an invocation, or the fact that the hold elapsed.
#[derive(Debug)]
pub enum Event {
    Replied(ServiceReply),
    Held,
}

/// Mathematical image of an `Event`.
pub enum EventV {
    Replied(ReplyV),
    Held,
}

impl View for Event {
    type V = EventV;

    open spec fn view(&self) -> EventV {
        match self {
            Event::Replied(r) => EventV::Replied(r@),
            Event::Held => EventV::Held,
        }
    }
}

/// The decimal digit character for `d` (`d < 10`).
pub open spec fn spec_digit_char(d: nat) -> char {
    if d == 0 {
        '0'
    } else if d == 1 {
        '1'
    } else if d == 2 {
        '2'
    } else if d == 3 {
        '3'
    } else if d == 4 {
        '4'
    } else if d == 5 {
        '5'
    } else if d == 6 {
        '6'
    } else if d == 7 {
        '7'
    } else if d == 8 {
        '8'
    } else {
        '9'
    }
}

/// The decimal rendering of `n`, most significant digit first, with no
/// leading zeros (a single `'0'` for zero).
pub open spec fn dec_seq(n: nat) -> Seq<char>
    decreases n,
{
    if n < 10 {
        seq![spec_digit_char(n)]
    } else {
        dec_seq(n / 10) + seq![spec_digit_char(n % 10)]
    }
}

fn digit_str(d: u32) -> (r: &'static str)
    requires
        d < 10,
    ensures
        r@ == seq![spec_digit_char(d as nat)],
{
    let r: &'static str = match d {
        0 => "0",
        1 => "1",
        2 => "2",
        3 => "3",
        4 => "4",
        5 => "5",
        6 => "6",
        7 => "7",
        8 => "8",
        _ => "9",
    };
    proof {
        reveal_strlit("0");
        reveal_strlit("1");
        reveal_strlit("2");
        reveal_strlit("3");
        reveal_strlit("4");
        reveal_strlit("5");
        reveal_strlit("6");
        reveal_strlit("7");
        reveal_strlit("8");
        reveal_strlit("9");
        assert(r@ =~= seq![spec_digit_char(d as nat)]);
    }
    r
}

/// Renders an unsigned value as its decimal digits, as the service expects
/// scalar setting values on its command line.
pub fn u32_decimal(n: u32) -> (r: String)
    ensures
        r@ == dec_seq(n as nat),
    decreases n,
{
    if n < 10 {
        digit_str(n).to_owned()
    } else {
        let mut s = u32_decimal(n / 10);
        s.append(digit_str(n % 10));
        proof {
            assert(s@ =~= dec_seq(n as nat));
        }
        s
    }
}

/// The exact command-line argument list that one `ServiceCall` turns into.
pub open spec fn call_args(c: CallV) -> Seq<Seq<char>> {
    match c {
        CallV::Query { target } => seq!["-query"@, target],
        CallV::Duplicate { source, target } => seq!["-duplicatescheme"@, source, target],
        CallV::ChangeName { target, name, description } => seq![
            "-changename"@,
            target,
            name,
            description,
        ],
        CallV::SetValue { target, source, subgroup, setting, value } => seq![
            (match source {
                PowerSource::AC => "setacvalueindex"@,
                PowerSource::DC => "setdcvalueindex"@,
            }),
            target,
            subgroup,
            setting,
            dec_seq(value as nat),
        ],
        CallV::SetActive { target } => seq!["-setactive"@, target],
    }
}

/// Builds the argument list for one invocation of the OS power-configuration
/// command. The driver passes the result, in order, to the external command.
pub fn powercfg(call: &ServiceCall) -> (args: Vec<String>)
    ensures
        args@.len() == call_args(call@).len(),
        forall|i: int| 0 <= i < args@.len() ==> args@[i]@ == call_args(call@)[i],
{
    let mut args: Vec<String> = Vec::new();
    match call {
        ServiceCall::Query { target } => {
            args.push("-query".to_owned());
            args.push(target.clone());
        },
        ServiceCall::Duplicate { source, target } => {
            args.push("-duplicatescheme".to_owned());
            args.push(source.clone());
            args.push(target.clone());
        },
        ServiceCall::ChangeName { target, name, description } => {
            args.push("-changename".to_owned());
            args.push(target.clone());
            args.push(name.clone());
            args.push(description.clone());
        },
        ServiceCall::SetValue { target, source, subgroup, setting, value } => {
            match source {
                PowerSource::AC => args.push("setacvalueindex".to_owned()),
                PowerSource::DC => args.push("setdcvalueindex".to_owned()),
            }
            args.push(target.clone());
            args.push(subgroup.clone());
            args.push(setting.clone());
            args.push(u32_decimal(*value));
        },
        ServiceCall::SetActive { target } => {
            args.push("-setactive".to_owned());
            args.push(target.clone());
        },
    }
    args
}

} // verus!
