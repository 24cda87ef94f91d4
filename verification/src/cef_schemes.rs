use vstd::prelude::*;

verus! {

/// CEF's flag for a standard scheme (relative URLs resolve as for http).
pub const SCHEME_STANDARD: i32 = 1;

/// CEF's flag for a secure scheme (treated like https).
pub const SCHEME_SECURE: i32 = 8;

/// The flags that every custom scheme of the application carries.
pub open spec fn custom_scheme_flags() -> i32 {
    SCHEME_SECURE | SCHEME_STANDARD
}

/// The custom schemes' flags are the standard flag (1) together with the secure flag (8).
pub proof fn law_custom_scheme_flags_are_standard_and_secure()
    ensures
        custom_scheme_flags() == 9,
        custom_scheme_flags() & SCHEME_STANDARD == SCHEME_STANDARD,
        custom_scheme_flags() & SCHEME_SECURE == SCHEME_SECURE,
{
    assert((8i32 | 1i32) == 9i32) by (bit_vector);
    assert((9i32 & 1i32) == 1i32) by (bit_vector);
    assert((9i32 & 8i32) == 8i32) by (bit_vector);
}

/// The custom schemes that the browser process and its helper processes both register
/// with CEF, in this order: `usr` and `res`, each standard and secure.
pub fn custom_schemes() -> (r: Vec<(&'static str, i32)>)
    ensures
        r@.len() == 2,
        r@[0].0@ == "usr"@,
        r@[1].0@ == "res"@,
        forall|i: int| 0 <= i < r@.len() ==> #[trigger] r@[i].1 == custom_scheme_flags(),
{
    let flags: i32 = SCHEME_SECURE | SCHEME_STANDARD;
    let mut r: Vec<(&'static str, i32)> = Vec::new();
    r.push(("usr", flags));
    r.push(("res", flags));
    r
}

/// One switch that the browser process adds to CEF's command line, with its value where
/// it has one.
pub struct CommandLineSwitch {
    pub name: &'static str,
    pub value: Option<&'static str>,
}

/// The switches that the browser process adds to CEF's command line, in this order.
pub fn command_line_switches() -> (r: Vec<CommandLineSwitch>)
    ensures
        r@.len() == 6,
        r@[0].name@ == "--no-zygote"@ && r@[0].value is None,
        r@[1].name@ == "--off-screen-rendering-enabled"@ && r@[1].value is None,
        r@[2].name@ == "disable-threaded-scrolling"@,
        r@[2].value matches Some(v) && v@ == "1"@,
        r@[3].name@ == "disable-features"@,
        r@[3].value matches Some(v) && v@ == "TouchpadAndWheelScrollLatching,AsyncWheelEvents"@,
        r@[4].name@ == "--use-mock-keychain"@ && r@[4].value is None,
        r@[5].name@ == "--disable-background-networking"@ && r@[5].value is None,
{
    let mut r: Vec<CommandLineSwitch> = Vec::new();
    r.push(CommandLineSwitch { name: "--no-zygote", value: None });
    r.push(CommandLineSwitch { name: "--off-screen-rendering-enabled", value: None });
    r.push(CommandLineSwitch { name: "disable-threaded-scrolling", value: Some("1") });
    r.push(
        CommandLineSwitch {
            name: "disable-features",
            value: Some("TouchpadAndWheelScrollLatching,AsyncWheelEvents"),
        },
    );
    r.push(CommandLineSwitch { name: "--use-mock-keychain", value: None });
    r.push(CommandLineSwitch { name: "--disable-background-networking", value: None });
    r
}

} // verus!
