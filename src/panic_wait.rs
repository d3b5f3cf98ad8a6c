//! Text of the fatal-error report.
use vstd::prelude::*;
use vstd::string::StringExecFns;

verus! {

/// The whole text the panic path emits: `"\nFatal error: "`, the message and a
/// newline, or `"\nFatal error!\n"` when no message is available.
pub fn fatal_message(message: Option<&str>) -> (r: String)
    ensures
        message is Some ==> r@ == "\nFatal error: "@ + message->Some_0@ + "\n"@,
        message is None ==> r@ == "\nFatal error!\n"@,
{
    match message {
        Some(m) => {
            let mut r = String::from_str("\nFatal error: ");
            r.append(m);
            r.append("\n");
            r
        },
        None => String::from_str("\nFatal error!\n"),
    }
}

/// The message that reports the driver named `name` failing to initialize.
pub fn driver_failure_message(name: &str) -> (r: String)
    ensures
        r@ == "Error loading driver: "@ + name@,
{
    let mut r = String::from_str("Error loading driver: ");
    r.append(name);
    r
}

} // verus!
