//! Demo endpoints: a greeting that randomly refuses, and the hello message
//! that reports where the configuration came from.

use vstd::prelude::*;
use vstd::string::StringExecFns;

verus! {

/// The generator declined to produce a message.
#[derive(Copy, Clone, PartialEq, Eq, Structural, Debug)]
pub struct NoMessage;

/// Relies on `rand::random` for a coin toss; nothing can be promised of a
/// random value.
pub assume_specification<T>[ rand::random::<T> ]() -> (r: T)
    where
        rand::distributions::Standard: rand::distributions::Distribution<T>,
;

/// The message for a given coin toss: an unlucky toss yields no message at
/// all, a lucky one the greeting.
pub fn message_for(unlucky: bool) -> (r: Result<&'static str, NoMessage>)
    ensures
        r is Ok <==> !unlucky,
        r matches Ok(m) ==> m@ == "Hello World"@,
{
    if unlucky {
        Err(NoMessage)
    } else {
        Ok("Hello World")
    }
}

/// Draws a random coin and produces the greeting, or declines.
pub fn generate_message() -> (r: Result<&'static str, NoMessage>)
    ensures
        r matches Ok(m) ==> m@ == "Hello World"@,
{
    let unlucky: bool = rand::random();
    message_for(unlucky)
}

/// The hello handler's body: greets and names the configuration source.
pub fn hello_message(location: Option<&String>) -> (r: String)
    ensures
        r@ == "\nhello world! Using configuration from "@ + (match location {
            Some(l) => l@,
            None => "missing config location"@,
        }) + "\n\n"@,
{
    let mut s = "\nhello world! Using configuration from ".to_owned();
    match location {
        Some(l) => s.append(l.as_str()),
        None => s.append("missing config location"),
    }
    s.append("\n\n");
    s
}

} // verus!
