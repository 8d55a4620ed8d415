//! The call that the host makes: build the greeting and hand it over as a
//! Java string, or say that the host could not make one.

use crate::host::{java_text, new_java_string};
use crate::text::{greeting, greeting_text};
use jni::errors::Error;
use jni::objects::{JObject, JString};
use jni::JNIEnv;
use vstd::prelude::*;

verus! {

/// Why a call handed no greeting back.
#[derive(Debug, Clone, Copy, PartialEq, Eq, Structural)]
pub enum GreetingError {
    /// The host could not make the string.
    AllocationFailure,
}

/// Turns the host's answer into the call's result: the string that the host
/// made is handed on untouched, and every error of the host, whatever it
/// was, becomes `AllocationFailure`.
pub fn greeting_outcome<'local>(made: Result<JString<'local>, Error>) -> (outcome: Result<
    JString<'local>,
    GreetingError,
>)
    ensures
        made matches Ok(string) ==> outcome == Ok::<JString<'local>, GreetingError>(string),
        made is Err ==> outcome == Err::<JString<'local>, GreetingError>(
            GreetingError::AllocationFailure,
        ),
{
    match made {
        Ok(string) => Ok(string),
        Err(_) => Err(GreetingError::AllocationFailure),
    }
}

/// The native side of `MainActivity.helloFromNative()` in the package
/// `io.github.cargo.ndk.plugin`.
///
/// Asks the host, through `env`, for a Java string that holds the greeting.
/// The two handles are passed through or ignored, never looked into. Whether
/// the host can make the string is the host's to decide: the result is `Ok`
/// when it did, with a reference to a string that holds the greeting, and
/// `AllocationFailure` when it did not. There is nothing in between.
#[allow(non_snake_case)]
pub fn Java_io_github_cargo_ndk_plugin_MainActivity_helloFromNative<'local>(
    env: JNIEnv<'local>,
    _thiz: JObject<'local>,
) -> (outcome: Result<JString<'local>, GreetingError>)
    ensures
        outcome matches Ok(string) ==> java_text(string) == Some(greeting_text()),
        outcome matches Err(kind) ==> kind == GreetingError::AllocationFailure,
{
    let message = greeting();
    let made = new_java_string(&env, message);
    greeting_outcome(made)
}

/// A call that succeeds hands back a reference that is not null, to a string
/// that is not empty: the five characters of the greeting.
pub proof fn lemma_success_is_not_empty<'local>(
    env: JNIEnv<'local>,
    this: JObject<'local>,
    outcome: Result<JString<'local>, GreetingError>,
)
    requires
        call_ensures(
            Java_io_github_cargo_ndk_plugin_MainActivity_helloFromNative,
            (env, this),
            outcome,
        ),
    ensures
        outcome matches Ok(string) ==> (java_text(string) matches Some(text) && text.len() == 5),
{
}

/// Calls do not depend on one another. Take any two calls, in one context
/// or in two, one after the other or side by side: if both succeed, both
/// strings hold the same text, the greeting; if both fail, they fail alike.
pub proof fn lemma_calls_agree<'a, 'b>(
    first_env: JNIEnv<'a>,
    first_this: JObject<'a>,
    first: Result<JString<'a>, GreetingError>,
    second_env: JNIEnv<'b>,
    second_this: JObject<'b>,
    second: Result<JString<'b>, GreetingError>,
)
    requires
        call_ensures(
            Java_io_github_cargo_ndk_plugin_MainActivity_helloFromNative,
            (first_env, first_this),
            first,
        ),
        call_ensures(
            Java_io_github_cargo_ndk_plugin_MainActivity_helloFromNative,
            (second_env, second_this),
            second,
        ),
    ensures
        first matches Ok(a) ==> java_text(a) == Some(greeting_text()),
        first matches Ok(a) ==> (second matches Ok(b) ==> java_text(a) == java_text(b)),
        first matches Err(e) ==> (second matches Err(f) ==> e == f),
{
}

} // verus!
