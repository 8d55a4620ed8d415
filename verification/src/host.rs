//! The host runtime as the library sees it: opaque handles of the `jni` crate,
//! and the one call that builds a Java string.

use jni::errors::Error;
use jni::objects::{JObject, JString};
use jni::JNIEnv;
use vstd::prelude::*;

verus! {

/// The execution context that the host hands to a native call. Opaque.
#[verifier::external_type_specification]
#[verifier::external_body]
pub struct ExJNIEnv<'local>(JNIEnv<'local>);

/// What a raw host reference points at: nothing that Rust can look into.
/// It is declared because `JObject` names it.
#[verifier::external_type_specification]
#[verifier::external_body]
pub struct ExRawObject(jni::sys::_jobject);

/// A reference to an object of the host. Opaque.
#[verifier::external_type_specification]
#[verifier::external_body]
pub struct ExJObject<'local>(JObject<'local>);

/// A reference to a string of the host. Opaque; what it refers to is named
/// by [`java_text`].
#[verifier::external_type_specification]
#[verifier::external_body]
pub struct ExJString<'local>(JString<'local>);

/// Why a call into the host failed. Opaque.
#[verifier::external_type_specification]
#[verifier::external_body]
pub struct ExError(Error);

/// The text of the Java string that `string` refers to: `None` for the null
/// reference, else the characters of the string. A Java string never
/// changes, so this is fixed for as long as the reference is valid. Of a
/// reference to anything but a string nothing is said.
pub uninterp spec fn java_text(string: JString<'_>) -> Option<Seq<char>>;

/// `JNIEnv::new_string`: asks the host for a new Java string made from
/// `text`.
///
/// Trusted, not proved. The call re-encodes `text` and hands it to the host's
/// `NewStringUTF`; it answers `Ok` only with a non-null reference and with no
/// exception pending, and that reference is to a string holding `text`.
/// Whether the host can make the string is not decided here, so nothing is
/// said of when the answer is `Ok`.
#[verifier::external_body]
pub(crate) fn new_java_string<'local>(env: &JNIEnv<'local>, text: &str) -> (made: Result<
    JString<'local>,
    Error,
>)
    ensures
        made matches Ok(string) ==> java_text(string) == Some(text@),
{
    env.new_string(text)
}

} // verus!
