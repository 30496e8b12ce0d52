//! The name of a command, in the form the session takes.

use futures_loco_protocol::loco_protocol::command::Method;
use vstd::prelude::*;
use vstd::string::StringSliceAdditionalSpecFns;

verus! {

/// `loco_protocol::command::Method`, the name of a command in the form the
/// session takes. A value is carried as it is; all that is said of one is the
/// text it holds, `method_text`.
#[verifier::external_type_specification]
#[verifier::external_body]
pub struct ExMethod(futures_loco_protocol::loco_protocol::command::Method);

/// The text that a `Method` holds: the string it dereferences to.
pub uninterp spec fn method_text(method: Method) -> Seq<char>;

/// Longest command name, in bytes, that a `Method` can hold.
pub const METHOD_CAPACITY: usize = 11;

/// Whether `name` can be the name of a command.
pub open spec fn fits(name: &str) -> bool {
    name.spec_bytes().len() <= METHOD_CAPACITY
}

/// `Method::new`. Trusted: it gives a method exactly when `name` takes at
/// most eleven bytes, and the method then holds `name`.
#[verifier::external_body]
pub(crate) fn method_new(name: &str) -> (method: Option<Method>)
    ensures
        method is Some <==> fits(name),
        method matches Some(m) ==> method_text(m) == name@,
{
    Method::new(name)
}

} // verus!
