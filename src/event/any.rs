use vstd::prelude::*;

verus! {

/// A type map: at most one value of each type, looked up by type.
#[verifier::external_type_specification]
#[verifier::external_body]
pub struct ExExtensions(hyper::http::Extensions);

/// Relies on `http::Extensions::get`: the value of type `T` in the map, if
/// there is one.
pub assume_specification<T: Send + Sync + 'static>[ hyper::http::Extensions::get::<T> ](
    ext: &hyper::http::Extensions,
) -> Option<&T>;

/// Relies on `http::Extensions`'s `Clone`, which clones each value.
pub assume_specification[ <hyper::http::Extensions as Clone>::clone ](
    ext: &hyper::http::Extensions,
) -> hyper::http::Extensions;

/// A value that a connector attaches to an extension event. Any type that
/// can be shared between threads and cloned qualifies.
pub trait AnyEventDataTrait: Clone + Send + Sync + 'static {

}

/// An event that only one platform knows: its platform, its kind, and the
/// connector's own data, which a handler reads back by its type.
#[derive(Clone, Debug)]
pub struct AnyEvent {
    pub server: String,
    pub kind: String,
    pub data: hyper::http::Extensions,
}

impl AnyEvent {
    /// The connector's data, if it is of type `T`.
    pub fn downcast_ref<T: AnyEventDataTrait>(&self) -> (r: Option<&T>) {
        self.data.get::<T>()
    }
}

} // verus!
