//! A minimal Rust side of one generated object, mirroring the glue the
//! generated C++ class drives: `create_rs_my_object` is the `createRs` entry
//! point the default constructor calls, and the wrapper methods are the layer
//! the bridge declares between the two sides.

use vstd::prelude::*;

verus! {

/// The Rust half of the sample object.
#[derive(Debug, PartialEq, Eq, Structural)]
pub struct MyObject;

/// A stand-in for the framework half of the sample object, which the
/// wrappers delegate to.
#[derive(Debug, PartialEq, Eq, Structural)]
pub struct MyObjectQt;

impl Default for MyObject {
    /// The freshly created Rust half.
    fn default() -> (r: MyObject)
        ensures
            r == MyObject,
    {
        MyObject
    }
}

impl MyObjectQt {
    /// The sample invokable with a primitive return value.
    pub fn invokable_return_primitive(&mut self) -> (r: i32)
        ensures
            r == 2,
    {
        2
    }
}

impl MyObject {
    /// The bridge wrapper for [`MyObjectQt::invokable_return_primitive`]:
    /// returns exactly what the framework half returns.
    pub fn invokable_return_primitive_wrapper(&mut self, cpp: &mut MyObjectQt) -> (r: i32)
        ensures
            r == 2,
    {
        cpp.invokable_return_primitive()
    }
}

/// The `createRs` entry point of the sample object: hands the framework side
/// a freshly created Rust half.
pub fn create_rs_my_object() -> (r: Box<MyObject>)
    ensures
        *r == MyObject,
{
    Box::new(MyObject::default())
}

} // verus!
