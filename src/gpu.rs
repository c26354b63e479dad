//! Handles of the `grr` graphics API that the library carries without
//! looking inside them.

use vstd::prelude::*;

verus! {

/// An image (texture storage) created by the host on the GPU.
#[verifier::external_type_specification]
#[verifier::external_body]
pub struct ExImage(grr::Image);

/// The graphics pipeline that every mesh is drawn with.
#[verifier::external_type_specification]
#[verifier::external_body]
pub struct ExPipeline(grr::Pipeline);

/// The vertex array that describes the mesh vertex layout.
#[verifier::external_type_specification]
#[verifier::external_body]
pub struct ExVertexArray(grr::VertexArray);

} // verus!
