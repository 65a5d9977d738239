//! A verified builder for a textured unit-cube triangle mesh.
//!
//! The mesh is a unit cube centered at the origin (right-handed axes,
//! y up, z back). Each of the six faces owns four vertices of its own, so
//! that every vertex can carry the face's outward normal and the face's
//! slot in a six-strip texture atlas. All coordinates are exact integers:
//! positions are counted in half-units, texture U coordinates in sixths of
//! the atlas width, and normals are unit axis vectors. A renderer divides
//! by two and by six when it turns the mesh into floating-point buffers.

pub mod cube_mesh;
pub mod manifold;
