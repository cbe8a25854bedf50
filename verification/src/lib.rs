//! Voxel surface data and the input and window decisions of the playform
//! client, with their contracts.
pub mod fixed;
pub mod surface_vertex;
pub mod controls;
pub mod view_loop;
