pub mod bindless;
pub mod input_state;
pub mod lsystem;
pub mod parcel_test_common;
pub mod render_target;
pub mod segment;
pub mod splat_viewer;
