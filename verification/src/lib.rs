//! Articulated rigid-body simulation core for a two-wheeled self-balancing
//! robot: a kinematic tree of links joined by free, fixed and motorised
//! revolute joints, stepped forward by a fixed-timestep symplectic
//! integrator over saturating fixed-point arithmetic.

pub mod detect;
pub mod errors;
pub mod fx;
pub mod joint;
pub mod laws;
pub mod linalg;
pub mod multibody;
pub mod physics;
pub mod shape;
pub mod store;
pub mod world;

pub use fx::FX_LIMIT;
pub use fx::SCALE;
pub use errors::PhysicsError;
pub use linalg::Pose;
pub use linalg::QuatFx;
pub use linalg::Vec3Fx;
pub use joint::Joint;
pub use physics::Parts;
pub use physics::PhysicsWorld;
