//! Control core for a legged robot: the joint registry, the command layer
//! and the closed-loop walk controller, written without I/O.
//!
//! Every remote call is represented by a request value that the caller
//! sends and by an event that the caller hands back, so that each decision
//! is a total function with a proved contract.

pub mod command;
pub mod config;
pub mod error;
pub mod face;
pub mod joint;
pub mod link;
pub mod policy;
pub mod robot;
pub mod routines;
pub mod scalar;
pub mod startup;
pub mod walk;

pub use command::JointTarget;
pub use config::Config;
pub use error::{ControlError, InferenceError, RpcError};
pub use joint::{Axis, Dof, Joint};
pub use link::{
    ActuatorCommand, ActuatorSettings, ActuatorState, CommandActuatorsRequest,
    ConfigureActuatorRequest, GetActuatorsStateRequest, JointCommand,
};
pub use policy::{PolicyOutput, PolicyTarget};
pub use robot::{KBot, Robot};
pub use routines::{dab, info, muscles, routine_step, zero, RoutineAction};
pub use scalar::{Scalar, Triple};
pub use startup::{Startup, StartupAction, StartupEvent, StartupPhase};
pub use walk::{
    command_all_joints, walk, Action, Event, ImuValues, Observation, Phase, Stage, TickOutcome,
    WalkConfig, WalkLoop,
};
