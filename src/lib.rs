//! Control-plane core of a self-evolving agent runtime: request admission, skill
//! dispatch decisions, the patch lifecycle, the memory layers and the configuration
//! surface.
use vstd::prelude::*;

pub mod allow_list;
pub mod apply;
pub mod config;
pub mod dispatch;
pub mod evolve;
pub mod governor;
pub mod memory;
pub mod orchestrator;
pub mod patches;
pub mod status;
pub mod text;

pub use apply::{
    ApplyAction, ApplyEvent, ApplyPhase, ApplyRequest, ApplyResponse, ApplySession,
    ApplySwitches, TestSide,
};
pub use config::Settings;
pub use dispatch::{ActionRequest, ActionResponse, ActionRoute, ChildOutcome, DispatchPlan};
pub use governor::{RlmRequest, SafetyGovernor};
pub use memory::{MemoryLayers, PayloadField, PointKey, SearchPlan};
pub use orchestrator::RlmResponse;
pub use patches::{PatchRequest, PatchResponse, PendingPatch, Watchdog};
pub use status::{Code, Status};
