//! Tracking of input state between snapshots.

pub mod keyboard;
pub mod mouse;
pub mod state;

pub use self::keyboard::{KeyboardSnapshot, KeyboardState};
pub use self::mouse::{MousePosition, MouseProximity, MouseSnapshot, MouseState};
pub use self::state::{
    AsRawState, CompositeState, Element, ElementSet, SetElement, Snapshot, SnapshotDifference,
    SnapshotState, SnapshotTransition, State,
};
