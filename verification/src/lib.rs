//! Core simulation of a falling-piece stacking game: a rectangular playfield
//! of placed blocks, an actively falling piece, rotation with ordered
//! wall-kick candidates, gravity and lock-delay timers, and the per-tick
//! driver that sequences them.
//!
//! The crate owns no clock, input device, or renderer: the host passes a
//! monotonic time in milliseconds and an input snapshot into each tick and
//! reads the resulting state back out.

pub mod block;
pub mod game;
pub mod playfield;
pub mod position;
pub mod tetramino_shape;
pub mod timer;

pub use block::Block;
pub use block::BlockColor;
pub use game::ActiveTetramino;
pub use game::CollisionState;
pub use game::GameState;
pub use game::InputEvent;
pub use game::TetraminoManager;
pub use game::process_logic;
pub use playfield::CollisionDirection;
pub use playfield::CollisionResult;
pub use playfield::PlacedBlocks;
pub use playfield::Playfield;
pub use playfield::PlayfieldSize;
pub use position::Position;
pub use timer::TimerMs;
pub use tetramino_shape::RotationDirection;
pub use tetramino_shape::RotationResult;
pub use tetramino_shape::RotationState;
pub use tetramino_shape::Tetramino;
pub use tetramino_shape::TetraminoKind;
