//! A transposition table for game-tree search: a fixed-capacity cache from
//! position keys to packed search results, organised in clusters of three
//! entries with depth- and age-aware replacement.

pub mod cluster;
pub mod entry;
pub mod moves;
pub mod table;
pub mod types;

pub use cluster::TTCluster;
pub use entry::TTEntry;
pub use moves::{Move, Piece, Position, Square};
pub use table::{ThreadPool, TranspositionTable};
pub use types::{Bound, Depth, Key, Value};
