//! Segmented 2D grid spatial index with bounded local pathfinding.
//!
//! Cell coordinates, rectangles and directions live in `geometry`; `grid`
//! holds a grid's dimensions, its compass partition and its area helpers;
//! `segment` converts between a window's frames; `grid_data` holds per-cell
//! state; `pathfinding` scans and searches inside a window; `avoidance`
//! decides on detours; `iterators` and `spiral` walk cells; `display`
//! classifies cells for views.

pub mod geometry;
pub mod grid;
pub mod segment;
pub mod grid_data;
pub mod pathfinding;
pub mod avoidance;
pub mod iterators;
pub mod display;
pub mod spiral;
