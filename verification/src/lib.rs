//! Orthogonal slices through a scanned volume, prepared for a character-cell
//! terminal.
//!
//! The crate holds the exact, whole-number part of a viewer for volumes:
//!
//! - `utils::sampling`: the axis conventions, boxes in voxel-index space,
//!   the layout of sampling grids, and the cells and blocks between which
//!   samples are interpolated and averaged;
//! - `utils::brain_volume`: the shapes of arrays that can serve as a volume;
//! - `utils::slice_cache`: the bounded cache of sampled slices;
//! - `utils::colors`: the colour maps, and what a terminal shows for a colour;
//! - `utils::argminmax2`: the smallest and the largest of a run of integers;
//! - `utils::sampler3d`: the scaling of sizes;
//! - `widgets`: how a slice is fitted into the terminal, its crosshair and
//!   its cells, and the layout of the title bar, the colour bar and the list
//!   of the header's entries;
//! - `app` and `handler`: the state of the viewer and what a key does to it;
//! - `tui`: areas and cells of the terminal.
//!
//! Arithmetic on floating-point numbers is left to the caller: samples pass
//! through this crate as bit patterns or as colours, and coordinates as
//! values of a type that the caller chooses.
//!
//! Every function is verified against its contract. Calls into other crates
//! are made by a few small functions whose contracts are taken on trust;
//! each of them says so in its documentation.

pub mod app;
pub mod handler;
pub mod tui;
pub mod utils;
pub mod widgets;
