//! Falling snow that piles up, rendered into a pixel buffer frame by frame.
//!
//! Flakes fall at a constant speed and sway on a sine. A flake that lands on
//! settled snow slides to a free cell beside it or, on a local peak, becomes
//! part of the snowbank and is recycled above the top edge. Flakes never
//! meet each other, only the snowbank.
//!
//! A host sets the simulation up once ([`sim::init`]) and renders one frame
//! at a time ([`sim::render`]). The library draws no random number and
//! takes no sine itself: the host hands in uniform draws and sine samples as
//! whole numbers, in the units of [`units`], so that a frame is a function
//! of the state and the draws alone.
//!
//! - [`framebuffer`]: the pixel grid with its bounds-checked accessors.
//! - [`units`]: the fixed-point units and the configured sizes.
//! - [`sine`]: the sine lookup table.
//! - [`flake`]: one particle and how it is placed, recycled and moved.
//! - [`balance`]: landing, sliding and settling on the snowbank.
//! - [`sim`]: the simulation state and the frame.

pub mod framebuffer;
pub mod units;
pub mod sine;
pub mod flake;
pub mod balance;
pub mod sim;
