//! An analog clock face: the decomposition of a wall-clock time into the
//! 12-hour units that drive the hands, the exact angle of each hand, and the
//! fixed layout of the dial and the three hand sprites.
pub mod time;
pub mod hands;
pub mod scene;
