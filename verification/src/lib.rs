//! Per-frame collision detection for a small real-time game.
//!
//! Given a snapshot of all collidable objects (one player, plus sequences of
//! enemies, projectiles, experience orbs, and treasure chests), the detector
//! reports every overlapping pair according to four fixed category rules:
//! projectile-vs-enemy, player-vs-enemy, player-vs-orb, player-vs-chest.
//!
//! Positions and radii are fixed-point world units held in integers, so the
//! geometric overlap test is exact; callers working in fractional units scale
//! their coordinates into these units at the boundary.

pub mod detector;
pub mod objects;
