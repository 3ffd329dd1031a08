//! Simulation core of a small real-time 2D game: bodies and their world,
//! physics with collision detection, collision reactions and loop timing.

pub mod animointi;
pub mod fysiikka;
pub mod maailma;
pub mod paivitys;
pub mod peli;
pub mod piirtaja;
pub mod silmukka;
pub mod spawneri;
pub mod syotteet;
pub mod tekoaly;
pub mod tormays;
