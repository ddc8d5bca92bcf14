pub mod city;
pub mod game;
pub mod interface;
pub mod map;
pub mod messages;
pub mod utils;
