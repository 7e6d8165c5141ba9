pub mod argument;
pub mod cursor;
pub mod deque;
pub mod object;
pub mod property;
pub mod repr;
pub mod signal;
