//! Singly linked LIFO stacks whose nodes are owned one by one through their
//! links, with contracts stated over a sequence view (top of the stack first).

pub mod stack;
pub mod first;
pub mod second;
