//! The core of a terminal browser for one web search: the request that is
//! sent, the write-once outcome that the fetch deposits, the selection that
//! moves over the results, and what the screen shows for each state.
//!
//! Everything here works on plain values. The program around it performs the
//! request, owns the terminal, and shares one [`state::State`] between the
//! fetch and the input loop.

pub mod cli;
pub mod google;
pub mod selection;
pub mod state;
pub mod tui;
