pub mod object;
pub mod state;
pub mod typestate;
pub mod paths;
pub mod facts;
pub mod transfer;
pub mod summary;
pub mod call;
pub mod refine;
pub mod dataflow;
pub mod precond;
pub mod height;
