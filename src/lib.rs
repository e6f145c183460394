pub mod logline;
pub mod relevance;
pub mod scheduler;
pub mod sync;
pub mod text;
