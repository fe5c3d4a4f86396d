pub mod graph;

pub use graph::{lemma_replication_counts, Graph};
