//! Discrete core of a small family of iterative learners: the run
//! schedule shared by gradient descent and k-means, cluster assignment
//! and grouping, seeded initial sampling, likelihood batching, element-wise
//! weight updates and comma-separated table fields.
pub mod batches;
pub mod clusters;
pub mod elementwise;
pub mod sampling;
pub mod schedule;
pub mod table;

pub use batches::batch_outcomes;
pub use clusters::{assign_points, group_by_cluster, nearest_cluster};
pub use elementwise::pair_map;
pub use sampling::{initial_sources, SeededDraws, INIT_SEED};
pub use schedule::{Phase, Run};
pub use table::{label_column, split_fields};
