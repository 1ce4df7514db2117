//! Conversion of a value into a destructurable view of it, and a persistent
//! list that offers three such views.

mod list;
mod pattern;

pub use list::{clones_of, cons, nil, prepend_all, Count, List, Val, L};
pub use list::{
    lemma_count_of_prepends, lemma_latest_prepend_is_head, lemma_prepend_onto_clone,
    lemma_structural_round_trip,
};
pub use pattern::AsPattern;
