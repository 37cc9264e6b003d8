//! Small components with verified contracts: a cache that memoizes a
//! computation per key, a workout planner built on it, string slicing and
//! segmentation, ordering, geometry, and a few data types with their methods.

pub mod closures;
pub mod generics;
pub mod slices;
pub mod elisions;
pub mod traits;
pub mod lifetime_annotation;
pub mod function_lifetimes;
pub mod structs;
pub mod art;
pub mod smart_pointers;
pub mod adder;
pub mod enums;
pub mod fn_closures;
pub mod restaurant;
pub mod strings;
pub mod iterators;
