//! The tree under the names its concurrency-facing users go by.
//!
//! A tree of plain values is already safe to hand across threads, so the
//! shareable tree is the same type as [`crate::tree::Tree`]; these aliases
//! keep the names that the virtual filesystem and its callers use.

use vstd::prelude::*;

use crate::tree::BfsTreeIterator;
use crate::tree::DfsTreeIterator;
use crate::tree::Tree;

verus! {

/// A tree fit for sharing across concurrent components.
pub type SendTree<T> = Tree<T>;

/// A configured depth-first traversal over a borrowed [`SendTree`].
pub type DfsSendTreeIterator<'a, T> = DfsTreeIterator<'a, T>;

/// A configured breadth-first traversal over a borrowed [`SendTree`].
pub type BfsSendTreeIterator<'a, T> = BfsTreeIterator<'a, T>;

} // verus!
