//! A generic binary tree.

use vstd::prelude::*;

verus! {

pub enum BinaryTree<T> {
    Empty,
    Node { value: T, left: Box<BinaryTree<T>>, right: Box<BinaryTree<T>> },
}

impl<T> BinaryTree<T> {
    /// The empty tree.
    pub fn new() -> (r: BinaryTree<T>)
        ensures
            r is Empty,
    {
        BinaryTree::Empty
    }

    /// A tree of one node holding `value`, with empty children.
    pub fn leaf(value: T) -> (r: BinaryTree<T>)
        ensures
            (r matches BinaryTree::Node { value: v, left, right } && v == value && (*left)
                is Empty && (*right) is Empty),
    {
        BinaryTree::Node {
            value,
            left: Box::new(BinaryTree::Empty),
            right: Box::new(BinaryTree::Empty),
        }
    }
}

} // verus!
