//! Bindings are read-only by default; within a tree of owned values a borrow
//! of one node freezes or hides what hangs together with it, and nothing else.

use vstd::prelude::*;

verus! {

/// The bottom of the tree.
pub struct Leaf {
    pub value: i32,
}

/// A node that owns two leaves.
pub struct Branch {
    pub left: Leaf,
    pub right: Leaf,
}

/// The top of the tree: it owns two branches, and through them four leaves.
pub struct Root {
    pub left: Branch,
    pub right: Branch,
}

/// Takes shared and exclusive borrows of parts of one tree, in the
/// combinations that the borrow rules allow.
pub fn mutability() {
    // values are immutable by default
    let _x1: i32 = 25;

    // immutability extends inside the variable
    let _x2: Vec<i32> = vec![1, 2, 3];

    let mut root = Root {
        left: Branch { left: Leaf { value: 1 }, right: Leaf { value: 2 } },
        right: Branch { left: Leaf { value: 3 }, right: Leaf { value: 4 } },
    };

    // multiple read references are allowed
    // inside the same ownership tree
    {
        let _root_left = &root.left;
        let _root_left_left = &root.left.left;
        assert(_root_left.left == *_root_left_left);
    }

    // a read reference in the tree makes the children
    // and the ancestors immutable
    {
        let _root_left = &root.left;

        // other parts of the tree are free game
        let _root_right = &mut root.right;
    }

    // a mutable reference in the tree makes the children
    // accessible only through that reference
    // and the ancestors inaccessible
    {
        let root_left = &mut root.left;

        // other parts of the tree are free game
        let _root_right = &root.right;

        // children are accessible through
        // the mutable reference
        let _root_left_left = &root_left.left;
        let _root_left_right = &mut root_left.right;
    }

    assert(root.left.left.value == 1);
    assert(root.right.right.value == 4);
}

} // verus!
