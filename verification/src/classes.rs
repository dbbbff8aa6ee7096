//! A small slice of the engine's class hierarchy, with its registry ids and
//! subclass relation: `Node2D` inherits `Node`, which inherits `Object`, the
//! root. Enough to instantiate the marshalling layer against real classes.

use vstd::prelude::*;
use vstd::string::StringExecFns;
use crate::meta::ClassName;
use crate::obj::{GodotClass, Inherits};

verus! {

/// Root of the class hierarchy.
pub struct Object;

/// A scene-tree node; direct subclass of [`Object`].
pub struct Node;

/// A two-dimensional node; direct subclass of [`Node`].
pub struct Node2D;

pub const OBJECT_CLASS_ID: u64 = 1;

pub const NODE_CLASS_ID: u64 = 2;

pub const NODE2D_CLASS_ID: u64 = 3;

impl GodotClass for Object {
    open spec fn class_id_spec() -> u64 {
        OBJECT_CLASS_ID
    }

    open spec fn ancestry_spec() -> Seq<u64> {
        seq![OBJECT_CLASS_ID]
    }

    open spec fn name_spec() -> Seq<char> {
        "Object"@
    }

    proof fn ancestry_facts() {
    }

    fn class_id() -> (r: u64) {
        OBJECT_CLASS_ID
    }

    fn class_name() -> (r: ClassName) {
        ClassName { id: OBJECT_CLASS_ID, name: String::from_str("Object") }
    }
}

impl GodotClass for Node {
    open spec fn class_id_spec() -> u64 {
        NODE_CLASS_ID
    }

    open spec fn ancestry_spec() -> Seq<u64> {
        seq![NODE_CLASS_ID, OBJECT_CLASS_ID]
    }

    open spec fn name_spec() -> Seq<char> {
        "Node"@
    }

    proof fn ancestry_facts() {
    }

    fn class_id() -> (r: u64) {
        NODE_CLASS_ID
    }

    fn class_name() -> (r: ClassName) {
        ClassName { id: NODE_CLASS_ID, name: String::from_str("Node") }
    }
}

impl GodotClass for Node2D {
    open spec fn class_id_spec() -> u64 {
        NODE2D_CLASS_ID
    }

    open spec fn ancestry_spec() -> Seq<u64> {
        seq![NODE2D_CLASS_ID, NODE_CLASS_ID, OBJECT_CLASS_ID]
    }

    open spec fn name_spec() -> Seq<char> {
        "Node2D"@
    }

    proof fn ancestry_facts() {
    }

    fn class_id() -> (r: u64) {
        NODE2D_CLASS_ID
    }

    fn class_name() -> (r: ClassName) {
        ClassName { id: NODE2D_CLASS_ID, name: String::from_str("Node2D") }
    }
}

impl Inherits<Object> for Node {
    proof fn inherits_fact() {
        assert(Node::ancestry_spec().contains(Object::class_id_spec())) by {
            assert(Node::ancestry_spec()[1] == OBJECT_CLASS_ID);
        }
    }
}

impl Inherits<Node> for Node2D {
    proof fn inherits_fact() {
        assert(Node2D::ancestry_spec().contains(Node::class_id_spec())) by {
            assert(Node2D::ancestry_spec()[1] == NODE_CLASS_ID);
        }
    }
}

impl Inherits<Object> for Node2D {
    proof fn inherits_fact() {
        assert(Node2D::ancestry_spec().contains(Object::class_id_spec())) by {
            assert(Node2D::ancestry_spec()[2] == OBJECT_CLASS_ID);
        }
    }
}

} // verus!
