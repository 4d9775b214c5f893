use vstd::prelude::*;

verus! {

/// An entry of the scene's index table: the number of a vertex in the
/// scene-wide vertex table.
#[derive(Debug, Clone, Copy, PartialEq, Eq, Structural)]
pub struct Index {
    pub index: u32,
}

impl Index {
    pub fn new(index: u32) -> (r: Index)
        ensures
            r.index == index,
    {
        Index { index }
    }
}

/// Where a mesh's vertices begin in the scene-wide vertex table.
#[derive(Debug, Clone, Copy, PartialEq, Eq, Structural)]
pub struct VertexOffset {
    pub offset: u32,
}

impl VertexOffset {
    pub fn new(offset: u32) -> (r: VertexOffset)
        ensures
            r.offset == offset,
    {
        VertexOffset { offset }
    }
}

/// Per-instance data the trace kernel reads: where the instance's mesh
/// begins in the scene-wide index table.
#[derive(Debug, Clone, Copy, PartialEq, Eq, Structural)]
pub struct InstanceInfo {
    pub index_offset: u32,
}

impl InstanceInfo {
    pub fn new(index_offset: u32) -> (r: InstanceInfo)
        ensures
            r.index_offset == index_offset,
    {
        InstanceInfo { index_offset }
    }
}

} // verus!
