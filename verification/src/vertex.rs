//! The plain vertex: a position and texture coordinates.

use vstd::prelude::*;
use crate::command::Command;
use crate::mesh::vertex::{attribute_words, valid_layout, VertexLayout};

verus! {

/// The vertex of an unlit, textured mesh: 5 words, 20 bytes.
#[derive(Clone, Copy, Debug, PartialEq, Eq)]
pub struct Vertex {
    pub position: [u32; 3],
    pub uv: [u32; 2],
}

impl Vertex {
    pub fn new(position: [u32; 3], uv: [u32; 2]) -> (vertex: Vertex)
        ensures
            vertex == (Vertex { position, uv }),
    {
        Vertex { position, uv }
    }
}

impl crate::mesh::vertex::Vertex for Vertex {
    /// Position and texture coordinates.
    open spec fn spec_components() -> Seq<u32> {
        seq![3u32, 2u32]
    }

    open spec fn spec_attributes(&self) -> Seq<Seq<u32>> {
        seq![self.position@, self.uv@]
    }

    proof fn lemma_attributes(&self) {
    }

    fn layout() -> (layout: VertexLayout) {
        let components: Vec<u32> = vec![3, 2];
        assert(components@ =~= Self::spec_components());
        assert(valid_layout(components@));
        VertexLayout::new(components).unwrap()
    }

    fn write_words(&self, out: &mut Vec<u32>) {
        out.push(self.position[0]);
        out.push(self.position[1]);
        out.push(self.position[2]);
        out.push(self.uv[0]);
        out.push(self.uv[1]);
        proof {
            reveal_with_fuel(attribute_words, 3);
            assert(out@ =~= old(out)@ + attribute_words(self.spec_attributes(), 2));
        }
    }

    fn set_vertex_attrib_pointer() -> (commands: Vec<Command>) {
        Self::layout().commands()
    }
}

} // verus!
